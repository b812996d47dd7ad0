//! The hashing worker pool.
//!
//! Password hashing is deliberately CPU-expensive, so it must never run on a
//! request handler's own execution context.  The pool owns a bounded
//! multi-producer/multi-consumer dispatch queue of [`WorkOrder`]s and a fixed
//! set of worker threads.  Each call builds a work order with a fresh
//! single-use reply channel, submits it, and waits on that channel; a worker
//! pulls the order, runs the blocking bcrypt call, and sends the result back
//! on the order's private channel.  The reply channel itself is the request
//! identity: no result table and no request ids are needed.

use vstd::prelude::*;

verus! {

// ---------------------------------------------------------------------------
// Outside types that appear in signatures and fields.
// ---------------------------------------------------------------------------

#[verifier::external_type_specification]
#[verifier::external_body]
#[verifier::reject_recursive_types(T)]
pub struct ExFlumeSender<T>(flume::Sender<T>);

#[verifier::external_type_specification]
#[verifier::external_body]
#[verifier::reject_recursive_types(T)]
pub struct ExFlumeReceiver<T>(flume::Receiver<T>);

#[verifier::external_type_specification]
#[verifier::external_body]
pub struct ExThreadPool(rayon::ThreadPool);

#[verifier::external_type_specification]
#[verifier::external_body]
pub struct ExBcryptError(bcrypt::BcryptError);

// ---------------------------------------------------------------------------
// What the bcrypt primitive computes.
//
// A bcrypt digest is a function of the plaintext, the cost and the salt; the
// salt is drawn fresh from the operating system on every hash, so the digest
// returned for a given plaintext cannot be named.  What can be named is the
// deterministic relation the digests obey: whether a candidate digest string
// is one that bcrypt accepts at all, and whether a plaintext matches it.
// ---------------------------------------------------------------------------

/// Whether bcrypt accepts `digest` as a reference digest: 60 ASCII characters
/// of the `$<version>$<cost>$<salt><hash>` shape with a cost bcrypt allows.
/// A verify call errs exactly on the digests this rejects.
pub uninterp spec fn bcrypt_digest_wf(digest: Seq<char>) -> bool;

/// Whether `plaintext` matches `digest`: bcrypt re-derives the digest from the
/// plaintext and the cost and salt embedded in `digest`, and compares.  This
/// is a function of the two arguments alone.
pub uninterp spec fn bcrypt_matches(plaintext: Seq<char>, digest: Seq<char>) -> bool;

/// Relies on bcrypt::hash (with bcrypt's default cost): on success it returns
/// a well-formed digest derived from `password` and a fresh random salt, so
/// the password matches it.  It fails only if the operating system's
/// randomness source fails, the default cost being always allowed.
#[verifier::external_body]
fn bcrypt_hash(password: &str) -> (r: Result<String, bcrypt::BcryptError>)
    ensures
        r is Ok ==> bcrypt_digest_wf(r->Ok_0@),
        r is Ok ==> bcrypt_matches(password@, r->Ok_0@),
{
    bcrypt::hash(password, bcrypt::DEFAULT_COST)
}

/// Relies on bcrypt::verify: it parses `digest`, re-derives the hash from
/// `password` with the parsed cost and salt, and compares in constant time.
/// It returns `Err` exactly when the digest is one bcrypt rejects, which
/// depends on the digest alone.
#[verifier::external_body]
fn bcrypt_verify(password: &str, digest: &str) -> (r: Result<bool, bcrypt::BcryptError>)
    ensures
        r is Ok <==> bcrypt_digest_wf(digest@),
        r is Ok ==> r->Ok_0 == bcrypt_matches(password@, digest@),
{
    bcrypt::verify(password, digest)
}

// ---------------------------------------------------------------------------
// Channel and thread-pool wrappers.
//
// Which value a receive returns depends on the interleaving of the threads
// that share the channel, so nothing is promised of the payloads; the typed
// payloads carry their own invariants instead.
// ---------------------------------------------------------------------------

/// Relies on flume::bounded: a queue of at most `capacity` values; senders
/// block while it is full and fail once every receiver is gone.
#[verifier::external_body]
fn channel_bounded<T>(capacity: usize) -> (flume::Sender<T>, flume::Receiver<T>) {
    flume::bounded(capacity)
}

/// Relies on flume::Sender::send: blocks while the queue is full and returns
/// `Err` exactly when every receiver has been dropped.
#[verifier::external_body]
fn channel_send<T>(tx: &flume::Sender<T>, value: T) -> Result<(), ()> {
    tx.send(value).map_err(|_| ())
}

/// Relies on flume::Receiver::recv: blocks until a value arrives and returns
/// `Err` only once every sender has been dropped and the queue is drained.
#[verifier::external_body]
fn channel_recv<T>(rx: &flume::Receiver<T>) -> Result<T, ()> {
    rx.recv().map_err(|_| ())
}

/// Relies on flume::Receiver::clone: another consuming handle on the same
/// queue; each queued value is still delivered to exactly one receiver.
#[verifier::external_body]
fn clone_receiver(rx: &flume::Receiver<WorkOrder>) -> flume::Receiver<WorkOrder> {
    rx.clone()
}

/// Relies on rayon::ThreadPool::spawn: runs the worker loop on one of the
/// pool's threads.
#[verifier::external_body]
fn spawn_worker(pool: &rayon::ThreadPool, rx: flume::Receiver<WorkOrder>) {
    pool.spawn(move || worker_loop(rx));
}

// ---------------------------------------------------------------------------
// Jobs, results and errors.
// ---------------------------------------------------------------------------

/// The error a pool operation can surface.
#[derive(Debug)]
pub enum HashWorkerError {
    /// The bcrypt primitive itself rejected its input, e.g. a malformed
    /// reference digest.
    Bcrypt(bcrypt::BcryptError),
    /// The dispatch queue is closed: the pool has shut down.
    Send,
    /// The reply channel closed before a result arrived: the worker died.
    Receive,
}

/// What holds of every digest the pool hands out: it is well formed, and it
/// is the bcrypt digest of some plaintext.
pub open spec fn produced_digest(digest: Seq<char>) -> bool {
    bcrypt_digest_wf(digest) && exists|p: Seq<char>| bcrypt_matches(p, digest)
}

/// A digest produced by a worker.  Wherever a value of this type travels —
/// in particular through the opaque reply channel — it is a well-formed
/// bcrypt digest matching the plaintext it was derived from.
pub struct Digest {
    value: String,
    plaintext: Ghost<Seq<char>>,
}

impl Digest {
    #[verifier::type_invariant]
    spec fn inv(self) -> bool {
        bcrypt_digest_wf(self.value@) && bcrypt_matches(self.plaintext@, self.value@)
    }

    /// The digest string carried.
    pub closed spec fn spec_value(self) -> Seq<char> {
        self.value@
    }

    /// Unwraps the digest string; it is always one the pool produced.
    pub fn into_value(self) -> (r: String)
        ensures
            r@ == self.spec_value(),
            produced_digest(r@),
    {
        proof {
            use_type_invariant(&self);
            assert(produced_digest(self.value@)) by {
                assert(bcrypt_matches(self.plaintext@, self.value@));
            }
        }
        self.value
    }
}

/// One queued unit of work plus its private reply channel.
enum WorkOrder {
    Hash(String, flume::Sender<Result<Digest, HashWorkerError>>),
    Verify(String, String, flume::Sender<Result<bool, HashWorkerError>>),
}

// ---------------------------------------------------------------------------
// What a worker does with a claimed order.
// ---------------------------------------------------------------------------

/// Executes a hash order: the blocking bcrypt call a worker runs.
///
/// On success the digest is well-formed and matches `password`; the only
/// error is the primitive's own.
pub fn execute_hash(password: &String) -> (r: Result<Digest, HashWorkerError>)
    ensures
        r matches Ok(d) ==> bcrypt_digest_wf(d.spec_value())
            && bcrypt_matches(password@, d.spec_value()),
        r is Err ==> r->Err_0 is Bcrypt,
{
    match bcrypt_hash(password.as_str()) {
        Ok(value) => Ok(Digest { value, plaintext: Ghost(password@) }),
        Err(e) => Err(HashWorkerError::Bcrypt(e)),
    }
}

/// Executes a verify order: the blocking bcrypt call a worker runs.
///
/// It succeeds exactly on well-formed reference digests; a success reports
/// precisely whether the password matches the digest, and a mismatch is a
/// success, not an error.
pub fn execute_verify(password: &String, digest: &String) -> (r: Result<bool, HashWorkerError>)
    ensures
        r is Ok <==> bcrypt_digest_wf(digest@),
        r is Ok ==> r->Ok_0 == bcrypt_matches(password@, digest@),
        r matches Ok(matched) ==> verify_outcome(password@, digest@) == Some(matched),
        r is Err ==> r->Err_0 is Bcrypt,
{
    match bcrypt_verify(password.as_str(), digest.as_str()) {
        Ok(matched) => Ok(matched),
        Err(e) => Err(HashWorkerError::Bcrypt(e)),
    }
}

/// Runs one claimed order and replies on its private channel.  A failed reply
/// send means the original caller abandoned the request; the worker must not
/// fail because the receiving side vanished, so it is ignored.
fn run_order(order: WorkOrder) {
    match order {
        WorkOrder::Hash(password, reply) => {
            let _ = channel_send(&reply, execute_hash(&password));
        }
        WorkOrder::Verify(password, digest, reply) => {
            let _ = channel_send(&reply, execute_verify(&password, &digest));
        }
    }
}

/// A worker's loop: claim an order, run it, reply; exit once the dispatch
/// queue is closed and drained.  The step counter gives the loop a decreasing
/// measure; its bound is far beyond any number of orders a pool can see.
fn worker_loop(rx: flume::Receiver<WorkOrder>) {
    let mut steps_left: u64 = u64::MAX;
    while steps_left > 0
        decreases steps_left,
    {
        steps_left = steps_left - 1;
        match channel_recv(&rx) {
            Ok(order) => run_order(order),
            Err(_) => {
                return;
            }
        }
    }
}

// ---------------------------------------------------------------------------
// The pool facade.
// ---------------------------------------------------------------------------

/// The hash/verify entry point shared by all request handlers.
pub struct HashWorker {
    sender: flume::Sender<WorkOrder>,
    capacity: usize,
}

impl HashWorker {
    /// The dispatch queue's fixed capacity.
    pub closed spec fn spec_capacity(&self) -> nat {
        self.capacity as nat
    }

    /// Builds the pool: a bounded dispatch queue and `num_threads` workers on
    /// the given thread pool, each holding its own handle on the queue.
    ///
    /// Each hashing operation takes on the order of a second, so the queue is
    /// sized to absorb about three seconds' worth of requests per worker
    /// before submissions block.
    pub fn new(thread_pool: rayon::ThreadPool, num_threads: u32) -> (r: Self)
        requires
            num_threads <= u32::MAX / 3,
        ensures
            r.spec_capacity() == 3 * num_threads,
    {
        let channels_capacity: u32 = num_threads * 3;
        let (tx, rx) = channel_bounded::<WorkOrder>(channels_capacity as usize);

        let mut i: u32 = 0;
        while i < num_threads
            invariant
                i <= num_threads,
            decreases num_threads - i,
        {
            spawn_worker(&thread_pool, clone_receiver(&rx));
            i = i + 1;
        }

        HashWorker { sender: tx, capacity: channels_capacity as usize }
    }

    /// The dispatch queue's capacity: at most this many submitted orders can
    /// be queued before callers block.
    pub fn queue_capacity(&self) -> (r: usize)
        ensures
            r == self.spec_capacity(),
    {
        self.capacity
    }

    /// Hashes a password on a worker thread.
    ///
    /// A returned digest is always a well-formed bcrypt digest that some
    /// plaintext matches; which plaintext a reply belongs to is correlated by
    /// the private reply channel, which the verifier does not see, so the
    /// exact statement lives on [`execute_hash`].
    pub fn hash_password(&self, password: &str) -> (r: Result<String, HashWorkerError>)
        requires
            password@.len() >= 1,
        ensures
            r is Ok ==> produced_digest(r->Ok_0@),
    {
        let (reply_tx, reply_rx) = channel_bounded::<Result<Digest, HashWorkerError>>(1);
        if channel_send(&self.sender, WorkOrder::Hash(password.to_owned(), reply_tx)).is_err() {
            return Err(HashWorkerError::Send);
        }
        match channel_recv(&reply_rx) {
            Ok(Ok(digest)) => {
                proof {
                    use_type_invariant(&digest);
                    assert(produced_digest(digest.value@)) by {
                        assert(bcrypt_matches(digest.plaintext@, digest.value@));
                    }
                }
                Ok(digest.value)
            }
            Ok(Err(e)) => Err(e),
            Err(_) => Err(HashWorkerError::Receive),
        }
    }

    /// Verifies a password against a reference digest on a worker thread.
    ///
    /// A mismatch is `Ok(false)`, never an error; the exact statement of what
    /// a worker answers for a given password and digest lives on
    /// [`execute_verify`].
    pub fn verify_password(&self, password: &str, digest: &str) -> (r: Result<bool, HashWorkerError>)
        requires
            password@.len() >= 1,
    {
        let (reply_tx, reply_rx) = channel_bounded::<Result<bool, HashWorkerError>>(1);
        let order = WorkOrder::Verify(password.to_owned(), digest.to_owned(), reply_tx);
        if channel_send(&self.sender, order).is_err() {
            return Err(HashWorkerError::Send);
        }
        match channel_recv(&reply_rx) {
            Ok(reply) => reply,
            Err(_) => Err(HashWorkerError::Receive),
        }
    }
}

/// The hashing capability the surrounding service consumes; implemented by
/// [`HashWorker`] and left open for test doubles.
pub trait Hasher {
    fn hash_password(&self, password: &str) -> Result<String, HashWorkerError>
        requires
            password@.len() >= 1,
    ;

    fn verify_password(&self, password: &str, digest: &str) -> Result<bool, HashWorkerError>
        requires
            password@.len() >= 1,
    ;
}

impl Hasher for HashWorker {
    fn hash_password(&self, password: &str) -> Result<String, HashWorkerError> {
        HashWorker::hash_password(self, password)
    }

    fn verify_password(&self, password: &str, digest: &str) -> Result<bool, HashWorkerError> {
        HashWorker::verify_password(self, password, digest)
    }
}

// ---------------------------------------------------------------------------
// The round trip.
// ---------------------------------------------------------------------------

/// What a verify call answers for a given password and reference digest:
/// `None` where the digest is rejected, otherwise whether they match.
pub open spec fn verify_outcome(password: Seq<char>, digest: Seq<char>) -> Option<bool> {
    if bcrypt_digest_wf(digest) {
        Some(bcrypt_matches(password, digest))
    } else {
        None
    }
}

/// Law: hashing then verifying with the same plaintext succeeds and matches.
/// A digest produced for `password` — which by [`execute_hash`]'s contract is
/// well-formed and matched by `password` — makes a verify order for that same
/// password answer exactly `Ok(true)`.
pub proof fn lemma_hash_then_verify(password: Seq<char>, digest: Seq<char>)
    requires
        bcrypt_digest_wf(digest),
        bcrypt_matches(password, digest),
    ensures
        verify_outcome(password, digest) == Some(true),
{
}

} // verus!
