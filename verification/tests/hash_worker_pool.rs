use std::sync::Arc;
use std::time::Instant;

use fake::faker::internet::en::Password;
use fake::Fake;
use rayon::ThreadPoolBuilder;
use taille_auth::shared::hash_worker::{HashWorker, HashWorkerError};

#[test]
fn test_hash_and_verify_password() {
    // Create a thread pool with 4 threads
    let thread_pool = ThreadPoolBuilder::new()
        .num_threads(4)
        .build()
        .expect("Failed to create thread pool");

    // Initialize the HashWorker with 4 threads
    let hash_worker = HashWorker::new(thread_pool, 4);

    // Test data
    let password = Password(12..13).fake::<String>();

    // Hash the password
    let hashed_password = hash_worker
        .hash_password(&password)
        .expect("Hashing failed");

    // Verify the hashed password
    let is_valid = hash_worker
        .verify_password(&password, &hashed_password)
        .expect("Verification failed");

    // Assert that the hash is valid
    assert!(is_valid, "The password verification failed");

    // Test invalid password
    let invalid_password = "wrong_password";
    let is_invalid = hash_worker
        .verify_password(invalid_password, &hashed_password)
        .expect("Verification failed for invalid password");

    // Assert that the verification fails for an incorrect password
    assert!(!is_invalid, "The password verification should have failed");
}

#[test]
fn queue_capacity_is_three_per_worker() {
    let thread_pool = ThreadPoolBuilder::new().num_threads(2).build().unwrap();
    let hash_worker = HashWorker::new(thread_pool, 2);
    assert_eq!(hash_worker.queue_capacity(), 6);
}

#[test]
fn verify_with_malformed_digest_is_an_error_not_a_mismatch() {
    let thread_pool = ThreadPoolBuilder::new().num_threads(2).build().unwrap();
    let hash_worker = HashWorker::new(thread_pool, 2);

    let result = hash_worker.verify_password("some-password", "not-a-bcrypt-digest");
    assert!(
        matches!(result, Err(HashWorkerError::Bcrypt(_))),
        "a malformed reference digest must surface the primitive's error, got {:?}",
        result
    );

    // A digest of the right length but a cost bcrypt refuses is rejected too.
    let bad_cost = "$2b$99$EGdrhbKUv8Oc9vGiXX0HQOxSg445d458Muh7DAHskb6QbtCvdxcie";
    let result = hash_worker.verify_password("some-password", bad_cost);
    assert!(matches!(result, Err(HashWorkerError::Bcrypt(_))));
}

#[test]
fn digest_of_one_password_does_not_verify_another() {
    let thread_pool = ThreadPoolBuilder::new().num_threads(2).build().unwrap();
    let hash_worker = HashWorker::new(thread_pool, 2);

    let digest = hash_worker.hash_password("first-password-1").unwrap();
    let other = hash_worker.verify_password("other-password-2", &digest).unwrap();
    assert!(!other, "a digest must not verify a different plaintext");
}

// Submit more concurrent jobs than queue capacity plus worker count; every
// job must yield exactly one reply, and each reply must belong to the caller
// that issued it.
#[test]
fn saturated_pool_delivers_every_reply_to_its_own_caller() {
    let workers = ThreadPoolBuilder::new().num_threads(2).build().unwrap();
    let hash_worker = Arc::new(HashWorker::new(workers, 2));
    assert_eq!(hash_worker.queue_capacity(), 6);

    let jobs: usize = 10; // 10 > capacity 6 + 2 workers
    let passwords: Vec<String> = (0..jobs).map(|i| format!("caller-{}-secret", i)).collect();

    let callers = ThreadPoolBuilder::new().num_threads(jobs).build().unwrap();
    let (tx, rx) = flume::unbounded();
    callers.scope(|s| {
        for (i, password) in passwords.iter().enumerate() {
            let tx = tx.clone();
            let pool = Arc::clone(&hash_worker);
            s.spawn(move |_| {
                let digest = pool.hash_password(password).expect("hash job lost");
                // A sample of the callers also race verify jobs through the
                // same saturated queue, each against its own digest; hashing
                // is expensive, so not every caller does.
                let own = if i % 3 == 0 {
                    pool.verify_password(password, &digest).expect("verify job lost")
                } else {
                    true
                };
                tx.send((i, digest, own)).unwrap();
            });
        }
    });
    drop(tx);

    let mut replies: Vec<(usize, String, bool)> = rx.iter().collect();
    assert_eq!(replies.len(), jobs, "every job must yield exactly one reply");
    replies.sort_by_key(|(i, _, _)| *i);
    let seen: Vec<usize> = replies.iter().map(|(i, _, _)| *i).collect();
    assert_eq!(seen, (0..jobs).collect::<Vec<usize>>(), "no reply dropped or duplicated");
    for (i, digest, own) in &replies {
        assert!(own, "caller {} received a reply for someone else's password", i);
        assert!(
            digest.starts_with("$2b$12$") && digest.len() == 60,
            "caller {} received something that is not a digest: {}",
            i,
            digest
        );
    }
}

// Scenario: 2 workers, queue capacity 6, 10 hash jobs submitted at once.
// All 10 must complete, in roughly ceil(10/2) sequential batches: clearly
// faster than running the 10 jobs one after another, and clearly slower than
// one single operation, which would mean more parallelism than the 2 workers
// allow.
#[test]
fn ten_jobs_on_two_workers_run_in_batches() {
    let workers = ThreadPoolBuilder::new().num_threads(2).build().unwrap();
    let hash_worker = Arc::new(HashWorker::new(workers, 2));
    assert_eq!(hash_worker.queue_capacity(), 6);

    let probe_start = Instant::now();
    hash_worker.hash_password("timing-probe-password").unwrap();
    let single = probe_start.elapsed();

    let jobs: usize = 10;
    let callers = ThreadPoolBuilder::new().num_threads(jobs).build().unwrap();
    let (tx, rx) = flume::unbounded();
    let batch_start = Instant::now();
    callers.scope(|s| {
        for i in 0..jobs {
            let tx = tx.clone();
            let pool = Arc::clone(&hash_worker);
            s.spawn(move |_| {
                let password = format!("burst-{}-secret", i);
                let digest = pool.hash_password(&password).expect("hash job lost");
                tx.send(digest).unwrap();
            });
        }
    });
    let elapsed = batch_start.elapsed();
    drop(tx);

    let digests: Vec<String> = rx.iter().collect();
    assert_eq!(digests.len(), jobs, "all 10 jobs must complete");

    // ceil(10/2) = 5 batches expected; leave room for scheduling noise.
    assert!(
        elapsed >= single * 2,
        "10 jobs finished as if more than the 2 workers were hashing: {:?} vs single {:?}",
        elapsed,
        single
    );
    assert!(
        elapsed <= single * 9,
        "10 jobs on 2 workers took as long as running them one by one: {:?} vs single {:?}",
        elapsed,
        single
    );
}

// The last program-side handle on the pool goes away while jobs are still
// queued and running; every submitting caller keeps the queue alive until
// its own reply arrives, so no job is discarded, and once the last caller is
// done the workers drain and exit.
#[test]
fn replies_survive_the_pool_handle_being_dropped() {
    let workers = ThreadPoolBuilder::new().num_threads(2).build().unwrap();
    let hash_worker = Arc::new(HashWorker::new(workers, 2));

    let jobs: usize = 4;
    let callers = ThreadPoolBuilder::new().num_threads(jobs).build().unwrap();
    let (tx, rx) = flume::unbounded();
    for i in 0..jobs {
        let tx = tx.clone();
        let pool = Arc::clone(&hash_worker);
        callers.spawn(move || {
            let password = format!("draining-{}-secret", i);
            let digest = pool.hash_password(&password).expect("queued job was discarded");
            tx.send(digest).unwrap();
        });
    }
    drop(tx);
    drop(hash_worker);

    let replies: Vec<String> = rx.iter().collect();
    assert_eq!(replies.len(), jobs, "every queued job must be executed, none discarded");
}
