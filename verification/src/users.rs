pub mod dto;
pub mod model;
pub mod repository;
pub mod rto;

use vstd::prelude::*;

use crate::shared::database::InMemoryDatabase;
use crate::shared::hash_worker::{produced_digest, HashWorker};
use crate::shared::rto::CreatedRto;
use crate::shared::text::ascii_alphanumeric;
use crate::users::dto::{CreateUserDto, ValidationError};
use crate::users::model::User;
use crate::users::repository::{FindOneProperty, UserRepositoryError, UserRepositoryImpl};
use crate::users::rto::FindUserRto;

verus! {

/// Relies on nanoid::format with the operating system's randomness source:
/// an id of `size` characters, each drawn from `alphabet`.  Which characters
/// are drawn is random and gets no name.  nanoid fills the id until its byte
/// length reaches `size`, so the alphabet must hold single-byte (ASCII)
/// characters only, or the fill would never land on `size` exactly; it
/// panics only if the randomness source fails.
#[verifier::external_body]
fn nanoid_format(alphabet: &Vec<char>, size: usize) -> (r: String)
    requires
        1 <= alphabet@.len() <= 255,
        1 <= size <= usize::MAX / 8,
        forall|i: int| 0 <= i < alphabet@.len() ==> (alphabet@[i] as u32) < 128,
    ensures
        r@.len() == size,
        forall|i: int| 0 <= i < r@.len() ==> alphabet@.contains(#[trigger] r@[i]),
{
    nanoid::format(nanoid::rngs::default, alphabet.as_slice(), size)
}

/// Relies on chrono::Utc::now: the current unix time; nothing is promised of
/// it.
#[verifier::external_body]
fn now_timestamp() -> i64 {
    chrono::Utc::now().timestamp()
}

/// The id alphabet: the URL-safe characters without `'_'` and `'-'`, that is
/// the ASCII digits and letters.
fn id_alphabet() -> (r: Vec<char>)
    ensures
        1 <= r@.len() <= 255,
        forall|i: int| 0 <= i < r@.len() ==> ascii_alphanumeric(#[trigger] r@[i]),
{
    vec![
        '0', '1', '2', '3', '4', '5', '6', '7', '8', '9',
        'A', 'B', 'C', 'D', 'E', 'F', 'G', 'H', 'I', 'J', 'K', 'L', 'M',
        'N', 'O', 'P', 'Q', 'R', 'S', 'T', 'U', 'V', 'W', 'X', 'Y', 'Z',
        'a', 'b', 'c', 'd', 'e', 'f', 'g', 'h', 'i', 'j', 'k', 'l', 'm',
        'n', 'o', 'p', 'q', 'r', 's', 't', 'u', 'v', 'w', 'x', 'y', 'z',
    ]
}

/// A fresh id: 21 ASCII digits and letters.
pub fn custom_nanoid() -> (r: String)
    ensures
        r@.len() == 21,
        forall|i: int| 0 <= i < r@.len() ==> ascii_alphanumeric(#[trigger] r@[i]),
{
    let alphabet = id_alphabet();
    let id = nanoid_format(&alphabet, 21);
    proof {
        assert forall|i: int| 0 <= i < id@.len() implies ascii_alphanumeric(#[trigger] id@[i]) by {
            let k = choose|k: int| 0 <= k < alphabet@.len() && alphabet@[k] == id@[i];
            assert(ascii_alphanumeric(alphabet@[k]));
        }
    }
    id
}

impl User {
    /// Builds the domain user for a create request: a fresh id, the given
    /// password hash, and one reading of the clock for both timestamps.
    fn from(dto: CreateUserDto, password_hash: String) -> (r: User)
        ensures
            r.email == dto.email,
            r.user_name == dto.user_name,
            r.password_hash == password_hash,
            r.role == dto.role,
            r.uuid@.len() == 21,
            forall|i: int| 0 <= i < r.uuid@.len() ==> ascii_alphanumeric(#[trigger] r.uuid@[i]),
            r.created_at == r.updated_at,
    {
        let now = now_timestamp();
        User {
            uuid: custom_nanoid(),
            email: dto.email,
            user_name: dto.user_name,
            password_hash,
            role: dto.role,
            created_at: now,
            updated_at: now,
        }
    }
}

/// How a create-user request is answered.
#[derive(Debug)]
pub enum CreateUserOutcome {
    /// The user was stored; the body names its fresh id.
    Created(CreatedRto),
    /// The request broke a validation rule and nothing was stored.
    Invalid(ValidationError),
    /// A user with this email is already stored.
    AlreadyExists,
    /// The hashing pool failed; nothing was stored.
    HashingFailed,
    /// The repository rejected the new user.
    StorageFailed,
}

/// Handles a create-user request: validate, reject duplicates by email, hash
/// the password on the pool, store the new user.
pub fn create_user(
    user_repository: &mut UserRepositoryImpl<InMemoryDatabase>,
    hasher: &HashWorker,
    dto: CreateUserDto,
) -> (r: CreateUserOutcome)
    ensures
        r is Invalid <==> !dto.spec_valid(),
        r is AlreadyExists <==> dto.spec_valid() && (exists|i: int|
            0 <= i < old(user_repository).spec_users().len()
            && (#[trigger] old(user_repository).spec_users()[i]).email@ == dto.email@),
        (r is Invalid || r is AlreadyExists || r is HashingFailed)
            ==> final(user_repository).spec_users() == old(user_repository).spec_users(),
        r matches CreateUserOutcome::Created(rto) ==> {
            let users = final(user_repository).spec_users();
            &&& dto.spec_valid()
            &&& users.len() == old(user_repository).spec_users().len() + 1
            &&& users.drop_last() == old(user_repository).spec_users()
            &&& users.last().email@ == dto.email@
            &&& users.last().user_name@ == dto.user_name@
            &&& users.last().role == dto.role
            &&& produced_digest(users.last().password_hash@)
            &&& users.last().uuid@.len() == 21
            &&& (forall|k: int| 0 <= k < users.last().uuid@.len()
                ==> ascii_alphanumeric(#[trigger] users.last().uuid@[k]))
            &&& users.last().created_at == users.last().updated_at
            &&& rto.uuid@ == users.last().uuid@
        },
        dto.spec_valid() && (forall|i: int|
            0 <= i < old(user_repository).spec_users().len()
            ==> (#[trigger] old(user_repository).spec_users()[i]).email@ != dto.email@)
            ==> r is Created || r is HashingFailed,
{
    if let Err(e) = dto.validate() {
        return CreateUserOutcome::Invalid(e);
    }

    if user_repository.find_one(FindOneProperty::Email(dto.email.as_str())).is_ok() {
        return CreateUserOutcome::AlreadyExists;
    }

    let password_hash = match hasher.hash_password(dto.password.as_str()) {
        Ok(h) => h,
        Err(_) => {
            return CreateUserOutcome::HashingFailed;
        }
    };

    let user = User::from(dto, password_hash);
    let created = user.duplicate();
    if user_repository.create(user).is_err() {
        return CreateUserOutcome::StorageFailed;
    }
    CreateUserOutcome::Created(CreatedRto::from(created))
}

/// Handles a list-users request: every stored user, in insertion order, with
/// the password hash left out.
pub fn get_users(
    user_repository: &UserRepositoryImpl<InMemoryDatabase>,
) -> (r: Result<Vec<FindUserRto>, UserRepositoryError>)
    ensures
        r is Ok,
        r->Ok_0@.len() == user_repository.spec_users().len(),
        forall|i: int| 0 <= i < user_repository.spec_users().len()
            ==> r->Ok_0@[i] == FindUserRto::spec_of(#[trigger] user_repository.spec_users()[i]),
{
    match user_repository.find_all() {
        Ok(users) => {
            let mut rtos: Vec<FindUserRto> = Vec::new();
            let n = users.len();
            let mut i: usize = 0;
            while i < n
                invariant
                    i <= n,
                    n == users@.len(),
                    users@ == user_repository.spec_users(),
                    rtos@.len() == i,
                    forall|k: int| 0 <= k < i
                        ==> rtos@[k] == FindUserRto::spec_of(#[trigger] users@[k]),
                decreases n - i,
            {
                rtos.push(FindUserRto::from(users[i].duplicate()));
                i = i + 1;
            }
            Ok(rtos)
        }
        Err(e) => Err(e),
    }
}

} // verus!
