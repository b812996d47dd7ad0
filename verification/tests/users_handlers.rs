use fake::faker::internet::en::{Password, SafeEmail};
use fake::faker::lorem::en::Word;
use fake::faker::name::en::Name;
use fake::Fake;
use rayon::ThreadPoolBuilder;
use taille_auth::shared::database::InMemoryDatabase;
use taille_auth::shared::hash_worker::HashWorker;
use taille_auth::shared::role::Role;
use taille_auth::users::dto::{validate_email, CreateUserDto};
use taille_auth::users::model::User;
use taille_auth::users::repository::{FindOneProperty, UserRepositoryImpl};
use taille_auth::users::{create_user, custom_nanoid, get_users, CreateUserOutcome};

#[test]
fn test_create_user_dto_validation() {
    // Test case: Valid data
    let valid_email: String = SafeEmail().fake();
    let valid_user_name: String = Word().fake();
    let valid_password: String = Word().fake();
    let valid_dto = CreateUserDto {
        email: valid_email.clone(),
        user_name: valid_user_name.clone(),
        password: valid_password.clone(),
        role: Role::Admin,
    };

    assert!(
        valid_dto.validate().is_ok(),
        "Valid DTO should pass validation"
    );

    // Test case: Invalid email
    let invalid_email_dto = CreateUserDto {
        email: "invalid-email".to_string(),
        user_name: valid_user_name.clone(),
        password: valid_password.clone(),
        role: Role::Admin,
    };
    assert!(
        invalid_email_dto.validate().is_err(),
        "DTO with invalid email should fail validation"
    );

    // Test case: Empty user_name
    let empty_user_name_dto = CreateUserDto {
        email: valid_email.clone(),
        user_name: "".to_string(),
        password: valid_password.clone(),
        role: Role::Admin,
    };
    assert!(
        empty_user_name_dto.validate().is_err(),
        "DTO with empty user_name should fail validation"
    );

    // Test case: User_name exceeding max length
    let long_user_name = "a".repeat(1025);
    let long_user_name_dto = CreateUserDto {
        email: valid_email.clone(),
        user_name: long_user_name,
        password: valid_password.clone(),
        role: Role::Admin,
    };
    assert!(
        long_user_name_dto.validate().is_err(),
        "DTO with long user_name should fail validation"
    );

    // Test case: Empty password
    let empty_password_dto = CreateUserDto {
        email: valid_email.clone(),
        user_name: valid_user_name.clone(),
        password: "".to_string(),
        role: Role::Admin,
    };
    assert!(
        empty_password_dto.validate().is_err(),
        "DTO with empty password should fail validation"
    );

    // Test case: Password exceeding max length
    let long_password = "a".repeat(1025);
    let long_password_dto = CreateUserDto {
        email: valid_email.clone(),
        user_name: valid_user_name.clone(),
        password: long_password,
        role: Role::Admin,
    };
    assert!(
        long_password_dto.validate().is_err(),
        "DTO with long password should fail validation"
    );
}

#[test]
fn create_user_dto_accepts_the_length_limits() {
    let dto = CreateUserDto {
        email: SafeEmail().fake(),
        user_name: "a".repeat(1024),
        password: "b".repeat(1024),
        role: Role::Manager,
    };
    assert!(dto.validate().is_ok(), "1024 characters are still allowed");
}

#[test]
fn email_validation_cases() {
    assert!(validate_email("user@example.com"));
    assert!(validate_email("a@b.c"));
    assert!(validate_email("first.last@sub.example.org"));
    assert!(validate_email("user@localhost"), "a single label is a valid domain");
    assert!(validate_email("o'brien+tag@ex-ample.com"));
    assert!(validate_email(&format!("{}@example.com", "l".repeat(64))));
    assert!(validate_email(&format!("user@{}.com", "d".repeat(63))));

    assert!(!validate_email(""));
    assert!(!validate_email("invalid-email"));
    assert!(!validate_email("@example.com"), "empty local part");
    assert!(!validate_email("user@"), "empty domain");
    assert!(!validate_email("us@er@example.com"), "an at sign is no local character");
    assert!(!validate_email("user@.com"), "empty first label");
    assert!(!validate_email("user@example."), "empty last label");
    assert!(!validate_email("user@a..b"), "empty middle label");
    assert!(!validate_email("user name@example.com"), "a space is no local character");
    assert!(!validate_email("user@-a.com"), "a label must begin alphanumerically");
    assert!(!validate_email("user@a-.com"), "a label must end alphanumerically");
    assert!(!validate_email("user@ex_ample.com"), "an underscore is no label character");
    assert!(!validate_email(&format!("{}@example.com", "l".repeat(65))), "local part too long");
    assert!(!validate_email(&format!("user@{}.com", "d".repeat(64))), "label too long");
    assert!(!validate_email("user@[127.0.0.1]"), "bracketed address literals are not taken");
}

fn test_hasher() -> HashWorker {
    HashWorker::new(ThreadPoolBuilder::new().build().unwrap(), 2)
}

#[test]
fn test_create_user_successful() {
    let dto = CreateUserDto {
        email: SafeEmail().fake(),
        user_name: Name().fake(),
        password: Password(12..13).fake(),
        role: Role::Customer,
    };

    let mut user_repository = UserRepositoryImpl::new(InMemoryDatabase { users: Vec::new() });
    let hasher = test_hasher();

    let outcome = create_user(&mut user_repository, &hasher, dto.clone());
    let rto = match outcome {
        CreateUserOutcome::Created(rto) => rto,
        other => panic!("expected a created user, got {:?}", other),
    };

    let users = user_repository.find_all().unwrap();
    assert!(!users.is_empty());

    // Assertions
    assert_eq!(rto.uuid, users[0].uuid);
    assert_eq!(users[0].email, dto.email);
    assert_eq!(users[0].user_name, dto.user_name);
    assert_eq!(rto.uuid.chars().count(), 21);
}

#[test]
fn test_create_user_already_exists() {
    let dto = CreateUserDto {
        email: SafeEmail().fake(),
        user_name: Name().fake(),
        password: Password(12..13).fake(),
        role: Role::Customer,
    };

    let existing = User {
        uuid: custom_nanoid(),
        email: dto.email.clone(),
        user_name: dto.user_name.clone(),
        password_hash: String::new(),
        role: Role::Customer,
        created_at: 0,
        updated_at: 0,
    };
    let mut user_repository =
        UserRepositoryImpl::new(InMemoryDatabase { users: vec![existing] });
    let hasher = test_hasher();

    let outcome = create_user(&mut user_repository, &hasher, dto);

    let users = user_repository.find_all().unwrap();
    assert_eq!(users.len(), 1);
    assert!(matches!(outcome, CreateUserOutcome::AlreadyExists));
}

#[test]
fn test_create_user_validation_failure() {
    let dto = CreateUserDto {
        email: "invalid_email".to_string(),
        user_name: "".to_string(),
        password: "short".to_string(),
        role: Role::Customer,
    };

    let mut user_repository = UserRepositoryImpl::new(InMemoryDatabase { users: Vec::new() });
    let hasher = test_hasher();

    let outcome = create_user(&mut user_repository, &hasher, dto);

    let users = user_repository.find_all().unwrap();
    assert!(users.is_empty());
    assert!(matches!(outcome, CreateUserOutcome::Invalid(_)));
}

fn sample_user(email: String, user_name: String, role: Role) -> User {
    User {
        uuid: custom_nanoid(),
        email,
        user_name,
        password_hash: "hashed_password".to_string(),
        role,
        created_at: 0,
        updated_at: 0,
    }
}

#[test]
fn test_get_users() {
    let users_data = vec![
        sample_user(SafeEmail().fake(), Name().fake(), Role::Admin),
        sample_user(SafeEmail().fake(), Name().fake(), Role::Customer),
    ];
    let expected: Vec<(String, String, Role)> = users_data
        .iter()
        .map(|u| (u.email.clone(), u.user_name.clone(), u.role))
        .collect();

    let user_repository = UserRepositoryImpl::new(InMemoryDatabase { users: users_data });

    let rtos = get_users(&user_repository).unwrap();

    // Assertions
    assert_eq!(rtos.len(), expected.len());
    for (rto, (email, user_name, role)) in rtos.iter().zip(expected.iter()) {
        assert_eq!(&rto.email, email);
        assert_eq!(&rto.user_name, user_name);
        assert_eq!(&rto.role, role);
    }
}

#[test]
fn test_get_users_empty() {
    let user_repository = UserRepositoryImpl::new(InMemoryDatabase { users: Vec::new() });

    let rtos = get_users(&user_repository).unwrap();

    // Assertions
    assert!(rtos.is_empty());
}

#[test]
fn find_one_returns_the_first_of_equal_keys() {
    let first = sample_user("same@example.com".to_string(), "first".to_string(), Role::Driver);
    let first_uuid = first.uuid.clone();
    let second = sample_user("same@example.com".to_string(), "second".to_string(), Role::Driver);

    let user_repository =
        UserRepositoryImpl::new(InMemoryDatabase { users: vec![first, second] });

    let found = user_repository
        .find_one(FindOneProperty::Email("same@example.com"))
        .unwrap();
    assert_eq!(found.uuid, first_uuid);
    assert_eq!(found.user_name, "first");

    let by_uuid = user_repository
        .find_one(FindOneProperty::Uuid(&first_uuid))
        .unwrap();
    assert_eq!(by_uuid.user_name, "first");

    assert!(user_repository
        .find_one(FindOneProperty::Email("missing@example.com"))
        .is_err());
}
