use taille_auth::shared::config::Config;
use taille_auth::shared::database::{Database, DatabaseStats, InMemoryDatabase};
use taille_auth::shared::health_check::HealthCheckImpl;
use taille_auth::shared::master_key_middleware::constant_time_compare;
use taille_auth::shared::role::Role;
use taille_auth::users::custom_nanoid;

#[test]
fn role_wire_names_round_trip() {
    let cases = vec![
        ("admin", Role::Admin),
        ("manager", Role::Manager),
        ("driver", Role::Driver),
        ("customer", Role::Customer),
    ];
    for (name, role) in cases {
        assert_eq!(role.name(), name, "Role should carry the correct wire name");
        assert_eq!(
            Role::from_name(name),
            Some(role),
            "Role should parse from the correct wire name"
        );
    }
    assert_eq!(
        Role::from_name("invalid_role"),
        None,
        "Parsing should fail for an invalid role"
    );
    assert_eq!(Role::from_name("Admin"), None, "wire names are lower case");
}

#[test]
fn constant_time_compare_matches_plain_equality() {
    assert!(constant_time_compare("MASTER_KEY", "MASTER_KEY"));
    assert!(!constant_time_compare("MASTER_KEY", "FAKE_MASTER_KEY"));
    assert!(!constant_time_compare("MASTER_KEY", "MASTER_KEX"));
    assert!(!constant_time_compare("", "x"));
    assert!(constant_time_compare("", ""));
}

#[test]
fn custom_nanoid_shape() {
    let id = custom_nanoid();
    assert_eq!(id.chars().count(), 21);
    assert!(id.chars().all(|c| c.is_ascii_alphanumeric()));
    let other = custom_nanoid();
    assert_ne!(id, other, "two drawn ids should differ");
}

#[test]
fn in_memory_database_reports_healthy_stats() {
    let config = Config {
        address: "0.0.0.0:3000".to_string(),
        master_key: "DEV_MASTER_KEY".to_string(),
        jwt_secret: "DEV_JWT_SECRET".to_string(),
    };
    let database = InMemoryDatabase::new(&config).unwrap();
    assert!(database.users.is_empty());
    let stats = database.stats();
    assert!(stats.connected);
    assert_eq!(stats.name, "In-Memory");
}

#[test]
fn health_check_maps_snapshots_to_wire_words() {
    let mut health_check = HealthCheckImpl::new();
    assert!(health_check.collect().is_none(), "nothing known before the first snapshot");

    health_check.record(DatabaseStats { connected: true, name: "In-Memory".to_string() });
    let stats = health_check.collect().expect("a recorded snapshot must be answered");
    assert_eq!(stats.database_status, "connected");
    assert_eq!(stats.database_name, "In-Memory");

    health_check.record(DatabaseStats { connected: false, name: "MongoDB".to_string() });
    let stats = health_check.collect().unwrap();
    assert_eq!(stats.database_status, "connecting");
    assert_eq!(stats.database_name, "MongoDB");
}
