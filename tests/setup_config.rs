use rasopus::config::{
    DatabaseConfig, EnvironmentConfig, PostgresConfig, RasopusConfig, RocketConfig, RocketOverrides,
    RocketSetting, UserServiceConfig,
};
use rasopus::entity::UserStatement;
use rasopus::service::{ExistsError, GenerateError, ServiceCollection, SetupCheckError, SetupService, UserService};
use rasopus::user::Role;

fn rasopus_config() -> RasopusConfig {
    RasopusConfig {
        address: Some("0.0.0.0".to_string()),
        port: None,
        secret_key: "SECRET-REDACTED".to_string(),
        postgres_user: "rasopus".to_string(),
        postgres_password: "pw".to_string(),
        postgres_host: "db".to_string(),
        postgres_port: 5432,
        postgres_database: "rasopus".to_string(),
        postgres_pool_size: None,
        argon2_iterations: Some(4),
        argon2_memory_mib: None,
    }
}

#[test]
fn postgres_connection_string() {
    let config = PostgresConfig::from_config(&rasopus_config());
    assert_eq!(config.pool_size, 10);
    assert_eq!(config.to_connection_string(), "postgres://rasopus:pw@db:5432/rasopus");
    let config = PostgresConfig { port: 0, ..config };
    assert_eq!(config.to_connection_string(), "postgres://rasopus:pw@db:0/rasopus");
    let config = PostgresConfig { port: 65535, ..config };
    assert_eq!(config.to_connection_string(), "postgres://rasopus:pw@db:65535/rasopus");
}

#[test]
fn database_connection_string() {
    let env = EnvironmentConfig {
        address: None,
        port: None,
        database_host: "localhost".to_string(),
        database_port: 15432,
        database_user: "u".to_string(),
        database_password: "p".to_string(),
        database_database: "d".to_string(),
        database_pool_size: 3,
    };
    let config = DatabaseConfig::from_environment(&env);
    assert_eq!(config.pool_size, 3);
    assert_eq!(config.to_connection_string(), "postgres://u:p@localhost:15432/d");
}

#[test]
fn rocket_settings_in_order() {
    let config = RocketConfig::from_config(&rasopus_config());
    assert_eq!(
        config.settings(),
        vec![
            RocketSetting::Address("0.0.0.0".to_string()),
            RocketSetting::SecretKey("SECRET-REDACTED".to_string())
        ]
    );
    let config = RocketConfig { port: Some(8000), ..config };
    assert_eq!(config.settings()[1], RocketSetting::Port(8000));
    let overrides = RocketOverrides::from_config(&rasopus_config());
    assert_eq!(overrides.settings(), vec![RocketSetting::Address("0.0.0.0".to_string())]);
    let none = RocketOverrides { address: None, port: None };
    assert!(none.settings().is_empty());
}

#[test]
fn user_service_config_defaults() {
    let config = UserServiceConfig::from_config(&rasopus_config());
    assert_eq!(config, UserServiceConfig { argon2_iterations: 4, argon2_memory_mib: 70 });
    assert_eq!(UserServiceConfig::default(), UserServiceConfig { argon2_iterations: 3, argon2_memory_mib: 70 });
    let services = ServiceCollection::new(&rasopus_config());
    assert_eq!(services.user.config(), config);
}

#[test]
fn generate_refuses_an_empty_password() {
    let svc = UserService::new(UserServiceConfig { argon2_iterations: 3, argon2_memory_mib: 1 });
    assert!(matches!(svc.generate("root".to_string(), "", Role::System), Err(GenerateError::EmptyPassword)));
}

#[test]
fn generate_builds_a_fresh_user() {
    let svc = UserService::new(UserServiceConfig { argon2_iterations: 3, argon2_memory_mib: 1 });
    let a = svc.generate("root".to_string(), "hunter2", Role::System).expect("generates");
    let b = svc.generate("root".to_string(), "hunter2", Role::System).expect("generates");
    assert_eq!(a.username, "root");
    assert_eq!(a.role, Role::System);
    assert_ne!(a.uuid, b.uuid);
    assert_ne!(a.password_hash, b.password_hash);
    assert!(a.password_hash.unprotected_as_encoded().starts_with("$argon2i$v=19$m=1024,t=3,p=1$"));
    assert!(a.created_at.secs > 1_600_000_000);
    let costly = UserService::new(UserServiceConfig { argon2_iterations: 4, argon2_memory_mib: 2 });
    let c = costly.generate("root".to_string(), "hunter2", Role::Admin).expect("generates");
    assert!(c.password_hash.unprotected_as_encoded().starts_with("$argon2i$v=19$m=2048,t=4,p=1$"));
    assert!(c.created_at.nanos < 1_000_000_000);
    let weak = UserService::new(UserServiceConfig { argon2_iterations: 1, argon2_memory_mib: 1 });
    assert!(matches!(weak.generate("root".to_string(), "pw", Role::User), Err(GenerateError::Cryptography(_))));
}

#[test]
fn setup_needed_until_a_system_user_exists() {
    let setup = SetupService::new();
    let users = UserService::new(UserServiceConfig::default());
    assert!(matches!(setup.system_user_query(&users), UserStatement::SelectByRole(0)));
    assert!(matches!(users.exists_any_user_by_role(Role::Admin), UserStatement::SelectByRole(1)));
    assert!(matches!(setup.needs_setup(Ok(false)), Ok(true)));
    assert!(matches!(setup.needs_setup(Ok(true)), Ok(false)));
    let failure = ExistsError::Database(sqlx::Error::PoolTimedOut);
    assert!(matches!(
        setup.needs_setup(Err(failure)),
        Err(SetupCheckError::UserServiceExistsError(ExistsError::Database(sqlx::Error::PoolTimedOut)))
    ));
}
