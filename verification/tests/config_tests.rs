use file_transfer::config::{
    AppConfig, Config, CreateUserRequest, DatabaseConfig, Environment,
};

#[test]
fn environment_selection() {
    assert_eq!(Environment::from_name("production"), Environment::Production);
    assert_eq!(Environment::from_name("staging"), Environment::Staging);
    assert_eq!(Environment::from_name("development"), Environment::Development);
    // Any unknown name falls back to development.
    assert_eq!(Environment::from_name("Production"), Environment::Development);
    assert_eq!(Environment::from_name(""), Environment::Development);
}

#[test]
fn config_holds_its_parts() {
    let config = Config {
        app: AppConfig {
            host: String::from("127.0.0.1"),
            port: 8080,
            log_level: String::from("info"),
            environment: Environment::Development,
            cors_origin: String::from("*"),
        },
        database: DatabaseConfig {
            url: String::from("postgres://localhost/app"),
            max_connections: 5,
            timeout_seconds: 5,
        },
    };
    assert_eq!(config.app.port, 8080);
    assert_eq!(config.database.max_connections, 5);
    let copy = config.clone();
    assert_eq!(copy.app.host, "127.0.0.1");
}

#[test]
fn user_request_name_length() {
    let ok = CreateUserRequest { name: String::from("a"), email: String::from("a@b.c") };
    assert!(ok.name_length_valid());
    let empty = CreateUserRequest { name: String::new(), email: String::from("a@b.c") };
    assert!(!empty.name_length_valid());
    let hundred = CreateUserRequest { name: "n".repeat(100), email: String::from("a@b.c") };
    assert!(hundred.name_length_valid());
    let over = CreateUserRequest { name: "n".repeat(101), email: String::from("a@b.c") };
    assert!(!over.name_length_valid());
}
