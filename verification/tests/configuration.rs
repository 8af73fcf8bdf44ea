use coupon_api::configuration::{
    ApiKey, ConfigError, DatabaseSettings, Environment, GateSettings,
};

#[test]
fn environment_names() {
    assert_eq!(Environment::Local.as_str(), "local");
    assert_eq!(Environment::Production.as_str(), "production");
}

#[test]
fn environment_is_read_in_any_case() {
    assert_eq!(Environment::try_from("local".to_string()), Ok(Environment::Local));
    assert_eq!(Environment::try_from("LOCAL".to_string()), Ok(Environment::Local));
    assert_eq!(Environment::try_from("Production".to_string()), Ok(Environment::Production));
    assert_eq!(Environment::try_from("PRODUCTION".to_string()), Ok(Environment::Production));
}

#[test]
fn unknown_environment_is_refused_with_its_lower_case_name() {
    assert_eq!(
        Environment::try_from("Staging".to_string()),
        Err("staging is not a supported environment. Use either 'local' or 'production'."
            .to_string())
    );
    assert_eq!(
        Environment::try_from(String::new()),
        Err(" is not a supported environment. Use either 'local' or 'production'.".to_string())
    );
}

#[test]
fn from_name_takes_lower_case_only() {
    assert_eq!(Environment::from_name("local"), Ok(Environment::Local));
    assert_eq!(Environment::from_name("production"), Ok(Environment::Production));
    assert_eq!(
        Environment::from_name("LOCAL"),
        Err("LOCAL is not a supported environment. Use either 'local' or 'production'."
            .to_string())
    );
}

#[test]
fn every_environment_is_read_back_from_its_name() {
    for environment in [Environment::Local, Environment::Production] {
        assert_eq!(Environment::try_from(environment.as_str().to_string()), Ok(environment));
    }
}

#[test]
fn test_database_is_selected_on_request() {
    let settings = DatabaseSettings {
        username: "user".to_string(),
        password: "password".to_string(),
        port: 3306,
        host: "localhost".to_string(),
        database_name: "coupons".to_string(),
        test_database_name: "coupons_TEST".to_string(),
        require_ssl: false,
    };

    assert_eq!(settings.selected_database(false), "coupons");
    assert_eq!(settings.selected_database(true), "coupons_TEST");
}

#[test]
fn settings_need_the_key_and_the_store() {
    let key = || Some("secret".to_string());
    let endpoint = || Some("redis://127.0.0.1:6379".to_string());

    assert_eq!(GateSettings::new(None, endpoint()).err(), Some(ConfigError::MissingSecret));
    assert_eq!(GateSettings::new(None, None).err(), Some(ConfigError::MissingSecret));
    assert_eq!(GateSettings::new(key(), None).err(), Some(ConfigError::MissingStoreEndpoint));

    let settings = GateSettings::new(key(), endpoint()).ok().expect("both settings are there");
    assert!(settings.api_key == ApiKey("secret".to_string()));
    assert_eq!(settings.store_endpoint, "redis://127.0.0.1:6379");
}
