use payslip::config::{Config, ConfigError, ConfigSource};

fn source() -> ConfigSource {
    ConfigSource {
        database_url: Some("postgres://db".to_string()),
        jwt_secret: None,
        smtp_host: None,
        smtp_port: None,
        smtp_user: None,
        smtp_password: None,
        from_email: None,
        otp_ttl_secs: None,
        smtp_skip: None,
        smtp_use_ssl: None,
    }
}

#[test]
fn defaults_apply() {
    let c = Config::from_source(&source()).unwrap();
    assert_eq!(c.database_url, "postgres://db");
    assert_eq!(c.jwt_secret, "change_me");
    assert_eq!(c.smtp_host, "localhost");
    assert_eq!(c.smtp_port, 587);
    assert_eq!(c.smtp_user, "");
    assert_eq!(c.smtp_password, "");
    assert_eq!(c.from_email, "noreply@company.com");
    assert_eq!(c.otp_ttl_secs, 300);
    assert!(!c.smtp_skip);
    assert!(!c.smtp_use_ssl);
}

#[test]
fn given_values_win() {
    let mut s = source();
    s.jwt_secret = Some("k".into());
    s.smtp_port = Some("465".into());
    s.otp_ttl_secs = Some("-5".into());
    s.smtp_skip = Some("true".into());
    s.smtp_use_ssl = Some("1".into());
    let c = Config::from_source(&s).unwrap();
    assert_eq!(c.jwt_secret, "k");
    assert_eq!(c.smtp_port, 465);
    assert_eq!(c.otp_ttl_secs, -5);
    assert!(c.smtp_skip);
    assert!(c.smtp_use_ssl);
}

#[test]
fn bad_settings_are_reported_in_order() {
    let mut s = source();
    s.database_url = None;
    s.smtp_port = Some("x".into());
    assert_eq!(Config::from_source(&s).unwrap_err(), ConfigError::MissingDatabaseUrl);
    let mut s = source();
    s.smtp_port = Some("70000".into());
    s.otp_ttl_secs = Some("y".into());
    assert_eq!(Config::from_source(&s).unwrap_err(), ConfigError::InvalidSmtpPort);
    let mut s = source();
    s.otp_ttl_secs = Some("5m".into());
    assert_eq!(Config::from_source(&s).unwrap_err(), ConfigError::InvalidOtpTtl);
    let mut s = source();
    s.smtp_skip = Some("yes".into());
    assert!(!Config::from_source(&s).unwrap().smtp_skip);
}
