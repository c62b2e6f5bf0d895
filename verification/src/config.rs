//! The service's settings and the defaults that apply when one is not set.

use vstd::prelude::*;

use crate::text::{owned, parse_int, parse_int_in, same_text};

verus! {

/// The service's settings.
#[derive(Clone, Debug)]
pub struct Config {
    pub database_url: String,
    pub jwt_secret: String,
    pub smtp_host: String,
    pub smtp_port: u16,
    pub smtp_user: String,
    pub smtp_password: String,
    pub from_email: String,
    pub otp_ttl_secs: i64,
    /// Do not send mail; log one-time passwords instead.
    pub smtp_skip: bool,
    /// Use implicit TLS rather than STARTTLS towards the mail server.
    pub smtp_use_ssl: bool,
}

/// The raw value of each setting, `None` where it is not set.
#[derive(Clone, Debug)]
pub struct ConfigSource {
    pub database_url: Option<String>,
    pub jwt_secret: Option<String>,
    pub smtp_host: Option<String>,
    pub smtp_port: Option<String>,
    pub smtp_user: Option<String>,
    pub smtp_password: Option<String>,
    pub from_email: Option<String>,
    pub otp_ttl_secs: Option<String>,
    pub smtp_skip: Option<String>,
    pub smtp_use_ssl: Option<String>,
}

/// Why settings could not be read.
#[derive(Clone, Copy, Debug, PartialEq, Eq, Structural)]
pub enum ConfigError {
    /// `DATABASE_URL` is not set.
    MissingDatabaseUrl,
    /// `SMTP_PORT` is not a port number.
    InvalidSmtpPort,
    /// `OTP_TTL_SECS` is not a 64-bit integer.
    InvalidOtpTtl,
}

/// The value of a setting, or `default` where it is not set.
pub open spec fn value_or(v: Option<String>, default: Seq<char>) -> Seq<char> {
    match v {
        Some(s) => s@,
        None => default,
    }
}

/// Whether a switch setting is on: it is on when set to `true` or `1`.
pub open spec fn switch_on(v: Option<String>) -> bool {
    match v {
        Some(s) => s@ == "true"@ || s@ == "1"@,
        None => false,
    }
}

/// The port that the settings name.
pub open spec fn port_of(src: ConfigSource) -> Option<int> {
    parse_int(value_or(src.smtp_port, "587"@), 0, 65535)
}

/// The lifetime of a one-time password, in seconds, that the settings name.
pub open spec fn otp_ttl_of(src: ConfigSource) -> Option<int> {
    parse_int(value_or(src.otp_ttl_secs, "300"@), i64::MIN as int, i64::MAX as int)
}

fn value_or_default(v: &Option<String>, default: &str) -> (s: String)
    ensures
        s@ == value_or(*v, default@),
{
    match v {
        Some(x) => x.clone(),
        None => owned(default),
    }
}

fn switch(v: &Option<String>) -> (b: bool)
    ensures
        b == switch_on(*v),
{
    match v {
        Some(x) => same_text(x.as_str(), "true") || same_text(x.as_str(), "1"),
        None => false,
    }
}

impl Config {
    /// Settings from their raw values. `DATABASE_URL` must be set; the
    /// others default to `change_me` (JWT secret), `localhost` (SMTP host),
    /// `587` (SMTP port), empty (SMTP user and password),
    /// `noreply@company.com` (sender) and `300` (one-time password lifetime
    /// in seconds), and the two switches default to off. The port must parse
    /// as a `u16` and the lifetime as an `i64`; the first failure in this
    /// order is reported.
    pub fn from_source(src: &ConfigSource) -> (r: Result<Config, ConfigError>)
        ensures
            (r == Err::<Config, ConfigError>(ConfigError::MissingDatabaseUrl)) <==> src.database_url is None,
            (r == Err::<Config, ConfigError>(ConfigError::InvalidSmtpPort)) <==> (src.database_url is Some && port_of(*src) is None),
            (r == Err::<Config, ConfigError>(ConfigError::InvalidOtpTtl)) <==> (src.database_url is Some && port_of(*src) is Some && otp_ttl_of(*src) is None),
            r matches Ok(c) ==> {
                &&& src.database_url matches Some(u) && c.database_url@ == u@
                &&& c.jwt_secret@ == value_or(src.jwt_secret, "change_me"@)
                &&& c.smtp_host@ == value_or(src.smtp_host, "localhost"@)
                &&& Some(c.smtp_port as int) == port_of(*src)
                &&& c.smtp_user@ == value_or(src.smtp_user, ""@)
                &&& c.smtp_password@ == value_or(src.smtp_password, ""@)
                &&& c.from_email@ == value_or(src.from_email, "noreply@company.com"@)
                &&& Some(c.otp_ttl_secs as int) == otp_ttl_of(*src)
                &&& c.smtp_skip == switch_on(src.smtp_skip)
                &&& c.smtp_use_ssl == switch_on(src.smtp_use_ssl)
            },
    {
        let database_url = match &src.database_url {
            Some(u) => u.clone(),
            None => return Err(ConfigError::MissingDatabaseUrl),
        };
        let port_text = value_or_default(&src.smtp_port, "587");
        let smtp_port = match parse_int_in(port_text.as_str(), 0, 65535) {
            Some(p) => p as u16,
            None => return Err(ConfigError::InvalidSmtpPort),
        };
        let ttl_text = value_or_default(&src.otp_ttl_secs, "300");
        let otp_ttl_secs = match parse_int_in(ttl_text.as_str(), i64::MIN, i64::MAX) {
            Some(t) => t,
            None => return Err(ConfigError::InvalidOtpTtl),
        };
        Ok(Config {
            database_url,
            jwt_secret: value_or_default(&src.jwt_secret, "change_me"),
            smtp_host: value_or_default(&src.smtp_host, "localhost"),
            smtp_port,
            smtp_user: value_or_default(&src.smtp_user, ""),
            smtp_password: value_or_default(&src.smtp_password, ""),
            from_email: value_or_default(&src.from_email, "noreply@company.com"),
            otp_ttl_secs,
            smtp_skip: switch(&src.smtp_skip),
            smtp_use_ssl: switch(&src.smtp_use_ssl),
        })
    }
}

} // verus!
