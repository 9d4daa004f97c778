//! Service configuration: plain settings handed in by the process that
//! hosts the core.

use vstd::prelude::*;

verus! {

/// The deployment environment.
#[derive(Clone, Copy, Debug, PartialEq, Eq, Structural)]
pub enum Environment {
    Development,
    Production,
    Staging,
}

/// The settings the service runs under.
#[derive(Debug)]
pub struct Config {
    pub host: String,
    pub port: u16,
    pub database_url: String,
    pub redis_url: String,
    pub jwt_secret: String,
    pub jwt_expiration: i64,
    pub cors_origin: String,
    pub workers: usize,
    pub log_level: String,
    pub environment: Environment,
    pub stripe_secret_key: Option<String>,
    pub stripe_webhook_secret: Option<String>,
    pub smtp_host: String,
    pub smtp_port: u16,
    pub smtp_username: String,
    pub smtp_password: String,
    pub from_email: String,
    pub rate_limit_requests: u32,
    pub rate_limit_period: u64,
}

impl Config {
    /// Whether the service runs in the development environment.
    pub fn is_development(&self) -> (r: bool)
        ensures
            r == (self.environment is Development),
    {
        match self.environment {
            Environment::Development => true,
            _ => false,
        }
    }

    /// Whether the service runs in the production environment.
    pub fn is_production(&self) -> (r: bool)
        ensures
            r == (self.environment is Production),
    {
        match self.environment {
            Environment::Production => true,
            _ => false,
        }
    }
}

} // verus!
