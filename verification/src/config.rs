//! Configuration model of the HTTP service in this repository, and the
//! request shape it validates. Only the pure selection and validation
//! logic lives here; reading the process environment, deserialization and
//! the service itself are the surrounding program's business.

use vstd::prelude::*;
use vstd::string::StrSliceExecFns;
use crate::codec::str_eq;

verus! {

/// The deployment environment a configuration selects.
#[derive(Clone, Copy, Debug, PartialEq, Eq, Structural)]
pub enum Environment {
    Development,
    Staging,
    Production,
}

/// Which environment a configuration name selects: any unknown name falls
/// back to development.
pub open spec fn environment_of(name: Seq<char>) -> Environment {
    if name == "production"@ {
        Environment::Production
    } else if name == "staging"@ {
        Environment::Staging
    } else {
        Environment::Development
    }
}

impl Environment {
    /// Selects the environment a name stands for.
    pub fn from_name(name: &str) -> (r: Environment)
        ensures
            r == environment_of(name@),
    {
        if str_eq(name, "production") {
            Environment::Production
        } else if str_eq(name, "staging") {
            Environment::Staging
        } else {
            Environment::Development
        }
    }
}

/// How the service reaches its database.
#[derive(Clone, Debug)]
pub struct DatabaseConfig {
    pub url: String,
    pub max_connections: u32,
    pub timeout_seconds: u64,
}

/// How the service presents itself.
#[derive(Clone, Debug)]
pub struct AppConfig {
    pub host: String,
    pub port: u16,
    pub log_level: String,
    pub environment: Environment,
    pub cors_origin: String,
}

/// The whole configuration of one service instance.
#[derive(Clone, Debug)]
pub struct Config {
    pub app: AppConfig,
    pub database: DatabaseConfig,
}

/// The body of a request to create a user.
#[derive(Clone, Debug)]
pub struct CreateUserRequest {
    pub name: String,
    pub email: String,
}

impl CreateUserRequest {
    /// The declarative rule on the name field: between 1 and 100
    /// characters.
    pub fn name_length_valid(&self) -> (r: bool)
        ensures
            r == (1 <= self.name@.len() <= 100),
    {
        let len = self.name.as_str().unicode_len();
        1 <= len && len <= 100
    }
}

} // verus!
