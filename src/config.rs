//! The application's settings, and the order in which their sources are
//! layered. Reading the sources is left to the caller.
use vstd::prelude::*;
use vstd::string::*;

verus! {

/// The database backend a connection pool is built for.
#[derive(Clone, Copy, Debug, PartialEq, Eq, Structural)]
pub enum DatabaseConnection {
    Cockroach,
    Mysql,
    Postgres,
    Sqlite,
}

#[derive(Clone, Debug, PartialEq, Eq)]
pub struct Database {
    pub driver: DatabaseConnection,
    pub url: String,
}

#[derive(Clone, Debug, PartialEq, Eq)]
pub struct JWT {
    pub expiration: i64,
    pub key: String,
}

#[derive(Clone, Debug, PartialEq, Eq)]
pub struct Session {
    pub name: String,
    pub key: String,
    pub secure: bool,
    pub timeout: i64,
}

#[derive(Clone, Debug, PartialEq, Eq)]
pub struct Server {
    pub url: String,
}

#[derive(Clone, Debug, PartialEq, Eq)]
pub struct Logger {
    pub level: String,
}

#[derive(Clone, Debug, PartialEq, Eq)]
pub struct Redis {
    pub url: String,
}

/// All settings of the application.
#[derive(Clone, Debug, PartialEq, Eq)]
pub struct IConfig {
    pub active_profile: String,
    pub auth_salt: String,
    pub database: Database,
    pub jwt: JWT,
    pub redis: Redis,
    pub logger: Logger,
    pub server: Server,
    pub session: Session,
}

/// One layer of settings: a file name without extension, and whether a
/// missing file is an error.
#[derive(Clone, Debug, PartialEq, Eq)]
pub struct ConfigSource {
    pub name: String,
    pub required: bool,
}

/// The profile in force: the one named by the environment, else
/// `development`.
pub open spec fn profile_of(var: Option<String>) -> Seq<char> {
    match var {
        Some(v) => v@,
        None => "development"@,
    }
}

/// Picks the active profile from the value of the `ACTIVE_PROFILE`
/// environment variable, if it was set.
pub fn active_profile(var: Option<String>) -> (r: String)
    ensures
        r@ == profile_of(var),
{
    match var {
        Some(v) => v,
        None => String::from_str("development"),
    }
}

/// The file layers for `profile`, lowest priority first: the required
/// defaults, then the optional profile file, then optional local overrides.
/// Environment variables are merged over all of them.
pub fn config_sources(profile: &str) -> (r: Vec<ConfigSource>)
    ensures
        r@.len() == 3,
        r@[0].name@ == "config/default"@,
        r@[0].required,
        r@[1].name@ == "config/"@ + profile@,
        !r@[1].required,
        r@[2].name@ == "config/local"@,
        !r@[2].required,
{
    let mut profile_file = String::from_str("config/");
    profile_file.append(profile);
    let mut r: Vec<ConfigSource> = Vec::new();
    r.push(ConfigSource { name: String::from_str("config/default"), required: true });
    r.push(ConfigSource { name: profile_file, required: false });
    r.push(ConfigSource { name: String::from_str("config/local"), required: false });
    r
}

} // verus!
