//! Settings of the servers, resolved from the values of their environment variables.
use vstd::prelude::*;

use crate::number::{parse_u16, parse_u16_spec};

verus! {

/// An environment variable that must be set.
#[derive(PartialEq, Eq, Structural, Clone, Copy, Debug)]
pub enum RequiredVar {
    PostgresUser,
    PostgresPassword,
    PostgresDb,
    MongoDatabase,
    MongoCollection,
    FrontendPort,
    FrontendHost,
}

/// Why the settings could not be resolved.
#[derive(PartialEq, Eq, Structural, Clone, Copy, Debug)]
pub enum ConfigError {
    /// A required variable is not set.
    Missing(RequiredVar),
    /// `BACKEND_PORT` is not a port number.
    InvalidPort,
}

/// The values of the backend's environment variables, `None` where one is not set.
#[derive(Debug)]
pub struct BackendEnv {
    pub postgres_host: Option<String>,
    pub postgres_port: Option<String>,
    pub postgres_user: Option<String>,
    pub postgres_password: Option<String>,
    pub postgres_db: Option<String>,
    pub mongo_host: Option<String>,
    pub mongo_port: Option<String>,
    pub mongo_database: Option<String>,
    pub mongo_collection: Option<String>,
    pub backend_port: Option<String>,
}

/// What the backend connects to and listens on.
#[derive(Debug)]
pub struct BackendSettings {
    /// The connection string for PostgreSQL.
    pub postgres_config: String,
    /// The connection URI for MongoDB.
    pub mongo_uri: String,
    pub mongo_database: String,
    pub mongo_collection: String,
    /// The port the backend listens on.
    pub port: u16,
}

pub open spec fn opt_view(v: Option<String>) -> Option<Seq<char>> {
    match v {
        Some(s) => Some(s@),
        None => None,
    }
}

pub open spec fn or_default(v: Option<Seq<char>>, default: Seq<char>) -> Seq<char> {
    match v {
        Some(s) => s,
        None => default,
    }
}

/// The PostgreSQL connection string.
pub open spec fn postgres_config_text(
    host: Seq<char>,
    port: Seq<char>,
    user: Seq<char>,
    password: Seq<char>,
    db: Seq<char>,
) -> Seq<char> {
    "host="@ + host + " port="@ + port + " user="@ + user + " password="@ + password + " dbname="@
        + db
}

/// The MongoDB connection URI.
pub open spec fn mongo_uri_text(host: Seq<char>, port: Seq<char>) -> Seq<char> {
    "mongodb://"@ + host + ":"@ + port
}

/// The first required variable, in the order the backend reads them, that is not set.
pub open spec fn first_missing(env: BackendEnv) -> Option<RequiredVar> {
    if env.postgres_user is None {
        Some(RequiredVar::PostgresUser)
    } else if env.postgres_password is None {
        Some(RequiredVar::PostgresPassword)
    } else if env.postgres_db is None {
        Some(RequiredVar::PostgresDb)
    } else if env.mongo_database is None {
        Some(RequiredVar::MongoDatabase)
    } else if env.mongo_collection is None {
        Some(RequiredVar::MongoCollection)
    } else {
        None
    }
}

/// The backend port's text: `BACKEND_PORT`, or 8080 where it is not set.
pub open spec fn backend_port_text(env: BackendEnv) -> Seq<char> {
    or_default(opt_view(env.backend_port), "8080"@)
}

/// Joins strings into one.
fn join(parts: &[&str]) -> (res: String)
    ensures
        res@ == joined(parts@.map_values(|p: &str| p@)),
{
    let ghost views = parts@.map_values(|p: &str| p@);
    let mut res = String::new();
    let mut i: usize = 0;
    while i < parts.len()
        invariant
            i <= parts.len(),
            views == parts@.map_values(|p: &str| p@),
            res@ == joined(views.take(i as int)),
        decreases parts.len() - i,
    {
        assert(views.take(i + 1).drop_last() =~= views.take(i as int));
        res.append(parts[i]);
        i = i + 1;
    }
    assert(views.take(parts.len() as int) =~= views);
    res
}

/// The strings one after another.
pub open spec fn joined(parts: Seq<Seq<char>>) -> Seq<char>
    decreases parts.len(),
{
    if parts.len() == 0 {
        Seq::empty()
    } else {
        joined(parts.drop_last()) + parts.last()
    }
}

/// Resolves the backend's settings: defaults for the host and port variables,
/// an error for the first required variable that is not set, then an error where
/// the port is not a number in `0..=65535`.
pub fn backend_settings(env: BackendEnv) -> (res: Result<BackendSettings, ConfigError>)
    ensures
        match first_missing(env) {
            Some(var) => res == Err::<BackendSettings, ConfigError>(ConfigError::Missing(var)),
            None => match parse_u16_spec(backend_port_text(env)) {
                None => res == Err::<BackendSettings, ConfigError>(ConfigError::InvalidPort),
                Some(port) => match res {
                    Ok(s) => {
                        &&& s.port == port
                        &&& s.postgres_config@ == postgres_config_text(
                            or_default(opt_view(env.postgres_host), "localhost"@),
                            or_default(opt_view(env.postgres_port), "5432"@),
                            env.postgres_user->Some_0@,
                            env.postgres_password->Some_0@,
                            env.postgres_db->Some_0@,
                        )
                        &&& s.mongo_uri@ == mongo_uri_text(
                            or_default(opt_view(env.mongo_host), "localhost"@),
                            or_default(opt_view(env.mongo_port), "27017"@),
                        )
                        &&& s.mongo_database == env.mongo_database->Some_0
                        &&& s.mongo_collection == env.mongo_collection->Some_0
                    },
                    Err(_) => false,
                },
            },
        },
{
    let ghost e = env;
    let BackendEnv {
        postgres_host,
        postgres_port,
        postgres_user,
        postgres_password,
        postgres_db,
        mongo_host,
        mongo_port,
        mongo_database,
        mongo_collection,
        backend_port,
    } = env;
    let pg_host = match postgres_host {
        Some(v) => v,
        None => String::from_str("localhost"),
    };
    let pg_port = match postgres_port {
        Some(v) => v,
        None => String::from_str("5432"),
    };
    let pg_user = match postgres_user {
        Some(v) => v,
        None => return Err(ConfigError::Missing(RequiredVar::PostgresUser)),
    };
    let pg_password = match postgres_password {
        Some(v) => v,
        None => return Err(ConfigError::Missing(RequiredVar::PostgresPassword)),
    };
    let pg_db = match postgres_db {
        Some(v) => v,
        None => return Err(ConfigError::Missing(RequiredVar::PostgresDb)),
    };
    let m_host = match mongo_host {
        Some(v) => v,
        None => String::from_str("localhost"),
    };
    let m_port = match mongo_port {
        Some(v) => v,
        None => String::from_str("27017"),
    };
    let m_db = match mongo_database {
        Some(v) => v,
        None => return Err(ConfigError::Missing(RequiredVar::MongoDatabase)),
    };
    let m_collection = match mongo_collection {
        Some(v) => v,
        None => return Err(ConfigError::Missing(RequiredVar::MongoCollection)),
    };
    let port_text = match backend_port {
        Some(v) => v,
        None => String::from_str("8080"),
    };
    let port = match parse_u16(port_text.as_str()) {
        Some(p) => p,
        None => return Err(ConfigError::InvalidPort),
    };
    let postgres_config = join(
        &[
            "host=",
            pg_host.as_str(),
            " port=",
            pg_port.as_str(),
            " user=",
            pg_user.as_str(),
            " password=",
            pg_password.as_str(),
            " dbname=",
            pg_db.as_str(),
        ],
    );
    let mongo_uri = join(&["mongodb://", m_host.as_str(), ":", m_port.as_str()]);
    proof {
        reveal_with_fuel(joined, 11);
    }
    Ok(
        BackendSettings {
            postgres_config,
            mongo_uri,
            mongo_database: m_db,
            mongo_collection: m_collection,
            port,
        },
    )
}

/// The frontend's bind address `host:port`, from `FRONTEND_PORT` and `FRONTEND_HOST`,
/// which must both be set (the port is checked first).
pub fn frontend_bind_address(port: Option<String>, host: Option<String>) -> (res: Result<
    String,
    ConfigError,
>)
    ensures
        match (port, host) {
            (None, _) => res == Err::<String, ConfigError>(
                ConfigError::Missing(RequiredVar::FrontendPort),
            ),
            (Some(_), None) => res == Err::<String, ConfigError>(
                ConfigError::Missing(RequiredVar::FrontendHost),
            ),
            (Some(p), Some(h)) => match res {
                Ok(a) => a@ == h@ + ":"@ + p@,
                Err(_) => false,
            },
        },
{
    let p = match port {
        Some(p) => p,
        None => return Err(ConfigError::Missing(RequiredVar::FrontendPort)),
    };
    let h = match host {
        Some(h) => h,
        None => return Err(ConfigError::Missing(RequiredVar::FrontendHost)),
    };
    let address = join(&[h.as_str(), ":", p.as_str()]);
    proof {
        reveal_with_fuel(joined, 4);
    }
    Ok(address)
}

/// The name of a required variable.
pub fn var_name(var: RequiredVar) -> (name: &'static str)
    ensures
        name@ == var_name_text(var),
{
    match var {
        RequiredVar::PostgresUser => "POSTGRES_USER",
        RequiredVar::PostgresPassword => "POSTGRES_PASSWORD",
        RequiredVar::PostgresDb => "POSTGRES_DB",
        RequiredVar::MongoDatabase => "MONGO_INITDB_DATABASE",
        RequiredVar::MongoCollection => "MONGO_COLLECTION",
        RequiredVar::FrontendPort => "FRONTEND_PORT",
        RequiredVar::FrontendHost => "FRONTEND_HOST",
    }
}

pub open spec fn var_name_text(var: RequiredVar) -> Seq<char> {
    match var {
        RequiredVar::PostgresUser => "POSTGRES_USER"@,
        RequiredVar::PostgresPassword => "POSTGRES_PASSWORD"@,
        RequiredVar::PostgresDb => "POSTGRES_DB"@,
        RequiredVar::MongoDatabase => "MONGO_INITDB_DATABASE"@,
        RequiredVar::MongoCollection => "MONGO_COLLECTION"@,
        RequiredVar::FrontendPort => "FRONTEND_PORT"@,
        RequiredVar::FrontendHost => "FRONTEND_HOST"@,
    }
}

/// The message a server stops with when its settings cannot be resolved.
pub fn config_error_message(err: ConfigError) -> (msg: String)
    ensures
        msg@ == match err {
            ConfigError::Missing(var) => var_name_text(var) + " must be set"@,
            ConfigError::InvalidPort => "BACKEND_PORT must be a valid port number"@,
        },
{
    match err {
        ConfigError::Missing(var) => {
            let mut msg = String::from_str(var_name(var));
            msg.append(" must be set");
            msg
        },
        ConfigError::InvalidPort => String::from_str("BACKEND_PORT must be a valid port number"),
    }
}

} // verus!
