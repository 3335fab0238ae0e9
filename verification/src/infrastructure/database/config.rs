//! Backend selection and the connection string derived from it.

use vstd::prelude::*;
use vstd::string::*;
use crate::infrastructure::text::{decimal, decimal_string};

verus! {

/// An embedded single-file backend.
pub struct SqliteConfig {
    pub db_path: String,
}

/// A networked backend.
pub struct PostgresConfig {
    pub user: String,
    pub password: String,
    pub host: String,
    pub port: u16,
    pub dbname: String,
}

/// Which backend the connection pool talks to.
pub enum DatabaseConfig {
    Sqlite(SqliteConfig),
    Postgres(PostgresConfig),
}

impl DatabaseConfig {
    /// The connection string of this configuration: `sqlite://<path>` for the
    /// embedded backend, `postgresql://<user>:<password>@<host>:<port>/<dbname>`
    /// for the networked one.
    pub open spec fn url(&self) -> Seq<char> {
        match self {
            DatabaseConfig::Sqlite(config) => "sqlite://"@ + config.db_path@,
            DatabaseConfig::Postgres(config) => "postgresql://"@ + config.user@ + ":"@
                + config.password@ + "@"@ + config.host@ + ":"@ + decimal(config.port as nat)
                + "/"@ + config.dbname@,
        }
    }

    /// Derives the connection string.
    pub fn get_db_url(&self) -> (url: String)
        ensures
            url@ == self.url(),
    {
        match self {
            DatabaseConfig::Sqlite(config) => {
                let mut url = String::from_str("sqlite://");
                url.append(config.db_path.as_str());
                url
            },
            DatabaseConfig::Postgres(config) => {
                let mut url = String::from_str("postgresql://");
                url.append(config.user.as_str());
                url.append(":");
                url.append(config.password.as_str());
                url.append("@");
                url.append(config.host.as_str());
                url.append(":");
                let port = decimal_string(config.port as u128);
                url.append(port.as_str());
                url.append("/");
                url.append(config.dbname.as_str());
                url
            },
        }
    }
}

} // verus!
