//! Application settings and the addresses derived from them.

use vstd::prelude::*;
use vstd::string::StringExecFns;
use crate::text::{decimal, push_decimal};

verus! {

/// The whole configuration of the application.
pub struct Settings {
    pub application: ApplicationSettings,
    pub database: DatabaseSettings,
}

/// Where the web server listens and how it signs its cookies.
pub struct ApplicationSettings {
    pub port: u16,
    pub host: String,
    pub base_url: String,
    pub hmac_secret: String,
}

/// How to reach the PostgreSQL database.
pub struct DatabaseSettings {
    pub host: String,
    pub port: u16,
    pub username: String,
    pub password: String,
    pub database_name: String,
    pub require_ssl: bool,
}

/// The `sslmode` parameter for a database connection.
pub open spec fn ssl_mode(require_ssl: bool) -> Seq<char> {
    if require_ssl {
        "sslmode=require"@
    } else {
        "sslmode=prefer"@
    }
}

impl DatabaseSettings {
    /// The connection URL:
    /// `postgresql://{username}:{password}@{host}:{port}/{database_name}?{sslmode}`.
    pub open spec fn connection_url(&self) -> Seq<char> {
        "postgresql://"@ + self.username@ + ":"@ + self.password@ + "@"@ + self.host@ + ":"@
            + decimal(self.port as nat) + "/"@ + self.database_name@ + "?"@ + ssl_mode(
            self.require_ssl,
        )
    }

    /// The connection URL of the database.
    pub fn get_connection_string(&self) -> (r: String)
        ensures
            r@ == self.connection_url(),
    {
        let mut r = String::from_str("postgresql://");
        r.append(self.username.as_str());
        r.append(":");
        r.append(self.password.as_str());
        r.append("@");
        r.append(self.host.as_str());
        r.append(":");
        push_decimal(&mut r, self.port as u64);
        r.append("/");
        r.append(self.database_name.as_str());
        r.append("?");
        if self.require_ssl {
            r.append("sslmode=require");
        } else {
            r.append("sslmode=prefer");
        }
        r
    }
}

impl ApplicationSettings {
    /// The address the server binds: `{host}:{port}`.
    pub open spec fn spec_address(&self) -> Seq<char> {
        self.host@ + ":"@ + decimal(self.port as nat)
    }

    /// The address the server binds.
    pub fn address(&self) -> (r: String)
        ensures
            r@ == self.spec_address(),
    {
        let mut r = String::from_str(self.host.as_str());
        r.append(":");
        push_decimal(&mut r, self.port as u64);
        r
    }
}

} // verus!
