//! Application settings. Reading them from a configuration file is the
//! caller's business; here they are plain values, and the connection
//! strings built from them are pinned down exactly.

use vstd::prelude::*;

use crate::strings::{dec_seq, dec_string};

verus! {

/// How to reach the database.
pub struct DatabaseSettings {
    pub username: String,
    pub password: String,
    pub port: u16,
    pub host: String,
    pub database_name: String,
}

/// Everything the application needs at startup.
pub struct Settings {
    pub database: DatabaseSettings,
    pub application_port: u16,
}

/// The base URL under which the application is reachable; confirmation
/// links are built on it.
pub struct ApplicationBaseUrl(pub String);

impl DatabaseSettings {
    /// The connection string of the configured database.
    pub fn connetion_string(&self) -> (r: String)
        ensures
            r@ == "postgres://"@ + self.username@ + ":"@ + self.password@ + "@"@ + self.host@
                + "/"@ + self.database_name@,
    {
        let mut s = String::from_str("postgres://");
        s.append(self.username.as_str());
        s.append(":");
        s.append(self.password.as_str());
        s.append("@");
        s.append(self.host.as_str());
        s.append("/");
        s.append(self.database_name.as_str());
        s
    }

    /// The connection string of the server alone, without a database
    /// name.
    pub fn connection_string_without_db(&self) -> (r: String)
        ensures
            r@ == "postgres://"@ + self.username@ + ":"@ + self.password@ + "@"@ + self.host@
                + ":"@ + dec_seq(self.port as nat),
    {
        let mut s = String::from_str("postgres://");
        s.append(self.username.as_str());
        s.append(":");
        s.append(self.password.as_str());
        s.append("@");
        s.append(self.host.as_str());
        s.append(":");
        let port = dec_string(self.port as u64);
        s.append(port.as_str());
        s
    }
}

} // verus!
