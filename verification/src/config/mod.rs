//! Process configuration, built from values the caller read from the environment.

use vstd::prelude::*;
use vstd::string::StringExecFns;

pub mod auth;

verus! {

/// Where the server listens and where its store lives.
#[derive(Debug, Clone, PartialEq, Eq)]
pub struct Config {
    pub database_url: String,
    pub server_host: String,
    pub server_port: String,
}

impl Config {
    /// The configuration for the given settings, each `None` where it is not
    /// set. The store's address is required; the host defaults to
    /// `127.0.0.1` and the port to `8080`.
    pub fn from_values(
        database_url: Option<String>,
        server_host: Option<String>,
        server_port: Option<String>,
    ) -> (r: Option<Config>)
        ensures
            r is Some == database_url is Some,
            r matches Some(c) ==> {
                &&& c.database_url == database_url->0
                &&& c.server_host@ == (if server_host is Some {
                    server_host->0@
                } else {
                    "127.0.0.1"@
                })
                &&& c.server_port@ == (if server_port is Some {
                    server_port->0@
                } else {
                    "8080"@
                })
            },
    {
        match database_url {
            Some(database_url) => Some(
                Config {
                    database_url,
                    server_host: match server_host {
                        Some(host) => host,
                        None => String::from_str("127.0.0.1"),
                    },
                    server_port: match server_port {
                        Some(port) => port,
                        None => String::from_str("8080"),
                    },
                },
            ),
            None => None,
        }
    }
}

} // verus!
