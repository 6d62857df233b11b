use vstd::prelude::*;

use crate::text::{decimal, decimal_string};

verus! {

/// Where the database is and how many connections to keep to it.
#[derive(Debug)]
pub struct Database {
    pub url: String,
    pub pool_size: u8,
}

/// The server's address and the periods, in seconds, of its maintenance
/// tasks.
#[derive(Debug)]
pub struct Server {
    pub host: String,
    pub port: u16,
    pub lease_recovery: u8,
    pub cleanup: u8,
}

/// A worker's heartbeat period and how long, in seconds, it holds a
/// claimed job.
#[derive(Debug)]
pub struct Worker {
    pub heartbeat: u8,
    pub lease_duration: u8,
}

/// The mail server through which email jobs are sent.
#[derive(Debug)]
pub struct MailServer {
    pub host: String,
    pub port: u16,
}

#[derive(Debug)]
pub struct ServerConfig {
    pub database: Database,
    pub server: Server,
}

#[derive(Debug)]
pub struct WorkerConfig {
    pub database: Database,
    pub worker: Worker,
    pub mail_server: MailServer,
}

impl Server {
    /// The `host:port` address the server listens on.
    pub fn bind_address(&self) -> (a: String)
        ensures
            a@ == self.host@ + ":"@ + decimal(self.port as nat),
    {
        let host = self.host.clone();
        let with_colon = host.concat(":");
        with_colon.concat(decimal_string(self.port as u64).as_str())
    }
}

} // verus!
