//! Per-server reports: each configured server is online, with its round, when its status
//! query succeeded, and offline, with its configured message, when it failed.
use vstd::prelude::*;

use crate::error::Error;
use crate::status::Status;

verus! {

/// One game server as configured.
#[derive(PartialEq, Eq, Debug)]
pub struct ServerConfig {
    /// Display name.
    pub name: String,
    /// Address the status query goes to.
    pub address: String,
    /// Address players connect to.
    pub connection_address: String,
    /// Message shown while the server cannot be reached.
    pub error_message: String,
}

/// A server that answered its status query.
#[derive(PartialEq, Eq, Debug)]
pub struct ServerOnline {
    pub name: String,
    pub address: String,
    pub connection_address: String,
    pub round_id: u32,
}

/// A server whose status query failed.
#[derive(PartialEq, Eq, Debug)]
pub struct ServerOffline {
    pub name: String,
    pub address: String,
    pub error_message: String,
}

/// The report on one server.
#[derive(PartialEq, Eq, Debug)]
pub enum Server {
    Online(ServerOnline),
    Offline(ServerOffline),
}

/// Whether `report` is what `server`'s status result makes: online with the round when the
/// query succeeded, offline with the configured message when it failed.
pub open spec fn reports(
    server: ServerConfig,
    status: Result<Status, Error>,
    report: Server,
) -> bool {
    match status {
        Ok(st) => report matches Server::Online(o) && o.name@ == server.name@ && o.address@
            == server.address@ && o.connection_address@ == server.connection_address@
            && o.round_id == st.round_id,
        Err(_) => report matches Server::Offline(o) && o.name@ == server.name@ && o.address@
            == server.address@ && o.error_message@ == server.error_message@,
    }
}

/// The server-status route.
pub struct Endpoint;

impl Endpoint {
    /// The report on each server, from the result of its status query; `statuses[i]` belongs
    /// to `servers[i]`.
    pub fn server(
        &self,
        servers: &Vec<ServerConfig>,
        statuses: &Vec<Result<Status, Error>>,
    ) -> (r: Vec<Server>)
        requires
            servers@.len() == statuses@.len(),
        ensures
            r@.len() == servers@.len(),
            forall|i: int|
                0 <= i < r@.len() ==> reports(servers@[i], statuses@[i], #[trigger] r@[i]),
    {
        let mut r: Vec<Server> = Vec::new();
        let mut i: usize = 0;
        while i < servers.len()
            invariant
                servers@.len() == statuses@.len(),
                i <= servers@.len(),
                r@.len() == i,
                forall|j: int|
                    0 <= j < i ==> reports(servers@[j], statuses@[j], #[trigger] r@[j]),
            decreases servers@.len() - i,
        {
            let server = &servers[i];
            let report = match &statuses[i] {
                Ok(st) => Server::Online(
                    ServerOnline {
                        name: server.name.clone(),
                        address: server.address.clone(),
                        connection_address: server.connection_address.clone(),
                        round_id: st.round_id,
                    },
                ),
                Err(_) => Server::Offline(
                    ServerOffline {
                        name: server.name.clone(),
                        address: server.address.clone(),
                        error_message: server.error_message.clone(),
                    },
                ),
            };
            r.push(report);
            i = i + 1;
        }
        r
    }
}

} // verus!
