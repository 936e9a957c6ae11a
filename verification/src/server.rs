//! The description of a monitored endpoint.

use vstd::prelude::*;

verus! {

/// One endpoint: where to probe it and what to call it in alerts.
#[derive(Clone, Debug, PartialEq, Eq)]
pub struct ServerInfo {
    pub target_url: String,
    pub server_name: String,
}

/// Mathematical value of a [`ServerInfo`].
pub struct ServerInfoView {
    pub target_url: Seq<char>,
    pub server_name: Seq<char>,
}

impl View for ServerInfo {
    type V = ServerInfoView;

    open spec fn view(&self) -> ServerInfoView {
        ServerInfoView { target_url: self.target_url@, server_name: self.server_name@ }
    }
}

impl ServerInfo {
    /// An endpoint with the given address and name.
    pub fn new(target_url: &str, server_name: &str) -> (server: ServerInfo)
        ensures
            server@ == (ServerInfoView { target_url: target_url@, server_name: server_name@ }),
    {
        ServerInfo {
            target_url: String::from_str(target_url),
            server_name: String::from_str(server_name),
        }
    }
}

} // verus!
