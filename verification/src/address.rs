//! The address that the server listens on.

use crate::text::text_of;
use vstd::prelude::*;
use vstd::string::StringExecFns;

verus! {

/// The number of workers that the server starts.
pub const WORKERS: usize = 4;

/// The host that is used where none is configured: the loopback address.
pub open spec fn default_host() -> Seq<char> {
    "127.0.0.1"@
}

/// The port that is used where none is configured.
pub open spec fn default_port() -> Seq<char> {
    "7878"@
}

/// The listening address: host and port, each the configured value or else
/// its default, with a colon between them.
pub open spec fn address_of(host: Option<Seq<char>>, port: Option<Seq<char>>) -> Seq<char> {
    let host = match host {
        Some(host) => host,
        None => default_host(),
    };
    let port = match port {
        Some(port) => port,
        None => default_port(),
    };
    host + ":"@ + port
}

/// Puts together the listening address from the configured host and port,
/// where `None` stands for a value that is not configured.
pub fn listen_address(host: Option<&str>, port: Option<&str>) -> (address: String)
    ensures
        address@ == address_of(text_of(host), text_of(port)),
{
    let host = match host {
        Some(host) => host,
        None => "127.0.0.1",
    };
    let port = match port {
        Some(port) => port,
        None => "7878",
    };
    let mut address = String::new();
    address.append(host);
    address.append(":");
    address.append(port);
    assert(address@ =~= host@ + ":"@ + port@);
    address
}

} // verus!
