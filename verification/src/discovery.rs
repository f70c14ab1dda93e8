//! The discovery probe: which addresses of the local network are tried for a
//! relay, and what is reported of those that answer.
//!
//! The probe is best effort. The caller tries each candidate once, with a
//! short timeout, and says which of them accepted the connection.

use vstd::prelude::*;
use vstd::string::StringExecFns;
use crate::info::{ServerInfo, ServerInfoView};
use crate::text::{decimal, to_decimal};

verus! {

/// The port that is probed.
pub const DISCOVERY_PORT: u16 = 3625;

/// How long one connection attempt may take, in milliseconds.
pub const PROBE_TIMEOUT_MS: u64 = 100;

/// A list of strings as mathematical values.
pub open spec fn texts(strings: Seq<String>) -> Seq<Seq<char>> {
    strings.map_values(|s: String| s@)
}

/// A list of found servers as mathematical values.
pub open spec fn server_views(servers: Seq<ServerInfo>) -> Seq<ServerInfoView> {
    servers.map_values(|s: ServerInfo| s@)
}

/// The address of host `n` in the network with the given prefix.
pub open spec fn host(prefix: Seq<char>, n: nat) -> Seq<char> {
    prefix + "."@ + decimal(n)
}

/// The addresses of `count` hosts in a row, starting with host `first`.
pub open spec fn host_range(prefix: Seq<char>, first: nat, count: nat) -> Seq<Seq<char>> {
    Seq::new(count, |i: int| host(prefix, (first + i) as nat))
}

/// The addresses that a scan tries, in the order in which it tries them:
/// the whole of 192.168.1, then the first fifty hosts each of 10.0.0,
/// 172.16.0 and 192.168.0.
pub open spec fn default_candidates() -> Seq<Seq<char>> {
    host_range("192.168.1"@, 1, 254) + host_range("10.0.0"@, 1, 50) + host_range(
        "172.16.0"@,
        1,
        50,
    ) + host_range("192.168.0"@, 1, 50)
}

/// What is reported of a server that answered at an address.
pub open spec fn server_at(address: Seq<char>) -> ServerInfoView {
    ServerInfoView {
        address,
        port: DISCOVERY_PORT,
        name: "Chat Server at "@ + address,
        user_count: 0,
    }
}

/// The servers found among the first `n` candidates: one for each candidate
/// that accepted, in the order of the candidates. A candidate of which
/// nothing is said did not accept.
pub open spec fn found(candidates: Seq<Seq<char>>, accepted: Seq<bool>, n: nat) -> Seq<
    ServerInfoView,
>
    decreases n,
{
    if n == 0 {
        Seq::empty()
    } else {
        let rest = found(candidates, accepted, (n - 1) as nat);
        if n - 1 < candidates.len() && n - 1 < accepted.len() && accepted[n - 1] {
            rest.push(server_at(candidates[n - 1]))
        } else {
            rest
        }
    }
}

/// The address and port that is tried for a candidate, as `address:port`.
pub fn probe_target(address: &String) -> (target: String)
    ensures
        target@ == address@ + ":"@ + decimal(DISCOVERY_PORT as nat),
{
    let digits = to_decimal(DISCOVERY_PORT as u64);
    let target = address.clone().concat(":").concat(digits.as_str());
    target
}

/// The addresses of the hosts `first` to `last` of the network with the
/// given prefix; none if `first` is beyond `last`.
pub fn subnet_hosts(prefix: &str, first: u8, last: u8) -> (hosts: Vec<String>)
    ensures
        texts(hosts@) == host_range(
            prefix@,
            first as nat,
            if first <= last {
                (last - first + 1) as nat
            } else {
                0
            },
        ),
{
    let mut hosts: Vec<String> = Vec::new();
    if first > last {
        return hosts;
    }
    let mut n: u16 = first as u16;
    while n <= last as u16
        invariant
            first <= n <= last + 1,
            texts(hosts@) == host_range(prefix@, first as nat, (n - first) as nat),
        decreases last + 1 - n,
    {
        let digits = to_decimal(n as u64);
        let address = String::from_str(prefix).concat(".").concat(digits.as_str());
        let ghost before = hosts@;
        hosts.push(address);
        proof {
            let wanted = host_range(prefix@, first as nat, (n + 1 - first) as nat);
            assert(texts(before).len() == n - first);
            assert forall|i: int| 0 <= i < wanted.len() implies #[trigger] texts(hosts@)[i]
                == wanted[i] by {
                if i < before.len() {
                    assert(texts(before)[i] == host_range(
                        prefix@,
                        first as nat,
                        (n - first) as nat,
                    )[i]);
                }
            }
        }
        n += 1;
    }
    hosts
}

/// The addresses that a scan tries, in the order in which it tries them.
pub fn scan_candidates() -> (candidates: Vec<String>)
    ensures
        texts(candidates@) == default_candidates(),
{
    let mut candidates = subnet_hosts("192.168.1", 1, 254);
    let mut second = subnet_hosts("10.0.0", 1, 50);
    let mut third = subnet_hosts("172.16.0", 1, 50);
    let mut fourth = subnet_hosts("192.168.0", 1, 50);
    candidates.append(&mut second);
    candidates.append(&mut third);
    candidates.append(&mut fourth);
    candidates
}

/// Reports the servers that a scan found.
///
/// `accepted` says of each candidate, in order, whether a connection to it on
/// the discovery port was accepted within the timeout. Each one that accepted
/// is reported under its address, with a name made from the address and a
/// user count of 0; nothing else is.
pub fn discover_servers(candidates: &Vec<String>, accepted: &Vec<bool>) -> (servers: Vec<
    ServerInfo,
>)
    ensures
        server_views(servers@) == found(texts(candidates@), accepted@, candidates@.len()),
{
    let mut servers: Vec<ServerInfo> = Vec::new();
    let mut i: usize = 0;
    while i < candidates.len()
        invariant
            0 <= i <= candidates.len(),
            server_views(servers@) == found(texts(candidates@), accepted@, i as nat),
        decreases candidates.len() - i,
    {
        if i < accepted.len() && accepted[i] {
            let address = candidates[i].clone();
            let name = String::from_str("Chat Server at ").concat(address.as_str());
            let server = ServerInfo { address, port: DISCOVERY_PORT, name, user_count: 0 };
            servers.push(server);
        }
        i += 1;
    }
    servers
}

} // verus!
