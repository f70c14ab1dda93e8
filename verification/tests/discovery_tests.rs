use chat_relay::discovery::{
    discover_servers, probe_target, scan_candidates, subnet_hosts, DISCOVERY_PORT,
    PROBE_TIMEOUT_MS,
};
use chat_relay::info::ServerInfo;

#[test]
fn the_scan_tries_the_fixed_candidates_in_order() {
    let candidates = scan_candidates();
    assert_eq!(candidates.len(), 254 + 50 + 50 + 50);
    assert_eq!(candidates[0], "192.168.1.1");
    assert_eq!(candidates[253], "192.168.1.254");
    assert_eq!(candidates[254], "10.0.0.1");
    assert_eq!(candidates[303], "10.0.0.50");
    assert_eq!(candidates[304], "172.16.0.1");
    assert_eq!(candidates[353], "172.16.0.50");
    assert_eq!(candidates[354], "192.168.0.1");
    assert_eq!(candidates[403], "192.168.0.50");
}

#[test]
fn probe_constants() {
    assert_eq!(DISCOVERY_PORT, 3625);
    assert_eq!(PROBE_TIMEOUT_MS, 100);
    assert_eq!(probe_target(&"192.168.1.7".to_string()), "192.168.1.7:3625");
}

#[test]
fn subnet_hosts_covers_the_range_with_both_ends() {
    assert_eq!(subnet_hosts("10.1.2", 9, 11), vec!["10.1.2.9", "10.1.2.10", "10.1.2.11"]);
    assert_eq!(subnet_hosts("10.1.2", 5, 5), vec!["10.1.2.5"]);
    assert_eq!(subnet_hosts("10.1.2", 6, 5), Vec::<String>::new());
    assert_eq!(subnet_hosts("10.1.2", 0, 255).len(), 256);
    assert_eq!(subnet_hosts("10.1.2", 254, 255), vec!["10.1.2.254", "10.1.2.255"]);
}

#[test]
fn each_candidate_that_accepted_is_reported() {
    let candidates = subnet_hosts("192.168.1", 1, 4);
    let found = discover_servers(&candidates, &vec![false, true, false, true]);
    assert_eq!(
        found,
        vec![
            ServerInfo {
                address: "192.168.1.2".to_string(),
                port: 3625,
                name: "Chat Server at 192.168.1.2".to_string(),
                user_count: 0,
            },
            ServerInfo {
                address: "192.168.1.4".to_string(),
                port: 3625,
                name: "Chat Server at 192.168.1.4".to_string(),
                user_count: 0,
            },
        ]
    );
}

#[test]
fn nothing_accepted_nothing_found() {
    let candidates = scan_candidates();
    assert_eq!(discover_servers(&candidates, &vec![false; 404]), vec![]);
    assert_eq!(discover_servers(&candidates, &vec![]), vec![]);
    assert_eq!(discover_servers(&vec![], &vec![true, true]), vec![]);
}

#[test]
fn answers_beyond_the_candidates_are_ignored_and_missing_ones_count_as_refused() {
    let candidates = subnet_hosts("10.0.0", 1, 3);
    let few = discover_servers(&candidates, &vec![true]);
    assert_eq!(few.len(), 1);
    assert_eq!(few[0].address, "10.0.0.1");
    let many = discover_servers(&candidates, &vec![false, false, true, true, true]);
    assert_eq!(many.len(), 1);
    assert_eq!(many[0].address, "10.0.0.3");
}
