use v2ray_maid::ranker::{best, push_if_matched, rank, select_matching};
use v2ray_maid::settings::VlinkProxy;
use v2ray_maid::vlink::VLink;

fn server(label: &str, latency: i32) -> VLink {
    let mut link = VLink::default();
    link.remarks = label.to_string();
    link.latency = latency;
    link
}

fn target(selector: &str) -> VlinkProxy {
    VlinkProxy {
        selector: selector.to_string(),
        tag: None,
        target_file: "config.json".to_string(),
        limit: None,
        vlinks: Vec::new(),
    }
}

fn labels(servers: &[VLink]) -> Vec<&str> {
    servers.iter().map(|s| s.remarks.as_str()).collect()
}

fn latencies(servers: &[VLink]) -> Vec<i32> {
    servers.iter().map(|s| s.latency).collect()
}

#[test]
fn rank_sorts_ascending_and_keeps_ties_in_input_order() {
    let mut servers =
        vec![server("a", 50), server("b", 10), server("c", 10), server("d", 30)];
    rank(&mut servers);
    assert_eq!(latencies(&servers), vec![10, 10, 30, 50]);
    assert_eq!(labels(&servers), vec!["b", "c", "d", "a"]);
}

#[test]
fn rank_is_stable_over_many_ties() {
    let mut servers = vec![
        server("a", 3),
        server("b", 1),
        server("c", 3),
        server("d", 1),
        server("e", 2),
        server("f", 3),
        server("g", 1),
    ];
    rank(&mut servers);
    assert_eq!(labels(&servers), vec!["b", "d", "g", "e", "a", "c", "f"]);
}

#[test]
fn rank_of_reversed_input() {
    let mut servers = vec![server("a", 5), server("b", 4), server("c", 3), server("d", 2)];
    rank(&mut servers);
    assert_eq!(latencies(&servers), vec![2, 3, 4, 5]);
}

#[test]
fn rank_leaves_short_lists_alone() {
    let mut none: Vec<VLink> = Vec::new();
    rank(&mut none);
    assert!(none.is_empty());
    let mut one = vec![server("a", 9)];
    rank(&mut one);
    assert_eq!(labels(&one), vec!["a"]);
}

#[test]
fn rank_puts_unreachable_first() {
    let mut servers = vec![server("a", 20), server("b", -1), server("c", 0)];
    rank(&mut servers);
    assert_eq!(labels(&servers), vec!["b", "c", "a"]);
}

#[test]
fn best_is_the_first_server() {
    let mut proxy = target(".*");
    assert!(best(&proxy).is_none());
    proxy.vlinks = vec![server("a", 50), server("b", 10)];
    rank(&mut proxy.vlinks);
    assert_eq!(best(&proxy).unwrap().remarks, "b");
}

#[test]
fn select_matching_takes_the_servers_the_selector_matches() {
    let servers = vec![
        server("HK-01", 10),
        server("US-01", 20),
        server("HK-02", 30),
        server("my HK", 40),
    ];
    let mut proxy = target("^HK");
    select_matching(&mut proxy, &servers);
    assert_eq!(labels(&proxy.vlinks), vec!["HK-01", "HK-02"]);
    assert_eq!(latencies(&proxy.vlinks), vec![10, 30]);
    assert_eq!(proxy.selector, "^HK");
    assert_eq!(proxy.target_file, "config.json");
}

#[test]
fn select_matching_searches_anywhere_in_the_label() {
    let servers = vec![server("HK-01", 10), server("my HK", 40), server("JP", 5)];
    let mut proxy = target("HK");
    select_matching(&mut proxy, &servers);
    assert_eq!(labels(&proxy.vlinks), vec!["HK-01", "my HK"]);
}

#[test]
fn select_matching_appends_to_what_is_there() {
    let servers = vec![server("JP-1", 10), server("JP-2", 20)];
    let mut proxy = target("JP-\\d");
    proxy.vlinks.push(server("kept", 1));
    select_matching(&mut proxy, &servers);
    assert_eq!(labels(&proxy.vlinks), vec!["kept", "JP-1", "JP-2"]);
}

#[test]
fn selector_that_is_no_expression_takes_nothing() {
    let servers = vec![server("(", 10), server("a", 20)];
    let mut proxy = target("(");
    select_matching(&mut proxy, &servers);
    assert!(proxy.vlinks.is_empty());
}

#[test]
fn push_if_matched_acts_on_yes_only() {
    let mut proxy = target("x");
    let s = server("a", 1);
    push_if_matched(&mut proxy, &s, Some(false));
    push_if_matched(&mut proxy, &s, None);
    assert!(proxy.vlinks.is_empty());
    push_if_matched(&mut proxy, &s, Some(true));
    assert_eq!(labels(&proxy.vlinks), vec!["a"]);
}
