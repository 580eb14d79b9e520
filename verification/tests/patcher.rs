use v2ray_maid::patcher::{
    drop_tagged, is_writable, numbered_tag_for, patch_outbounds, written_count,
};
use v2ray_maid::settings::VlinkProxy;
use v2ray_maid::v2ray_object::outbound::OutboundObject;
use v2ray_maid::v2ray_object::V2rayObject;
use v2ray_maid::v2ray_template::build_template;
use v2ray_maid::vlink::VLink;

fn server(label: &str, address: &str) -> VLink {
    let mut link = VLink::default();
    link.network = "ws".to_string();
    link.remarks = label.to_string();
    link.address = address.to_string();
    link
}

fn target(tag: Option<&str>, limit: Option<usize>, servers: Vec<VLink>) -> VlinkProxy {
    VlinkProxy {
        selector: ".*".to_string(),
        tag: tag.map(|t| t.to_string()),
        target_file: "config.json".to_string(),
        limit,
        vlinks: servers,
    }
}

fn plain(tag: &str) -> OutboundObject {
    OutboundObject {
        send_through: None,
        tag: tag.to_string(),
        protocol: "freedom".to_string(),
        settings: None,
        stream_settings: None,
        mux: None,
    }
}

fn tags(config: &V2rayObject) -> Vec<&str> {
    config.outbounds.as_ref().unwrap().iter().map(|o| o.tag.as_str()).collect()
}

fn addresses(config: &V2rayObject) -> Vec<String> {
    config
        .outbounds
        .as_ref()
        .unwrap()
        .iter()
        .filter_map(|o| o.settings.as_ref())
        .filter_map(|s| s.vnext.as_ref())
        .map(|v| v[0].address.clone())
        .collect()
}

#[test]
fn numbered_tags_are_written_in_decimal() {
    assert_eq!(numbered_tag_for("proxy", 0), "proxy_0");
    assert_eq!(numbered_tag_for("proxy", 7), "proxy_7");
    assert_eq!(numbered_tag_for("proxy", 10), "proxy_10");
    assert_eq!(numbered_tag_for("hk", 123), "hk_123");
    assert_eq!(numbered_tag_for("", 9000), "_9000");
}

#[test]
fn drop_tagged_takes_out_outbounds_by_tag_prefix() {
    let mut outbounds =
        vec![plain("proxy"), plain("direct"), plain("proxy_1"), plain("block"), plain("pro")];
    drop_tagged(&mut outbounds, "proxy");
    let left: Vec<&str> = outbounds.iter().map(|o| o.tag.as_str()).collect();
    assert_eq!(left, vec!["direct", "block", "pro"]);
}

#[test]
fn drop_tagged_with_an_empty_tag_takes_out_everything() {
    let mut outbounds = vec![plain("a"), plain("")];
    drop_tagged(&mut outbounds, "");
    assert!(outbounds.is_empty());
}

#[test]
fn drop_tagged_keeps_everything_when_nothing_matches() {
    let mut outbounds = vec![plain("a"), plain("b")];
    drop_tagged(&mut outbounds, "proxy");
    assert_eq!(outbounds.len(), 2);
    let mut none: Vec<OutboundObject> = Vec::new();
    drop_tagged(&mut none, "proxy");
    assert!(none.is_empty());
}

#[test]
fn written_count_follows_the_limit() {
    let three = || vec![server("a", "1"), server("b", "2"), server("c", "3")];
    assert_eq!(written_count(&target(None, None, three())), 1);
    assert_eq!(written_count(&target(None, Some(1), three())), 1);
    assert_eq!(written_count(&target(None, Some(0), three())), 1);
    assert_eq!(written_count(&target(None, Some(2), three())), 3);
    assert_eq!(written_count(&target(None, Some(3), three())), 3);
    assert_eq!(written_count(&target(None, Some(9), three())), 3);
    assert_eq!(written_count(&target(None, Some(2), vec![server("a", "1"); 5])), 3);
    assert_eq!(written_count(&target(None, Some(2), Vec::new())), 0);
}

#[test]
fn target_is_writable_when_the_written_servers_are_supported() {
    let mut tcp = server("t", "9");
    tcp.network = "tcp".to_string();
    assert!(is_writable(&target(None, None, vec![server("a", "1"), tcp.clone()])));
    assert!(!is_writable(&target(None, Some(2), vec![server("a", "1"), tcp.clone()])));
    assert!(!is_writable(&target(None, None, vec![tcp])));
    assert!(is_writable(&target(None, None, Vec::new())));
}

#[test]
fn patch_with_limit_one_writes_the_best_server_under_the_tag() {
    let mut config = build_template();
    let proxy = target(None, None, vec![server("a", "1.1.1.1"), server("b", "2.2.2.2")]);
    patch_outbounds(&mut config, &proxy);
    assert_eq!(tags(&config), vec!["proxy", "direct"]);
    assert_eq!(addresses(&config), vec!["1.1.1.1"]);
    assert!(config.inbounds.is_some());
    assert!(config.routing.is_some());
}

#[test]
fn patch_keeps_outbounds_with_other_tags() {
    let mut config = build_template();
    config.outbounds.as_mut().unwrap().push(plain("hk_old"));
    config.outbounds.as_mut().unwrap().push(plain("block"));
    let proxy = target(Some("hk"), Some(1), vec![server("a", "1.1.1.1")]);
    patch_outbounds(&mut config, &proxy);
    assert_eq!(tags(&config), vec!["hk", "proxy", "direct", "block"]);
}

#[test]
fn patch_with_a_larger_limit_numbers_the_outbounds_last_one_first() {
    let mut config = build_template();
    let servers = vec![
        server("a", "1.1.1.1"),
        server("b", "2.2.2.2"),
        server("c", "3.3.3.3"),
        server("d", "4.4.4.4"),
    ];
    let proxy = target(Some("px"), Some(2), servers);
    patch_outbounds(&mut config, &proxy);
    assert_eq!(tags(&config), vec!["px_2", "px_1", "px_0", "proxy", "direct"]);
    assert_eq!(&addresses(&config)[..3], ["3.3.3.3", "2.2.2.2", "1.1.1.1"]);
}

#[test]
fn patch_with_limit_zero_numbers_one_outbound() {
    let mut config = build_template();
    let proxy = target(None, Some(0), vec![server("a", "1.1.1.1"), server("b", "2.2.2.2")]);
    patch_outbounds(&mut config, &proxy);
    assert_eq!(tags(&config), vec!["proxy_0", "direct"]);
}

#[test]
fn patch_without_servers_changes_nothing() {
    let mut config = build_template();
    patch_outbounds(&mut config, &target(None, None, Vec::new()));
    assert_eq!(tags(&config), vec!["proxy", "direct"]);
    assert_eq!(addresses(&config), vec!["v2ray.cool"]);
}

#[test]
fn patch_creates_the_outbound_list_if_there_is_none() {
    let mut config = V2rayObject::default();
    patch_outbounds(&mut config, &target(None, None, vec![server("a", "1.1.1.1")]));
    assert_eq!(tags(&config), vec!["proxy"]);
}
