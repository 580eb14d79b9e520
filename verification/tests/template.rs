use v2ray_maid::v2ray_object::outbound::OutboundObject;
use v2ray_maid::v2ray_object::routing::DomainStrategy;
use v2ray_maid::v2ray_object::stream_settings::{StreamSettingsObject, WebSocketObject};
use v2ray_maid::v2ray_object::{Port, V2rayObject};
use v2ray_maid::v2ray_template::{build_template, GlobalSettings};
use v2ray_maid::vlink::VLink;

fn ws_link() -> VLink {
    let mut link = VLink::default();
    link.address = "1.2.3.4".to_string();
    link.port = 443;
    link.id = "my-id".to_string();
    link.alter_id = 2;
    link.security = "auto".to_string();
    link.network = "ws".to_string();
    link.remarks = "label".to_string();
    link.request_host = "  h.example \t".to_string();
    link.path = " /ws\n".to_string();
    link.stream_security = "tls".to_string();
    link
}

fn kcp_link() -> VLink {
    let mut link = ws_link();
    link.network = "kcp".to_string();
    link.header_type = "wechat-video".to_string();
    link
}

fn port_number(port: &Port) -> Option<u16> {
    match port {
        Port::Int(n) => Some(*n),
        Port::String(_) => None,
    }
}

#[test]
fn placeholder_server_has_the_documented_values() {
    let link = VLink::default();
    assert_eq!(link.protocol, "vmess");
    assert_eq!(link.address, "v2ray.cool");
    assert_eq!(link.port, 10086);
    assert_eq!(link.id, "bf0067d4-831e-4911-b644-9b4582f69671");
    assert_eq!(link.alter_id, 64);
    assert_eq!(link.security, "");
    assert_eq!(link.network, "tcp");
    assert_eq!(link.remarks, "def");
    assert_eq!(link.header_type, "");
    assert_eq!(link.request_host, "");
    assert_eq!(link.path, "");
    assert_eq!(link.stream_security, "");
    assert_eq!(link.latency, -1);
    assert_eq!(link.label(), "def");
}

#[test]
fn clone_of_a_server_is_the_same_server() {
    let mut link = ws_link();
    link.latency = 17;
    let copy = link.clone();
    assert_eq!(copy.remarks, link.remarks);
    assert_eq!(copy.address, link.address);
    assert_eq!(copy.port, link.port);
    assert_eq!(copy.id, link.id);
    assert_eq!(copy.latency, 17);
    assert_eq!(copy.request_host, link.request_host);
}

#[test]
fn only_vmess_over_kcp_or_ws_is_supported() {
    assert!(ws_link().is_supported());
    assert!(kcp_link().is_supported());
    assert!(!VLink::default().is_supported());
    let mut other = ws_link();
    other.protocol = "trojan".to_string();
    assert!(!other.is_supported());
    let mut other = ws_link();
    other.network = "WS".to_string();
    assert!(!other.is_supported());
}

#[test]
fn standard_global_settings() {
    let g = GlobalSettings::default();
    assert_eq!(g.use_mux, Some(false));
    assert_eq!(g.mux_concurrency, Some(8));
}

#[test]
fn stream_settings_over_websocket_trim_host_and_path() {
    let s: StreamSettingsObject = ws_link().gen_bound_stream_settings();
    assert_eq!(s.network.as_deref(), Some("ws"));
    assert_eq!(s.security.as_deref(), Some("tls"));
    let ws: WebSocketObject = s.ws_settings.unwrap();
    assert_eq!(ws.path.as_deref(), Some("/ws"));
    assert_eq!(ws.headers, Some(vec![("host".to_string(), "h.example".to_string())]));
    assert_eq!(ws.accept_proxy_protocol, None);
    let tls = s.tls_settings.unwrap();
    assert_eq!(tls.server_name.as_deref(), Some("h.example"));
    assert_eq!(tls.allow_insecure, Some(false));
    assert!(tls.alpn.is_none());
    assert!(s.kcp_settings.is_none());
    assert!(s.tcp_settings.is_none());
}

#[test]
fn stream_settings_over_websocket_leave_out_blank_host_and_path() {
    let mut link = ws_link();
    link.request_host = " \u{3000}\t ".to_string();
    link.path = String::new();
    let s = link.gen_bound_stream_settings();
    let ws = s.ws_settings.unwrap();
    assert!(ws.path.is_none());
    assert!(ws.headers.is_none());
    assert_eq!(s.tls_settings.unwrap().server_name.as_deref(), Some(""));
}

#[test]
fn stream_settings_keep_white_space_inside() {
    let mut link = ws_link();
    link.request_host = " a b ".to_string();
    link.path = "x\u{a0}".to_string();
    let s = link.gen_bound_stream_settings();
    let ws = s.ws_settings.unwrap();
    assert_eq!(ws.headers, Some(vec![("host".to_string(), "a b".to_string())]));
    assert_eq!(ws.path.as_deref(), Some("x"));
}

#[test]
fn stream_settings_over_kcp_name_the_header() {
    let s = kcp_link().gen_bound_stream_settings();
    assert_eq!(s.network.as_deref(), Some("kcp"));
    assert_eq!(s.security.as_deref(), Some("tls"));
    let kcp = s.kcp_settings.unwrap();
    assert_eq!(kcp.header.unwrap().type_.as_deref(), Some("wechat-video"));
    assert!(kcp.mtu.is_none());
    assert!(kcp.seed.is_none());
    assert!(s.ws_settings.is_none());
    assert!(s.tls_settings.is_none());
}

fn check_filled(outbound: &OutboundObject, tag: &str) {
    assert_eq!(outbound.tag, tag);
    assert_eq!(outbound.protocol, "vmess");
    assert!(outbound.send_through.is_none());
    let settings = outbound.settings.as_ref().unwrap();
    assert!(settings.servers.is_none());
    assert!(settings.response.is_none());
    let vnext = settings.vnext.as_ref().unwrap();
    assert_eq!(vnext.len(), 1);
    assert_eq!(vnext[0].address, "1.2.3.4");
    assert_eq!(port_number(&vnext[0].port), Some(443));
    assert_eq!(vnext[0].users.len(), 1);
    assert_eq!(vnext[0].users[0].id, "my-id");
    assert_eq!(vnext[0].users[0].alter_id, 2);
    assert_eq!(vnext[0].users[0].security.as_deref(), Some("auto"));
    assert_eq!(vnext[0].users[0].level, Some(8));
    assert_eq!(outbound.stream_settings.as_ref().unwrap().network.as_deref(), Some("ws"));
}

#[test]
fn outbound_is_filled_from_the_server() {
    let outbound = ws_link().gen_outbound("fast", None);
    check_filled(&outbound, "fast");
    let mux = outbound.mux.unwrap();
    assert!(!mux.enabled);
    assert_eq!(mux.concurrency, Some(8));
}

#[test]
fn outbound_takes_the_given_global_settings() {
    let g = GlobalSettings { use_mux: Some(true), mux_concurrency: Some(16) };
    let mux = ws_link().gen_outbound("t", Some(&g)).mux.unwrap();
    assert!(mux.enabled);
    assert_eq!(mux.concurrency, Some(16));
    let g = GlobalSettings { use_mux: None, mux_concurrency: None };
    let mux = ws_link().gen_outbound("t", Some(&g)).mux.unwrap();
    assert!(!mux.enabled);
    assert_eq!(mux.concurrency, None);
}

#[test]
fn fill_outbound_overwrites_only_the_first_server_and_account() {
    let mut outbound = kcp_link().gen_outbound("first", None);
    {
        let settings = outbound.settings.as_mut().unwrap();
        let vnext = settings.vnext.as_mut().unwrap();
        let mut second = vnext[0].clone();
        second.address = "second".to_string();
        vnext.push(second);
        let mut extra = vnext[0].users[0].clone();
        extra.id = "extra".to_string();
        vnext[0].users.push(extra);
        outbound.send_through = Some("10.0.0.1".to_string());
    }
    ws_link().fill_outbound(&mut outbound, "again", &GlobalSettings::default());
    assert_eq!(outbound.tag, "again");
    assert_eq!(outbound.send_through.as_deref(), Some("10.0.0.1"));
    let vnext = outbound.settings.as_ref().unwrap().vnext.as_ref().unwrap();
    assert_eq!(vnext.len(), 2);
    assert_eq!(vnext[0].address, "1.2.3.4");
    assert_eq!(vnext[1].address, "second");
    assert_eq!(vnext[0].users.len(), 2);
    assert_eq!(vnext[0].users[0].id, "my-id");
    assert_eq!(vnext[0].users[1].id, "extra");
    assert_eq!(outbound.stream_settings.unwrap().network.as_deref(), Some("ws"));
}

fn check_template_frame(config: &V2rayObject) {
    assert_eq!(config.log.as_ref().unwrap().loglevel.as_deref(), Some("Debug"));
    assert!(config.log.as_ref().unwrap().access.is_none());
    assert!(config.dns.is_none());
    let inbounds = config.inbounds.as_ref().unwrap();
    assert_eq!(inbounds.len(), 1);
    assert_eq!(inbounds[0].listen.as_deref(), Some("127.0.0.1"));
    assert_eq!(inbounds[0].protocol, "http");
    let outbounds = config.outbounds.as_ref().unwrap();
    assert_eq!(outbounds.len(), 2);
    assert_eq!(outbounds[1].tag, "direct");
    assert_eq!(outbounds[1].protocol, "freedom");
    assert!(outbounds[1].settings.is_none());
    let routing = config.routing.as_ref().unwrap();
    assert_eq!(routing.domain_strategy, Some(DomainStrategy::IPOnDemand));
    let rules = routing.rules.as_ref().unwrap();
    assert_eq!(rules.len(), 1);
    assert_eq!(rules[0].type_, "field");
    assert_eq!(rules[0].ip, Some(vec!["geoip:private".to_string()]));
    assert_eq!(rules[0].outbound_tag.as_deref(), Some("direct"));
}

#[test]
fn template_is_the_documented_one() {
    let config = build_template();
    check_template_frame(&config);
    assert_eq!(port_number(&config.inbounds.as_ref().unwrap()[0].port), Some(21954));
    let proxy = &config.outbounds.as_ref().unwrap()[0];
    assert_eq!(proxy.tag, "proxy");
    assert_eq!(proxy.protocol, "vmess");
    let settings = proxy.settings.as_ref().unwrap();
    let vnext = settings.vnext.as_ref().unwrap();
    assert_eq!(vnext[0].address, "v2ray.cool");
    assert_eq!(port_number(&vnext[0].port), Some(10086));
    assert_eq!(vnext[0].users[0].id, "a3482e88-686a-4a58-8126-99c9df64b7bf");
    assert_eq!(vnext[0].users[0].alter_id, 64);
    let servers = settings.servers.as_ref().unwrap();
    assert_eq!(servers[0].address, "127.0.0.1");
    assert_eq!(servers[0].port, 1234);
    assert_eq!(servers[0].users.as_ref().unwrap()[0].user, "test user");
    assert_eq!(servers[0].users.as_ref().unwrap()[0].pass, "test pass");
    assert_eq!(servers[0].users.as_ref().unwrap()[0].level, Some(0));
    assert_eq!(proxy.stream_settings.as_ref().unwrap().network.as_deref(), Some("tcp"));
    assert!(!proxy.mux.as_ref().unwrap().enabled);
    assert_eq!(proxy.mux.as_ref().unwrap().concurrency, None);
}

#[test]
fn full_configuration_is_the_template_with_the_proxy_filled_in() {
    let config = ws_link().gen_full(None);
    check_template_frame(&config);
    assert_eq!(port_number(&config.inbounds.as_ref().unwrap()[0].port), Some(21954));
    check_filled(&config.outbounds.as_ref().unwrap()[0], "proxy");
}

#[test]
fn probe_configuration_listens_on_the_leased_port() {
    let config = ws_link().probe_config(45678);
    check_template_frame(&config);
    assert_eq!(port_number(&config.inbounds.as_ref().unwrap()[0].port), Some(45678));
    check_filled(&config.outbounds.as_ref().unwrap()[0], "proxy");
    assert_eq!(config.outbounds.as_ref().unwrap()[0].mux.as_ref().unwrap().concurrency, Some(8));
}

#[test]
fn blank_values_of_the_document_types() {
    let s = StreamSettingsObject::default();
    assert!(s.network.is_none() && s.security.is_none() && s.sock_opt.is_none());
    let v = V2rayObject::default();
    assert!(v.log.is_none() && v.inbounds.is_none() && v.outbounds.is_none());
}

/// The characters that count as white space.
fn listed_as_white_space(c: char) -> bool {
    matches!(
        c as u32,
        0x09..=0x0D
            | 0x20
            | 0x85
            | 0xA0
            | 0x1680
            | 0x2000..=0x200A
            | 0x2028
            | 0x2029
            | 0x202F
            | 0x205F
            | 0x3000
    )
}

#[test]
fn white_space_is_what_the_standard_library_trims() {
    for n in 0..=0x10FFFFu32 {
        if let Some(c) = char::from_u32(n) {
            assert_eq!(c.is_whitespace(), listed_as_white_space(c), "for U+{:04X}", n);
        }
    }
}

#[test]
fn every_kind_of_white_space_is_trimmed_from_host_and_path() {
    let all: String = (0..=0x10FFFFu32)
        .filter_map(char::from_u32)
        .filter(|c| listed_as_white_space(*c))
        .collect();
    assert_eq!(all.chars().count(), 25);
    let mut link = ws_link();
    link.request_host = format!("{}host{}", all, all);
    link.path = format!("{}/p q{}", all, all);
    let ws = link.gen_bound_stream_settings().ws_settings.unwrap();
    assert_eq!(ws.headers, Some(vec![("host".to_string(), "host".to_string())]));
    assert_eq!(ws.path.as_deref(), Some("/p q"));
}

#[test]
fn other_characters_are_not_trimmed() {
    for c in ['\u{0}', '\u{1F}', '\u{200B}', '\u{FEFF}', '\u{180E}', '_', '\u{2060}'] {
        let mut link = ws_link();
        link.request_host = format!("{}host{}", c, c);
        let ws = link.gen_bound_stream_settings().ws_settings.unwrap();
        assert_eq!(ws.headers, Some(vec![("host".to_string(), format!("{}host{}", c, c))]));
    }
}
