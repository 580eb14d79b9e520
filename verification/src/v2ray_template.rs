//! Building the proxy program's configuration for one server.
//!
//! Every configuration starts from one fixed template: an HTTP listener on
//! the loopback address, a `proxy` outbound and a `direct` outbound, and a
//! rule that sends private addresses to `direct`. The `proxy` outbound is
//! then filled in from the server's description.
//!
//! Only servers that speak `vmess` over `kcp` or `ws` can be written down;
//! [`VLink::is_supported`] tells.

use vstd::prelude::*;
use vstd::string::StringExecFns;
use crate::text::{trim, trimmed};
use crate::v2ray_object::inbound::{InboundObject, InboundObjectView};
use crate::v2ray_object::outbound::{
    MuxObject,
    MuxObjectView,
    OutboundConfigurationObject,
    OutboundConfigurationObjectView,
    OutboundObject,
    OutboundObjectView,
};
use crate::v2ray_object::routing::{DomainStrategy, RoutingObject, RoutingObjectView, RuleObject, RuleObjectView};
use crate::v2ray_object::stream_settings::{
    HeaderObject,
    HeaderObjectView,
    KcpObject,
    KcpObjectView,
    StreamSettingsObject,
    StreamSettingsObjectView,
    TLSObject,
    TLSObjectView,
    WebSocketObject,
    WebSocketObjectView,
};
use crate::v2ray_object::{
    LogObject,
    LogObjectView,
    Port,
    PortView,
    ServerObject,
    ServerObjectView,
    SocksServerObject,
    SocksServerObjectView,
    SocksUserObject,
    SocksUserObjectView,
    UserObject,
    UserObjectView,
    V2rayObject,
    V2rayObjectView,
};
use crate::vlink::{VLink, VLinkView};

verus! {

/// Options that apply to every generated outbound.
#[derive(Debug, Clone, Copy, PartialEq, Eq, Structural)]
pub struct GlobalSettings {
    /// Whether multiplexing is switched on; `None` leaves it off.
    pub use_mux: Option<bool>,
    /// Most streams on one connection; `None` leaves the program's own limit.
    pub mux_concurrency: Option<i32>,
}

impl GlobalSettings {
    /// The options used where the caller gives none: multiplexing off, at
    /// most eight streams on one connection.
    pub open spec fn standard() -> GlobalSettings {
        GlobalSettings { use_mux: Some(false), mux_concurrency: Some(8) }
    }

    /// The options to use: the caller's, or the standard ones.
    pub open spec fn or_standard(given: Option<&GlobalSettings>) -> GlobalSettings {
        match given {
            Some(g) => *g,
            None => GlobalSettings::standard(),
        }
    }
}

impl Default for GlobalSettings {
    fn default() -> (r: Self)
        ensures
            r == GlobalSettings::standard(),
    {
        GlobalSettings { use_mux: Some(false), mux_concurrency: Some(8) }
    }
}

/// The tag of the outbound that [`VLink::gen_full`] fills in.
pub open spec fn proxy_tag() -> Seq<char> {
    "proxy"@
}

/// The multiplexing options that follow from the global settings.
pub open spec fn mux_for(settings: GlobalSettings) -> MuxObjectView {
    MuxObjectView {
        enabled: match settings.use_mux {
            Some(enabled) => enabled,
            None => false,
        },
        concurrency: settings.mux_concurrency,
    }
}

impl VLinkView {
    /// Whether a configuration can be written for this server.
    pub open spec fn supported(self) -> bool {
        self.protocol == "vmess"@ && self.transport_known()
    }

    /// Whether the server's transport is one of those that can be written down.
    pub open spec fn transport_known(self) -> bool {
        self.network == "kcp"@ || self.network == "ws"@
    }

    /// The transport options for this server.
    ///
    /// Over `kcp` they name the packet disguise. Over `ws` they name path and
    /// `host` header, each only if it is not blank, and ask for a verified
    /// certificate in the host's name.
    pub open spec fn stream_settings(self) -> StreamSettingsObjectView {
        let base = StreamSettingsObjectView {
            network: Some(self.network),
            security: Some(self.stream_security),
            ..StreamSettingsObjectView::blank()
        };
        if self.network == "kcp"@ {
            StreamSettingsObjectView {
                kcp_settings: Some(
                    KcpObjectView {
                        header: Some(HeaderObjectView { type_: Some(self.header_type) }),
                        ..KcpObjectView::blank()
                    },
                ),
                ..base
            }
        } else {
            let host = trimmed(self.request_host);
            let path = trimmed(self.path);
            StreamSettingsObjectView {
                ws_settings: Some(
                    WebSocketObjectView {
                        accept_proxy_protocol: None,
                        path: if path.len() == 0 {
                            None
                        } else {
                            Some(path)
                        },
                        headers: if host.len() == 0 {
                            None
                        } else {
                            Some(seq![("host"@, host)])
                        },
                    },
                ),
                tls_settings: Some(
                    TLSObjectView {
                        server_name: Some(host),
                        allow_insecure: Some(false),
                        ..TLSObjectView::blank()
                    },
                ),
                ..base
            }
        }
    }

    /// The outbound `before` with this server filled in under `tag`: its
    /// first `vnext` server and that server's first account are overwritten,
    /// the password servers are removed, and multiplexing and transport are
    /// set. Everything else stays.
    pub open spec fn fill(
        self,
        before: OutboundObjectView,
        tag: Seq<char>,
        settings: GlobalSettings,
    ) -> OutboundObjectView {
        let options = before.settings->0;
        let servers = options.vnext->0;
        let user = UserObjectView {
            id: self.id,
            alter_id: self.alter_id,
            security: Some(self.security),
            level: Some(8),
        };
        let server = ServerObjectView {
            address: self.address,
            port: PortView::Int(self.port),
            users: servers[0].users.update(0, user),
        };
        OutboundObjectView {
            tag,
            settings: Some(
                OutboundConfigurationObjectView {
                    vnext: Some(servers.update(0, server)),
                    servers: None,
                    ..options
                },
            ),
            stream_settings: Some(self.stream_settings()),
            mux: Some(mux_for(settings)),
            ..before
        }
    }

    /// The outbound for this server under `tag`.
    pub open spec fn outbound(self, tag: Seq<char>, settings: GlobalSettings) -> OutboundObjectView {
        self.fill(template_proxy(), tag, settings)
    }

    /// The complete configuration for this server: the template with its
    /// first outbound filled in.
    pub open spec fn full(self, settings: GlobalSettings) -> V2rayObjectView {
        V2rayObjectView {
            outbounds: Some(seq![self.outbound(proxy_tag(), settings), template_direct()]),
            ..template()
        }
    }

    /// The configuration under which this server is probed: the complete one,
    /// with the listener moved to `port`.
    pub open spec fn probe_config(self, port: u16) -> V2rayObjectView {
        V2rayObjectView {
            inbounds: Some(seq![InboundObjectView { port: PortView::Int(port), ..template_inbound() }]),
            ..self.full(GlobalSettings::standard())
        }
    }
}

impl OutboundObjectView {
    /// Whether the outbound has a first `vnext` server with a first account,
    /// which is where a server is filled in.
    pub open spec fn fillable(self) -> bool {
        &&& self.settings matches Some(options)
        &&& options.vnext matches Some(servers)
        &&& servers.len() > 0
        &&& servers[0].users.len() > 0
    }
}

/// The template's listener: HTTP on the loopback address.
pub open spec fn template_inbound() -> InboundObjectView {
    InboundObjectView {
        listen: Some("127.0.0.1"@),
        port: PortView::Int(21954),
        protocol: "http"@,
        settings: None,
        tag: None,
        stream_settings: None,
        sniffing: None,
        allocate: None,
    }
}

/// The template's `proxy` outbound, before a server is filled in.
pub open spec fn template_proxy() -> OutboundObjectView {
    OutboundObjectView {
        send_through: None,
        tag: "proxy"@,
        protocol: "vmess"@,
        settings: Some(
            OutboundConfigurationObjectView {
                vnext: Some(
                    seq![
                        ServerObjectView {
                            address: "v2ray.cool"@,
                            port: PortView::Int(10086),
                            users: seq![
                                UserObjectView {
                                    id: "a3482e88-686a-4a58-8126-99c9df64b7bf"@,
                                    alter_id: 64,
                                    security: Some("auto"@),
                                    level: Some(8),
                                },
                            ],
                        },
                    ],
                ),
                servers: Some(
                    seq![
                        SocksServerObjectView {
                            address: "127.0.0.1"@,
                            port: 1234,
                            users: Some(
                                seq![
                                    SocksUserObjectView {
                                        user: "test user"@,
                                        pass: "test pass"@,
                                        level: Some(0),
                                    },
                                ],
                            ),
                        },
                    ],
                ),
                response: None,
                domain_strategy: None,
            },
        ),
        stream_settings: Some(
            StreamSettingsObjectView { network: Some("tcp"@), ..StreamSettingsObjectView::blank() },
        ),
        mux: Some(MuxObjectView { enabled: false, concurrency: None }),
    }
}

/// The template's `direct` outbound.
pub open spec fn template_direct() -> OutboundObjectView {
    OutboundObjectView {
        send_through: None,
        tag: "direct"@,
        protocol: "freedom"@,
        settings: None,
        stream_settings: None,
        mux: None,
    }
}

/// The template's routing: private addresses go to `direct`.
pub open spec fn template_routing() -> RoutingObjectView {
    RoutingObjectView {
        domain_strategy: Some(DomainStrategy::IPOnDemand),
        domain_matcher: None,
        balancers: None,
        rules: Some(
            seq![
                RuleObjectView {
                    domain_matcher: None,
                    type_: "field"@,
                    domain: None,
                    ip: Some(seq!["geoip:private"@]),
                    port: None,
                    source_port: None,
                    network: None,
                    source: None,
                    user: None,
                    inbound_tag: None,
                    outbound_tag: Some("direct"@),
                    balancer_tag: None,
                    attrs: None,
                    protocol: None,
                },
            ],
        ),
    }
}

/// The template that every configuration starts from.
pub open spec fn template() -> V2rayObjectView {
    V2rayObjectView {
        log: Some(LogObjectView { access: None, error: None, loglevel: Some("Debug"@) }),
        dns: None,
        inbounds: Some(seq![template_inbound()]),
        outbounds: Some(seq![template_proxy(), template_direct()]),
        routing: Some(template_routing()),
    }
}

/// A list of one item.
fn single<T: DeepView>(item: T) -> (v: Vec<T>)
    ensures
        v@ == seq![item],
        v.deep_view() == seq![item.deep_view()],
{
    let mut v: Vec<T> = Vec::new();
    v.push(item);
    assert(v.deep_view() =~= seq![item.deep_view()]);
    v
}

/// Builds the template's listener.
fn build_template_inbound() -> (r: InboundObject)
    ensures
        r@ == template_inbound(),
{
    InboundObject {
        listen: Some(String::from_str("127.0.0.1")),
        port: Port::Int(21954),
        protocol: String::from_str("http"),
        settings: None,
        tag: None,
        stream_settings: None,
        sniffing: None,
        allocate: None,
    }
}

/// Builds the template's `proxy` outbound.
fn build_template_proxy() -> (r: OutboundObject)
    ensures
        r@ == template_proxy(),
        r@.fillable(),
{
    let user = UserObject {
        id: String::from_str("a3482e88-686a-4a58-8126-99c9df64b7bf"),
        alter_id: 64,
        security: Some(String::from_str("auto")),
        level: Some(8),
    };
    let server = ServerObject {
        address: String::from_str("v2ray.cool"),
        port: Port::Int(10086),
        users: single(user),
    };
    let account = SocksUserObject {
        user: String::from_str("test user"),
        pass: String::from_str("test pass"),
        level: Some(0),
    };
    let fallback = SocksServerObject {
        address: String::from_str("127.0.0.1"),
        port: 1234,
        users: Some(single(account)),
    };
    let mut stream = StreamSettingsObject::default();
    stream.network = Some(String::from_str("tcp"));
    OutboundObject {
        send_through: None,
        tag: String::from_str("proxy"),
        protocol: String::from_str("vmess"),
        settings: Some(
            OutboundConfigurationObject {
                vnext: Some(single(server)),
                servers: Some(single(fallback)),
                response: None,
                domain_strategy: None,
            },
        ),
        stream_settings: Some(stream),
        mux: Some(MuxObject { enabled: false, concurrency: None }),
    }
}

/// Builds the template's `direct` outbound.
fn build_template_direct() -> (r: OutboundObject)
    ensures
        r@ == template_direct(),
{
    OutboundObject {
        send_through: None,
        tag: String::from_str("direct"),
        protocol: String::from_str("freedom"),
        settings: None,
        stream_settings: None,
        mux: None,
    }
}

/// Builds the template's routing.
fn build_template_routing() -> (r: RoutingObject)
    ensures
        r@ == template_routing(),
{
    let rule = RuleObject {
        domain_matcher: None,
        type_: String::from_str("field"),
        domain: None,
        ip: Some(single(String::from_str("geoip:private"))),
        port: None,
        source_port: None,
        network: None,
        source: None,
        user: None,
        inbound_tag: None,
        outbound_tag: Some(String::from_str("direct")),
        balancer_tag: None,
        attrs: None,
        protocol: None,
    };
    RoutingObject {
        domain_strategy: Some(DomainStrategy::IPOnDemand),
        domain_matcher: None,
        balancers: None,
        rules: Some(single(rule)),
    }
}

/// A list of two items.
fn pair<T: DeepView>(first: T, second: T) -> (v: Vec<T>)
    ensures
        v@ == seq![first, second],
        v.deep_view() == seq![first.deep_view(), second.deep_view()],
{
    let mut v: Vec<T> = Vec::new();
    v.push(first);
    v.push(second);
    assert(v.deep_view() =~= seq![first.deep_view(), second.deep_view()]);
    v
}

/// The multiplexing options that follow from the global settings.
fn build_mux(settings: &GlobalSettings) -> (r: MuxObject)
    ensures
        r@ == mux_for(*settings),
{
    let mut mux = MuxObject::default();
    if let Some(enabled) = settings.use_mux {
        mux.enabled = enabled;
    }
    if let Some(concurrency) = settings.mux_concurrency {
        mux.concurrency = Some(concurrency);
    }
    mux
}

impl VLink {
    /// Whether a configuration can be written for this server.
    pub fn is_supported(&self) -> (r: bool)
        ensures
            r == self@.supported(),
    {
        let vmess = String::from_str("vmess");
        let kcp = String::from_str("kcp");
        let ws = String::from_str("ws");
        self.protocol == vmess && (self.network == kcp || self.network == ws)
    }

    /// The transport options for this server.
    pub fn gen_bound_stream_settings(&self) -> (r: StreamSettingsObject)
        requires
            self@.transport_known(),
        ensures
            r@ == self@.stream_settings(),
            r@.ws_settings matches Some(ws) ==> ws.wf(),
    {
        let mut stream_settings = StreamSettingsObject::default();
        stream_settings.network = Some(self.network.clone());
        stream_settings.security = Some(self.stream_security.clone());
        let kcp = String::from_str("kcp");
        if self.network == kcp {
            let mut kcp_settings = KcpObject::default();
            let mut header = HeaderObject::default();
            header.type_ = Some(self.header_type.clone());
            kcp_settings.header = Some(header);
            stream_settings.kcp_settings = Some(kcp_settings);
        } else {
            let mut ws_settings = WebSocketObject::default();
            let host = String::from_str(trim(self.request_host.as_str()));
            let path = String::from_str(trim(self.path.as_str()));
            if !host.as_str().is_empty() {
                ws_settings.headers = Some(single((String::from_str("host"), host.clone())));
            }
            if !path.as_str().is_empty() {
                ws_settings.path = Some(path);
            }
            stream_settings.ws_settings = Some(ws_settings);
            let mut tls_settings = TLSObject::default();
            tls_settings.allow_insecure = Some(false);
            tls_settings.server_name = Some(host);
            stream_settings.tls_settings = Some(tls_settings);
        }
        stream_settings
    }

    /// Fills this server into `outbound` under `tag`.
    pub fn fill_outbound(
        &self,
        outbound: &mut OutboundObject,
        tag: &str,
        global_settings: &GlobalSettings,
    )
        requires
            self@.supported(),
            old(outbound)@.fillable(),
        ensures
            final(outbound)@ == self@.fill(old(outbound)@, tag@, *global_settings),
    {
        let mux = build_mux(global_settings);
        let stream_settings = self.gen_bound_stream_settings();
        outbound.tag = String::from_str(tag);
        match &mut outbound.settings {
            Some(options) => {
                options.servers = None;
                match &mut options.vnext {
                    Some(servers) => {
                        let ghost before = servers.deep_view();
                        let vnext = &mut servers[0];
                        let ghost users_before = vnext.users.deep_view();
                        vnext.address = self.address.clone();
                        vnext.port = Port::Int(self.port);
                        let user = &mut vnext.users[0];
                        user.id = self.id.clone();
                        user.alter_id = self.alter_id;
                        user.security = Some(self.security.clone());
                        user.level = Some(8);
                        assert(vnext.users.deep_view() =~= users_before.update(0, user.deep_view()));
                        assert(servers.deep_view() =~= before.update(0, vnext.deep_view()));
                    },
                    None => {},
                }
            },
            None => {},
        }
        outbound.mux = Some(mux);
        outbound.stream_settings = Some(stream_settings);
    }

    /// The outbound for this server under `tag`, with the given options or
    /// the standard ones.
    pub fn gen_outbound(&self, tag: &str, global_settings: Option<&GlobalSettings>) -> (r:
        OutboundObject)
        requires
            self@.supported(),
        ensures
            r@ == self@.outbound(tag@, GlobalSettings::or_standard(global_settings)),
    {
        let standard = GlobalSettings::default();
        let settings = match global_settings {
            Some(g) => g,
            None => &standard,
        };
        let mut outbound = build_template_proxy();
        self.fill_outbound(&mut outbound, tag, settings);
        outbound
    }

    /// The complete configuration for this server, with the given options or
    /// the standard ones.
    pub fn gen_full(&self, global_settings: Option<&GlobalSettings>) -> (r: V2rayObject)
        requires
            self@.supported(),
        ensures
            r@ == self@.full(GlobalSettings::or_standard(global_settings)),
    {
        let outbound = self.gen_outbound("proxy", global_settings);
        V2rayObject {
            log: Some(
                LogObject { access: None, error: None, loglevel: Some(String::from_str("Debug")) },
            ),
            dns: None,
            inbounds: Some(single(build_template_inbound())),
            outbounds: Some(pair(outbound, build_template_direct())),
            routing: Some(build_template_routing()),
        }
    }

    /// The configuration under which this server is probed: the complete one
    /// with the standard options, listening on `port`.
    pub fn probe_config(&self, port: u16) -> (r: V2rayObject)
        requires
            self@.supported(),
        ensures
            r@ == self@.probe_config(port),
    {
        let mut config = self.gen_full(None);
        let mut listener = build_template_inbound();
        listener.port = Port::Int(port);
        config.inbounds = Some(single(listener));
        config
    }
}

/// The template that every configuration starts from.
pub fn build_template() -> (r: V2rayObject)
    ensures
        r@ == template(),
{
    V2rayObject {
        log: Some(LogObject { access: None, error: None, loglevel: Some(String::from_str("Debug")) }),
        dns: None,
        inbounds: Some(single(build_template_inbound())),
        outbounds: Some(pair(build_template_proxy(), build_template_direct())),
        routing: Some(build_template_routing()),
    }
}

} // verus!
