//! The name resolver's part of the configuration document.

use vstd::prelude::*;

verus! {

/// The built-in name resolver.
#[derive(Debug, Clone)]
pub struct DnsObject {
    /// Resolvers to query, in order.
    pub servers: Option<Vec<ServerObject>>,
    /// Static answers, one per host name.
    pub hosts: Option<Vec<(String, String)>>,
    /// Address announced to the resolvers.
    pub client_ip: Option<String>,
    /// Whether answers are never cached.
    pub disable_cache: Option<bool>,
    /// Tag carried by the resolver's own traffic.
    pub tag: Option<String>,
}

/// What contracts see of [`DnsObject`].
pub struct DnsObjectView {
    pub servers: Option<Seq<ServerObjectView>>,
    pub hosts: Option<Seq<(Seq<char>, Seq<char>)>>,
    pub client_ip: Option<Seq<char>>,
    pub disable_cache: Option<bool>,
    pub tag: Option<Seq<char>>,
}

impl DeepView for DnsObject {
    type V = DnsObjectView;

    open spec fn deep_view(&self) -> DnsObjectView {
        DnsObjectView {
            servers: self.servers.deep_view(),
            hosts: self.hosts.deep_view(),
            client_ip: self.client_ip.deep_view(),
            disable_cache: self.disable_cache.deep_view(),
            tag: self.tag.deep_view(),
        }
    }
}

impl View for DnsObject {
    type V = DnsObjectView;

    open spec fn view(&self) -> DnsObjectView {
        self.deep_view()
    }
}

impl DnsObjectView {
    /// Whether no name occurs twice in a table of this value.
    pub open spec fn wf(self) -> bool {
        self.hosts matches Some(table) ==> super::names_distinct(table)
    }
}

/// One name server.
#[derive(Debug, Clone)]
pub struct ServerObject {
    /// Address of the name server.
    pub address: String,
    /// Port of the name server.
    pub port: Option<super::Port>,
    /// Address announced to this server.
    pub client_ip: Option<String>,
    /// Domains resolved by this server first.
    pub domains: Option<Vec<String>>,
    /// Answers to discard.
    pub except_ips: Option<Vec<String>>,
}

/// What contracts see of [`ServerObject`].
pub struct ServerObjectView {
    pub address: Seq<char>,
    pub port: Option<super::PortView>,
    pub client_ip: Option<Seq<char>>,
    pub domains: Option<Seq<Seq<char>>>,
    pub except_ips: Option<Seq<Seq<char>>>,
}

impl DeepView for ServerObject {
    type V = ServerObjectView;

    open spec fn deep_view(&self) -> ServerObjectView {
        ServerObjectView {
            address: self.address.deep_view(),
            port: self.port.deep_view(),
            client_ip: self.client_ip.deep_view(),
            domains: self.domains.deep_view(),
            except_ips: self.except_ips.deep_view(),
        }
    }
}

impl View for ServerObject {
    type V = ServerObjectView;

    open spec fn view(&self) -> ServerObjectView {
        self.deep_view()
    }
}

} // verus!
