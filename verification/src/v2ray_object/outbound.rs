//! The upstream connections of the configuration document.

use vstd::prelude::*;

verus! {

/// An upstream connection.
#[derive(Debug, Clone)]
pub struct OutboundObject {
    /// Local address to send from.
    pub send_through: Option<String>,
    /// Tag of the outbound.
    pub tag: String,
    /// Protocol spoken to the upstream.
    pub protocol: String,
    /// Protocol-specific options.
    pub settings: Option<OutboundConfigurationObject>,
    /// Transport options.
    pub stream_settings: Option<super::stream_settings::StreamSettingsObject>,
    /// Multiplexing options.
    pub mux: Option<MuxObject>,
}

/// What contracts see of [`OutboundObject`].
pub struct OutboundObjectView {
    pub send_through: Option<Seq<char>>,
    pub tag: Seq<char>,
    pub protocol: Seq<char>,
    pub settings: Option<OutboundConfigurationObjectView>,
    pub stream_settings: Option<super::stream_settings::StreamSettingsObjectView>,
    pub mux: Option<MuxObjectView>,
}

impl DeepView for OutboundObject {
    type V = OutboundObjectView;

    open spec fn deep_view(&self) -> OutboundObjectView {
        OutboundObjectView {
            send_through: self.send_through.deep_view(),
            tag: self.tag.deep_view(),
            protocol: self.protocol.deep_view(),
            settings: self.settings.deep_view(),
            stream_settings: self.stream_settings.deep_view(),
            mux: self.mux.deep_view(),
        }
    }
}

impl View for OutboundObject {
    type V = OutboundObjectView;

    open spec fn view(&self) -> OutboundObjectView {
        self.deep_view()
    }
}

/// How a direct outbound resolves host names.
#[derive(Debug, Clone, Copy, PartialEq, Eq, Structural)]
pub enum DomainStrategy {
    /// Leave resolution to the system.
    AsIs,
    /// Resolve with the built-in resolver.
    UseIP,
    /// Resolve to IPv4 addresses only.
    UseIPv4,
    /// Resolve to IPv6 addresses only.
    UseIPv6,
}

impl DeepView for DomainStrategy {
    type V = DomainStrategy;

    open spec fn deep_view(&self) -> DomainStrategy {
        *self
    }
}

impl View for DomainStrategy {
    type V = DomainStrategy;

    open spec fn view(&self) -> DomainStrategy {
        *self
    }
}

/// Protocol-specific options of an outbound.
#[derive(Debug, Clone)]
pub struct OutboundConfigurationObject {
    /// Upstream servers with identifier accounts.
    pub vnext: Option<Vec<super::ServerObject>>,
    /// Upstream servers with password accounts.
    pub servers: Option<Vec<super::SocksServerObject>>,
    /// Canned answer of a blackhole.
    pub response: Option<super::Response>,
    /// How a direct outbound resolves host names.
    pub domain_strategy: Option<DomainStrategy>,
}

/// What contracts see of [`OutboundConfigurationObject`].
pub struct OutboundConfigurationObjectView {
    pub vnext: Option<Seq<super::ServerObjectView>>,
    pub servers: Option<Seq<super::SocksServerObjectView>>,
    pub response: Option<super::ResponseView>,
    pub domain_strategy: Option<DomainStrategy>,
}

impl DeepView for OutboundConfigurationObject {
    type V = OutboundConfigurationObjectView;

    open spec fn deep_view(&self) -> OutboundConfigurationObjectView {
        OutboundConfigurationObjectView {
            vnext: self.vnext.deep_view(),
            servers: self.servers.deep_view(),
            response: self.response.deep_view(),
            domain_strategy: self.domain_strategy.deep_view(),
        }
    }
}

impl View for OutboundConfigurationObject {
    type V = OutboundConfigurationObjectView;

    open spec fn view(&self) -> OutboundConfigurationObjectView {
        self.deep_view()
    }
}

/// Chaining of one outbound through another.
#[derive(Debug, Clone)]
pub struct ProxySettings {
    /// Tag of the outbound to go through.
    pub tag: Option<String>,
    /// Whether the chained outbound's transport is used.
    pub transport_layer: Option<bool>,
}

/// What contracts see of [`ProxySettings`].
pub struct ProxySettingsView {
    pub tag: Option<Seq<char>>,
    pub transport_layer: Option<bool>,
}

impl DeepView for ProxySettings {
    type V = ProxySettingsView;

    open spec fn deep_view(&self) -> ProxySettingsView {
        ProxySettingsView {
            tag: self.tag.deep_view(),
            transport_layer: self.transport_layer.deep_view(),
        }
    }
}

impl View for ProxySettings {
    type V = ProxySettingsView;

    open spec fn view(&self) -> ProxySettingsView {
        self.deep_view()
    }
}

/// Multiplexing options.
#[derive(Debug, Clone)]
pub struct MuxObject {
    /// Whether several streams share one connection.
    pub enabled: bool,
    /// Most streams on one connection.
    pub concurrency: Option<i32>,
}

/// What contracts see of [`MuxObject`].
pub struct MuxObjectView {
    pub enabled: bool,
    pub concurrency: Option<i32>,
}

impl DeepView for MuxObject {
    type V = MuxObjectView;

    open spec fn deep_view(&self) -> MuxObjectView {
        MuxObjectView {
            enabled: self.enabled,
            concurrency: self.concurrency.deep_view(),
        }
    }
}

impl View for MuxObject {
    type V = MuxObjectView;

    open spec fn view(&self) -> MuxObjectView {
        self.deep_view()
    }
}

impl MuxObjectView {
    /// The value with nothing set: optional parts absent, texts empty, switches off.
    pub open spec fn blank() -> MuxObjectView {
        MuxObjectView {
            enabled: false,
            concurrency: None,
        }
    }
}

impl Default for MuxObject {
    fn default() -> (r: Self)
        ensures
            r@ == MuxObjectView::blank(),
    {
        MuxObject {
            enabled: false,
            concurrency: None,
        }
    }
}

} // verus!
