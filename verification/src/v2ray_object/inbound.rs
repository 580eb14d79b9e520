//! The listeners of the configuration document.

use vstd::prelude::*;

verus! {

/// A listener that accepts local traffic.
#[derive(Debug, Clone)]
pub struct InboundObject {
    /// Address to listen on.
    pub listen: Option<String>,
    /// Port to listen on.
    pub port: super::Port,
    /// Protocol spoken by the listener.
    pub protocol: String,
    /// Protocol-specific options.
    pub settings: Option<InboundConfigurationObject>,
    /// Tag of the listener.
    pub tag: Option<String>,
    /// Transport options.
    pub stream_settings: Option<super::stream_settings::StreamSettingsObject>,
    /// Traffic sniffing options.
    pub sniffing: Option<SniffingObject>,
    /// Port allocation options.
    pub allocate: Option<AllocateObject>,
}

/// What contracts see of [`InboundObject`].
pub struct InboundObjectView {
    pub listen: Option<Seq<char>>,
    pub port: super::PortView,
    pub protocol: Seq<char>,
    pub settings: Option<InboundConfigurationObjectView>,
    pub tag: Option<Seq<char>>,
    pub stream_settings: Option<super::stream_settings::StreamSettingsObjectView>,
    pub sniffing: Option<SniffingObjectView>,
    pub allocate: Option<AllocateObjectView>,
}

impl DeepView for InboundObject {
    type V = InboundObjectView;

    open spec fn deep_view(&self) -> InboundObjectView {
        InboundObjectView {
            listen: self.listen.deep_view(),
            port: self.port.deep_view(),
            protocol: self.protocol.deep_view(),
            settings: self.settings.deep_view(),
            tag: self.tag.deep_view(),
            stream_settings: self.stream_settings.deep_view(),
            sniffing: self.sniffing.deep_view(),
            allocate: self.allocate.deep_view(),
        }
    }
}

impl View for InboundObject {
    type V = InboundObjectView;

    open spec fn view(&self) -> InboundObjectView {
        self.deep_view()
    }
}

/// Protocol-specific options of a listener.
#[derive(Debug, Clone)]
pub struct InboundConfigurationObject {
    /// Idle time-out in seconds.
    pub timeout: Option<i32>,
    /// Authentication method.
    pub auth: Option<String>,
    /// Accepted accounts.
    pub accounts: Option<Vec<AccountObject>>,
    /// Whether UDP is relayed.
    pub udp: Option<bool>,
    /// Policy level of the connections.
    pub user_level: Option<i32>,
    /// Destination address of a forwarder.
    pub address: Option<String>,
    /// Destination port of a forwarder.
    pub port: Option<u16>,
    /// Transport protocols accepted.
    pub network: Option<String>,
}

/// What contracts see of [`InboundConfigurationObject`].
pub struct InboundConfigurationObjectView {
    pub timeout: Option<i32>,
    pub auth: Option<Seq<char>>,
    pub accounts: Option<Seq<AccountObjectView>>,
    pub udp: Option<bool>,
    pub user_level: Option<i32>,
    pub address: Option<Seq<char>>,
    pub port: Option<u16>,
    pub network: Option<Seq<char>>,
}

impl DeepView for InboundConfigurationObject {
    type V = InboundConfigurationObjectView;

    open spec fn deep_view(&self) -> InboundConfigurationObjectView {
        InboundConfigurationObjectView {
            timeout: self.timeout.deep_view(),
            auth: self.auth.deep_view(),
            accounts: self.accounts.deep_view(),
            udp: self.udp.deep_view(),
            user_level: self.user_level.deep_view(),
            address: self.address.deep_view(),
            port: self.port.deep_view(),
            network: self.network.deep_view(),
        }
    }
}

impl View for InboundConfigurationObject {
    type V = InboundConfigurationObjectView;

    open spec fn view(&self) -> InboundConfigurationObjectView {
        self.deep_view()
    }
}

impl InboundConfigurationObjectView {
    /// The value with nothing set: optional parts absent, texts empty, switches off.
    pub open spec fn blank() -> InboundConfigurationObjectView {
        InboundConfigurationObjectView {
            timeout: None,
            auth: None,
            accounts: None,
            udp: None,
            user_level: None,
            address: None,
            port: None,
            network: None,
        }
    }
}

impl Default for InboundConfigurationObject {
    fn default() -> (r: Self)
        ensures
            r@ == InboundConfigurationObjectView::blank(),
    {
        InboundConfigurationObject {
            timeout: None,
            auth: None,
            accounts: None,
            udp: None,
            user_level: None,
            address: None,
            port: None,
            network: None,
        }
    }
}

/// A user-name and password pair accepted by a listener.
#[derive(Debug, Clone)]
pub struct AccountObject {
    /// User name.
    pub user: String,
    /// Password.
    pub pass: String,
}

/// What contracts see of [`AccountObject`].
pub struct AccountObjectView {
    pub user: Seq<char>,
    pub pass: Seq<char>,
}

impl DeepView for AccountObject {
    type V = AccountObjectView;

    open spec fn deep_view(&self) -> AccountObjectView {
        AccountObjectView {
            user: self.user.deep_view(),
            pass: self.pass.deep_view(),
        }
    }
}

impl View for AccountObject {
    type V = AccountObjectView;

    open spec fn view(&self) -> AccountObjectView {
        self.deep_view()
    }
}

impl AccountObjectView {
    /// The value with nothing set: optional parts absent, texts empty, switches off.
    pub open spec fn blank() -> AccountObjectView {
        AccountObjectView {
            user: Seq::empty(),
            pass: Seq::empty(),
        }
    }
}

impl Default for AccountObject {
    fn default() -> (r: Self)
        ensures
            r@ == AccountObjectView::blank(),
    {
        AccountObject {
            user: String::new(),
            pass: String::new(),
        }
    }
}

/// Traffic sniffing options.
#[derive(Debug, Clone)]
pub struct SniffingObject {
    /// Whether sniffing is on.
    pub enabled: bool,
    /// Protocols whose sniffed destination replaces the requested one.
    pub dest_override: Option<Vec<String>>,
    /// Whether only connection metadata is looked at.
    pub metadata_only: bool,
}

/// What contracts see of [`SniffingObject`].
pub struct SniffingObjectView {
    pub enabled: bool,
    pub dest_override: Option<Seq<Seq<char>>>,
    pub metadata_only: bool,
}

impl DeepView for SniffingObject {
    type V = SniffingObjectView;

    open spec fn deep_view(&self) -> SniffingObjectView {
        SniffingObjectView {
            enabled: self.enabled,
            dest_override: self.dest_override.deep_view(),
            metadata_only: self.metadata_only,
        }
    }
}

impl View for SniffingObject {
    type V = SniffingObjectView;

    open spec fn view(&self) -> SniffingObjectView {
        self.deep_view()
    }
}

/// Port allocation options.
#[derive(Debug, Clone)]
pub struct AllocateObject {
    /// How ports are picked.
    pub strategy: Option<Strategy>,
    /// Minutes between re-allocations.
    pub refresh: i32,
    /// Number of ports open at once.
    pub concurrency: i32,
}

/// What contracts see of [`AllocateObject`].
pub struct AllocateObjectView {
    pub strategy: Option<Strategy>,
    pub refresh: i32,
    pub concurrency: i32,
}

impl DeepView for AllocateObject {
    type V = AllocateObjectView;

    open spec fn deep_view(&self) -> AllocateObjectView {
        AllocateObjectView {
            strategy: self.strategy.deep_view(),
            refresh: self.refresh,
            concurrency: self.concurrency,
        }
    }
}

impl View for AllocateObject {
    type V = AllocateObjectView;

    open spec fn view(&self) -> AllocateObjectView {
        self.deep_view()
    }
}

/// How listening ports are picked.
#[derive(Debug, Clone, Copy, PartialEq, Eq, Structural)]
pub enum Strategy {
    /// Listen on every configured port.
    Always,
    /// Listen on a changing random subset.
    Random,
}

impl DeepView for Strategy {
    type V = Strategy;

    open spec fn deep_view(&self) -> Strategy {
        *self
    }
}

impl View for Strategy {
    type V = Strategy;

    open spec fn view(&self) -> Strategy {
        *self
    }
}

} // verus!
