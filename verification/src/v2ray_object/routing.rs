//! The routing part of the configuration document.

use vstd::prelude::*;

verus! {

/// How host names are resolved while routing.
#[derive(Debug, Clone, Copy, PartialEq, Eq, Structural)]
pub enum DomainStrategy {
    /// Match on the host name only.
    AsIs,
    /// Resolve the name when no rule matched it.
    IPIfNonMatch,
    /// Resolve the name as soon as a rule needs an address.
    IPOnDemand,
}

impl DeepView for DomainStrategy {
    type V = DomainStrategy;

    open spec fn deep_view(&self) -> DomainStrategy {
        *self
    }
}

impl View for DomainStrategy {
    type V = DomainStrategy;

    open spec fn view(&self) -> DomainStrategy {
        *self
    }
}

/// The algorithm that matches host names.
#[derive(Debug, Clone, Copy, PartialEq, Eq, Structural)]
pub enum DomainMatcher {
    /// Try the patterns one after another.
    Linear,
    /// Use the combined index.
    Hybrid,
}

impl DeepView for DomainMatcher {
    type V = DomainMatcher;

    open spec fn deep_view(&self) -> DomainMatcher {
        *self
    }
}

impl View for DomainMatcher {
    type V = DomainMatcher;

    open spec fn view(&self) -> DomainMatcher {
        *self
    }
}

/// The rules that pick an outbound for each connection.
#[derive(Debug, Clone)]
pub struct RoutingObject {
    /// How host names are resolved while routing.
    pub domain_strategy: Option<DomainStrategy>,
    /// The algorithm that matches host names.
    pub domain_matcher: Option<DomainMatcher>,
    /// Groups of outbounds to balance over.
    pub balancers: Option<Vec<BalancerObject>>,
    /// The rules, tried in order.
    pub rules: Option<Vec<RuleObject>>,
}

/// What contracts see of [`RoutingObject`].
pub struct RoutingObjectView {
    pub domain_strategy: Option<DomainStrategy>,
    pub domain_matcher: Option<DomainMatcher>,
    pub balancers: Option<Seq<BalancerObjectView>>,
    pub rules: Option<Seq<RuleObjectView>>,
}

impl DeepView for RoutingObject {
    type V = RoutingObjectView;

    open spec fn deep_view(&self) -> RoutingObjectView {
        RoutingObjectView {
            domain_strategy: self.domain_strategy.deep_view(),
            domain_matcher: self.domain_matcher.deep_view(),
            balancers: self.balancers.deep_view(),
            rules: self.rules.deep_view(),
        }
    }
}

impl View for RoutingObject {
    type V = RoutingObjectView;

    open spec fn view(&self) -> RoutingObjectView {
        self.deep_view()
    }
}

/// One routing rule: conditions and the outbound they lead to.
#[derive(Debug, Clone)]
pub struct RuleObject {
    /// The algorithm that matches host names for this rule.
    pub domain_matcher: Option<DomainMatcher>,
    /// Kind of the rule.
    pub type_: String,
    /// Host-name patterns.
    pub domain: Option<Vec<String>>,
    /// Destination address ranges.
    pub ip: Option<Vec<String>>,
    /// Destination ports.
    pub port: Option<super::Port>,
    /// Source ports.
    pub source_port: Option<String>,
    /// Transport protocols.
    pub network: Option<String>,
    /// Source address ranges.
    pub source: Option<Vec<String>>,
    /// Account names.
    pub user: Option<Vec<String>>,
    /// Tags of the inbounds the rule applies to.
    pub inbound_tag: Option<Vec<String>>,
    /// Tag of the outbound to use.
    pub outbound_tag: Option<String>,
    /// Tag of the balancer to use.
    pub balancer_tag: Option<String>,
    /// Script over the request's attributes.
    pub attrs: Option<String>,
    /// Sniffed application protocols.
    pub protocol: Option<Vec<String>>,
}

/// What contracts see of [`RuleObject`].
pub struct RuleObjectView {
    pub domain_matcher: Option<DomainMatcher>,
    pub type_: Seq<char>,
    pub domain: Option<Seq<Seq<char>>>,
    pub ip: Option<Seq<Seq<char>>>,
    pub port: Option<super::PortView>,
    pub source_port: Option<Seq<char>>,
    pub network: Option<Seq<char>>,
    pub source: Option<Seq<Seq<char>>>,
    pub user: Option<Seq<Seq<char>>>,
    pub inbound_tag: Option<Seq<Seq<char>>>,
    pub outbound_tag: Option<Seq<char>>,
    pub balancer_tag: Option<Seq<char>>,
    pub attrs: Option<Seq<char>>,
    pub protocol: Option<Seq<Seq<char>>>,
}

impl DeepView for RuleObject {
    type V = RuleObjectView;

    open spec fn deep_view(&self) -> RuleObjectView {
        RuleObjectView {
            domain_matcher: self.domain_matcher.deep_view(),
            type_: self.type_.deep_view(),
            domain: self.domain.deep_view(),
            ip: self.ip.deep_view(),
            port: self.port.deep_view(),
            source_port: self.source_port.deep_view(),
            network: self.network.deep_view(),
            source: self.source.deep_view(),
            user: self.user.deep_view(),
            inbound_tag: self.inbound_tag.deep_view(),
            outbound_tag: self.outbound_tag.deep_view(),
            balancer_tag: self.balancer_tag.deep_view(),
            attrs: self.attrs.deep_view(),
            protocol: self.protocol.deep_view(),
        }
    }
}

impl View for RuleObject {
    type V = RuleObjectView;

    open spec fn view(&self) -> RuleObjectView {
        self.deep_view()
    }
}

/// A group of outbounds to balance over.
#[derive(Debug, Clone)]
pub struct BalancerObject {
    /// Tag of the balancer.
    pub tag: String,
    /// Prefixes of the outbound tags that belong to the group.
    pub selector: Vec<String>,
}

/// What contracts see of [`BalancerObject`].
pub struct BalancerObjectView {
    pub tag: Seq<char>,
    pub selector: Seq<Seq<char>>,
}

impl DeepView for BalancerObject {
    type V = BalancerObjectView;

    open spec fn deep_view(&self) -> BalancerObjectView {
        BalancerObjectView {
            tag: self.tag.deep_view(),
            selector: self.selector.deep_view(),
        }
    }
}

impl View for BalancerObject {
    type V = BalancerObjectView;

    open spec fn view(&self) -> BalancerObjectView {
        self.deep_view()
    }
}

} // verus!
