//! The configuration document of the proxy program, as plain data.
//!
//! Every type has a view: the same shape with text as `Seq<char>` and lists as
//! `Seq`, which is what contracts speak of. A table that the file format keys
//! by name is kept as a list of pairs in which no name occurs twice.

use vstd::prelude::*;

pub mod dns;
pub mod inbound;
pub mod outbound;
pub mod routing;
pub mod stream_settings;

verus! {

/// A complete configuration document for the proxy program.
#[derive(Debug, Clone)]
pub struct V2rayObject {
    /// Logging options.
    pub log: Option<LogObject>,
    /// The built-in name resolver.
    pub dns: Option<dns::DnsObject>,
    /// The listeners that accept local traffic.
    pub inbounds: Option<Vec<inbound::InboundObject>>,
    /// The upstream connections; the first one is the default route.
    pub outbounds: Option<Vec<outbound::OutboundObject>>,
    /// The rules that pick an outbound for each connection.
    pub routing: Option<routing::RoutingObject>,
}

/// What contracts see of [`V2rayObject`].
pub struct V2rayObjectView {
    pub log: Option<LogObjectView>,
    pub dns: Option<dns::DnsObjectView>,
    pub inbounds: Option<Seq<inbound::InboundObjectView>>,
    pub outbounds: Option<Seq<outbound::OutboundObjectView>>,
    pub routing: Option<routing::RoutingObjectView>,
}

impl DeepView for V2rayObject {
    type V = V2rayObjectView;

    open spec fn deep_view(&self) -> V2rayObjectView {
        V2rayObjectView {
            log: self.log.deep_view(),
            dns: self.dns.deep_view(),
            inbounds: self.inbounds.deep_view(),
            outbounds: self.outbounds.deep_view(),
            routing: self.routing.deep_view(),
        }
    }
}

impl View for V2rayObject {
    type V = V2rayObjectView;

    open spec fn view(&self) -> V2rayObjectView {
        self.deep_view()
    }
}

impl V2rayObjectView {
    /// The value with nothing set: optional parts absent, texts empty, switches off.
    pub open spec fn blank() -> V2rayObjectView {
        V2rayObjectView {
            log: None,
            dns: None,
            inbounds: None,
            outbounds: None,
            routing: None,
        }
    }
}

impl Default for V2rayObject {
    fn default() -> (r: Self)
        ensures
            r@ == V2rayObjectView::blank(),
    {
        V2rayObject {
            log: None,
            dns: None,
            inbounds: None,
            outbounds: None,
            routing: None,
        }
    }
}

/// One upstream server of a `vnext` list, with the accounts to use on it.
#[derive(Debug, Clone)]
pub struct ServerObject {
    /// Host name or IP address.
    pub address: String,
    /// Port the server listens on.
    pub port: Port,
    /// Accounts accepted by the server.
    pub users: Vec<UserObject>,
}

/// What contracts see of [`ServerObject`].
pub struct ServerObjectView {
    pub address: Seq<char>,
    pub port: PortView,
    pub users: Seq<UserObjectView>,
}

impl DeepView for ServerObject {
    type V = ServerObjectView;

    open spec fn deep_view(&self) -> ServerObjectView {
        ServerObjectView {
            address: self.address.deep_view(),
            port: self.port.deep_view(),
            users: self.users.deep_view(),
        }
    }
}

impl View for ServerObject {
    type V = ServerObjectView;

    open spec fn view(&self) -> ServerObjectView {
        self.deep_view()
    }
}

/// One account on an upstream server.
#[derive(Debug, Clone)]
pub struct UserObject {
    /// The account's identifier.
    pub id: String,
    /// Number of alternative identifiers.
    pub alter_id: i32,
    /// Cipher used for the payload.
    pub security: Option<String>,
    /// Policy level of the account.
    pub level: Option<i32>,
}

/// What contracts see of [`UserObject`].
pub struct UserObjectView {
    pub id: Seq<char>,
    pub alter_id: i32,
    pub security: Option<Seq<char>>,
    pub level: Option<i32>,
}

impl DeepView for UserObject {
    type V = UserObjectView;

    open spec fn deep_view(&self) -> UserObjectView {
        UserObjectView {
            id: self.id.deep_view(),
            alter_id: self.alter_id,
            security: self.security.deep_view(),
            level: self.level.deep_view(),
        }
    }
}

impl View for UserObject {
    type V = UserObjectView;

    open spec fn view(&self) -> UserObjectView {
        self.deep_view()
    }
}

/// One upstream server reached with user name and password.
#[derive(Debug, Clone)]
pub struct SocksServerObject {
    /// Host name or IP address.
    pub address: String,
    /// Port the server listens on.
    pub port: u16,
    /// Accounts accepted by the server.
    pub users: Option<Vec<SocksUserObject>>,
}

/// What contracts see of [`SocksServerObject`].
pub struct SocksServerObjectView {
    pub address: Seq<char>,
    pub port: u16,
    pub users: Option<Seq<SocksUserObjectView>>,
}

impl DeepView for SocksServerObject {
    type V = SocksServerObjectView;

    open spec fn deep_view(&self) -> SocksServerObjectView {
        SocksServerObjectView {
            address: self.address.deep_view(),
            port: self.port,
            users: self.users.deep_view(),
        }
    }
}

impl View for SocksServerObject {
    type V = SocksServerObjectView;

    open spec fn view(&self) -> SocksServerObjectView {
        self.deep_view()
    }
}

/// One user-name and password account.
#[derive(Debug, Clone)]
pub struct SocksUserObject {
    /// User name.
    pub user: String,
    /// Password.
    pub pass: String,
    /// Policy level of the account.
    pub level: Option<i32>,
}

/// What contracts see of [`SocksUserObject`].
pub struct SocksUserObjectView {
    pub user: Seq<char>,
    pub pass: Seq<char>,
    pub level: Option<i32>,
}

impl DeepView for SocksUserObject {
    type V = SocksUserObjectView;

    open spec fn deep_view(&self) -> SocksUserObjectView {
        SocksUserObjectView {
            user: self.user.deep_view(),
            pass: self.pass.deep_view(),
            level: self.level.deep_view(),
        }
    }
}

impl View for SocksUserObject {
    type V = SocksUserObjectView;

    open spec fn view(&self) -> SocksUserObjectView {
        self.deep_view()
    }
}

/// What a blackhole outbound answers.
#[derive(Debug, Clone)]
pub struct Response {
    /// Kind of the canned answer.
    pub type_: String,
}

/// What contracts see of [`Response`].
pub struct ResponseView {
    pub type_: Seq<char>,
}

impl DeepView for Response {
    type V = ResponseView;

    open spec fn deep_view(&self) -> ResponseView {
        ResponseView {
            type_: self.type_.deep_view(),
        }
    }
}

impl View for Response {
    type V = ResponseView;

    open spec fn view(&self) -> ResponseView {
        self.deep_view()
    }
}

/// Logging options.
#[derive(Debug, Clone)]
pub struct LogObject {
    /// File that receives the access log.
    pub access: Option<String>,
    /// File that receives the error log.
    pub error: Option<String>,
    /// Least severity that is logged.
    pub loglevel: Option<String>,
}

/// What contracts see of [`LogObject`].
pub struct LogObjectView {
    pub access: Option<Seq<char>>,
    pub error: Option<Seq<char>>,
    pub loglevel: Option<Seq<char>>,
}

impl DeepView for LogObject {
    type V = LogObjectView;

    open spec fn deep_view(&self) -> LogObjectView {
        LogObjectView {
            access: self.access.deep_view(),
            error: self.error.deep_view(),
            loglevel: self.loglevel.deep_view(),
        }
    }
}

impl View for LogObject {
    type V = LogObjectView;

    open spec fn view(&self) -> LogObjectView {
        self.deep_view()
    }
}

/// A port, written either as a number or as text (a range or an environment reference).
#[derive(Debug, Clone)]
pub enum Port {
    /// A single port number.
    Int(u16),
    /// A port expression in text form.
    String(String),
}

/// What contracts see of [`Port`].
pub enum PortView {
    Int(u16),
    String(Seq<char>),
}

impl DeepView for Port {
    type V = PortView;

    open spec fn deep_view(&self) -> PortView {
        match self {
            Port::Int(x) => PortView::Int(*x),
            Port::String(x) => PortView::String(x.deep_view()),
        }
    }
}

impl View for Port {
    type V = PortView;

    open spec fn view(&self) -> PortView {
        self.deep_view()
    }
}

/// Whether no name occurs twice in a table.
pub open spec fn names_distinct<T>(table: Seq<(Seq<char>, T)>) -> bool {
    forall|i: int, j: int| 0 <= i < j < table.len() ==> table[i].0 != table[j].0
}

} // verus!
