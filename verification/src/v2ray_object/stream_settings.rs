//! The transport options shared by listeners and upstream connections.

use vstd::prelude::*;

verus! {

/// Transport options of a listener or an outbound.
#[derive(Debug, Clone)]
pub struct StreamSettingsObject {
    /// Transport in use.
    pub network: Option<String>,
    /// Transport security in use.
    pub security: Option<String>,
    /// TLS options.
    pub tls_settings: Option<TLSObject>,
    /// Options of the TCP transport.
    pub tcp_settings: Option<TcpObject>,
    /// Options of the mKCP transport.
    pub kcp_settings: Option<KcpObject>,
    /// Options of the WebSocket transport.
    pub ws_settings: Option<WebSocketObject>,
    /// Options of the HTTP/2 transport.
    pub http_settings: Option<HttpObject>,
    /// Options of the QUIC transport.
    pub quic_settings: Option<QuicObject>,
    /// Options of the domain-socket transport.
    pub ds_settings: Option<DomainSocketObject>,
    /// Socket options.
    pub sock_opt: Option<SockOpt>,
}

/// What contracts see of [`StreamSettingsObject`].
pub struct StreamSettingsObjectView {
    pub network: Option<Seq<char>>,
    pub security: Option<Seq<char>>,
    pub tls_settings: Option<TLSObjectView>,
    pub tcp_settings: Option<TcpObjectView>,
    pub kcp_settings: Option<KcpObjectView>,
    pub ws_settings: Option<WebSocketObjectView>,
    pub http_settings: Option<HttpObjectView>,
    pub quic_settings: Option<QuicObjectView>,
    pub ds_settings: Option<DomainSocketObjectView>,
    pub sock_opt: Option<SockOptView>,
}

impl DeepView for StreamSettingsObject {
    type V = StreamSettingsObjectView;

    open spec fn deep_view(&self) -> StreamSettingsObjectView {
        StreamSettingsObjectView {
            network: self.network.deep_view(),
            security: self.security.deep_view(),
            tls_settings: self.tls_settings.deep_view(),
            tcp_settings: self.tcp_settings.deep_view(),
            kcp_settings: self.kcp_settings.deep_view(),
            ws_settings: self.ws_settings.deep_view(),
            http_settings: self.http_settings.deep_view(),
            quic_settings: self.quic_settings.deep_view(),
            ds_settings: self.ds_settings.deep_view(),
            sock_opt: self.sock_opt.deep_view(),
        }
    }
}

impl View for StreamSettingsObject {
    type V = StreamSettingsObjectView;

    open spec fn view(&self) -> StreamSettingsObjectView {
        self.deep_view()
    }
}

impl StreamSettingsObjectView {
    /// The value with nothing set: optional parts absent, texts empty, switches off.
    pub open spec fn blank() -> StreamSettingsObjectView {
        StreamSettingsObjectView {
            network: None,
            security: None,
            tls_settings: None,
            tcp_settings: None,
            kcp_settings: None,
            ws_settings: None,
            http_settings: None,
            quic_settings: None,
            ds_settings: None,
            sock_opt: None,
        }
    }
}

impl Default for StreamSettingsObject {
    fn default() -> (r: Self)
        ensures
            r@ == StreamSettingsObjectView::blank(),
    {
        StreamSettingsObject {
            network: None,
            security: None,
            tls_settings: None,
            tcp_settings: None,
            kcp_settings: None,
            ws_settings: None,
            http_settings: None,
            quic_settings: None,
            ds_settings: None,
            sock_opt: None,
        }
    }
}

/// TLS options.
#[derive(Debug, Clone)]
pub struct TLSObject {
    /// Name the certificate must carry.
    pub server_name: Option<String>,
    /// Whether an unverifiable certificate is accepted.
    pub allow_insecure: Option<bool>,
    /// Application protocols offered.
    pub alpn: Option<Vec<String>>,
    /// Certificates to present or trust.
    pub certificates: Option<Vec<CertificateObject>>,
    /// Whether the system's root certificates are ignored.
    pub disable_system_root: Option<bool>,
}

/// What contracts see of [`TLSObject`].
pub struct TLSObjectView {
    pub server_name: Option<Seq<char>>,
    pub allow_insecure: Option<bool>,
    pub alpn: Option<Seq<Seq<char>>>,
    pub certificates: Option<Seq<CertificateObjectView>>,
    pub disable_system_root: Option<bool>,
}

impl DeepView for TLSObject {
    type V = TLSObjectView;

    open spec fn deep_view(&self) -> TLSObjectView {
        TLSObjectView {
            server_name: self.server_name.deep_view(),
            allow_insecure: self.allow_insecure.deep_view(),
            alpn: self.alpn.deep_view(),
            certificates: self.certificates.deep_view(),
            disable_system_root: self.disable_system_root.deep_view(),
        }
    }
}

impl View for TLSObject {
    type V = TLSObjectView;

    open spec fn view(&self) -> TLSObjectView {
        self.deep_view()
    }
}

impl TLSObjectView {
    /// The value with nothing set: optional parts absent, texts empty, switches off.
    pub open spec fn blank() -> TLSObjectView {
        TLSObjectView {
            server_name: None,
            allow_insecure: None,
            alpn: None,
            certificates: None,
            disable_system_root: None,
        }
    }
}

impl Default for TLSObject {
    fn default() -> (r: Self)
        ensures
            r@ == TLSObjectView::blank(),
    {
        TLSObject {
            server_name: None,
            allow_insecure: None,
            alpn: None,
            certificates: None,
            disable_system_root: None,
        }
    }
}

/// A certificate with its key, inline or in files.
#[derive(Debug, Clone)]
pub struct CertificateObject {
    /// What the certificate is used for.
    pub usage: Option<String>,
    /// Path of the certificate.
    pub certificate_file: Option<String>,
    /// Path of the key.
    pub key_file: Option<String>,
    /// Lines of the certificate.
    pub certificate: Option<Vec<String>>,
    /// Lines of the key.
    pub key: Option<Vec<String>>,
}

/// What contracts see of [`CertificateObject`].
pub struct CertificateObjectView {
    pub usage: Option<Seq<char>>,
    pub certificate_file: Option<Seq<char>>,
    pub key_file: Option<Seq<char>>,
    pub certificate: Option<Seq<Seq<char>>>,
    pub key: Option<Seq<Seq<char>>>,
}

impl DeepView for CertificateObject {
    type V = CertificateObjectView;

    open spec fn deep_view(&self) -> CertificateObjectView {
        CertificateObjectView {
            usage: self.usage.deep_view(),
            certificate_file: self.certificate_file.deep_view(),
            key_file: self.key_file.deep_view(),
            certificate: self.certificate.deep_view(),
            key: self.key.deep_view(),
        }
    }
}

impl View for CertificateObject {
    type V = CertificateObjectView;

    open spec fn view(&self) -> CertificateObjectView {
        self.deep_view()
    }
}

/// Options of the TCP transport.
#[derive(Debug, Clone)]
pub struct TcpObject {
    /// Whether the PROXY protocol is accepted.
    pub accept_proxy_protocol: Option<bool>,
    /// Disguise of the stream.
    pub header: Option<PseudoHeaderObject>,
}

/// What contracts see of [`TcpObject`].
pub struct TcpObjectView {
    pub accept_proxy_protocol: Option<bool>,
    pub header: Option<PseudoHeaderObjectView>,
}

impl DeepView for TcpObject {
    type V = TcpObjectView;

    open spec fn deep_view(&self) -> TcpObjectView {
        TcpObjectView {
            accept_proxy_protocol: self.accept_proxy_protocol.deep_view(),
            header: self.header.deep_view(),
        }
    }
}

impl View for TcpObject {
    type V = TcpObjectView;

    open spec fn view(&self) -> TcpObjectView {
        self.deep_view()
    }
}

/// Disguise of a TCP stream.
#[derive(Debug, Clone)]
pub enum PseudoHeaderObject {
    /// No disguise.
    NoHeader,
    /// Dress the stream up as HTTP.
    Http {
        /// The request to imitate.
        request: Option<HttpRequestObject>,
        /// The response to imitate.
        response: Option<HttpResponseObject>,
    },
}

/// What contracts see of [`PseudoHeaderObject`].
pub enum PseudoHeaderObjectView {
    NoHeader,
    Http {
        request: Option<HttpRequestObjectView>,
        response: Option<HttpResponseObjectView>,
    },
}

impl DeepView for PseudoHeaderObject {
    type V = PseudoHeaderObjectView;

    open spec fn deep_view(&self) -> PseudoHeaderObjectView {
        match self {
            PseudoHeaderObject::NoHeader => PseudoHeaderObjectView::NoHeader,
            PseudoHeaderObject::Http { request, response } => PseudoHeaderObjectView::Http {
                request: request.deep_view(),
                response: response.deep_view(),
            },
        }
    }
}

impl View for PseudoHeaderObject {
    type V = PseudoHeaderObjectView;

    open spec fn view(&self) -> PseudoHeaderObjectView {
        self.deep_view()
    }
}

/// The HTTP request a disguised stream imitates.
#[derive(Debug, Clone)]
pub struct HttpRequestObject {
    /// HTTP version.
    pub version: Option<String>,
    /// Request method.
    pub method: Option<String>,
    /// Paths to pick from.
    pub path: Option<Vec<String>>,
    /// Header lines, one entry per header name.
    pub headers: Option<Vec<(String, HttpHeaderValueObject)>>,
}

/// What contracts see of [`HttpRequestObject`].
pub struct HttpRequestObjectView {
    pub version: Option<Seq<char>>,
    pub method: Option<Seq<char>>,
    pub path: Option<Seq<Seq<char>>>,
    pub headers: Option<Seq<(Seq<char>, HttpHeaderValueObjectView)>>,
}

impl DeepView for HttpRequestObject {
    type V = HttpRequestObjectView;

    open spec fn deep_view(&self) -> HttpRequestObjectView {
        HttpRequestObjectView {
            version: self.version.deep_view(),
            method: self.method.deep_view(),
            path: self.path.deep_view(),
            headers: self.headers.deep_view(),
        }
    }
}

impl View for HttpRequestObject {
    type V = HttpRequestObjectView;

    open spec fn view(&self) -> HttpRequestObjectView {
        self.deep_view()
    }
}

impl HttpRequestObjectView {
    /// Whether no name occurs twice in a table of this value.
    pub open spec fn wf(self) -> bool {
        self.headers matches Some(table) ==> super::names_distinct(table)
    }
}

impl HttpRequestObjectView {
    /// The value with nothing set: optional parts absent, texts empty, switches off.
    pub open spec fn blank() -> HttpRequestObjectView {
        HttpRequestObjectView {
            version: None,
            method: None,
            path: None,
            headers: None,
        }
    }
}

impl Default for HttpRequestObject {
    fn default() -> (r: Self)
        ensures
            r@ == HttpRequestObjectView::blank(),
    {
        HttpRequestObject {
            version: None,
            method: None,
            path: None,
            headers: None,
        }
    }
}

/// The value of an HTTP header: one text or several to pick from.
#[derive(Debug, Clone)]
pub enum HttpHeaderValueObject {
    /// A single value.
    String(String),
    /// Several values.
    Array(Vec<String>),
}

/// What contracts see of [`HttpHeaderValueObject`].
pub enum HttpHeaderValueObjectView {
    String(Seq<char>),
    Array(Seq<Seq<char>>),
}

impl DeepView for HttpHeaderValueObject {
    type V = HttpHeaderValueObjectView;

    open spec fn deep_view(&self) -> HttpHeaderValueObjectView {
        match self {
            HttpHeaderValueObject::String(x) => HttpHeaderValueObjectView::String(x.deep_view()),
            HttpHeaderValueObject::Array(x) => HttpHeaderValueObjectView::Array(x.deep_view()),
        }
    }
}

impl View for HttpHeaderValueObject {
    type V = HttpHeaderValueObjectView;

    open spec fn view(&self) -> HttpHeaderValueObjectView {
        self.deep_view()
    }
}

/// The HTTP response a disguised stream imitates.
#[derive(Debug, Clone)]
pub struct HttpResponseObject {
    /// HTTP version.
    pub version: Option<String>,
    /// Status code.
    pub status: Option<String>,
    /// Reason phrase.
    pub reason: Option<String>,
    /// Header lines, one entry per header name.
    pub headers: Option<Vec<(String, HttpHeaderValueObject)>>,
}

/// What contracts see of [`HttpResponseObject`].
pub struct HttpResponseObjectView {
    pub version: Option<Seq<char>>,
    pub status: Option<Seq<char>>,
    pub reason: Option<Seq<char>>,
    pub headers: Option<Seq<(Seq<char>, HttpHeaderValueObjectView)>>,
}

impl DeepView for HttpResponseObject {
    type V = HttpResponseObjectView;

    open spec fn deep_view(&self) -> HttpResponseObjectView {
        HttpResponseObjectView {
            version: self.version.deep_view(),
            status: self.status.deep_view(),
            reason: self.reason.deep_view(),
            headers: self.headers.deep_view(),
        }
    }
}

impl View for HttpResponseObject {
    type V = HttpResponseObjectView;

    open spec fn view(&self) -> HttpResponseObjectView {
        self.deep_view()
    }
}

impl HttpResponseObjectView {
    /// Whether no name occurs twice in a table of this value.
    pub open spec fn wf(self) -> bool {
        self.headers matches Some(table) ==> super::names_distinct(table)
    }
}

impl HttpResponseObjectView {
    /// The value with nothing set: optional parts absent, texts empty, switches off.
    pub open spec fn blank() -> HttpResponseObjectView {
        HttpResponseObjectView {
            version: None,
            status: None,
            reason: None,
            headers: None,
        }
    }
}

impl Default for HttpResponseObject {
    fn default() -> (r: Self)
        ensures
            r@ == HttpResponseObjectView::blank(),
    {
        HttpResponseObject {
            version: None,
            status: None,
            reason: None,
            headers: None,
        }
    }
}

/// Options of the mKCP transport.
#[derive(Debug, Clone)]
pub struct KcpObject {
    /// Largest packet in bytes.
    pub mtu: Option<i32>,
    /// Milliseconds between transmissions.
    pub tti: Option<i32>,
    /// Upload bandwidth in MB/s.
    pub uplink_capacity: Option<i32>,
    /// Download bandwidth in MB/s.
    pub downlink_capacity: Option<i32>,
    /// Whether congestion control is on.
    pub congestion: Option<bool>,
    /// Read buffer per connection in MB.
    pub read_buffer_size: Option<i32>,
    /// Write buffer per connection in MB.
    pub write_buffer_size: Option<i32>,
    /// Disguise of the packets.
    pub header: Option<HeaderObject>,
    /// Seed of the obfuscation.
    pub seed: Option<String>,
}

/// What contracts see of [`KcpObject`].
pub struct KcpObjectView {
    pub mtu: Option<i32>,
    pub tti: Option<i32>,
    pub uplink_capacity: Option<i32>,
    pub downlink_capacity: Option<i32>,
    pub congestion: Option<bool>,
    pub read_buffer_size: Option<i32>,
    pub write_buffer_size: Option<i32>,
    pub header: Option<HeaderObjectView>,
    pub seed: Option<Seq<char>>,
}

impl DeepView for KcpObject {
    type V = KcpObjectView;

    open spec fn deep_view(&self) -> KcpObjectView {
        KcpObjectView {
            mtu: self.mtu.deep_view(),
            tti: self.tti.deep_view(),
            uplink_capacity: self.uplink_capacity.deep_view(),
            downlink_capacity: self.downlink_capacity.deep_view(),
            congestion: self.congestion.deep_view(),
            read_buffer_size: self.read_buffer_size.deep_view(),
            write_buffer_size: self.write_buffer_size.deep_view(),
            header: self.header.deep_view(),
            seed: self.seed.deep_view(),
        }
    }
}

impl View for KcpObject {
    type V = KcpObjectView;

    open spec fn view(&self) -> KcpObjectView {
        self.deep_view()
    }
}

impl KcpObjectView {
    /// The value with nothing set: optional parts absent, texts empty, switches off.
    pub open spec fn blank() -> KcpObjectView {
        KcpObjectView {
            mtu: None,
            tti: None,
            uplink_capacity: None,
            downlink_capacity: None,
            congestion: None,
            read_buffer_size: None,
            write_buffer_size: None,
            header: None,
            seed: None,
        }
    }
}

impl Default for KcpObject {
    fn default() -> (r: Self)
        ensures
            r@ == KcpObjectView::blank(),
    {
        KcpObject {
            mtu: None,
            tti: None,
            uplink_capacity: None,
            downlink_capacity: None,
            congestion: None,
            read_buffer_size: None,
            write_buffer_size: None,
            header: None,
            seed: None,
        }
    }
}

/// Disguise of datagram packets.
#[derive(Debug, Clone)]
pub struct HeaderObject {
    /// Kind of the disguise.
    pub type_: Option<String>,
}

/// What contracts see of [`HeaderObject`].
pub struct HeaderObjectView {
    pub type_: Option<Seq<char>>,
}

impl DeepView for HeaderObject {
    type V = HeaderObjectView;

    open spec fn deep_view(&self) -> HeaderObjectView {
        HeaderObjectView {
            type_: self.type_.deep_view(),
        }
    }
}

impl View for HeaderObject {
    type V = HeaderObjectView;

    open spec fn view(&self) -> HeaderObjectView {
        self.deep_view()
    }
}

impl HeaderObjectView {
    /// The value with nothing set: optional parts absent, texts empty, switches off.
    pub open spec fn blank() -> HeaderObjectView {
        HeaderObjectView {
            type_: None,
        }
    }
}

impl Default for HeaderObject {
    fn default() -> (r: Self)
        ensures
            r@ == HeaderObjectView::blank(),
    {
        HeaderObject {
            type_: None,
        }
    }
}

/// Options of the WebSocket transport.
#[derive(Debug, Clone)]
pub struct WebSocketObject {
    /// Whether the PROXY protocol is accepted.
    pub accept_proxy_protocol: Option<bool>,
    /// Path of the WebSocket endpoint.
    pub path: Option<String>,
    /// Extra request headers, one entry per header name.
    pub headers: Option<Vec<(String, String)>>,
}

/// What contracts see of [`WebSocketObject`].
pub struct WebSocketObjectView {
    pub accept_proxy_protocol: Option<bool>,
    pub path: Option<Seq<char>>,
    pub headers: Option<Seq<(Seq<char>, Seq<char>)>>,
}

impl DeepView for WebSocketObject {
    type V = WebSocketObjectView;

    open spec fn deep_view(&self) -> WebSocketObjectView {
        WebSocketObjectView {
            accept_proxy_protocol: self.accept_proxy_protocol.deep_view(),
            path: self.path.deep_view(),
            headers: self.headers.deep_view(),
        }
    }
}

impl View for WebSocketObject {
    type V = WebSocketObjectView;

    open spec fn view(&self) -> WebSocketObjectView {
        self.deep_view()
    }
}

impl WebSocketObjectView {
    /// Whether no name occurs twice in a table of this value.
    pub open spec fn wf(self) -> bool {
        self.headers matches Some(table) ==> super::names_distinct(table)
    }
}

impl WebSocketObjectView {
    /// The value with nothing set: optional parts absent, texts empty, switches off.
    pub open spec fn blank() -> WebSocketObjectView {
        WebSocketObjectView {
            accept_proxy_protocol: None,
            path: None,
            headers: None,
        }
    }
}

impl Default for WebSocketObject {
    fn default() -> (r: Self)
        ensures
            r@ == WebSocketObjectView::blank(),
    {
        WebSocketObject {
            accept_proxy_protocol: None,
            path: None,
            headers: None,
        }
    }
}

/// Options of the HTTP/2 transport.
#[derive(Debug, Clone)]
pub struct HttpObject {
    /// Host names to pick from.
    pub host: Option<Vec<String>>,
    /// Request path.
    pub path: Option<String>,
}

/// What contracts see of [`HttpObject`].
pub struct HttpObjectView {
    pub host: Option<Seq<Seq<char>>>,
    pub path: Option<Seq<char>>,
}

impl DeepView for HttpObject {
    type V = HttpObjectView;

    open spec fn deep_view(&self) -> HttpObjectView {
        HttpObjectView {
            host: self.host.deep_view(),
            path: self.path.deep_view(),
        }
    }
}

impl View for HttpObject {
    type V = HttpObjectView;

    open spec fn view(&self) -> HttpObjectView {
        self.deep_view()
    }
}

impl HttpObjectView {
    /// The value with nothing set: optional parts absent, texts empty, switches off.
    pub open spec fn blank() -> HttpObjectView {
        HttpObjectView {
            host: None,
            path: None,
        }
    }
}

impl Default for HttpObject {
    fn default() -> (r: Self)
        ensures
            r@ == HttpObjectView::blank(),
    {
        HttpObject {
            host: None,
            path: None,
        }
    }
}

/// Options of the QUIC transport.
#[derive(Debug, Clone)]
pub struct QuicObject {
    /// Cipher of the extra encryption.
    pub security: Option<String>,
    /// Key of the extra encryption.
    pub key: Option<String>,
    /// Disguise of the packets.
    pub header: Option<HeaderObject>,
}

/// What contracts see of [`QuicObject`].
pub struct QuicObjectView {
    pub security: Option<Seq<char>>,
    pub key: Option<Seq<char>>,
    pub header: Option<HeaderObjectView>,
}

impl DeepView for QuicObject {
    type V = QuicObjectView;

    open spec fn deep_view(&self) -> QuicObjectView {
        QuicObjectView {
            security: self.security.deep_view(),
            key: self.key.deep_view(),
            header: self.header.deep_view(),
        }
    }
}

impl View for QuicObject {
    type V = QuicObjectView;

    open spec fn view(&self) -> QuicObjectView {
        self.deep_view()
    }
}

impl QuicObjectView {
    /// The value with nothing set: optional parts absent, texts empty, switches off.
    pub open spec fn blank() -> QuicObjectView {
        QuicObjectView {
            security: None,
            key: None,
            header: None,
        }
    }
}

impl Default for QuicObject {
    fn default() -> (r: Self)
        ensures
            r@ == QuicObjectView::blank(),
    {
        QuicObject {
            security: None,
            key: None,
            header: None,
        }
    }
}

/// Options of the domain-socket transport.
#[derive(Debug, Clone)]
pub struct DomainSocketObject {
    /// Path of the socket.
    pub path: Option<String>,
    /// Whether the socket is abstract.
    pub abstract_: Option<bool>,
    /// Whether an abstract socket's name is padded.
    pub padding: Option<bool>,
}

/// What contracts see of [`DomainSocketObject`].
pub struct DomainSocketObjectView {
    pub path: Option<Seq<char>>,
    pub abstract_: Option<bool>,
    pub padding: Option<bool>,
}

impl DeepView for DomainSocketObject {
    type V = DomainSocketObjectView;

    open spec fn deep_view(&self) -> DomainSocketObjectView {
        DomainSocketObjectView {
            path: self.path.deep_view(),
            abstract_: self.abstract_.deep_view(),
            padding: self.padding.deep_view(),
        }
    }
}

impl View for DomainSocketObject {
    type V = DomainSocketObjectView;

    open spec fn view(&self) -> DomainSocketObjectView {
        self.deep_view()
    }
}

impl DomainSocketObjectView {
    /// The value with nothing set: optional parts absent, texts empty, switches off.
    pub open spec fn blank() -> DomainSocketObjectView {
        DomainSocketObjectView {
            path: None,
            abstract_: None,
            padding: None,
        }
    }
}

impl Default for DomainSocketObject {
    fn default() -> (r: Self)
        ensures
            r@ == DomainSocketObjectView::blank(),
    {
        DomainSocketObject {
            path: None,
            abstract_: None,
            padding: None,
        }
    }
}

/// Socket options.
#[derive(Debug, Clone)]
pub struct SockOpt {
    /// Mark set on outgoing packets.
    pub mark: Option<i32>,
    /// Whether TCP Fast Open is used.
    pub tcp_fast_open: Option<bool>,
    /// Whether transparent proxying is on.
    pub tproxy: Option<bool>,
}

/// What contracts see of [`SockOpt`].
pub struct SockOptView {
    pub mark: Option<i32>,
    pub tcp_fast_open: Option<bool>,
    pub tproxy: Option<bool>,
}

impl DeepView for SockOpt {
    type V = SockOptView;

    open spec fn deep_view(&self) -> SockOptView {
        SockOptView {
            mark: self.mark.deep_view(),
            tcp_fast_open: self.tcp_fast_open.deep_view(),
            tproxy: self.tproxy.deep_view(),
        }
    }
}

impl View for SockOpt {
    type V = SockOptView;

    open spec fn view(&self) -> SockOptView {
        self.deep_view()
    }
}

impl SockOptView {
    /// The value with nothing set: optional parts absent, texts empty, switches off.
    pub open spec fn blank() -> SockOptView {
        SockOptView {
            mark: None,
            tcp_fast_open: None,
            tproxy: None,
        }
    }
}

impl Default for SockOpt {
    fn default() -> (r: Self)
        ensures
            r@ == SockOptView::blank(),
    {
        SockOpt {
            mark: None,
            tcp_fast_open: None,
            tproxy: None,
        }
    }
}

} // verus!
