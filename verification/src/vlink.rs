//! The description of one proxy server that can be latency-tested.

use vstd::prelude::*;
use vstd::string::StringExecFns;

verus! {

/// The latency recorded for a server that has not been measured or did not answer.
pub const UNREACHABLE: i32 = -1;

/// One proxy server: where it is, how to log in, how to reach it, and the
/// latency last measured through it.
#[derive(Debug)]
pub struct VLink {
    /// Protocol spoken to the server.
    pub protocol: String,
    /// Host name or IP address.
    pub address: String,
    /// Port the server listens on.
    pub port: u16,
    /// The account's identifier.
    pub id: String,
    /// Number of alternative identifiers.
    pub alter_id: i32,
    /// Cipher used for the payload.
    pub security: String,
    /// Transport in use.
    pub network: String,
    /// Human-readable label.
    pub remarks: String,
    /// Disguise of the transport's packets.
    pub header_type: String,
    /// Host name sent in the transport's request.
    pub request_host: String,
    /// Path sent in the transport's request.
    pub path: String,
    /// Transport security in use.
    pub stream_security: String,
    /// Measured round-trip time in milliseconds, or [`UNREACHABLE`].
    pub latency: i32,
}

/// What contracts see of [`VLink`].
pub struct VLinkView {
    pub protocol: Seq<char>,
    pub address: Seq<char>,
    pub port: u16,
    pub id: Seq<char>,
    pub alter_id: i32,
    pub security: Seq<char>,
    pub network: Seq<char>,
    pub remarks: Seq<char>,
    pub header_type: Seq<char>,
    pub request_host: Seq<char>,
    pub path: Seq<char>,
    pub stream_security: Seq<char>,
    pub latency: i32,
}

impl DeepView for VLink {
    type V = VLinkView;

    open spec fn deep_view(&self) -> VLinkView {
        VLinkView {
            protocol: self.protocol@,
            address: self.address@,
            port: self.port,
            id: self.id@,
            alter_id: self.alter_id,
            security: self.security@,
            network: self.network@,
            remarks: self.remarks@,
            header_type: self.header_type@,
            request_host: self.request_host@,
            path: self.path@,
            stream_security: self.stream_security@,
            latency: self.latency,
        }
    }
}

impl View for VLink {
    type V = VLinkView;

    open spec fn view(&self) -> VLinkView {
        self.deep_view()
    }
}

impl VLinkView {
    /// The placeholder server that stands in until a real one is filled in.
    pub open spec fn placeholder() -> VLinkView {
        VLinkView {
            protocol: "vmess"@,
            address: "v2ray.cool"@,
            port: 10086,
            id: "bf0067d4-831e-4911-b644-9b4582f69671"@,
            alter_id: 64,
            security: Seq::empty(),
            network: "tcp"@,
            remarks: "def"@,
            header_type: Seq::empty(),
            request_host: Seq::empty(),
            path: Seq::empty(),
            stream_security: Seq::empty(),
            latency: UNREACHABLE,
        }
    }

    /// The same server with another latency recorded.
    pub open spec fn with_latency(self, latency: i32) -> VLinkView {
        VLinkView { latency, ..self }
    }
}

impl Default for VLink {
    fn default() -> (r: Self)
        ensures
            r@ == VLinkView::placeholder(),
    {
        VLink {
            protocol: String::from_str("vmess"),
            address: String::from_str("v2ray.cool"),
            port: 10086,
            id: String::from_str("bf0067d4-831e-4911-b644-9b4582f69671"),
            alter_id: 64,
            security: String::new(),
            network: String::from_str("tcp"),
            remarks: String::from_str("def"),
            header_type: String::new(),
            request_host: String::new(),
            path: String::new(),
            stream_security: String::new(),
            latency: UNREACHABLE,
        }
    }
}

impl Clone for VLink {
    fn clone(&self) -> (r: Self)
        ensures
            r == *self,
    {
        VLink {
            protocol: self.protocol.clone(),
            address: self.address.clone(),
            port: self.port,
            id: self.id.clone(),
            alter_id: self.alter_id,
            security: self.security.clone(),
            network: self.network.clone(),
            remarks: self.remarks.clone(),
            header_type: self.header_type.clone(),
            request_host: self.request_host.clone(),
            path: self.path.clone(),
            stream_security: self.stream_security.clone(),
            latency: self.latency,
        }
    }
}

impl VLink {
    /// The label under which the server is shown.
    pub fn label(&self) -> (r: String)
        ensures
            r@ == self.remarks@,
    {
        self.remarks.clone()
    }
}

} // verus!
