//! Reading a subscription feed.
//!
//! A feed is base64 text. Decoded, it is UTF-8 text with one share per line;
//! a share is `vmess://` followed by the base64 form of a JSON document that
//! describes one server. Lines that are not shares are passed over.
//!
//! This module goes from the feed's bytes to the JSON documents, and from a
//! parsed document to a [`VLink`]. Fetching the feed and parsing the JSON are
//! the caller's part.

use vstd::prelude::*;
use vstd::slice::slice_subrange;
use vstd::string::StringExecFns;
use vstd::utf8::valid_utf8;
use crate::vlink::{VLink, VLinkView, UNREACHABLE};

verus! {

/// One server as a share describes it.
#[derive(Debug)]
pub struct VmessShare {
    /// Host name sent in the transport's request.
    pub host: String,
    /// Path sent in the transport's request.
    pub path: String,
    /// Transport security in use.
    pub tls: String,
    /// Whether the server's certificate is to be verified.
    pub verify_cert: bool,
    /// Host name or IP address of the server.
    pub add: String,
    /// Port the server listens on.
    pub port: u16,
    /// Number of alternative identifiers.
    pub aid: i32,
    /// Transport in use.
    pub net: String,
    /// Disguise of the transport's packets.
    pub type_: String,
    /// Version of the share format.
    pub v: String,
    /// Human-readable label.
    pub ps: String,
    /// The account's identifier.
    pub id: String,
    /// Service class of the account.
    pub class: i32,
}

/// What contracts see of [`VmessShare`].
pub struct VmessShareView {
    pub host: Seq<char>,
    pub path: Seq<char>,
    pub tls: Seq<char>,
    pub verify_cert: bool,
    pub add: Seq<char>,
    pub port: u16,
    pub aid: i32,
    pub net: Seq<char>,
    pub type_: Seq<char>,
    pub v: Seq<char>,
    pub ps: Seq<char>,
    pub id: Seq<char>,
    pub class: i32,
}

impl DeepView for VmessShare {
    type V = VmessShareView;

    open spec fn deep_view(&self) -> VmessShareView {
        VmessShareView {
            host: self.host@,
            path: self.path@,
            tls: self.tls@,
            verify_cert: self.verify_cert,
            add: self.add@,
            port: self.port,
            aid: self.aid,
            net: self.net@,
            type_: self.type_@,
            v: self.v@,
            ps: self.ps@,
            id: self.id@,
            class: self.class,
        }
    }
}

impl View for VmessShare {
    type V = VmessShareView;

    open spec fn view(&self) -> VmessShareView {
        self.deep_view()
    }
}

impl VmessShareView {
    /// The server that the share describes: a `vmess` server with automatic
    /// cipher choice and no latency measured yet.
    pub open spec fn vlink(self) -> VLinkView {
        VLinkView {
            protocol: "vmess"@,
            address: self.add,
            port: self.port,
            id: self.id,
            alter_id: self.aid,
            security: "auto"@,
            network: self.net,
            remarks: self.ps,
            header_type: self.type_,
            request_host: self.host,
            path: self.path,
            stream_security: self.tls,
            latency: UNREACHABLE,
        }
    }
}

impl VmessShare {
    /// The server that the share describes.
    pub fn into_vlink(self) -> (r: VLink)
        ensures
            r@ == self@.vlink(),
    {
        VLink {
            protocol: String::from_str("vmess"),
            address: self.add,
            port: self.port,
            id: self.id,
            alter_id: self.aid,
            security: String::from_str("auto"),
            network: self.net,
            remarks: self.ps,
            header_type: self.type_,
            request_host: self.host,
            path: self.path,
            stream_security: self.tls,
            latency: UNREACHABLE,
        }
    }
}

/// Why a feed could not be read.
#[derive(Debug, Clone, Copy, PartialEq, Eq, Structural)]
pub enum SubscriptionError {
    /// The feed as a whole is not base64.
    BadEncoding,
    /// The decoded feed is not UTF-8 text.
    NotText,
    /// What follows `vmess://` on some line is not base64.
    BadShare,
}

/// The line feed.
pub const LF: u8 = 10;

/// The carriage return.
pub const CR: u8 = 13;

/// The number of bytes in the prefix that marks a share.
pub const PREFIX_LEN: usize = 8;

/// The prefix that marks a share: `vmess://`.
pub open spec fn share_prefix() -> Seq<u8> {
    seq![118u8, 109u8, 101u8, 115u8, 115u8, 58u8, 47u8, 47u8]
}

/// Whether `line` is a share.
pub open spec fn is_share(line: Seq<u8>) -> bool {
    share_prefix().is_prefix_of(line)
}

/// Position of the first line feed in `text`, or the length of `text` if it has none.
pub open spec fn first_line_feed(text: Seq<u8>) -> nat
    decreases text.len(),
{
    if text.len() == 0 || text[0] == LF {
        0
    } else {
        1 + first_line_feed(text.drop_first())
    }
}

/// `line` without a carriage return at its end.
pub open spec fn without_return(line: Seq<u8>) -> Seq<u8> {
    if line.len() > 0 && line.last() == CR {
        line.drop_last()
    } else {
        line
    }
}

/// The lines of `text`. A line ends at a line feed; the line feed, and a
/// carriage return directly before it, are not part of the line. Text after
/// the last line feed is a line of its own, kept as it is, unless it is empty.
pub open spec fn lines(text: Seq<u8>) -> Seq<Seq<u8>>
    decreases text.len(),
{
    if text.len() == 0 {
        Seq::empty()
    } else {
        let end = first_line_feed(text) as int;
        if end >= text.len() {
            seq![text]
        } else {
            seq![without_return(text.take(end))] + lines(text.skip(end + 1))
        }
    }
}

/// What base64 text in the standard alphabet with padding stands for: the
/// bytes that `base64::decode` returns for `input`, or `None` where it
/// reports an error.
pub uninterp spec fn base64_decoded(input: Seq<u8>) -> Option<Seq<u8>>;

/// The documents of the shares among `lines`, in order; `None` if what
/// follows the prefix of some share is not base64.
pub open spec fn shares(lines: Seq<Seq<u8>>) -> Option<Seq<Seq<u8>>>
    decreases lines.len(),
{
    if lines.len() == 0 {
        Some(Seq::empty())
    } else {
        match shares(lines.drop_last()) {
            None => None,
            Some(front) => if !is_share(lines.last()) {
                Some(front)
            } else {
                match base64_decoded(lines.last().skip(PREFIX_LEN as int)) {
                    None => None,
                    Some(document) => Some(front.push(document)),
                }
            },
        }
    }
}

/// The documents of the shares in decoded feed text.
pub open spec fn shares_of_text(text: Seq<u8>) -> Result<Seq<Seq<u8>>, SubscriptionError> {
    if !valid_utf8(text) {
        Err(SubscriptionError::NotText)
    } else {
        match shares(lines(text)) {
            None => Err(SubscriptionError::BadShare),
            Some(documents) => Ok(documents),
        }
    }
}

/// The documents of the shares in a feed.
pub open spec fn subscription(body: Seq<u8>) -> Result<Seq<Seq<u8>>, SubscriptionError> {
    match base64_decoded(body) {
        None => Err(SubscriptionError::BadEncoding),
        Some(text) => shares_of_text(text),
    }
}

/// The error type of the base64 decoder.
#[verifier::external_type_specification]
#[verifier::external_body]
pub struct ExDecodeError(base64::DecodeError);

/// Trusted: `base64::decode` is a function of its input alone; its result is
/// what [`base64_decoded`] names.
#[verifier::external_body]
fn decode_base64(input: &[u8]) -> (r: Result<Vec<u8>, base64::DecodeError>)
    ensures
        match r {
            Ok(bytes) => base64_decoded(input@) == Some(bytes@),
            Err(_) => base64_decoded(input@) is None,
        },
{
    base64::decode(input)
}

/// Trusted: `core::str::from_utf8` accepts exactly the byte strings that are
/// well-formed UTF-8.
#[verifier::external_body]
fn is_utf8(bytes: &[u8]) -> (r: bool)
    ensures
        r == valid_utf8(bytes@),
{
    core::str::from_utf8(bytes).is_ok()
}

/// A list of bytes is its own deep view.
pub proof fn lemma_bytes_view(bytes: Vec<u8>)
    ensures
        bytes.deep_view() == bytes@,
{
    assert(bytes.deep_view() =~= bytes@);
}

/// Where no line feed occurs before `end`, and `end` is a line feed or the
/// end of the text, `end` is the first line feed.
pub proof fn lemma_first_line_feed(text: Seq<u8>, end: int)
    requires
        0 <= end <= text.len(),
        forall|j: int| 0 <= j < end ==> text[j] != LF,
        end == text.len() || text[end] == LF,
    ensures
        first_line_feed(text) == end,
    decreases text.len(),
{
    if text.len() > 0 && text[0] != LF {
        let rest = text.drop_first();
        assert forall|j: int| 0 <= j < end - 1 implies rest[j] != LF by {
            assert(rest[j] == text[j + 1]);
        }
        lemma_first_line_feed(rest, end - 1);
    }
}

/// Whether `line` is a share.
pub fn is_share_line(line: &[u8]) -> (r: bool)
    ensures
        r == is_share(line@),
{
    let r = line.len() >= PREFIX_LEN && line[0] == 118 && line[1] == 109 && line[2] == 101
        && line[3] == 115 && line[4] == 115 && line[5] == 58 && line[6] == 47 && line[7] == 47;
    proof {
        let p = share_prefix();
        if r {
            assert(line@.subrange(0, p.len() as int) =~= p);
        } else if p.is_prefix_of(line@) {
            assert(line@.subrange(0, p.len() as int) == p);
            assert(forall|i: int| 0 <= i < 8 ==> line@.subrange(0, 8)[i] == line@[i]);
            assert(p[0] == 118 && p[1] == 109 && p[2] == 101 && p[3] == 115 && p[4] == 115 && p[5]
                == 58 && p[6] == 47 && p[7] == 47);
        }
    }
    r
}

/// What follows the prefix on `line`, if `line` is a share.
pub fn share_text(line: &[u8]) -> (r: Option<&[u8]>)
    ensures
        match r {
            Some(rest) => is_share(line@) && rest@ == line@.skip(PREFIX_LEN as int),
            None => !is_share(line@),
        },
{
    if is_share_line(line) {
        let rest = slice_subrange(line, PREFIX_LEN, line.len());
        assert(rest@ =~= line@.skip(PREFIX_LEN as int));
        Some(rest)
    } else {
        None
    }
}

/// A copy of the bytes of `text` from `from` up to `to`.
fn copy_range(text: &[u8], from: usize, to: usize) -> (r: Vec<u8>)
    requires
        from <= to <= text.len(),
    ensures
        r@ == text@.subrange(from as int, to as int),
{
    let mut r: Vec<u8> = Vec::new();
    let mut i = from;
    while i < to
        invariant
            from <= i <= to <= text.len(),
            r@ == text@.subrange(from as int, i as int),
        decreases to - i,
    {
        r.push(text[i]);
        assert(r@ =~= text@.subrange(from as int, i + 1));
        i = i + 1;
    }
    r
}

/// Splits `text` into its lines.
pub fn split_lines(text: &[u8]) -> (r: Vec<Vec<u8>>)
    ensures
        r.deep_view() == lines(text@),
{
    let mut out: Vec<Vec<u8>> = Vec::new();
    let mut start: usize = 0;
    assert(out.deep_view() =~= Seq::<Seq<u8>>::empty());
    assert(text@.skip(0) =~= text@);
    while start < text.len()
        invariant
            start <= text.len(),
            lines(text@) == out.deep_view() + lines(text@.skip(start as int)),
        decreases text.len() - start,
    {
        let ghost rest = text@.skip(start as int);
        let ghost before = out.deep_view();
        let mut end = start;
        while end < text.len() && text[end] != LF
            invariant
                start <= end <= text.len(),
                forall|j: int| start <= j < end ==> text@[j] != LF,
            decreases text.len() - end,
        {
            end = end + 1;
        }
        proof {
            assert forall|j: int| 0 <= j < end - start implies rest[j] != LF by {
                assert(rest[j] == text@[start + j]);
            }
            lemma_first_line_feed(rest, end - start);
        }
        if end >= text.len() {
            let line = copy_range(text, start, end);
            assert(line@ =~= rest);
            proof {
                lemma_bytes_view(line);
            }
            out.push(line);
            assert(out.deep_view() =~= before.push(rest));
            assert(lines(rest) =~= seq![rest]);
            assert(text@.skip(text.len() as int) =~= Seq::<u8>::empty());
            assert(before + seq![rest] + Seq::<Seq<u8>>::empty() =~= before.push(rest));
            start = text.len();
        } else {
            let stop = if end > start && text[end - 1] == CR {
                end - 1
            } else {
                end
            };
            let line = copy_range(text, start, stop);
            proof {
                assert(rest.take(end - start) =~= text@.subrange(start as int, end as int));
                assert(line@ =~= without_return(rest.take(end - start)));
                assert(rest.skip(end - start + 1) =~= text@.skip(end + 1));
                lemma_bytes_view(line);
            }
            out.push(line);
            assert(out.deep_view() =~= before.push(line@));
            assert(before + (seq![line@] + lines(text@.skip(end + 1))) =~= before.push(line@)
                + lines(text@.skip(end + 1)));
            start = end + 1;
        }
    }
    assert(text@.skip(start as int) =~= Seq::<u8>::empty());
    assert(out.deep_view() + Seq::<Seq<u8>>::empty() =~= out.deep_view());
    out
}

/// The documents of the shares in decoded feed text.
///
/// Fails with `NotText` exactly when the text is not UTF-8, and with
/// `BadShare` exactly when it is and the rest of some share is not base64.
pub fn shares_in_text(text: &[u8]) -> (r: Result<Vec<Vec<u8>>, SubscriptionError>)
    ensures
        match r {
            Ok(documents) => shares_of_text(text@) == Ok::<Seq<Seq<u8>>, SubscriptionError>(
                documents.deep_view(),
            ),
            Err(e) => shares_of_text(text@) == Err::<Seq<Seq<u8>>, SubscriptionError>(e),
        },
{
    if !is_utf8(text) {
        return Err(SubscriptionError::NotText);
    }
    let all = split_lines(text);
    let mut out: Vec<Vec<u8>> = Vec::new();
    let mut i: usize = 0;
    assert(out.deep_view() =~= Seq::<Seq<u8>>::empty());
    assert(all.deep_view().take(0) =~= Seq::<Seq<u8>>::empty());
    while i < all.len()
        invariant
            i <= all.len(),
            valid_utf8(text@),
            all.deep_view() == lines(text@),
            shares(all.deep_view().take(i as int)) == Some(out.deep_view()),
        decreases all.len() - i,
    {
        let ghost before = out.deep_view();
        proof {
            let upto = all.deep_view().take(i + 1);
            assert(upto.drop_last() =~= all.deep_view().take(i as int));
            lemma_bytes_view(all[i as int]);
            assert(upto.last() == all[i as int]@);
        }
        if let Some(rest) = share_text(all[i].as_slice()) {
            match decode_base64(rest) {
                Ok(document) => {
                    proof {
                        lemma_bytes_view(document);
                    }
                    out.push(document);
                    assert(out.deep_view() =~= before.push(document@));
                },
                Err(_) => {
                    proof {
                        let upto = all.deep_view().take(i + 1);
                        assert(upto.drop_last() =~= all.deep_view().take(i as int));
                        assert(is_share(upto.last()));
                        assert(shares(upto) is None);
                        lemma_bad_share_spoils(all.deep_view(), i + 1);
                    }
                    return Err(SubscriptionError::BadShare);
                },
            }
        }
        i = i + 1;
    }
    assert(all.deep_view().take(i as int) =~= all.deep_view());
    Ok(out)
}

/// Once the shares among the first lines cannot be read, those among all of
/// them cannot either.
pub proof fn lemma_bad_share_spoils(lines: Seq<Seq<u8>>, n: int)
    requires
        0 <= n <= lines.len(),
        shares(lines.take(n)) is None,
    ensures
        shares(lines) is None,
    decreases lines.len(),
{
    if n < lines.len() {
        assert(lines.drop_last().take(n) =~= lines.take(n));
        lemma_bad_share_spoils(lines.drop_last(), n);
    } else {
        assert(lines.take(n) =~= lines);
    }
}

/// The documents of the shares in a feed, each still as JSON bytes, in the
/// order of their lines.
///
/// Fails with `BadEncoding` exactly when the feed is not base64, and
/// otherwise as [`shares_in_text`] does on the decoded text.
pub fn decode_subscription(body: &[u8]) -> (r: Result<Vec<Vec<u8>>, SubscriptionError>)
    ensures
        match r {
            Ok(documents) => subscription(body@) == Ok::<Seq<Seq<u8>>, SubscriptionError>(
                documents.deep_view(),
            ),
            Err(e) => subscription(body@) == Err::<Seq<Seq<u8>>, SubscriptionError>(e),
        },
{
    match decode_base64(body) {
        Err(_) => Err(SubscriptionError::BadEncoding),
        Ok(text) => shares_in_text(text.as_slice()),
    }
}

} // verus!
