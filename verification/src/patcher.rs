//! Rewriting a configuration with the servers chosen for a target.
//!
//! The outbounds that an earlier run wrote for the target, recognisable by
//! their tag, are taken out, and new ones for the target's best servers are
//! put in front of what is left. With a limit of one, the best server gets
//! the target's tag. With any other limit, the servers up to and including
//! the position `limit` get the tag followed by `_` and their position, and
//! the last of them ends up first.

use vstd::prelude::*;
use vstd::string::StringExecFns;
use crate::settings::{VlinkProxy, VlinkProxyView};
use crate::text::{decimal, decimal_string, starts_with};
use crate::v2ray_object::outbound::{OutboundObject, OutboundObjectView};
use crate::v2ray_object::{V2rayObject, V2rayObjectView};
use crate::v2ray_template::GlobalSettings;
use crate::vlink::VLinkView;

verus! {

/// The tag used for a target that names none.
pub open spec fn default_tag() -> Seq<char> {
    "proxy"@
}

/// The tag of the `i`-th of several outbounds written for one target.
pub open spec fn numbered_tag(tag: Seq<char>, i: nat) -> Seq<char> {
    tag + "_"@ + decimal(i)
}

/// The outbounds among `outbounds` whose tag does not begin with `tag`, in order.
pub open spec fn kept(outbounds: Seq<OutboundObjectView>, tag: Seq<char>) -> Seq<OutboundObjectView>
    decreases outbounds.len(),
{
    if outbounds.len() == 0 {
        Seq::empty()
    } else {
        let front = kept(outbounds.drop_last(), tag);
        if tag.is_prefix_of(outbounds.last().tag) {
            front
        } else {
            front.push(outbounds.last())
        }
    }
}

/// The outbounds for the first `n` of `servers`, numbered, the last one first.
pub open spec fn numbered(servers: Seq<VLinkView>, tag: Seq<char>, n: nat) -> Seq<OutboundObjectView>
    decreases n,
{
    if n == 0 {
        Seq::empty()
    } else {
        seq![
            servers[n - 1].outbound(numbered_tag(tag, (n - 1) as nat), GlobalSettings::standard()),
        ] + numbered(servers, tag, (n - 1) as nat)
    }
}

impl VlinkProxyView {
    /// The tag of the outbounds written for this target.
    pub open spec fn outbound_tag(self) -> Seq<char> {
        match self.tag {
            Some(tag) => tag,
            None => default_tag(),
        }
    }

    /// The number of servers that are written for this target.
    pub open spec fn written(self) -> nat {
        let limit = match self.limit {
            Some(limit) => limit,
            None => 1,
        };
        if self.vlinks.len() == 0 {
            0
        } else if limit == 1 {
            1
        } else if limit < self.vlinks.len() {
            (limit + 1) as nat
        } else {
            self.vlinks.len()
        }
    }

    /// Whether a configuration can be written for every server that is
    /// written for this target.
    pub open spec fn writable(self) -> bool {
        forall|i: int| 0 <= i < self.written() ==> (#[trigger] self.vlinks[i]).supported()
    }

    /// The outbounds written for this target.
    pub open spec fn outbounds(self) -> Seq<OutboundObjectView> {
        if self.vlinks.len() == 0 {
            Seq::empty()
        } else if self.limit.unwrap_or(1) == 1 {
            seq![self.vlinks[0].outbound(self.outbound_tag(), GlobalSettings::standard())]
        } else {
            numbered(self.vlinks, self.outbound_tag(), self.written())
        }
    }

    /// `config` rewritten for this target. A target without servers leaves
    /// the configuration as it is.
    pub open spec fn patched(self, config: V2rayObjectView) -> V2rayObjectView {
        if self.vlinks.len() == 0 {
            config
        } else {
            let old = match config.outbounds {
                Some(outbounds) => outbounds,
                None => Seq::empty(),
            };
            V2rayObjectView {
                outbounds: Some(self.outbounds() + kept(old, self.outbound_tag())),
                ..config
            }
        }
    }
}

/// Takes out the outbounds whose tag begins with `tag`.
pub fn drop_tagged(outbounds: &mut Vec<OutboundObject>, tag: &str)
    ensures
        final(outbounds).deep_view() == kept(old(outbounds).deep_view(), tag@),
{
    let ghost all = outbounds.deep_view();
    let mut i: usize = 0;
    let ghost mut done: int = 0;
    assert(all.take(0) =~= Seq::<OutboundObjectView>::empty());
    assert(outbounds.deep_view().skip(0) =~= all.skip(0));
    while i < outbounds.len()
        invariant
            i <= outbounds.len(),
            0 <= done <= all.len(),
            outbounds.len() - i == all.len() - done,
            outbounds.deep_view().take(i as int) == kept(all.take(done), tag@),
            outbounds.deep_view().skip(i as int) == all.skip(done),
        decreases outbounds.len() - i,
    {
        let ghost before = outbounds.deep_view();
        proof {
            assert(all.take(done + 1).drop_last() =~= all.take(done));
            assert(before.skip(i as int)[0] == all.skip(done)[0]);
            assert(before[i as int] == all[done]);
        }
        if starts_with(outbounds[i].tag.as_str(), tag) {
            let _gone = outbounds.remove(i);
            proof {
                assert(outbounds.deep_view() =~= before.remove(i as int));
                assert(outbounds.deep_view().take(i as int) =~= before.take(i as int));
                assert(outbounds.deep_view().skip(i as int) =~= before.skip(i as int).skip(1));
                assert(all.skip(done).skip(1) =~= all.skip(done + 1));
            }
        } else {
            proof {
                assert(before.take(i + 1) =~= before.take(i as int).push(before[i as int]));
                assert(before.skip(i + 1) =~= before.skip(i as int).skip(1));
                assert(all.skip(done).skip(1) =~= all.skip(done + 1));
            }
            i = i + 1;
        }
        proof {
            done = done + 1;
        }
    }
    proof {
        assert(outbounds.deep_view().take(i as int) =~= outbounds.deep_view());
        assert(all.take(done) =~= all);
    }
}

/// The tag of the `i`-th of several outbounds written for one target.
pub fn numbered_tag_for(tag: &str, i: usize) -> (r: String)
    ensures
        r@ == numbered_tag(tag@, i as nat),
{
    let mut r = String::from_str(tag);
    r.append("_");
    let digits = decimal_string(i as u64);
    r.append(digits.as_str());
    r
}

/// Whether a configuration can be written for every server that is written
/// for this target.
pub fn is_writable(proxy: &VlinkProxy) -> (r: bool)
    ensures
        r == proxy@.writable(),
{
    let n = written_count(proxy);
    let mut i: usize = 0;
    while i < n
        invariant
            i <= n,
            n == proxy@.written(),
            n <= proxy.vlinks.len(),
            forall|k: int| 0 <= k < i ==> (#[trigger] proxy@.vlinks[k]).supported(),
        decreases n - i,
    {
        assert(proxy@.vlinks[i as int] == proxy.vlinks[i as int]@);
        if !proxy.vlinks[i].is_supported() {
            return false;
        }
        i = i + 1;
    }
    true
}

/// The number of servers that are written for this target.
pub fn written_count(proxy: &VlinkProxy) -> (n: usize)
    ensures
        n == proxy@.written(),
        n <= proxy.vlinks.len(),
{
    let limit = match proxy.limit {
        Some(limit) => limit,
        None => 1,
    };
    let len = proxy.vlinks.len();
    assert(proxy@.vlinks.len() == len);
    if len == 0 {
        0
    } else if limit == 1 {
        1
    } else if limit < len {
        limit + 1
    } else {
        len
    }
}

/// Rewrites `config` for the target `proxy`: the outbounds that carry the
/// target's tag go, and those for the target's first servers come in front.
pub fn patch_outbounds(config: &mut V2rayObject, proxy: &VlinkProxy)
    requires
        proxy@.writable(),
    ensures
        final(config)@ == proxy@.patched(old(config)@),
{
    if proxy.vlinks.len() == 0 {
        assert(proxy@.vlinks.len() == 0);
        return ;
    }
    assert(proxy@.vlinks.len() == proxy.vlinks.len());
    let tag = match &proxy.tag {
        Some(tag) => tag.clone(),
        None => String::from_str("proxy"),
    };
    let mut outbounds = match config.outbounds.take() {
        Some(outbounds) => outbounds,
        None => Vec::new(),
    };
    let ghost old_outbounds = match old(config)@.outbounds {
        Some(outbounds) => outbounds,
        None => Seq::empty(),
    };
    assert(outbounds.deep_view() =~= old_outbounds);
    drop_tagged(&mut outbounds, tag.as_str());
    let ghost rest = outbounds.deep_view();
    let limit = match proxy.limit {
        Some(limit) => limit,
        None => 1,
    };
    let n = written_count(proxy);
    if limit == 1 {
        assert(proxy@.vlinks[0] == proxy.vlinks[0]@);
        let outbound = proxy.vlinks[0].gen_outbound(tag.as_str(), None);
        outbounds.insert(0, outbound);
        assert(outbounds.deep_view() =~= seq![outbound@] + rest);
    } else {
        let mut i: usize = 0;
        assert(numbered(proxy@.vlinks, tag@, 0) + rest =~= rest);
        while i < n
            invariant
                i <= n,
                n == proxy@.written(),
                n <= proxy.vlinks.len(),
                proxy@.writable(),
                outbounds.deep_view() == numbered(proxy@.vlinks, tag@, i as nat) + rest,
            decreases n - i,
        {
            let ghost before = outbounds.deep_view();
            assert(proxy@.vlinks[i as int] == proxy.vlinks[i as int]@);
            let numbered_tag = numbered_tag_for(tag.as_str(), i);
            let outbound = proxy.vlinks[i].gen_outbound(numbered_tag.as_str(), None);
            outbounds.insert(0, outbound);
            assert(outbounds.deep_view() =~= seq![outbound@] + before);
            assert(seq![outbound@] + (numbered(proxy@.vlinks, tag@, i as nat) + rest) =~= (
            seq![outbound@] + numbered(proxy@.vlinks, tag@, i as nat)) + rest);
            i = i + 1;
        }
    }
    config.outbounds = Some(outbounds);
}

} // verus!
