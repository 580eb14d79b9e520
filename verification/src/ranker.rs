//! Choosing the servers for a target and ranking them.
//!
//! A server qualifies for a target if the target's selector, a regular
//! expression, matches the server's label. The servers of a target are ranked
//! by latency in ascending order, and servers with the same latency keep the
//! order in which they came.

use vstd::prelude::*;
use crate::pattern::{is_match, regex_is_match};
use crate::settings::VlinkProxy;
use crate::vlink::VLink;

verus! {

/// Whether a target with this selector takes a server with this label. A
/// selector that is not a valid expression takes none.
pub open spec fn selects(selector: Seq<char>, label: Seq<char>) -> bool {
    regex_is_match(selector, label) == Some(true)
}

/// The servers among `servers` that a target with this selector takes, in order.
pub open spec fn selected(selector: Seq<char>, servers: Seq<VLink>) -> Seq<VLink>
    decreases servers.len(),
{
    if servers.len() == 0 {
        Seq::empty()
    } else {
        let front = selected(selector, servers.drop_last());
        if selects(selector, servers.last().remarks@) {
            front.push(servers.last())
        } else {
            front
        }
    }
}

/// Whether the latencies never go down along `servers`.
pub open spec fn ascending(servers: Seq<VLink>) -> bool {
    forall|i: int, j: int| 0 <= i < j < servers.len() ==> servers[i].latency <= servers[j].latency
}

/// The servers among `servers` with the given latency, in order.
pub open spec fn with_latency(servers: Seq<VLink>, latency: i32) -> Seq<VLink>
    decreases servers.len(),
{
    if servers.len() == 0 {
        Seq::empty()
    } else {
        let front = with_latency(servers.drop_last(), latency);
        if servers.last().latency == latency {
            front.push(servers.last())
        } else {
            front
        }
    }
}

/// Whether `after` is `before` in ranked order: the same servers, ascending
/// by latency, those with equal latency in the order they had in `before`.
pub open spec fn ranked(before: Seq<VLink>, after: Seq<VLink>) -> bool {
    &&& after.len() == before.len()
    &&& ascending(after)
    &&& forall|latency: i32| with_latency(after, latency) == with_latency(before, latency)
}

/// Adds `server` to the target's servers if the selector's answer for its
/// label, `matched`, is yes. Nothing else changes.
pub fn push_if_matched(proxy: &mut VlinkProxy, server: &VLink, matched: Option<bool>)
    ensures
        final(proxy).vlinks@ == if matched == Some(true) {
            old(proxy).vlinks@.push(*server)
        } else {
            old(proxy).vlinks@
        },
        final(proxy).selector == old(proxy).selector,
        final(proxy).tag == old(proxy).tag,
        final(proxy).target_file == old(proxy).target_file,
        final(proxy).limit == old(proxy).limit,
{
    match matched {
        Some(true) => {
            proxy.vlinks.push(server.clone());
        },
        _ => {},
    }
}

/// Adds to the target's servers those of `servers` that its selector takes,
/// in order. Nothing else changes.
pub fn select_matching(proxy: &mut VlinkProxy, servers: &Vec<VLink>)
    ensures
        final(proxy).vlinks@ == old(proxy).vlinks@ + selected(old(proxy).selector@, servers@),
        final(proxy).selector == old(proxy).selector,
        final(proxy).tag == old(proxy).tag,
        final(proxy).target_file == old(proxy).target_file,
        final(proxy).limit == old(proxy).limit,
{
    let mut i: usize = 0;
    assert(servers@.take(0) =~= Seq::<VLink>::empty());
    assert(proxy.vlinks@ + Seq::<VLink>::empty() =~= proxy.vlinks@);
    while i < servers.len()
        invariant
            i <= servers.len(),
            proxy.vlinks@ == old(proxy).vlinks@ + selected(
                old(proxy).selector@,
                servers@.take(i as int),
            ),
            proxy.selector == old(proxy).selector,
            proxy.tag == old(proxy).tag,
            proxy.target_file == old(proxy).target_file,
            proxy.limit == old(proxy).limit,
        decreases servers.len() - i,
    {
        let ghost front = selected(old(proxy).selector@, servers@.take(i as int));
        assert(servers@.take(i + 1).drop_last() =~= servers@.take(i as int));
        let matched = is_match(proxy.selector.as_str(), servers[i].remarks.as_str());
        push_if_matched(proxy, &servers[i], matched);
        assert((old(proxy).vlinks@ + front).push(servers@[i as int]) =~= old(proxy).vlinks@
            + front.push(servers@[i as int]));
        i = i + 1;
    }
    assert(servers@.take(i as int) =~= servers@);
}

/// The servers with one latency in a list made of two parts are those of the
/// first part followed by those of the second.
pub proof fn lemma_with_latency_add(a: Seq<VLink>, b: Seq<VLink>, latency: i32)
    ensures
        with_latency(a + b, latency) == with_latency(a, latency) + with_latency(b, latency),
    decreases b.len(),
{
    if b.len() == 0 {
        assert(a + b =~= a);
        assert(with_latency(a, latency) + with_latency(b, latency) =~= with_latency(a, latency));
    } else {
        assert((a + b).drop_last() =~= a + b.drop_last());
        lemma_with_latency_add(a, b.drop_last(), latency);
        assert(with_latency(a, latency) + with_latency(b.drop_last(), latency).push(b.last())
            =~= (with_latency(a, latency) + with_latency(b.drop_last(), latency)).push(b.last()));
    }
}

/// A list in which no server has the given latency has none to show for it.
pub proof fn lemma_with_latency_none(s: Seq<VLink>, latency: i32)
    requires
        forall|k: int| 0 <= k < s.len() ==> s[k].latency != latency,
    ensures
        with_latency(s, latency) == Seq::<VLink>::empty(),
    decreases s.len(),
{
    if s.len() > 0 {
        assert forall|k: int| 0 <= k < s.drop_last().len() implies s.drop_last()[k].latency
            != latency by {
            assert(s.drop_last()[k] == s[k]);
        }
        lemma_with_latency_none(s.drop_last(), latency);
    }
}

/// Moving a server towards the front, past servers with other latencies
/// only, changes the order within no latency.
pub proof fn lemma_move_keeps_order(s: Seq<VLink>, p: int, i: int, latency: i32)
    requires
        0 <= p <= i < s.len(),
        forall|k: int| p <= k < i ==> s[k].latency != s[i].latency,
    ensures
        with_latency(s.remove(i).insert(p, s[i]), latency) == with_latency(s, latency),
{
    let a = s.subrange(0, p);
    let b = s.subrange(p, i);
    let x = seq![s[i]];
    let c = s.subrange(i + 1, s.len() as int);
    assert(s =~= a + b + x + c);
    assert(s.remove(i).insert(p, s[i]) =~= a + x + b + c);
    lemma_with_latency_add(a + b + x, c, latency);
    lemma_with_latency_add(a + b, x, latency);
    lemma_with_latency_add(a, b, latency);
    lemma_with_latency_add(a + x + b, c, latency);
    lemma_with_latency_add(a + x, b, latency);
    lemma_with_latency_add(a, x, latency);
    if s[i].latency == latency {
        lemma_with_latency_none(b, latency);
        assert(with_latency(a, latency) + with_latency(x, latency) + Seq::<VLink>::empty()
            =~= with_latency(a, latency) + Seq::<VLink>::empty() + with_latency(x, latency));
    } else {
        lemma_with_latency_none(x, latency);
        assert(with_latency(a, latency) + Seq::<VLink>::empty() + with_latency(b, latency)
            =~= with_latency(a, latency) + with_latency(b, latency) + Seq::<VLink>::empty());
    }
}

/// Ranks the servers: ascending by latency, servers with equal latency in
/// the order they had.
pub fn rank(vlinks: &mut Vec<VLink>)
    ensures
        ranked(old(vlinks)@, final(vlinks)@),
{
    let mut i: usize = 0;
    while i < vlinks.len()
        invariant
            i <= vlinks.len(),
            vlinks.len() == old(vlinks).len(),
            ascending(vlinks@.take(i as int)),
            forall|latency: i32|
                with_latency(vlinks@, latency) == with_latency(old(vlinks)@, latency),
        decreases vlinks.len() - i,
    {
        let ghost before = vlinks@;
        let x = vlinks.remove(i);
        let mut p: usize = i;
        while p > 0 && vlinks[p - 1].latency > x.latency
            invariant
                p <= i < before.len(),
                vlinks@ == before.remove(i as int),
                x == before[i as int],
                forall|k: int| p <= k < i ==> before[k].latency > x.latency,
            decreases p,
        {
            p = p - 1;
        }
        vlinks.insert(p, x);
        proof {
            assert forall|latency: i32|
                with_latency(vlinks@, latency) == with_latency(old(vlinks)@, latency) by {
                lemma_move_keeps_order(before, p as int, i as int, latency);
            }
            let sorted = before.take(i as int);
            let now = vlinks@.take(i + 1);
            assert forall|a: int, b: int| 0 <= a < b < now.len() implies now[a].latency
                <= now[b].latency by {
                if b < p {
                    assert(now[a] == sorted[a] && now[b] == sorted[b]);
                } else if b == p {
                    assert(now[a] == sorted[a]);
                    if p > 0 {
                        assert(sorted[p - 1].latency <= x.latency);
                        assert(a == p - 1 || sorted[a].latency <= sorted[p - 1].latency);
                    }
                } else if a < p {
                    assert(now[a] == sorted[a] && now[b] == sorted[b - 1]);
                } else if a == p {
                    assert(now[b] == sorted[b - 1]);
                } else {
                    assert(now[a] == sorted[a - 1] && now[b] == sorted[b - 1]);
                }
            }
        }
        i = i + 1;
    }
    assert(vlinks@.take(i as int) =~= vlinks@);
}

/// The server that a target settles on: the first of its servers, which
/// after ranking is one with the least latency.
pub fn best(proxy: &VlinkProxy) -> (r: Option<&VLink>)
    ensures
        r == if proxy.vlinks.len() == 0 {
            None
        } else {
            Some(&proxy.vlinks[0])
        },
        ascending(proxy.vlinks@) ==> forall|k: int|
            0 <= k < proxy.vlinks.len() ==> r->0.latency <= proxy.vlinks[k].latency,
{
    if proxy.vlinks.len() == 0 {
        None
    } else {
        Some(&proxy.vlinks[0])
    }
}

/// A list that has servers with a given latency to show holds such a server.
pub proof fn lemma_with_latency_some(s: Seq<VLink>, latency: i32)
    requires
        with_latency(s, latency).len() > 0,
    ensures
        exists|i: int| 0 <= i < s.len() && s[i].latency == latency,
    decreases s.len(),
{
    if s.len() > 0 {
        if s.last().latency == latency {
            assert(s[s.len() - 1].latency == latency);
        } else {
            lemma_with_latency_some(s.drop_last(), latency);
            let i = choose|i: int| 0 <= i < s.drop_last().len() && s.drop_last()[i].latency == latency;
            assert(s[i].latency == latency);
        }
    }
}

/// Two ascending lists with the same servers in the same order for every
/// latency are the same list.
pub proof fn lemma_ascending_lists_agree(a: Seq<VLink>, b: Seq<VLink>)
    requires
        a.len() == b.len(),
        ascending(a),
        ascending(b),
        forall|latency: i32| with_latency(a, latency) == with_latency(b, latency),
    ensures
        a == b,
    decreases a.len(),
{
    if a.len() == 0 {
        assert(a =~= b);
    } else {
        let m = a.last().latency;
        let n = b.last().latency;
        assert(with_latency(a, m).last() == a.last());
        assert(with_latency(b, n).last() == b.last());
        assert(with_latency(a, n) == with_latency(b, n));
        assert(with_latency(a, m) == with_latency(b, m));
        lemma_with_latency_some(a, n);
        lemma_with_latency_some(b, m);
        let i = choose|i: int| 0 <= i < a.len() && a[i].latency == n;
        let j = choose|j: int| 0 <= j < b.len() && b[j].latency == m;
        assert(a[i].latency <= a[a.len() - 1].latency || i == a.len() - 1);
        assert(b[j].latency <= b[b.len() - 1].latency || j == b.len() - 1);
        assert(m == n);
        assert(a.last() == b.last());
        let front_a = a.drop_last();
        let front_b = b.drop_last();
        assert forall|latency: i32| with_latency(front_a, latency) == with_latency(
            front_b,
            latency,
        ) by {
            assert(with_latency(a, latency) == with_latency(b, latency));
            if latency == m {
                assert(with_latency(front_a, latency) =~= with_latency(a, latency).drop_last());
                assert(with_latency(front_b, latency) =~= with_latency(b, latency).drop_last());
            }
        }
        assert(ascending(front_a)) by {
            assert forall|i: int, j: int| 0 <= i < j < front_a.len() implies front_a[i].latency
                <= front_a[j].latency by {
                assert(front_a[i] == a[i] && front_a[j] == a[j]);
            }
        }
        assert(ascending(front_b)) by {
            assert forall|i: int, j: int| 0 <= i < j < front_b.len() implies front_b[i].latency
                <= front_b[j].latency by {
                assert(front_b[i] == b[i] && front_b[j] == b[j]);
            }
        }
        lemma_ascending_lists_agree(front_a, front_b);
        assert(a =~= front_a.push(a.last()));
        assert(b =~= front_b.push(b.last()));
    }
}

/// A list has one ranked order only: the order is settled by the latencies
/// and, among equal latencies, by the order the servers came in.
pub proof fn law_ranking_is_unique(before: Seq<VLink>, a: Seq<VLink>, b: Seq<VLink>)
    requires
        ranked(before, a),
        ranked(before, b),
    ensures
        a == b,
{
    assert forall|latency: i32| with_latency(a, latency) == with_latency(b, latency) by {
        assert(with_latency(a, latency) == with_latency(before, latency));
        assert(with_latency(b, latency) == with_latency(before, latency));
    }
    lemma_ascending_lists_agree(a, b);
}

/// Ranking a list that is ranked already changes nothing.
pub proof fn law_ranking_twice_is_ranking_once(before: Seq<VLink>, once: Seq<VLink>, twice: Seq<VLink>)
    requires
        ranked(before, once),
        ranked(once, twice),
    ensures
        twice == once,
        ranked(before, twice),
{
    assert forall|latency: i32| with_latency(twice, latency) == with_latency(once, latency) by {
        assert(with_latency(twice, latency) == with_latency(once, latency));
    }
    lemma_ascending_lists_agree(twice, once);
}

} // verus!

