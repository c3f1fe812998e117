//! Which local ports to probe for a Wwise instance, which of them answered,
//! and the WAAPI address of a port.

use vstd::prelude::*;

use crate::text::{decimal_text, push_decimal};

verus! {

broadcast use vstd::seq_lib::group_to_multiset_ensures;

/// The ports from `start` to `end`, both included, in increasing order
/// (none when `start` is above `end`).
pub open spec fn port_range(start: u16, end: u16) -> Seq<u16> {
    Seq::new(
        if start <= end {
            (end - start + 1) as nat
        } else {
            0nat
        },
        |i: int| (start + i) as u16,
    )
}

/// The ports that a probe found open, in probe order.
pub open spec fn open_ports_of(probed: Seq<(u16, bool)>) -> Seq<u16>
    decreases probed.len(),
{
    if probed.len() == 0 {
        seq![]
    } else {
        let rest = open_ports_of(probed.drop_last());
        if probed.last().1 {
            rest.push(probed.last().0)
        } else {
            rest
        }
    }
}

pub open spec fn ascending(s: Seq<u16>) -> bool {
    forall|i: int, j: int| 0 <= i < j < s.len() ==> s[i] <= s[j]
}

/// Law: the range holds each port from `start` to `end` once, in
/// increasing order, and no other.
pub proof fn lemma_port_range(start: u16, end: u16, p: u16)
    ensures
        port_range(start, end).contains(p) <==> start <= p <= end,
        forall|i: int, j: int|
            0 <= i < j < port_range(start, end).len() ==> port_range(start, end)[i] < port_range(
                start,
                end,
            )[j],
        start <= end ==> port_range(start, end).len() == end - start + 1,
{
    let r = port_range(start, end);
    if start <= p <= end {
        assert(r[p - start] == p);
    }
}

/// Law: a port is among the open ones exactly when some probe of it
/// answered, as often as such probes occur.
pub proof fn lemma_open_ports_of(probed: Seq<(u16, bool)>, p: u16)
    ensures
        open_ports_of(probed).contains(p) <==> probed.contains((p, true)),
        open_ports_of(probed).len() <= probed.len(),
    decreases probed.len(),
{
    if probed.len() > 0 {
        let pre = probed.drop_last();
        lemma_open_ports_of(pre, p);
        let rest = open_ports_of(pre);
        if pre.contains((p, true)) {
            let k = choose|k: int| 0 <= k < pre.len() && pre[k] == (p, true);
            assert(probed[k] == (p, true));
        }
        if probed.contains((p, true)) && !pre.contains((p, true)) {
            let k = choose|k: int| 0 <= k < probed.len() && probed[k] == (p, true);
            if k < pre.len() {
                assert(pre[k] == (p, true));
            }
        }
        if probed.last().1 {
            let full = rest.push(probed.last().0);
            if rest.contains(p) {
                let k = choose|k: int| 0 <= k < rest.len() && rest[k] == p;
                assert(full[k] == p);
            }
            if full.contains(p) && !rest.contains(p) {
                let k = choose|k: int| 0 <= k < full.len() && full[k] == p;
                if k < rest.len() {
                    assert(rest[k] == p);
                }
            }
            if probed.last() == (p, true) {
                assert(full[full.len() - 1] == p);
            }
        }
    }
}

/// Law: a port list is ascending exactly when each port is no larger than
/// the next.
pub proof fn lemma_ascending_adjacent(s: Seq<u16>)
    ensures
        ascending(s) <==> forall|i: int| 0 <= i < s.len() - 1 ==> #[trigger] s[i] <= s[i + 1],
{
    if forall|i: int| 0 <= i < s.len() - 1 ==> #[trigger] s[i] <= s[i + 1] {
        assert forall|i: int, j: int| 0 <= i < j < s.len() implies s[i] <= s[j] by {
            lemma_adjacent_chain(s, i, j);
        }
    }
    if ascending(s) {
        assert forall|i: int| 0 <= i < s.len() - 1 implies #[trigger] s[i] <= s[i + 1] by {
            assert(s[i] <= s[i + 1]);
        }
    }
}

proof fn lemma_adjacent_chain(s: Seq<u16>, i: int, j: int)
    requires
        0 <= i <= j < s.len(),
        forall|k: int| 0 <= k < s.len() - 1 ==> #[trigger] s[k] <= s[k + 1],
    ensures
        s[i] <= s[j],
    decreases j - i,
{
    if i < j {
        lemma_adjacent_chain(s, i, j - 1);
        assert(s[j - 1] <= s[j]);
    }
}

/// The ports to probe: `start..=end` on the local host.
pub fn ports_in_range(start: u16, end: u16) -> (ports: Vec<u16>)
    ensures
        ports@ == port_range(start, end),
{
    let mut ports: Vec<u16> = Vec::new();
    if start > end {
        assert(ports@ =~= port_range(start, end));
        return ports;
    }
    let mut p: u32 = start as u32;
    while p <= end as u32
        invariant
            start <= end,
            start as u32 <= p <= end as u32 + 1,
            ports@.len() == p - start,
            forall|i: int| 0 <= i < ports@.len() ==> ports@[i] == start + i,
        decreases end as u32 + 1 - p,
    {
        ports.push(p as u16);
        p = p + 1;
    }
    assert(ports@ =~= port_range(start, end));
    ports
}

/// The open ports among the probe results `(port, answered)`, sorted in
/// increasing order.
pub fn open_ports_sorted(probed: &Vec<(u16, bool)>) -> (ports: Vec<u16>)
    ensures
        ascending(ports@),
        ports@.to_multiset() == open_ports_of(probed@).to_multiset(),
{
    let n = probed.len();
    let mut out: Vec<u16> = Vec::new();
    let mut i: usize = 0;
    assert(open_ports_of(probed@.take(0)) =~= Seq::<u16>::empty());
    while i < n
        invariant
            n == probed@.len(),
            i <= n,
            ascending(out@),
            out@.to_multiset() == open_ports_of(probed@.take(i as int)).to_multiset(),
        decreases n - i,
    {
        let (port, open) = probed[i];
        let ghost pre = probed@.take(i as int);
        let ghost post = probed@.take(i + 1);
        assert(post.drop_last() =~= pre);
        assert(post.last() == probed@[i as int]);
        if open {
            let m = out.len();
            let mut pos: usize = 0;
            while pos < m && out[pos] <= port
                invariant
                    m == out@.len(),
                    pos <= m,
                    forall|k: int| 0 <= k < pos ==> out@[k] <= port,
                decreases m - pos,
            {
                pos = pos + 1;
            }
            let ghost before = out@;
            out.insert(pos, port);
            proof {
                before.insert_ensures(pos as int, port);
                assert forall|a: int, b: int| 0 <= a < b < out@.len() implies out@[a] <= out@[b] by {
                    if b < pos {
                    } else if b == pos {
                        assert(out@[a] == before[a]);
                    } else if a < pos {
                        assert(out@[b] == before[b - 1]);
                        if pos < m {
                            assert(before[pos as int] > port);
                            assert(before[a] <= before[pos as int]);
                        }
                    } else if a == pos {
                        assert(out@[b] == before[b - 1]);
                        assert(pos < m);
                        assert(before[pos as int] > port);
                        if b - 1 > pos {
                            assert(before[pos as int] <= before[b - 1]);
                        }
                    } else {
                        assert(out@[a] == before[a - 1]);
                        assert(out@[b] == before[b - 1]);
                    }
                }
                assert(open_ports_of(post) == open_ports_of(pre).push(port));
            }
        } else {
            assert(open_ports_of(post) == open_ports_of(pre));
        }
        i = i + 1;
    }
    assert(probed@.take(n as int) =~= probed@);
    out
}

/// The WAAPI address of a local port: `ws://127.0.0.1:<port>/waapi`.
pub fn waapi_url(port: u16) -> (url: String)
    ensures
        url@ == "ws://127.0.0.1:"@ + decimal_text(port as nat) + "/waapi"@,
{
    let mut url = "ws://127.0.0.1:".to_owned();
    push_decimal(&mut url, port as u64);
    url.append("/waapi");
    url
}

} // verus!
