use vstd::prelude::*;
use vstd::arithmetic::div_mod::{lemma_mod_pos_bound, lemma_mod_self_0, lemma_small_mod};
use crate::registry::{Health, Upstream, addresses_distinct, has_address, with_health};
use crate::selector::{advance, healthy_upstreams};
use crate::request::{header_names, host_values};
use crate::rewrite::host_rewritten;
use pingora_http::RequestHeader;

verus! {

/// The cursor after `i` selections among `k` healthy upstreams, starting at `start`.
pub open spec fn cursor_after(start: nat, k: nat, i: nat) -> nat
    decreases i,
{
    if i == 0 {
        start
    } else {
        advance(cursor_after(start, k, (i - 1) as nat), k)
    }
}

/// How many of the first `n` selections picked healthy position `j`.
pub open spec fn times_picked(start: nat, k: nat, n: nat, j: nat) -> nat
    decreases n,
{
    if n == 0 {
        0
    } else {
        times_picked(start, k, (n - 1) as nat, j) + if cursor_after(start, k, (n - 1) as nat) % k == j {
            1nat
        } else {
            0nat
        }
    }
}

/// Steps from position `p` forward (cyclically, among `k`) to position `j`.
pub open spec fn gap(p: nat, j: nat, k: nat) -> int {
    if p <= j {
        j - p
    } else {
        j + k - p
    }
}

proof fn lemma_cursor_step(start: nat, k: nat, i: nat)
    requires
        k > 0,
    ensures
        cursor_after(start, k, i) % k < k,
        cursor_after(start, k, i + 1) % k == if cursor_after(start, k, i) % k + 1 == k {
            0
        } else {
            cursor_after(start, k, i) % k + 1
        },
{
    let c = cursor_after(start, k, i);
    lemma_mod_pos_bound(c as int, k as int);
    let p = c % k;
    assert(cursor_after(start, k, i + 1) == p + 1);
    if p + 1 == k {
        lemma_mod_self_0(k as int);
    } else {
        lemma_small_mod((p + 1) as nat, k);
    }
}

proof fn lemma_times_picked_exact(start: nat, k: nat, n: nat, j: nat)
    requires
        k > 0,
        j < k,
    ensures
        times_picked(start, k, n, j) * k == n + gap(cursor_after(start, k, n) % k, j, k) - gap(
            start % k,
            j,
            k,
        ),
    decreases n,
{
    if n == 0 {
        assert(0 * k == 0) by (nonlinear_arith);
    } else {
        let m = (n - 1) as nat;
        lemma_times_picked_exact(start, k, m, j);
        lemma_cursor_step(start, k, m);
        let t = times_picked(start, k, m, j);
        let p = cursor_after(start, k, m) % k;
        let q = cursor_after(start, k, n) % k;
        assert(m + 1 == n);
        if p == j {
            assert(times_picked(start, k, n, j) == t + 1);
            assert((t + 1) * k == t * k + k) by (nonlinear_arith);
            assert(gap(q, j, k) == k - 1);
        } else {
            assert(times_picked(start, k, n, j) == t);
            assert(gap(q, j, k) == gap(p, j, k) - 1);
        }
    }
}

/// Round-robin fairness: over `n` consecutive selections among a stable set of `k`
/// healthy upstreams, from any cursor, each healthy position is picked a number of
/// times `c` with `|c·k − n| < k`, so `c` is within one of `n / k`.
pub proof fn lemma_round_robin_fair(start: nat, k: nat, n: nat, j: nat)
    requires
        k > 0,
        j < k,
    ensures
        times_picked(start, k, n, j) * k < n + k,
        n < times_picked(start, k, n, j) * k + k,
{
    lemma_times_picked_exact(start, k, n, j);
    lemma_mod_pos_bound(start as int, k as int);
    if n > 0 {
        lemma_cursor_step(start, k, (n - 1) as nat);
    }
}

/// An address is offered for selection exactly when some Healthy entry has it.
pub proof fn lemma_healthy_membership(s: Seq<Upstream>, x: String)
    ensures
        healthy_upstreams(s).contains(x) <==> exists|m: int|
            0 <= m < s.len() && s[m].health == Health::Healthy && s[m].address == x,
    decreases s.len(),
{
    if s.len() > 0 {
        let t = s.drop_last();
        lemma_healthy_membership(t, x);
        let rest = healthy_upstreams(t);
        if healthy_upstreams(s).contains(x) {
            if s.last().health == Health::Healthy && s.last().address == x {
                assert(s[s.len() - 1].address == x);
            } else {
                if s.last().health == Health::Healthy {
                    let w = choose|w: int| 0 <= w < rest.push(s.last().address).len()
                        && rest.push(s.last().address)[w] == x;
                    assert(w < rest.len());
                    assert(rest.contains(x));
                }
                let m = choose|m: int| 0 <= m < t.len() && t[m].health == Health::Healthy && t[m].address == x;
                assert(s[m] == t[m]);
            }
        }
        if exists|m: int| 0 <= m < s.len() && s[m].health == Health::Healthy && s[m].address == x {
            let m = choose|m: int| 0 <= m < s.len() && s[m].health == Health::Healthy && s[m].address == x;
            if m == s.len() - 1 {
                let h = rest.push(s.last().address);
                assert(h[rest.len() as int] == x);
            } else {
                assert(t[m] == s[m]);
                let w = choose|w: int| 0 <= w < rest.len() && rest[w] == x;
                if s.last().health == Health::Healthy {
                    assert(rest.push(s.last().address)[w] == x);
                }
            }
        }
    }
}

/// Health exclusion: an upstream marked Unhealthy is never among the addresses
/// that selection chooses from.
pub proof fn lemma_unhealthy_never_selected(s: Seq<Upstream>, i: int)
    requires
        addresses_distinct(s),
        0 <= i < s.len(),
        s[i].health == Health::Unhealthy,
    ensures
        forall|x: String| #[trigger] healthy_upstreams(s).contains(x) ==> x@ != s[i].address@,
{
    assert forall|x: String| #[trigger] healthy_upstreams(s).contains(x) implies x@ != s[i].address@ by {
        lemma_healthy_membership(s, x);
        let m = choose|m: int| 0 <= m < s.len() && s[m].health == Health::Healthy && s[m].address == x;
        assert(m != i);
    }
}

/// All-unhealthy degradation: with every upstream Unhealthy there is nothing to
/// select, so selection fails.
pub proof fn lemma_all_unhealthy_none_selectable(s: Seq<Upstream>)
    requires
        forall|i: int| 0 <= i < s.len() ==> #[trigger] s[i].health == Health::Unhealthy,
    ensures
        healthy_upstreams(s).len() == 0,
    decreases s.len(),
{
    if s.len() > 0 {
        let t = s.drop_last();
        assert forall|i: int| 0 <= i < t.len() implies #[trigger] t[i].health == Health::Unhealthy by {
            assert(t[i] == s[i]);
        }
        lemma_all_unhealthy_none_selectable(t);
        assert(s[s.len() - 1].health == Health::Unhealthy);
    }
}

/// A recorded health change is what the very next selection sees: after marking a
/// known upstream Healthy it is selectable, after marking it Unhealthy it is not.
pub proof fn lemma_health_update_visible(s: Seq<Upstream>, a: Seq<char>, h: Health)
    requires
        addresses_distinct(s),
        has_address(s, a),
    ensures
        h == Health::Healthy ==> exists|x: String| #[trigger] healthy_upstreams(with_health(s, a, h)).contains(x)
            && x@ == a,
        h == Health::Unhealthy ==> forall|x: String| #[trigger] healthy_upstreams(with_health(s, a, h)).contains(x)
            ==> x@ != a,
{
    let s2 = with_health(s, a, h);
    let i = choose|i: int| 0 <= i < s.len() && s[i].address@ == a;
    assert(s2[i].address == s[i].address && s2[i].health == h);
    assert(addresses_distinct(s2)) by {
        assert forall|p: int, q: int| 0 <= p < s2.len() && 0 <= q < s2.len() && p != q implies
            s2[p].address@ != s2[q].address@ by {
            assert(s2[p].address == s[p].address);
            assert(s2[q].address == s[q].address);
        }
    }
    if h == Health::Healthy {
        lemma_healthy_membership(s2, s[i].address);
        assert(healthy_upstreams(s2).contains(s[i].address));
    } else {
        lemma_unhealthy_never_selected(s2, i);
    }
}

/// No dynamic membership: a health report never adds or removes upstreams nor
/// changes their addresses, and one for an unknown address changes nothing.
pub proof fn lemma_health_report_keeps_pool(s: Seq<Upstream>, a: Seq<char>, h: Health)
    ensures
        with_health(s, a, h).len() == s.len(),
        forall|i: int| 0 <= i < s.len() ==> (#[trigger] with_health(s, a, h)[i]).address == s[i].address,
        !has_address(s, a) ==> with_health(s, a, h) == s,
{
    if !has_address(s, a) {
        assert(with_health(s, a, h) =~= s);
    }
}

/// Rewrite idempotence: rewriting two copies of one request with the same
/// decision leaves byte-identical Host headers, and rewriting a rewritten
/// request again changes neither its Host header nor its header names.
pub proof fn lemma_rewrite_idempotent(
    before: RequestHeader,
    once: RequestHeader,
    copy: RequestHeader,
    twice: RequestHeader,
    v: Seq<u8>,
)
    requires
        host_rewritten(before, once, v),
        host_rewritten(before, copy, v),
        host_rewritten(once, twice, v),
    ensures
        host_values(once) == host_values(copy),
        host_values(twice) == host_values(once),
        header_names(twice) == header_names(once),
{
    assert(header_names(once).insert(crate::request::host_name()) =~= header_names(once));
}

} // verus!
