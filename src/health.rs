use vstd::prelude::*;
use crate::registry::{Health, Upstream, UpstreamRegistry, addresses_distinct, with_health};

verus! {

/// A reachable upstream is Healthy; any probe failure (refused, timed out,
/// unresolvable) makes it Unhealthy.
pub open spec fn probe_health(reachable: bool) -> Health {
    if reachable {
        Health::Healthy
    } else {
        Health::Unhealthy
    }
}

/// The classification of one probe result.
pub fn health_from_probe(reachable: bool) -> (r: Health)
    ensures
        r == probe_health(reachable),
{
    if reachable {
        Health::Healthy
    } else {
        Health::Unhealthy
    }
}

/// The period between probe rounds, in milliseconds; always positive.
pub struct HealthCheckConfig {
    interval_ms: u64,
}

/// Default probe period: one second.
pub const DEFAULT_INTERVAL_MS: u64 = 1000;

impl HealthCheckConfig {
    pub closed spec fn interval(&self) -> nat {
        self.interval_ms as nat
    }

    pub open spec fn wf(&self) -> bool {
        self.interval() > 0
    }

    /// A configuration probing every `interval_ms` milliseconds; `None` for zero.
    pub fn new(interval_ms: u64) -> (r: Option<HealthCheckConfig>)
        ensures
            interval_ms == 0 <==> r is None,
            r matches Some(c) ==> c.wf() && c.interval() == interval_ms,
    {
        if interval_ms == 0 {
            None
        } else {
            Some(HealthCheckConfig { interval_ms })
        }
    }

    /// The one-second default.
    pub fn default_interval() -> (r: HealthCheckConfig)
        ensures
            r.wf(),
            r.interval() == DEFAULT_INTERVAL_MS,
    {
        HealthCheckConfig { interval_ms: DEFAULT_INTERVAL_MS }
    }

    pub fn interval_ms(&self) -> (r: u64)
        ensures
            r == self.interval(),
    {
        self.interval_ms
    }

    /// Each probe's own timeout: half the interval (rounded down), so always
    /// strictly shorter than the interval.
    pub fn probe_timeout_ms(&self) -> (r: u64)
        requires
            self.wf(),
        ensures
            r == self.interval() / 2,
            r < self.interval(),
            2 * r <= self.interval(),
    {
        self.interval_ms / 2
    }
}

/// `s` after one probe round whose result for entry `i` is `reachable[i]`.
pub open spec fn after_probe_round(s: Seq<Upstream>, reachable: Seq<bool>) -> Seq<Upstream>
    recommends
        s.len() == reachable.len(),
{
    Seq::new(s.len(), |i: int| Upstream { address: s[i].address, health: probe_health(reachable[i]) })
}

/// Records a whole probe round: `reachable[i]` is the outcome of probing the
/// upstream at position `i` of the pool. Each result goes through `set_health`,
/// so the pool itself never changes.
pub fn record_probe_round(registry: &mut UpstreamRegistry, reachable: &Vec<bool>)
    requires
        old(registry).wf(),
        reachable@.len() == old(registry)@.len(),
    ensures
        final(registry).wf(),
        final(registry)@ == after_probe_round(old(registry)@, reachable@),
{
    let snap = registry.snapshot();
    let n = snap.len();
    let mut i: usize = 0;
    while i < n
        invariant
            n == snap@.len(),
            snap@ == old(registry)@,
            reachable@.len() == n,
            registry.wf(),
            registry@.len() == n,
            i <= n,
            forall|p: int| 0 <= p < n ==> (#[trigger] registry@[p]).address == snap@[p].address,
            forall|p: int| 0 <= p < i ==> (#[trigger] registry@[p]).health == probe_health(reachable@[p]),
            forall|p: int| i <= p < n ==> (#[trigger] registry@[p]).health == snap@[p].health,
        decreases n - i,
    {
        let ghost before = registry@;
        let h = health_from_probe(reachable[i]);
        registry.set_health(&snap[i].address, h);
        assert forall|p: int| 0 <= p < n implies (#[trigger] registry@[p]).address == snap@[p].address
            && (p != i ==> registry@[p] == before[p]) && (p == i ==> registry@[p].health == h) by {
            assert(registry@[p] == with_health(before, snap@[i as int].address@, h)[p]);
            if p != i {
                assert(addresses_distinct(before));
                assert(before[p].address@ != before[i as int].address@);
            }
        }
        i = i + 1;
    }
    assert(registry@ =~= after_probe_round(old(registry)@, reachable@));
}

} // verus!
