use vstd::prelude::*;

verus! {

/// Liveness classification of one upstream.
#[derive(Clone, Copy, Debug, PartialEq, Eq, Structural)]
pub enum Health {
    Healthy,
    Unhealthy,
}

/// One backend endpoint: its `host:port` address and its current health.
#[derive(Debug)]
pub struct Upstream {
    pub address: String,
    pub health: Health,
}

/// Why a static address list cannot become a registry.
#[derive(Clone, Copy, Debug, PartialEq, Eq, Structural)]
pub enum ConfigError {
    EmptyPool,
    DuplicateAddress,
}

/// No two entries share an address.
pub open spec fn addresses_distinct(s: Seq<Upstream>) -> bool {
    forall|i: int, j: int|
        0 <= i < s.len() && 0 <= j < s.len() && i != j ==> s[i].address@ != s[j].address@
}

/// Some entry of `s` has address `a`.
pub open spec fn has_address(s: Seq<Upstream>, a: Seq<char>) -> bool {
    exists|i: int| 0 <= i < s.len() && s[i].address@ == a
}

/// Some two distinct positions of `a` hold the same address.
pub open spec fn has_duplicate(a: Seq<String>) -> bool {
    exists|i: int, j: int| 0 <= i < j < a.len() && a[i]@ == a[j]@
}

/// `s` after recording `h` for the entry whose address is `a` (unchanged if none is).
pub open spec fn with_health(s: Seq<Upstream>, a: Seq<char>, h: Health) -> Seq<Upstream> {
    s.map_values(|u: Upstream| if u.address@ == a { Upstream { address: u.address, health: h } } else { u })
}

/// The fixed, ordered pool of upstreams and their current health.
pub struct UpstreamRegistry {
    entries: Vec<Upstream>,
}

impl UpstreamRegistry {
    pub closed spec fn view(&self) -> Seq<Upstream> {
        self.entries@
    }

    pub open spec fn wf(&self) -> bool {
        self@.len() > 0 && addresses_distinct(self@)
    }

    /// Builds the registry from the static address list, every upstream starting Healthy.
    pub fn new(addresses: Vec<String>) -> (r: Result<UpstreamRegistry, ConfigError>)
        ensures
            addresses@.len() == 0 ==> r == Err::<UpstreamRegistry, ConfigError>(ConfigError::EmptyPool),
            addresses@.len() > 0 && has_duplicate(addresses@)
                ==> r == Err::<UpstreamRegistry, ConfigError>(ConfigError::DuplicateAddress),
            addresses@.len() > 0 && !has_duplicate(addresses@) ==> r is Ok,
            r matches Ok(reg) ==> reg.wf() && reg@.len() == addresses@.len() && forall|i: int|
                0 <= i < addresses@.len() ==> (#[trigger] reg@[i]).address == addresses@[i]
                    && reg@[i].health == Health::Healthy,
    {
        if addresses.len() == 0 {
            return Err(ConfigError::EmptyPool);
        }
        let mut i: usize = 0;
        while i < addresses.len()
            invariant
                i <= addresses@.len(),
                forall|p: int, q: int| 0 <= p < q < i ==> addresses@[p]@ != addresses@[q]@,
            decreases addresses@.len() - i,
        {
            let mut j: usize = 0;
            while j < i
                invariant
                    i < addresses@.len(),
                    j <= i,
                    forall|p: int| 0 <= p < j ==> addresses@[p]@ != addresses@[i as int]@,
                decreases i - j,
            {
                if addresses[j] == addresses[i] {
                    return Err(ConfigError::DuplicateAddress);
                }
                j = j + 1;
            }
            i = i + 1;
        }
        let mut entries: Vec<Upstream> = Vec::new();
        let mut k: usize = 0;
        while k < addresses.len()
            invariant
                k <= addresses@.len(),
                entries@.len() == k,
                forall|p: int| 0 <= p < k ==> (#[trigger] entries@[p]).address == addresses@[p]
                    && entries@[p].health == Health::Healthy,
            decreases addresses@.len() - k,
        {
            let a = addresses[k].clone();
            assert(a == addresses@[k as int]);
            entries.push(Upstream { address: a, health: Health::Healthy });
            assert(entries@[k as int].address == addresses@[k as int]);
            k = k + 1;
        }
        let reg = UpstreamRegistry { entries };
        assert(addresses_distinct(reg@)) by {
            assert forall|p: int, q: int|
                0 <= p < reg@.len() && 0 <= q < reg@.len() && p != q implies
                reg@[p].address@ != reg@[q].address@ by {
                assert(reg@[p].address == addresses@[p]);
                assert(reg@[q].address == addresses@[q]);
            }
        }
        Ok(reg)
    }

    /// Number of upstreams in the pool.
    pub fn len(&self) -> (r: usize)
        ensures
            r == self@.len(),
    {
        self.entries.len()
    }

    /// A point-in-time copy of the pool, in pool order.
    pub fn snapshot(&self) -> (r: Vec<Upstream>)
        ensures
            r@ == self@,
    {
        let mut out: Vec<Upstream> = Vec::new();
        let mut i: usize = 0;
        while i < self.entries.len()
            invariant
                i <= self@.len(),
                out@ == self@.subrange(0, i as int),
            decreases self@.len() - i,
        {
            let e = &self.entries[i];
            out.push(Upstream { address: e.address.clone(), health: e.health });
            assert(out@ =~= self@.subrange(0, i + 1));
            i = i + 1;
        }
        assert(out@ =~= self@);
        out
    }

    /// Records `health` for the upstream at `address`; an unknown address changes nothing.
    pub fn set_health(&mut self, address: &String, health: Health)
        ensures
            final(self)@ == with_health(old(self)@, address@, health),
            final(self)@.len() == old(self)@.len(),
            !has_address(old(self)@, address@) ==> final(self)@ == old(self)@,
            old(self).wf() ==> final(self).wf(),
    {
        let n = self.entries.len();
        let mut i: usize = 0;
        while i < n
            invariant
                n == old(self)@.len(),
                self@.len() == n,
                i <= n,
                forall|p: int| 0 <= p < i ==> #[trigger] self@[p] == with_health(old(self)@, address@, health)[p],
                forall|p: int| i <= p < n ==> #[trigger] self@[p] == old(self)@[p],
            decreases n - i,
        {
            if self.entries[i].address == *address {
                let a = self.entries[i].address.clone();
                self.entries.set(i, Upstream { address: a, health });
            }
            i = i + 1;
        }
        assert(self@ =~= with_health(old(self)@, address@, health));
        proof {
            if !has_address(old(self)@, address@) {
                assert(self@ =~= old(self)@);
            }
        }
    }
}

} // verus!
