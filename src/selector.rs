use vstd::prelude::*;
use crate::registry::{Health, Upstream};

verus! {

/// Selection found no Healthy upstream in the snapshot.
#[derive(Clone, Copy, Debug, PartialEq, Eq, Structural)]
pub enum SelectionError {
    NoHealthyUpstream,
}

/// The addresses of the Healthy entries of `s`, in pool order.
pub open spec fn healthy_upstreams(s: Seq<Upstream>) -> Seq<String>
    decreases s.len(),
{
    if s.len() == 0 {
        Seq::empty()
    } else {
        let rest = healthy_upstreams(s.drop_last());
        if s.last().health == Health::Healthy {
            rest.push(s.last().address)
        } else {
            rest
        }
    }
}

/// The cursor after one selection among `k` healthy upstreams.
pub open spec fn advance(cursor: nat, k: nat) -> nat
    recommends
        k > 0,
{
    cursor % k + 1
}

/// Round-robin position shared by every request path.
pub struct SelectionCursor {
    next: usize,
}

impl SelectionCursor {
    pub closed spec fn view(&self) -> nat {
        self.next as nat
    }

    /// A cursor that starts at the first healthy upstream.
    pub fn new() -> (r: SelectionCursor)
        ensures
            r@ == 0,
    {
        SelectionCursor { next: 0 }
    }

    /// The raw cursor value.
    pub fn position(&self) -> (r: usize)
        ensures
            r == self@,
    {
        self.next
    }

    /// Picks the next Healthy upstream of `snapshot` in round-robin order.
    /// The cursor is reduced modulo the number of Healthy entries at this call;
    /// with none, it is left alone and the call fails.
    pub fn select(&mut self, snapshot: &Vec<Upstream>) -> (r: Result<String, SelectionError>)
        ensures
            healthy_upstreams(snapshot@).len() == 0 ==> r == Err::<String, SelectionError>(
                SelectionError::NoHealthyUpstream,
            ) && final(self)@ == old(self)@,
            healthy_upstreams(snapshot@).len() > 0 ==> {
                let h = healthy_upstreams(snapshot@);
                &&& r == Ok::<String, SelectionError>(h[(old(self)@ % h.len()) as int])
                &&& final(self)@ == advance(old(self)@, h.len())
            },
    {
        let mut healthy: Vec<String> = Vec::new();
        let mut i: usize = 0;
        while i < snapshot.len()
            invariant
                i <= snapshot@.len(),
                healthy@ == healthy_upstreams(snapshot@.subrange(0, i as int)),
                healthy@.len() <= i,
            decreases snapshot@.len() - i,
        {
            let ghost pre = snapshot@.subrange(0, i as int);
            let ghost cur = snapshot@.subrange(0, i + 1);
            assert(cur.drop_last() =~= pre);
            if snapshot[i].health == Health::Healthy {
                healthy.push(snapshot[i].address.clone());
            }
            i = i + 1;
        }
        assert(snapshot@.subrange(0, snapshot@.len() as int) =~= snapshot@);
        let k = healthy.len();
        if k == 0 {
            return Err(SelectionError::NoHealthyUpstream);
        }
        let pos = self.next % k;
        self.next = pos + 1;
        Ok(healthy[pos].clone())
    }
}

} // verus!
