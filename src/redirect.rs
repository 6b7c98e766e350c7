use vstd::prelude::*;

verus! {

/// Number of redirect hops followed unless another cap is given.
pub const DEFAULT_MAX_HOPS: u64 = 2;

/// Follows `Location` headers of successive responses, up to a fixed number of hops.
pub struct RedirectFollower {
    hops: u64,
    max_hops: u64,
}

impl RedirectFollower {
    pub closed spec fn hops_spec(&self) -> nat {
        self.hops as nat
    }

    pub closed spec fn max_hops_spec(&self) -> nat {
        self.max_hops as nat
    }

    pub closed spec fn wf(&self) -> bool {
        self.hops <= self.max_hops
    }

    /// A follower that takes at most `max_hops` hops.
    pub fn new(max_hops: u64) -> (r: RedirectFollower)
        ensures
            r.wf(),
            r.hops_spec() == 0,
            r.max_hops_spec() == max_hops,
    {
        RedirectFollower { hops: 0, max_hops }
    }

    /// A follower with the default cap of two hops.
    pub fn with_default_cap() -> (r: RedirectFollower)
        ensures
            r.wf(),
            r.hops_spec() == 0,
            r.max_hops_spec() == DEFAULT_MAX_HOPS,
    {
        RedirectFollower::new(DEFAULT_MAX_HOPS)
    }

    /// Hops taken so far.
    pub fn hops(&self) -> (r: u64)
        ensures
            r == self.hops_spec(),
    {
        self.hops
    }

    /// Takes the `Location` header of the latest response. Returns the address
    /// to request next, or `None` when the latest response is the final one:
    /// it carries no `Location`, or the cap has been reached.
    pub fn on_response(&mut self, location: Option<String>) -> (r: Option<String>)
        requires
            old(self).wf(),
        ensures
            final(self).wf(),
            final(self).max_hops_spec() == old(self).max_hops_spec(),
            final(self).hops_spec() <= final(self).max_hops_spec(),
            match location {
                Some(l) => if old(self).hops_spec() < old(self).max_hops_spec() {
                    r == Some(l) && final(self).hops_spec() == old(self).hops_spec() + 1
                } else {
                    r is None && final(self).hops_spec() == old(self).hops_spec()
                },
                None => r is None && final(self).hops_spec() == old(self).hops_spec(),
            },
    {
        match location {
            Some(l) => {
                if self.hops < self.max_hops {
                    self.hops = self.hops + 1;
                    Some(l)
                } else {
                    None
                }
            },
            None => None,
        }
    }
}

/// Index, in a chain of responses, of the one that a follower with cap `max`
/// returns, where `has_location[i]` tells whether response `i` carries a
/// `Location` header and `start` hops have been taken before response `start`.
pub open spec fn returned_response(max: nat, has_location: Seq<bool>, start: nat) -> nat
    decreases has_location.len() - start,
{
    if start >= has_location.len() || !has_location[start as int] || start >= max {
        start
    } else {
        returned_response(max, has_location, start + 1)
    }
}

/// Whatever chain of `Location` headers an origin presents, the response that
/// is returned lies at most `max` hops from the first request.
pub proof fn lemma_redirect_depth_capped(max: nat, has_location: Seq<bool>, start: nat)
    requires
        start <= max,
    ensures
        returned_response(max, has_location, start) <= max,
        start <= returned_response(max, has_location, start),
    decreases has_location.len() - start,
{
    if start >= has_location.len() || !has_location[start as int] || start >= max {
    } else {
        lemma_redirect_depth_capped(max, has_location, start + 1);
    }
}

/// When every response up to hop `max` carries a `Location`, the response of
/// hop `max` is returned, not one further along the chain.
pub proof fn lemma_long_chain_stops_at_cap(max: nat, has_location: Seq<bool>, start: nat)
    requires
        start <= max,
        max < has_location.len(),
        forall|i: int| start <= i <= max ==> has_location[i],
    ensures
        returned_response(max, has_location, start) == max,
    decreases max - start,
{
    if start < max {
        lemma_long_chain_stops_at_cap(max, has_location, start + 1);
    }
}

} // verus!
