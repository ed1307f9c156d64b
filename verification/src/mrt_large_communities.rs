//! Large BGP communities. A route keeps them; no rule reads them.

use vstd::prelude::*;

verus! {

/// A large community: the network that defines it and two values.
#[derive(Clone, Copy, Debug, PartialEq, Eq, Structural)]
pub struct LargeCommunity {
    pub global_admin: u32,
    pub local_data_1: u32,
    pub local_data_2: u32,
}

/// The large communities of one route, in the order in which the route
/// holds them.
#[derive(Debug)]
pub struct LargeCommunities {
    pub large_communities: Vec<LargeCommunity>,
}

impl View for LargeCommunities {
    type V = Seq<LargeCommunity>;

    open spec fn view(&self) -> Seq<LargeCommunity> {
        self.large_communities@
    }
}

impl Default for LargeCommunities {
    fn default() -> (r: Self)
        ensures
            r@ == Seq::<LargeCommunity>::empty(),
    {
        Self::new(Vec::new())
    }
}

impl Clone for LargeCommunities {
    fn clone(&self) -> (r: Self)
        ensures
            r@ == self@,
    {
        let mut v: Vec<LargeCommunity> = Vec::new();
        let mut i: usize = 0;
        while i < self.large_communities.len()
            invariant
                i <= self.large_communities.len(),
                v@ == self.large_communities@.take(i as int),
            decreases self.large_communities.len() - i,
        {
            v.push(self.large_communities[i]);
            i += 1;
        }
        assert(v@ == self.large_communities@);
        Self { large_communities: v }
    }
}

impl LargeCommunities {
    pub fn new(large_communities: Vec<LargeCommunity>) -> (r: Self)
        ensures
            r.large_communities == large_communities,
    {
        LargeCommunities { large_communities }
    }
}

} // verus!
