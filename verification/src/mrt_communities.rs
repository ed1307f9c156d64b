//! Standard BGP communities and the classification of a peering from them.

use crate::comm_mappings::AsnMappings;
use crate::mrt_asn::MrtAsn;
use crate::peer_attrs::{PeerLocation, PeerType};
use vstd::prelude::*;

verus! {

/// A community as a route carries it: one of the well-known values, or a
/// pair of the network that defines it and a 16-bit value.
#[derive(Clone, Copy, Debug, PartialEq, Eq, Structural)]
pub enum Community {
    NoExport,
    NoAdvertise,
    NoExportSubConfed,
    Custom(MrtAsn, u16),
}

/// A community that a network defines: the network and a 16-bit value.
#[derive(Clone, Copy, Debug, PartialEq, Eq, Structural)]
pub struct StandardCommunity {
    pub asn: MrtAsn,
    pub value: u16,
}

impl View for StandardCommunity {
    type V = (u32, u16);

    open spec fn view(&self) -> (u32, u16) {
        (self.asn@, self.value)
    }
}

impl StandardCommunity {
    pub fn new(asn: u32, value: u16) -> (c: Self)
        ensures
            c@ == (asn, value),
    {
        Self { asn: MrtAsn::from_u32(asn), value }
    }

    /// The pair that a `Custom` community holds. A well-known community is
    /// no such pair.
    pub fn from(community: Community) -> (c: Self)
        requires
            community is Custom,
        ensures
            Community::Custom(c.asn, c.value) == community,
    {
        match community {
            Community::Custom(asn, value) => Self { asn, value },
            _ => unreached(),
        }
    }

    pub fn get_asn(&self) -> (asn: &MrtAsn)
        ensures
            *asn == self.asn,
    {
        &self.asn
    }

    pub fn get_value(&self) -> (value: &u16)
        ensures
            *value == self.value,
    {
        &self.value
    }
}

/// Outcome of the first community, in the order of the list, that the
/// network `local` defines and for which `rule` has an outcome. Communities
/// of other networks are passed over.
pub open spec fn first_owned_match<T>(
    local: u32,
    communities: Seq<(u32, u16)>,
    rule: spec_fn((u32, u16)) -> Option<T>,
) -> Option<T>
    decreases communities.len(),
{
    if communities.len() == 0 {
        None
    } else {
        let earlier = first_owned_match(local, communities.drop_last(), rule);
        let last = communities.last();
        if earlier is Some {
            earlier
        } else if last.0 == local {
            rule(last)
        } else {
            None
        }
    }
}

/// The communities of one route, in the order in which the route holds them.
#[derive(Debug)]
pub struct StandardCommunities {
    pub standard_communities: Vec<StandardCommunity>,
}

impl View for StandardCommunities {
    type V = Seq<(u32, u16)>;

    open spec fn view(&self) -> Seq<(u32, u16)> {
        self.standard_communities@.map_values(|c: StandardCommunity| c@)
    }
}

impl Clone for StandardCommunities {
    fn clone(&self) -> (r: Self)
        ensures
            r@ == self@,
    {
        let mut v: Vec<StandardCommunity> = Vec::new();
        let mut i: usize = 0;
        while i < self.standard_communities.len()
            invariant
                i <= self.standard_communities.len(),
                v@ == self.standard_communities@.take(i as int),
            decreases self.standard_communities.len() - i,
        {
            v.push(self.standard_communities[i]);
            i += 1;
        }
        assert(v@ == self.standard_communities@);
        Self { standard_communities: v }
    }
}

impl StandardCommunities {
    pub fn new(standard_communities: Vec<StandardCommunity>) -> (r: Self)
        ensures
            r.standard_communities == standard_communities,
    {
        Self { standard_communities }
    }

    pub fn add(&mut self, c: StandardCommunity)
        ensures
            final(self)@ == old(self)@.push(c@),
    {
        self.standard_communities.push(c);
        assert(self@ =~= old(self)@.push(c@));
    }

    /// The communities of a decoded route. Each of them is a `Custom` one.
    pub fn from_vec(communities: Vec<Community>) -> (r: Self)
        requires
            forall|i: int| 0 <= i < communities.len() ==> communities[i] is Custom,
        ensures
            r@.len() == communities.len(),
            forall|i: int|
                0 <= i < communities.len() ==> Community::Custom(MrtAsn(r@[i].0), r@[i].1)
                    == communities[i],
    {
        let mut r = Self::new(Vec::new());
        let mut i: usize = 0;
        while i < communities.len()
            invariant
                i <= communities.len(),
                forall|j: int| 0 <= j < communities.len() ==> communities[j] is Custom,
                r@.len() == i,
                forall|j: int|
                    0 <= j < i ==> Community::Custom(MrtAsn(r@[j].0), r@[j].1) == communities[j],
            decreases communities.len() - i,
        {
            r.add(StandardCommunity::from(communities[i]));
            i += 1;
        }
        r
    }

    /// Region of the peering of `local_asn`: that of the first community of
    /// `local_asn` for which its rules name a region.
    pub fn get_peer_location(&self, local_asn: &MrtAsn, asn_mappings: &AsnMappings) -> (r: Option<
        PeerLocation,
    >)
        ensures
            r == first_owned_match(
                local_asn@,
                self@,
                |c: (u32, u16)| asn_mappings.spec_peer_location(local_asn@, c),
            ),
    {
        let ghost rule = |c: (u32, u16)| asn_mappings.spec_peer_location(local_asn@, c);
        let mut i: usize = 0;
        while i < self.standard_communities.len()
            invariant
                i <= self.standard_communities.len(),
                rule == |c: (u32, u16)| asn_mappings.spec_peer_location(local_asn@, c),
                first_owned_match(local_asn@, self@.take(i as int), rule) is None,
            decreases self.standard_communities.len() - i,
        {
            let c = &self.standard_communities[i];
            proof {
                assert(self@.take(i + 1).drop_last() == self@.take(i as int));
                assert(self@.take(i + 1).last() == c@);
            }
            if c.get_asn().to_u32() == local_asn.to_u32() {
                let found = asn_mappings.get_asn_peer_location(local_asn, c);
                if found.is_some() {
                    proof {
                        lemma_first_owned_match_stays(local_asn@, self@, rule, i + 1);
                    }
                    return found;
                }
            }
            i += 1;
        }
        proof {
            assert(self@.take(i as int) == self@);
        }
        None
    }

    /// Relationship of the peering of `local_asn`: that of the first
    /// community of `local_asn` for which its rules name a relationship.
    pub fn get_peer_type(&self, local_asn: &MrtAsn, asn_mappings: &AsnMappings) -> (r: Option<
        PeerType,
    >)
        ensures
            r == first_owned_match(
                local_asn@,
                self@,
                |c: (u32, u16)| asn_mappings.spec_peer_type(local_asn@, c),
            ),
    {
        let ghost rule = |c: (u32, u16)| asn_mappings.spec_peer_type(local_asn@, c);
        let mut i: usize = 0;
        while i < self.standard_communities.len()
            invariant
                i <= self.standard_communities.len(),
                rule == |c: (u32, u16)| asn_mappings.spec_peer_type(local_asn@, c),
                first_owned_match(local_asn@, self@.take(i as int), rule) is None,
            decreases self.standard_communities.len() - i,
        {
            let c = &self.standard_communities[i];
            proof {
                assert(self@.take(i + 1).drop_last() == self@.take(i as int));
                assert(self@.take(i + 1).last() == c@);
            }
            if c.get_asn().to_u32() == local_asn.to_u32() {
                let found = asn_mappings.get_asn_peer_type(local_asn, c);
                if found.is_some() {
                    proof {
                        lemma_first_owned_match_stays(local_asn@, self@, rule, i + 1);
                    }
                    return found;
                }
            }
            i += 1;
        }
        proof {
            assert(self@.take(i as int) == self@);
        }
        None
    }
}

/// Once a prefix of the list has a match, the whole list has the same one.
pub proof fn lemma_first_owned_match_stays<T>(
    local: u32,
    communities: Seq<(u32, u16)>,
    rule: spec_fn((u32, u16)) -> Option<T>,
    n: int,
)
    requires
        0 <= n <= communities.len(),
        first_owned_match(local, communities.take(n), rule) is Some,
    ensures
        first_owned_match(local, communities, rule) == first_owned_match(
            local,
            communities.take(n),
            rule,
        ),
    decreases communities.len() - n,
{
    if n < communities.len() {
        assert(communities.take(n + 1).drop_last() == communities.take(n));
        lemma_first_owned_match_stays(local, communities, rule, n + 1);
    } else {
        assert(communities.take(n) == communities);
    }
}

/// Communities of other networks than `local` never decide the outcome
/// for `local`: the outcome of a list is the outcome of what is left of it
/// once every community of another network is taken out.
pub proof fn lemma_foreign_communities_ignored<T>(
    local: u32,
    communities: Seq<(u32, u16)>,
    rule: spec_fn((u32, u16)) -> Option<T>,
)
    ensures
        first_owned_match(local, communities, rule) == first_owned_match(
            local,
            communities.filter(|c: (u32, u16)| c.0 == local),
            rule,
        ),
    decreases communities.len(),
{
    let owned = |c: (u32, u16)| c.0 == local;
    reveal(Seq::filter);
    if communities.len() > 0 {
        let front = communities.drop_last();
        lemma_foreign_communities_ignored(local, front, rule);
        if communities.last().0 == local {
            assert(communities.filter(owned) == front.filter(owned).push(communities.last()));
            assert(communities.filter(owned).drop_last() == front.filter(owned));
        } else {
            assert(communities.filter(owned) == front.filter(owned));
        }
    }
}

} // verus!
