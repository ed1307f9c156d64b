//! The index of chains of three neighbouring Tier 1 networks: one exemplar
//! route for each ordered triple. The first route stored under a triple
//! stays; later ones are dropped.

use crate::mrt_asn::MrtAsn;
use crate::mrt_route::{Route, RouteView};
use crate::peerings::put_if_absent;
use itertools::Itertools;
use std::collections::HashMap;
use vstd::prelude::*;
use vstd::std_specs::iter::IteratorSpec;

verus! {

/// An ordered triple of networks, by their numbers.
pub type Triple = (u32, u32, u32);

/// The triple that `path` holds.
pub open spec fn triple_of(path: [MrtAsn; 3]) -> Triple {
    (path[0]@, path[1]@, path[2]@)
}

/// The number under which a triple is stored: the first network in the top
/// 32 bits, the second in the next 32, the third in the lowest 32.
pub open spec fn triple_key(t: Triple) -> u128 {
    (t.0 as u128 * 0x1_0000_0000_0000_0000 + t.1 as u128 * 0x1_0000_0000 + t.2 as u128) as u128
}

/// The triple that is stored under `k`.
pub open spec fn key_triple(k: u128) -> Triple {
    (
        (k / 0x1_0000_0000_0000_0000) as u32,
        ((k / 0x1_0000_0000) % 0x1_0000_0000) as u32,
        (k % 0x1_0000_0000) as u32,
    )
}

/// A triple is found again from its key, so distinct triples have distinct
/// keys.
pub proof fn lemma_triple_key(t: Triple)
    ensures
        key_triple(triple_key(t)) == t,
{
}

fn key_of(path: &[MrtAsn; 3]) -> (k: u128)
    ensures
        k == triple_key(triple_of(*path)),
{
    (path[0].0 as u128) * 0x1_0000_0000_0000_0000 + (path[1].0 as u128) * 0x1_0000_0000 + (
    path[2].0 as u128)
}

fn triple_at(k: u128) -> (path: [MrtAsn; 3])
    ensures
        triple_of(path) == key_triple(k),
{
    let a: u128 = k / 0x1_0000_0000_0000_0000;
    let b: u128 = (k / 0x1_0000_0000) % 0x1_0000_0000;
    let c: u128 = k % 0x1_0000_0000;
    [MrtAsn(a as u32), MrtAsn(b as u32), MrtAsn(c as u32)]
}

/// The text that the numbers give when each is written in decimal and
/// `sep` is put between each two of them.
pub uninterp spec fn joined_numbers(numbers: Seq<u32>, sep: Seq<char>) -> Seq<char>;

/// `itertools::Itertools::join` on the numbers: each number as `Display`
/// writes it, with `sep` between each two.
#[verifier::external_body]
fn join_numbers(numbers: &Vec<u32>, sep: &str) -> (s: String)
    ensures
        s@ == joined_numbers(numbers@, sep@),
{
    numbers.iter().join(sep)
}

/// The exemplars of the chains of three Tier 1 networks.
#[derive(Debug)]
pub struct TripleT1Paths {
    triple_t1_paths: HashMap<u128, Route>,
}

impl View for TripleT1Paths {
    type V = Map<Triple, RouteView>;

    closed spec fn view(&self) -> Map<Triple, RouteView> {
        Map::new(
            |t: Triple| self.triple_t1_paths@.contains_key(triple_key(t)),
            |t: Triple| self.triple_t1_paths@[triple_key(t)]@,
        )
    }
}

impl Default for TripleT1Paths {
    fn default() -> (r: Self)
        ensures
            r@ == Map::<Triple, RouteView>::empty(),
    {
        Self::new()
    }
}

impl TripleT1Paths {
    pub fn new() -> (r: Self)
        ensures
            r@ == Map::<Triple, RouteView>::empty(),
    {
        let r = Self { triple_t1_paths: HashMap::new() };
        assert(r@ =~= Map::<Triple, RouteView>::empty());
        r
    }

    /// Stores `route` under the triple, unless a route is stored there
    /// already.
    pub fn add_path(&mut self, triple_t1_path: [MrtAsn; 3], route: Route)
        ensures
            final(self)@ == put_if_absent(old(self)@, triple_of(triple_t1_path), route@),
    {
        if self.has_path(&triple_t1_path) {
            return;
        }
        let k = key_of(&triple_t1_path);
        self.triple_t1_paths.insert(k, route);
        proof {
            assert forall|t: Triple| triple_key(t) == k implies t == triple_of(triple_t1_path) by {
                lemma_triple_key(t);
                lemma_triple_key(triple_of(triple_t1_path));
            }
            assert(self@ =~= put_if_absent(old(self)@, triple_of(triple_t1_path), route@));
        }
    }

    /// Whether a route is stored under the triple.
    pub fn has_path(&self, triple_t1_path: &[MrtAsn; 3]) -> (b: bool)
        ensures
            b == self@.contains_key(triple_of(*triple_t1_path)),
    {
        let k = key_of(triple_t1_path);
        self.triple_t1_paths.contains_key(&k)
    }

    /// The triples under which routes are stored, each once, in no stated
    /// order.
    pub fn triples(&self) -> (r: Vec<[MrtAsn; 3]>)
        ensures
            r@.no_duplicates(),
            forall|t: Triple|
                self@.contains_key(t) <==> exists|j: int|
                    0 <= j < r@.len() && triple_of(#[trigger] r@[j]) == t,
    {
        let mut r: Vec<[MrtAsn; 3]> = Vec::new();
        let ghost all = self.triple_t1_paths.keys().remaining();
        // For each listed triple, where its key stands in `all`; for each
        // key of `all` so far, where its triple stands in `r`.
        let ghost mut from: Seq<int> = Seq::empty();
        let ghost mut to: Seq<int> = Seq::empty();
        for k in it: self.triple_t1_paths.keys()
            invariant
                it.seq() == all,
                all.unref().to_set() == self.triple_t1_paths@.dom(),
                all.no_duplicates(),
                from.len() == r@.len(),
                to.len() == it.index(),
                forall|j: int|
                    0 <= j < r@.len() ==> 0 <= #[trigger] from[j] < it.index() && *all[from[j]]
                        == triple_key(triple_of(r@[j])) && to[from[j]] == j,
                forall|i: int|
                    0 <= i < it.index() && triple_key(key_triple(*all[i])) == *all[i] ==> 0
                        <= #[trigger] to[i] < r@.len() && triple_of(r@[to[i]]) == key_triple(
                        *all[i],
                    ),
        {
            let path = triple_at(*k);
            if key_of(&path) == *k {
                proof {
                    from = from.push(it.index() as int);
                    to = to.push(r@.len() as int);
                }
                r.push(path);
            } else {
                proof {
                    to = to.push(-1);
                }
            }
        }
        proof {
            let keys = all.unref();
            assert forall|t: Triple| self@.contains_key(t) implies exists|j: int|
                0 <= j < r@.len() && triple_of(#[trigger] r@[j]) == t by {
                assert(keys.to_set().contains(triple_key(t)));
                let i = choose|i: int| 0 <= i < keys.len() && keys[i] == triple_key(t);
                lemma_triple_key(t);
                assert(*all[i] == triple_key(t));
                assert(triple_of(r@[to[i]]) == t);
            }
            assert forall|t: Triple|
                (exists|j: int|
                    0 <= j < r@.len() && triple_of(#[trigger] r@[j]) == t) implies self@.contains_key(
                t,
            ) by {
                let j = choose|j: int| 0 <= j < r@.len() && triple_of(#[trigger] r@[j]) == t;
                let i = from[j];
                assert(keys[i] == *all[i]);
                assert(keys.to_set().contains(keys[i]));
            }
            assert forall|a: int, b: int|
                0 <= a < r@.len() && 0 <= b < r@.len() && a != b implies r@[a] != r@[b] by {
                assert(to[from[a]] == a && to[from[b]] == b);
            }
        }
        r
    }

    /// The name of the triple in exported data: the three numbers with a
    /// comma between each two.
    pub fn key_text(triple_t1_path: &[MrtAsn; 3]) -> (s: String)
        ensures
            s@ == joined_numbers(
                seq![triple_t1_path[0]@, triple_t1_path[1]@, triple_t1_path[2]@],
                ","@,
            ),
    {
        let mut numbers: Vec<u32> = Vec::new();
        numbers.push(triple_t1_path[0].to_u32());
        numbers.push(triple_t1_path[1].to_u32());
        numbers.push(triple_t1_path[2].to_u32());
        assert(numbers@ =~= seq![triple_t1_path[0]@, triple_t1_path[1]@, triple_t1_path[2]@]);
        join_numbers(&numbers, ",")
    }

    /// The route stored under the triple, if any.
    pub fn get_path(&self, triple_t1_path: &[MrtAsn; 3]) -> (r: Option<&Route>)
        ensures
            match r {
                Some(route) => Some(route@),
                None => None,
            } == self@.get(triple_of(*triple_t1_path)),
    {
        let k = key_of(triple_t1_path);
        self.triple_t1_paths.get(&k)
    }
}

/// Storing under the same triple twice leaves what storing once leaves.
pub proof fn lemma_add_path_idempotent(m: Map<Triple, RouteView>, t: Triple, route: RouteView)
    ensures
        put_if_absent(put_if_absent(m, t, route), t, route) == put_if_absent(m, t, route),
        put_if_absent(m, t, route).contains_key(t),
        forall|other: Triple|
            other != t ==> put_if_absent(m, t, route).contains_key(other) == m.contains_key(other),
{
}

} // verus!
