//! The whole family: one bundle per arity from zero up to the largest, and
//! what holds of it.
use vstd::prelude::*;
use crate::bundle::{
    call_kinds, copy_range, impl_traits, is_bundle, is_indexable, is_join_impl, CallKind, TraitBundle,
};
use crate::idents::{gen_idents, ident_name, lemma_ident_names_distinct};

verus! {

/// The largest arity that the family covers.
pub const MAX_ARITY: usize = 32;

/// The names of a sequence of type parameters.
pub open spec fn names(s: Seq<String>) -> Seq<Seq<char>> {
    s.map_values(|x: String| x@)
}

/// `bs` holds, at each arity `k` from zero to `max_arity`, the bundle of the
/// tuple of parameters `T1` to `Tk`.
pub open spec fn is_family(bs: Seq<TraitBundle>, max_arity: nat) -> bool {
    &&& bs.len() == max_arity + 1
    &&& forall|k: int|
        0 <= k <= max_arity ==> {
            &&& (#[trigger] bs[k]).tuple.tuple@.len() == k
            &&& forall|i: int| 0 <= i < k ==> (#[trigger] bs[k].tuple.tuple@[i])@ == ident_name(i as nat)
            &&& is_bundle(bs[k], bs[k].tuple.tuple@, max_arity)
        }
}

/// Plans the implementations of every arity from zero to `max_arity`, in
/// increasing order of arity.
pub fn impl_all_traits(max_arity: usize) -> (r: Vec<TraitBundle>)
    requires
        max_arity < usize::MAX,
    ensures
        is_family(r@, max_arity as nat),
{
    let idents = gen_idents(max_arity);
    let mut r: Vec<TraitBundle> = Vec::new();
    let mut k: usize = 0;
    while k <= max_arity
        invariant
            max_arity < usize::MAX,
            k <= max_arity + 1,
            idents@.len() == max_arity,
            forall|i: int| 0 <= i < max_arity ==> (#[trigger] idents@[i])@ == ident_name(i as nat),
            r@.len() == k,
            forall|j: int|
                0 <= j < k ==> {
                    &&& (#[trigger] r@[j]).tuple.tuple@.len() == j
                    &&& forall|i: int| 0 <= i < j ==> (#[trigger] r@[j].tuple.tuple@[i])@ == ident_name(i as nat)
                    &&& is_bundle(r@[j], r@[j].tuple.tuple@, max_arity as nat)
                },
        decreases max_arity + 1 - k,
    {
        let prefix = copy_range(idents.as_slice(), 0, k);
        let b = impl_traits(prefix.as_slice(), max_arity);
        assert(b.tuple.tuple@ == prefix@);
        r.push(b);
        k = k + 1;
    }
    r
}

/// Each arity reports exactly its number of components.
pub proof fn lemma_arity_reported(bs: Seq<TraitBundle>, max_arity: nat, k: int)
    requires
        is_family(bs, max_arity),
        0 <= k <= max_arity,
    ensures
        bs[k].tuple.arity == k,
        bs[k].tuple.tuple@.len() == k,
{
}

/// The component parameters of a tuple are pairwise distinct.
pub proof fn lemma_parameters_distinct(bs: Seq<TraitBundle>, max_arity: nat, k: int, i: int, j: int)
    requires
        is_family(bs, max_arity),
        0 <= k <= max_arity,
        0 <= i < k,
        0 <= j < k,
        i != j,
    ensures
        bs[k].tuple.tuple@[i] != bs[k].tuple.tuple@[j],
{
    assert(bs[k].tuple.tuple@[i]@ == ident_name(i as nat));
    assert(bs[k].tuple.tuple@[j]@ == ident_name(j as nat));
    lemma_ident_names_distinct(i as nat, j as nat);
}

/// The parameter that growing adds differs from every component parameter.
pub proof fn lemma_grow_param_fresh(bs: Seq<TraitBundle>, max_arity: nat, k: int, i: int)
    requires
        is_family(bs, max_arity),
        0 <= k < max_arity,
        0 <= i < k,
    ensures
        bs[k].growable matches Some(g) && g.param != bs[k].tuple.tuple@[i],
{
    let g = bs[k].growable->0;
    assert(bs[k].tuple.tuple@[i]@ == ident_name(i as nat));
    assert(ident_name(i as nat).len() > g.param@.len()) by {
        reveal_with_fuel(crate::idents::decimal, 2);
        assert(crate::idents::decimal((i + 1) as nat).len() >= 1);
    }
}

/// Truncating the head and prepending it back gives the tuple again; so does
/// truncating the tail and appending it back. The tuple without its tail is
/// the tuple of the arity below, which can grow.
pub proof fn lemma_truncate_round_trip(bs: Seq<TraitBundle>, max_arity: nat, k: int)
    requires
        is_family(bs, max_arity),
        1 <= k <= max_arity,
    ensures
        bs[k].nonempty matches Some(n) && {
            &&& seq![n.head] + n.truncate_head@ == bs[k].tuple.tuple@
            &&& n.truncate_tail@.push(n.tail) == bs[k].tuple.tuple@
            &&& names(n.truncate_tail@) == names(bs[k - 1].tuple.tuple@)
        },
        bs[k - 1].growable matches Some(g) && {
            &&& g.prepend@.skip(1) == bs[k - 1].tuple.tuple@
            &&& g.append@.drop_last() == bs[k - 1].tuple.tuple@
        },
{
    let ids = bs[k].tuple.tuple@;
    let n = bs[k].nonempty->0;
    assert(seq![n.head] + n.truncate_head@ =~= ids);
    assert(n.truncate_tail@.push(n.tail) =~= ids);
    assert(names(n.truncate_tail@) =~= names(bs[k - 1].tuple.tuple@)) by {
        assert forall|i: int| 0 <= i < k - 1 implies names(n.truncate_tail@)[i] == names(bs[k - 1].tuple.tuple@)[i] by {
            assert(bs[k].tuple.tuple@[i]@ == ident_name(i as nat));
            assert(bs[k - 1].tuple.tuple@[i]@ == ident_name(i as nat));
        }
    }
    let g = bs[k - 1].growable->0;
    assert(g.prepend@.skip(1) =~= bs[k - 1].tuple.tuple@);
    assert(g.append@.drop_last() =~= bs[k - 1].tuple.tuple@);
}

/// Joining the prefix of a tuple with the rest gives a tuple whose arity is
/// the sum of the two, and which is the tuple itself.
pub proof fn lemma_join_arity(bs: Seq<TraitBundle>, max_arity: nat, k: int, split: int)
    requires
        is_family(bs, max_arity),
        0 <= k <= max_arity,
        0 <= split <= k,
    ensures
        bs[k].joinable@[split].left@.len() == split,
        bs[k].joinable@[split].right@.len() == k - split,
        bs[k].joinable@[split].join@.len() == bs[k].joinable@[split].left@.len()
            + bs[k].joinable@[split].right@.len(),
        bs[k].joinable@[split].join@ == bs[k].tuple.tuple@,
        names(bs[k].joinable@[split].left@) == names(bs[split].tuple.tuple@),
{
    let ids = bs[k].tuple.tuple@;
    let j = bs[k].joinable@[split];
    assert(is_join_impl(j, ids, split));
    assert(j.join@ =~= ids);
    assert(names(j.left@) =~= names(bs[split].tuple.tuple@)) by {
        assert forall|i: int| 0 <= i < split implies names(j.left@)[i] == names(bs[split].tuple.tuple@)[i] by {
            assert(bs[k].tuple.tuple@[i]@ == ident_name(i as nat));
            assert(bs[split].tuple.tuple@[i]@ == ident_name(i as nat));
        }
    }
}

/// The implementation for position `p` yields the component at `p`.
pub proof fn lemma_index_value(bs: Seq<TraitBundle>, max_arity: nat, k: int, p: int)
    requires
        is_family(bs, max_arity),
        0 <= k <= max_arity,
        0 <= p < k,
    ensures
        bs[k].indexable@[p].index == p,
        bs[k].indexable@[p].value == bs[k].tuple.tuple@[p],
        bs[k].indexable@.len() == k,
{
    assert(is_indexable(bs[k].indexable@, bs[k].tuple.tuple@));
}

/// From arity two on, the joint head and tail are the head and tail of
/// `NonEmptyTuple`, and the middle holds the components at positions one to
/// `k - 2`, so that the head prepended to it and the tail appended to it give
/// the two truncations.
pub proof fn lemma_head_tail_joint(bs: Seq<TraitBundle>, max_arity: nat, k: int)
    requires
        is_family(bs, max_arity),
        2 <= k <= max_arity,
    ensures
        bs[k].nonunary matches Some(u) && bs[k].nonempty matches Some(n) && {
            &&& u.head == n.head
            &&& u.tail == n.tail
            &&& u.tail_index == n.tail_index
            &&& u.truncate_head_tail@.len() == k - 2
            &&& forall|i: int|
                0 <= i < k - 2 ==> #[trigger] u.truncate_head_tail@[i] == bs[k].tuple.tuple@[i + 1]
            &&& seq![u.head] + u.truncate_head_tail@ == n.truncate_tail@
            &&& u.truncate_head_tail@.push(u.tail) == n.truncate_head@
        },
{
    let ids = bs[k].tuple.tuple@;
    let u = bs[k].nonunary->0;
    let n = bs[k].nonempty->0;
    assert(seq![u.head] + u.truncate_head_tail@ =~= n.truncate_tail@);
    assert(u.truncate_head_tail@.push(u.tail) =~= n.truncate_head@);
}

/// The largest arity cannot grow; every smaller one can.
pub proof fn lemma_growth_capped(bs: Seq<TraitBundle>, max_arity: nat, k: int)
    requires
        is_family(bs, max_arity),
        0 <= k <= max_arity,
    ensures
        bs[k].growable is None <==> k == max_arity,
{
}

/// A capability that an arity may be given an implementation of.
pub enum Capability {
    Sealed,
    Dyn,
    Arity,
    Joinable(nat),
    Growable,
    NonEmpty,
    NonUnary,
    Indexable(nat),
    Call(CallKind),
}

/// Whether the bundle `b` implements `c`.
pub open spec fn has_capability(b: TraitBundle, c: Capability) -> bool {
    match c {
        Capability::Sealed => true,
        Capability::Dyn => true,
        Capability::Arity => true,
        Capability::Joinable(split) => split < b.joinable@.len(),
        Capability::Growable => b.growable is Some,
        Capability::NonEmpty => b.nonempty is Some,
        Capability::NonUnary => b.nonunary is Some,
        Capability::Indexable(p) => p < b.indexable@.len(),
        Capability::Call(kind) => exists|j: int| 0 <= j < b.calls@.len() && #[trigger] b.calls@[j].kind == kind,
    }
}

/// The (arity, capability) pairs that the bundles `bs` implement.
pub open spec fn coverage(bs: Seq<TraitBundle>) -> Set<(nat, Capability)> {
    Set::new(|p: (nat, Capability)| p.0 < bs.len() && has_capability(bs[p.0 as int], p.1))
}

/// The pairs that a family of largest arity `max_arity` is meant to implement.
pub open spec fn expected_coverage(max_arity: nat) -> Set<(nat, Capability)> {
    Set::new(
        |p: (nat, Capability)|
            p.0 <= max_arity && match p.1 {
                Capability::Joinable(split) => split <= p.0,
                Capability::Growable => p.0 < max_arity,
                Capability::NonEmpty => p.0 >= 1,
                Capability::NonUnary => p.0 >= 2,
                Capability::Indexable(i) => i < p.0,
                _ => true,
            },
    )
}

/// The position of a call convention among the emitted ones.
pub open spec fn call_position(kind: CallKind) -> int {
    match kind {
        CallKind::ByValue => 0,
        CallKind::ByMut => 1,
        CallKind::ByRef => 2,
        CallKind::AsyncByValue => 3,
        CallKind::AsyncByMut => 4,
        CallKind::AsyncByRef => 5,
    }
}

/// A family covers exactly the expected (arity, capability) pairs.
pub proof fn lemma_coverage(bs: Seq<TraitBundle>, max_arity: nat)
    requires
        is_family(bs, max_arity),
    ensures
        coverage(bs) == expected_coverage(max_arity),
{
    assert forall|p: (nat, Capability)| coverage(bs).contains(p) <==> expected_coverage(max_arity).contains(p) by {
        if p.0 <= max_arity {
            let b = bs[p.0 as int];
            assert(b.tuple.tuple@.len() == p.0);
            if let Capability::Call(kind) = p.1 {
                let j = call_position(kind);
                assert(b.calls@[j].kind == call_kinds()[j]);
                assert(b.calls@[j].kind == kind);
            }
        }
    }
    assert(coverage(bs) =~= expected_coverage(max_arity));
}

/// Planning the family twice for one largest arity gives the same coverage
/// and the same parameter names at every arity.
pub proof fn lemma_generation_deterministic(r1: Seq<TraitBundle>, r2: Seq<TraitBundle>, max_arity: nat)
    requires
        is_family(r1, max_arity),
        is_family(r2, max_arity),
    ensures
        coverage(r1) == coverage(r2),
        r1.len() == r2.len(),
        forall|k: int| 0 <= k < r1.len() ==> names((#[trigger] r1[k]).tuple.tuple@) == names(r2[k].tuple.tuple@),
{
    lemma_coverage(r1, max_arity);
    lemma_coverage(r2, max_arity);
    assert forall|k: int| 0 <= k < r1.len() implies names((#[trigger] r1[k]).tuple.tuple@) == names(r2[k].tuple.tuple@) by {
        assert(r2[k].tuple.tuple@.len() == k);
        assert forall|i: int| 0 <= i < k implies names(r1[k].tuple.tuple@)[i] == names(r2[k].tuple.tuple@)[i] by {
            assert(r1[k].tuple.tuple@[i]@ == ident_name(i as nat));
            assert(r2[k].tuple.tuple@[i]@ == ident_name(i as nat));
        }
        assert(names(r1[k].tuple.tuple@) =~= names(r2[k].tuple.tuple@));
    }
}

} // verus!
