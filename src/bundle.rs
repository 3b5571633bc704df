//! The plan of the trait implementations that make a tuple of one arity a
//! member of every capability of the family, and the functions that draw it up.
use vstd::prelude::*;

verus! {

/// The name of the extra type parameter that growing a tuple adds.
pub open spec fn grow_param_name() -> Seq<char> {
    seq!['T']
}

/// The sealing, `DynTuple` and `Tuple` implementations of a tuple: they carry
/// its component parameters and its arity.
pub struct TupleImpl {
    pub tuple: Vec<String>,
    pub arity: usize,
}

/// A `JoinableTuple` implementation: the tuple `left` joined with `right`
/// gives `join`.
pub struct JoinImpl {
    pub left: Vec<String>,
    pub right: Vec<String>,
    pub join: Vec<String>,
}

/// A `GrowableTuple` implementation: `param` is the parameter of the new
/// element, `append` and `prepend` the grown tuples.
pub struct GrowImpl {
    pub param: String,
    pub append: Vec<String>,
    pub prepend: Vec<String>,
}

/// A `NonEmptyTuple` implementation.
pub struct NonEmptyImpl {
    pub head: String,
    pub tail: String,
    pub tail_index: usize,
    pub truncate_head: Vec<String>,
    pub truncate_tail: Vec<String>,
}

/// A `NonUnaryTuple` implementation.
pub struct NonUnaryImpl {
    pub head: String,
    pub tail: String,
    pub tail_index: usize,
    pub truncate_head_tail: Vec<String>,
}

/// An `IndexableTuple` implementation for one position.
pub struct IndexImpl {
    pub index: usize,
    pub value: String,
}

/// The call conventions that a tuple can stand as the argument list of.
#[derive(Clone, Copy, PartialEq, Eq, Debug)]
pub enum CallKind {
    ByValue,
    ByMut,
    ByRef,
    AsyncByValue,
    AsyncByMut,
    AsyncByRef,
}

/// A call-forwarding implementation: a callable of `kind` taking the
/// components of `args` is callable with the tuple `args`.
pub struct CallImpl {
    pub kind: CallKind,
    pub args: Vec<String>,
}

/// Every implementation that one arity receives.
pub struct TraitBundle {
    pub tuple: TupleImpl,
    pub joinable: Vec<JoinImpl>,
    pub growable: Option<GrowImpl>,
    pub nonempty: Option<NonEmptyImpl>,
    pub nonunary: Option<NonUnaryImpl>,
    pub indexable: Vec<IndexImpl>,
    pub calls: Vec<CallImpl>,
}

pub open spec fn is_tuple_impl(t: TupleImpl, ids: Seq<String>) -> bool {
    &&& t.tuple@ == ids
    &&& t.arity == ids.len()
}

pub open spec fn is_join_impl(j: JoinImpl, ids: Seq<String>, split: int) -> bool {
    &&& j.left@ == ids.take(split)
    &&& j.right@ == ids.skip(split)
    &&& j.join@ == j.left@ + j.right@
}

pub open spec fn is_joinable(js: Seq<JoinImpl>, ids: Seq<String>) -> bool {
    &&& js.len() == ids.len() + 1
    &&& forall|s: int| 0 <= s <= ids.len() ==> is_join_impl(#[trigger] js[s], ids, s)
}

pub open spec fn is_grow_impl(g: GrowImpl, ids: Seq<String>) -> bool {
    &&& g.param@ == grow_param_name()
    &&& g.append@ == ids.push(g.param)
    &&& g.prepend@ == seq![g.param] + ids
}

pub open spec fn is_nonempty_impl(n: NonEmptyImpl, ids: Seq<String>) -> bool {
    &&& ids.len() >= 1
    &&& n.head == ids[0]
    &&& n.tail == ids.last()
    &&& n.tail_index == ids.len() - 1
    &&& n.truncate_head@ == ids.skip(1)
    &&& n.truncate_tail@ == ids.drop_last()
}

pub open spec fn is_nonunary_impl(u: NonUnaryImpl, ids: Seq<String>) -> bool {
    &&& ids.len() >= 2
    &&& u.head == ids[0]
    &&& u.tail == ids.last()
    &&& u.tail_index == ids.len() - 1
    &&& u.truncate_head_tail@ == ids.subrange(1, ids.len() - 1)
}

pub open spec fn is_indexable(xs: Seq<IndexImpl>, ids: Seq<String>) -> bool {
    &&& xs.len() == ids.len()
    &&& forall|i: int| 0 <= i < ids.len() ==> (#[trigger] xs[i]).index == i && xs[i].value == ids[i]
}

/// The call conventions, in the order in which they are emitted.
pub open spec fn call_kinds() -> Seq<CallKind> {
    seq![
        CallKind::ByValue,
        CallKind::ByMut,
        CallKind::ByRef,
        CallKind::AsyncByValue,
        CallKind::AsyncByMut,
        CallKind::AsyncByRef,
    ]
}

pub open spec fn is_calls(cs: Seq<CallImpl>, ids: Seq<String>) -> bool {
    &&& cs.len() == call_kinds().len()
    &&& forall|k: int| 0 <= k < cs.len() ==> (#[trigger] cs[k]).kind == call_kinds()[k] && cs[k].args@ == ids
}

/// `b` is the bundle of the tuple whose component parameters are `ids`, in a
/// family whose largest arity is `max_arity`.
pub open spec fn is_bundle(b: TraitBundle, ids: Seq<String>, max_arity: nat) -> bool {
    &&& is_tuple_impl(b.tuple, ids)
    &&& is_joinable(b.joinable@, ids)
    &&& (b.growable is Some <==> ids.len() < max_arity)
    &&& (b.growable matches Some(g) ==> is_grow_impl(g, ids))
    &&& (b.nonempty is Some <==> ids.len() >= 1)
    &&& (b.nonempty matches Some(n) ==> is_nonempty_impl(n, ids))
    &&& (b.nonunary is Some <==> ids.len() >= 2)
    &&& (b.nonunary matches Some(u) ==> is_nonunary_impl(u, ids))
    &&& is_indexable(b.indexable@, ids)
    &&& is_calls(b.calls@, ids)
}

/// Copies `ids[lo..hi]`.
pub(crate) fn copy_range(ids: &[String], lo: usize, hi: usize) -> (r: Vec<String>)
    requires
        lo <= hi <= ids@.len(),
    ensures
        r@ == ids@.subrange(lo as int, hi as int),
{
    let mut r: Vec<String> = Vec::new();
    let mut i: usize = lo;
    while i < hi
        invariant
            lo <= i <= hi <= ids@.len(),
            r@ == ids@.subrange(lo as int, i as int),
        decreases hi - i,
    {
        r.push(ids[i].clone());
        i = i + 1;
        assert(r@ =~= ids@.subrange(lo as int, i as int));
    }
    r
}

/// Records the arity of the tuple whose component parameters are `idents`.
pub fn impl_tuple(idents: &[String]) -> (r: TupleImpl)
    ensures
        is_tuple_impl(r, idents@),
{
    let tuple = copy_range(idents, 0, idents.len());
    assert(tuple@ =~= idents@);
    TupleImpl { tuple, arity: idents.len() }
}

/// One `JoinableTuple` implementation per split point of `idents`: the
/// prefix joined with the suffix.
pub fn impl_joinable(idents: &[String]) -> (r: Vec<JoinImpl>)
    ensures
        is_joinable(r@, idents@),
{
    let n = idents.len();
    let mut r: Vec<JoinImpl> = Vec::new();
    let mut split: usize = 0;
    loop
        invariant_except_break
            r@.len() == split,
            forall|s: int| 0 <= s < split ==> is_join_impl(#[trigger] r@[s], idents@, s),
        invariant
            n == idents@.len(),
            split <= n,
        ensures
            is_joinable(r@, idents@),
        decreases n - split,
    {
        let left = copy_range(idents, 0, split);
        let right = copy_range(idents, split, n);
        let join = copy_range(idents, 0, n);
        assert(join@ =~= left@ + right@);
        assert(left@ =~= idents@.take(split as int));
        assert(right@ =~= idents@.skip(split as int));
        r.push(JoinImpl { left, right, join });
        if split == n {
            break;
        }
        split = split + 1;
    }
    r
}

/// The `GrowableTuple` implementation of `idents`, absent at the largest
/// arity: such a tuple cannot grow.
pub fn impl_growable(idents: &[String], max_arity: usize) -> (r: Option<GrowImpl>)
    ensures
        r is Some <==> idents@.len() < max_arity,
        r matches Some(g) ==> is_grow_impl(g, idents@),
{
    if idents.len() >= max_arity {
        None
    } else {
        proof {
            reveal_strlit("T");
        }
        let mut param = String::new();
        param.append("T");
        assert(param@ =~= grow_param_name());
        let mut append = copy_range(idents, 0, idents.len());
        append.push(param.clone());
        let mut prepend: Vec<String> = Vec::new();
        prepend.push(param.clone());
        let mut i: usize = 0;
        while i < idents.len()
            invariant
                i <= idents@.len(),
                prepend@ == seq![param] + idents@.take(i as int),
            decreases idents@.len() - i,
        {
            prepend.push(idents[i].clone());
            i = i + 1;
            assert(prepend@ =~= seq![param] + idents@.take(i as int));
        }
        assert(append@ =~= idents@.push(param));
        assert(idents@.take(i as int) =~= idents@);
        Some(GrowImpl { param, append, prepend })
    }
}

/// The `NonEmptyTuple` implementation of `idents`, absent for the empty tuple.
pub fn impl_nonempty(idents: &[String]) -> (r: Option<NonEmptyImpl>)
    ensures
        r is Some <==> idents@.len() >= 1,
        r matches Some(n) ==> is_nonempty_impl(n, idents@),
{
    let n = idents.len();
    if n == 0 {
        None
    } else {
        let truncate_head = copy_range(idents, 1, n);
        let truncate_tail = copy_range(idents, 0, n - 1);
        Some(
            NonEmptyImpl {
                head: idents[0].clone(),
                tail: idents[n - 1].clone(),
                tail_index: n - 1,
                truncate_head,
                truncate_tail,
            },
        )
    }
}

/// The `NonUnaryTuple` implementation of `idents`, present from arity two on.
pub fn impl_nonunary(idents: &[String]) -> (r: Option<NonUnaryImpl>)
    ensures
        r is Some <==> idents@.len() >= 2,
        r matches Some(u) ==> is_nonunary_impl(u, idents@),
{
    let n = idents.len();
    if n < 2 {
        None
    } else {
        let truncate_head_tail = copy_range(idents, 1, n - 1);
        Some(
            NonUnaryImpl {
                head: idents[0].clone(),
                tail: idents[n - 1].clone(),
                tail_index: n - 1,
                truncate_head_tail,
            },
        )
    }
}

/// One `IndexableTuple` implementation per position of `idents`.
pub fn impl_indexable(idents: &[String]) -> (r: Vec<IndexImpl>)
    ensures
        is_indexable(r@, idents@),
{
    let mut r: Vec<IndexImpl> = Vec::new();
    let mut i: usize = 0;
    while i < idents.len()
        invariant
            i <= idents@.len(),
            r@.len() == i,
            forall|k: int| 0 <= k < i ==> (#[trigger] r@[k]).index == k && r@[k].value == idents@[k],
        decreases idents@.len() - i,
    {
        r.push(IndexImpl { index: i, value: idents[i].clone() });
        i = i + 1;
    }
    r
}

/// One call-forwarding implementation per call convention, each taking the
/// components of `idents` as its arguments.
pub fn impl_fns(idents: &[String]) -> (r: Vec<CallImpl>)
    ensures
        is_calls(r@, idents@),
{
    let kinds: Vec<CallKind> = vec![
        CallKind::ByValue,
        CallKind::ByMut,
        CallKind::ByRef,
        CallKind::AsyncByValue,
        CallKind::AsyncByMut,
        CallKind::AsyncByRef,
    ];
    assert(kinds@ =~= call_kinds());
    let mut r: Vec<CallImpl> = Vec::new();
    let mut k: usize = 0;
    while k < kinds.len()
        invariant
            kinds@ == call_kinds(),
            k <= kinds@.len(),
            r@.len() == k,
            forall|j: int| 0 <= j < k ==> (#[trigger] r@[j]).kind == call_kinds()[j] && r@[j].args@ == idents@,
        decreases kinds@.len() - k,
    {
        let args = copy_range(idents, 0, idents.len());
        assert(args@ =~= idents@);
        r.push(CallImpl { kind: kinds[k], args });
        k = k + 1;
    }
    r
}

/// The whole bundle of the tuple whose component parameters are `idents`.
pub fn impl_traits(idents: &[String], max_arity: usize) -> (r: TraitBundle)
    ensures
        is_bundle(r, idents@, max_arity as nat),
{
    TraitBundle {
        tuple: impl_tuple(idents),
        joinable: impl_joinable(idents),
        growable: impl_growable(idents, max_arity),
        nonempty: impl_nonempty(idents),
        nonunary: impl_nonunary(idents),
        indexable: impl_indexable(idents),
        calls: impl_fns(idents),
    }
}

} // verus!
