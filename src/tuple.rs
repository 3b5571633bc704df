//! The traits that give tuples of every supported arity one vocabulary:
//! arity, growth, head and tail, joining and indexing.
use vstd::prelude::*;
use crate::seal::Sealed;

verus! {

/// Tuples of unknown size. Implemented for tuples of arity 0 to 32.
pub trait DynTuple: Sealed {
    /// The number of components.
    spec fn spec_arity(&self) -> nat;

    /// The arity (or length) of this tuple.
    fn arity(&self) -> (r: usize)
        ensures
            r == self.spec_arity(),
    ;

    /// Whether this tuple is the unit tuple.
    fn is_unit(&self) -> (r: bool)
        ensures
            r == (self.spec_arity() == 0),
    {
        self.arity() == 0
    }
}

/// Tuples with a known size. Implemented for tuples of arity 0 to 32.
pub trait Tuple: DynTuple + Sized {
    /// The arity (or length) of this tuple type.
    const ARITY: usize;

    /// The arity of this tuple type.
    spec fn spec_type_arity() -> nat;

    proof fn lemma_arity(&self)
        ensures
            Self::ARITY == Self::spec_type_arity(),
            self.spec_arity() == Self::spec_type_arity(),
    ;

    proof fn lemma_type_arity()
        ensures
            Self::ARITY == Self::spec_type_arity(),
    ;
}

/// Whether the tuple type `T` is the unit tuple.
pub fn is_unit<T: Tuple>() -> (r: bool)
    ensures
        r == (T::spec_type_arity() == 0),
{
    proof {
        T::lemma_type_arity();
    }
    T::ARITY == 0
}

/// Tuples that can be joined with a tuple of type `T`. Implemented for every
/// pair of tuples whose arities add up to at most 32.
pub trait JoinableTuple<T: Tuple>: Tuple {
    /// This tuple followed by the components of `T`.
    type Join: Tuple;

    spec fn spec_join(self, other: T) -> Self::Join;

    /// Joins this tuple with another tuple.
    fn join(self, other: T) -> (r: Self::Join)
        ensures
            r == self.spec_join(other),
    ;

    proof fn lemma_join_arity(self, other: T)
        ensures
            <Self::Join as Tuple>::spec_type_arity() == Self::spec_type_arity() + T::spec_type_arity(),
    ;
}

/// Tuples that can grow by one element of type `T`. Implemented for tuples of
/// arity 0 to 31: a tuple of the largest arity cannot grow.
pub trait GrowableTuple<T>: Tuple {
    /// This tuple with an extra element `T` after its components.
    type Append: Tuple;

    /// This tuple with an extra element `T` before its components.
    type Prepend: Tuple;

    spec fn spec_append(self, value: T) -> Self::Append;

    spec fn spec_prepend(self, value: T) -> Self::Prepend;

    /// Consumes this tuple and appends a value to it.
    fn append(self, value: T) -> (r: Self::Append)
        ensures
            r == self.spec_append(value),
    ;

    /// Consumes this tuple and prepends a value to it.
    fn prepend(self, value: T) -> (r: Self::Prepend)
        ensures
            r == self.spec_prepend(value),
    ;

    proof fn lemma_grow_arity(self, value: T)
        ensures
            <Self::Append as Tuple>::spec_type_arity() == Self::spec_type_arity() + 1,
            <Self::Prepend as Tuple>::spec_type_arity() == Self::spec_type_arity() + 1,
    ;
}

/// Tuples that are not empty. Implemented for tuples of arity 1 to 32.
pub trait NonEmptyTuple: Tuple {
    /// The first element of this tuple.
    type Head;

    /// The last element of this tuple.
    type Tail;

    /// This tuple without its head.
    type TruncateHead: GrowableTuple<Self::Head, Prepend = Self>;

    /// This tuple without its tail.
    type TruncateTail: GrowableTuple<Self::Tail, Append = Self>;

    spec fn spec_head(&self) -> Self::Head;

    spec fn spec_tail(&self) -> Self::Tail;

    /// This tuple with its head replaced by `value`.
    spec fn spec_with_head(self, value: Self::Head) -> Self;

    /// This tuple with its tail replaced by `value`.
    spec fn spec_with_tail(self, value: Self::Tail) -> Self;

    spec fn spec_truncate_head(self) -> (Self::Head, Self::TruncateHead);

    spec fn spec_truncate_tail(self) -> (Self::TruncateTail, Self::Tail);

    /// Returns a reference to the head of this tuple.
    fn head(&self) -> (r: &Self::Head)
        ensures
            *r == self.spec_head(),
    ;

    /// Returns a mutable reference to the head of this tuple.
    fn head_mut(&mut self) -> (r: &mut Self::Head)
        ensures
            *r == old(self).spec_head(),
            *final(self) == old(self).spec_with_head(*final(r)),
    ;

    /// Returns a reference to the tail of this tuple.
    fn tail(&self) -> (r: &Self::Tail)
        ensures
            *r == self.spec_tail(),
    ;

    /// Returns a mutable reference to the tail of this tuple.
    fn tail_mut(&mut self) -> (r: &mut Self::Tail)
        ensures
            *r == old(self).spec_tail(),
            *final(self) == old(self).spec_with_tail(*final(r)),
    ;

    /// Consumes this tuple and splits its head from the remaining elements.
    fn truncate_head(self) -> (r: (Self::Head, Self::TruncateHead))
        ensures
            r == self.spec_truncate_head(),
    ;

    /// Consumes this tuple and splits its tail from the remaining elements.
    fn truncate_tail(self) -> (r: (Self::TruncateTail, Self::Tail))
        ensures
            r == self.spec_truncate_tail(),
    ;

    proof fn lemma_truncate_head(self)
        ensures
            self.spec_truncate_head().0 == self.spec_head(),
            self.spec_truncate_head().1.spec_prepend(self.spec_truncate_head().0) == self,
            <Self::TruncateHead as Tuple>::spec_type_arity() + 1 == Self::spec_type_arity(),
    ;

    proof fn lemma_truncate_tail(self)
        ensures
            self.spec_truncate_tail().1 == self.spec_tail(),
            self.spec_truncate_tail().0.spec_append(self.spec_truncate_tail().1) == self,
            <Self::TruncateTail as Tuple>::spec_type_arity() + 1 == Self::spec_type_arity(),
    ;
}

/// Tuples that are neither empty nor unary. Implemented for tuples of arity 2
/// to 32.
pub trait NonUnaryTuple: NonEmptyTuple {
    /// This tuple without its head and its tail.
    type TruncateHeadTail: GrowableTuple<Self::Head, Prepend = Self::TruncateTail> + GrowableTuple<
        Self::Tail,
        Append = Self::TruncateHead,
    >;

    spec fn spec_truncate_head_tail(self) -> (Self::Head, Self::TruncateHeadTail, Self::Tail);

    /// Returns references to the head and the tail of this tuple.
    fn head_tail(&self) -> (r: (&Self::Head, &Self::Tail))
        ensures
            *r.0 == self.spec_head(),
            *r.1 == self.spec_tail(),
    ;

    /// Returns mutable references to the head and the tail of this tuple.
    fn head_tail_mut(&mut self) -> (r: (&mut Self::Head, &mut Self::Tail))
        ensures
            *r.0 == old(self).spec_head(),
            *r.1 == old(self).spec_tail(),
            *final(self) == old(self).spec_with_head(*final(r.0)).spec_with_tail(*final(r.1)),
    ;

    /// Consumes this tuple and splits its head and its tail from the
    /// remaining elements.
    fn truncate_head_tail(self) -> (r: (Self::Head, Self::TruncateHeadTail, Self::Tail))
        ensures
            r == self.spec_truncate_head_tail(),
    ;

    proof fn lemma_truncate_head_tail(self)
        ensures
            self.spec_truncate_head_tail().0 == self.spec_head(),
            self.spec_truncate_head_tail().2 == self.spec_tail(),
            <Self::TruncateHeadTail as GrowableTuple<Self::Head>>::spec_prepend(
                self.spec_truncate_head_tail().1,
                self.spec_head(),
            ) == self.spec_truncate_tail().0,
            <Self::TruncateHeadTail as GrowableTuple<Self::Tail>>::spec_append(
                self.spec_truncate_head_tail().1,
                self.spec_tail(),
            ) == self.spec_truncate_head().1,
            <Self::TruncateHeadTail as Tuple>::spec_type_arity() + 2 == Self::spec_type_arity(),
    ;
}

/// The type of the component at position `INDEX` of the tuple type `T`.
pub type TupleIndex<T, const INDEX: usize> = <T as IndexableTuple<INDEX>>::Value;

/// Tuples whose component at position `INDEX` can be reached. Implemented for
/// every position of the tuples of arity 1 to 32.
pub trait IndexableTuple<const INDEX: usize>: NonEmptyTuple {
    /// The type of the component at `INDEX`.
    type Value;

    spec fn spec_index(&self) -> Self::Value;

    /// This tuple with its component at `INDEX` replaced by `value`.
    spec fn spec_with_index(self, value: Self::Value) -> Self;

    /// Returns a reference to the component at `INDEX`.
    fn index_ref(&self) -> (r: &Self::Value)
        ensures
            *r == self.spec_index(),
    ;

    /// Returns a mutable reference to the component at `INDEX`.
    fn index_mut(&mut self) -> (r: &mut Self::Value)
        ensures
            *r == old(self).spec_index(),
            *final(self) == old(self).spec_with_index(*final(r)),
    ;

    /// Consumes this tuple and returns the component at `INDEX`.
    fn into_index(self) -> (r: Self::Value)
        ensures
            r == self.spec_index(),
    ;

    proof fn lemma_index_in_range(&self)
        ensures
            INDEX < Self::spec_type_arity(),
    ;
}

/// A tuple's arity at run time is the arity of its type.
pub proof fn lemma_arity_reported<U: Tuple>(t: U)
    ensures
        t.spec_arity() == U::spec_type_arity(),
        U::ARITY == U::spec_type_arity(),
{
    t.lemma_arity();
}

/// Truncating the head and prepending it again gives back the tuple; so does
/// truncating the tail and appending it again. Either truncation leaves one
/// component fewer.
pub proof fn lemma_truncate_round_trip<U: NonEmptyTuple>(t: U)
    ensures
        t.spec_truncate_head().0 == t.spec_head(),
        t.spec_truncate_head().1.spec_prepend(t.spec_truncate_head().0) == t,
        t.spec_truncate_tail().1 == t.spec_tail(),
        t.spec_truncate_tail().0.spec_append(t.spec_truncate_tail().1) == t,
        <U::TruncateHead as Tuple>::spec_type_arity() + 1 == U::spec_type_arity(),
        <U::TruncateTail as Tuple>::spec_type_arity() + 1 == U::spec_type_arity(),
{
    t.lemma_truncate_head();
    t.lemma_truncate_tail();
}

/// Joining a tuple of arity `a` with one of arity `b` gives one of arity
/// `a + b`.
pub proof fn lemma_join_arity<U: JoinableTuple<V>, V: Tuple>(u: U, v: V)
    ensures
        <U::Join as Tuple>::spec_type_arity() == U::spec_type_arity() + V::spec_type_arity(),
        u.spec_join(v).spec_arity() == U::spec_type_arity() + V::spec_type_arity(),
{
    u.lemma_join_arity(v);
    u.spec_join(v).lemma_arity();
}

/// The joint head and tail are the separate head and tail, and the middle
/// is one tuple that gives the truncations when the head is prepended to it
/// or the tail appended to it, with two components fewer than the tuple.
pub proof fn lemma_head_tail_joint<U: NonUnaryTuple>(t: U)
    ensures
        t.spec_truncate_head_tail().0 == t.spec_head(),
        t.spec_truncate_head_tail().2 == t.spec_tail(),
        <U::TruncateHeadTail as GrowableTuple<U::Head>>::spec_prepend(
            t.spec_truncate_head_tail().1,
            t.spec_head(),
        ) == t.spec_truncate_tail().0,
        <U::TruncateHeadTail as GrowableTuple<U::Tail>>::spec_append(
            t.spec_truncate_head_tail().1,
            t.spec_tail(),
        ) == t.spec_truncate_head().1,
        <U::TruncateHeadTail as Tuple>::spec_type_arity() + 2 == U::spec_type_arity(),
{
    t.lemma_truncate_head_tail();
}

/// Growing a tuple adds one component at either end.
pub proof fn lemma_grow_arity<U: GrowableTuple<V>, V>(t: U, value: V)
    ensures
        <U::Append as Tuple>::spec_type_arity() == U::spec_type_arity() + 1,
        <U::Prepend as Tuple>::spec_type_arity() == U::spec_type_arity() + 1,
{
    t.lemma_grow_arity(value);
}

} // verus!
