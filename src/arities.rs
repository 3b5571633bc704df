//! The tuple traits implemented on Rust's tuples of arity 0 to 32
//! (`family::MAX_ARITY`), arity by arity: each arity is sealed and carries its
//! arity; every arity below 32 can grow, so that a tuple of arity 32 has no
//! `append` or `prepend`; every non-empty arity has a head and a tail, and
//! every position an index; from arity two on, head and tail can be taken
//! together; and each pair of arities whose sum is at most 32 can be joined.
use vstd::prelude::*;
use crate::seal::Sealed;
use crate::tuple::{
    DynTuple, GrowableTuple, IndexableTuple, JoinableTuple, NonEmptyTuple, NonUnaryTuple, Tuple,
};

verus! {

impl Sealed for () {}

impl DynTuple for () {
    open spec fn spec_arity(&self) -> nat {
        0
    }

    fn arity(&self) -> (r: usize) {
        0
    }
}

impl Tuple for () {
    const ARITY: usize = 0;

    open spec fn spec_type_arity() -> nat {
        0
    }

    proof fn lemma_arity(&self) {
    }

    proof fn lemma_type_arity() {
    }
}

impl<T> GrowableTuple<T> for () {
    type Append = (T,);

    type Prepend = (T,);

    open spec fn spec_append(self, value: T) -> (T,) {
        (value,)
    }

    open spec fn spec_prepend(self, value: T) -> (T,) {
        (value,)
    }

    fn append(self, value: T) -> (r: (T,)) {
        (value,)
    }

    fn prepend(self, value: T) -> (r: (T,)) {
        (value,)
    }

    proof fn lemma_grow_arity(self, value: T) {
    }
}

impl JoinableTuple<()> for () {
    type Join = ();

    open spec fn spec_join(self, other: ()) -> () {
        ()
    }

    fn join(self, other: ()) -> (r: ()) {
        ()
    }

    proof fn lemma_join_arity(self, other: ()) {
    }
}

impl<T1> Sealed for (T1,) {}

impl<T1> DynTuple for (T1,) {
    open spec fn spec_arity(&self) -> nat {
        1
    }

    fn arity(&self) -> (r: usize) {
        1
    }
}

impl<T1> Tuple for (T1,) {
    const ARITY: usize = 1;

    open spec fn spec_type_arity() -> nat {
        1
    }

    proof fn lemma_arity(&self) {
    }

    proof fn lemma_type_arity() {
    }
}

impl<T1, T> GrowableTuple<T> for (T1,) {
    type Append = (T1, T);

    type Prepend = (T, T1);

    open spec fn spec_append(self, value: T) -> (T1, T) {
        (self.0, value)
    }

    open spec fn spec_prepend(self, value: T) -> (T, T1) {
        (value, self.0)
    }

    fn append(self, value: T) -> (r: (T1, T)) {
        (self.0, value)
    }

    fn prepend(self, value: T) -> (r: (T, T1)) {
        (value, self.0)
    }

    proof fn lemma_grow_arity(self, value: T) {
    }
}

impl<T1> NonEmptyTuple for (T1,) {
    type Head = T1;

    type Tail = T1;

    type TruncateHead = ();

    type TruncateTail = ();

    open spec fn spec_head(&self) -> T1 {
        self.0
    }

    open spec fn spec_tail(&self) -> T1 {
        self.0
    }

    open spec fn spec_with_head(self, value: T1) -> (T1,) {
        (value,)
    }

    open spec fn spec_with_tail(self, value: T1) -> (T1,) {
        (value,)
    }

    open spec fn spec_truncate_head(self) -> (T1, ()) {
        (self.0, ())
    }

    open spec fn spec_truncate_tail(self) -> ((), T1) {
        ((), self.0)
    }

    fn head(&self) -> (r: &T1) {
        &self.0
    }

    fn head_mut(&mut self) -> (r: &mut T1) {
        &mut self.0
    }

    fn tail(&self) -> (r: &T1) {
        &self.0
    }

    fn tail_mut(&mut self) -> (r: &mut T1) {
        &mut self.0
    }

    fn truncate_head(self) -> (r: (T1, ())) {
        (self.0, ())
    }

    fn truncate_tail(self) -> (r: ((), T1)) {
        ((), self.0)
    }

    proof fn lemma_truncate_head(self) {
    }

    proof fn lemma_truncate_tail(self) {
    }
}

impl<T1> IndexableTuple<0> for (T1,) {
    type Value = T1;

    open spec fn spec_index(&self) -> T1 {
        self.0
    }

    open spec fn spec_with_index(self, value: T1) -> (T1,) {
        (value,)
    }

    fn index_ref(&self) -> (r: &T1) {
        &self.0
    }

    fn index_mut(&mut self) -> (r: &mut T1) {
        &mut self.0
    }

    fn into_index(self) -> (r: T1) {
        self.0
    }

    proof fn lemma_index_in_range(&self) {
    }
}

impl<T1> JoinableTuple<(T1,)> for () {
    type Join = (T1,);

    open spec fn spec_join(self, other: (T1,)) -> (T1,) {
        (other.0,)
    }

    fn join(self, other: (T1,)) -> (r: (T1,)) {
        (other.0,)
    }

    proof fn lemma_join_arity(self, other: (T1,)) {
    }
}

impl<T1> JoinableTuple<()> for (T1,) {
    type Join = (T1,);

    open spec fn spec_join(self, other: ()) -> (T1,) {
        (self.0,)
    }

    fn join(self, other: ()) -> (r: (T1,)) {
        (self.0,)
    }

    proof fn lemma_join_arity(self, other: ()) {
    }
}

impl<T1, T2> Sealed for (T1, T2) {}

impl<T1, T2> DynTuple for (T1, T2) {
    open spec fn spec_arity(&self) -> nat {
        2
    }

    fn arity(&self) -> (r: usize) {
        2
    }
}

impl<T1, T2> Tuple for (T1, T2) {
    const ARITY: usize = 2;

    open spec fn spec_type_arity() -> nat {
        2
    }

    proof fn lemma_arity(&self) {
    }

    proof fn lemma_type_arity() {
    }
}

impl<T1, T2, T> GrowableTuple<T> for (T1, T2) {
    type Append = (T1, T2, T);

    type Prepend = (T, T1, T2);

    open spec fn spec_append(self, value: T) -> (T1, T2, T) {
        (self.0, self.1, value)
    }

    open spec fn spec_prepend(self, value: T) -> (T, T1, T2) {
        (value, self.0, self.1)
    }

    fn append(self, value: T) -> (r: (T1, T2, T)) {
        (self.0, self.1, value)
    }

    fn prepend(self, value: T) -> (r: (T, T1, T2)) {
        (value, self.0, self.1)
    }

    proof fn lemma_grow_arity(self, value: T) {
    }
}

impl<T1, T2> NonEmptyTuple for (T1, T2) {
    type Head = T1;

    type Tail = T2;

    type TruncateHead = (T2,);

    type TruncateTail = (T1,);

    open spec fn spec_head(&self) -> T1 {
        self.0
    }

    open spec fn spec_tail(&self) -> T2 {
        self.1
    }

    open spec fn spec_with_head(self, value: T1) -> (T1, T2) {
        (value, self.1)
    }

    open spec fn spec_with_tail(self, value: T2) -> (T1, T2) {
        (self.0, value)
    }

    open spec fn spec_truncate_head(self) -> (T1, (T2,)) {
        (self.0, (self.1,))
    }

    open spec fn spec_truncate_tail(self) -> ((T1,), T2) {
        ((self.0,), self.1)
    }

    fn head(&self) -> (r: &T1) {
        &self.0
    }

    fn head_mut(&mut self) -> (r: &mut T1) {
        &mut self.0
    }

    fn tail(&self) -> (r: &T2) {
        &self.1
    }

    fn tail_mut(&mut self) -> (r: &mut T2) {
        &mut self.1
    }

    fn truncate_head(self) -> (r: (T1, (T2,))) {
        (self.0, (self.1,))
    }

    fn truncate_tail(self) -> (r: ((T1,), T2)) {
        ((self.0,), self.1)
    }

    proof fn lemma_truncate_head(self) {
    }

    proof fn lemma_truncate_tail(self) {
    }
}

impl<T1, T2> NonUnaryTuple for (T1, T2) {
    type TruncateHeadTail = ();

    open spec fn spec_truncate_head_tail(self) -> (T1, (), T2) {
        (self.0, (), self.1)
    }

    fn head_tail(&self) -> (r: (&T1, &T2)) {
        (&self.0, &self.1)
    }

    fn head_tail_mut(&mut self) -> (r: (&mut T1, &mut T2)) {
        (&mut self.0, &mut self.1)
    }

    fn truncate_head_tail(self) -> (r: (T1, (), T2)) {
        (self.0, (), self.1)
    }

    proof fn lemma_truncate_head_tail(self) {
    }
}

impl<T1, T2> IndexableTuple<0> for (T1, T2) {
    type Value = T1;

    open spec fn spec_index(&self) -> T1 {
        self.0
    }

    open spec fn spec_with_index(self, value: T1) -> (T1, T2) {
        (value, self.1)
    }

    fn index_ref(&self) -> (r: &T1) {
        &self.0
    }

    fn index_mut(&mut self) -> (r: &mut T1) {
        &mut self.0
    }

    fn into_index(self) -> (r: T1) {
        self.0
    }

    proof fn lemma_index_in_range(&self) {
    }
}

impl<T1, T2> IndexableTuple<1> for (T1, T2) {
    type Value = T2;

    open spec fn spec_index(&self) -> T2 {
        self.1
    }

    open spec fn spec_with_index(self, value: T2) -> (T1, T2) {
        (self.0, value)
    }

    fn index_ref(&self) -> (r: &T2) {
        &self.1
    }

    fn index_mut(&mut self) -> (r: &mut T2) {
        &mut self.1
    }

    fn into_index(self) -> (r: T2) {
        self.1
    }

    proof fn lemma_index_in_range(&self) {
    }
}

impl<T1, T2> JoinableTuple<(T1, T2)> for () {
    type Join = (T1, T2);

    open spec fn spec_join(self, other: (T1, T2)) -> (T1, T2) {
        (other.0, other.1)
    }

    fn join(self, other: (T1, T2)) -> (r: (T1, T2)) {
        (other.0, other.1)
    }

    proof fn lemma_join_arity(self, other: (T1, T2)) {
    }
}

impl<T1, T2> JoinableTuple<(T2,)> for (T1,) {
    type Join = (T1, T2);

    open spec fn spec_join(self, other: (T2,)) -> (T1, T2) {
        (self.0, other.0)
    }

    fn join(self, other: (T2,)) -> (r: (T1, T2)) {
        (self.0, other.0)
    }

    proof fn lemma_join_arity(self, other: (T2,)) {
    }
}

impl<T1, T2> JoinableTuple<()> for (T1, T2) {
    type Join = (T1, T2);

    open spec fn spec_join(self, other: ()) -> (T1, T2) {
        (self.0, self.1)
    }

    fn join(self, other: ()) -> (r: (T1, T2)) {
        (self.0, self.1)
    }

    proof fn lemma_join_arity(self, other: ()) {
    }
}

impl<T1, T2, T3> Sealed for (T1, T2, T3) {}

impl<T1, T2, T3> DynTuple for (T1, T2, T3) {
    open spec fn spec_arity(&self) -> nat {
        3
    }

    fn arity(&self) -> (r: usize) {
        3
    }
}

impl<T1, T2, T3> Tuple for (T1, T2, T3) {
    const ARITY: usize = 3;

    open spec fn spec_type_arity() -> nat {
        3
    }

    proof fn lemma_arity(&self) {
    }

    proof fn lemma_type_arity() {
    }
}

impl<T1, T2, T3, T> GrowableTuple<T> for (T1, T2, T3) {
    type Append = (T1, T2, T3, T);

    type Prepend = (T, T1, T2, T3);

    open spec fn spec_append(self, value: T) -> (T1, T2, T3, T) {
        (self.0, self.1, self.2, value)
    }

    open spec fn spec_prepend(self, value: T) -> (T, T1, T2, T3) {
        (value, self.0, self.1, self.2)
    }

    fn append(self, value: T) -> (r: (T1, T2, T3, T)) {
        (self.0, self.1, self.2, value)
    }

    fn prepend(self, value: T) -> (r: (T, T1, T2, T3)) {
        (value, self.0, self.1, self.2)
    }

    proof fn lemma_grow_arity(self, value: T) {
    }
}

impl<T1, T2, T3> NonEmptyTuple for (T1, T2, T3) {
    type Head = T1;

    type Tail = T3;

    type TruncateHead = (T2, T3);

    type TruncateTail = (T1, T2);

    open spec fn spec_head(&self) -> T1 {
        self.0
    }

    open spec fn spec_tail(&self) -> T3 {
        self.2
    }

    open spec fn spec_with_head(self, value: T1) -> (T1, T2, T3) {
        (value, self.1, self.2)
    }

    open spec fn spec_with_tail(self, value: T3) -> (T1, T2, T3) {
        (self.0, self.1, value)
    }

    open spec fn spec_truncate_head(self) -> (T1, (T2, T3)) {
        (self.0, (self.1, self.2))
    }

    open spec fn spec_truncate_tail(self) -> ((T1, T2), T3) {
        ((self.0, self.1), self.2)
    }

    fn head(&self) -> (r: &T1) {
        &self.0
    }

    fn head_mut(&mut self) -> (r: &mut T1) {
        &mut self.0
    }

    fn tail(&self) -> (r: &T3) {
        &self.2
    }

    fn tail_mut(&mut self) -> (r: &mut T3) {
        &mut self.2
    }

    fn truncate_head(self) -> (r: (T1, (T2, T3))) {
        (self.0, (self.1, self.2))
    }

    fn truncate_tail(self) -> (r: ((T1, T2), T3)) {
        ((self.0, self.1), self.2)
    }

    proof fn lemma_truncate_head(self) {
    }

    proof fn lemma_truncate_tail(self) {
    }
}

impl<T1, T2, T3> NonUnaryTuple for (T1, T2, T3) {
    type TruncateHeadTail = (T2,);

    open spec fn spec_truncate_head_tail(self) -> (T1, (T2,), T3) {
        (self.0, (self.1,), self.2)
    }

    fn head_tail(&self) -> (r: (&T1, &T3)) {
        (&self.0, &self.2)
    }

    fn head_tail_mut(&mut self) -> (r: (&mut T1, &mut T3)) {
        (&mut self.0, &mut self.2)
    }

    fn truncate_head_tail(self) -> (r: (T1, (T2,), T3)) {
        (self.0, (self.1,), self.2)
    }

    proof fn lemma_truncate_head_tail(self) {
    }
}

impl<T1, T2, T3> IndexableTuple<0> for (T1, T2, T3) {
    type Value = T1;

    open spec fn spec_index(&self) -> T1 {
        self.0
    }

    open spec fn spec_with_index(self, value: T1) -> (T1, T2, T3) {
        (value, self.1, self.2)
    }

    fn index_ref(&self) -> (r: &T1) {
        &self.0
    }

    fn index_mut(&mut self) -> (r: &mut T1) {
        &mut self.0
    }

    fn into_index(self) -> (r: T1) {
        self.0
    }

    proof fn lemma_index_in_range(&self) {
    }
}

impl<T1, T2, T3> IndexableTuple<1> for (T1, T2, T3) {
    type Value = T2;

    open spec fn spec_index(&self) -> T2 {
        self.1
    }

    open spec fn spec_with_index(self, value: T2) -> (T1, T2, T3) {
        (self.0, value, self.2)
    }

    fn index_ref(&self) -> (r: &T2) {
        &self.1
    }

    fn index_mut(&mut self) -> (r: &mut T2) {
        &mut self.1
    }

    fn into_index(self) -> (r: T2) {
        self.1
    }

    proof fn lemma_index_in_range(&self) {
    }
}

impl<T1, T2, T3> IndexableTuple<2> for (T1, T2, T3) {
    type Value = T3;

    open spec fn spec_index(&self) -> T3 {
        self.2
    }

    open spec fn spec_with_index(self, value: T3) -> (T1, T2, T3) {
        (self.0, self.1, value)
    }

    fn index_ref(&self) -> (r: &T3) {
        &self.2
    }

    fn index_mut(&mut self) -> (r: &mut T3) {
        &mut self.2
    }

    fn into_index(self) -> (r: T3) {
        self.2
    }

    proof fn lemma_index_in_range(&self) {
    }
}

impl<T1, T2, T3> JoinableTuple<(T1, T2, T3)> for () {
    type Join = (T1, T2, T3);

    open spec fn spec_join(self, other: (T1, T2, T3)) -> (T1, T2, T3) {
        (other.0, other.1, other.2)
    }

    fn join(self, other: (T1, T2, T3)) -> (r: (T1, T2, T3)) {
        (other.0, other.1, other.2)
    }

    proof fn lemma_join_arity(self, other: (T1, T2, T3)) {
    }
}

impl<T1, T2, T3> JoinableTuple<(T2, T3)> for (T1,) {
    type Join = (T1, T2, T3);

    open spec fn spec_join(self, other: (T2, T3)) -> (T1, T2, T3) {
        (self.0, other.0, other.1)
    }

    fn join(self, other: (T2, T3)) -> (r: (T1, T2, T3)) {
        (self.0, other.0, other.1)
    }

    proof fn lemma_join_arity(self, other: (T2, T3)) {
    }
}

impl<T1, T2, T3> JoinableTuple<(T3,)> for (T1, T2) {
    type Join = (T1, T2, T3);

    open spec fn spec_join(self, other: (T3,)) -> (T1, T2, T3) {
        (self.0, self.1, other.0)
    }

    fn join(self, other: (T3,)) -> (r: (T1, T2, T3)) {
        (self.0, self.1, other.0)
    }

    proof fn lemma_join_arity(self, other: (T3,)) {
    }
}

impl<T1, T2, T3> JoinableTuple<()> for (T1, T2, T3) {
    type Join = (T1, T2, T3);

    open spec fn spec_join(self, other: ()) -> (T1, T2, T3) {
        (self.0, self.1, self.2)
    }

    fn join(self, other: ()) -> (r: (T1, T2, T3)) {
        (self.0, self.1, self.2)
    }

    proof fn lemma_join_arity(self, other: ()) {
    }
}

impl<T1, T2, T3, T4> Sealed for (T1, T2, T3, T4) {}

impl<T1, T2, T3, T4> DynTuple for (T1, T2, T3, T4) {
    open spec fn spec_arity(&self) -> nat {
        4
    }

    fn arity(&self) -> (r: usize) {
        4
    }
}

impl<T1, T2, T3, T4> Tuple for (T1, T2, T3, T4) {
    const ARITY: usize = 4;

    open spec fn spec_type_arity() -> nat {
        4
    }

    proof fn lemma_arity(&self) {
    }

    proof fn lemma_type_arity() {
    }
}

impl<T1, T2, T3, T4, T> GrowableTuple<T> for (T1, T2, T3, T4) {
    type Append = (T1, T2, T3, T4, T);

    type Prepend = (T, T1, T2, T3, T4);

    open spec fn spec_append(self, value: T) -> (T1, T2, T3, T4, T) {
        (self.0, self.1, self.2, self.3, value)
    }

    open spec fn spec_prepend(self, value: T) -> (T, T1, T2, T3, T4) {
        (value, self.0, self.1, self.2, self.3)
    }

    fn append(self, value: T) -> (r: (T1, T2, T3, T4, T)) {
        (self.0, self.1, self.2, self.3, value)
    }

    fn prepend(self, value: T) -> (r: (T, T1, T2, T3, T4)) {
        (value, self.0, self.1, self.2, self.3)
    }

    proof fn lemma_grow_arity(self, value: T) {
    }
}

impl<T1, T2, T3, T4> NonEmptyTuple for (T1, T2, T3, T4) {
    type Head = T1;

    type Tail = T4;

    type TruncateHead = (T2, T3, T4);

    type TruncateTail = (T1, T2, T3);

    open spec fn spec_head(&self) -> T1 {
        self.0
    }

    open spec fn spec_tail(&self) -> T4 {
        self.3
    }

    open spec fn spec_with_head(self, value: T1) -> (T1, T2, T3, T4) {
        (value, self.1, self.2, self.3)
    }

    open spec fn spec_with_tail(self, value: T4) -> (T1, T2, T3, T4) {
        (self.0, self.1, self.2, value)
    }

    open spec fn spec_truncate_head(self) -> (T1, (T2, T3, T4)) {
        (self.0, (self.1, self.2, self.3))
    }

    open spec fn spec_truncate_tail(self) -> ((T1, T2, T3), T4) {
        ((self.0, self.1, self.2), self.3)
    }

    fn head(&self) -> (r: &T1) {
        &self.0
    }

    fn head_mut(&mut self) -> (r: &mut T1) {
        &mut self.0
    }

    fn tail(&self) -> (r: &T4) {
        &self.3
    }

    fn tail_mut(&mut self) -> (r: &mut T4) {
        &mut self.3
    }

    fn truncate_head(self) -> (r: (T1, (T2, T3, T4))) {
        (self.0, (self.1, self.2, self.3))
    }

    fn truncate_tail(self) -> (r: ((T1, T2, T3), T4)) {
        ((self.0, self.1, self.2), self.3)
    }

    proof fn lemma_truncate_head(self) {
    }

    proof fn lemma_truncate_tail(self) {
    }
}

impl<T1, T2, T3, T4> NonUnaryTuple for (T1, T2, T3, T4) {
    type TruncateHeadTail = (T2, T3);

    open spec fn spec_truncate_head_tail(self) -> (T1, (T2, T3), T4) {
        (self.0, (self.1, self.2), self.3)
    }

    fn head_tail(&self) -> (r: (&T1, &T4)) {
        (&self.0, &self.3)
    }

    fn head_tail_mut(&mut self) -> (r: (&mut T1, &mut T4)) {
        (&mut self.0, &mut self.3)
    }

    fn truncate_head_tail(self) -> (r: (T1, (T2, T3), T4)) {
        (self.0, (self.1, self.2), self.3)
    }

    proof fn lemma_truncate_head_tail(self) {
    }
}

impl<T1, T2, T3, T4> IndexableTuple<0> for (T1, T2, T3, T4) {
    type Value = T1;

    open spec fn spec_index(&self) -> T1 {
        self.0
    }

    open spec fn spec_with_index(self, value: T1) -> (T1, T2, T3, T4) {
        (value, self.1, self.2, self.3)
    }

    fn index_ref(&self) -> (r: &T1) {
        &self.0
    }

    fn index_mut(&mut self) -> (r: &mut T1) {
        &mut self.0
    }

    fn into_index(self) -> (r: T1) {
        self.0
    }

    proof fn lemma_index_in_range(&self) {
    }
}

impl<T1, T2, T3, T4> IndexableTuple<1> for (T1, T2, T3, T4) {
    type Value = T2;

    open spec fn spec_index(&self) -> T2 {
        self.1
    }

    open spec fn spec_with_index(self, value: T2) -> (T1, T2, T3, T4) {
        (self.0, value, self.2, self.3)
    }

    fn index_ref(&self) -> (r: &T2) {
        &self.1
    }

    fn index_mut(&mut self) -> (r: &mut T2) {
        &mut self.1
    }

    fn into_index(self) -> (r: T2) {
        self.1
    }

    proof fn lemma_index_in_range(&self) {
    }
}

impl<T1, T2, T3, T4> IndexableTuple<2> for (T1, T2, T3, T4) {
    type Value = T3;

    open spec fn spec_index(&self) -> T3 {
        self.2
    }

    open spec fn spec_with_index(self, value: T3) -> (T1, T2, T3, T4) {
        (self.0, self.1, value, self.3)
    }

    fn index_ref(&self) -> (r: &T3) {
        &self.2
    }

    fn index_mut(&mut self) -> (r: &mut T3) {
        &mut self.2
    }

    fn into_index(self) -> (r: T3) {
        self.2
    }

    proof fn lemma_index_in_range(&self) {
    }
}

impl<T1, T2, T3, T4> IndexableTuple<3> for (T1, T2, T3, T4) {
    type Value = T4;

    open spec fn spec_index(&self) -> T4 {
        self.3
    }

    open spec fn spec_with_index(self, value: T4) -> (T1, T2, T3, T4) {
        (self.0, self.1, self.2, value)
    }

    fn index_ref(&self) -> (r: &T4) {
        &self.3
    }

    fn index_mut(&mut self) -> (r: &mut T4) {
        &mut self.3
    }

    fn into_index(self) -> (r: T4) {
        self.3
    }

    proof fn lemma_index_in_range(&self) {
    }
}

impl<T1, T2, T3, T4> JoinableTuple<(T1, T2, T3, T4)> for () {
    type Join = (T1, T2, T3, T4);

    open spec fn spec_join(self, other: (T1, T2, T3, T4)) -> (T1, T2, T3, T4) {
        (other.0, other.1, other.2, other.3)
    }

    fn join(self, other: (T1, T2, T3, T4)) -> (r: (T1, T2, T3, T4)) {
        (other.0, other.1, other.2, other.3)
    }

    proof fn lemma_join_arity(self, other: (T1, T2, T3, T4)) {
    }
}

impl<T1, T2, T3, T4> JoinableTuple<(T2, T3, T4)> for (T1,) {
    type Join = (T1, T2, T3, T4);

    open spec fn spec_join(self, other: (T2, T3, T4)) -> (T1, T2, T3, T4) {
        (self.0, other.0, other.1, other.2)
    }

    fn join(self, other: (T2, T3, T4)) -> (r: (T1, T2, T3, T4)) {
        (self.0, other.0, other.1, other.2)
    }

    proof fn lemma_join_arity(self, other: (T2, T3, T4)) {
    }
}

impl<T1, T2, T3, T4> JoinableTuple<(T3, T4)> for (T1, T2) {
    type Join = (T1, T2, T3, T4);

    open spec fn spec_join(self, other: (T3, T4)) -> (T1, T2, T3, T4) {
        (self.0, self.1, other.0, other.1)
    }

    fn join(self, other: (T3, T4)) -> (r: (T1, T2, T3, T4)) {
        (self.0, self.1, other.0, other.1)
    }

    proof fn lemma_join_arity(self, other: (T3, T4)) {
    }
}

impl<T1, T2, T3, T4> JoinableTuple<(T4,)> for (T1, T2, T3) {
    type Join = (T1, T2, T3, T4);

    open spec fn spec_join(self, other: (T4,)) -> (T1, T2, T3, T4) {
        (self.0, self.1, self.2, other.0)
    }

    fn join(self, other: (T4,)) -> (r: (T1, T2, T3, T4)) {
        (self.0, self.1, self.2, other.0)
    }

    proof fn lemma_join_arity(self, other: (T4,)) {
    }
}

impl<T1, T2, T3, T4> JoinableTuple<()> for (T1, T2, T3, T4) {
    type Join = (T1, T2, T3, T4);

    open spec fn spec_join(self, other: ()) -> (T1, T2, T3, T4) {
        (self.0, self.1, self.2, self.3)
    }

    fn join(self, other: ()) -> (r: (T1, T2, T3, T4)) {
        (self.0, self.1, self.2, self.3)
    }

    proof fn lemma_join_arity(self, other: ()) {
    }
}

impl<T1, T2, T3, T4, T5> Sealed for (T1, T2, T3, T4, T5) {}

impl<T1, T2, T3, T4, T5> DynTuple for (T1, T2, T3, T4, T5) {
    open spec fn spec_arity(&self) -> nat {
        5
    }

    fn arity(&self) -> (r: usize) {
        5
    }
}

impl<T1, T2, T3, T4, T5> Tuple for (T1, T2, T3, T4, T5) {
    const ARITY: usize = 5;

    open spec fn spec_type_arity() -> nat {
        5
    }

    proof fn lemma_arity(&self) {
    }

    proof fn lemma_type_arity() {
    }
}

impl<T1, T2, T3, T4, T5, T> GrowableTuple<T> for (T1, T2, T3, T4, T5) {
    type Append = (T1, T2, T3, T4, T5, T);

    type Prepend = (T, T1, T2, T3, T4, T5);

    open spec fn spec_append(self, value: T) -> (T1, T2, T3, T4, T5, T) {
        (self.0, self.1, self.2, self.3, self.4, value)
    }

    open spec fn spec_prepend(self, value: T) -> (T, T1, T2, T3, T4, T5) {
        (value, self.0, self.1, self.2, self.3, self.4)
    }

    fn append(self, value: T) -> (r: (T1, T2, T3, T4, T5, T)) {
        (self.0, self.1, self.2, self.3, self.4, value)
    }

    fn prepend(self, value: T) -> (r: (T, T1, T2, T3, T4, T5)) {
        (value, self.0, self.1, self.2, self.3, self.4)
    }

    proof fn lemma_grow_arity(self, value: T) {
    }
}

impl<T1, T2, T3, T4, T5> NonEmptyTuple for (T1, T2, T3, T4, T5) {
    type Head = T1;

    type Tail = T5;

    type TruncateHead = (T2, T3, T4, T5);

    type TruncateTail = (T1, T2, T3, T4);

    open spec fn spec_head(&self) -> T1 {
        self.0
    }

    open spec fn spec_tail(&self) -> T5 {
        self.4
    }

    open spec fn spec_with_head(self, value: T1) -> (T1, T2, T3, T4, T5) {
        (value, self.1, self.2, self.3, self.4)
    }

    open spec fn spec_with_tail(self, value: T5) -> (T1, T2, T3, T4, T5) {
        (self.0, self.1, self.2, self.3, value)
    }

    open spec fn spec_truncate_head(self) -> (T1, (T2, T3, T4, T5)) {
        (self.0, (self.1, self.2, self.3, self.4))
    }

    open spec fn spec_truncate_tail(self) -> ((T1, T2, T3, T4), T5) {
        ((self.0, self.1, self.2, self.3), self.4)
    }

    fn head(&self) -> (r: &T1) {
        &self.0
    }

    fn head_mut(&mut self) -> (r: &mut T1) {
        &mut self.0
    }

    fn tail(&self) -> (r: &T5) {
        &self.4
    }

    fn tail_mut(&mut self) -> (r: &mut T5) {
        &mut self.4
    }

    fn truncate_head(self) -> (r: (T1, (T2, T3, T4, T5))) {
        (self.0, (self.1, self.2, self.3, self.4))
    }

    fn truncate_tail(self) -> (r: ((T1, T2, T3, T4), T5)) {
        ((self.0, self.1, self.2, self.3), self.4)
    }

    proof fn lemma_truncate_head(self) {
    }

    proof fn lemma_truncate_tail(self) {
    }
}

impl<T1, T2, T3, T4, T5> NonUnaryTuple for (T1, T2, T3, T4, T5) {
    type TruncateHeadTail = (T2, T3, T4);

    open spec fn spec_truncate_head_tail(self) -> (T1, (T2, T3, T4), T5) {
        (self.0, (self.1, self.2, self.3), self.4)
    }

    fn head_tail(&self) -> (r: (&T1, &T5)) {
        (&self.0, &self.4)
    }

    fn head_tail_mut(&mut self) -> (r: (&mut T1, &mut T5)) {
        (&mut self.0, &mut self.4)
    }

    fn truncate_head_tail(self) -> (r: (T1, (T2, T3, T4), T5)) {
        (self.0, (self.1, self.2, self.3), self.4)
    }

    proof fn lemma_truncate_head_tail(self) {
    }
}

impl<T1, T2, T3, T4, T5> IndexableTuple<0> for (T1, T2, T3, T4, T5) {
    type Value = T1;

    open spec fn spec_index(&self) -> T1 {
        self.0
    }

    open spec fn spec_with_index(self, value: T1) -> (T1, T2, T3, T4, T5) {
        (value, self.1, self.2, self.3, self.4)
    }

    fn index_ref(&self) -> (r: &T1) {
        &self.0
    }

    fn index_mut(&mut self) -> (r: &mut T1) {
        &mut self.0
    }

    fn into_index(self) -> (r: T1) {
        self.0
    }

    proof fn lemma_index_in_range(&self) {
    }
}

impl<T1, T2, T3, T4, T5> IndexableTuple<1> for (T1, T2, T3, T4, T5) {
    type Value = T2;

    open spec fn spec_index(&self) -> T2 {
        self.1
    }

    open spec fn spec_with_index(self, value: T2) -> (T1, T2, T3, T4, T5) {
        (self.0, value, self.2, self.3, self.4)
    }

    fn index_ref(&self) -> (r: &T2) {
        &self.1
    }

    fn index_mut(&mut self) -> (r: &mut T2) {
        &mut self.1
    }

    fn into_index(self) -> (r: T2) {
        self.1
    }

    proof fn lemma_index_in_range(&self) {
    }
}

impl<T1, T2, T3, T4, T5> IndexableTuple<2> for (T1, T2, T3, T4, T5) {
    type Value = T3;

    open spec fn spec_index(&self) -> T3 {
        self.2
    }

    open spec fn spec_with_index(self, value: T3) -> (T1, T2, T3, T4, T5) {
        (self.0, self.1, value, self.3, self.4)
    }

    fn index_ref(&self) -> (r: &T3) {
        &self.2
    }

    fn index_mut(&mut self) -> (r: &mut T3) {
        &mut self.2
    }

    fn into_index(self) -> (r: T3) {
        self.2
    }

    proof fn lemma_index_in_range(&self) {
    }
}

impl<T1, T2, T3, T4, T5> IndexableTuple<3> for (T1, T2, T3, T4, T5) {
    type Value = T4;

    open spec fn spec_index(&self) -> T4 {
        self.3
    }

    open spec fn spec_with_index(self, value: T4) -> (T1, T2, T3, T4, T5) {
        (self.0, self.1, self.2, value, self.4)
    }

    fn index_ref(&self) -> (r: &T4) {
        &self.3
    }

    fn index_mut(&mut self) -> (r: &mut T4) {
        &mut self.3
    }

    fn into_index(self) -> (r: T4) {
        self.3
    }

    proof fn lemma_index_in_range(&self) {
    }
}

impl<T1, T2, T3, T4, T5> IndexableTuple<4> for (T1, T2, T3, T4, T5) {
    type Value = T5;

    open spec fn spec_index(&self) -> T5 {
        self.4
    }

    open spec fn spec_with_index(self, value: T5) -> (T1, T2, T3, T4, T5) {
        (self.0, self.1, self.2, self.3, value)
    }

    fn index_ref(&self) -> (r: &T5) {
        &self.4
    }

    fn index_mut(&mut self) -> (r: &mut T5) {
        &mut self.4
    }

    fn into_index(self) -> (r: T5) {
        self.4
    }

    proof fn lemma_index_in_range(&self) {
    }
}

impl<T1, T2, T3, T4, T5> JoinableTuple<(T1, T2, T3, T4, T5)> for () {
    type Join = (T1, T2, T3, T4, T5);

    open spec fn spec_join(self, other: (T1, T2, T3, T4, T5)) -> (T1, T2, T3, T4, T5) {
        (other.0, other.1, other.2, other.3, other.4)
    }

    fn join(self, other: (T1, T2, T3, T4, T5)) -> (r: (T1, T2, T3, T4, T5)) {
        (other.0, other.1, other.2, other.3, other.4)
    }

    proof fn lemma_join_arity(self, other: (T1, T2, T3, T4, T5)) {
    }
}

impl<T1, T2, T3, T4, T5> JoinableTuple<(T2, T3, T4, T5)> for (T1,) {
    type Join = (T1, T2, T3, T4, T5);

    open spec fn spec_join(self, other: (T2, T3, T4, T5)) -> (T1, T2, T3, T4, T5) {
        (self.0, other.0, other.1, other.2, other.3)
    }

    fn join(self, other: (T2, T3, T4, T5)) -> (r: (T1, T2, T3, T4, T5)) {
        (self.0, other.0, other.1, other.2, other.3)
    }

    proof fn lemma_join_arity(self, other: (T2, T3, T4, T5)) {
    }
}

impl<T1, T2, T3, T4, T5> JoinableTuple<(T3, T4, T5)> for (T1, T2) {
    type Join = (T1, T2, T3, T4, T5);

    open spec fn spec_join(self, other: (T3, T4, T5)) -> (T1, T2, T3, T4, T5) {
        (self.0, self.1, other.0, other.1, other.2)
    }

    fn join(self, other: (T3, T4, T5)) -> (r: (T1, T2, T3, T4, T5)) {
        (self.0, self.1, other.0, other.1, other.2)
    }

    proof fn lemma_join_arity(self, other: (T3, T4, T5)) {
    }
}

impl<T1, T2, T3, T4, T5> JoinableTuple<(T4, T5)> for (T1, T2, T3) {
    type Join = (T1, T2, T3, T4, T5);

    open spec fn spec_join(self, other: (T4, T5)) -> (T1, T2, T3, T4, T5) {
        (self.0, self.1, self.2, other.0, other.1)
    }

    fn join(self, other: (T4, T5)) -> (r: (T1, T2, T3, T4, T5)) {
        (self.0, self.1, self.2, other.0, other.1)
    }

    proof fn lemma_join_arity(self, other: (T4, T5)) {
    }
}

impl<T1, T2, T3, T4, T5> JoinableTuple<(T5,)> for (T1, T2, T3, T4) {
    type Join = (T1, T2, T3, T4, T5);

    open spec fn spec_join(self, other: (T5,)) -> (T1, T2, T3, T4, T5) {
        (self.0, self.1, self.2, self.3, other.0)
    }

    fn join(self, other: (T5,)) -> (r: (T1, T2, T3, T4, T5)) {
        (self.0, self.1, self.2, self.3, other.0)
    }

    proof fn lemma_join_arity(self, other: (T5,)) {
    }
}

impl<T1, T2, T3, T4, T5> JoinableTuple<()> for (T1, T2, T3, T4, T5) {
    type Join = (T1, T2, T3, T4, T5);

    open spec fn spec_join(self, other: ()) -> (T1, T2, T3, T4, T5) {
        (self.0, self.1, self.2, self.3, self.4)
    }

    fn join(self, other: ()) -> (r: (T1, T2, T3, T4, T5)) {
        (self.0, self.1, self.2, self.3, self.4)
    }

    proof fn lemma_join_arity(self, other: ()) {
    }
}

impl<T1, T2, T3, T4, T5, T6> Sealed for (T1, T2, T3, T4, T5, T6) {}

impl<T1, T2, T3, T4, T5, T6> DynTuple for (T1, T2, T3, T4, T5, T6) {
    open spec fn spec_arity(&self) -> nat {
        6
    }

    fn arity(&self) -> (r: usize) {
        6
    }
}

impl<T1, T2, T3, T4, T5, T6> Tuple for (T1, T2, T3, T4, T5, T6) {
    const ARITY: usize = 6;

    open spec fn spec_type_arity() -> nat {
        6
    }

    proof fn lemma_arity(&self) {
    }

    proof fn lemma_type_arity() {
    }
}

impl<T1, T2, T3, T4, T5, T6, T> GrowableTuple<T> for (T1, T2, T3, T4, T5, T6) {
    type Append = (T1, T2, T3, T4, T5, T6, T);

    type Prepend = (T, T1, T2, T3, T4, T5, T6);

    open spec fn spec_append(self, value: T) -> (T1, T2, T3, T4, T5, T6, T) {
        (self.0, self.1, self.2, self.3, self.4, self.5, value)
    }

    open spec fn spec_prepend(self, value: T) -> (T, T1, T2, T3, T4, T5, T6) {
        (value, self.0, self.1, self.2, self.3, self.4, self.5)
    }

    fn append(self, value: T) -> (r: (T1, T2, T3, T4, T5, T6, T)) {
        (self.0, self.1, self.2, self.3, self.4, self.5, value)
    }

    fn prepend(self, value: T) -> (r: (T, T1, T2, T3, T4, T5, T6)) {
        (value, self.0, self.1, self.2, self.3, self.4, self.5)
    }

    proof fn lemma_grow_arity(self, value: T) {
    }
}

impl<T1, T2, T3, T4, T5, T6> NonEmptyTuple for (T1, T2, T3, T4, T5, T6) {
    type Head = T1;

    type Tail = T6;

    type TruncateHead = (T2, T3, T4, T5, T6);

    type TruncateTail = (T1, T2, T3, T4, T5);

    open spec fn spec_head(&self) -> T1 {
        self.0
    }

    open spec fn spec_tail(&self) -> T6 {
        self.5
    }

    open spec fn spec_with_head(self, value: T1) -> (T1, T2, T3, T4, T5, T6) {
        (value, self.1, self.2, self.3, self.4, self.5)
    }

    open spec fn spec_with_tail(self, value: T6) -> (T1, T2, T3, T4, T5, T6) {
        (self.0, self.1, self.2, self.3, self.4, value)
    }

    open spec fn spec_truncate_head(self) -> (T1, (T2, T3, T4, T5, T6)) {
        (self.0, (self.1, self.2, self.3, self.4, self.5))
    }

    open spec fn spec_truncate_tail(self) -> ((T1, T2, T3, T4, T5), T6) {
        ((self.0, self.1, self.2, self.3, self.4), self.5)
    }

    fn head(&self) -> (r: &T1) {
        &self.0
    }

    fn head_mut(&mut self) -> (r: &mut T1) {
        &mut self.0
    }

    fn tail(&self) -> (r: &T6) {
        &self.5
    }

    fn tail_mut(&mut self) -> (r: &mut T6) {
        &mut self.5
    }

    fn truncate_head(self) -> (r: (T1, (T2, T3, T4, T5, T6))) {
        (self.0, (self.1, self.2, self.3, self.4, self.5))
    }

    fn truncate_tail(self) -> (r: ((T1, T2, T3, T4, T5), T6)) {
        ((self.0, self.1, self.2, self.3, self.4), self.5)
    }

    proof fn lemma_truncate_head(self) {
    }

    proof fn lemma_truncate_tail(self) {
    }
}

impl<T1, T2, T3, T4, T5, T6> NonUnaryTuple for (T1, T2, T3, T4, T5, T6) {
    type TruncateHeadTail = (T2, T3, T4, T5);

    open spec fn spec_truncate_head_tail(self) -> (T1, (T2, T3, T4, T5), T6) {
        (self.0, (self.1, self.2, self.3, self.4), self.5)
    }

    fn head_tail(&self) -> (r: (&T1, &T6)) {
        (&self.0, &self.5)
    }

    fn head_tail_mut(&mut self) -> (r: (&mut T1, &mut T6)) {
        (&mut self.0, &mut self.5)
    }

    fn truncate_head_tail(self) -> (r: (T1, (T2, T3, T4, T5), T6)) {
        (self.0, (self.1, self.2, self.3, self.4), self.5)
    }

    proof fn lemma_truncate_head_tail(self) {
    }
}

impl<T1, T2, T3, T4, T5, T6> IndexableTuple<0> for (T1, T2, T3, T4, T5, T6) {
    type Value = T1;

    open spec fn spec_index(&self) -> T1 {
        self.0
    }

    open spec fn spec_with_index(self, value: T1) -> (T1, T2, T3, T4, T5, T6) {
        (value, self.1, self.2, self.3, self.4, self.5)
    }

    fn index_ref(&self) -> (r: &T1) {
        &self.0
    }

    fn index_mut(&mut self) -> (r: &mut T1) {
        &mut self.0
    }

    fn into_index(self) -> (r: T1) {
        self.0
    }

    proof fn lemma_index_in_range(&self) {
    }
}

impl<T1, T2, T3, T4, T5, T6> IndexableTuple<1> for (T1, T2, T3, T4, T5, T6) {
    type Value = T2;

    open spec fn spec_index(&self) -> T2 {
        self.1
    }

    open spec fn spec_with_index(self, value: T2) -> (T1, T2, T3, T4, T5, T6) {
        (self.0, value, self.2, self.3, self.4, self.5)
    }

    fn index_ref(&self) -> (r: &T2) {
        &self.1
    }

    fn index_mut(&mut self) -> (r: &mut T2) {
        &mut self.1
    }

    fn into_index(self) -> (r: T2) {
        self.1
    }

    proof fn lemma_index_in_range(&self) {
    }
}

impl<T1, T2, T3, T4, T5, T6> IndexableTuple<2> for (T1, T2, T3, T4, T5, T6) {
    type Value = T3;

    open spec fn spec_index(&self) -> T3 {
        self.2
    }

    open spec fn spec_with_index(self, value: T3) -> (T1, T2, T3, T4, T5, T6) {
        (self.0, self.1, value, self.3, self.4, self.5)
    }

    fn index_ref(&self) -> (r: &T3) {
        &self.2
    }

    fn index_mut(&mut self) -> (r: &mut T3) {
        &mut self.2
    }

    fn into_index(self) -> (r: T3) {
        self.2
    }

    proof fn lemma_index_in_range(&self) {
    }
}

impl<T1, T2, T3, T4, T5, T6> IndexableTuple<3> for (T1, T2, T3, T4, T5, T6) {
    type Value = T4;

    open spec fn spec_index(&self) -> T4 {
        self.3
    }

    open spec fn spec_with_index(self, value: T4) -> (T1, T2, T3, T4, T5, T6) {
        (self.0, self.1, self.2, value, self.4, self.5)
    }

    fn index_ref(&self) -> (r: &T4) {
        &self.3
    }

    fn index_mut(&mut self) -> (r: &mut T4) {
        &mut self.3
    }

    fn into_index(self) -> (r: T4) {
        self.3
    }

    proof fn lemma_index_in_range(&self) {
    }
}

impl<T1, T2, T3, T4, T5, T6> IndexableTuple<4> for (T1, T2, T3, T4, T5, T6) {
    type Value = T5;

    open spec fn spec_index(&self) -> T5 {
        self.4
    }

    open spec fn spec_with_index(self, value: T5) -> (T1, T2, T3, T4, T5, T6) {
        (self.0, self.1, self.2, self.3, value, self.5)
    }

    fn index_ref(&self) -> (r: &T5) {
        &self.4
    }

    fn index_mut(&mut self) -> (r: &mut T5) {
        &mut self.4
    }

    fn into_index(self) -> (r: T5) {
        self.4
    }

    proof fn lemma_index_in_range(&self) {
    }
}

impl<T1, T2, T3, T4, T5, T6> IndexableTuple<5> for (T1, T2, T3, T4, T5, T6) {
    type Value = T6;

    open spec fn spec_index(&self) -> T6 {
        self.5
    }

    open spec fn spec_with_index(self, value: T6) -> (T1, T2, T3, T4, T5, T6) {
        (self.0, self.1, self.2, self.3, self.4, value)
    }

    fn index_ref(&self) -> (r: &T6) {
        &self.5
    }

    fn index_mut(&mut self) -> (r: &mut T6) {
        &mut self.5
    }

    fn into_index(self) -> (r: T6) {
        self.5
    }

    proof fn lemma_index_in_range(&self) {
    }
}

impl<T1, T2, T3, T4, T5, T6> JoinableTuple<(T1, T2, T3, T4, T5, T6)> for () {
    type Join = (T1, T2, T3, T4, T5, T6);

    open spec fn spec_join(self, other: (T1, T2, T3, T4, T5, T6)) -> (T1, T2, T3, T4, T5, T6) {
        (other.0, other.1, other.2, other.3, other.4, other.5)
    }

    fn join(self, other: (T1, T2, T3, T4, T5, T6)) -> (r: (T1, T2, T3, T4, T5, T6)) {
        (other.0, other.1, other.2, other.3, other.4, other.5)
    }

    proof fn lemma_join_arity(self, other: (T1, T2, T3, T4, T5, T6)) {
    }
}

impl<T1, T2, T3, T4, T5, T6> JoinableTuple<(T2, T3, T4, T5, T6)> for (T1,) {
    type Join = (T1, T2, T3, T4, T5, T6);

    open spec fn spec_join(self, other: (T2, T3, T4, T5, T6)) -> (T1, T2, T3, T4, T5, T6) {
        (self.0, other.0, other.1, other.2, other.3, other.4)
    }

    fn join(self, other: (T2, T3, T4, T5, T6)) -> (r: (T1, T2, T3, T4, T5, T6)) {
        (self.0, other.0, other.1, other.2, other.3, other.4)
    }

    proof fn lemma_join_arity(self, other: (T2, T3, T4, T5, T6)) {
    }
}

impl<T1, T2, T3, T4, T5, T6> JoinableTuple<(T3, T4, T5, T6)> for (T1, T2) {
    type Join = (T1, T2, T3, T4, T5, T6);

    open spec fn spec_join(self, other: (T3, T4, T5, T6)) -> (T1, T2, T3, T4, T5, T6) {
        (self.0, self.1, other.0, other.1, other.2, other.3)
    }

    fn join(self, other: (T3, T4, T5, T6)) -> (r: (T1, T2, T3, T4, T5, T6)) {
        (self.0, self.1, other.0, other.1, other.2, other.3)
    }

    proof fn lemma_join_arity(self, other: (T3, T4, T5, T6)) {
    }
}

impl<T1, T2, T3, T4, T5, T6> JoinableTuple<(T4, T5, T6)> for (T1, T2, T3) {
    type Join = (T1, T2, T3, T4, T5, T6);

    open spec fn spec_join(self, other: (T4, T5, T6)) -> (T1, T2, T3, T4, T5, T6) {
        (self.0, self.1, self.2, other.0, other.1, other.2)
    }

    fn join(self, other: (T4, T5, T6)) -> (r: (T1, T2, T3, T4, T5, T6)) {
        (self.0, self.1, self.2, other.0, other.1, other.2)
    }

    proof fn lemma_join_arity(self, other: (T4, T5, T6)) {
    }
}

impl<T1, T2, T3, T4, T5, T6> JoinableTuple<(T5, T6)> for (T1, T2, T3, T4) {
    type Join = (T1, T2, T3, T4, T5, T6);

    open spec fn spec_join(self, other: (T5, T6)) -> (T1, T2, T3, T4, T5, T6) {
        (self.0, self.1, self.2, self.3, other.0, other.1)
    }

    fn join(self, other: (T5, T6)) -> (r: (T1, T2, T3, T4, T5, T6)) {
        (self.0, self.1, self.2, self.3, other.0, other.1)
    }

    proof fn lemma_join_arity(self, other: (T5, T6)) {
    }
}

impl<T1, T2, T3, T4, T5, T6> JoinableTuple<(T6,)> for (T1, T2, T3, T4, T5) {
    type Join = (T1, T2, T3, T4, T5, T6);

    open spec fn spec_join(self, other: (T6,)) -> (T1, T2, T3, T4, T5, T6) {
        (self.0, self.1, self.2, self.3, self.4, other.0)
    }

    fn join(self, other: (T6,)) -> (r: (T1, T2, T3, T4, T5, T6)) {
        (self.0, self.1, self.2, self.3, self.4, other.0)
    }

    proof fn lemma_join_arity(self, other: (T6,)) {
    }
}

impl<T1, T2, T3, T4, T5, T6> JoinableTuple<()> for (T1, T2, T3, T4, T5, T6) {
    type Join = (T1, T2, T3, T4, T5, T6);

    open spec fn spec_join(self, other: ()) -> (T1, T2, T3, T4, T5, T6) {
        (self.0, self.1, self.2, self.3, self.4, self.5)
    }

    fn join(self, other: ()) -> (r: (T1, T2, T3, T4, T5, T6)) {
        (self.0, self.1, self.2, self.3, self.4, self.5)
    }

    proof fn lemma_join_arity(self, other: ()) {
    }
}

impl<T1, T2, T3, T4, T5, T6, T7> Sealed for (T1, T2, T3, T4, T5, T6, T7) {}

impl<T1, T2, T3, T4, T5, T6, T7> DynTuple for (T1, T2, T3, T4, T5, T6, T7) {
    open spec fn spec_arity(&self) -> nat {
        7
    }

    fn arity(&self) -> (r: usize) {
        7
    }
}

impl<T1, T2, T3, T4, T5, T6, T7> Tuple for (T1, T2, T3, T4, T5, T6, T7) {
    const ARITY: usize = 7;

    open spec fn spec_type_arity() -> nat {
        7
    }

    proof fn lemma_arity(&self) {
    }

    proof fn lemma_type_arity() {
    }
}

impl<T1, T2, T3, T4, T5, T6, T7, T> GrowableTuple<T> for (T1, T2, T3, T4, T5, T6, T7) {
    type Append = (T1, T2, T3, T4, T5, T6, T7, T);

    type Prepend = (T, T1, T2, T3, T4, T5, T6, T7);

    open spec fn spec_append(self, value: T) -> (T1, T2, T3, T4, T5, T6, T7, T) {
        (self.0, self.1, self.2, self.3, self.4, self.5, self.6, value)
    }

    open spec fn spec_prepend(self, value: T) -> (T, T1, T2, T3, T4, T5, T6, T7) {
        (value, self.0, self.1, self.2, self.3, self.4, self.5, self.6)
    }

    fn append(self, value: T) -> (r: (T1, T2, T3, T4, T5, T6, T7, T)) {
        (self.0, self.1, self.2, self.3, self.4, self.5, self.6, value)
    }

    fn prepend(self, value: T) -> (r: (T, T1, T2, T3, T4, T5, T6, T7)) {
        (value, self.0, self.1, self.2, self.3, self.4, self.5, self.6)
    }

    proof fn lemma_grow_arity(self, value: T) {
    }
}

impl<T1, T2, T3, T4, T5, T6, T7> NonEmptyTuple for (T1, T2, T3, T4, T5, T6, T7) {
    type Head = T1;

    type Tail = T7;

    type TruncateHead = (T2, T3, T4, T5, T6, T7);

    type TruncateTail = (T1, T2, T3, T4, T5, T6);

    open spec fn spec_head(&self) -> T1 {
        self.0
    }

    open spec fn spec_tail(&self) -> T7 {
        self.6
    }

    open spec fn spec_with_head(self, value: T1) -> (T1, T2, T3, T4, T5, T6, T7) {
        (value, self.1, self.2, self.3, self.4, self.5, self.6)
    }

    open spec fn spec_with_tail(self, value: T7) -> (T1, T2, T3, T4, T5, T6, T7) {
        (self.0, self.1, self.2, self.3, self.4, self.5, value)
    }

    open spec fn spec_truncate_head(self) -> (T1, (T2, T3, T4, T5, T6, T7)) {
        (self.0, (self.1, self.2, self.3, self.4, self.5, self.6))
    }

    open spec fn spec_truncate_tail(self) -> ((T1, T2, T3, T4, T5, T6), T7) {
        ((self.0, self.1, self.2, self.3, self.4, self.5), self.6)
    }

    fn head(&self) -> (r: &T1) {
        &self.0
    }

    fn head_mut(&mut self) -> (r: &mut T1) {
        &mut self.0
    }

    fn tail(&self) -> (r: &T7) {
        &self.6
    }

    fn tail_mut(&mut self) -> (r: &mut T7) {
        &mut self.6
    }

    fn truncate_head(self) -> (r: (T1, (T2, T3, T4, T5, T6, T7))) {
        (self.0, (self.1, self.2, self.3, self.4, self.5, self.6))
    }

    fn truncate_tail(self) -> (r: ((T1, T2, T3, T4, T5, T6), T7)) {
        ((self.0, self.1, self.2, self.3, self.4, self.5), self.6)
    }

    proof fn lemma_truncate_head(self) {
    }

    proof fn lemma_truncate_tail(self) {
    }
}

impl<T1, T2, T3, T4, T5, T6, T7> NonUnaryTuple for (T1, T2, T3, T4, T5, T6, T7) {
    type TruncateHeadTail = (T2, T3, T4, T5, T6);

    open spec fn spec_truncate_head_tail(self) -> (T1, (T2, T3, T4, T5, T6), T7) {
        (self.0, (self.1, self.2, self.3, self.4, self.5), self.6)
    }

    fn head_tail(&self) -> (r: (&T1, &T7)) {
        (&self.0, &self.6)
    }

    fn head_tail_mut(&mut self) -> (r: (&mut T1, &mut T7)) {
        (&mut self.0, &mut self.6)
    }

    fn truncate_head_tail(self) -> (r: (T1, (T2, T3, T4, T5, T6), T7)) {
        (self.0, (self.1, self.2, self.3, self.4, self.5), self.6)
    }

    proof fn lemma_truncate_head_tail(self) {
    }
}

impl<T1, T2, T3, T4, T5, T6, T7> IndexableTuple<0> for (T1, T2, T3, T4, T5, T6, T7) {
    type Value = T1;

    open spec fn spec_index(&self) -> T1 {
        self.0
    }

    open spec fn spec_with_index(self, value: T1) -> (T1, T2, T3, T4, T5, T6, T7) {
        (value, self.1, self.2, self.3, self.4, self.5, self.6)
    }

    fn index_ref(&self) -> (r: &T1) {
        &self.0
    }

    fn index_mut(&mut self) -> (r: &mut T1) {
        &mut self.0
    }

    fn into_index(self) -> (r: T1) {
        self.0
    }

    proof fn lemma_index_in_range(&self) {
    }
}

impl<T1, T2, T3, T4, T5, T6, T7> IndexableTuple<1> for (T1, T2, T3, T4, T5, T6, T7) {
    type Value = T2;

    open spec fn spec_index(&self) -> T2 {
        self.1
    }

    open spec fn spec_with_index(self, value: T2) -> (T1, T2, T3, T4, T5, T6, T7) {
        (self.0, value, self.2, self.3, self.4, self.5, self.6)
    }

    fn index_ref(&self) -> (r: &T2) {
        &self.1
    }

    fn index_mut(&mut self) -> (r: &mut T2) {
        &mut self.1
    }

    fn into_index(self) -> (r: T2) {
        self.1
    }

    proof fn lemma_index_in_range(&self) {
    }
}

impl<T1, T2, T3, T4, T5, T6, T7> IndexableTuple<2> for (T1, T2, T3, T4, T5, T6, T7) {
    type Value = T3;

    open spec fn spec_index(&self) -> T3 {
        self.2
    }

    open spec fn spec_with_index(self, value: T3) -> (T1, T2, T3, T4, T5, T6, T7) {
        (self.0, self.1, value, self.3, self.4, self.5, self.6)
    }

    fn index_ref(&self) -> (r: &T3) {
        &self.2
    }

    fn index_mut(&mut self) -> (r: &mut T3) {
        &mut self.2
    }

    fn into_index(self) -> (r: T3) {
        self.2
    }

    proof fn lemma_index_in_range(&self) {
    }
}

impl<T1, T2, T3, T4, T5, T6, T7> IndexableTuple<3> for (T1, T2, T3, T4, T5, T6, T7) {
    type Value = T4;

    open spec fn spec_index(&self) -> T4 {
        self.3
    }

    open spec fn spec_with_index(self, value: T4) -> (T1, T2, T3, T4, T5, T6, T7) {
        (self.0, self.1, self.2, value, self.4, self.5, self.6)
    }

    fn index_ref(&self) -> (r: &T4) {
        &self.3
    }

    fn index_mut(&mut self) -> (r: &mut T4) {
        &mut self.3
    }

    fn into_index(self) -> (r: T4) {
        self.3
    }

    proof fn lemma_index_in_range(&self) {
    }
}

impl<T1, T2, T3, T4, T5, T6, T7> IndexableTuple<4> for (T1, T2, T3, T4, T5, T6, T7) {
    type Value = T5;

    open spec fn spec_index(&self) -> T5 {
        self.4
    }

    open spec fn spec_with_index(self, value: T5) -> (T1, T2, T3, T4, T5, T6, T7) {
        (self.0, self.1, self.2, self.3, value, self.5, self.6)
    }

    fn index_ref(&self) -> (r: &T5) {
        &self.4
    }

    fn index_mut(&mut self) -> (r: &mut T5) {
        &mut self.4
    }

    fn into_index(self) -> (r: T5) {
        self.4
    }

    proof fn lemma_index_in_range(&self) {
    }
}

impl<T1, T2, T3, T4, T5, T6, T7> IndexableTuple<5> for (T1, T2, T3, T4, T5, T6, T7) {
    type Value = T6;

    open spec fn spec_index(&self) -> T6 {
        self.5
    }

    open spec fn spec_with_index(self, value: T6) -> (T1, T2, T3, T4, T5, T6, T7) {
        (self.0, self.1, self.2, self.3, self.4, value, self.6)
    }

    fn index_ref(&self) -> (r: &T6) {
        &self.5
    }

    fn index_mut(&mut self) -> (r: &mut T6) {
        &mut self.5
    }

    fn into_index(self) -> (r: T6) {
        self.5
    }

    proof fn lemma_index_in_range(&self) {
    }
}

impl<T1, T2, T3, T4, T5, T6, T7> IndexableTuple<6> for (T1, T2, T3, T4, T5, T6, T7) {
    type Value = T7;

    open spec fn spec_index(&self) -> T7 {
        self.6
    }

    open spec fn spec_with_index(self, value: T7) -> (T1, T2, T3, T4, T5, T6, T7) {
        (self.0, self.1, self.2, self.3, self.4, self.5, value)
    }

    fn index_ref(&self) -> (r: &T7) {
        &self.6
    }

    fn index_mut(&mut self) -> (r: &mut T7) {
        &mut self.6
    }

    fn into_index(self) -> (r: T7) {
        self.6
    }

    proof fn lemma_index_in_range(&self) {
    }
}

impl<T1, T2, T3, T4, T5, T6, T7> JoinableTuple<(T1, T2, T3, T4, T5, T6, T7)> for () {
    type Join = (T1, T2, T3, T4, T5, T6, T7);

    open spec fn spec_join(self, other: (T1, T2, T3, T4, T5, T6, T7)) -> (T1, T2, T3, T4, T5, T6, T7) {
        (other.0, other.1, other.2, other.3, other.4, other.5, other.6)
    }

    fn join(self, other: (T1, T2, T3, T4, T5, T6, T7)) -> (r: (T1, T2, T3, T4, T5, T6, T7)) {
        (other.0, other.1, other.2, other.3, other.4, other.5, other.6)
    }

    proof fn lemma_join_arity(self, other: (T1, T2, T3, T4, T5, T6, T7)) {
    }
}

impl<T1, T2, T3, T4, T5, T6, T7> JoinableTuple<(T2, T3, T4, T5, T6, T7)> for (T1,) {
    type Join = (T1, T2, T3, T4, T5, T6, T7);

    open spec fn spec_join(self, other: (T2, T3, T4, T5, T6, T7)) -> (T1, T2, T3, T4, T5, T6, T7) {
        (self.0, other.0, other.1, other.2, other.3, other.4, other.5)
    }

    fn join(self, other: (T2, T3, T4, T5, T6, T7)) -> (r: (T1, T2, T3, T4, T5, T6, T7)) {
        (self.0, other.0, other.1, other.2, other.3, other.4, other.5)
    }

    proof fn lemma_join_arity(self, other: (T2, T3, T4, T5, T6, T7)) {
    }
}

impl<T1, T2, T3, T4, T5, T6, T7> JoinableTuple<(T3, T4, T5, T6, T7)> for (T1, T2) {
    type Join = (T1, T2, T3, T4, T5, T6, T7);

    open spec fn spec_join(self, other: (T3, T4, T5, T6, T7)) -> (T1, T2, T3, T4, T5, T6, T7) {
        (self.0, self.1, other.0, other.1, other.2, other.3, other.4)
    }

    fn join(self, other: (T3, T4, T5, T6, T7)) -> (r: (T1, T2, T3, T4, T5, T6, T7)) {
        (self.0, self.1, other.0, other.1, other.2, other.3, other.4)
    }

    proof fn lemma_join_arity(self, other: (T3, T4, T5, T6, T7)) {
    }
}

impl<T1, T2, T3, T4, T5, T6, T7> JoinableTuple<(T4, T5, T6, T7)> for (T1, T2, T3) {
    type Join = (T1, T2, T3, T4, T5, T6, T7);

    open spec fn spec_join(self, other: (T4, T5, T6, T7)) -> (T1, T2, T3, T4, T5, T6, T7) {
        (self.0, self.1, self.2, other.0, other.1, other.2, other.3)
    }

    fn join(self, other: (T4, T5, T6, T7)) -> (r: (T1, T2, T3, T4, T5, T6, T7)) {
        (self.0, self.1, self.2, other.0, other.1, other.2, other.3)
    }

    proof fn lemma_join_arity(self, other: (T4, T5, T6, T7)) {
    }
}

impl<T1, T2, T3, T4, T5, T6, T7> JoinableTuple<(T5, T6, T7)> for (T1, T2, T3, T4) {
    type Join = (T1, T2, T3, T4, T5, T6, T7);

    open spec fn spec_join(self, other: (T5, T6, T7)) -> (T1, T2, T3, T4, T5, T6, T7) {
        (self.0, self.1, self.2, self.3, other.0, other.1, other.2)
    }

    fn join(self, other: (T5, T6, T7)) -> (r: (T1, T2, T3, T4, T5, T6, T7)) {
        (self.0, self.1, self.2, self.3, other.0, other.1, other.2)
    }

    proof fn lemma_join_arity(self, other: (T5, T6, T7)) {
    }
}

impl<T1, T2, T3, T4, T5, T6, T7> JoinableTuple<(T6, T7)> for (T1, T2, T3, T4, T5) {
    type Join = (T1, T2, T3, T4, T5, T6, T7);

    open spec fn spec_join(self, other: (T6, T7)) -> (T1, T2, T3, T4, T5, T6, T7) {
        (self.0, self.1, self.2, self.3, self.4, other.0, other.1)
    }

    fn join(self, other: (T6, T7)) -> (r: (T1, T2, T3, T4, T5, T6, T7)) {
        (self.0, self.1, self.2, self.3, self.4, other.0, other.1)
    }

    proof fn lemma_join_arity(self, other: (T6, T7)) {
    }
}

impl<T1, T2, T3, T4, T5, T6, T7> JoinableTuple<(T7,)> for (T1, T2, T3, T4, T5, T6) {
    type Join = (T1, T2, T3, T4, T5, T6, T7);

    open spec fn spec_join(self, other: (T7,)) -> (T1, T2, T3, T4, T5, T6, T7) {
        (self.0, self.1, self.2, self.3, self.4, self.5, other.0)
    }

    fn join(self, other: (T7,)) -> (r: (T1, T2, T3, T4, T5, T6, T7)) {
        (self.0, self.1, self.2, self.3, self.4, self.5, other.0)
    }

    proof fn lemma_join_arity(self, other: (T7,)) {
    }
}

impl<T1, T2, T3, T4, T5, T6, T7> JoinableTuple<()> for (T1, T2, T3, T4, T5, T6, T7) {
    type Join = (T1, T2, T3, T4, T5, T6, T7);

    open spec fn spec_join(self, other: ()) -> (T1, T2, T3, T4, T5, T6, T7) {
        (self.0, self.1, self.2, self.3, self.4, self.5, self.6)
    }

    fn join(self, other: ()) -> (r: (T1, T2, T3, T4, T5, T6, T7)) {
        (self.0, self.1, self.2, self.3, self.4, self.5, self.6)
    }

    proof fn lemma_join_arity(self, other: ()) {
    }
}

impl<T1, T2, T3, T4, T5, T6, T7, T8> Sealed for (T1, T2, T3, T4, T5, T6, T7, T8) {}

impl<T1, T2, T3, T4, T5, T6, T7, T8> DynTuple for (T1, T2, T3, T4, T5, T6, T7, T8) {
    open spec fn spec_arity(&self) -> nat {
        8
    }

    fn arity(&self) -> (r: usize) {
        8
    }
}

impl<T1, T2, T3, T4, T5, T6, T7, T8> Tuple for (T1, T2, T3, T4, T5, T6, T7, T8) {
    const ARITY: usize = 8;

    open spec fn spec_type_arity() -> nat {
        8
    }

    proof fn lemma_arity(&self) {
    }

    proof fn lemma_type_arity() {
    }
}

impl<T1, T2, T3, T4, T5, T6, T7, T8, T> GrowableTuple<T> for (T1, T2, T3, T4, T5, T6, T7, T8) {
    type Append = (T1, T2, T3, T4, T5, T6, T7, T8, T);

    type Prepend = (T, T1, T2, T3, T4, T5, T6, T7, T8);

    open spec fn spec_append(self, value: T) -> (T1, T2, T3, T4, T5, T6, T7, T8, T) {
        (self.0, self.1, self.2, self.3, self.4, self.5, self.6, self.7, value)
    }

    open spec fn spec_prepend(self, value: T) -> (T, T1, T2, T3, T4, T5, T6, T7, T8) {
        (value, self.0, self.1, self.2, self.3, self.4, self.5, self.6, self.7)
    }

    fn append(self, value: T) -> (r: (T1, T2, T3, T4, T5, T6, T7, T8, T)) {
        (self.0, self.1, self.2, self.3, self.4, self.5, self.6, self.7, value)
    }

    fn prepend(self, value: T) -> (r: (T, T1, T2, T3, T4, T5, T6, T7, T8)) {
        (value, self.0, self.1, self.2, self.3, self.4, self.5, self.6, self.7)
    }

    proof fn lemma_grow_arity(self, value: T) {
    }
}

impl<T1, T2, T3, T4, T5, T6, T7, T8> NonEmptyTuple for (T1, T2, T3, T4, T5, T6, T7, T8) {
    type Head = T1;

    type Tail = T8;

    type TruncateHead = (T2, T3, T4, T5, T6, T7, T8);

    type TruncateTail = (T1, T2, T3, T4, T5, T6, T7);

    open spec fn spec_head(&self) -> T1 {
        self.0
    }

    open spec fn spec_tail(&self) -> T8 {
        self.7
    }

    open spec fn spec_with_head(self, value: T1) -> (T1, T2, T3, T4, T5, T6, T7, T8) {
        (value, self.1, self.2, self.3, self.4, self.5, self.6, self.7)
    }

    open spec fn spec_with_tail(self, value: T8) -> (T1, T2, T3, T4, T5, T6, T7, T8) {
        (self.0, self.1, self.2, self.3, self.4, self.5, self.6, value)
    }

    open spec fn spec_truncate_head(self) -> (T1, (T2, T3, T4, T5, T6, T7, T8)) {
        (self.0, (self.1, self.2, self.3, self.4, self.5, self.6, self.7))
    }

    open spec fn spec_truncate_tail(self) -> ((T1, T2, T3, T4, T5, T6, T7), T8) {
        ((self.0, self.1, self.2, self.3, self.4, self.5, self.6), self.7)
    }

    fn head(&self) -> (r: &T1) {
        &self.0
    }

    fn head_mut(&mut self) -> (r: &mut T1) {
        &mut self.0
    }

    fn tail(&self) -> (r: &T8) {
        &self.7
    }

    fn tail_mut(&mut self) -> (r: &mut T8) {
        &mut self.7
    }

    fn truncate_head(self) -> (r: (T1, (T2, T3, T4, T5, T6, T7, T8))) {
        (self.0, (self.1, self.2, self.3, self.4, self.5, self.6, self.7))
    }

    fn truncate_tail(self) -> (r: ((T1, T2, T3, T4, T5, T6, T7), T8)) {
        ((self.0, self.1, self.2, self.3, self.4, self.5, self.6), self.7)
    }

    proof fn lemma_truncate_head(self) {
    }

    proof fn lemma_truncate_tail(self) {
    }
}

impl<T1, T2, T3, T4, T5, T6, T7, T8> NonUnaryTuple for (T1, T2, T3, T4, T5, T6, T7, T8) {
    type TruncateHeadTail = (T2, T3, T4, T5, T6, T7);

    open spec fn spec_truncate_head_tail(self) -> (T1, (T2, T3, T4, T5, T6, T7), T8) {
        (self.0, (self.1, self.2, self.3, self.4, self.5, self.6), self.7)
    }

    fn head_tail(&self) -> (r: (&T1, &T8)) {
        (&self.0, &self.7)
    }

    fn head_tail_mut(&mut self) -> (r: (&mut T1, &mut T8)) {
        (&mut self.0, &mut self.7)
    }

    fn truncate_head_tail(self) -> (r: (T1, (T2, T3, T4, T5, T6, T7), T8)) {
        (self.0, (self.1, self.2, self.3, self.4, self.5, self.6), self.7)
    }

    proof fn lemma_truncate_head_tail(self) {
    }
}

impl<T1, T2, T3, T4, T5, T6, T7, T8> IndexableTuple<0> for (T1, T2, T3, T4, T5, T6, T7, T8) {
    type Value = T1;

    open spec fn spec_index(&self) -> T1 {
        self.0
    }

    open spec fn spec_with_index(self, value: T1) -> (T1, T2, T3, T4, T5, T6, T7, T8) {
        (value, self.1, self.2, self.3, self.4, self.5, self.6, self.7)
    }

    fn index_ref(&self) -> (r: &T1) {
        &self.0
    }

    fn index_mut(&mut self) -> (r: &mut T1) {
        &mut self.0
    }

    fn into_index(self) -> (r: T1) {
        self.0
    }

    proof fn lemma_index_in_range(&self) {
    }
}

impl<T1, T2, T3, T4, T5, T6, T7, T8> IndexableTuple<1> for (T1, T2, T3, T4, T5, T6, T7, T8) {
    type Value = T2;

    open spec fn spec_index(&self) -> T2 {
        self.1
    }

    open spec fn spec_with_index(self, value: T2) -> (T1, T2, T3, T4, T5, T6, T7, T8) {
        (self.0, value, self.2, self.3, self.4, self.5, self.6, self.7)
    }

    fn index_ref(&self) -> (r: &T2) {
        &self.1
    }

    fn index_mut(&mut self) -> (r: &mut T2) {
        &mut self.1
    }

    fn into_index(self) -> (r: T2) {
        self.1
    }

    proof fn lemma_index_in_range(&self) {
    }
}

impl<T1, T2, T3, T4, T5, T6, T7, T8> IndexableTuple<2> for (T1, T2, T3, T4, T5, T6, T7, T8) {
    type Value = T3;

    open spec fn spec_index(&self) -> T3 {
        self.2
    }

    open spec fn spec_with_index(self, value: T3) -> (T1, T2, T3, T4, T5, T6, T7, T8) {
        (self.0, self.1, value, self.3, self.4, self.5, self.6, self.7)
    }

    fn index_ref(&self) -> (r: &T3) {
        &self.2
    }

    fn index_mut(&mut self) -> (r: &mut T3) {
        &mut self.2
    }

    fn into_index(self) -> (r: T3) {
        self.2
    }

    proof fn lemma_index_in_range(&self) {
    }
}

impl<T1, T2, T3, T4, T5, T6, T7, T8> IndexableTuple<3> for (T1, T2, T3, T4, T5, T6, T7, T8) {
    type Value = T4;

    open spec fn spec_index(&self) -> T4 {
        self.3
    }

    open spec fn spec_with_index(self, value: T4) -> (T1, T2, T3, T4, T5, T6, T7, T8) {
        (self.0, self.1, self.2, value, self.4, self.5, self.6, self.7)
    }

    fn index_ref(&self) -> (r: &T4) {
        &self.3
    }

    fn index_mut(&mut self) -> (r: &mut T4) {
        &mut self.3
    }

    fn into_index(self) -> (r: T4) {
        self.3
    }

    proof fn lemma_index_in_range(&self) {
    }
}

impl<T1, T2, T3, T4, T5, T6, T7, T8> IndexableTuple<4> for (T1, T2, T3, T4, T5, T6, T7, T8) {
    type Value = T5;

    open spec fn spec_index(&self) -> T5 {
        self.4
    }

    open spec fn spec_with_index(self, value: T5) -> (T1, T2, T3, T4, T5, T6, T7, T8) {
        (self.0, self.1, self.2, self.3, value, self.5, self.6, self.7)
    }

    fn index_ref(&self) -> (r: &T5) {
        &self.4
    }

    fn index_mut(&mut self) -> (r: &mut T5) {
        &mut self.4
    }

    fn into_index(self) -> (r: T5) {
        self.4
    }

    proof fn lemma_index_in_range(&self) {
    }
}

impl<T1, T2, T3, T4, T5, T6, T7, T8> IndexableTuple<5> for (T1, T2, T3, T4, T5, T6, T7, T8) {
    type Value = T6;

    open spec fn spec_index(&self) -> T6 {
        self.5
    }

    open spec fn spec_with_index(self, value: T6) -> (T1, T2, T3, T4, T5, T6, T7, T8) {
        (self.0, self.1, self.2, self.3, self.4, value, self.6, self.7)
    }

    fn index_ref(&self) -> (r: &T6) {
        &self.5
    }

    fn index_mut(&mut self) -> (r: &mut T6) {
        &mut self.5
    }

    fn into_index(self) -> (r: T6) {
        self.5
    }

    proof fn lemma_index_in_range(&self) {
    }
}

impl<T1, T2, T3, T4, T5, T6, T7, T8> IndexableTuple<6> for (T1, T2, T3, T4, T5, T6, T7, T8) {
    type Value = T7;

    open spec fn spec_index(&self) -> T7 {
        self.6
    }

    open spec fn spec_with_index(self, value: T7) -> (T1, T2, T3, T4, T5, T6, T7, T8) {
        (self.0, self.1, self.2, self.3, self.4, self.5, value, self.7)
    }

    fn index_ref(&self) -> (r: &T7) {
        &self.6
    }

    fn index_mut(&mut self) -> (r: &mut T7) {
        &mut self.6
    }

    fn into_index(self) -> (r: T7) {
        self.6
    }

    proof fn lemma_index_in_range(&self) {
    }
}

impl<T1, T2, T3, T4, T5, T6, T7, T8> IndexableTuple<7> for (T1, T2, T3, T4, T5, T6, T7, T8) {
    type Value = T8;

    open spec fn spec_index(&self) -> T8 {
        self.7
    }

    open spec fn spec_with_index(self, value: T8) -> (T1, T2, T3, T4, T5, T6, T7, T8) {
        (self.0, self.1, self.2, self.3, self.4, self.5, self.6, value)
    }

    fn index_ref(&self) -> (r: &T8) {
        &self.7
    }

    fn index_mut(&mut self) -> (r: &mut T8) {
        &mut self.7
    }

    fn into_index(self) -> (r: T8) {
        self.7
    }

    proof fn lemma_index_in_range(&self) {
    }
}

impl<T1, T2, T3, T4, T5, T6, T7, T8> JoinableTuple<(T1, T2, T3, T4, T5, T6, T7, T8)> for () {
    type Join = (T1, T2, T3, T4, T5, T6, T7, T8);

    open spec fn spec_join(self, other: (T1, T2, T3, T4, T5, T6, T7, T8)) -> (T1, T2, T3, T4, T5, T6, T7, T8) {
        (other.0, other.1, other.2, other.3, other.4, other.5, other.6, other.7)
    }

    fn join(self, other: (T1, T2, T3, T4, T5, T6, T7, T8)) -> (r: (T1, T2, T3, T4, T5, T6, T7, T8)) {
        (other.0, other.1, other.2, other.3, other.4, other.5, other.6, other.7)
    }

    proof fn lemma_join_arity(self, other: (T1, T2, T3, T4, T5, T6, T7, T8)) {
    }
}

impl<T1, T2, T3, T4, T5, T6, T7, T8> JoinableTuple<(T2, T3, T4, T5, T6, T7, T8)> for (T1,) {
    type Join = (T1, T2, T3, T4, T5, T6, T7, T8);

    open spec fn spec_join(self, other: (T2, T3, T4, T5, T6, T7, T8)) -> (T1, T2, T3, T4, T5, T6, T7, T8) {
        (self.0, other.0, other.1, other.2, other.3, other.4, other.5, other.6)
    }

    fn join(self, other: (T2, T3, T4, T5, T6, T7, T8)) -> (r: (T1, T2, T3, T4, T5, T6, T7, T8)) {
        (self.0, other.0, other.1, other.2, other.3, other.4, other.5, other.6)
    }

    proof fn lemma_join_arity(self, other: (T2, T3, T4, T5, T6, T7, T8)) {
    }
}

impl<T1, T2, T3, T4, T5, T6, T7, T8> JoinableTuple<(T3, T4, T5, T6, T7, T8)> for (T1, T2) {
    type Join = (T1, T2, T3, T4, T5, T6, T7, T8);

    open spec fn spec_join(self, other: (T3, T4, T5, T6, T7, T8)) -> (T1, T2, T3, T4, T5, T6, T7, T8) {
        (self.0, self.1, other.0, other.1, other.2, other.3, other.4, other.5)
    }

    fn join(self, other: (T3, T4, T5, T6, T7, T8)) -> (r: (T1, T2, T3, T4, T5, T6, T7, T8)) {
        (self.0, self.1, other.0, other.1, other.2, other.3, other.4, other.5)
    }

    proof fn lemma_join_arity(self, other: (T3, T4, T5, T6, T7, T8)) {
    }
}

impl<T1, T2, T3, T4, T5, T6, T7, T8> JoinableTuple<(T4, T5, T6, T7, T8)> for (T1, T2, T3) {
    type Join = (T1, T2, T3, T4, T5, T6, T7, T8);

    open spec fn spec_join(self, other: (T4, T5, T6, T7, T8)) -> (T1, T2, T3, T4, T5, T6, T7, T8) {
        (self.0, self.1, self.2, other.0, other.1, other.2, other.3, other.4)
    }

    fn join(self, other: (T4, T5, T6, T7, T8)) -> (r: (T1, T2, T3, T4, T5, T6, T7, T8)) {
        (self.0, self.1, self.2, other.0, other.1, other.2, other.3, other.4)
    }

    proof fn lemma_join_arity(self, other: (T4, T5, T6, T7, T8)) {
    }
}

impl<T1, T2, T3, T4, T5, T6, T7, T8> JoinableTuple<(T5, T6, T7, T8)> for (T1, T2, T3, T4) {
    type Join = (T1, T2, T3, T4, T5, T6, T7, T8);

    open spec fn spec_join(self, other: (T5, T6, T7, T8)) -> (T1, T2, T3, T4, T5, T6, T7, T8) {
        (self.0, self.1, self.2, self.3, other.0, other.1, other.2, other.3)
    }

    fn join(self, other: (T5, T6, T7, T8)) -> (r: (T1, T2, T3, T4, T5, T6, T7, T8)) {
        (self.0, self.1, self.2, self.3, other.0, other.1, other.2, other.3)
    }

    proof fn lemma_join_arity(self, other: (T5, T6, T7, T8)) {
    }
}

impl<T1, T2, T3, T4, T5, T6, T7, T8> JoinableTuple<(T6, T7, T8)> for (T1, T2, T3, T4, T5) {
    type Join = (T1, T2, T3, T4, T5, T6, T7, T8);

    open spec fn spec_join(self, other: (T6, T7, T8)) -> (T1, T2, T3, T4, T5, T6, T7, T8) {
        (self.0, self.1, self.2, self.3, self.4, other.0, other.1, other.2)
    }

    fn join(self, other: (T6, T7, T8)) -> (r: (T1, T2, T3, T4, T5, T6, T7, T8)) {
        (self.0, self.1, self.2, self.3, self.4, other.0, other.1, other.2)
    }

    proof fn lemma_join_arity(self, other: (T6, T7, T8)) {
    }
}

impl<T1, T2, T3, T4, T5, T6, T7, T8> JoinableTuple<(T7, T8)> for (T1, T2, T3, T4, T5, T6) {
    type Join = (T1, T2, T3, T4, T5, T6, T7, T8);

    open spec fn spec_join(self, other: (T7, T8)) -> (T1, T2, T3, T4, T5, T6, T7, T8) {
        (self.0, self.1, self.2, self.3, self.4, self.5, other.0, other.1)
    }

    fn join(self, other: (T7, T8)) -> (r: (T1, T2, T3, T4, T5, T6, T7, T8)) {
        (self.0, self.1, self.2, self.3, self.4, self.5, other.0, other.1)
    }

    proof fn lemma_join_arity(self, other: (T7, T8)) {
    }
}

impl<T1, T2, T3, T4, T5, T6, T7, T8> JoinableTuple<(T8,)> for (T1, T2, T3, T4, T5, T6, T7) {
    type Join = (T1, T2, T3, T4, T5, T6, T7, T8);

    open spec fn spec_join(self, other: (T8,)) -> (T1, T2, T3, T4, T5, T6, T7, T8) {
        (self.0, self.1, self.2, self.3, self.4, self.5, self.6, other.0)
    }

    fn join(self, other: (T8,)) -> (r: (T1, T2, T3, T4, T5, T6, T7, T8)) {
        (self.0, self.1, self.2, self.3, self.4, self.5, self.6, other.0)
    }

    proof fn lemma_join_arity(self, other: (T8,)) {
    }
}

impl<T1, T2, T3, T4, T5, T6, T7, T8> JoinableTuple<()> for (T1, T2, T3, T4, T5, T6, T7, T8) {
    type Join = (T1, T2, T3, T4, T5, T6, T7, T8);

    open spec fn spec_join(self, other: ()) -> (T1, T2, T3, T4, T5, T6, T7, T8) {
        (self.0, self.1, self.2, self.3, self.4, self.5, self.6, self.7)
    }

    fn join(self, other: ()) -> (r: (T1, T2, T3, T4, T5, T6, T7, T8)) {
        (self.0, self.1, self.2, self.3, self.4, self.5, self.6, self.7)
    }

    proof fn lemma_join_arity(self, other: ()) {
    }
}

impl<T1, T2, T3, T4, T5, T6, T7, T8, T9> Sealed for (T1, T2, T3, T4, T5, T6, T7, T8, T9) {}

impl<T1, T2, T3, T4, T5, T6, T7, T8, T9> DynTuple for (T1, T2, T3, T4, T5, T6, T7, T8, T9) {
    open spec fn spec_arity(&self) -> nat {
        9
    }

    fn arity(&self) -> (r: usize) {
        9
    }
}

impl<T1, T2, T3, T4, T5, T6, T7, T8, T9> Tuple for (T1, T2, T3, T4, T5, T6, T7, T8, T9) {
    const ARITY: usize = 9;

    open spec fn spec_type_arity() -> nat {
        9
    }

    proof fn lemma_arity(&self) {
    }

    proof fn lemma_type_arity() {
    }
}

impl<T1, T2, T3, T4, T5, T6, T7, T8, T9, T> GrowableTuple<T> for (T1, T2, T3, T4, T5, T6, T7, T8, T9) {
    type Append = (T1, T2, T3, T4, T5, T6, T7, T8, T9, T);

    type Prepend = (T, T1, T2, T3, T4, T5, T6, T7, T8, T9);

    open spec fn spec_append(self, value: T) -> (T1, T2, T3, T4, T5, T6, T7, T8, T9, T) {
        (self.0, self.1, self.2, self.3, self.4, self.5, self.6, self.7, self.8, value)
    }

    open spec fn spec_prepend(self, value: T) -> (T, T1, T2, T3, T4, T5, T6, T7, T8, T9) {
        (value, self.0, self.1, self.2, self.3, self.4, self.5, self.6, self.7, self.8)
    }

    fn append(self, value: T) -> (r: (T1, T2, T3, T4, T5, T6, T7, T8, T9, T)) {
        (self.0, self.1, self.2, self.3, self.4, self.5, self.6, self.7, self.8, value)
    }

    fn prepend(self, value: T) -> (r: (T, T1, T2, T3, T4, T5, T6, T7, T8, T9)) {
        (value, self.0, self.1, self.2, self.3, self.4, self.5, self.6, self.7, self.8)
    }

    proof fn lemma_grow_arity(self, value: T) {
    }
}

impl<T1, T2, T3, T4, T5, T6, T7, T8, T9> NonEmptyTuple for (T1, T2, T3, T4, T5, T6, T7, T8, T9) {
    type Head = T1;

    type Tail = T9;

    type TruncateHead = (T2, T3, T4, T5, T6, T7, T8, T9);

    type TruncateTail = (T1, T2, T3, T4, T5, T6, T7, T8);

    open spec fn spec_head(&self) -> T1 {
        self.0
    }

    open spec fn spec_tail(&self) -> T9 {
        self.8
    }

    open spec fn spec_with_head(self, value: T1) -> (T1, T2, T3, T4, T5, T6, T7, T8, T9) {
        (value, self.1, self.2, self.3, self.4, self.5, self.6, self.7, self.8)
    }

    open spec fn spec_with_tail(self, value: T9) -> (T1, T2, T3, T4, T5, T6, T7, T8, T9) {
        (self.0, self.1, self.2, self.3, self.4, self.5, self.6, self.7, value)
    }

    open spec fn spec_truncate_head(self) -> (T1, (T2, T3, T4, T5, T6, T7, T8, T9)) {
        (self.0, (self.1, self.2, self.3, self.4, self.5, self.6, self.7, self.8))
    }

    open spec fn spec_truncate_tail(self) -> ((T1, T2, T3, T4, T5, T6, T7, T8), T9) {
        ((self.0, self.1, self.2, self.3, self.4, self.5, self.6, self.7), self.8)
    }

    fn head(&self) -> (r: &T1) {
        &self.0
    }

    fn head_mut(&mut self) -> (r: &mut T1) {
        &mut self.0
    }

    fn tail(&self) -> (r: &T9) {
        &self.8
    }

    fn tail_mut(&mut self) -> (r: &mut T9) {
        &mut self.8
    }

    fn truncate_head(self) -> (r: (T1, (T2, T3, T4, T5, T6, T7, T8, T9))) {
        (self.0, (self.1, self.2, self.3, self.4, self.5, self.6, self.7, self.8))
    }

    fn truncate_tail(self) -> (r: ((T1, T2, T3, T4, T5, T6, T7, T8), T9)) {
        ((self.0, self.1, self.2, self.3, self.4, self.5, self.6, self.7), self.8)
    }

    proof fn lemma_truncate_head(self) {
    }

    proof fn lemma_truncate_tail(self) {
    }
}

impl<T1, T2, T3, T4, T5, T6, T7, T8, T9> NonUnaryTuple for (T1, T2, T3, T4, T5, T6, T7, T8, T9) {
    type TruncateHeadTail = (T2, T3, T4, T5, T6, T7, T8);

    open spec fn spec_truncate_head_tail(self) -> (T1, (T2, T3, T4, T5, T6, T7, T8), T9) {
        (self.0, (self.1, self.2, self.3, self.4, self.5, self.6, self.7), self.8)
    }

    fn head_tail(&self) -> (r: (&T1, &T9)) {
        (&self.0, &self.8)
    }

    fn head_tail_mut(&mut self) -> (r: (&mut T1, &mut T9)) {
        (&mut self.0, &mut self.8)
    }

    fn truncate_head_tail(self) -> (r: (T1, (T2, T3, T4, T5, T6, T7, T8), T9)) {
        (self.0, (self.1, self.2, self.3, self.4, self.5, self.6, self.7), self.8)
    }

    proof fn lemma_truncate_head_tail(self) {
    }
}

impl<T1, T2, T3, T4, T5, T6, T7, T8, T9> IndexableTuple<0> for (T1, T2, T3, T4, T5, T6, T7, T8, T9) {
    type Value = T1;

    open spec fn spec_index(&self) -> T1 {
        self.0
    }

    open spec fn spec_with_index(self, value: T1) -> (T1, T2, T3, T4, T5, T6, T7, T8, T9) {
        (value, self.1, self.2, self.3, self.4, self.5, self.6, self.7, self.8)
    }

    fn index_ref(&self) -> (r: &T1) {
        &self.0
    }

    fn index_mut(&mut self) -> (r: &mut T1) {
        &mut self.0
    }

    fn into_index(self) -> (r: T1) {
        self.0
    }

    proof fn lemma_index_in_range(&self) {
    }
}

impl<T1, T2, T3, T4, T5, T6, T7, T8, T9> IndexableTuple<1> for (T1, T2, T3, T4, T5, T6, T7, T8, T9) {
    type Value = T2;

    open spec fn spec_index(&self) -> T2 {
        self.1
    }

    open spec fn spec_with_index(self, value: T2) -> (T1, T2, T3, T4, T5, T6, T7, T8, T9) {
        (self.0, value, self.2, self.3, self.4, self.5, self.6, self.7, self.8)
    }

    fn index_ref(&self) -> (r: &T2) {
        &self.1
    }

    fn index_mut(&mut self) -> (r: &mut T2) {
        &mut self.1
    }

    fn into_index(self) -> (r: T2) {
        self.1
    }

    proof fn lemma_index_in_range(&self) {
    }
}

impl<T1, T2, T3, T4, T5, T6, T7, T8, T9> IndexableTuple<2> for (T1, T2, T3, T4, T5, T6, T7, T8, T9) {
    type Value = T3;

    open spec fn spec_index(&self) -> T3 {
        self.2
    }

    open spec fn spec_with_index(self, value: T3) -> (T1, T2, T3, T4, T5, T6, T7, T8, T9) {
        (self.0, self.1, value, self.3, self.4, self.5, self.6, self.7, self.8)
    }

    fn index_ref(&self) -> (r: &T3) {
        &self.2
    }

    fn index_mut(&mut self) -> (r: &mut T3) {
        &mut self.2
    }

    fn into_index(self) -> (r: T3) {
        self.2
    }

    proof fn lemma_index_in_range(&self) {
    }
}

impl<T1, T2, T3, T4, T5, T6, T7, T8, T9> IndexableTuple<3> for (T1, T2, T3, T4, T5, T6, T7, T8, T9) {
    type Value = T4;

    open spec fn spec_index(&self) -> T4 {
        self.3
    }

    open spec fn spec_with_index(self, value: T4) -> (T1, T2, T3, T4, T5, T6, T7, T8, T9) {
        (self.0, self.1, self.2, value, self.4, self.5, self.6, self.7, self.8)
    }

    fn index_ref(&self) -> (r: &T4) {
        &self.3
    }

    fn index_mut(&mut self) -> (r: &mut T4) {
        &mut self.3
    }

    fn into_index(self) -> (r: T4) {
        self.3
    }

    proof fn lemma_index_in_range(&self) {
    }
}

impl<T1, T2, T3, T4, T5, T6, T7, T8, T9> IndexableTuple<4> for (T1, T2, T3, T4, T5, T6, T7, T8, T9) {
    type Value = T5;

    open spec fn spec_index(&self) -> T5 {
        self.4
    }

    open spec fn spec_with_index(self, value: T5) -> (T1, T2, T3, T4, T5, T6, T7, T8, T9) {
        (self.0, self.1, self.2, self.3, value, self.5, self.6, self.7, self.8)
    }

    fn index_ref(&self) -> (r: &T5) {
        &self.4
    }

    fn index_mut(&mut self) -> (r: &mut T5) {
        &mut self.4
    }

    fn into_index(self) -> (r: T5) {
        self.4
    }

    proof fn lemma_index_in_range(&self) {
    }
}

impl<T1, T2, T3, T4, T5, T6, T7, T8, T9> IndexableTuple<5> for (T1, T2, T3, T4, T5, T6, T7, T8, T9) {
    type Value = T6;

    open spec fn spec_index(&self) -> T6 {
        self.5
    }

    open spec fn spec_with_index(self, value: T6) -> (T1, T2, T3, T4, T5, T6, T7, T8, T9) {
        (self.0, self.1, self.2, self.3, self.4, value, self.6, self.7, self.8)
    }

    fn index_ref(&self) -> (r: &T6) {
        &self.5
    }

    fn index_mut(&mut self) -> (r: &mut T6) {
        &mut self.5
    }

    fn into_index(self) -> (r: T6) {
        self.5
    }

    proof fn lemma_index_in_range(&self) {
    }
}

impl<T1, T2, T3, T4, T5, T6, T7, T8, T9> IndexableTuple<6> for (T1, T2, T3, T4, T5, T6, T7, T8, T9) {
    type Value = T7;

    open spec fn spec_index(&self) -> T7 {
        self.6
    }

    open spec fn spec_with_index(self, value: T7) -> (T1, T2, T3, T4, T5, T6, T7, T8, T9) {
        (self.0, self.1, self.2, self.3, self.4, self.5, value, self.7, self.8)
    }

    fn index_ref(&self) -> (r: &T7) {
        &self.6
    }

    fn index_mut(&mut self) -> (r: &mut T7) {
        &mut self.6
    }

    fn into_index(self) -> (r: T7) {
        self.6
    }

    proof fn lemma_index_in_range(&self) {
    }
}

impl<T1, T2, T3, T4, T5, T6, T7, T8, T9> IndexableTuple<7> for (T1, T2, T3, T4, T5, T6, T7, T8, T9) {
    type Value = T8;

    open spec fn spec_index(&self) -> T8 {
        self.7
    }

    open spec fn spec_with_index(self, value: T8) -> (T1, T2, T3, T4, T5, T6, T7, T8, T9) {
        (self.0, self.1, self.2, self.3, self.4, self.5, self.6, value, self.8)
    }

    fn index_ref(&self) -> (r: &T8) {
        &self.7
    }

    fn index_mut(&mut self) -> (r: &mut T8) {
        &mut self.7
    }

    fn into_index(self) -> (r: T8) {
        self.7
    }

    proof fn lemma_index_in_range(&self) {
    }
}

impl<T1, T2, T3, T4, T5, T6, T7, T8, T9> IndexableTuple<8> for (T1, T2, T3, T4, T5, T6, T7, T8, T9) {
    type Value = T9;

    open spec fn spec_index(&self) -> T9 {
        self.8
    }

    open spec fn spec_with_index(self, value: T9) -> (T1, T2, T3, T4, T5, T6, T7, T8, T9) {
        (self.0, self.1, self.2, self.3, self.4, self.5, self.6, self.7, value)
    }

    fn index_ref(&self) -> (r: &T9) {
        &self.8
    }

    fn index_mut(&mut self) -> (r: &mut T9) {
        &mut self.8
    }

    fn into_index(self) -> (r: T9) {
        self.8
    }

    proof fn lemma_index_in_range(&self) {
    }
}

impl<T1, T2, T3, T4, T5, T6, T7, T8, T9> JoinableTuple<(T1, T2, T3, T4, T5, T6, T7, T8, T9)> for () {
    type Join = (T1, T2, T3, T4, T5, T6, T7, T8, T9);

    open spec fn spec_join(self, other: (T1, T2, T3, T4, T5, T6, T7, T8, T9)) -> (T1, T2, T3, T4, T5, T6, T7, T8, T9) {
        (other.0, other.1, other.2, other.3, other.4, other.5, other.6, other.7, other.8)
    }

    fn join(self, other: (T1, T2, T3, T4, T5, T6, T7, T8, T9)) -> (r: (T1, T2, T3, T4, T5, T6, T7, T8, T9)) {
        (other.0, other.1, other.2, other.3, other.4, other.5, other.6, other.7, other.8)
    }

    proof fn lemma_join_arity(self, other: (T1, T2, T3, T4, T5, T6, T7, T8, T9)) {
    }
}

impl<T1, T2, T3, T4, T5, T6, T7, T8, T9> JoinableTuple<(T2, T3, T4, T5, T6, T7, T8, T9)> for (T1,) {
    type Join = (T1, T2, T3, T4, T5, T6, T7, T8, T9);

    open spec fn spec_join(self, other: (T2, T3, T4, T5, T6, T7, T8, T9)) -> (T1, T2, T3, T4, T5, T6, T7, T8, T9) {
        (self.0, other.0, other.1, other.2, other.3, other.4, other.5, other.6, other.7)
    }

    fn join(self, other: (T2, T3, T4, T5, T6, T7, T8, T9)) -> (r: (T1, T2, T3, T4, T5, T6, T7, T8, T9)) {
        (self.0, other.0, other.1, other.2, other.3, other.4, other.5, other.6, other.7)
    }

    proof fn lemma_join_arity(self, other: (T2, T3, T4, T5, T6, T7, T8, T9)) {
    }
}

impl<T1, T2, T3, T4, T5, T6, T7, T8, T9> JoinableTuple<(T3, T4, T5, T6, T7, T8, T9)> for (T1, T2) {
    type Join = (T1, T2, T3, T4, T5, T6, T7, T8, T9);

    open spec fn spec_join(self, other: (T3, T4, T5, T6, T7, T8, T9)) -> (T1, T2, T3, T4, T5, T6, T7, T8, T9) {
        (self.0, self.1, other.0, other.1, other.2, other.3, other.4, other.5, other.6)
    }

    fn join(self, other: (T3, T4, T5, T6, T7, T8, T9)) -> (r: (T1, T2, T3, T4, T5, T6, T7, T8, T9)) {
        (self.0, self.1, other.0, other.1, other.2, other.3, other.4, other.5, other.6)
    }

    proof fn lemma_join_arity(self, other: (T3, T4, T5, T6, T7, T8, T9)) {
    }
}

impl<T1, T2, T3, T4, T5, T6, T7, T8, T9> JoinableTuple<(T4, T5, T6, T7, T8, T9)> for (T1, T2, T3) {
    type Join = (T1, T2, T3, T4, T5, T6, T7, T8, T9);

    open spec fn spec_join(self, other: (T4, T5, T6, T7, T8, T9)) -> (T1, T2, T3, T4, T5, T6, T7, T8, T9) {
        (self.0, self.1, self.2, other.0, other.1, other.2, other.3, other.4, other.5)
    }

    fn join(self, other: (T4, T5, T6, T7, T8, T9)) -> (r: (T1, T2, T3, T4, T5, T6, T7, T8, T9)) {
        (self.0, self.1, self.2, other.0, other.1, other.2, other.3, other.4, other.5)
    }

    proof fn lemma_join_arity(self, other: (T4, T5, T6, T7, T8, T9)) {
    }
}

impl<T1, T2, T3, T4, T5, T6, T7, T8, T9> JoinableTuple<(T5, T6, T7, T8, T9)> for (T1, T2, T3, T4) {
    type Join = (T1, T2, T3, T4, T5, T6, T7, T8, T9);

    open spec fn spec_join(self, other: (T5, T6, T7, T8, T9)) -> (T1, T2, T3, T4, T5, T6, T7, T8, T9) {
        (self.0, self.1, self.2, self.3, other.0, other.1, other.2, other.3, other.4)
    }

    fn join(self, other: (T5, T6, T7, T8, T9)) -> (r: (T1, T2, T3, T4, T5, T6, T7, T8, T9)) {
        (self.0, self.1, self.2, self.3, other.0, other.1, other.2, other.3, other.4)
    }

    proof fn lemma_join_arity(self, other: (T5, T6, T7, T8, T9)) {
    }
}

impl<T1, T2, T3, T4, T5, T6, T7, T8, T9> JoinableTuple<(T6, T7, T8, T9)> for (T1, T2, T3, T4, T5) {
    type Join = (T1, T2, T3, T4, T5, T6, T7, T8, T9);

    open spec fn spec_join(self, other: (T6, T7, T8, T9)) -> (T1, T2, T3, T4, T5, T6, T7, T8, T9) {
        (self.0, self.1, self.2, self.3, self.4, other.0, other.1, other.2, other.3)
    }

    fn join(self, other: (T6, T7, T8, T9)) -> (r: (T1, T2, T3, T4, T5, T6, T7, T8, T9)) {
        (self.0, self.1, self.2, self.3, self.4, other.0, other.1, other.2, other.3)
    }

    proof fn lemma_join_arity(self, other: (T6, T7, T8, T9)) {
    }
}

impl<T1, T2, T3, T4, T5, T6, T7, T8, T9> JoinableTuple<(T7, T8, T9)> for (T1, T2, T3, T4, T5, T6) {
    type Join = (T1, T2, T3, T4, T5, T6, T7, T8, T9);

    open spec fn spec_join(self, other: (T7, T8, T9)) -> (T1, T2, T3, T4, T5, T6, T7, T8, T9) {
        (self.0, self.1, self.2, self.3, self.4, self.5, other.0, other.1, other.2)
    }

    fn join(self, other: (T7, T8, T9)) -> (r: (T1, T2, T3, T4, T5, T6, T7, T8, T9)) {
        (self.0, self.1, self.2, self.3, self.4, self.5, other.0, other.1, other.2)
    }

    proof fn lemma_join_arity(self, other: (T7, T8, T9)) {
    }
}

impl<T1, T2, T3, T4, T5, T6, T7, T8, T9> JoinableTuple<(T8, T9)> for (T1, T2, T3, T4, T5, T6, T7) {
    type Join = (T1, T2, T3, T4, T5, T6, T7, T8, T9);

    open spec fn spec_join(self, other: (T8, T9)) -> (T1, T2, T3, T4, T5, T6, T7, T8, T9) {
        (self.0, self.1, self.2, self.3, self.4, self.5, self.6, other.0, other.1)
    }

    fn join(self, other: (T8, T9)) -> (r: (T1, T2, T3, T4, T5, T6, T7, T8, T9)) {
        (self.0, self.1, self.2, self.3, self.4, self.5, self.6, other.0, other.1)
    }

    proof fn lemma_join_arity(self, other: (T8, T9)) {
    }
}

impl<T1, T2, T3, T4, T5, T6, T7, T8, T9> JoinableTuple<(T9,)> for (T1, T2, T3, T4, T5, T6, T7, T8) {
    type Join = (T1, T2, T3, T4, T5, T6, T7, T8, T9);

    open spec fn spec_join(self, other: (T9,)) -> (T1, T2, T3, T4, T5, T6, T7, T8, T9) {
        (self.0, self.1, self.2, self.3, self.4, self.5, self.6, self.7, other.0)
    }

    fn join(self, other: (T9,)) -> (r: (T1, T2, T3, T4, T5, T6, T7, T8, T9)) {
        (self.0, self.1, self.2, self.3, self.4, self.5, self.6, self.7, other.0)
    }

    proof fn lemma_join_arity(self, other: (T9,)) {
    }
}

impl<T1, T2, T3, T4, T5, T6, T7, T8, T9> JoinableTuple<()> for (T1, T2, T3, T4, T5, T6, T7, T8, T9) {
    type Join = (T1, T2, T3, T4, T5, T6, T7, T8, T9);

    open spec fn spec_join(self, other: ()) -> (T1, T2, T3, T4, T5, T6, T7, T8, T9) {
        (self.0, self.1, self.2, self.3, self.4, self.5, self.6, self.7, self.8)
    }

    fn join(self, other: ()) -> (r: (T1, T2, T3, T4, T5, T6, T7, T8, T9)) {
        (self.0, self.1, self.2, self.3, self.4, self.5, self.6, self.7, self.8)
    }

    proof fn lemma_join_arity(self, other: ()) {
    }
}

impl<T1, T2, T3, T4, T5, T6, T7, T8, T9, T10> Sealed for (T1, T2, T3, T4, T5, T6, T7, T8, T9, T10) {}

impl<T1, T2, T3, T4, T5, T6, T7, T8, T9, T10> DynTuple for (T1, T2, T3, T4, T5, T6, T7, T8, T9, T10) {
    open spec fn spec_arity(&self) -> nat {
        10
    }

    fn arity(&self) -> (r: usize) {
        10
    }
}

impl<T1, T2, T3, T4, T5, T6, T7, T8, T9, T10> Tuple for (T1, T2, T3, T4, T5, T6, T7, T8, T9, T10) {
    const ARITY: usize = 10;

    open spec fn spec_type_arity() -> nat {
        10
    }

    proof fn lemma_arity(&self) {
    }

    proof fn lemma_type_arity() {
    }
}

impl<T1, T2, T3, T4, T5, T6, T7, T8, T9, T10, T> GrowableTuple<T> for (T1, T2, T3, T4, T5, T6, T7, T8, T9, T10) {
    type Append = (T1, T2, T3, T4, T5, T6, T7, T8, T9, T10, T);

    type Prepend = (T, T1, T2, T3, T4, T5, T6, T7, T8, T9, T10);

    open spec fn spec_append(self, value: T) -> (T1, T2, T3, T4, T5, T6, T7, T8, T9, T10, T) {
        (self.0, self.1, self.2, self.3, self.4, self.5, self.6, self.7, self.8, self.9, value)
    }

    open spec fn spec_prepend(self, value: T) -> (T, T1, T2, T3, T4, T5, T6, T7, T8, T9, T10) {
        (value, self.0, self.1, self.2, self.3, self.4, self.5, self.6, self.7, self.8, self.9)
    }

    fn append(self, value: T) -> (r: (T1, T2, T3, T4, T5, T6, T7, T8, T9, T10, T)) {
        (self.0, self.1, self.2, self.3, self.4, self.5, self.6, self.7, self.8, self.9, value)
    }

    fn prepend(self, value: T) -> (r: (T, T1, T2, T3, T4, T5, T6, T7, T8, T9, T10)) {
        (value, self.0, self.1, self.2, self.3, self.4, self.5, self.6, self.7, self.8, self.9)
    }

    proof fn lemma_grow_arity(self, value: T) {
    }
}

impl<T1, T2, T3, T4, T5, T6, T7, T8, T9, T10> NonEmptyTuple for (T1, T2, T3, T4, T5, T6, T7, T8, T9, T10) {
    type Head = T1;

    type Tail = T10;

    type TruncateHead = (T2, T3, T4, T5, T6, T7, T8, T9, T10);

    type TruncateTail = (T1, T2, T3, T4, T5, T6, T7, T8, T9);

    open spec fn spec_head(&self) -> T1 {
        self.0
    }

    open spec fn spec_tail(&self) -> T10 {
        self.9
    }

    open spec fn spec_with_head(self, value: T1) -> (T1, T2, T3, T4, T5, T6, T7, T8, T9, T10) {
        (value, self.1, self.2, self.3, self.4, self.5, self.6, self.7, self.8, self.9)
    }

    open spec fn spec_with_tail(self, value: T10) -> (T1, T2, T3, T4, T5, T6, T7, T8, T9, T10) {
        (self.0, self.1, self.2, self.3, self.4, self.5, self.6, self.7, self.8, value)
    }

    open spec fn spec_truncate_head(self) -> (T1, (T2, T3, T4, T5, T6, T7, T8, T9, T10)) {
        (self.0, (self.1, self.2, self.3, self.4, self.5, self.6, self.7, self.8, self.9))
    }

    open spec fn spec_truncate_tail(self) -> ((T1, T2, T3, T4, T5, T6, T7, T8, T9), T10) {
        ((self.0, self.1, self.2, self.3, self.4, self.5, self.6, self.7, self.8), self.9)
    }

    fn head(&self) -> (r: &T1) {
        &self.0
    }

    fn head_mut(&mut self) -> (r: &mut T1) {
        &mut self.0
    }

    fn tail(&self) -> (r: &T10) {
        &self.9
    }

    fn tail_mut(&mut self) -> (r: &mut T10) {
        &mut self.9
    }

    fn truncate_head(self) -> (r: (T1, (T2, T3, T4, T5, T6, T7, T8, T9, T10))) {
        (self.0, (self.1, self.2, self.3, self.4, self.5, self.6, self.7, self.8, self.9))
    }

    fn truncate_tail(self) -> (r: ((T1, T2, T3, T4, T5, T6, T7, T8, T9), T10)) {
        ((self.0, self.1, self.2, self.3, self.4, self.5, self.6, self.7, self.8), self.9)
    }

    proof fn lemma_truncate_head(self) {
    }

    proof fn lemma_truncate_tail(self) {
    }
}

impl<T1, T2, T3, T4, T5, T6, T7, T8, T9, T10> NonUnaryTuple for (T1, T2, T3, T4, T5, T6, T7, T8, T9, T10) {
    type TruncateHeadTail = (T2, T3, T4, T5, T6, T7, T8, T9);

    open spec fn spec_truncate_head_tail(self) -> (T1, (T2, T3, T4, T5, T6, T7, T8, T9), T10) {
        (self.0, (self.1, self.2, self.3, self.4, self.5, self.6, self.7, self.8), self.9)
    }

    fn head_tail(&self) -> (r: (&T1, &T10)) {
        (&self.0, &self.9)
    }

    fn head_tail_mut(&mut self) -> (r: (&mut T1, &mut T10)) {
        (&mut self.0, &mut self.9)
    }

    fn truncate_head_tail(self) -> (r: (T1, (T2, T3, T4, T5, T6, T7, T8, T9), T10)) {
        (self.0, (self.1, self.2, self.3, self.4, self.5, self.6, self.7, self.8), self.9)
    }

    proof fn lemma_truncate_head_tail(self) {
    }
}

impl<T1, T2, T3, T4, T5, T6, T7, T8, T9, T10> IndexableTuple<0> for (T1, T2, T3, T4, T5, T6, T7, T8, T9, T10) {
    type Value = T1;

    open spec fn spec_index(&self) -> T1 {
        self.0
    }

    open spec fn spec_with_index(self, value: T1) -> (T1, T2, T3, T4, T5, T6, T7, T8, T9, T10) {
        (value, self.1, self.2, self.3, self.4, self.5, self.6, self.7, self.8, self.9)
    }

    fn index_ref(&self) -> (r: &T1) {
        &self.0
    }

    fn index_mut(&mut self) -> (r: &mut T1) {
        &mut self.0
    }

    fn into_index(self) -> (r: T1) {
        self.0
    }

    proof fn lemma_index_in_range(&self) {
    }
}

impl<T1, T2, T3, T4, T5, T6, T7, T8, T9, T10> IndexableTuple<1> for (T1, T2, T3, T4, T5, T6, T7, T8, T9, T10) {
    type Value = T2;

    open spec fn spec_index(&self) -> T2 {
        self.1
    }

    open spec fn spec_with_index(self, value: T2) -> (T1, T2, T3, T4, T5, T6, T7, T8, T9, T10) {
        (self.0, value, self.2, self.3, self.4, self.5, self.6, self.7, self.8, self.9)
    }

    fn index_ref(&self) -> (r: &T2) {
        &self.1
    }

    fn index_mut(&mut self) -> (r: &mut T2) {
        &mut self.1
    }

    fn into_index(self) -> (r: T2) {
        self.1
    }

    proof fn lemma_index_in_range(&self) {
    }
}

impl<T1, T2, T3, T4, T5, T6, T7, T8, T9, T10> IndexableTuple<2> for (T1, T2, T3, T4, T5, T6, T7, T8, T9, T10) {
    type Value = T3;

    open spec fn spec_index(&self) -> T3 {
        self.2
    }

    open spec fn spec_with_index(self, value: T3) -> (T1, T2, T3, T4, T5, T6, T7, T8, T9, T10) {
        (self.0, self.1, value, self.3, self.4, self.5, self.6, self.7, self.8, self.9)
    }

    fn index_ref(&self) -> (r: &T3) {
        &self.2
    }

    fn index_mut(&mut self) -> (r: &mut T3) {
        &mut self.2
    }

    fn into_index(self) -> (r: T3) {
        self.2
    }

    proof fn lemma_index_in_range(&self) {
    }
}

impl<T1, T2, T3, T4, T5, T6, T7, T8, T9, T10> IndexableTuple<3> for (T1, T2, T3, T4, T5, T6, T7, T8, T9, T10) {
    type Value = T4;

    open spec fn spec_index(&self) -> T4 {
        self.3
    }

    open spec fn spec_with_index(self, value: T4) -> (T1, T2, T3, T4, T5, T6, T7, T8, T9, T10) {
        (self.0, self.1, self.2, value, self.4, self.5, self.6, self.7, self.8, self.9)
    }

    fn index_ref(&self) -> (r: &T4) {
        &self.3
    }

    fn index_mut(&mut self) -> (r: &mut T4) {
        &mut self.3
    }

    fn into_index(self) -> (r: T4) {
        self.3
    }

    proof fn lemma_index_in_range(&self) {
    }
}

impl<T1, T2, T3, T4, T5, T6, T7, T8, T9, T10> IndexableTuple<4> for (T1, T2, T3, T4, T5, T6, T7, T8, T9, T10) {
    type Value = T5;

    open spec fn spec_index(&self) -> T5 {
        self.4
    }

    open spec fn spec_with_index(self, value: T5) -> (T1, T2, T3, T4, T5, T6, T7, T8, T9, T10) {
        (self.0, self.1, self.2, self.3, value, self.5, self.6, self.7, self.8, self.9)
    }

    fn index_ref(&self) -> (r: &T5) {
        &self.4
    }

    fn index_mut(&mut self) -> (r: &mut T5) {
        &mut self.4
    }

    fn into_index(self) -> (r: T5) {
        self.4
    }

    proof fn lemma_index_in_range(&self) {
    }
}

impl<T1, T2, T3, T4, T5, T6, T7, T8, T9, T10> IndexableTuple<5> for (T1, T2, T3, T4, T5, T6, T7, T8, T9, T10) {
    type Value = T6;

    open spec fn spec_index(&self) -> T6 {
        self.5
    }

    open spec fn spec_with_index(self, value: T6) -> (T1, T2, T3, T4, T5, T6, T7, T8, T9, T10) {
        (self.0, self.1, self.2, self.3, self.4, value, self.6, self.7, self.8, self.9)
    }

    fn index_ref(&self) -> (r: &T6) {
        &self.5
    }

    fn index_mut(&mut self) -> (r: &mut T6) {
        &mut self.5
    }

    fn into_index(self) -> (r: T6) {
        self.5
    }

    proof fn lemma_index_in_range(&self) {
    }
}

impl<T1, T2, T3, T4, T5, T6, T7, T8, T9, T10> IndexableTuple<6> for (T1, T2, T3, T4, T5, T6, T7, T8, T9, T10) {
    type Value = T7;

    open spec fn spec_index(&self) -> T7 {
        self.6
    }

    open spec fn spec_with_index(self, value: T7) -> (T1, T2, T3, T4, T5, T6, T7, T8, T9, T10) {
        (self.0, self.1, self.2, self.3, self.4, self.5, value, self.7, self.8, self.9)
    }

    fn index_ref(&self) -> (r: &T7) {
        &self.6
    }

    fn index_mut(&mut self) -> (r: &mut T7) {
        &mut self.6
    }

    fn into_index(self) -> (r: T7) {
        self.6
    }

    proof fn lemma_index_in_range(&self) {
    }
}

impl<T1, T2, T3, T4, T5, T6, T7, T8, T9, T10> IndexableTuple<7> for (T1, T2, T3, T4, T5, T6, T7, T8, T9, T10) {
    type Value = T8;

    open spec fn spec_index(&self) -> T8 {
        self.7
    }

    open spec fn spec_with_index(self, value: T8) -> (T1, T2, T3, T4, T5, T6, T7, T8, T9, T10) {
        (self.0, self.1, self.2, self.3, self.4, self.5, self.6, value, self.8, self.9)
    }

    fn index_ref(&self) -> (r: &T8) {
        &self.7
    }

    fn index_mut(&mut self) -> (r: &mut T8) {
        &mut self.7
    }

    fn into_index(self) -> (r: T8) {
        self.7
    }

    proof fn lemma_index_in_range(&self) {
    }
}

impl<T1, T2, T3, T4, T5, T6, T7, T8, T9, T10> IndexableTuple<8> for (T1, T2, T3, T4, T5, T6, T7, T8, T9, T10) {
    type Value = T9;

    open spec fn spec_index(&self) -> T9 {
        self.8
    }

    open spec fn spec_with_index(self, value: T9) -> (T1, T2, T3, T4, T5, T6, T7, T8, T9, T10) {
        (self.0, self.1, self.2, self.3, self.4, self.5, self.6, self.7, value, self.9)
    }

    fn index_ref(&self) -> (r: &T9) {
        &self.8
    }

    fn index_mut(&mut self) -> (r: &mut T9) {
        &mut self.8
    }

    fn into_index(self) -> (r: T9) {
        self.8
    }

    proof fn lemma_index_in_range(&self) {
    }
}

impl<T1, T2, T3, T4, T5, T6, T7, T8, T9, T10> IndexableTuple<9> for (T1, T2, T3, T4, T5, T6, T7, T8, T9, T10) {
    type Value = T10;

    open spec fn spec_index(&self) -> T10 {
        self.9
    }

    open spec fn spec_with_index(self, value: T10) -> (T1, T2, T3, T4, T5, T6, T7, T8, T9, T10) {
        (self.0, self.1, self.2, self.3, self.4, self.5, self.6, self.7, self.8, value)
    }

    fn index_ref(&self) -> (r: &T10) {
        &self.9
    }

    fn index_mut(&mut self) -> (r: &mut T10) {
        &mut self.9
    }

    fn into_index(self) -> (r: T10) {
        self.9
    }

    proof fn lemma_index_in_range(&self) {
    }
}

impl<T1, T2, T3, T4, T5, T6, T7, T8, T9, T10> JoinableTuple<(T1, T2, T3, T4, T5, T6, T7, T8, T9, T10)> for () {
    type Join = (T1, T2, T3, T4, T5, T6, T7, T8, T9, T10);

    open spec fn spec_join(self, other: (T1, T2, T3, T4, T5, T6, T7, T8, T9, T10)) -> (T1, T2, T3, T4, T5, T6, T7, T8, T9, T10) {
        (other.0, other.1, other.2, other.3, other.4, other.5, other.6, other.7, other.8, other.9)
    }

    fn join(self, other: (T1, T2, T3, T4, T5, T6, T7, T8, T9, T10)) -> (r: (T1, T2, T3, T4, T5, T6, T7, T8, T9, T10)) {
        (other.0, other.1, other.2, other.3, other.4, other.5, other.6, other.7, other.8, other.9)
    }

    proof fn lemma_join_arity(self, other: (T1, T2, T3, T4, T5, T6, T7, T8, T9, T10)) {
    }
}

impl<T1, T2, T3, T4, T5, T6, T7, T8, T9, T10> JoinableTuple<(T2, T3, T4, T5, T6, T7, T8, T9, T10)> for (T1,) {
    type Join = (T1, T2, T3, T4, T5, T6, T7, T8, T9, T10);

    open spec fn spec_join(self, other: (T2, T3, T4, T5, T6, T7, T8, T9, T10)) -> (T1, T2, T3, T4, T5, T6, T7, T8, T9, T10) {
        (self.0, other.0, other.1, other.2, other.3, other.4, other.5, other.6, other.7, other.8)
    }

    fn join(self, other: (T2, T3, T4, T5, T6, T7, T8, T9, T10)) -> (r: (T1, T2, T3, T4, T5, T6, T7, T8, T9, T10)) {
        (self.0, other.0, other.1, other.2, other.3, other.4, other.5, other.6, other.7, other.8)
    }

    proof fn lemma_join_arity(self, other: (T2, T3, T4, T5, T6, T7, T8, T9, T10)) {
    }
}

impl<T1, T2, T3, T4, T5, T6, T7, T8, T9, T10> JoinableTuple<(T3, T4, T5, T6, T7, T8, T9, T10)> for (T1, T2) {
    type Join = (T1, T2, T3, T4, T5, T6, T7, T8, T9, T10);

    open spec fn spec_join(self, other: (T3, T4, T5, T6, T7, T8, T9, T10)) -> (T1, T2, T3, T4, T5, T6, T7, T8, T9, T10) {
        (self.0, self.1, other.0, other.1, other.2, other.3, other.4, other.5, other.6, other.7)
    }

    fn join(self, other: (T3, T4, T5, T6, T7, T8, T9, T10)) -> (r: (T1, T2, T3, T4, T5, T6, T7, T8, T9, T10)) {
        (self.0, self.1, other.0, other.1, other.2, other.3, other.4, other.5, other.6, other.7)
    }

    proof fn lemma_join_arity(self, other: (T3, T4, T5, T6, T7, T8, T9, T10)) {
    }
}

impl<T1, T2, T3, T4, T5, T6, T7, T8, T9, T10> JoinableTuple<(T4, T5, T6, T7, T8, T9, T10)> for (T1, T2, T3) {
    type Join = (T1, T2, T3, T4, T5, T6, T7, T8, T9, T10);

    open spec fn spec_join(self, other: (T4, T5, T6, T7, T8, T9, T10)) -> (T1, T2, T3, T4, T5, T6, T7, T8, T9, T10) {
        (self.0, self.1, self.2, other.0, other.1, other.2, other.3, other.4, other.5, other.6)
    }

    fn join(self, other: (T4, T5, T6, T7, T8, T9, T10)) -> (r: (T1, T2, T3, T4, T5, T6, T7, T8, T9, T10)) {
        (self.0, self.1, self.2, other.0, other.1, other.2, other.3, other.4, other.5, other.6)
    }

    proof fn lemma_join_arity(self, other: (T4, T5, T6, T7, T8, T9, T10)) {
    }
}

impl<T1, T2, T3, T4, T5, T6, T7, T8, T9, T10> JoinableTuple<(T5, T6, T7, T8, T9, T10)> for (T1, T2, T3, T4) {
    type Join = (T1, T2, T3, T4, T5, T6, T7, T8, T9, T10);

    open spec fn spec_join(self, other: (T5, T6, T7, T8, T9, T10)) -> (T1, T2, T3, T4, T5, T6, T7, T8, T9, T10) {
        (self.0, self.1, self.2, self.3, other.0, other.1, other.2, other.3, other.4, other.5)
    }

    fn join(self, other: (T5, T6, T7, T8, T9, T10)) -> (r: (T1, T2, T3, T4, T5, T6, T7, T8, T9, T10)) {
        (self.0, self.1, self.2, self.3, other.0, other.1, other.2, other.3, other.4, other.5)
    }

    proof fn lemma_join_arity(self, other: (T5, T6, T7, T8, T9, T10)) {
    }
}

impl<T1, T2, T3, T4, T5, T6, T7, T8, T9, T10> JoinableTuple<(T6, T7, T8, T9, T10)> for (T1, T2, T3, T4, T5) {
    type Join = (T1, T2, T3, T4, T5, T6, T7, T8, T9, T10);

    open spec fn spec_join(self, other: (T6, T7, T8, T9, T10)) -> (T1, T2, T3, T4, T5, T6, T7, T8, T9, T10) {
        (self.0, self.1, self.2, self.3, self.4, other.0, other.1, other.2, other.3, other.4)
    }

    fn join(self, other: (T6, T7, T8, T9, T10)) -> (r: (T1, T2, T3, T4, T5, T6, T7, T8, T9, T10)) {
        (self.0, self.1, self.2, self.3, self.4, other.0, other.1, other.2, other.3, other.4)
    }

    proof fn lemma_join_arity(self, other: (T6, T7, T8, T9, T10)) {
    }
}

impl<T1, T2, T3, T4, T5, T6, T7, T8, T9, T10> JoinableTuple<(T7, T8, T9, T10)> for (T1, T2, T3, T4, T5, T6) {
    type Join = (T1, T2, T3, T4, T5, T6, T7, T8, T9, T10);

    open spec fn spec_join(self, other: (T7, T8, T9, T10)) -> (T1, T2, T3, T4, T5, T6, T7, T8, T9, T10) {
        (self.0, self.1, self.2, self.3, self.4, self.5, other.0, other.1, other.2, other.3)
    }

    fn join(self, other: (T7, T8, T9, T10)) -> (r: (T1, T2, T3, T4, T5, T6, T7, T8, T9, T10)) {
        (self.0, self.1, self.2, self.3, self.4, self.5, other.0, other.1, other.2, other.3)
    }

    proof fn lemma_join_arity(self, other: (T7, T8, T9, T10)) {
    }
}

impl<T1, T2, T3, T4, T5, T6, T7, T8, T9, T10> JoinableTuple<(T8, T9, T10)> for (T1, T2, T3, T4, T5, T6, T7) {
    type Join = (T1, T2, T3, T4, T5, T6, T7, T8, T9, T10);

    open spec fn spec_join(self, other: (T8, T9, T10)) -> (T1, T2, T3, T4, T5, T6, T7, T8, T9, T10) {
        (self.0, self.1, self.2, self.3, self.4, self.5, self.6, other.0, other.1, other.2)
    }

    fn join(self, other: (T8, T9, T10)) -> (r: (T1, T2, T3, T4, T5, T6, T7, T8, T9, T10)) {
        (self.0, self.1, self.2, self.3, self.4, self.5, self.6, other.0, other.1, other.2)
    }

    proof fn lemma_join_arity(self, other: (T8, T9, T10)) {
    }
}

impl<T1, T2, T3, T4, T5, T6, T7, T8, T9, T10> JoinableTuple<(T9, T10)> for (T1, T2, T3, T4, T5, T6, T7, T8) {
    type Join = (T1, T2, T3, T4, T5, T6, T7, T8, T9, T10);

    open spec fn spec_join(self, other: (T9, T10)) -> (T1, T2, T3, T4, T5, T6, T7, T8, T9, T10) {
        (self.0, self.1, self.2, self.3, self.4, self.5, self.6, self.7, other.0, other.1)
    }

    fn join(self, other: (T9, T10)) -> (r: (T1, T2, T3, T4, T5, T6, T7, T8, T9, T10)) {
        (self.0, self.1, self.2, self.3, self.4, self.5, self.6, self.7, other.0, other.1)
    }

    proof fn lemma_join_arity(self, other: (T9, T10)) {
    }
}

impl<T1, T2, T3, T4, T5, T6, T7, T8, T9, T10> JoinableTuple<(T10,)> for (T1, T2, T3, T4, T5, T6, T7, T8, T9) {
    type Join = (T1, T2, T3, T4, T5, T6, T7, T8, T9, T10);

    open spec fn spec_join(self, other: (T10,)) -> (T1, T2, T3, T4, T5, T6, T7, T8, T9, T10) {
        (self.0, self.1, self.2, self.3, self.4, self.5, self.6, self.7, self.8, other.0)
    }

    fn join(self, other: (T10,)) -> (r: (T1, T2, T3, T4, T5, T6, T7, T8, T9, T10)) {
        (self.0, self.1, self.2, self.3, self.4, self.5, self.6, self.7, self.8, other.0)
    }

    proof fn lemma_join_arity(self, other: (T10,)) {
    }
}

impl<T1, T2, T3, T4, T5, T6, T7, T8, T9, T10> JoinableTuple<()> for (T1, T2, T3, T4, T5, T6, T7, T8, T9, T10) {
    type Join = (T1, T2, T3, T4, T5, T6, T7, T8, T9, T10);

    open spec fn spec_join(self, other: ()) -> (T1, T2, T3, T4, T5, T6, T7, T8, T9, T10) {
        (self.0, self.1, self.2, self.3, self.4, self.5, self.6, self.7, self.8, self.9)
    }

    fn join(self, other: ()) -> (r: (T1, T2, T3, T4, T5, T6, T7, T8, T9, T10)) {
        (self.0, self.1, self.2, self.3, self.4, self.5, self.6, self.7, self.8, self.9)
    }

    proof fn lemma_join_arity(self, other: ()) {
    }
}

impl<T1, T2, T3, T4, T5, T6, T7, T8, T9, T10, T11> Sealed for (T1, T2, T3, T4, T5, T6, T7, T8, T9, T10, T11) {}

impl<T1, T2, T3, T4, T5, T6, T7, T8, T9, T10, T11> DynTuple for (T1, T2, T3, T4, T5, T6, T7, T8, T9, T10, T11) {
    open spec fn spec_arity(&self) -> nat {
        11
    }

    fn arity(&self) -> (r: usize) {
        11
    }
}

impl<T1, T2, T3, T4, T5, T6, T7, T8, T9, T10, T11> Tuple for (T1, T2, T3, T4, T5, T6, T7, T8, T9, T10, T11) {
    const ARITY: usize = 11;

    open spec fn spec_type_arity() -> nat {
        11
    }

    proof fn lemma_arity(&self) {
    }

    proof fn lemma_type_arity() {
    }
}

impl<T1, T2, T3, T4, T5, T6, T7, T8, T9, T10, T11, T> GrowableTuple<T> for (T1, T2, T3, T4, T5, T6, T7, T8, T9, T10, T11) {
    type Append = (T1, T2, T3, T4, T5, T6, T7, T8, T9, T10, T11, T);

    type Prepend = (T, T1, T2, T3, T4, T5, T6, T7, T8, T9, T10, T11);

    open spec fn spec_append(self, value: T) -> (T1, T2, T3, T4, T5, T6, T7, T8, T9, T10, T11, T) {
        (self.0, self.1, self.2, self.3, self.4, self.5, self.6, self.7, self.8, self.9, self.10, value)
    }

    open spec fn spec_prepend(self, value: T) -> (T, T1, T2, T3, T4, T5, T6, T7, T8, T9, T10, T11) {
        (value, self.0, self.1, self.2, self.3, self.4, self.5, self.6, self.7, self.8, self.9, self.10)
    }

    fn append(self, value: T) -> (r: (T1, T2, T3, T4, T5, T6, T7, T8, T9, T10, T11, T)) {
        (self.0, self.1, self.2, self.3, self.4, self.5, self.6, self.7, self.8, self.9, self.10, value)
    }

    fn prepend(self, value: T) -> (r: (T, T1, T2, T3, T4, T5, T6, T7, T8, T9, T10, T11)) {
        (value, self.0, self.1, self.2, self.3, self.4, self.5, self.6, self.7, self.8, self.9, self.10)
    }

    proof fn lemma_grow_arity(self, value: T) {
    }
}

impl<T1, T2, T3, T4, T5, T6, T7, T8, T9, T10, T11> NonEmptyTuple for (T1, T2, T3, T4, T5, T6, T7, T8, T9, T10, T11) {
    type Head = T1;

    type Tail = T11;

    type TruncateHead = (T2, T3, T4, T5, T6, T7, T8, T9, T10, T11);

    type TruncateTail = (T1, T2, T3, T4, T5, T6, T7, T8, T9, T10);

    open spec fn spec_head(&self) -> T1 {
        self.0
    }

    open spec fn spec_tail(&self) -> T11 {
        self.10
    }

    open spec fn spec_with_head(self, value: T1) -> (T1, T2, T3, T4, T5, T6, T7, T8, T9, T10, T11) {
        (value, self.1, self.2, self.3, self.4, self.5, self.6, self.7, self.8, self.9, self.10)
    }

    open spec fn spec_with_tail(self, value: T11) -> (T1, T2, T3, T4, T5, T6, T7, T8, T9, T10, T11) {
        (self.0, self.1, self.2, self.3, self.4, self.5, self.6, self.7, self.8, self.9, value)
    }

    open spec fn spec_truncate_head(self) -> (T1, (T2, T3, T4, T5, T6, T7, T8, T9, T10, T11)) {
        (self.0, (self.1, self.2, self.3, self.4, self.5, self.6, self.7, self.8, self.9, self.10))
    }

    open spec fn spec_truncate_tail(self) -> ((T1, T2, T3, T4, T5, T6, T7, T8, T9, T10), T11) {
        ((self.0, self.1, self.2, self.3, self.4, self.5, self.6, self.7, self.8, self.9), self.10)
    }

    fn head(&self) -> (r: &T1) {
        &self.0
    }

    fn head_mut(&mut self) -> (r: &mut T1) {
        &mut self.0
    }

    fn tail(&self) -> (r: &T11) {
        &self.10
    }

    fn tail_mut(&mut self) -> (r: &mut T11) {
        &mut self.10
    }

    fn truncate_head(self) -> (r: (T1, (T2, T3, T4, T5, T6, T7, T8, T9, T10, T11))) {
        (self.0, (self.1, self.2, self.3, self.4, self.5, self.6, self.7, self.8, self.9, self.10))
    }

    fn truncate_tail(self) -> (r: ((T1, T2, T3, T4, T5, T6, T7, T8, T9, T10), T11)) {
        ((self.0, self.1, self.2, self.3, self.4, self.5, self.6, self.7, self.8, self.9), self.10)
    }

    proof fn lemma_truncate_head(self) {
    }

    proof fn lemma_truncate_tail(self) {
    }
}

impl<T1, T2, T3, T4, T5, T6, T7, T8, T9, T10, T11> NonUnaryTuple for (T1, T2, T3, T4, T5, T6, T7, T8, T9, T10, T11) {
    type TruncateHeadTail = (T2, T3, T4, T5, T6, T7, T8, T9, T10);

    open spec fn spec_truncate_head_tail(self) -> (T1, (T2, T3, T4, T5, T6, T7, T8, T9, T10), T11) {
        (self.0, (self.1, self.2, self.3, self.4, self.5, self.6, self.7, self.8, self.9), self.10)
    }

    fn head_tail(&self) -> (r: (&T1, &T11)) {
        (&self.0, &self.10)
    }

    fn head_tail_mut(&mut self) -> (r: (&mut T1, &mut T11)) {
        (&mut self.0, &mut self.10)
    }

    fn truncate_head_tail(self) -> (r: (T1, (T2, T3, T4, T5, T6, T7, T8, T9, T10), T11)) {
        (self.0, (self.1, self.2, self.3, self.4, self.5, self.6, self.7, self.8, self.9), self.10)
    }

    proof fn lemma_truncate_head_tail(self) {
    }
}

impl<T1, T2, T3, T4, T5, T6, T7, T8, T9, T10, T11> IndexableTuple<0> for (T1, T2, T3, T4, T5, T6, T7, T8, T9, T10, T11) {
    type Value = T1;

    open spec fn spec_index(&self) -> T1 {
        self.0
    }

    open spec fn spec_with_index(self, value: T1) -> (T1, T2, T3, T4, T5, T6, T7, T8, T9, T10, T11) {
        (value, self.1, self.2, self.3, self.4, self.5, self.6, self.7, self.8, self.9, self.10)
    }

    fn index_ref(&self) -> (r: &T1) {
        &self.0
    }

    fn index_mut(&mut self) -> (r: &mut T1) {
        &mut self.0
    }

    fn into_index(self) -> (r: T1) {
        self.0
    }

    proof fn lemma_index_in_range(&self) {
    }
}

impl<T1, T2, T3, T4, T5, T6, T7, T8, T9, T10, T11> IndexableTuple<1> for (T1, T2, T3, T4, T5, T6, T7, T8, T9, T10, T11) {
    type Value = T2;

    open spec fn spec_index(&self) -> T2 {
        self.1
    }

    open spec fn spec_with_index(self, value: T2) -> (T1, T2, T3, T4, T5, T6, T7, T8, T9, T10, T11) {
        (self.0, value, self.2, self.3, self.4, self.5, self.6, self.7, self.8, self.9, self.10)
    }

    fn index_ref(&self) -> (r: &T2) {
        &self.1
    }

    fn index_mut(&mut self) -> (r: &mut T2) {
        &mut self.1
    }

    fn into_index(self) -> (r: T2) {
        self.1
    }

    proof fn lemma_index_in_range(&self) {
    }
}

impl<T1, T2, T3, T4, T5, T6, T7, T8, T9, T10, T11> IndexableTuple<2> for (T1, T2, T3, T4, T5, T6, T7, T8, T9, T10, T11) {
    type Value = T3;

    open spec fn spec_index(&self) -> T3 {
        self.2
    }

    open spec fn spec_with_index(self, value: T3) -> (T1, T2, T3, T4, T5, T6, T7, T8, T9, T10, T11) {
        (self.0, self.1, value, self.3, self.4, self.5, self.6, self.7, self.8, self.9, self.10)
    }

    fn index_ref(&self) -> (r: &T3) {
        &self.2
    }

    fn index_mut(&mut self) -> (r: &mut T3) {
        &mut self.2
    }

    fn into_index(self) -> (r: T3) {
        self.2
    }

    proof fn lemma_index_in_range(&self) {
    }
}

impl<T1, T2, T3, T4, T5, T6, T7, T8, T9, T10, T11> IndexableTuple<3> for (T1, T2, T3, T4, T5, T6, T7, T8, T9, T10, T11) {
    type Value = T4;

    open spec fn spec_index(&self) -> T4 {
        self.3
    }

    open spec fn spec_with_index(self, value: T4) -> (T1, T2, T3, T4, T5, T6, T7, T8, T9, T10, T11) {
        (self.0, self.1, self.2, value, self.4, self.5, self.6, self.7, self.8, self.9, self.10)
    }

    fn index_ref(&self) -> (r: &T4) {
        &self.3
    }

    fn index_mut(&mut self) -> (r: &mut T4) {
        &mut self.3
    }

    fn into_index(self) -> (r: T4) {
        self.3
    }

    proof fn lemma_index_in_range(&self) {
    }
}

impl<T1, T2, T3, T4, T5, T6, T7, T8, T9, T10, T11> IndexableTuple<4> for (T1, T2, T3, T4, T5, T6, T7, T8, T9, T10, T11) {
    type Value = T5;

    open spec fn spec_index(&self) -> T5 {
        self.4
    }

    open spec fn spec_with_index(self, value: T5) -> (T1, T2, T3, T4, T5, T6, T7, T8, T9, T10, T11) {
        (self.0, self.1, self.2, self.3, value, self.5, self.6, self.7, self.8, self.9, self.10)
    }

    fn index_ref(&self) -> (r: &T5) {
        &self.4
    }

    fn index_mut(&mut self) -> (r: &mut T5) {
        &mut self.4
    }

    fn into_index(self) -> (r: T5) {
        self.4
    }

    proof fn lemma_index_in_range(&self) {
    }
}

impl<T1, T2, T3, T4, T5, T6, T7, T8, T9, T10, T11> IndexableTuple<5> for (T1, T2, T3, T4, T5, T6, T7, T8, T9, T10, T11) {
    type Value = T6;

    open spec fn spec_index(&self) -> T6 {
        self.5
    }

    open spec fn spec_with_index(self, value: T6) -> (T1, T2, T3, T4, T5, T6, T7, T8, T9, T10, T11) {
        (self.0, self.1, self.2, self.3, self.4, value, self.6, self.7, self.8, self.9, self.10)
    }

    fn index_ref(&self) -> (r: &T6) {
        &self.5
    }

    fn index_mut(&mut self) -> (r: &mut T6) {
        &mut self.5
    }

    fn into_index(self) -> (r: T6) {
        self.5
    }

    proof fn lemma_index_in_range(&self) {
    }
}

impl<T1, T2, T3, T4, T5, T6, T7, T8, T9, T10, T11> IndexableTuple<6> for (T1, T2, T3, T4, T5, T6, T7, T8, T9, T10, T11) {
    type Value = T7;

    open spec fn spec_index(&self) -> T7 {
        self.6
    }

    open spec fn spec_with_index(self, value: T7) -> (T1, T2, T3, T4, T5, T6, T7, T8, T9, T10, T11) {
        (self.0, self.1, self.2, self.3, self.4, self.5, value, self.7, self.8, self.9, self.10)
    }

    fn index_ref(&self) -> (r: &T7) {
        &self.6
    }

    fn index_mut(&mut self) -> (r: &mut T7) {
        &mut self.6
    }

    fn into_index(self) -> (r: T7) {
        self.6
    }

    proof fn lemma_index_in_range(&self) {
    }
}

impl<T1, T2, T3, T4, T5, T6, T7, T8, T9, T10, T11> IndexableTuple<7> for (T1, T2, T3, T4, T5, T6, T7, T8, T9, T10, T11) {
    type Value = T8;

    open spec fn spec_index(&self) -> T8 {
        self.7
    }

    open spec fn spec_with_index(self, value: T8) -> (T1, T2, T3, T4, T5, T6, T7, T8, T9, T10, T11) {
        (self.0, self.1, self.2, self.3, self.4, self.5, self.6, value, self.8, self.9, self.10)
    }

    fn index_ref(&self) -> (r: &T8) {
        &self.7
    }

    fn index_mut(&mut self) -> (r: &mut T8) {
        &mut self.7
    }

    fn into_index(self) -> (r: T8) {
        self.7
    }

    proof fn lemma_index_in_range(&self) {
    }
}

impl<T1, T2, T3, T4, T5, T6, T7, T8, T9, T10, T11> IndexableTuple<8> for (T1, T2, T3, T4, T5, T6, T7, T8, T9, T10, T11) {
    type Value = T9;

    open spec fn spec_index(&self) -> T9 {
        self.8
    }

    open spec fn spec_with_index(self, value: T9) -> (T1, T2, T3, T4, T5, T6, T7, T8, T9, T10, T11) {
        (self.0, self.1, self.2, self.3, self.4, self.5, self.6, self.7, value, self.9, self.10)
    }

    fn index_ref(&self) -> (r: &T9) {
        &self.8
    }

    fn index_mut(&mut self) -> (r: &mut T9) {
        &mut self.8
    }

    fn into_index(self) -> (r: T9) {
        self.8
    }

    proof fn lemma_index_in_range(&self) {
    }
}

impl<T1, T2, T3, T4, T5, T6, T7, T8, T9, T10, T11> IndexableTuple<9> for (T1, T2, T3, T4, T5, T6, T7, T8, T9, T10, T11) {
    type Value = T10;

    open spec fn spec_index(&self) -> T10 {
        self.9
    }

    open spec fn spec_with_index(self, value: T10) -> (T1, T2, T3, T4, T5, T6, T7, T8, T9, T10, T11) {
        (self.0, self.1, self.2, self.3, self.4, self.5, self.6, self.7, self.8, value, self.10)
    }

    fn index_ref(&self) -> (r: &T10) {
        &self.9
    }

    fn index_mut(&mut self) -> (r: &mut T10) {
        &mut self.9
    }

    fn into_index(self) -> (r: T10) {
        self.9
    }

    proof fn lemma_index_in_range(&self) {
    }
}

impl<T1, T2, T3, T4, T5, T6, T7, T8, T9, T10, T11> IndexableTuple<10> for (T1, T2, T3, T4, T5, T6, T7, T8, T9, T10, T11) {
    type Value = T11;

    open spec fn spec_index(&self) -> T11 {
        self.10
    }

    open spec fn spec_with_index(self, value: T11) -> (T1, T2, T3, T4, T5, T6, T7, T8, T9, T10, T11) {
        (self.0, self.1, self.2, self.3, self.4, self.5, self.6, self.7, self.8, self.9, value)
    }

    fn index_ref(&self) -> (r: &T11) {
        &self.10
    }

    fn index_mut(&mut self) -> (r: &mut T11) {
        &mut self.10
    }

    fn into_index(self) -> (r: T11) {
        self.10
    }

    proof fn lemma_index_in_range(&self) {
    }
}

impl<T1, T2, T3, T4, T5, T6, T7, T8, T9, T10, T11> JoinableTuple<(T1, T2, T3, T4, T5, T6, T7, T8, T9, T10, T11)> for () {
    type Join = (T1, T2, T3, T4, T5, T6, T7, T8, T9, T10, T11);

    open spec fn spec_join(self, other: (T1, T2, T3, T4, T5, T6, T7, T8, T9, T10, T11)) -> (T1, T2, T3, T4, T5, T6, T7, T8, T9, T10, T11) {
        (other.0, other.1, other.2, other.3, other.4, other.5, other.6, other.7, other.8, other.9, other.10)
    }

    fn join(self, other: (T1, T2, T3, T4, T5, T6, T7, T8, T9, T10, T11)) -> (r: (T1, T2, T3, T4, T5, T6, T7, T8, T9, T10, T11)) {
        (other.0, other.1, other.2, other.3, other.4, other.5, other.6, other.7, other.8, other.9, other.10)
    }

    proof fn lemma_join_arity(self, other: (T1, T2, T3, T4, T5, T6, T7, T8, T9, T10, T11)) {
    }
}

impl<T1, T2, T3, T4, T5, T6, T7, T8, T9, T10, T11> JoinableTuple<(T2, T3, T4, T5, T6, T7, T8, T9, T10, T11)> for (T1,) {
    type Join = (T1, T2, T3, T4, T5, T6, T7, T8, T9, T10, T11);

    open spec fn spec_join(self, other: (T2, T3, T4, T5, T6, T7, T8, T9, T10, T11)) -> (T1, T2, T3, T4, T5, T6, T7, T8, T9, T10, T11) {
        (self.0, other.0, other.1, other.2, other.3, other.4, other.5, other.6, other.7, other.8, other.9)
    }

    fn join(self, other: (T2, T3, T4, T5, T6, T7, T8, T9, T10, T11)) -> (r: (T1, T2, T3, T4, T5, T6, T7, T8, T9, T10, T11)) {
        (self.0, other.0, other.1, other.2, other.3, other.4, other.5, other.6, other.7, other.8, other.9)
    }

    proof fn lemma_join_arity(self, other: (T2, T3, T4, T5, T6, T7, T8, T9, T10, T11)) {
    }
}

impl<T1, T2, T3, T4, T5, T6, T7, T8, T9, T10, T11> JoinableTuple<(T3, T4, T5, T6, T7, T8, T9, T10, T11)> for (T1, T2) {
    type Join = (T1, T2, T3, T4, T5, T6, T7, T8, T9, T10, T11);

    open spec fn spec_join(self, other: (T3, T4, T5, T6, T7, T8, T9, T10, T11)) -> (T1, T2, T3, T4, T5, T6, T7, T8, T9, T10, T11) {
        (self.0, self.1, other.0, other.1, other.2, other.3, other.4, other.5, other.6, other.7, other.8)
    }

    fn join(self, other: (T3, T4, T5, T6, T7, T8, T9, T10, T11)) -> (r: (T1, T2, T3, T4, T5, T6, T7, T8, T9, T10, T11)) {
        (self.0, self.1, other.0, other.1, other.2, other.3, other.4, other.5, other.6, other.7, other.8)
    }

    proof fn lemma_join_arity(self, other: (T3, T4, T5, T6, T7, T8, T9, T10, T11)) {
    }
}

impl<T1, T2, T3, T4, T5, T6, T7, T8, T9, T10, T11> JoinableTuple<(T4, T5, T6, T7, T8, T9, T10, T11)> for (T1, T2, T3) {
    type Join = (T1, T2, T3, T4, T5, T6, T7, T8, T9, T10, T11);

    open spec fn spec_join(self, other: (T4, T5, T6, T7, T8, T9, T10, T11)) -> (T1, T2, T3, T4, T5, T6, T7, T8, T9, T10, T11) {
        (self.0, self.1, self.2, other.0, other.1, other.2, other.3, other.4, other.5, other.6, other.7)
    }

    fn join(self, other: (T4, T5, T6, T7, T8, T9, T10, T11)) -> (r: (T1, T2, T3, T4, T5, T6, T7, T8, T9, T10, T11)) {
        (self.0, self.1, self.2, other.0, other.1, other.2, other.3, other.4, other.5, other.6, other.7)
    }

    proof fn lemma_join_arity(self, other: (T4, T5, T6, T7, T8, T9, T10, T11)) {
    }
}

impl<T1, T2, T3, T4, T5, T6, T7, T8, T9, T10, T11> JoinableTuple<(T5, T6, T7, T8, T9, T10, T11)> for (T1, T2, T3, T4) {
    type Join = (T1, T2, T3, T4, T5, T6, T7, T8, T9, T10, T11);

    open spec fn spec_join(self, other: (T5, T6, T7, T8, T9, T10, T11)) -> (T1, T2, T3, T4, T5, T6, T7, T8, T9, T10, T11) {
        (self.0, self.1, self.2, self.3, other.0, other.1, other.2, other.3, other.4, other.5, other.6)
    }

    fn join(self, other: (T5, T6, T7, T8, T9, T10, T11)) -> (r: (T1, T2, T3, T4, T5, T6, T7, T8, T9, T10, T11)) {
        (self.0, self.1, self.2, self.3, other.0, other.1, other.2, other.3, other.4, other.5, other.6)
    }

    proof fn lemma_join_arity(self, other: (T5, T6, T7, T8, T9, T10, T11)) {
    }
}

impl<T1, T2, T3, T4, T5, T6, T7, T8, T9, T10, T11> JoinableTuple<(T6, T7, T8, T9, T10, T11)> for (T1, T2, T3, T4, T5) {
    type Join = (T1, T2, T3, T4, T5, T6, T7, T8, T9, T10, T11);

    open spec fn spec_join(self, other: (T6, T7, T8, T9, T10, T11)) -> (T1, T2, T3, T4, T5, T6, T7, T8, T9, T10, T11) {
        (self.0, self.1, self.2, self.3, self.4, other.0, other.1, other.2, other.3, other.4, other.5)
    }

    fn join(self, other: (T6, T7, T8, T9, T10, T11)) -> (r: (T1, T2, T3, T4, T5, T6, T7, T8, T9, T10, T11)) {
        (self.0, self.1, self.2, self.3, self.4, other.0, other.1, other.2, other.3, other.4, other.5)
    }

    proof fn lemma_join_arity(self, other: (T6, T7, T8, T9, T10, T11)) {
    }
}

impl<T1, T2, T3, T4, T5, T6, T7, T8, T9, T10, T11> JoinableTuple<(T7, T8, T9, T10, T11)> for (T1, T2, T3, T4, T5, T6) {
    type Join = (T1, T2, T3, T4, T5, T6, T7, T8, T9, T10, T11);

    open spec fn spec_join(self, other: (T7, T8, T9, T10, T11)) -> (T1, T2, T3, T4, T5, T6, T7, T8, T9, T10, T11) {
        (self.0, self.1, self.2, self.3, self.4, self.5, other.0, other.1, other.2, other.3, other.4)
    }

    fn join(self, other: (T7, T8, T9, T10, T11)) -> (r: (T1, T2, T3, T4, T5, T6, T7, T8, T9, T10, T11)) {
        (self.0, self.1, self.2, self.3, self.4, self.5, other.0, other.1, other.2, other.3, other.4)
    }

    proof fn lemma_join_arity(self, other: (T7, T8, T9, T10, T11)) {
    }
}

impl<T1, T2, T3, T4, T5, T6, T7, T8, T9, T10, T11> JoinableTuple<(T8, T9, T10, T11)> for (T1, T2, T3, T4, T5, T6, T7) {
    type Join = (T1, T2, T3, T4, T5, T6, T7, T8, T9, T10, T11);

    open spec fn spec_join(self, other: (T8, T9, T10, T11)) -> (T1, T2, T3, T4, T5, T6, T7, T8, T9, T10, T11) {
        (self.0, self.1, self.2, self.3, self.4, self.5, self.6, other.0, other.1, other.2, other.3)
    }

    fn join(self, other: (T8, T9, T10, T11)) -> (r: (T1, T2, T3, T4, T5, T6, T7, T8, T9, T10, T11)) {
        (self.0, self.1, self.2, self.3, self.4, self.5, self.6, other.0, other.1, other.2, other.3)
    }

    proof fn lemma_join_arity(self, other: (T8, T9, T10, T11)) {
    }
}

impl<T1, T2, T3, T4, T5, T6, T7, T8, T9, T10, T11> JoinableTuple<(T9, T10, T11)> for (T1, T2, T3, T4, T5, T6, T7, T8) {
    type Join = (T1, T2, T3, T4, T5, T6, T7, T8, T9, T10, T11);

    open spec fn spec_join(self, other: (T9, T10, T11)) -> (T1, T2, T3, T4, T5, T6, T7, T8, T9, T10, T11) {
        (self.0, self.1, self.2, self.3, self.4, self.5, self.6, self.7, other.0, other.1, other.2)
    }

    fn join(self, other: (T9, T10, T11)) -> (r: (T1, T2, T3, T4, T5, T6, T7, T8, T9, T10, T11)) {
        (self.0, self.1, self.2, self.3, self.4, self.5, self.6, self.7, other.0, other.1, other.2)
    }

    proof fn lemma_join_arity(self, other: (T9, T10, T11)) {
    }
}

impl<T1, T2, T3, T4, T5, T6, T7, T8, T9, T10, T11> JoinableTuple<(T10, T11)> for (T1, T2, T3, T4, T5, T6, T7, T8, T9) {
    type Join = (T1, T2, T3, T4, T5, T6, T7, T8, T9, T10, T11);

    open spec fn spec_join(self, other: (T10, T11)) -> (T1, T2, T3, T4, T5, T6, T7, T8, T9, T10, T11) {
        (self.0, self.1, self.2, self.3, self.4, self.5, self.6, self.7, self.8, other.0, other.1)
    }

    fn join(self, other: (T10, T11)) -> (r: (T1, T2, T3, T4, T5, T6, T7, T8, T9, T10, T11)) {
        (self.0, self.1, self.2, self.3, self.4, self.5, self.6, self.7, self.8, other.0, other.1)
    }

    proof fn lemma_join_arity(self, other: (T10, T11)) {
    }
}

impl<T1, T2, T3, T4, T5, T6, T7, T8, T9, T10, T11> JoinableTuple<(T11,)> for (T1, T2, T3, T4, T5, T6, T7, T8, T9, T10) {
    type Join = (T1, T2, T3, T4, T5, T6, T7, T8, T9, T10, T11);

    open spec fn spec_join(self, other: (T11,)) -> (T1, T2, T3, T4, T5, T6, T7, T8, T9, T10, T11) {
        (self.0, self.1, self.2, self.3, self.4, self.5, self.6, self.7, self.8, self.9, other.0)
    }

    fn join(self, other: (T11,)) -> (r: (T1, T2, T3, T4, T5, T6, T7, T8, T9, T10, T11)) {
        (self.0, self.1, self.2, self.3, self.4, self.5, self.6, self.7, self.8, self.9, other.0)
    }

    proof fn lemma_join_arity(self, other: (T11,)) {
    }
}

impl<T1, T2, T3, T4, T5, T6, T7, T8, T9, T10, T11> JoinableTuple<()> for (T1, T2, T3, T4, T5, T6, T7, T8, T9, T10, T11) {
    type Join = (T1, T2, T3, T4, T5, T6, T7, T8, T9, T10, T11);

    open spec fn spec_join(self, other: ()) -> (T1, T2, T3, T4, T5, T6, T7, T8, T9, T10, T11) {
        (self.0, self.1, self.2, self.3, self.4, self.5, self.6, self.7, self.8, self.9, self.10)
    }

    fn join(self, other: ()) -> (r: (T1, T2, T3, T4, T5, T6, T7, T8, T9, T10, T11)) {
        (self.0, self.1, self.2, self.3, self.4, self.5, self.6, self.7, self.8, self.9, self.10)
    }

    proof fn lemma_join_arity(self, other: ()) {
    }
}

impl<T1, T2, T3, T4, T5, T6, T7, T8, T9, T10, T11, T12> Sealed for (T1, T2, T3, T4, T5, T6, T7, T8, T9, T10, T11, T12) {}

impl<T1, T2, T3, T4, T5, T6, T7, T8, T9, T10, T11, T12> DynTuple for (T1, T2, T3, T4, T5, T6, T7, T8, T9, T10, T11, T12) {
    open spec fn spec_arity(&self) -> nat {
        12
    }

    fn arity(&self) -> (r: usize) {
        12
    }
}

impl<T1, T2, T3, T4, T5, T6, T7, T8, T9, T10, T11, T12> Tuple for (T1, T2, T3, T4, T5, T6, T7, T8, T9, T10, T11, T12) {
    const ARITY: usize = 12;

    open spec fn spec_type_arity() -> nat {
        12
    }

    proof fn lemma_arity(&self) {
    }

    proof fn lemma_type_arity() {
    }
}

impl<T1, T2, T3, T4, T5, T6, T7, T8, T9, T10, T11, T12, T> GrowableTuple<T> for (T1, T2, T3, T4, T5, T6, T7, T8, T9, T10, T11, T12) {
    type Append = (T1, T2, T3, T4, T5, T6, T7, T8, T9, T10, T11, T12, T);

    type Prepend = (T, T1, T2, T3, T4, T5, T6, T7, T8, T9, T10, T11, T12);

    open spec fn spec_append(self, value: T) -> (T1, T2, T3, T4, T5, T6, T7, T8, T9, T10, T11, T12, T) {
        (self.0, self.1, self.2, self.3, self.4, self.5, self.6, self.7, self.8, self.9, self.10, self.11, value)
    }

    open spec fn spec_prepend(self, value: T) -> (T, T1, T2, T3, T4, T5, T6, T7, T8, T9, T10, T11, T12) {
        (value, self.0, self.1, self.2, self.3, self.4, self.5, self.6, self.7, self.8, self.9, self.10, self.11)
    }

    fn append(self, value: T) -> (r: (T1, T2, T3, T4, T5, T6, T7, T8, T9, T10, T11, T12, T)) {
        (self.0, self.1, self.2, self.3, self.4, self.5, self.6, self.7, self.8, self.9, self.10, self.11, value)
    }

    fn prepend(self, value: T) -> (r: (T, T1, T2, T3, T4, T5, T6, T7, T8, T9, T10, T11, T12)) {
        (value, self.0, self.1, self.2, self.3, self.4, self.5, self.6, self.7, self.8, self.9, self.10, self.11)
    }

    proof fn lemma_grow_arity(self, value: T) {
    }
}

impl<T1, T2, T3, T4, T5, T6, T7, T8, T9, T10, T11, T12> NonEmptyTuple for (T1, T2, T3, T4, T5, T6, T7, T8, T9, T10, T11, T12) {
    type Head = T1;

    type Tail = T12;

    type TruncateHead = (T2, T3, T4, T5, T6, T7, T8, T9, T10, T11, T12);

    type TruncateTail = (T1, T2, T3, T4, T5, T6, T7, T8, T9, T10, T11);

    open spec fn spec_head(&self) -> T1 {
        self.0
    }

    open spec fn spec_tail(&self) -> T12 {
        self.11
    }

    open spec fn spec_with_head(self, value: T1) -> (T1, T2, T3, T4, T5, T6, T7, T8, T9, T10, T11, T12) {
        (value, self.1, self.2, self.3, self.4, self.5, self.6, self.7, self.8, self.9, self.10, self.11)
    }

    open spec fn spec_with_tail(self, value: T12) -> (T1, T2, T3, T4, T5, T6, T7, T8, T9, T10, T11, T12) {
        (self.0, self.1, self.2, self.3, self.4, self.5, self.6, self.7, self.8, self.9, self.10, value)
    }

    open spec fn spec_truncate_head(self) -> (T1, (T2, T3, T4, T5, T6, T7, T8, T9, T10, T11, T12)) {
        (self.0, (self.1, self.2, self.3, self.4, self.5, self.6, self.7, self.8, self.9, self.10, self.11))
    }

    open spec fn spec_truncate_tail(self) -> ((T1, T2, T3, T4, T5, T6, T7, T8, T9, T10, T11), T12) {
        ((self.0, self.1, self.2, self.3, self.4, self.5, self.6, self.7, self.8, self.9, self.10), self.11)
    }

    fn head(&self) -> (r: &T1) {
        &self.0
    }

    fn head_mut(&mut self) -> (r: &mut T1) {
        &mut self.0
    }

    fn tail(&self) -> (r: &T12) {
        &self.11
    }

    fn tail_mut(&mut self) -> (r: &mut T12) {
        &mut self.11
    }

    fn truncate_head(self) -> (r: (T1, (T2, T3, T4, T5, T6, T7, T8, T9, T10, T11, T12))) {
        (self.0, (self.1, self.2, self.3, self.4, self.5, self.6, self.7, self.8, self.9, self.10, self.11))
    }

    fn truncate_tail(self) -> (r: ((T1, T2, T3, T4, T5, T6, T7, T8, T9, T10, T11), T12)) {
        ((self.0, self.1, self.2, self.3, self.4, self.5, self.6, self.7, self.8, self.9, self.10), self.11)
    }

    proof fn lemma_truncate_head(self) {
    }

    proof fn lemma_truncate_tail(self) {
    }
}

impl<T1, T2, T3, T4, T5, T6, T7, T8, T9, T10, T11, T12> NonUnaryTuple for (T1, T2, T3, T4, T5, T6, T7, T8, T9, T10, T11, T12) {
    type TruncateHeadTail = (T2, T3, T4, T5, T6, T7, T8, T9, T10, T11);

    open spec fn spec_truncate_head_tail(self) -> (T1, (T2, T3, T4, T5, T6, T7, T8, T9, T10, T11), T12) {
        (self.0, (self.1, self.2, self.3, self.4, self.5, self.6, self.7, self.8, self.9, self.10), self.11)
    }

    fn head_tail(&self) -> (r: (&T1, &T12)) {
        (&self.0, &self.11)
    }

    fn head_tail_mut(&mut self) -> (r: (&mut T1, &mut T12)) {
        (&mut self.0, &mut self.11)
    }

    fn truncate_head_tail(self) -> (r: (T1, (T2, T3, T4, T5, T6, T7, T8, T9, T10, T11), T12)) {
        (self.0, (self.1, self.2, self.3, self.4, self.5, self.6, self.7, self.8, self.9, self.10), self.11)
    }

    proof fn lemma_truncate_head_tail(self) {
    }
}

impl<T1, T2, T3, T4, T5, T6, T7, T8, T9, T10, T11, T12> IndexableTuple<0> for (T1, T2, T3, T4, T5, T6, T7, T8, T9, T10, T11, T12) {
    type Value = T1;

    open spec fn spec_index(&self) -> T1 {
        self.0
    }

    open spec fn spec_with_index(self, value: T1) -> (T1, T2, T3, T4, T5, T6, T7, T8, T9, T10, T11, T12) {
        (value, self.1, self.2, self.3, self.4, self.5, self.6, self.7, self.8, self.9, self.10, self.11)
    }

    fn index_ref(&self) -> (r: &T1) {
        &self.0
    }

    fn index_mut(&mut self) -> (r: &mut T1) {
        &mut self.0
    }

    fn into_index(self) -> (r: T1) {
        self.0
    }

    proof fn lemma_index_in_range(&self) {
    }
}

impl<T1, T2, T3, T4, T5, T6, T7, T8, T9, T10, T11, T12> IndexableTuple<1> for (T1, T2, T3, T4, T5, T6, T7, T8, T9, T10, T11, T12) {
    type Value = T2;

    open spec fn spec_index(&self) -> T2 {
        self.1
    }

    open spec fn spec_with_index(self, value: T2) -> (T1, T2, T3, T4, T5, T6, T7, T8, T9, T10, T11, T12) {
        (self.0, value, self.2, self.3, self.4, self.5, self.6, self.7, self.8, self.9, self.10, self.11)
    }

    fn index_ref(&self) -> (r: &T2) {
        &self.1
    }

    fn index_mut(&mut self) -> (r: &mut T2) {
        &mut self.1
    }

    fn into_index(self) -> (r: T2) {
        self.1
    }

    proof fn lemma_index_in_range(&self) {
    }
}

impl<T1, T2, T3, T4, T5, T6, T7, T8, T9, T10, T11, T12> IndexableTuple<2> for (T1, T2, T3, T4, T5, T6, T7, T8, T9, T10, T11, T12) {
    type Value = T3;

    open spec fn spec_index(&self) -> T3 {
        self.2
    }

    open spec fn spec_with_index(self, value: T3) -> (T1, T2, T3, T4, T5, T6, T7, T8, T9, T10, T11, T12) {
        (self.0, self.1, value, self.3, self.4, self.5, self.6, self.7, self.8, self.9, self.10, self.11)
    }

    fn index_ref(&self) -> (r: &T3) {
        &self.2
    }

    fn index_mut(&mut self) -> (r: &mut T3) {
        &mut self.2
    }

    fn into_index(self) -> (r: T3) {
        self.2
    }

    proof fn lemma_index_in_range(&self) {
    }
}

impl<T1, T2, T3, T4, T5, T6, T7, T8, T9, T10, T11, T12> IndexableTuple<3> for (T1, T2, T3, T4, T5, T6, T7, T8, T9, T10, T11, T12) {
    type Value = T4;

    open spec fn spec_index(&self) -> T4 {
        self.3
    }

    open spec fn spec_with_index(self, value: T4) -> (T1, T2, T3, T4, T5, T6, T7, T8, T9, T10, T11, T12) {
        (self.0, self.1, self.2, value, self.4, self.5, self.6, self.7, self.8, self.9, self.10, self.11)
    }

    fn index_ref(&self) -> (r: &T4) {
        &self.3
    }

    fn index_mut(&mut self) -> (r: &mut T4) {
        &mut self.3
    }

    fn into_index(self) -> (r: T4) {
        self.3
    }

    proof fn lemma_index_in_range(&self) {
    }
}

impl<T1, T2, T3, T4, T5, T6, T7, T8, T9, T10, T11, T12> IndexableTuple<4> for (T1, T2, T3, T4, T5, T6, T7, T8, T9, T10, T11, T12) {
    type Value = T5;

    open spec fn spec_index(&self) -> T5 {
        self.4
    }

    open spec fn spec_with_index(self, value: T5) -> (T1, T2, T3, T4, T5, T6, T7, T8, T9, T10, T11, T12) {
        (self.0, self.1, self.2, self.3, value, self.5, self.6, self.7, self.8, self.9, self.10, self.11)
    }

    fn index_ref(&self) -> (r: &T5) {
        &self.4
    }

    fn index_mut(&mut self) -> (r: &mut T5) {
        &mut self.4
    }

    fn into_index(self) -> (r: T5) {
        self.4
    }

    proof fn lemma_index_in_range(&self) {
    }
}

impl<T1, T2, T3, T4, T5, T6, T7, T8, T9, T10, T11, T12> IndexableTuple<5> for (T1, T2, T3, T4, T5, T6, T7, T8, T9, T10, T11, T12) {
    type Value = T6;

    open spec fn spec_index(&self) -> T6 {
        self.5
    }

    open spec fn spec_with_index(self, value: T6) -> (T1, T2, T3, T4, T5, T6, T7, T8, T9, T10, T11, T12) {
        (self.0, self.1, self.2, self.3, self.4, value, self.6, self.7, self.8, self.9, self.10, self.11)
    }

    fn index_ref(&self) -> (r: &T6) {
        &self.5
    }

    fn index_mut(&mut self) -> (r: &mut T6) {
        &mut self.5
    }

    fn into_index(self) -> (r: T6) {
        self.5
    }

    proof fn lemma_index_in_range(&self) {
    }
}

impl<T1, T2, T3, T4, T5, T6, T7, T8, T9, T10, T11, T12> IndexableTuple<6> for (T1, T2, T3, T4, T5, T6, T7, T8, T9, T10, T11, T12) {
    type Value = T7;

    open spec fn spec_index(&self) -> T7 {
        self.6
    }

    open spec fn spec_with_index(self, value: T7) -> (T1, T2, T3, T4, T5, T6, T7, T8, T9, T10, T11, T12) {
        (self.0, self.1, self.2, self.3, self.4, self.5, value, self.7, self.8, self.9, self.10, self.11)
    }

    fn index_ref(&self) -> (r: &T7) {
        &self.6
    }

    fn index_mut(&mut self) -> (r: &mut T7) {
        &mut self.6
    }

    fn into_index(self) -> (r: T7) {
        self.6
    }

    proof fn lemma_index_in_range(&self) {
    }
}

impl<T1, T2, T3, T4, T5, T6, T7, T8, T9, T10, T11, T12> IndexableTuple<7> for (T1, T2, T3, T4, T5, T6, T7, T8, T9, T10, T11, T12) {
    type Value = T8;

    open spec fn spec_index(&self) -> T8 {
        self.7
    }

    open spec fn spec_with_index(self, value: T8) -> (T1, T2, T3, T4, T5, T6, T7, T8, T9, T10, T11, T12) {
        (self.0, self.1, self.2, self.3, self.4, self.5, self.6, value, self.8, self.9, self.10, self.11)
    }

    fn index_ref(&self) -> (r: &T8) {
        &self.7
    }

    fn index_mut(&mut self) -> (r: &mut T8) {
        &mut self.7
    }

    fn into_index(self) -> (r: T8) {
        self.7
    }

    proof fn lemma_index_in_range(&self) {
    }
}

impl<T1, T2, T3, T4, T5, T6, T7, T8, T9, T10, T11, T12> IndexableTuple<8> for (T1, T2, T3, T4, T5, T6, T7, T8, T9, T10, T11, T12) {
    type Value = T9;

    open spec fn spec_index(&self) -> T9 {
        self.8
    }

    open spec fn spec_with_index(self, value: T9) -> (T1, T2, T3, T4, T5, T6, T7, T8, T9, T10, T11, T12) {
        (self.0, self.1, self.2, self.3, self.4, self.5, self.6, self.7, value, self.9, self.10, self.11)
    }

    fn index_ref(&self) -> (r: &T9) {
        &self.8
    }

    fn index_mut(&mut self) -> (r: &mut T9) {
        &mut self.8
    }

    fn into_index(self) -> (r: T9) {
        self.8
    }

    proof fn lemma_index_in_range(&self) {
    }
}

impl<T1, T2, T3, T4, T5, T6, T7, T8, T9, T10, T11, T12> IndexableTuple<9> for (T1, T2, T3, T4, T5, T6, T7, T8, T9, T10, T11, T12) {
    type Value = T10;

    open spec fn spec_index(&self) -> T10 {
        self.9
    }

    open spec fn spec_with_index(self, value: T10) -> (T1, T2, T3, T4, T5, T6, T7, T8, T9, T10, T11, T12) {
        (self.0, self.1, self.2, self.3, self.4, self.5, self.6, self.7, self.8, value, self.10, self.11)
    }

    fn index_ref(&self) -> (r: &T10) {
        &self.9
    }

    fn index_mut(&mut self) -> (r: &mut T10) {
        &mut self.9
    }

    fn into_index(self) -> (r: T10) {
        self.9
    }

    proof fn lemma_index_in_range(&self) {
    }
}

impl<T1, T2, T3, T4, T5, T6, T7, T8, T9, T10, T11, T12> IndexableTuple<10> for (T1, T2, T3, T4, T5, T6, T7, T8, T9, T10, T11, T12) {
    type Value = T11;

    open spec fn spec_index(&self) -> T11 {
        self.10
    }

    open spec fn spec_with_index(self, value: T11) -> (T1, T2, T3, T4, T5, T6, T7, T8, T9, T10, T11, T12) {
        (self.0, self.1, self.2, self.3, self.4, self.5, self.6, self.7, self.8, self.9, value, self.11)
    }

    fn index_ref(&self) -> (r: &T11) {
        &self.10
    }

    fn index_mut(&mut self) -> (r: &mut T11) {
        &mut self.10
    }

    fn into_index(self) -> (r: T11) {
        self.10
    }

    proof fn lemma_index_in_range(&self) {
    }
}

impl<T1, T2, T3, T4, T5, T6, T7, T8, T9, T10, T11, T12> IndexableTuple<11> for (T1, T2, T3, T4, T5, T6, T7, T8, T9, T10, T11, T12) {
    type Value = T12;

    open spec fn spec_index(&self) -> T12 {
        self.11
    }

    open spec fn spec_with_index(self, value: T12) -> (T1, T2, T3, T4, T5, T6, T7, T8, T9, T10, T11, T12) {
        (self.0, self.1, self.2, self.3, self.4, self.5, self.6, self.7, self.8, self.9, self.10, value)
    }

    fn index_ref(&self) -> (r: &T12) {
        &self.11
    }

    fn index_mut(&mut self) -> (r: &mut T12) {
        &mut self.11
    }

    fn into_index(self) -> (r: T12) {
        self.11
    }

    proof fn lemma_index_in_range(&self) {
    }
}

impl<T1, T2, T3, T4, T5, T6, T7, T8, T9, T10, T11, T12> JoinableTuple<(T1, T2, T3, T4, T5, T6, T7, T8, T9, T10, T11, T12)> for () {
    type Join = (T1, T2, T3, T4, T5, T6, T7, T8, T9, T10, T11, T12);

    open spec fn spec_join(self, other: (T1, T2, T3, T4, T5, T6, T7, T8, T9, T10, T11, T12)) -> (T1, T2, T3, T4, T5, T6, T7, T8, T9, T10, T11, T12) {
        (other.0, other.1, other.2, other.3, other.4, other.5, other.6, other.7, other.8, other.9, other.10, other.11)
    }

    fn join(self, other: (T1, T2, T3, T4, T5, T6, T7, T8, T9, T10, T11, T12)) -> (r: (T1, T2, T3, T4, T5, T6, T7, T8, T9, T10, T11, T12)) {
        (other.0, other.1, other.2, other.3, other.4, other.5, other.6, other.7, other.8, other.9, other.10, other.11)
    }

    proof fn lemma_join_arity(self, other: (T1, T2, T3, T4, T5, T6, T7, T8, T9, T10, T11, T12)) {
    }
}

impl<T1, T2, T3, T4, T5, T6, T7, T8, T9, T10, T11, T12> JoinableTuple<(T2, T3, T4, T5, T6, T7, T8, T9, T10, T11, T12)> for (T1,) {
    type Join = (T1, T2, T3, T4, T5, T6, T7, T8, T9, T10, T11, T12);

    open spec fn spec_join(self, other: (T2, T3, T4, T5, T6, T7, T8, T9, T10, T11, T12)) -> (T1, T2, T3, T4, T5, T6, T7, T8, T9, T10, T11, T12) {
        (self.0, other.0, other.1, other.2, other.3, other.4, other.5, other.6, other.7, other.8, other.9, other.10)
    }

    fn join(self, other: (T2, T3, T4, T5, T6, T7, T8, T9, T10, T11, T12)) -> (r: (T1, T2, T3, T4, T5, T6, T7, T8, T9, T10, T11, T12)) {
        (self.0, other.0, other.1, other.2, other.3, other.4, other.5, other.6, other.7, other.8, other.9, other.10)
    }

    proof fn lemma_join_arity(self, other: (T2, T3, T4, T5, T6, T7, T8, T9, T10, T11, T12)) {
    }
}

impl<T1, T2, T3, T4, T5, T6, T7, T8, T9, T10, T11, T12> JoinableTuple<(T3, T4, T5, T6, T7, T8, T9, T10, T11, T12)> for (T1, T2) {
    type Join = (T1, T2, T3, T4, T5, T6, T7, T8, T9, T10, T11, T12);

    open spec fn spec_join(self, other: (T3, T4, T5, T6, T7, T8, T9, T10, T11, T12)) -> (T1, T2, T3, T4, T5, T6, T7, T8, T9, T10, T11, T12) {
        (self.0, self.1, other.0, other.1, other.2, other.3, other.4, other.5, other.6, other.7, other.8, other.9)
    }

    fn join(self, other: (T3, T4, T5, T6, T7, T8, T9, T10, T11, T12)) -> (r: (T1, T2, T3, T4, T5, T6, T7, T8, T9, T10, T11, T12)) {
        (self.0, self.1, other.0, other.1, other.2, other.3, other.4, other.5, other.6, other.7, other.8, other.9)
    }

    proof fn lemma_join_arity(self, other: (T3, T4, T5, T6, T7, T8, T9, T10, T11, T12)) {
    }
}

impl<T1, T2, T3, T4, T5, T6, T7, T8, T9, T10, T11, T12> JoinableTuple<(T4, T5, T6, T7, T8, T9, T10, T11, T12)> for (T1, T2, T3) {
    type Join = (T1, T2, T3, T4, T5, T6, T7, T8, T9, T10, T11, T12);

    open spec fn spec_join(self, other: (T4, T5, T6, T7, T8, T9, T10, T11, T12)) -> (T1, T2, T3, T4, T5, T6, T7, T8, T9, T10, T11, T12) {
        (self.0, self.1, self.2, other.0, other.1, other.2, other.3, other.4, other.5, other.6, other.7, other.8)
    }

    fn join(self, other: (T4, T5, T6, T7, T8, T9, T10, T11, T12)) -> (r: (T1, T2, T3, T4, T5, T6, T7, T8, T9, T10, T11, T12)) {
        (self.0, self.1, self.2, other.0, other.1, other.2, other.3, other.4, other.5, other.6, other.7, other.8)
    }

    proof fn lemma_join_arity(self, other: (T4, T5, T6, T7, T8, T9, T10, T11, T12)) {
    }
}

impl<T1, T2, T3, T4, T5, T6, T7, T8, T9, T10, T11, T12> JoinableTuple<(T5, T6, T7, T8, T9, T10, T11, T12)> for (T1, T2, T3, T4) {
    type Join = (T1, T2, T3, T4, T5, T6, T7, T8, T9, T10, T11, T12);

    open spec fn spec_join(self, other: (T5, T6, T7, T8, T9, T10, T11, T12)) -> (T1, T2, T3, T4, T5, T6, T7, T8, T9, T10, T11, T12) {
        (self.0, self.1, self.2, self.3, other.0, other.1, other.2, other.3, other.4, other.5, other.6, other.7)
    }

    fn join(self, other: (T5, T6, T7, T8, T9, T10, T11, T12)) -> (r: (T1, T2, T3, T4, T5, T6, T7, T8, T9, T10, T11, T12)) {
        (self.0, self.1, self.2, self.3, other.0, other.1, other.2, other.3, other.4, other.5, other.6, other.7)
    }

    proof fn lemma_join_arity(self, other: (T5, T6, T7, T8, T9, T10, T11, T12)) {
    }
}

impl<T1, T2, T3, T4, T5, T6, T7, T8, T9, T10, T11, T12> JoinableTuple<(T6, T7, T8, T9, T10, T11, T12)> for (T1, T2, T3, T4, T5) {
    type Join = (T1, T2, T3, T4, T5, T6, T7, T8, T9, T10, T11, T12);

    open spec fn spec_join(self, other: (T6, T7, T8, T9, T10, T11, T12)) -> (T1, T2, T3, T4, T5, T6, T7, T8, T9, T10, T11, T12) {
        (self.0, self.1, self.2, self.3, self.4, other.0, other.1, other.2, other.3, other.4, other.5, other.6)
    }

    fn join(self, other: (T6, T7, T8, T9, T10, T11, T12)) -> (r: (T1, T2, T3, T4, T5, T6, T7, T8, T9, T10, T11, T12)) {
        (self.0, self.1, self.2, self.3, self.4, other.0, other.1, other.2, other.3, other.4, other.5, other.6)
    }

    proof fn lemma_join_arity(self, other: (T6, T7, T8, T9, T10, T11, T12)) {
    }
}

impl<T1, T2, T3, T4, T5, T6, T7, T8, T9, T10, T11, T12> JoinableTuple<(T7, T8, T9, T10, T11, T12)> for (T1, T2, T3, T4, T5, T6) {
    type Join = (T1, T2, T3, T4, T5, T6, T7, T8, T9, T10, T11, T12);

    open spec fn spec_join(self, other: (T7, T8, T9, T10, T11, T12)) -> (T1, T2, T3, T4, T5, T6, T7, T8, T9, T10, T11, T12) {
        (self.0, self.1, self.2, self.3, self.4, self.5, other.0, other.1, other.2, other.3, other.4, other.5)
    }

    fn join(self, other: (T7, T8, T9, T10, T11, T12)) -> (r: (T1, T2, T3, T4, T5, T6, T7, T8, T9, T10, T11, T12)) {
        (self.0, self.1, self.2, self.3, self.4, self.5, other.0, other.1, other.2, other.3, other.4, other.5)
    }

    proof fn lemma_join_arity(self, other: (T7, T8, T9, T10, T11, T12)) {
    }
}

impl<T1, T2, T3, T4, T5, T6, T7, T8, T9, T10, T11, T12> JoinableTuple<(T8, T9, T10, T11, T12)> for (T1, T2, T3, T4, T5, T6, T7) {
    type Join = (T1, T2, T3, T4, T5, T6, T7, T8, T9, T10, T11, T12);

    open spec fn spec_join(self, other: (T8, T9, T10, T11, T12)) -> (T1, T2, T3, T4, T5, T6, T7, T8, T9, T10, T11, T12) {
        (self.0, self.1, self.2, self.3, self.4, self.5, self.6, other.0, other.1, other.2, other.3, other.4)
    }

    fn join(self, other: (T8, T9, T10, T11, T12)) -> (r: (T1, T2, T3, T4, T5, T6, T7, T8, T9, T10, T11, T12)) {
        (self.0, self.1, self.2, self.3, self.4, self.5, self.6, other.0, other.1, other.2, other.3, other.4)
    }

    proof fn lemma_join_arity(self, other: (T8, T9, T10, T11, T12)) {
    }
}

impl<T1, T2, T3, T4, T5, T6, T7, T8, T9, T10, T11, T12> JoinableTuple<(T9, T10, T11, T12)> for (T1, T2, T3, T4, T5, T6, T7, T8) {
    type Join = (T1, T2, T3, T4, T5, T6, T7, T8, T9, T10, T11, T12);

    open spec fn spec_join(self, other: (T9, T10, T11, T12)) -> (T1, T2, T3, T4, T5, T6, T7, T8, T9, T10, T11, T12) {
        (self.0, self.1, self.2, self.3, self.4, self.5, self.6, self.7, other.0, other.1, other.2, other.3)
    }

    fn join(self, other: (T9, T10, T11, T12)) -> (r: (T1, T2, T3, T4, T5, T6, T7, T8, T9, T10, T11, T12)) {
        (self.0, self.1, self.2, self.3, self.4, self.5, self.6, self.7, other.0, other.1, other.2, other.3)
    }

    proof fn lemma_join_arity(self, other: (T9, T10, T11, T12)) {
    }
}

impl<T1, T2, T3, T4, T5, T6, T7, T8, T9, T10, T11, T12> JoinableTuple<(T10, T11, T12)> for (T1, T2, T3, T4, T5, T6, T7, T8, T9) {
    type Join = (T1, T2, T3, T4, T5, T6, T7, T8, T9, T10, T11, T12);

    open spec fn spec_join(self, other: (T10, T11, T12)) -> (T1, T2, T3, T4, T5, T6, T7, T8, T9, T10, T11, T12) {
        (self.0, self.1, self.2, self.3, self.4, self.5, self.6, self.7, self.8, other.0, other.1, other.2)
    }

    fn join(self, other: (T10, T11, T12)) -> (r: (T1, T2, T3, T4, T5, T6, T7, T8, T9, T10, T11, T12)) {
        (self.0, self.1, self.2, self.3, self.4, self.5, self.6, self.7, self.8, other.0, other.1, other.2)
    }

    proof fn lemma_join_arity(self, other: (T10, T11, T12)) {
    }
}

impl<T1, T2, T3, T4, T5, T6, T7, T8, T9, T10, T11, T12> JoinableTuple<(T11, T12)> for (T1, T2, T3, T4, T5, T6, T7, T8, T9, T10) {
    type Join = (T1, T2, T3, T4, T5, T6, T7, T8, T9, T10, T11, T12);

    open spec fn spec_join(self, other: (T11, T12)) -> (T1, T2, T3, T4, T5, T6, T7, T8, T9, T10, T11, T12) {
        (self.0, self.1, self.2, self.3, self.4, self.5, self.6, self.7, self.8, self.9, other.0, other.1)
    }

    fn join(self, other: (T11, T12)) -> (r: (T1, T2, T3, T4, T5, T6, T7, T8, T9, T10, T11, T12)) {
        (self.0, self.1, self.2, self.3, self.4, self.5, self.6, self.7, self.8, self.9, other.0, other.1)
    }

    proof fn lemma_join_arity(self, other: (T11, T12)) {
    }
}

impl<T1, T2, T3, T4, T5, T6, T7, T8, T9, T10, T11, T12> JoinableTuple<(T12,)> for (T1, T2, T3, T4, T5, T6, T7, T8, T9, T10, T11) {
    type Join = (T1, T2, T3, T4, T5, T6, T7, T8, T9, T10, T11, T12);

    open spec fn spec_join(self, other: (T12,)) -> (T1, T2, T3, T4, T5, T6, T7, T8, T9, T10, T11, T12) {
        (self.0, self.1, self.2, self.3, self.4, self.5, self.6, self.7, self.8, self.9, self.10, other.0)
    }

    fn join(self, other: (T12,)) -> (r: (T1, T2, T3, T4, T5, T6, T7, T8, T9, T10, T11, T12)) {
        (self.0, self.1, self.2, self.3, self.4, self.5, self.6, self.7, self.8, self.9, self.10, other.0)
    }

    proof fn lemma_join_arity(self, other: (T12,)) {
    }
}

impl<T1, T2, T3, T4, T5, T6, T7, T8, T9, T10, T11, T12> JoinableTuple<()> for (T1, T2, T3, T4, T5, T6, T7, T8, T9, T10, T11, T12) {
    type Join = (T1, T2, T3, T4, T5, T6, T7, T8, T9, T10, T11, T12);

    open spec fn spec_join(self, other: ()) -> (T1, T2, T3, T4, T5, T6, T7, T8, T9, T10, T11, T12) {
        (self.0, self.1, self.2, self.3, self.4, self.5, self.6, self.7, self.8, self.9, self.10, self.11)
    }

    fn join(self, other: ()) -> (r: (T1, T2, T3, T4, T5, T6, T7, T8, T9, T10, T11, T12)) {
        (self.0, self.1, self.2, self.3, self.4, self.5, self.6, self.7, self.8, self.9, self.10, self.11)
    }

    proof fn lemma_join_arity(self, other: ()) {
    }
}

impl<T1, T2, T3, T4, T5, T6, T7, T8, T9, T10, T11, T12, T13> Sealed for (T1, T2, T3, T4, T5, T6, T7, T8, T9, T10, T11, T12, T13) {}

impl<T1, T2, T3, T4, T5, T6, T7, T8, T9, T10, T11, T12, T13> DynTuple for (T1, T2, T3, T4, T5, T6, T7, T8, T9, T10, T11, T12, T13) {
    open spec fn spec_arity(&self) -> nat {
        13
    }

    fn arity(&self) -> (r: usize) {
        13
    }
}

impl<T1, T2, T3, T4, T5, T6, T7, T8, T9, T10, T11, T12, T13> Tuple for (T1, T2, T3, T4, T5, T6, T7, T8, T9, T10, T11, T12, T13) {
    const ARITY: usize = 13;

    open spec fn spec_type_arity() -> nat {
        13
    }

    proof fn lemma_arity(&self) {
    }

    proof fn lemma_type_arity() {
    }
}

impl<T1, T2, T3, T4, T5, T6, T7, T8, T9, T10, T11, T12, T13, T> GrowableTuple<T> for (T1, T2, T3, T4, T5, T6, T7, T8, T9, T10, T11, T12, T13) {
    type Append = (T1, T2, T3, T4, T5, T6, T7, T8, T9, T10, T11, T12, T13, T);

    type Prepend = (T, T1, T2, T3, T4, T5, T6, T7, T8, T9, T10, T11, T12, T13);

    open spec fn spec_append(self, value: T) -> (T1, T2, T3, T4, T5, T6, T7, T8, T9, T10, T11, T12, T13, T) {
        (self.0, self.1, self.2, self.3, self.4, self.5, self.6, self.7, self.8, self.9, self.10, self.11, self.12, value)
    }

    open spec fn spec_prepend(self, value: T) -> (T, T1, T2, T3, T4, T5, T6, T7, T8, T9, T10, T11, T12, T13) {
        (value, self.0, self.1, self.2, self.3, self.4, self.5, self.6, self.7, self.8, self.9, self.10, self.11, self.12)
    }

    fn append(self, value: T) -> (r: (T1, T2, T3, T4, T5, T6, T7, T8, T9, T10, T11, T12, T13, T)) {
        (self.0, self.1, self.2, self.3, self.4, self.5, self.6, self.7, self.8, self.9, self.10, self.11, self.12, value)
    }

    fn prepend(self, value: T) -> (r: (T, T1, T2, T3, T4, T5, T6, T7, T8, T9, T10, T11, T12, T13)) {
        (value, self.0, self.1, self.2, self.3, self.4, self.5, self.6, self.7, self.8, self.9, self.10, self.11, self.12)
    }

    proof fn lemma_grow_arity(self, value: T) {
    }
}

impl<T1, T2, T3, T4, T5, T6, T7, T8, T9, T10, T11, T12, T13> NonEmptyTuple for (T1, T2, T3, T4, T5, T6, T7, T8, T9, T10, T11, T12, T13) {
    type Head = T1;

    type Tail = T13;

    type TruncateHead = (T2, T3, T4, T5, T6, T7, T8, T9, T10, T11, T12, T13);

    type TruncateTail = (T1, T2, T3, T4, T5, T6, T7, T8, T9, T10, T11, T12);

    open spec fn spec_head(&self) -> T1 {
        self.0
    }

    open spec fn spec_tail(&self) -> T13 {
        self.12
    }

    open spec fn spec_with_head(self, value: T1) -> (T1, T2, T3, T4, T5, T6, T7, T8, T9, T10, T11, T12, T13) {
        (value, self.1, self.2, self.3, self.4, self.5, self.6, self.7, self.8, self.9, self.10, self.11, self.12)
    }

    open spec fn spec_with_tail(self, value: T13) -> (T1, T2, T3, T4, T5, T6, T7, T8, T9, T10, T11, T12, T13) {
        (self.0, self.1, self.2, self.3, self.4, self.5, self.6, self.7, self.8, self.9, self.10, self.11, value)
    }

    open spec fn spec_truncate_head(self) -> (T1, (T2, T3, T4, T5, T6, T7, T8, T9, T10, T11, T12, T13)) {
        (self.0, (self.1, self.2, self.3, self.4, self.5, self.6, self.7, self.8, self.9, self.10, self.11, self.12))
    }

    open spec fn spec_truncate_tail(self) -> ((T1, T2, T3, T4, T5, T6, T7, T8, T9, T10, T11, T12), T13) {
        ((self.0, self.1, self.2, self.3, self.4, self.5, self.6, self.7, self.8, self.9, self.10, self.11), self.12)
    }

    fn head(&self) -> (r: &T1) {
        &self.0
    }

    fn head_mut(&mut self) -> (r: &mut T1) {
        &mut self.0
    }

    fn tail(&self) -> (r: &T13) {
        &self.12
    }

    fn tail_mut(&mut self) -> (r: &mut T13) {
        &mut self.12
    }

    fn truncate_head(self) -> (r: (T1, (T2, T3, T4, T5, T6, T7, T8, T9, T10, T11, T12, T13))) {
        (self.0, (self.1, self.2, self.3, self.4, self.5, self.6, self.7, self.8, self.9, self.10, self.11, self.12))
    }

    fn truncate_tail(self) -> (r: ((T1, T2, T3, T4, T5, T6, T7, T8, T9, T10, T11, T12), T13)) {
        ((self.0, self.1, self.2, self.3, self.4, self.5, self.6, self.7, self.8, self.9, self.10, self.11), self.12)
    }

    proof fn lemma_truncate_head(self) {
    }

    proof fn lemma_truncate_tail(self) {
    }
}

impl<T1, T2, T3, T4, T5, T6, T7, T8, T9, T10, T11, T12, T13> NonUnaryTuple for (T1, T2, T3, T4, T5, T6, T7, T8, T9, T10, T11, T12, T13) {
    type TruncateHeadTail = (T2, T3, T4, T5, T6, T7, T8, T9, T10, T11, T12);

    open spec fn spec_truncate_head_tail(self) -> (T1, (T2, T3, T4, T5, T6, T7, T8, T9, T10, T11, T12), T13) {
        (self.0, (self.1, self.2, self.3, self.4, self.5, self.6, self.7, self.8, self.9, self.10, self.11), self.12)
    }

    fn head_tail(&self) -> (r: (&T1, &T13)) {
        (&self.0, &self.12)
    }

    fn head_tail_mut(&mut self) -> (r: (&mut T1, &mut T13)) {
        (&mut self.0, &mut self.12)
    }

    fn truncate_head_tail(self) -> (r: (T1, (T2, T3, T4, T5, T6, T7, T8, T9, T10, T11, T12), T13)) {
        (self.0, (self.1, self.2, self.3, self.4, self.5, self.6, self.7, self.8, self.9, self.10, self.11), self.12)
    }

    proof fn lemma_truncate_head_tail(self) {
    }
}

impl<T1, T2, T3, T4, T5, T6, T7, T8, T9, T10, T11, T12, T13> IndexableTuple<0> for (T1, T2, T3, T4, T5, T6, T7, T8, T9, T10, T11, T12, T13) {
    type Value = T1;

    open spec fn spec_index(&self) -> T1 {
        self.0
    }

    open spec fn spec_with_index(self, value: T1) -> (T1, T2, T3, T4, T5, T6, T7, T8, T9, T10, T11, T12, T13) {
        (value, self.1, self.2, self.3, self.4, self.5, self.6, self.7, self.8, self.9, self.10, self.11, self.12)
    }

    fn index_ref(&self) -> (r: &T1) {
        &self.0
    }

    fn index_mut(&mut self) -> (r: &mut T1) {
        &mut self.0
    }

    fn into_index(self) -> (r: T1) {
        self.0
    }

    proof fn lemma_index_in_range(&self) {
    }
}

impl<T1, T2, T3, T4, T5, T6, T7, T8, T9, T10, T11, T12, T13> IndexableTuple<1> for (T1, T2, T3, T4, T5, T6, T7, T8, T9, T10, T11, T12, T13) {
    type Value = T2;

    open spec fn spec_index(&self) -> T2 {
        self.1
    }

    open spec fn spec_with_index(self, value: T2) -> (T1, T2, T3, T4, T5, T6, T7, T8, T9, T10, T11, T12, T13) {
        (self.0, value, self.2, self.3, self.4, self.5, self.6, self.7, self.8, self.9, self.10, self.11, self.12)
    }

    fn index_ref(&self) -> (r: &T2) {
        &self.1
    }

    fn index_mut(&mut self) -> (r: &mut T2) {
        &mut self.1
    }

    fn into_index(self) -> (r: T2) {
        self.1
    }

    proof fn lemma_index_in_range(&self) {
    }
}

impl<T1, T2, T3, T4, T5, T6, T7, T8, T9, T10, T11, T12, T13> IndexableTuple<2> for (T1, T2, T3, T4, T5, T6, T7, T8, T9, T10, T11, T12, T13) {
    type Value = T3;

    open spec fn spec_index(&self) -> T3 {
        self.2
    }

    open spec fn spec_with_index(self, value: T3) -> (T1, T2, T3, T4, T5, T6, T7, T8, T9, T10, T11, T12, T13) {
        (self.0, self.1, value, self.3, self.4, self.5, self.6, self.7, self.8, self.9, self.10, self.11, self.12)
    }

    fn index_ref(&self) -> (r: &T3) {
        &self.2
    }

    fn index_mut(&mut self) -> (r: &mut T3) {
        &mut self.2
    }

    fn into_index(self) -> (r: T3) {
        self.2
    }

    proof fn lemma_index_in_range(&self) {
    }
}

impl<T1, T2, T3, T4, T5, T6, T7, T8, T9, T10, T11, T12, T13> IndexableTuple<3> for (T1, T2, T3, T4, T5, T6, T7, T8, T9, T10, T11, T12, T13) {
    type Value = T4;

    open spec fn spec_index(&self) -> T4 {
        self.3
    }

    open spec fn spec_with_index(self, value: T4) -> (T1, T2, T3, T4, T5, T6, T7, T8, T9, T10, T11, T12, T13) {
        (self.0, self.1, self.2, value, self.4, self.5, self.6, self.7, self.8, self.9, self.10, self.11, self.12)
    }

    fn index_ref(&self) -> (r: &T4) {
        &self.3
    }

    fn index_mut(&mut self) -> (r: &mut T4) {
        &mut self.3
    }

    fn into_index(self) -> (r: T4) {
        self.3
    }

    proof fn lemma_index_in_range(&self) {
    }
}

impl<T1, T2, T3, T4, T5, T6, T7, T8, T9, T10, T11, T12, T13> IndexableTuple<4> for (T1, T2, T3, T4, T5, T6, T7, T8, T9, T10, T11, T12, T13) {
    type Value = T5;

    open spec fn spec_index(&self) -> T5 {
        self.4
    }

    open spec fn spec_with_index(self, value: T5) -> (T1, T2, T3, T4, T5, T6, T7, T8, T9, T10, T11, T12, T13) {
        (self.0, self.1, self.2, self.3, value, self.5, self.6, self.7, self.8, self.9, self.10, self.11, self.12)
    }

    fn index_ref(&self) -> (r: &T5) {
        &self.4
    }

    fn index_mut(&mut self) -> (r: &mut T5) {
        &mut self.4
    }

    fn into_index(self) -> (r: T5) {
        self.4
    }

    proof fn lemma_index_in_range(&self) {
    }
}

impl<T1, T2, T3, T4, T5, T6, T7, T8, T9, T10, T11, T12, T13> IndexableTuple<5> for (T1, T2, T3, T4, T5, T6, T7, T8, T9, T10, T11, T12, T13) {
    type Value = T6;

    open spec fn spec_index(&self) -> T6 {
        self.5
    }

    open spec fn spec_with_index(self, value: T6) -> (T1, T2, T3, T4, T5, T6, T7, T8, T9, T10, T11, T12, T13) {
        (self.0, self.1, self.2, self.3, self.4, value, self.6, self.7, self.8, self.9, self.10, self.11, self.12)
    }

    fn index_ref(&self) -> (r: &T6) {
        &self.5
    }

    fn index_mut(&mut self) -> (r: &mut T6) {
        &mut self.5
    }

    fn into_index(self) -> (r: T6) {
        self.5
    }

    proof fn lemma_index_in_range(&self) {
    }
}

impl<T1, T2, T3, T4, T5, T6, T7, T8, T9, T10, T11, T12, T13> IndexableTuple<6> for (T1, T2, T3, T4, T5, T6, T7, T8, T9, T10, T11, T12, T13) {
    type Value = T7;

    open spec fn spec_index(&self) -> T7 {
        self.6
    }

    open spec fn spec_with_index(self, value: T7) -> (T1, T2, T3, T4, T5, T6, T7, T8, T9, T10, T11, T12, T13) {
        (self.0, self.1, self.2, self.3, self.4, self.5, value, self.7, self.8, self.9, self.10, self.11, self.12)
    }

    fn index_ref(&self) -> (r: &T7) {
        &self.6
    }

    fn index_mut(&mut self) -> (r: &mut T7) {
        &mut self.6
    }

    fn into_index(self) -> (r: T7) {
        self.6
    }

    proof fn lemma_index_in_range(&self) {
    }
}

impl<T1, T2, T3, T4, T5, T6, T7, T8, T9, T10, T11, T12, T13> IndexableTuple<7> for (T1, T2, T3, T4, T5, T6, T7, T8, T9, T10, T11, T12, T13) {
    type Value = T8;

    open spec fn spec_index(&self) -> T8 {
        self.7
    }

    open spec fn spec_with_index(self, value: T8) -> (T1, T2, T3, T4, T5, T6, T7, T8, T9, T10, T11, T12, T13) {
        (self.0, self.1, self.2, self.3, self.4, self.5, self.6, value, self.8, self.9, self.10, self.11, self.12)
    }

    fn index_ref(&self) -> (r: &T8) {
        &self.7
    }

    fn index_mut(&mut self) -> (r: &mut T8) {
        &mut self.7
    }

    fn into_index(self) -> (r: T8) {
        self.7
    }

    proof fn lemma_index_in_range(&self) {
    }
}

impl<T1, T2, T3, T4, T5, T6, T7, T8, T9, T10, T11, T12, T13> IndexableTuple<8> for (T1, T2, T3, T4, T5, T6, T7, T8, T9, T10, T11, T12, T13) {
    type Value = T9;

    open spec fn spec_index(&self) -> T9 {
        self.8
    }

    open spec fn spec_with_index(self, value: T9) -> (T1, T2, T3, T4, T5, T6, T7, T8, T9, T10, T11, T12, T13) {
        (self.0, self.1, self.2, self.3, self.4, self.5, self.6, self.7, value, self.9, self.10, self.11, self.12)
    }

    fn index_ref(&self) -> (r: &T9) {
        &self.8
    }

    fn index_mut(&mut self) -> (r: &mut T9) {
        &mut self.8
    }

    fn into_index(self) -> (r: T9) {
        self.8
    }

    proof fn lemma_index_in_range(&self) {
    }
}

impl<T1, T2, T3, T4, T5, T6, T7, T8, T9, T10, T11, T12, T13> IndexableTuple<9> for (T1, T2, T3, T4, T5, T6, T7, T8, T9, T10, T11, T12, T13) {
    type Value = T10;

    open spec fn spec_index(&self) -> T10 {
        self.9
    }

    open spec fn spec_with_index(self, value: T10) -> (T1, T2, T3, T4, T5, T6, T7, T8, T9, T10, T11, T12, T13) {
        (self.0, self.1, self.2, self.3, self.4, self.5, self.6, self.7, self.8, value, self.10, self.11, self.12)
    }

    fn index_ref(&self) -> (r: &T10) {
        &self.9
    }

    fn index_mut(&mut self) -> (r: &mut T10) {
        &mut self.9
    }

    fn into_index(self) -> (r: T10) {
        self.9
    }

    proof fn lemma_index_in_range(&self) {
    }
}

impl<T1, T2, T3, T4, T5, T6, T7, T8, T9, T10, T11, T12, T13> IndexableTuple<10> for (T1, T2, T3, T4, T5, T6, T7, T8, T9, T10, T11, T12, T13) {
    type Value = T11;

    open spec fn spec_index(&self) -> T11 {
        self.10
    }

    open spec fn spec_with_index(self, value: T11) -> (T1, T2, T3, T4, T5, T6, T7, T8, T9, T10, T11, T12, T13) {
        (self.0, self.1, self.2, self.3, self.4, self.5, self.6, self.7, self.8, self.9, value, self.11, self.12)
    }

    fn index_ref(&self) -> (r: &T11) {
        &self.10
    }

    fn index_mut(&mut self) -> (r: &mut T11) {
        &mut self.10
    }

    fn into_index(self) -> (r: T11) {
        self.10
    }

    proof fn lemma_index_in_range(&self) {
    }
}

impl<T1, T2, T3, T4, T5, T6, T7, T8, T9, T10, T11, T12, T13> IndexableTuple<11> for (T1, T2, T3, T4, T5, T6, T7, T8, T9, T10, T11, T12, T13) {
    type Value = T12;

    open spec fn spec_index(&self) -> T12 {
        self.11
    }

    open spec fn spec_with_index(self, value: T12) -> (T1, T2, T3, T4, T5, T6, T7, T8, T9, T10, T11, T12, T13) {
        (self.0, self.1, self.2, self.3, self.4, self.5, self.6, self.7, self.8, self.9, self.10, value, self.12)
    }

    fn index_ref(&self) -> (r: &T12) {
        &self.11
    }

    fn index_mut(&mut self) -> (r: &mut T12) {
        &mut self.11
    }

    fn into_index(self) -> (r: T12) {
        self.11
    }

    proof fn lemma_index_in_range(&self) {
    }
}

impl<T1, T2, T3, T4, T5, T6, T7, T8, T9, T10, T11, T12, T13> IndexableTuple<12> for (T1, T2, T3, T4, T5, T6, T7, T8, T9, T10, T11, T12, T13) {
    type Value = T13;

    open spec fn spec_index(&self) -> T13 {
        self.12
    }

    open spec fn spec_with_index(self, value: T13) -> (T1, T2, T3, T4, T5, T6, T7, T8, T9, T10, T11, T12, T13) {
        (self.0, self.1, self.2, self.3, self.4, self.5, self.6, self.7, self.8, self.9, self.10, self.11, value)
    }

    fn index_ref(&self) -> (r: &T13) {
        &self.12
    }

    fn index_mut(&mut self) -> (r: &mut T13) {
        &mut self.12
    }

    fn into_index(self) -> (r: T13) {
        self.12
    }

    proof fn lemma_index_in_range(&self) {
    }
}

impl<T1, T2, T3, T4, T5, T6, T7, T8, T9, T10, T11, T12, T13> JoinableTuple<(T1, T2, T3, T4, T5, T6, T7, T8, T9, T10, T11, T12, T13)> for () {
    type Join = (T1, T2, T3, T4, T5, T6, T7, T8, T9, T10, T11, T12, T13);

    open spec fn spec_join(self, other: (T1, T2, T3, T4, T5, T6, T7, T8, T9, T10, T11, T12, T13)) -> (T1, T2, T3, T4, T5, T6, T7, T8, T9, T10, T11, T12, T13) {
        (other.0, other.1, other.2, other.3, other.4, other.5, other.6, other.7, other.8, other.9, other.10, other.11, other.12)
    }

    fn join(self, other: (T1, T2, T3, T4, T5, T6, T7, T8, T9, T10, T11, T12, T13)) -> (r: (T1, T2, T3, T4, T5, T6, T7, T8, T9, T10, T11, T12, T13)) {
        (other.0, other.1, other.2, other.3, other.4, other.5, other.6, other.7, other.8, other.9, other.10, other.11, other.12)
    }

    proof fn lemma_join_arity(self, other: (T1, T2, T3, T4, T5, T6, T7, T8, T9, T10, T11, T12, T13)) {
    }
}

impl<T1, T2, T3, T4, T5, T6, T7, T8, T9, T10, T11, T12, T13> JoinableTuple<(T2, T3, T4, T5, T6, T7, T8, T9, T10, T11, T12, T13)> for (T1,) {
    type Join = (T1, T2, T3, T4, T5, T6, T7, T8, T9, T10, T11, T12, T13);

    open spec fn spec_join(self, other: (T2, T3, T4, T5, T6, T7, T8, T9, T10, T11, T12, T13)) -> (T1, T2, T3, T4, T5, T6, T7, T8, T9, T10, T11, T12, T13) {
        (self.0, other.0, other.1, other.2, other.3, other.4, other.5, other.6, other.7, other.8, other.9, other.10, other.11)
    }

    fn join(self, other: (T2, T3, T4, T5, T6, T7, T8, T9, T10, T11, T12, T13)) -> (r: (T1, T2, T3, T4, T5, T6, T7, T8, T9, T10, T11, T12, T13)) {
        (self.0, other.0, other.1, other.2, other.3, other.4, other.5, other.6, other.7, other.8, other.9, other.10, other.11)
    }

    proof fn lemma_join_arity(self, other: (T2, T3, T4, T5, T6, T7, T8, T9, T10, T11, T12, T13)) {
    }
}

impl<T1, T2, T3, T4, T5, T6, T7, T8, T9, T10, T11, T12, T13> JoinableTuple<(T3, T4, T5, T6, T7, T8, T9, T10, T11, T12, T13)> for (T1, T2) {
    type Join = (T1, T2, T3, T4, T5, T6, T7, T8, T9, T10, T11, T12, T13);

    open spec fn spec_join(self, other: (T3, T4, T5, T6, T7, T8, T9, T10, T11, T12, T13)) -> (T1, T2, T3, T4, T5, T6, T7, T8, T9, T10, T11, T12, T13) {
        (self.0, self.1, other.0, other.1, other.2, other.3, other.4, other.5, other.6, other.7, other.8, other.9, other.10)
    }

    fn join(self, other: (T3, T4, T5, T6, T7, T8, T9, T10, T11, T12, T13)) -> (r: (T1, T2, T3, T4, T5, T6, T7, T8, T9, T10, T11, T12, T13)) {
        (self.0, self.1, other.0, other.1, other.2, other.3, other.4, other.5, other.6, other.7, other.8, other.9, other.10)
    }

    proof fn lemma_join_arity(self, other: (T3, T4, T5, T6, T7, T8, T9, T10, T11, T12, T13)) {
    }
}

impl<T1, T2, T3, T4, T5, T6, T7, T8, T9, T10, T11, T12, T13> JoinableTuple<(T4, T5, T6, T7, T8, T9, T10, T11, T12, T13)> for (T1, T2, T3) {
    type Join = (T1, T2, T3, T4, T5, T6, T7, T8, T9, T10, T11, T12, T13);

    open spec fn spec_join(self, other: (T4, T5, T6, T7, T8, T9, T10, T11, T12, T13)) -> (T1, T2, T3, T4, T5, T6, T7, T8, T9, T10, T11, T12, T13) {
        (self.0, self.1, self.2, other.0, other.1, other.2, other.3, other.4, other.5, other.6, other.7, other.8, other.9)
    }

    fn join(self, other: (T4, T5, T6, T7, T8, T9, T10, T11, T12, T13)) -> (r: (T1, T2, T3, T4, T5, T6, T7, T8, T9, T10, T11, T12, T13)) {
        (self.0, self.1, self.2, other.0, other.1, other.2, other.3, other.4, other.5, other.6, other.7, other.8, other.9)
    }

    proof fn lemma_join_arity(self, other: (T4, T5, T6, T7, T8, T9, T10, T11, T12, T13)) {
    }
}

impl<T1, T2, T3, T4, T5, T6, T7, T8, T9, T10, T11, T12, T13> JoinableTuple<(T5, T6, T7, T8, T9, T10, T11, T12, T13)> for (T1, T2, T3, T4) {
    type Join = (T1, T2, T3, T4, T5, T6, T7, T8, T9, T10, T11, T12, T13);

    open spec fn spec_join(self, other: (T5, T6, T7, T8, T9, T10, T11, T12, T13)) -> (T1, T2, T3, T4, T5, T6, T7, T8, T9, T10, T11, T12, T13) {
        (self.0, self.1, self.2, self.3, other.0, other.1, other.2, other.3, other.4, other.5, other.6, other.7, other.8)
    }

    fn join(self, other: (T5, T6, T7, T8, T9, T10, T11, T12, T13)) -> (r: (T1, T2, T3, T4, T5, T6, T7, T8, T9, T10, T11, T12, T13)) {
        (self.0, self.1, self.2, self.3, other.0, other.1, other.2, other.3, other.4, other.5, other.6, other.7, other.8)
    }

    proof fn lemma_join_arity(self, other: (T5, T6, T7, T8, T9, T10, T11, T12, T13)) {
    }
}

impl<T1, T2, T3, T4, T5, T6, T7, T8, T9, T10, T11, T12, T13> JoinableTuple<(T6, T7, T8, T9, T10, T11, T12, T13)> for (T1, T2, T3, T4, T5) {
    type Join = (T1, T2, T3, T4, T5, T6, T7, T8, T9, T10, T11, T12, T13);

    open spec fn spec_join(self, other: (T6, T7, T8, T9, T10, T11, T12, T13)) -> (T1, T2, T3, T4, T5, T6, T7, T8, T9, T10, T11, T12, T13) {
        (self.0, self.1, self.2, self.3, self.4, other.0, other.1, other.2, other.3, other.4, other.5, other.6, other.7)
    }

    fn join(self, other: (T6, T7, T8, T9, T10, T11, T12, T13)) -> (r: (T1, T2, T3, T4, T5, T6, T7, T8, T9, T10, T11, T12, T13)) {
        (self.0, self.1, self.2, self.3, self.4, other.0, other.1, other.2, other.3, other.4, other.5, other.6, other.7)
    }

    proof fn lemma_join_arity(self, other: (T6, T7, T8, T9, T10, T11, T12, T13)) {
    }
}

impl<T1, T2, T3, T4, T5, T6, T7, T8, T9, T10, T11, T12, T13> JoinableTuple<(T7, T8, T9, T10, T11, T12, T13)> for (T1, T2, T3, T4, T5, T6) {
    type Join = (T1, T2, T3, T4, T5, T6, T7, T8, T9, T10, T11, T12, T13);

    open spec fn spec_join(self, other: (T7, T8, T9, T10, T11, T12, T13)) -> (T1, T2, T3, T4, T5, T6, T7, T8, T9, T10, T11, T12, T13) {
        (self.0, self.1, self.2, self.3, self.4, self.5, other.0, other.1, other.2, other.3, other.4, other.5, other.6)
    }

    fn join(self, other: (T7, T8, T9, T10, T11, T12, T13)) -> (r: (T1, T2, T3, T4, T5, T6, T7, T8, T9, T10, T11, T12, T13)) {
        (self.0, self.1, self.2, self.3, self.4, self.5, other.0, other.1, other.2, other.3, other.4, other.5, other.6)
    }

    proof fn lemma_join_arity(self, other: (T7, T8, T9, T10, T11, T12, T13)) {
    }
}

impl<T1, T2, T3, T4, T5, T6, T7, T8, T9, T10, T11, T12, T13> JoinableTuple<(T8, T9, T10, T11, T12, T13)> for (T1, T2, T3, T4, T5, T6, T7) {
    type Join = (T1, T2, T3, T4, T5, T6, T7, T8, T9, T10, T11, T12, T13);

    open spec fn spec_join(self, other: (T8, T9, T10, T11, T12, T13)) -> (T1, T2, T3, T4, T5, T6, T7, T8, T9, T10, T11, T12, T13) {
        (self.0, self.1, self.2, self.3, self.4, self.5, self.6, other.0, other.1, other.2, other.3, other.4, other.5)
    }

    fn join(self, other: (T8, T9, T10, T11, T12, T13)) -> (r: (T1, T2, T3, T4, T5, T6, T7, T8, T9, T10, T11, T12, T13)) {
        (self.0, self.1, self.2, self.3, self.4, self.5, self.6, other.0, other.1, other.2, other.3, other.4, other.5)
    }

    proof fn lemma_join_arity(self, other: (T8, T9, T10, T11, T12, T13)) {
    }
}

impl<T1, T2, T3, T4, T5, T6, T7, T8, T9, T10, T11, T12, T13> JoinableTuple<(T9, T10, T11, T12, T13)> for (T1, T2, T3, T4, T5, T6, T7, T8) {
    type Join = (T1, T2, T3, T4, T5, T6, T7, T8, T9, T10, T11, T12, T13);

    open spec fn spec_join(self, other: (T9, T10, T11, T12, T13)) -> (T1, T2, T3, T4, T5, T6, T7, T8, T9, T10, T11, T12, T13) {
        (self.0, self.1, self.2, self.3, self.4, self.5, self.6, self.7, other.0, other.1, other.2, other.3, other.4)
    }

    fn join(self, other: (T9, T10, T11, T12, T13)) -> (r: (T1, T2, T3, T4, T5, T6, T7, T8, T9, T10, T11, T12, T13)) {
        (self.0, self.1, self.2, self.3, self.4, self.5, self.6, self.7, other.0, other.1, other.2, other.3, other.4)
    }

    proof fn lemma_join_arity(self, other: (T9, T10, T11, T12, T13)) {
    }
}

impl<T1, T2, T3, T4, T5, T6, T7, T8, T9, T10, T11, T12, T13> JoinableTuple<(T10, T11, T12, T13)> for (T1, T2, T3, T4, T5, T6, T7, T8, T9) {
    type Join = (T1, T2, T3, T4, T5, T6, T7, T8, T9, T10, T11, T12, T13);

    open spec fn spec_join(self, other: (T10, T11, T12, T13)) -> (T1, T2, T3, T4, T5, T6, T7, T8, T9, T10, T11, T12, T13) {
        (self.0, self.1, self.2, self.3, self.4, self.5, self.6, self.7, self.8, other.0, other.1, other.2, other.3)
    }

    fn join(self, other: (T10, T11, T12, T13)) -> (r: (T1, T2, T3, T4, T5, T6, T7, T8, T9, T10, T11, T12, T13)) {
        (self.0, self.1, self.2, self.3, self.4, self.5, self.6, self.7, self.8, other.0, other.1, other.2, other.3)
    }

    proof fn lemma_join_arity(self, other: (T10, T11, T12, T13)) {
    }
}

impl<T1, T2, T3, T4, T5, T6, T7, T8, T9, T10, T11, T12, T13> JoinableTuple<(T11, T12, T13)> for (T1, T2, T3, T4, T5, T6, T7, T8, T9, T10) {
    type Join = (T1, T2, T3, T4, T5, T6, T7, T8, T9, T10, T11, T12, T13);

    open spec fn spec_join(self, other: (T11, T12, T13)) -> (T1, T2, T3, T4, T5, T6, T7, T8, T9, T10, T11, T12, T13) {
        (self.0, self.1, self.2, self.3, self.4, self.5, self.6, self.7, self.8, self.9, other.0, other.1, other.2)
    }

    fn join(self, other: (T11, T12, T13)) -> (r: (T1, T2, T3, T4, T5, T6, T7, T8, T9, T10, T11, T12, T13)) {
        (self.0, self.1, self.2, self.3, self.4, self.5, self.6, self.7, self.8, self.9, other.0, other.1, other.2)
    }

    proof fn lemma_join_arity(self, other: (T11, T12, T13)) {
    }
}

impl<T1, T2, T3, T4, T5, T6, T7, T8, T9, T10, T11, T12, T13> JoinableTuple<(T12, T13)> for (T1, T2, T3, T4, T5, T6, T7, T8, T9, T10, T11) {
    type Join = (T1, T2, T3, T4, T5, T6, T7, T8, T9, T10, T11, T12, T13);

    open spec fn spec_join(self, other: (T12, T13)) -> (T1, T2, T3, T4, T5, T6, T7, T8, T9, T10, T11, T12, T13) {
        (self.0, self.1, self.2, self.3, self.4, self.5, self.6, self.7, self.8, self.9, self.10, other.0, other.1)
    }

    fn join(self, other: (T12, T13)) -> (r: (T1, T2, T3, T4, T5, T6, T7, T8, T9, T10, T11, T12, T13)) {
        (self.0, self.1, self.2, self.3, self.4, self.5, self.6, self.7, self.8, self.9, self.10, other.0, other.1)
    }

    proof fn lemma_join_arity(self, other: (T12, T13)) {
    }
}

impl<T1, T2, T3, T4, T5, T6, T7, T8, T9, T10, T11, T12, T13> JoinableTuple<(T13,)> for (T1, T2, T3, T4, T5, T6, T7, T8, T9, T10, T11, T12) {
    type Join = (T1, T2, T3, T4, T5, T6, T7, T8, T9, T10, T11, T12, T13);

    open spec fn spec_join(self, other: (T13,)) -> (T1, T2, T3, T4, T5, T6, T7, T8, T9, T10, T11, T12, T13) {
        (self.0, self.1, self.2, self.3, self.4, self.5, self.6, self.7, self.8, self.9, self.10, self.11, other.0)
    }

    fn join(self, other: (T13,)) -> (r: (T1, T2, T3, T4, T5, T6, T7, T8, T9, T10, T11, T12, T13)) {
        (self.0, self.1, self.2, self.3, self.4, self.5, self.6, self.7, self.8, self.9, self.10, self.11, other.0)
    }

    proof fn lemma_join_arity(self, other: (T13,)) {
    }
}

impl<T1, T2, T3, T4, T5, T6, T7, T8, T9, T10, T11, T12, T13> JoinableTuple<()> for (T1, T2, T3, T4, T5, T6, T7, T8, T9, T10, T11, T12, T13) {
    type Join = (T1, T2, T3, T4, T5, T6, T7, T8, T9, T10, T11, T12, T13);

    open spec fn spec_join(self, other: ()) -> (T1, T2, T3, T4, T5, T6, T7, T8, T9, T10, T11, T12, T13) {
        (self.0, self.1, self.2, self.3, self.4, self.5, self.6, self.7, self.8, self.9, self.10, self.11, self.12)
    }

    fn join(self, other: ()) -> (r: (T1, T2, T3, T4, T5, T6, T7, T8, T9, T10, T11, T12, T13)) {
        (self.0, self.1, self.2, self.3, self.4, self.5, self.6, self.7, self.8, self.9, self.10, self.11, self.12)
    }

    proof fn lemma_join_arity(self, other: ()) {
    }
}

impl<T1, T2, T3, T4, T5, T6, T7, T8, T9, T10, T11, T12, T13, T14> Sealed for (T1, T2, T3, T4, T5, T6, T7, T8, T9, T10, T11, T12, T13, T14) {}

impl<T1, T2, T3, T4, T5, T6, T7, T8, T9, T10, T11, T12, T13, T14> DynTuple for (T1, T2, T3, T4, T5, T6, T7, T8, T9, T10, T11, T12, T13, T14) {
    open spec fn spec_arity(&self) -> nat {
        14
    }

    fn arity(&self) -> (r: usize) {
        14
    }
}

impl<T1, T2, T3, T4, T5, T6, T7, T8, T9, T10, T11, T12, T13, T14> Tuple for (T1, T2, T3, T4, T5, T6, T7, T8, T9, T10, T11, T12, T13, T14) {
    const ARITY: usize = 14;

    open spec fn spec_type_arity() -> nat {
        14
    }

    proof fn lemma_arity(&self) {
    }

    proof fn lemma_type_arity() {
    }
}

impl<T1, T2, T3, T4, T5, T6, T7, T8, T9, T10, T11, T12, T13, T14, T> GrowableTuple<T> for (T1, T2, T3, T4, T5, T6, T7, T8, T9, T10, T11, T12, T13, T14) {
    type Append = (T1, T2, T3, T4, T5, T6, T7, T8, T9, T10, T11, T12, T13, T14, T);

    type Prepend = (T, T1, T2, T3, T4, T5, T6, T7, T8, T9, T10, T11, T12, T13, T14);

    open spec fn spec_append(self, value: T) -> (T1, T2, T3, T4, T5, T6, T7, T8, T9, T10, T11, T12, T13, T14, T) {
        (self.0, self.1, self.2, self.3, self.4, self.5, self.6, self.7, self.8, self.9, self.10, self.11, self.12, self.13, value)
    }

    open spec fn spec_prepend(self, value: T) -> (T, T1, T2, T3, T4, T5, T6, T7, T8, T9, T10, T11, T12, T13, T14) {
        (value, self.0, self.1, self.2, self.3, self.4, self.5, self.6, self.7, self.8, self.9, self.10, self.11, self.12, self.13)
    }

    fn append(self, value: T) -> (r: (T1, T2, T3, T4, T5, T6, T7, T8, T9, T10, T11, T12, T13, T14, T)) {
        (self.0, self.1, self.2, self.3, self.4, self.5, self.6, self.7, self.8, self.9, self.10, self.11, self.12, self.13, value)
    }

    fn prepend(self, value: T) -> (r: (T, T1, T2, T3, T4, T5, T6, T7, T8, T9, T10, T11, T12, T13, T14)) {
        (value, self.0, self.1, self.2, self.3, self.4, self.5, self.6, self.7, self.8, self.9, self.10, self.11, self.12, self.13)
    }

    proof fn lemma_grow_arity(self, value: T) {
    }
}

impl<T1, T2, T3, T4, T5, T6, T7, T8, T9, T10, T11, T12, T13, T14> NonEmptyTuple for (T1, T2, T3, T4, T5, T6, T7, T8, T9, T10, T11, T12, T13, T14) {
    type Head = T1;

    type Tail = T14;

    type TruncateHead = (T2, T3, T4, T5, T6, T7, T8, T9, T10, T11, T12, T13, T14);

    type TruncateTail = (T1, T2, T3, T4, T5, T6, T7, T8, T9, T10, T11, T12, T13);

    open spec fn spec_head(&self) -> T1 {
        self.0
    }

    open spec fn spec_tail(&self) -> T14 {
        self.13
    }

    open spec fn spec_with_head(self, value: T1) -> (T1, T2, T3, T4, T5, T6, T7, T8, T9, T10, T11, T12, T13, T14) {
        (value, self.1, self.2, self.3, self.4, self.5, self.6, self.7, self.8, self.9, self.10, self.11, self.12, self.13)
    }

    open spec fn spec_with_tail(self, value: T14) -> (T1, T2, T3, T4, T5, T6, T7, T8, T9, T10, T11, T12, T13, T14) {
        (self.0, self.1, self.2, self.3, self.4, self.5, self.6, self.7, self.8, self.9, self.10, self.11, self.12, value)
    }

    open spec fn spec_truncate_head(self) -> (T1, (T2, T3, T4, T5, T6, T7, T8, T9, T10, T11, T12, T13, T14)) {
        (self.0, (self.1, self.2, self.3, self.4, self.5, self.6, self.7, self.8, self.9, self.10, self.11, self.12, self.13))
    }

    open spec fn spec_truncate_tail(self) -> ((T1, T2, T3, T4, T5, T6, T7, T8, T9, T10, T11, T12, T13), T14) {
        ((self.0, self.1, self.2, self.3, self.4, self.5, self.6, self.7, self.8, self.9, self.10, self.11, self.12), self.13)
    }

    fn head(&self) -> (r: &T1) {
        &self.0
    }

    fn head_mut(&mut self) -> (r: &mut T1) {
        &mut self.0
    }

    fn tail(&self) -> (r: &T14) {
        &self.13
    }

    fn tail_mut(&mut self) -> (r: &mut T14) {
        &mut self.13
    }

    fn truncate_head(self) -> (r: (T1, (T2, T3, T4, T5, T6, T7, T8, T9, T10, T11, T12, T13, T14))) {
        (self.0, (self.1, self.2, self.3, self.4, self.5, self.6, self.7, self.8, self.9, self.10, self.11, self.12, self.13))
    }

    fn truncate_tail(self) -> (r: ((T1, T2, T3, T4, T5, T6, T7, T8, T9, T10, T11, T12, T13), T14)) {
        ((self.0, self.1, self.2, self.3, self.4, self.5, self.6, self.7, self.8, self.9, self.10, self.11, self.12), self.13)
    }

    proof fn lemma_truncate_head(self) {
    }

    proof fn lemma_truncate_tail(self) {
    }
}

impl<T1, T2, T3, T4, T5, T6, T7, T8, T9, T10, T11, T12, T13, T14> NonUnaryTuple for (T1, T2, T3, T4, T5, T6, T7, T8, T9, T10, T11, T12, T13, T14) {
    type TruncateHeadTail = (T2, T3, T4, T5, T6, T7, T8, T9, T10, T11, T12, T13);

    open spec fn spec_truncate_head_tail(self) -> (T1, (T2, T3, T4, T5, T6, T7, T8, T9, T10, T11, T12, T13), T14) {
        (self.0, (self.1, self.2, self.3, self.4, self.5, self.6, self.7, self.8, self.9, self.10, self.11, self.12), self.13)
    }

    fn head_tail(&self) -> (r: (&T1, &T14)) {
        (&self.0, &self.13)
    }

    fn head_tail_mut(&mut self) -> (r: (&mut T1, &mut T14)) {
        (&mut self.0, &mut self.13)
    }

    fn truncate_head_tail(self) -> (r: (T1, (T2, T3, T4, T5, T6, T7, T8, T9, T10, T11, T12, T13), T14)) {
        (self.0, (self.1, self.2, self.3, self.4, self.5, self.6, self.7, self.8, self.9, self.10, self.11, self.12), self.13)
    }

    proof fn lemma_truncate_head_tail(self) {
    }
}

impl<T1, T2, T3, T4, T5, T6, T7, T8, T9, T10, T11, T12, T13, T14> IndexableTuple<0> for (T1, T2, T3, T4, T5, T6, T7, T8, T9, T10, T11, T12, T13, T14) {
    type Value = T1;

    open spec fn spec_index(&self) -> T1 {
        self.0
    }

    open spec fn spec_with_index(self, value: T1) -> (T1, T2, T3, T4, T5, T6, T7, T8, T9, T10, T11, T12, T13, T14) {
        (value, self.1, self.2, self.3, self.4, self.5, self.6, self.7, self.8, self.9, self.10, self.11, self.12, self.13)
    }

    fn index_ref(&self) -> (r: &T1) {
        &self.0
    }

    fn index_mut(&mut self) -> (r: &mut T1) {
        &mut self.0
    }

    fn into_index(self) -> (r: T1) {
        self.0
    }

    proof fn lemma_index_in_range(&self) {
    }
}

impl<T1, T2, T3, T4, T5, T6, T7, T8, T9, T10, T11, T12, T13, T14> IndexableTuple<1> for (T1, T2, T3, T4, T5, T6, T7, T8, T9, T10, T11, T12, T13, T14) {
    type Value = T2;

    open spec fn spec_index(&self) -> T2 {
        self.1
    }

    open spec fn spec_with_index(self, value: T2) -> (T1, T2, T3, T4, T5, T6, T7, T8, T9, T10, T11, T12, T13, T14) {
        (self.0, value, self.2, self.3, self.4, self.5, self.6, self.7, self.8, self.9, self.10, self.11, self.12, self.13)
    }

    fn index_ref(&self) -> (r: &T2) {
        &self.1
    }

    fn index_mut(&mut self) -> (r: &mut T2) {
        &mut self.1
    }

    fn into_index(self) -> (r: T2) {
        self.1
    }

    proof fn lemma_index_in_range(&self) {
    }
}

impl<T1, T2, T3, T4, T5, T6, T7, T8, T9, T10, T11, T12, T13, T14> IndexableTuple<2> for (T1, T2, T3, T4, T5, T6, T7, T8, T9, T10, T11, T12, T13, T14) {
    type Value = T3;

    open spec fn spec_index(&self) -> T3 {
        self.2
    }

    open spec fn spec_with_index(self, value: T3) -> (T1, T2, T3, T4, T5, T6, T7, T8, T9, T10, T11, T12, T13, T14) {
        (self.0, self.1, value, self.3, self.4, self.5, self.6, self.7, self.8, self.9, self.10, self.11, self.12, self.13)
    }

    fn index_ref(&self) -> (r: &T3) {
        &self.2
    }

    fn index_mut(&mut self) -> (r: &mut T3) {
        &mut self.2
    }

    fn into_index(self) -> (r: T3) {
        self.2
    }

    proof fn lemma_index_in_range(&self) {
    }
}

impl<T1, T2, T3, T4, T5, T6, T7, T8, T9, T10, T11, T12, T13, T14> IndexableTuple<3> for (T1, T2, T3, T4, T5, T6, T7, T8, T9, T10, T11, T12, T13, T14) {
    type Value = T4;

    open spec fn spec_index(&self) -> T4 {
        self.3
    }

    open spec fn spec_with_index(self, value: T4) -> (T1, T2, T3, T4, T5, T6, T7, T8, T9, T10, T11, T12, T13, T14) {
        (self.0, self.1, self.2, value, self.4, self.5, self.6, self.7, self.8, self.9, self.10, self.11, self.12, self.13)
    }

    fn index_ref(&self) -> (r: &T4) {
        &self.3
    }

    fn index_mut(&mut self) -> (r: &mut T4) {
        &mut self.3
    }

    fn into_index(self) -> (r: T4) {
        self.3
    }

    proof fn lemma_index_in_range(&self) {
    }
}

impl<T1, T2, T3, T4, T5, T6, T7, T8, T9, T10, T11, T12, T13, T14> IndexableTuple<4> for (T1, T2, T3, T4, T5, T6, T7, T8, T9, T10, T11, T12, T13, T14) {
    type Value = T5;

    open spec fn spec_index(&self) -> T5 {
        self.4
    }

    open spec fn spec_with_index(self, value: T5) -> (T1, T2, T3, T4, T5, T6, T7, T8, T9, T10, T11, T12, T13, T14) {
        (self.0, self.1, self.2, self.3, value, self.5, self.6, self.7, self.8, self.9, self.10, self.11, self.12, self.13)
    }

    fn index_ref(&self) -> (r: &T5) {
        &self.4
    }

    fn index_mut(&mut self) -> (r: &mut T5) {
        &mut self.4
    }

    fn into_index(self) -> (r: T5) {
        self.4
    }

    proof fn lemma_index_in_range(&self) {
    }
}

impl<T1, T2, T3, T4, T5, T6, T7, T8, T9, T10, T11, T12, T13, T14> IndexableTuple<5> for (T1, T2, T3, T4, T5, T6, T7, T8, T9, T10, T11, T12, T13, T14) {
    type Value = T6;

    open spec fn spec_index(&self) -> T6 {
        self.5
    }

    open spec fn spec_with_index(self, value: T6) -> (T1, T2, T3, T4, T5, T6, T7, T8, T9, T10, T11, T12, T13, T14) {
        (self.0, self.1, self.2, self.3, self.4, value, self.6, self.7, self.8, self.9, self.10, self.11, self.12, self.13)
    }

    fn index_ref(&self) -> (r: &T6) {
        &self.5
    }

    fn index_mut(&mut self) -> (r: &mut T6) {
        &mut self.5
    }

    fn into_index(self) -> (r: T6) {
        self.5
    }

    proof fn lemma_index_in_range(&self) {
    }
}

impl<T1, T2, T3, T4, T5, T6, T7, T8, T9, T10, T11, T12, T13, T14> IndexableTuple<6> for (T1, T2, T3, T4, T5, T6, T7, T8, T9, T10, T11, T12, T13, T14) {
    type Value = T7;

    open spec fn spec_index(&self) -> T7 {
        self.6
    }

    open spec fn spec_with_index(self, value: T7) -> (T1, T2, T3, T4, T5, T6, T7, T8, T9, T10, T11, T12, T13, T14) {
        (self.0, self.1, self.2, self.3, self.4, self.5, value, self.7, self.8, self.9, self.10, self.11, self.12, self.13)
    }

    fn index_ref(&self) -> (r: &T7) {
        &self.6
    }

    fn index_mut(&mut self) -> (r: &mut T7) {
        &mut self.6
    }

    fn into_index(self) -> (r: T7) {
        self.6
    }

    proof fn lemma_index_in_range(&self) {
    }
}

impl<T1, T2, T3, T4, T5, T6, T7, T8, T9, T10, T11, T12, T13, T14> IndexableTuple<7> for (T1, T2, T3, T4, T5, T6, T7, T8, T9, T10, T11, T12, T13, T14) {
    type Value = T8;

    open spec fn spec_index(&self) -> T8 {
        self.7
    }

    open spec fn spec_with_index(self, value: T8) -> (T1, T2, T3, T4, T5, T6, T7, T8, T9, T10, T11, T12, T13, T14) {
        (self.0, self.1, self.2, self.3, self.4, self.5, self.6, value, self.8, self.9, self.10, self.11, self.12, self.13)
    }

    fn index_ref(&self) -> (r: &T8) {
        &self.7
    }

    fn index_mut(&mut self) -> (r: &mut T8) {
        &mut self.7
    }

    fn into_index(self) -> (r: T8) {
        self.7
    }

    proof fn lemma_index_in_range(&self) {
    }
}

impl<T1, T2, T3, T4, T5, T6, T7, T8, T9, T10, T11, T12, T13, T14> IndexableTuple<8> for (T1, T2, T3, T4, T5, T6, T7, T8, T9, T10, T11, T12, T13, T14) {
    type Value = T9;

    open spec fn spec_index(&self) -> T9 {
        self.8
    }

    open spec fn spec_with_index(self, value: T9) -> (T1, T2, T3, T4, T5, T6, T7, T8, T9, T10, T11, T12, T13, T14) {
        (self.0, self.1, self.2, self.3, self.4, self.5, self.6, self.7, value, self.9, self.10, self.11, self.12, self.13)
    }

    fn index_ref(&self) -> (r: &T9) {
        &self.8
    }

    fn index_mut(&mut self) -> (r: &mut T9) {
        &mut self.8
    }

    fn into_index(self) -> (r: T9) {
        self.8
    }

    proof fn lemma_index_in_range(&self) {
    }
}

impl<T1, T2, T3, T4, T5, T6, T7, T8, T9, T10, T11, T12, T13, T14> IndexableTuple<9> for (T1, T2, T3, T4, T5, T6, T7, T8, T9, T10, T11, T12, T13, T14) {
    type Value = T10;

    open spec fn spec_index(&self) -> T10 {
        self.9
    }

    open spec fn spec_with_index(self, value: T10) -> (T1, T2, T3, T4, T5, T6, T7, T8, T9, T10, T11, T12, T13, T14) {
        (self.0, self.1, self.2, self.3, self.4, self.5, self.6, self.7, self.8, value, self.10, self.11, self.12, self.13)
    }

    fn index_ref(&self) -> (r: &T10) {
        &self.9
    }

    fn index_mut(&mut self) -> (r: &mut T10) {
        &mut self.9
    }

    fn into_index(self) -> (r: T10) {
        self.9
    }

    proof fn lemma_index_in_range(&self) {
    }
}

impl<T1, T2, T3, T4, T5, T6, T7, T8, T9, T10, T11, T12, T13, T14> IndexableTuple<10> for (T1, T2, T3, T4, T5, T6, T7, T8, T9, T10, T11, T12, T13, T14) {
    type Value = T11;

    open spec fn spec_index(&self) -> T11 {
        self.10
    }

    open spec fn spec_with_index(self, value: T11) -> (T1, T2, T3, T4, T5, T6, T7, T8, T9, T10, T11, T12, T13, T14) {
        (self.0, self.1, self.2, self.3, self.4, self.5, self.6, self.7, self.8, self.9, value, self.11, self.12, self.13)
    }

    fn index_ref(&self) -> (r: &T11) {
        &self.10
    }

    fn index_mut(&mut self) -> (r: &mut T11) {
        &mut self.10
    }

    fn into_index(self) -> (r: T11) {
        self.10
    }

    proof fn lemma_index_in_range(&self) {
    }
}

impl<T1, T2, T3, T4, T5, T6, T7, T8, T9, T10, T11, T12, T13, T14> IndexableTuple<11> for (T1, T2, T3, T4, T5, T6, T7, T8, T9, T10, T11, T12, T13, T14) {
    type Value = T12;

    open spec fn spec_index(&self) -> T12 {
        self.11
    }

    open spec fn spec_with_index(self, value: T12) -> (T1, T2, T3, T4, T5, T6, T7, T8, T9, T10, T11, T12, T13, T14) {
        (self.0, self.1, self.2, self.3, self.4, self.5, self.6, self.7, self.8, self.9, self.10, value, self.12, self.13)
    }

    fn index_ref(&self) -> (r: &T12) {
        &self.11
    }

    fn index_mut(&mut self) -> (r: &mut T12) {
        &mut self.11
    }

    fn into_index(self) -> (r: T12) {
        self.11
    }

    proof fn lemma_index_in_range(&self) {
    }
}

impl<T1, T2, T3, T4, T5, T6, T7, T8, T9, T10, T11, T12, T13, T14> IndexableTuple<12> for (T1, T2, T3, T4, T5, T6, T7, T8, T9, T10, T11, T12, T13, T14) {
    type Value = T13;

    open spec fn spec_index(&self) -> T13 {
        self.12
    }

    open spec fn spec_with_index(self, value: T13) -> (T1, T2, T3, T4, T5, T6, T7, T8, T9, T10, T11, T12, T13, T14) {
        (self.0, self.1, self.2, self.3, self.4, self.5, self.6, self.7, self.8, self.9, self.10, self.11, value, self.13)
    }

    fn index_ref(&self) -> (r: &T13) {
        &self.12
    }

    fn index_mut(&mut self) -> (r: &mut T13) {
        &mut self.12
    }

    fn into_index(self) -> (r: T13) {
        self.12
    }

    proof fn lemma_index_in_range(&self) {
    }
}

impl<T1, T2, T3, T4, T5, T6, T7, T8, T9, T10, T11, T12, T13, T14> IndexableTuple<13> for (T1, T2, T3, T4, T5, T6, T7, T8, T9, T10, T11, T12, T13, T14) {
    type Value = T14;

    open spec fn spec_index(&self) -> T14 {
        self.13
    }

    open spec fn spec_with_index(self, value: T14) -> (T1, T2, T3, T4, T5, T6, T7, T8, T9, T10, T11, T12, T13, T14) {
        (self.0, self.1, self.2, self.3, self.4, self.5, self.6, self.7, self.8, self.9, self.10, self.11, self.12, value)
    }

    fn index_ref(&self) -> (r: &T14) {
        &self.13
    }

    fn index_mut(&mut self) -> (r: &mut T14) {
        &mut self.13
    }

    fn into_index(self) -> (r: T14) {
        self.13
    }

    proof fn lemma_index_in_range(&self) {
    }
}

impl<T1, T2, T3, T4, T5, T6, T7, T8, T9, T10, T11, T12, T13, T14> JoinableTuple<(T1, T2, T3, T4, T5, T6, T7, T8, T9, T10, T11, T12, T13, T14)> for () {
    type Join = (T1, T2, T3, T4, T5, T6, T7, T8, T9, T10, T11, T12, T13, T14);

    open spec fn spec_join(self, other: (T1, T2, T3, T4, T5, T6, T7, T8, T9, T10, T11, T12, T13, T14)) -> (T1, T2, T3, T4, T5, T6, T7, T8, T9, T10, T11, T12, T13, T14) {
        (other.0, other.1, other.2, other.3, other.4, other.5, other.6, other.7, other.8, other.9, other.10, other.11, other.12, other.13)
    }

    fn join(self, other: (T1, T2, T3, T4, T5, T6, T7, T8, T9, T10, T11, T12, T13, T14)) -> (r: (T1, T2, T3, T4, T5, T6, T7, T8, T9, T10, T11, T12, T13, T14)) {
        (other.0, other.1, other.2, other.3, other.4, other.5, other.6, other.7, other.8, other.9, other.10, other.11, other.12, other.13)
    }

    proof fn lemma_join_arity(self, other: (T1, T2, T3, T4, T5, T6, T7, T8, T9, T10, T11, T12, T13, T14)) {
    }
}

impl<T1, T2, T3, T4, T5, T6, T7, T8, T9, T10, T11, T12, T13, T14> JoinableTuple<(T2, T3, T4, T5, T6, T7, T8, T9, T10, T11, T12, T13, T14)> for (T1,) {
    type Join = (T1, T2, T3, T4, T5, T6, T7, T8, T9, T10, T11, T12, T13, T14);

    open spec fn spec_join(self, other: (T2, T3, T4, T5, T6, T7, T8, T9, T10, T11, T12, T13, T14)) -> (T1, T2, T3, T4, T5, T6, T7, T8, T9, T10, T11, T12, T13, T14) {
        (self.0, other.0, other.1, other.2, other.3, other.4, other.5, other.6, other.7, other.8, other.9, other.10, other.11, other.12)
    }

    fn join(self, other: (T2, T3, T4, T5, T6, T7, T8, T9, T10, T11, T12, T13, T14)) -> (r: (T1, T2, T3, T4, T5, T6, T7, T8, T9, T10, T11, T12, T13, T14)) {
        (self.0, other.0, other.1, other.2, other.3, other.4, other.5, other.6, other.7, other.8, other.9, other.10, other.11, other.12)
    }

    proof fn lemma_join_arity(self, other: (T2, T3, T4, T5, T6, T7, T8, T9, T10, T11, T12, T13, T14)) {
    }
}

impl<T1, T2, T3, T4, T5, T6, T7, T8, T9, T10, T11, T12, T13, T14> JoinableTuple<(T3, T4, T5, T6, T7, T8, T9, T10, T11, T12, T13, T14)> for (T1, T2) {
    type Join = (T1, T2, T3, T4, T5, T6, T7, T8, T9, T10, T11, T12, T13, T14);

    open spec fn spec_join(self, other: (T3, T4, T5, T6, T7, T8, T9, T10, T11, T12, T13, T14)) -> (T1, T2, T3, T4, T5, T6, T7, T8, T9, T10, T11, T12, T13, T14) {
        (self.0, self.1, other.0, other.1, other.2, other.3, other.4, other.5, other.6, other.7, other.8, other.9, other.10, other.11)
    }

    fn join(self, other: (T3, T4, T5, T6, T7, T8, T9, T10, T11, T12, T13, T14)) -> (r: (T1, T2, T3, T4, T5, T6, T7, T8, T9, T10, T11, T12, T13, T14)) {
        (self.0, self.1, other.0, other.1, other.2, other.3, other.4, other.5, other.6, other.7, other.8, other.9, other.10, other.11)
    }

    proof fn lemma_join_arity(self, other: (T3, T4, T5, T6, T7, T8, T9, T10, T11, T12, T13, T14)) {
    }
}

impl<T1, T2, T3, T4, T5, T6, T7, T8, T9, T10, T11, T12, T13, T14> JoinableTuple<(T4, T5, T6, T7, T8, T9, T10, T11, T12, T13, T14)> for (T1, T2, T3) {
    type Join = (T1, T2, T3, T4, T5, T6, T7, T8, T9, T10, T11, T12, T13, T14);

    open spec fn spec_join(self, other: (T4, T5, T6, T7, T8, T9, T10, T11, T12, T13, T14)) -> (T1, T2, T3, T4, T5, T6, T7, T8, T9, T10, T11, T12, T13, T14) {
        (self.0, self.1, self.2, other.0, other.1, other.2, other.3, other.4, other.5, other.6, other.7, other.8, other.9, other.10)
    }

    fn join(self, other: (T4, T5, T6, T7, T8, T9, T10, T11, T12, T13, T14)) -> (r: (T1, T2, T3, T4, T5, T6, T7, T8, T9, T10, T11, T12, T13, T14)) {
        (self.0, self.1, self.2, other.0, other.1, other.2, other.3, other.4, other.5, other.6, other.7, other.8, other.9, other.10)
    }

    proof fn lemma_join_arity(self, other: (T4, T5, T6, T7, T8, T9, T10, T11, T12, T13, T14)) {
    }
}

impl<T1, T2, T3, T4, T5, T6, T7, T8, T9, T10, T11, T12, T13, T14> JoinableTuple<(T5, T6, T7, T8, T9, T10, T11, T12, T13, T14)> for (T1, T2, T3, T4) {
    type Join = (T1, T2, T3, T4, T5, T6, T7, T8, T9, T10, T11, T12, T13, T14);

    open spec fn spec_join(self, other: (T5, T6, T7, T8, T9, T10, T11, T12, T13, T14)) -> (T1, T2, T3, T4, T5, T6, T7, T8, T9, T10, T11, T12, T13, T14) {
        (self.0, self.1, self.2, self.3, other.0, other.1, other.2, other.3, other.4, other.5, other.6, other.7, other.8, other.9)
    }

    fn join(self, other: (T5, T6, T7, T8, T9, T10, T11, T12, T13, T14)) -> (r: (T1, T2, T3, T4, T5, T6, T7, T8, T9, T10, T11, T12, T13, T14)) {
        (self.0, self.1, self.2, self.3, other.0, other.1, other.2, other.3, other.4, other.5, other.6, other.7, other.8, other.9)
    }

    proof fn lemma_join_arity(self, other: (T5, T6, T7, T8, T9, T10, T11, T12, T13, T14)) {
    }
}

impl<T1, T2, T3, T4, T5, T6, T7, T8, T9, T10, T11, T12, T13, T14> JoinableTuple<(T6, T7, T8, T9, T10, T11, T12, T13, T14)> for (T1, T2, T3, T4, T5) {
    type Join = (T1, T2, T3, T4, T5, T6, T7, T8, T9, T10, T11, T12, T13, T14);

    open spec fn spec_join(self, other: (T6, T7, T8, T9, T10, T11, T12, T13, T14)) -> (T1, T2, T3, T4, T5, T6, T7, T8, T9, T10, T11, T12, T13, T14) {
        (self.0, self.1, self.2, self.3, self.4, other.0, other.1, other.2, other.3, other.4, other.5, other.6, other.7, other.8)
    }

    fn join(self, other: (T6, T7, T8, T9, T10, T11, T12, T13, T14)) -> (r: (T1, T2, T3, T4, T5, T6, T7, T8, T9, T10, T11, T12, T13, T14)) {
        (self.0, self.1, self.2, self.3, self.4, other.0, other.1, other.2, other.3, other.4, other.5, other.6, other.7, other.8)
    }

    proof fn lemma_join_arity(self, other: (T6, T7, T8, T9, T10, T11, T12, T13, T14)) {
    }
}

impl<T1, T2, T3, T4, T5, T6, T7, T8, T9, T10, T11, T12, T13, T14> JoinableTuple<(T7, T8, T9, T10, T11, T12, T13, T14)> for (T1, T2, T3, T4, T5, T6) {
    type Join = (T1, T2, T3, T4, T5, T6, T7, T8, T9, T10, T11, T12, T13, T14);

    open spec fn spec_join(self, other: (T7, T8, T9, T10, T11, T12, T13, T14)) -> (T1, T2, T3, T4, T5, T6, T7, T8, T9, T10, T11, T12, T13, T14) {
        (self.0, self.1, self.2, self.3, self.4, self.5, other.0, other.1, other.2, other.3, other.4, other.5, other.6, other.7)
    }

    fn join(self, other: (T7, T8, T9, T10, T11, T12, T13, T14)) -> (r: (T1, T2, T3, T4, T5, T6, T7, T8, T9, T10, T11, T12, T13, T14)) {
        (self.0, self.1, self.2, self.3, self.4, self.5, other.0, other.1, other.2, other.3, other.4, other.5, other.6, other.7)
    }

    proof fn lemma_join_arity(self, other: (T7, T8, T9, T10, T11, T12, T13, T14)) {
    }
}

impl<T1, T2, T3, T4, T5, T6, T7, T8, T9, T10, T11, T12, T13, T14> JoinableTuple<(T8, T9, T10, T11, T12, T13, T14)> for (T1, T2, T3, T4, T5, T6, T7) {
    type Join = (T1, T2, T3, T4, T5, T6, T7, T8, T9, T10, T11, T12, T13, T14);

    open spec fn spec_join(self, other: (T8, T9, T10, T11, T12, T13, T14)) -> (T1, T2, T3, T4, T5, T6, T7, T8, T9, T10, T11, T12, T13, T14) {
        (self.0, self.1, self.2, self.3, self.4, self.5, self.6, other.0, other.1, other.2, other.3, other.4, other.5, other.6)
    }

    fn join(self, other: (T8, T9, T10, T11, T12, T13, T14)) -> (r: (T1, T2, T3, T4, T5, T6, T7, T8, T9, T10, T11, T12, T13, T14)) {
        (self.0, self.1, self.2, self.3, self.4, self.5, self.6, other.0, other.1, other.2, other.3, other.4, other.5, other.6)
    }

    proof fn lemma_join_arity(self, other: (T8, T9, T10, T11, T12, T13, T14)) {
    }
}

impl<T1, T2, T3, T4, T5, T6, T7, T8, T9, T10, T11, T12, T13, T14> JoinableTuple<(T9, T10, T11, T12, T13, T14)> for (T1, T2, T3, T4, T5, T6, T7, T8) {
    type Join = (T1, T2, T3, T4, T5, T6, T7, T8, T9, T10, T11, T12, T13, T14);

    open spec fn spec_join(self, other: (T9, T10, T11, T12, T13, T14)) -> (T1, T2, T3, T4, T5, T6, T7, T8, T9, T10, T11, T12, T13, T14) {
        (self.0, self.1, self.2, self.3, self.4, self.5, self.6, self.7, other.0, other.1, other.2, other.3, other.4, other.5)
    }

    fn join(self, other: (T9, T10, T11, T12, T13, T14)) -> (r: (T1, T2, T3, T4, T5, T6, T7, T8, T9, T10, T11, T12, T13, T14)) {
        (self.0, self.1, self.2, self.3, self.4, self.5, self.6, self.7, other.0, other.1, other.2, other.3, other.4, other.5)
    }

    proof fn lemma_join_arity(self, other: (T9, T10, T11, T12, T13, T14)) {
    }
}

impl<T1, T2, T3, T4, T5, T6, T7, T8, T9, T10, T11, T12, T13, T14> JoinableTuple<(T10, T11, T12, T13, T14)> for (T1, T2, T3, T4, T5, T6, T7, T8, T9) {
    type Join = (T1, T2, T3, T4, T5, T6, T7, T8, T9, T10, T11, T12, T13, T14);

    open spec fn spec_join(self, other: (T10, T11, T12, T13, T14)) -> (T1, T2, T3, T4, T5, T6, T7, T8, T9, T10, T11, T12, T13, T14) {
        (self.0, self.1, self.2, self.3, self.4, self.5, self.6, self.7, self.8, other.0, other.1, other.2, other.3, other.4)
    }

    fn join(self, other: (T10, T11, T12, T13, T14)) -> (r: (T1, T2, T3, T4, T5, T6, T7, T8, T9, T10, T11, T12, T13, T14)) {
        (self.0, self.1, self.2, self.3, self.4, self.5, self.6, self.7, self.8, other.0, other.1, other.2, other.3, other.4)
    }

    proof fn lemma_join_arity(self, other: (T10, T11, T12, T13, T14)) {
    }
}

impl<T1, T2, T3, T4, T5, T6, T7, T8, T9, T10, T11, T12, T13, T14> JoinableTuple<(T11, T12, T13, T14)> for (T1, T2, T3, T4, T5, T6, T7, T8, T9, T10) {
    type Join = (T1, T2, T3, T4, T5, T6, T7, T8, T9, T10, T11, T12, T13, T14);

    open spec fn spec_join(self, other: (T11, T12, T13, T14)) -> (T1, T2, T3, T4, T5, T6, T7, T8, T9, T10, T11, T12, T13, T14) {
        (self.0, self.1, self.2, self.3, self.4, self.5, self.6, self.7, self.8, self.9, other.0, other.1, other.2, other.3)
    }

    fn join(self, other: (T11, T12, T13, T14)) -> (r: (T1, T2, T3, T4, T5, T6, T7, T8, T9, T10, T11, T12, T13, T14)) {
        (self.0, self.1, self.2, self.3, self.4, self.5, self.6, self.7, self.8, self.9, other.0, other.1, other.2, other.3)
    }

    proof fn lemma_join_arity(self, other: (T11, T12, T13, T14)) {
    }
}

impl<T1, T2, T3, T4, T5, T6, T7, T8, T9, T10, T11, T12, T13, T14> JoinableTuple<(T12, T13, T14)> for (T1, T2, T3, T4, T5, T6, T7, T8, T9, T10, T11) {
    type Join = (T1, T2, T3, T4, T5, T6, T7, T8, T9, T10, T11, T12, T13, T14);

    open spec fn spec_join(self, other: (T12, T13, T14)) -> (T1, T2, T3, T4, T5, T6, T7, T8, T9, T10, T11, T12, T13, T14) {
        (self.0, self.1, self.2, self.3, self.4, self.5, self.6, self.7, self.8, self.9, self.10, other.0, other.1, other.2)
    }

    fn join(self, other: (T12, T13, T14)) -> (r: (T1, T2, T3, T4, T5, T6, T7, T8, T9, T10, T11, T12, T13, T14)) {
        (self.0, self.1, self.2, self.3, self.4, self.5, self.6, self.7, self.8, self.9, self.10, other.0, other.1, other.2)
    }

    proof fn lemma_join_arity(self, other: (T12, T13, T14)) {
    }
}

impl<T1, T2, T3, T4, T5, T6, T7, T8, T9, T10, T11, T12, T13, T14> JoinableTuple<(T13, T14)> for (T1, T2, T3, T4, T5, T6, T7, T8, T9, T10, T11, T12) {
    type Join = (T1, T2, T3, T4, T5, T6, T7, T8, T9, T10, T11, T12, T13, T14);

    open spec fn spec_join(self, other: (T13, T14)) -> (T1, T2, T3, T4, T5, T6, T7, T8, T9, T10, T11, T12, T13, T14) {
        (self.0, self.1, self.2, self.3, self.4, self.5, self.6, self.7, self.8, self.9, self.10, self.11, other.0, other.1)
    }

    fn join(self, other: (T13, T14)) -> (r: (T1, T2, T3, T4, T5, T6, T7, T8, T9, T10, T11, T12, T13, T14)) {
        (self.0, self.1, self.2, self.3, self.4, self.5, self.6, self.7, self.8, self.9, self.10, self.11, other.0, other.1)
    }

    proof fn lemma_join_arity(self, other: (T13, T14)) {
    }
}

impl<T1, T2, T3, T4, T5, T6, T7, T8, T9, T10, T11, T12, T13, T14> JoinableTuple<(T14,)> for (T1, T2, T3, T4, T5, T6, T7, T8, T9, T10, T11, T12, T13) {
    type Join = (T1, T2, T3, T4, T5, T6, T7, T8, T9, T10, T11, T12, T13, T14);

    open spec fn spec_join(self, other: (T14,)) -> (T1, T2, T3, T4, T5, T6, T7, T8, T9, T10, T11, T12, T13, T14) {
        (self.0, self.1, self.2, self.3, self.4, self.5, self.6, self.7, self.8, self.9, self.10, self.11, self.12, other.0)
    }

    fn join(self, other: (T14,)) -> (r: (T1, T2, T3, T4, T5, T6, T7, T8, T9, T10, T11, T12, T13, T14)) {
        (self.0, self.1, self.2, self.3, self.4, self.5, self.6, self.7, self.8, self.9, self.10, self.11, self.12, other.0)
    }

    proof fn lemma_join_arity(self, other: (T14,)) {
    }
}

impl<T1, T2, T3, T4, T5, T6, T7, T8, T9, T10, T11, T12, T13, T14> JoinableTuple<()> for (T1, T2, T3, T4, T5, T6, T7, T8, T9, T10, T11, T12, T13, T14) {
    type Join = (T1, T2, T3, T4, T5, T6, T7, T8, T9, T10, T11, T12, T13, T14);

    open spec fn spec_join(self, other: ()) -> (T1, T2, T3, T4, T5, T6, T7, T8, T9, T10, T11, T12, T13, T14) {
        (self.0, self.1, self.2, self.3, self.4, self.5, self.6, self.7, self.8, self.9, self.10, self.11, self.12, self.13)
    }

    fn join(self, other: ()) -> (r: (T1, T2, T3, T4, T5, T6, T7, T8, T9, T10, T11, T12, T13, T14)) {
        (self.0, self.1, self.2, self.3, self.4, self.5, self.6, self.7, self.8, self.9, self.10, self.11, self.12, self.13)
    }

    proof fn lemma_join_arity(self, other: ()) {
    }
}

impl<T1, T2, T3, T4, T5, T6, T7, T8, T9, T10, T11, T12, T13, T14, T15> Sealed for (T1, T2, T3, T4, T5, T6, T7, T8, T9, T10, T11, T12, T13, T14, T15) {}

impl<T1, T2, T3, T4, T5, T6, T7, T8, T9, T10, T11, T12, T13, T14, T15> DynTuple for (T1, T2, T3, T4, T5, T6, T7, T8, T9, T10, T11, T12, T13, T14, T15) {
    open spec fn spec_arity(&self) -> nat {
        15
    }

    fn arity(&self) -> (r: usize) {
        15
    }
}

impl<T1, T2, T3, T4, T5, T6, T7, T8, T9, T10, T11, T12, T13, T14, T15> Tuple for (T1, T2, T3, T4, T5, T6, T7, T8, T9, T10, T11, T12, T13, T14, T15) {
    const ARITY: usize = 15;

    open spec fn spec_type_arity() -> nat {
        15
    }

    proof fn lemma_arity(&self) {
    }

    proof fn lemma_type_arity() {
    }
}

impl<T1, T2, T3, T4, T5, T6, T7, T8, T9, T10, T11, T12, T13, T14, T15, T> GrowableTuple<T> for (T1, T2, T3, T4, T5, T6, T7, T8, T9, T10, T11, T12, T13, T14, T15) {
    type Append = (T1, T2, T3, T4, T5, T6, T7, T8, T9, T10, T11, T12, T13, T14, T15, T);

    type Prepend = (T, T1, T2, T3, T4, T5, T6, T7, T8, T9, T10, T11, T12, T13, T14, T15);

    open spec fn spec_append(self, value: T) -> (T1, T2, T3, T4, T5, T6, T7, T8, T9, T10, T11, T12, T13, T14, T15, T) {
        (self.0, self.1, self.2, self.3, self.4, self.5, self.6, self.7, self.8, self.9, self.10, self.11, self.12, self.13, self.14, value)
    }

    open spec fn spec_prepend(self, value: T) -> (T, T1, T2, T3, T4, T5, T6, T7, T8, T9, T10, T11, T12, T13, T14, T15) {
        (value, self.0, self.1, self.2, self.3, self.4, self.5, self.6, self.7, self.8, self.9, self.10, self.11, self.12, self.13, self.14)
    }

    fn append(self, value: T) -> (r: (T1, T2, T3, T4, T5, T6, T7, T8, T9, T10, T11, T12, T13, T14, T15, T)) {
        (self.0, self.1, self.2, self.3, self.4, self.5, self.6, self.7, self.8, self.9, self.10, self.11, self.12, self.13, self.14, value)
    }

    fn prepend(self, value: T) -> (r: (T, T1, T2, T3, T4, T5, T6, T7, T8, T9, T10, T11, T12, T13, T14, T15)) {
        (value, self.0, self.1, self.2, self.3, self.4, self.5, self.6, self.7, self.8, self.9, self.10, self.11, self.12, self.13, self.14)
    }

    proof fn lemma_grow_arity(self, value: T) {
    }
}

impl<T1, T2, T3, T4, T5, T6, T7, T8, T9, T10, T11, T12, T13, T14, T15> NonEmptyTuple for (T1, T2, T3, T4, T5, T6, T7, T8, T9, T10, T11, T12, T13, T14, T15) {
    type Head = T1;

    type Tail = T15;

    type TruncateHead = (T2, T3, T4, T5, T6, T7, T8, T9, T10, T11, T12, T13, T14, T15);

    type TruncateTail = (T1, T2, T3, T4, T5, T6, T7, T8, T9, T10, T11, T12, T13, T14);

    open spec fn spec_head(&self) -> T1 {
        self.0
    }

    open spec fn spec_tail(&self) -> T15 {
        self.14
    }

    open spec fn spec_with_head(self, value: T1) -> (T1, T2, T3, T4, T5, T6, T7, T8, T9, T10, T11, T12, T13, T14, T15) {
        (value, self.1, self.2, self.3, self.4, self.5, self.6, self.7, self.8, self.9, self.10, self.11, self.12, self.13, self.14)
    }

    open spec fn spec_with_tail(self, value: T15) -> (T1, T2, T3, T4, T5, T6, T7, T8, T9, T10, T11, T12, T13, T14, T15) {
        (self.0, self.1, self.2, self.3, self.4, self.5, self.6, self.7, self.8, self.9, self.10, self.11, self.12, self.13, value)
    }

    open spec fn spec_truncate_head(self) -> (T1, (T2, T3, T4, T5, T6, T7, T8, T9, T10, T11, T12, T13, T14, T15)) {
        (self.0, (self.1, self.2, self.3, self.4, self.5, self.6, self.7, self.8, self.9, self.10, self.11, self.12, self.13, self.14))
    }

    open spec fn spec_truncate_tail(self) -> ((T1, T2, T3, T4, T5, T6, T7, T8, T9, T10, T11, T12, T13, T14), T15) {
        ((self.0, self.1, self.2, self.3, self.4, self.5, self.6, self.7, self.8, self.9, self.10, self.11, self.12, self.13), self.14)
    }

    fn head(&self) -> (r: &T1) {
        &self.0
    }

    fn head_mut(&mut self) -> (r: &mut T1) {
        &mut self.0
    }

    fn tail(&self) -> (r: &T15) {
        &self.14
    }

    fn tail_mut(&mut self) -> (r: &mut T15) {
        &mut self.14
    }

    fn truncate_head(self) -> (r: (T1, (T2, T3, T4, T5, T6, T7, T8, T9, T10, T11, T12, T13, T14, T15))) {
        (self.0, (self.1, self.2, self.3, self.4, self.5, self.6, self.7, self.8, self.9, self.10, self.11, self.12, self.13, self.14))
    }

    fn truncate_tail(self) -> (r: ((T1, T2, T3, T4, T5, T6, T7, T8, T9, T10, T11, T12, T13, T14), T15)) {
        ((self.0, self.1, self.2, self.3, self.4, self.5, self.6, self.7, self.8, self.9, self.10, self.11, self.12, self.13), self.14)
    }

    proof fn lemma_truncate_head(self) {
    }

    proof fn lemma_truncate_tail(self) {
    }
}

impl<T1, T2, T3, T4, T5, T6, T7, T8, T9, T10, T11, T12, T13, T14, T15> NonUnaryTuple for (T1, T2, T3, T4, T5, T6, T7, T8, T9, T10, T11, T12, T13, T14, T15) {
    type TruncateHeadTail = (T2, T3, T4, T5, T6, T7, T8, T9, T10, T11, T12, T13, T14);

    open spec fn spec_truncate_head_tail(self) -> (T1, (T2, T3, T4, T5, T6, T7, T8, T9, T10, T11, T12, T13, T14), T15) {
        (self.0, (self.1, self.2, self.3, self.4, self.5, self.6, self.7, self.8, self.9, self.10, self.11, self.12, self.13), self.14)
    }

    fn head_tail(&self) -> (r: (&T1, &T15)) {
        (&self.0, &self.14)
    }

    fn head_tail_mut(&mut self) -> (r: (&mut T1, &mut T15)) {
        (&mut self.0, &mut self.14)
    }

    fn truncate_head_tail(self) -> (r: (T1, (T2, T3, T4, T5, T6, T7, T8, T9, T10, T11, T12, T13, T14), T15)) {
        (self.0, (self.1, self.2, self.3, self.4, self.5, self.6, self.7, self.8, self.9, self.10, self.11, self.12, self.13), self.14)
    }

    proof fn lemma_truncate_head_tail(self) {
    }
}

impl<T1, T2, T3, T4, T5, T6, T7, T8, T9, T10, T11, T12, T13, T14, T15> IndexableTuple<0> for (T1, T2, T3, T4, T5, T6, T7, T8, T9, T10, T11, T12, T13, T14, T15) {
    type Value = T1;

    open spec fn spec_index(&self) -> T1 {
        self.0
    }

    open spec fn spec_with_index(self, value: T1) -> (T1, T2, T3, T4, T5, T6, T7, T8, T9, T10, T11, T12, T13, T14, T15) {
        (value, self.1, self.2, self.3, self.4, self.5, self.6, self.7, self.8, self.9, self.10, self.11, self.12, self.13, self.14)
    }

    fn index_ref(&self) -> (r: &T1) {
        &self.0
    }

    fn index_mut(&mut self) -> (r: &mut T1) {
        &mut self.0
    }

    fn into_index(self) -> (r: T1) {
        self.0
    }

    proof fn lemma_index_in_range(&self) {
    }
}

impl<T1, T2, T3, T4, T5, T6, T7, T8, T9, T10, T11, T12, T13, T14, T15> IndexableTuple<1> for (T1, T2, T3, T4, T5, T6, T7, T8, T9, T10, T11, T12, T13, T14, T15) {
    type Value = T2;

    open spec fn spec_index(&self) -> T2 {
        self.1
    }

    open spec fn spec_with_index(self, value: T2) -> (T1, T2, T3, T4, T5, T6, T7, T8, T9, T10, T11, T12, T13, T14, T15) {
        (self.0, value, self.2, self.3, self.4, self.5, self.6, self.7, self.8, self.9, self.10, self.11, self.12, self.13, self.14)
    }

    fn index_ref(&self) -> (r: &T2) {
        &self.1
    }

    fn index_mut(&mut self) -> (r: &mut T2) {
        &mut self.1
    }

    fn into_index(self) -> (r: T2) {
        self.1
    }

    proof fn lemma_index_in_range(&self) {
    }
}

impl<T1, T2, T3, T4, T5, T6, T7, T8, T9, T10, T11, T12, T13, T14, T15> IndexableTuple<2> for (T1, T2, T3, T4, T5, T6, T7, T8, T9, T10, T11, T12, T13, T14, T15) {
    type Value = T3;

    open spec fn spec_index(&self) -> T3 {
        self.2
    }

    open spec fn spec_with_index(self, value: T3) -> (T1, T2, T3, T4, T5, T6, T7, T8, T9, T10, T11, T12, T13, T14, T15) {
        (self.0, self.1, value, self.3, self.4, self.5, self.6, self.7, self.8, self.9, self.10, self.11, self.12, self.13, self.14)
    }

    fn index_ref(&self) -> (r: &T3) {
        &self.2
    }

    fn index_mut(&mut self) -> (r: &mut T3) {
        &mut self.2
    }

    fn into_index(self) -> (r: T3) {
        self.2
    }

    proof fn lemma_index_in_range(&self) {
    }
}

impl<T1, T2, T3, T4, T5, T6, T7, T8, T9, T10, T11, T12, T13, T14, T15> IndexableTuple<3> for (T1, T2, T3, T4, T5, T6, T7, T8, T9, T10, T11, T12, T13, T14, T15) {
    type Value = T4;

    open spec fn spec_index(&self) -> T4 {
        self.3
    }

    open spec fn spec_with_index(self, value: T4) -> (T1, T2, T3, T4, T5, T6, T7, T8, T9, T10, T11, T12, T13, T14, T15) {
        (self.0, self.1, self.2, value, self.4, self.5, self.6, self.7, self.8, self.9, self.10, self.11, self.12, self.13, self.14)
    }

    fn index_ref(&self) -> (r: &T4) {
        &self.3
    }

    fn index_mut(&mut self) -> (r: &mut T4) {
        &mut self.3
    }

    fn into_index(self) -> (r: T4) {
        self.3
    }

    proof fn lemma_index_in_range(&self) {
    }
}

impl<T1, T2, T3, T4, T5, T6, T7, T8, T9, T10, T11, T12, T13, T14, T15> IndexableTuple<4> for (T1, T2, T3, T4, T5, T6, T7, T8, T9, T10, T11, T12, T13, T14, T15) {
    type Value = T5;

    open spec fn spec_index(&self) -> T5 {
        self.4
    }

    open spec fn spec_with_index(self, value: T5) -> (T1, T2, T3, T4, T5, T6, T7, T8, T9, T10, T11, T12, T13, T14, T15) {
        (self.0, self.1, self.2, self.3, value, self.5, self.6, self.7, self.8, self.9, self.10, self.11, self.12, self.13, self.14)
    }

    fn index_ref(&self) -> (r: &T5) {
        &self.4
    }

    fn index_mut(&mut self) -> (r: &mut T5) {
        &mut self.4
    }

    fn into_index(self) -> (r: T5) {
        self.4
    }

    proof fn lemma_index_in_range(&self) {
    }
}

impl<T1, T2, T3, T4, T5, T6, T7, T8, T9, T10, T11, T12, T13, T14, T15> IndexableTuple<5> for (T1, T2, T3, T4, T5, T6, T7, T8, T9, T10, T11, T12, T13, T14, T15) {
    type Value = T6;

    open spec fn spec_index(&self) -> T6 {
        self.5
    }

    open spec fn spec_with_index(self, value: T6) -> (T1, T2, T3, T4, T5, T6, T7, T8, T9, T10, T11, T12, T13, T14, T15) {
        (self.0, self.1, self.2, self.3, self.4, value, self.6, self.7, self.8, self.9, self.10, self.11, self.12, self.13, self.14)
    }

    fn index_ref(&self) -> (r: &T6) {
        &self.5
    }

    fn index_mut(&mut self) -> (r: &mut T6) {
        &mut self.5
    }

    fn into_index(self) -> (r: T6) {
        self.5
    }

    proof fn lemma_index_in_range(&self) {
    }
}

impl<T1, T2, T3, T4, T5, T6, T7, T8, T9, T10, T11, T12, T13, T14, T15> IndexableTuple<6> for (T1, T2, T3, T4, T5, T6, T7, T8, T9, T10, T11, T12, T13, T14, T15) {
    type Value = T7;

    open spec fn spec_index(&self) -> T7 {
        self.6
    }

    open spec fn spec_with_index(self, value: T7) -> (T1, T2, T3, T4, T5, T6, T7, T8, T9, T10, T11, T12, T13, T14, T15) {
        (self.0, self.1, self.2, self.3, self.4, self.5, value, self.7, self.8, self.9, self.10, self.11, self.12, self.13, self.14)
    }

    fn index_ref(&self) -> (r: &T7) {
        &self.6
    }

    fn index_mut(&mut self) -> (r: &mut T7) {
        &mut self.6
    }

    fn into_index(self) -> (r: T7) {
        self.6
    }

    proof fn lemma_index_in_range(&self) {
    }
}

impl<T1, T2, T3, T4, T5, T6, T7, T8, T9, T10, T11, T12, T13, T14, T15> IndexableTuple<7> for (T1, T2, T3, T4, T5, T6, T7, T8, T9, T10, T11, T12, T13, T14, T15) {
    type Value = T8;

    open spec fn spec_index(&self) -> T8 {
        self.7
    }

    open spec fn spec_with_index(self, value: T8) -> (T1, T2, T3, T4, T5, T6, T7, T8, T9, T10, T11, T12, T13, T14, T15) {
        (self.0, self.1, self.2, self.3, self.4, self.5, self.6, value, self.8, self.9, self.10, self.11, self.12, self.13, self.14)
    }

    fn index_ref(&self) -> (r: &T8) {
        &self.7
    }

    fn index_mut(&mut self) -> (r: &mut T8) {
        &mut self.7
    }

    fn into_index(self) -> (r: T8) {
        self.7
    }

    proof fn lemma_index_in_range(&self) {
    }
}

impl<T1, T2, T3, T4, T5, T6, T7, T8, T9, T10, T11, T12, T13, T14, T15> IndexableTuple<8> for (T1, T2, T3, T4, T5, T6, T7, T8, T9, T10, T11, T12, T13, T14, T15) {
    type Value = T9;

    open spec fn spec_index(&self) -> T9 {
        self.8
    }

    open spec fn spec_with_index(self, value: T9) -> (T1, T2, T3, T4, T5, T6, T7, T8, T9, T10, T11, T12, T13, T14, T15) {
        (self.0, self.1, self.2, self.3, self.4, self.5, self.6, self.7, value, self.9, self.10, self.11, self.12, self.13, self.14)
    }

    fn index_ref(&self) -> (r: &T9) {
        &self.8
    }

    fn index_mut(&mut self) -> (r: &mut T9) {
        &mut self.8
    }

    fn into_index(self) -> (r: T9) {
        self.8
    }

    proof fn lemma_index_in_range(&self) {
    }
}

impl<T1, T2, T3, T4, T5, T6, T7, T8, T9, T10, T11, T12, T13, T14, T15> IndexableTuple<9> for (T1, T2, T3, T4, T5, T6, T7, T8, T9, T10, T11, T12, T13, T14, T15) {
    type Value = T10;

    open spec fn spec_index(&self) -> T10 {
        self.9
    }

    open spec fn spec_with_index(self, value: T10) -> (T1, T2, T3, T4, T5, T6, T7, T8, T9, T10, T11, T12, T13, T14, T15) {
        (self.0, self.1, self.2, self.3, self.4, self.5, self.6, self.7, self.8, value, self.10, self.11, self.12, self.13, self.14)
    }

    fn index_ref(&self) -> (r: &T10) {
        &self.9
    }

    fn index_mut(&mut self) -> (r: &mut T10) {
        &mut self.9
    }

    fn into_index(self) -> (r: T10) {
        self.9
    }

    proof fn lemma_index_in_range(&self) {
    }
}

impl<T1, T2, T3, T4, T5, T6, T7, T8, T9, T10, T11, T12, T13, T14, T15> IndexableTuple<10> for (T1, T2, T3, T4, T5, T6, T7, T8, T9, T10, T11, T12, T13, T14, T15) {
    type Value = T11;

    open spec fn spec_index(&self) -> T11 {
        self.10
    }

    open spec fn spec_with_index(self, value: T11) -> (T1, T2, T3, T4, T5, T6, T7, T8, T9, T10, T11, T12, T13, T14, T15) {
        (self.0, self.1, self.2, self.3, self.4, self.5, self.6, self.7, self.8, self.9, value, self.11, self.12, self.13, self.14)
    }

    fn index_ref(&self) -> (r: &T11) {
        &self.10
    }

    fn index_mut(&mut self) -> (r: &mut T11) {
        &mut self.10
    }

    fn into_index(self) -> (r: T11) {
        self.10
    }

    proof fn lemma_index_in_range(&self) {
    }
}

impl<T1, T2, T3, T4, T5, T6, T7, T8, T9, T10, T11, T12, T13, T14, T15> IndexableTuple<11> for (T1, T2, T3, T4, T5, T6, T7, T8, T9, T10, T11, T12, T13, T14, T15) {
    type Value = T12;

    open spec fn spec_index(&self) -> T12 {
        self.11
    }

    open spec fn spec_with_index(self, value: T12) -> (T1, T2, T3, T4, T5, T6, T7, T8, T9, T10, T11, T12, T13, T14, T15) {
        (self.0, self.1, self.2, self.3, self.4, self.5, self.6, self.7, self.8, self.9, self.10, value, self.12, self.13, self.14)
    }

    fn index_ref(&self) -> (r: &T12) {
        &self.11
    }

    fn index_mut(&mut self) -> (r: &mut T12) {
        &mut self.11
    }

    fn into_index(self) -> (r: T12) {
        self.11
    }

    proof fn lemma_index_in_range(&self) {
    }
}

impl<T1, T2, T3, T4, T5, T6, T7, T8, T9, T10, T11, T12, T13, T14, T15> IndexableTuple<12> for (T1, T2, T3, T4, T5, T6, T7, T8, T9, T10, T11, T12, T13, T14, T15) {
    type Value = T13;

    open spec fn spec_index(&self) -> T13 {
        self.12
    }

    open spec fn spec_with_index(self, value: T13) -> (T1, T2, T3, T4, T5, T6, T7, T8, T9, T10, T11, T12, T13, T14, T15) {
        (self.0, self.1, self.2, self.3, self.4, self.5, self.6, self.7, self.8, self.9, self.10, self.11, value, self.13, self.14)
    }

    fn index_ref(&self) -> (r: &T13) {
        &self.12
    }

    fn index_mut(&mut self) -> (r: &mut T13) {
        &mut self.12
    }

    fn into_index(self) -> (r: T13) {
        self.12
    }

    proof fn lemma_index_in_range(&self) {
    }
}

impl<T1, T2, T3, T4, T5, T6, T7, T8, T9, T10, T11, T12, T13, T14, T15> IndexableTuple<13> for (T1, T2, T3, T4, T5, T6, T7, T8, T9, T10, T11, T12, T13, T14, T15) {
    type Value = T14;

    open spec fn spec_index(&self) -> T14 {
        self.13
    }

    open spec fn spec_with_index(self, value: T14) -> (T1, T2, T3, T4, T5, T6, T7, T8, T9, T10, T11, T12, T13, T14, T15) {
        (self.0, self.1, self.2, self.3, self.4, self.5, self.6, self.7, self.8, self.9, self.10, self.11, self.12, value, self.14)
    }

    fn index_ref(&self) -> (r: &T14) {
        &self.13
    }

    fn index_mut(&mut self) -> (r: &mut T14) {
        &mut self.13
    }

    fn into_index(self) -> (r: T14) {
        self.13
    }

    proof fn lemma_index_in_range(&self) {
    }
}

impl<T1, T2, T3, T4, T5, T6, T7, T8, T9, T10, T11, T12, T13, T14, T15> IndexableTuple<14> for (T1, T2, T3, T4, T5, T6, T7, T8, T9, T10, T11, T12, T13, T14, T15) {
    type Value = T15;

    open spec fn spec_index(&self) -> T15 {
        self.14
    }

    open spec fn spec_with_index(self, value: T15) -> (T1, T2, T3, T4, T5, T6, T7, T8, T9, T10, T11, T12, T13, T14, T15) {
        (self.0, self.1, self.2, self.3, self.4, self.5, self.6, self.7, self.8, self.9, self.10, self.11, self.12, self.13, value)
    }

    fn index_ref(&self) -> (r: &T15) {
        &self.14
    }

    fn index_mut(&mut self) -> (r: &mut T15) {
        &mut self.14
    }

    fn into_index(self) -> (r: T15) {
        self.14
    }

    proof fn lemma_index_in_range(&self) {
    }
}

impl<T1, T2, T3, T4, T5, T6, T7, T8, T9, T10, T11, T12, T13, T14, T15> JoinableTuple<(T1, T2, T3, T4, T5, T6, T7, T8, T9, T10, T11, T12, T13, T14, T15)> for () {
    type Join = (T1, T2, T3, T4, T5, T6, T7, T8, T9, T10, T11, T12, T13, T14, T15);

    open spec fn spec_join(self, other: (T1, T2, T3, T4, T5, T6, T7, T8, T9, T10, T11, T12, T13, T14, T15)) -> (T1, T2, T3, T4, T5, T6, T7, T8, T9, T10, T11, T12, T13, T14, T15) {
        (other.0, other.1, other.2, other.3, other.4, other.5, other.6, other.7, other.8, other.9, other.10, other.11, other.12, other.13, other.14)
    }

    fn join(self, other: (T1, T2, T3, T4, T5, T6, T7, T8, T9, T10, T11, T12, T13, T14, T15)) -> (r: (T1, T2, T3, T4, T5, T6, T7, T8, T9, T10, T11, T12, T13, T14, T15)) {
        (other.0, other.1, other.2, other.3, other.4, other.5, other.6, other.7, other.8, other.9, other.10, other.11, other.12, other.13, other.14)
    }

    proof fn lemma_join_arity(self, other: (T1, T2, T3, T4, T5, T6, T7, T8, T9, T10, T11, T12, T13, T14, T15)) {
    }
}

impl<T1, T2, T3, T4, T5, T6, T7, T8, T9, T10, T11, T12, T13, T14, T15> JoinableTuple<(T2, T3, T4, T5, T6, T7, T8, T9, T10, T11, T12, T13, T14, T15)> for (T1,) {
    type Join = (T1, T2, T3, T4, T5, T6, T7, T8, T9, T10, T11, T12, T13, T14, T15);

    open spec fn spec_join(self, other: (T2, T3, T4, T5, T6, T7, T8, T9, T10, T11, T12, T13, T14, T15)) -> (T1, T2, T3, T4, T5, T6, T7, T8, T9, T10, T11, T12, T13, T14, T15) {
        (self.0, other.0, other.1, other.2, other.3, other.4, other.5, other.6, other.7, other.8, other.9, other.10, other.11, other.12, other.13)
    }

    fn join(self, other: (T2, T3, T4, T5, T6, T7, T8, T9, T10, T11, T12, T13, T14, T15)) -> (r: (T1, T2, T3, T4, T5, T6, T7, T8, T9, T10, T11, T12, T13, T14, T15)) {
        (self.0, other.0, other.1, other.2, other.3, other.4, other.5, other.6, other.7, other.8, other.9, other.10, other.11, other.12, other.13)
    }

    proof fn lemma_join_arity(self, other: (T2, T3, T4, T5, T6, T7, T8, T9, T10, T11, T12, T13, T14, T15)) {
    }
}

impl<T1, T2, T3, T4, T5, T6, T7, T8, T9, T10, T11, T12, T13, T14, T15> JoinableTuple<(T3, T4, T5, T6, T7, T8, T9, T10, T11, T12, T13, T14, T15)> for (T1, T2) {
    type Join = (T1, T2, T3, T4, T5, T6, T7, T8, T9, T10, T11, T12, T13, T14, T15);

    open spec fn spec_join(self, other: (T3, T4, T5, T6, T7, T8, T9, T10, T11, T12, T13, T14, T15)) -> (T1, T2, T3, T4, T5, T6, T7, T8, T9, T10, T11, T12, T13, T14, T15) {
        (self.0, self.1, other.0, other.1, other.2, other.3, other.4, other.5, other.6, other.7, other.8, other.9, other.10, other.11, other.12)
    }

    fn join(self, other: (T3, T4, T5, T6, T7, T8, T9, T10, T11, T12, T13, T14, T15)) -> (r: (T1, T2, T3, T4, T5, T6, T7, T8, T9, T10, T11, T12, T13, T14, T15)) {
        (self.0, self.1, other.0, other.1, other.2, other.3, other.4, other.5, other.6, other.7, other.8, other.9, other.10, other.11, other.12)
    }

    proof fn lemma_join_arity(self, other: (T3, T4, T5, T6, T7, T8, T9, T10, T11, T12, T13, T14, T15)) {
    }
}

impl<T1, T2, T3, T4, T5, T6, T7, T8, T9, T10, T11, T12, T13, T14, T15> JoinableTuple<(T4, T5, T6, T7, T8, T9, T10, T11, T12, T13, T14, T15)> for (T1, T2, T3) {
    type Join = (T1, T2, T3, T4, T5, T6, T7, T8, T9, T10, T11, T12, T13, T14, T15);

    open spec fn spec_join(self, other: (T4, T5, T6, T7, T8, T9, T10, T11, T12, T13, T14, T15)) -> (T1, T2, T3, T4, T5, T6, T7, T8, T9, T10, T11, T12, T13, T14, T15) {
        (self.0, self.1, self.2, other.0, other.1, other.2, other.3, other.4, other.5, other.6, other.7, other.8, other.9, other.10, other.11)
    }

    fn join(self, other: (T4, T5, T6, T7, T8, T9, T10, T11, T12, T13, T14, T15)) -> (r: (T1, T2, T3, T4, T5, T6, T7, T8, T9, T10, T11, T12, T13, T14, T15)) {
        (self.0, self.1, self.2, other.0, other.1, other.2, other.3, other.4, other.5, other.6, other.7, other.8, other.9, other.10, other.11)
    }

    proof fn lemma_join_arity(self, other: (T4, T5, T6, T7, T8, T9, T10, T11, T12, T13, T14, T15)) {
    }
}

impl<T1, T2, T3, T4, T5, T6, T7, T8, T9, T10, T11, T12, T13, T14, T15> JoinableTuple<(T5, T6, T7, T8, T9, T10, T11, T12, T13, T14, T15)> for (T1, T2, T3, T4) {
    type Join = (T1, T2, T3, T4, T5, T6, T7, T8, T9, T10, T11, T12, T13, T14, T15);

    open spec fn spec_join(self, other: (T5, T6, T7, T8, T9, T10, T11, T12, T13, T14, T15)) -> (T1, T2, T3, T4, T5, T6, T7, T8, T9, T10, T11, T12, T13, T14, T15) {
        (self.0, self.1, self.2, self.3, other.0, other.1, other.2, other.3, other.4, other.5, other.6, other.7, other.8, other.9, other.10)
    }

    fn join(self, other: (T5, T6, T7, T8, T9, T10, T11, T12, T13, T14, T15)) -> (r: (T1, T2, T3, T4, T5, T6, T7, T8, T9, T10, T11, T12, T13, T14, T15)) {
        (self.0, self.1, self.2, self.3, other.0, other.1, other.2, other.3, other.4, other.5, other.6, other.7, other.8, other.9, other.10)
    }

    proof fn lemma_join_arity(self, other: (T5, T6, T7, T8, T9, T10, T11, T12, T13, T14, T15)) {
    }
}

impl<T1, T2, T3, T4, T5, T6, T7, T8, T9, T10, T11, T12, T13, T14, T15> JoinableTuple<(T6, T7, T8, T9, T10, T11, T12, T13, T14, T15)> for (T1, T2, T3, T4, T5) {
    type Join = (T1, T2, T3, T4, T5, T6, T7, T8, T9, T10, T11, T12, T13, T14, T15);

    open spec fn spec_join(self, other: (T6, T7, T8, T9, T10, T11, T12, T13, T14, T15)) -> (T1, T2, T3, T4, T5, T6, T7, T8, T9, T10, T11, T12, T13, T14, T15) {
        (self.0, self.1, self.2, self.3, self.4, other.0, other.1, other.2, other.3, other.4, other.5, other.6, other.7, other.8, other.9)
    }

    fn join(self, other: (T6, T7, T8, T9, T10, T11, T12, T13, T14, T15)) -> (r: (T1, T2, T3, T4, T5, T6, T7, T8, T9, T10, T11, T12, T13, T14, T15)) {
        (self.0, self.1, self.2, self.3, self.4, other.0, other.1, other.2, other.3, other.4, other.5, other.6, other.7, other.8, other.9)
    }

    proof fn lemma_join_arity(self, other: (T6, T7, T8, T9, T10, T11, T12, T13, T14, T15)) {
    }
}

impl<T1, T2, T3, T4, T5, T6, T7, T8, T9, T10, T11, T12, T13, T14, T15> JoinableTuple<(T7, T8, T9, T10, T11, T12, T13, T14, T15)> for (T1, T2, T3, T4, T5, T6) {
    type Join = (T1, T2, T3, T4, T5, T6, T7, T8, T9, T10, T11, T12, T13, T14, T15);

    open spec fn spec_join(self, other: (T7, T8, T9, T10, T11, T12, T13, T14, T15)) -> (T1, T2, T3, T4, T5, T6, T7, T8, T9, T10, T11, T12, T13, T14, T15) {
        (self.0, self.1, self.2, self.3, self.4, self.5, other.0, other.1, other.2, other.3, other.4, other.5, other.6, other.7, other.8)
    }

    fn join(self, other: (T7, T8, T9, T10, T11, T12, T13, T14, T15)) -> (r: (T1, T2, T3, T4, T5, T6, T7, T8, T9, T10, T11, T12, T13, T14, T15)) {
        (self.0, self.1, self.2, self.3, self.4, self.5, other.0, other.1, other.2, other.3, other.4, other.5, other.6, other.7, other.8)
    }

    proof fn lemma_join_arity(self, other: (T7, T8, T9, T10, T11, T12, T13, T14, T15)) {
    }
}

impl<T1, T2, T3, T4, T5, T6, T7, T8, T9, T10, T11, T12, T13, T14, T15> JoinableTuple<(T8, T9, T10, T11, T12, T13, T14, T15)> for (T1, T2, T3, T4, T5, T6, T7) {
    type Join = (T1, T2, T3, T4, T5, T6, T7, T8, T9, T10, T11, T12, T13, T14, T15);

    open spec fn spec_join(self, other: (T8, T9, T10, T11, T12, T13, T14, T15)) -> (T1, T2, T3, T4, T5, T6, T7, T8, T9, T10, T11, T12, T13, T14, T15) {
        (self.0, self.1, self.2, self.3, self.4, self.5, self.6, other.0, other.1, other.2, other.3, other.4, other.5, other.6, other.7)
    }

    fn join(self, other: (T8, T9, T10, T11, T12, T13, T14, T15)) -> (r: (T1, T2, T3, T4, T5, T6, T7, T8, T9, T10, T11, T12, T13, T14, T15)) {
        (self.0, self.1, self.2, self.3, self.4, self.5, self.6, other.0, other.1, other.2, other.3, other.4, other.5, other.6, other.7)
    }

    proof fn lemma_join_arity(self, other: (T8, T9, T10, T11, T12, T13, T14, T15)) {
    }
}

impl<T1, T2, T3, T4, T5, T6, T7, T8, T9, T10, T11, T12, T13, T14, T15> JoinableTuple<(T9, T10, T11, T12, T13, T14, T15)> for (T1, T2, T3, T4, T5, T6, T7, T8) {
    type Join = (T1, T2, T3, T4, T5, T6, T7, T8, T9, T10, T11, T12, T13, T14, T15);

    open spec fn spec_join(self, other: (T9, T10, T11, T12, T13, T14, T15)) -> (T1, T2, T3, T4, T5, T6, T7, T8, T9, T10, T11, T12, T13, T14, T15) {
        (self.0, self.1, self.2, self.3, self.4, self.5, self.6, self.7, other.0, other.1, other.2, other.3, other.4, other.5, other.6)
    }

    fn join(self, other: (T9, T10, T11, T12, T13, T14, T15)) -> (r: (T1, T2, T3, T4, T5, T6, T7, T8, T9, T10, T11, T12, T13, T14, T15)) {
        (self.0, self.1, self.2, self.3, self.4, self.5, self.6, self.7, other.0, other.1, other.2, other.3, other.4, other.5, other.6)
    }

    proof fn lemma_join_arity(self, other: (T9, T10, T11, T12, T13, T14, T15)) {
    }
}

impl<T1, T2, T3, T4, T5, T6, T7, T8, T9, T10, T11, T12, T13, T14, T15> JoinableTuple<(T10, T11, T12, T13, T14, T15)> for (T1, T2, T3, T4, T5, T6, T7, T8, T9) {
    type Join = (T1, T2, T3, T4, T5, T6, T7, T8, T9, T10, T11, T12, T13, T14, T15);

    open spec fn spec_join(self, other: (T10, T11, T12, T13, T14, T15)) -> (T1, T2, T3, T4, T5, T6, T7, T8, T9, T10, T11, T12, T13, T14, T15) {
        (self.0, self.1, self.2, self.3, self.4, self.5, self.6, self.7, self.8, other.0, other.1, other.2, other.3, other.4, other.5)
    }

    fn join(self, other: (T10, T11, T12, T13, T14, T15)) -> (r: (T1, T2, T3, T4, T5, T6, T7, T8, T9, T10, T11, T12, T13, T14, T15)) {
        (self.0, self.1, self.2, self.3, self.4, self.5, self.6, self.7, self.8, other.0, other.1, other.2, other.3, other.4, other.5)
    }

    proof fn lemma_join_arity(self, other: (T10, T11, T12, T13, T14, T15)) {
    }
}

impl<T1, T2, T3, T4, T5, T6, T7, T8, T9, T10, T11, T12, T13, T14, T15> JoinableTuple<(T11, T12, T13, T14, T15)> for (T1, T2, T3, T4, T5, T6, T7, T8, T9, T10) {
    type Join = (T1, T2, T3, T4, T5, T6, T7, T8, T9, T10, T11, T12, T13, T14, T15);

    open spec fn spec_join(self, other: (T11, T12, T13, T14, T15)) -> (T1, T2, T3, T4, T5, T6, T7, T8, T9, T10, T11, T12, T13, T14, T15) {
        (self.0, self.1, self.2, self.3, self.4, self.5, self.6, self.7, self.8, self.9, other.0, other.1, other.2, other.3, other.4)
    }

    fn join(self, other: (T11, T12, T13, T14, T15)) -> (r: (T1, T2, T3, T4, T5, T6, T7, T8, T9, T10, T11, T12, T13, T14, T15)) {
        (self.0, self.1, self.2, self.3, self.4, self.5, self.6, self.7, self.8, self.9, other.0, other.1, other.2, other.3, other.4)
    }

    proof fn lemma_join_arity(self, other: (T11, T12, T13, T14, T15)) {
    }
}

impl<T1, T2, T3, T4, T5, T6, T7, T8, T9, T10, T11, T12, T13, T14, T15> JoinableTuple<(T12, T13, T14, T15)> for (T1, T2, T3, T4, T5, T6, T7, T8, T9, T10, T11) {
    type Join = (T1, T2, T3, T4, T5, T6, T7, T8, T9, T10, T11, T12, T13, T14, T15);

    open spec fn spec_join(self, other: (T12, T13, T14, T15)) -> (T1, T2, T3, T4, T5, T6, T7, T8, T9, T10, T11, T12, T13, T14, T15) {
        (self.0, self.1, self.2, self.3, self.4, self.5, self.6, self.7, self.8, self.9, self.10, other.0, other.1, other.2, other.3)
    }

    fn join(self, other: (T12, T13, T14, T15)) -> (r: (T1, T2, T3, T4, T5, T6, T7, T8, T9, T10, T11, T12, T13, T14, T15)) {
        (self.0, self.1, self.2, self.3, self.4, self.5, self.6, self.7, self.8, self.9, self.10, other.0, other.1, other.2, other.3)
    }

    proof fn lemma_join_arity(self, other: (T12, T13, T14, T15)) {
    }
}

impl<T1, T2, T3, T4, T5, T6, T7, T8, T9, T10, T11, T12, T13, T14, T15> JoinableTuple<(T13, T14, T15)> for (T1, T2, T3, T4, T5, T6, T7, T8, T9, T10, T11, T12) {
    type Join = (T1, T2, T3, T4, T5, T6, T7, T8, T9, T10, T11, T12, T13, T14, T15);

    open spec fn spec_join(self, other: (T13, T14, T15)) -> (T1, T2, T3, T4, T5, T6, T7, T8, T9, T10, T11, T12, T13, T14, T15) {
        (self.0, self.1, self.2, self.3, self.4, self.5, self.6, self.7, self.8, self.9, self.10, self.11, other.0, other.1, other.2)
    }

    fn join(self, other: (T13, T14, T15)) -> (r: (T1, T2, T3, T4, T5, T6, T7, T8, T9, T10, T11, T12, T13, T14, T15)) {
        (self.0, self.1, self.2, self.3, self.4, self.5, self.6, self.7, self.8, self.9, self.10, self.11, other.0, other.1, other.2)
    }

    proof fn lemma_join_arity(self, other: (T13, T14, T15)) {
    }
}

impl<T1, T2, T3, T4, T5, T6, T7, T8, T9, T10, T11, T12, T13, T14, T15> JoinableTuple<(T14, T15)> for (T1, T2, T3, T4, T5, T6, T7, T8, T9, T10, T11, T12, T13) {
    type Join = (T1, T2, T3, T4, T5, T6, T7, T8, T9, T10, T11, T12, T13, T14, T15);

    open spec fn spec_join(self, other: (T14, T15)) -> (T1, T2, T3, T4, T5, T6, T7, T8, T9, T10, T11, T12, T13, T14, T15) {
        (self.0, self.1, self.2, self.3, self.4, self.5, self.6, self.7, self.8, self.9, self.10, self.11, self.12, other.0, other.1)
    }

    fn join(self, other: (T14, T15)) -> (r: (T1, T2, T3, T4, T5, T6, T7, T8, T9, T10, T11, T12, T13, T14, T15)) {
        (self.0, self.1, self.2, self.3, self.4, self.5, self.6, self.7, self.8, self.9, self.10, self.11, self.12, other.0, other.1)
    }

    proof fn lemma_join_arity(self, other: (T14, T15)) {
    }
}

impl<T1, T2, T3, T4, T5, T6, T7, T8, T9, T10, T11, T12, T13, T14, T15> JoinableTuple<(T15,)> for (T1, T2, T3, T4, T5, T6, T7, T8, T9, T10, T11, T12, T13, T14) {
    type Join = (T1, T2, T3, T4, T5, T6, T7, T8, T9, T10, T11, T12, T13, T14, T15);

    open spec fn spec_join(self, other: (T15,)) -> (T1, T2, T3, T4, T5, T6, T7, T8, T9, T10, T11, T12, T13, T14, T15) {
        (self.0, self.1, self.2, self.3, self.4, self.5, self.6, self.7, self.8, self.9, self.10, self.11, self.12, self.13, other.0)
    }

    fn join(self, other: (T15,)) -> (r: (T1, T2, T3, T4, T5, T6, T7, T8, T9, T10, T11, T12, T13, T14, T15)) {
        (self.0, self.1, self.2, self.3, self.4, self.5, self.6, self.7, self.8, self.9, self.10, self.11, self.12, self.13, other.0)
    }

    proof fn lemma_join_arity(self, other: (T15,)) {
    }
}

impl<T1, T2, T3, T4, T5, T6, T7, T8, T9, T10, T11, T12, T13, T14, T15> JoinableTuple<()> for (T1, T2, T3, T4, T5, T6, T7, T8, T9, T10, T11, T12, T13, T14, T15) {
    type Join = (T1, T2, T3, T4, T5, T6, T7, T8, T9, T10, T11, T12, T13, T14, T15);

    open spec fn spec_join(self, other: ()) -> (T1, T2, T3, T4, T5, T6, T7, T8, T9, T10, T11, T12, T13, T14, T15) {
        (self.0, self.1, self.2, self.3, self.4, self.5, self.6, self.7, self.8, self.9, self.10, self.11, self.12, self.13, self.14)
    }

    fn join(self, other: ()) -> (r: (T1, T2, T3, T4, T5, T6, T7, T8, T9, T10, T11, T12, T13, T14, T15)) {
        (self.0, self.1, self.2, self.3, self.4, self.5, self.6, self.7, self.8, self.9, self.10, self.11, self.12, self.13, self.14)
    }

    proof fn lemma_join_arity(self, other: ()) {
    }
}

impl<T1, T2, T3, T4, T5, T6, T7, T8, T9, T10, T11, T12, T13, T14, T15, T16> Sealed for (T1, T2, T3, T4, T5, T6, T7, T8, T9, T10, T11, T12, T13, T14, T15, T16) {}

impl<T1, T2, T3, T4, T5, T6, T7, T8, T9, T10, T11, T12, T13, T14, T15, T16> DynTuple for (T1, T2, T3, T4, T5, T6, T7, T8, T9, T10, T11, T12, T13, T14, T15, T16) {
    open spec fn spec_arity(&self) -> nat {
        16
    }

    fn arity(&self) -> (r: usize) {
        16
    }
}

impl<T1, T2, T3, T4, T5, T6, T7, T8, T9, T10, T11, T12, T13, T14, T15, T16> Tuple for (T1, T2, T3, T4, T5, T6, T7, T8, T9, T10, T11, T12, T13, T14, T15, T16) {
    const ARITY: usize = 16;

    open spec fn spec_type_arity() -> nat {
        16
    }

    proof fn lemma_arity(&self) {
    }

    proof fn lemma_type_arity() {
    }
}

impl<T1, T2, T3, T4, T5, T6, T7, T8, T9, T10, T11, T12, T13, T14, T15, T16, T> GrowableTuple<T> for (T1, T2, T3, T4, T5, T6, T7, T8, T9, T10, T11, T12, T13, T14, T15, T16) {
    type Append = (T1, T2, T3, T4, T5, T6, T7, T8, T9, T10, T11, T12, T13, T14, T15, T16, T);

    type Prepend = (T, T1, T2, T3, T4, T5, T6, T7, T8, T9, T10, T11, T12, T13, T14, T15, T16);

    open spec fn spec_append(self, value: T) -> (T1, T2, T3, T4, T5, T6, T7, T8, T9, T10, T11, T12, T13, T14, T15, T16, T) {
        (self.0, self.1, self.2, self.3, self.4, self.5, self.6, self.7, self.8, self.9, self.10, self.11, self.12, self.13, self.14, self.15, value)
    }

    open spec fn spec_prepend(self, value: T) -> (T, T1, T2, T3, T4, T5, T6, T7, T8, T9, T10, T11, T12, T13, T14, T15, T16) {
        (value, self.0, self.1, self.2, self.3, self.4, self.5, self.6, self.7, self.8, self.9, self.10, self.11, self.12, self.13, self.14, self.15)
    }

    fn append(self, value: T) -> (r: (T1, T2, T3, T4, T5, T6, T7, T8, T9, T10, T11, T12, T13, T14, T15, T16, T)) {
        (self.0, self.1, self.2, self.3, self.4, self.5, self.6, self.7, self.8, self.9, self.10, self.11, self.12, self.13, self.14, self.15, value)
    }

    fn prepend(self, value: T) -> (r: (T, T1, T2, T3, T4, T5, T6, T7, T8, T9, T10, T11, T12, T13, T14, T15, T16)) {
        (value, self.0, self.1, self.2, self.3, self.4, self.5, self.6, self.7, self.8, self.9, self.10, self.11, self.12, self.13, self.14, self.15)
    }

    proof fn lemma_grow_arity(self, value: T) {
    }
}

impl<T1, T2, T3, T4, T5, T6, T7, T8, T9, T10, T11, T12, T13, T14, T15, T16> NonEmptyTuple for (T1, T2, T3, T4, T5, T6, T7, T8, T9, T10, T11, T12, T13, T14, T15, T16) {
    type Head = T1;

    type Tail = T16;

    type TruncateHead = (T2, T3, T4, T5, T6, T7, T8, T9, T10, T11, T12, T13, T14, T15, T16);

    type TruncateTail = (T1, T2, T3, T4, T5, T6, T7, T8, T9, T10, T11, T12, T13, T14, T15);

    open spec fn spec_head(&self) -> T1 {
        self.0
    }

    open spec fn spec_tail(&self) -> T16 {
        self.15
    }

    open spec fn spec_with_head(self, value: T1) -> (T1, T2, T3, T4, T5, T6, T7, T8, T9, T10, T11, T12, T13, T14, T15, T16) {
        (value, self.1, self.2, self.3, self.4, self.5, self.6, self.7, self.8, self.9, self.10, self.11, self.12, self.13, self.14, self.15)
    }

    open spec fn spec_with_tail(self, value: T16) -> (T1, T2, T3, T4, T5, T6, T7, T8, T9, T10, T11, T12, T13, T14, T15, T16) {
        (self.0, self.1, self.2, self.3, self.4, self.5, self.6, self.7, self.8, self.9, self.10, self.11, self.12, self.13, self.14, value)
    }

    open spec fn spec_truncate_head(self) -> (T1, (T2, T3, T4, T5, T6, T7, T8, T9, T10, T11, T12, T13, T14, T15, T16)) {
        (self.0, (self.1, self.2, self.3, self.4, self.5, self.6, self.7, self.8, self.9, self.10, self.11, self.12, self.13, self.14, self.15))
    }

    open spec fn spec_truncate_tail(self) -> ((T1, T2, T3, T4, T5, T6, T7, T8, T9, T10, T11, T12, T13, T14, T15), T16) {
        ((self.0, self.1, self.2, self.3, self.4, self.5, self.6, self.7, self.8, self.9, self.10, self.11, self.12, self.13, self.14), self.15)
    }

    fn head(&self) -> (r: &T1) {
        &self.0
    }

    fn head_mut(&mut self) -> (r: &mut T1) {
        &mut self.0
    }

    fn tail(&self) -> (r: &T16) {
        &self.15
    }

    fn tail_mut(&mut self) -> (r: &mut T16) {
        &mut self.15
    }

    fn truncate_head(self) -> (r: (T1, (T2, T3, T4, T5, T6, T7, T8, T9, T10, T11, T12, T13, T14, T15, T16))) {
        (self.0, (self.1, self.2, self.3, self.4, self.5, self.6, self.7, self.8, self.9, self.10, self.11, self.12, self.13, self.14, self.15))
    }

    fn truncate_tail(self) -> (r: ((T1, T2, T3, T4, T5, T6, T7, T8, T9, T10, T11, T12, T13, T14, T15), T16)) {
        ((self.0, self.1, self.2, self.3, self.4, self.5, self.6, self.7, self.8, self.9, self.10, self.11, self.12, self.13, self.14), self.15)
    }

    proof fn lemma_truncate_head(self) {
    }

    proof fn lemma_truncate_tail(self) {
    }
}

impl<T1, T2, T3, T4, T5, T6, T7, T8, T9, T10, T11, T12, T13, T14, T15, T16> NonUnaryTuple for (T1, T2, T3, T4, T5, T6, T7, T8, T9, T10, T11, T12, T13, T14, T15, T16) {
    type TruncateHeadTail = (T2, T3, T4, T5, T6, T7, T8, T9, T10, T11, T12, T13, T14, T15);

    open spec fn spec_truncate_head_tail(self) -> (T1, (T2, T3, T4, T5, T6, T7, T8, T9, T10, T11, T12, T13, T14, T15), T16) {
        (self.0, (self.1, self.2, self.3, self.4, self.5, self.6, self.7, self.8, self.9, self.10, self.11, self.12, self.13, self.14), self.15)
    }

    fn head_tail(&self) -> (r: (&T1, &T16)) {
        (&self.0, &self.15)
    }

    fn head_tail_mut(&mut self) -> (r: (&mut T1, &mut T16)) {
        (&mut self.0, &mut self.15)
    }

    fn truncate_head_tail(self) -> (r: (T1, (T2, T3, T4, T5, T6, T7, T8, T9, T10, T11, T12, T13, T14, T15), T16)) {
        (self.0, (self.1, self.2, self.3, self.4, self.5, self.6, self.7, self.8, self.9, self.10, self.11, self.12, self.13, self.14), self.15)
    }

    proof fn lemma_truncate_head_tail(self) {
    }
}

impl<T1, T2, T3, T4, T5, T6, T7, T8, T9, T10, T11, T12, T13, T14, T15, T16> IndexableTuple<0> for (T1, T2, T3, T4, T5, T6, T7, T8, T9, T10, T11, T12, T13, T14, T15, T16) {
    type Value = T1;

    open spec fn spec_index(&self) -> T1 {
        self.0
    }

    open spec fn spec_with_index(self, value: T1) -> (T1, T2, T3, T4, T5, T6, T7, T8, T9, T10, T11, T12, T13, T14, T15, T16) {
        (value, self.1, self.2, self.3, self.4, self.5, self.6, self.7, self.8, self.9, self.10, self.11, self.12, self.13, self.14, self.15)
    }

    fn index_ref(&self) -> (r: &T1) {
        &self.0
    }

    fn index_mut(&mut self) -> (r: &mut T1) {
        &mut self.0
    }

    fn into_index(self) -> (r: T1) {
        self.0
    }

    proof fn lemma_index_in_range(&self) {
    }
}

impl<T1, T2, T3, T4, T5, T6, T7, T8, T9, T10, T11, T12, T13, T14, T15, T16> IndexableTuple<1> for (T1, T2, T3, T4, T5, T6, T7, T8, T9, T10, T11, T12, T13, T14, T15, T16) {
    type Value = T2;

    open spec fn spec_index(&self) -> T2 {
        self.1
    }

    open spec fn spec_with_index(self, value: T2) -> (T1, T2, T3, T4, T5, T6, T7, T8, T9, T10, T11, T12, T13, T14, T15, T16) {
        (self.0, value, self.2, self.3, self.4, self.5, self.6, self.7, self.8, self.9, self.10, self.11, self.12, self.13, self.14, self.15)
    }

    fn index_ref(&self) -> (r: &T2) {
        &self.1
    }

    fn index_mut(&mut self) -> (r: &mut T2) {
        &mut self.1
    }

    fn into_index(self) -> (r: T2) {
        self.1
    }

    proof fn lemma_index_in_range(&self) {
    }
}

impl<T1, T2, T3, T4, T5, T6, T7, T8, T9, T10, T11, T12, T13, T14, T15, T16> IndexableTuple<2> for (T1, T2, T3, T4, T5, T6, T7, T8, T9, T10, T11, T12, T13, T14, T15, T16) {
    type Value = T3;

    open spec fn spec_index(&self) -> T3 {
        self.2
    }

    open spec fn spec_with_index(self, value: T3) -> (T1, T2, T3, T4, T5, T6, T7, T8, T9, T10, T11, T12, T13, T14, T15, T16) {
        (self.0, self.1, value, self.3, self.4, self.5, self.6, self.7, self.8, self.9, self.10, self.11, self.12, self.13, self.14, self.15)
    }

    fn index_ref(&self) -> (r: &T3) {
        &self.2
    }

    fn index_mut(&mut self) -> (r: &mut T3) {
        &mut self.2
    }

    fn into_index(self) -> (r: T3) {
        self.2
    }

    proof fn lemma_index_in_range(&self) {
    }
}

impl<T1, T2, T3, T4, T5, T6, T7, T8, T9, T10, T11, T12, T13, T14, T15, T16> IndexableTuple<3> for (T1, T2, T3, T4, T5, T6, T7, T8, T9, T10, T11, T12, T13, T14, T15, T16) {
    type Value = T4;

    open spec fn spec_index(&self) -> T4 {
        self.3
    }

    open spec fn spec_with_index(self, value: T4) -> (T1, T2, T3, T4, T5, T6, T7, T8, T9, T10, T11, T12, T13, T14, T15, T16) {
        (self.0, self.1, self.2, value, self.4, self.5, self.6, self.7, self.8, self.9, self.10, self.11, self.12, self.13, self.14, self.15)
    }

    fn index_ref(&self) -> (r: &T4) {
        &self.3
    }

    fn index_mut(&mut self) -> (r: &mut T4) {
        &mut self.3
    }

    fn into_index(self) -> (r: T4) {
        self.3
    }

    proof fn lemma_index_in_range(&self) {
    }
}

impl<T1, T2, T3, T4, T5, T6, T7, T8, T9, T10, T11, T12, T13, T14, T15, T16> IndexableTuple<4> for (T1, T2, T3, T4, T5, T6, T7, T8, T9, T10, T11, T12, T13, T14, T15, T16) {
    type Value = T5;

    open spec fn spec_index(&self) -> T5 {
        self.4
    }

    open spec fn spec_with_index(self, value: T5) -> (T1, T2, T3, T4, T5, T6, T7, T8, T9, T10, T11, T12, T13, T14, T15, T16) {
        (self.0, self.1, self.2, self.3, value, self.5, self.6, self.7, self.8, self.9, self.10, self.11, self.12, self.13, self.14, self.15)
    }

    fn index_ref(&self) -> (r: &T5) {
        &self.4
    }

    fn index_mut(&mut self) -> (r: &mut T5) {
        &mut self.4
    }

    fn into_index(self) -> (r: T5) {
        self.4
    }

    proof fn lemma_index_in_range(&self) {
    }
}

impl<T1, T2, T3, T4, T5, T6, T7, T8, T9, T10, T11, T12, T13, T14, T15, T16> IndexableTuple<5> for (T1, T2, T3, T4, T5, T6, T7, T8, T9, T10, T11, T12, T13, T14, T15, T16) {
    type Value = T6;

    open spec fn spec_index(&self) -> T6 {
        self.5
    }

    open spec fn spec_with_index(self, value: T6) -> (T1, T2, T3, T4, T5, T6, T7, T8, T9, T10, T11, T12, T13, T14, T15, T16) {
        (self.0, self.1, self.2, self.3, self.4, value, self.6, self.7, self.8, self.9, self.10, self.11, self.12, self.13, self.14, self.15)
    }

    fn index_ref(&self) -> (r: &T6) {
        &self.5
    }

    fn index_mut(&mut self) -> (r: &mut T6) {
        &mut self.5
    }

    fn into_index(self) -> (r: T6) {
        self.5
    }

    proof fn lemma_index_in_range(&self) {
    }
}

impl<T1, T2, T3, T4, T5, T6, T7, T8, T9, T10, T11, T12, T13, T14, T15, T16> IndexableTuple<6> for (T1, T2, T3, T4, T5, T6, T7, T8, T9, T10, T11, T12, T13, T14, T15, T16) {
    type Value = T7;

    open spec fn spec_index(&self) -> T7 {
        self.6
    }

    open spec fn spec_with_index(self, value: T7) -> (T1, T2, T3, T4, T5, T6, T7, T8, T9, T10, T11, T12, T13, T14, T15, T16) {
        (self.0, self.1, self.2, self.3, self.4, self.5, value, self.7, self.8, self.9, self.10, self.11, self.12, self.13, self.14, self.15)
    }

    fn index_ref(&self) -> (r: &T7) {
        &self.6
    }

    fn index_mut(&mut self) -> (r: &mut T7) {
        &mut self.6
    }

    fn into_index(self) -> (r: T7) {
        self.6
    }

    proof fn lemma_index_in_range(&self) {
    }
}

impl<T1, T2, T3, T4, T5, T6, T7, T8, T9, T10, T11, T12, T13, T14, T15, T16> IndexableTuple<7> for (T1, T2, T3, T4, T5, T6, T7, T8, T9, T10, T11, T12, T13, T14, T15, T16) {
    type Value = T8;

    open spec fn spec_index(&self) -> T8 {
        self.7
    }

    open spec fn spec_with_index(self, value: T8) -> (T1, T2, T3, T4, T5, T6, T7, T8, T9, T10, T11, T12, T13, T14, T15, T16) {
        (self.0, self.1, self.2, self.3, self.4, self.5, self.6, value, self.8, self.9, self.10, self.11, self.12, self.13, self.14, self.15)
    }

    fn index_ref(&self) -> (r: &T8) {
        &self.7
    }

    fn index_mut(&mut self) -> (r: &mut T8) {
        &mut self.7
    }

    fn into_index(self) -> (r: T8) {
        self.7
    }

    proof fn lemma_index_in_range(&self) {
    }
}

impl<T1, T2, T3, T4, T5, T6, T7, T8, T9, T10, T11, T12, T13, T14, T15, T16> IndexableTuple<8> for (T1, T2, T3, T4, T5, T6, T7, T8, T9, T10, T11, T12, T13, T14, T15, T16) {
    type Value = T9;

    open spec fn spec_index(&self) -> T9 {
        self.8
    }

    open spec fn spec_with_index(self, value: T9) -> (T1, T2, T3, T4, T5, T6, T7, T8, T9, T10, T11, T12, T13, T14, T15, T16) {
        (self.0, self.1, self.2, self.3, self.4, self.5, self.6, self.7, value, self.9, self.10, self.11, self.12, self.13, self.14, self.15)
    }

    fn index_ref(&self) -> (r: &T9) {
        &self.8
    }

    fn index_mut(&mut self) -> (r: &mut T9) {
        &mut self.8
    }

    fn into_index(self) -> (r: T9) {
        self.8
    }

    proof fn lemma_index_in_range(&self) {
    }
}

impl<T1, T2, T3, T4, T5, T6, T7, T8, T9, T10, T11, T12, T13, T14, T15, T16> IndexableTuple<9> for (T1, T2, T3, T4, T5, T6, T7, T8, T9, T10, T11, T12, T13, T14, T15, T16) {
    type Value = T10;

    open spec fn spec_index(&self) -> T10 {
        self.9
    }

    open spec fn spec_with_index(self, value: T10) -> (T1, T2, T3, T4, T5, T6, T7, T8, T9, T10, T11, T12, T13, T14, T15, T16) {
        (self.0, self.1, self.2, self.3, self.4, self.5, self.6, self.7, self.8, value, self.10, self.11, self.12, self.13, self.14, self.15)
    }

    fn index_ref(&self) -> (r: &T10) {
        &self.9
    }

    fn index_mut(&mut self) -> (r: &mut T10) {
        &mut self.9
    }

    fn into_index(self) -> (r: T10) {
        self.9
    }

    proof fn lemma_index_in_range(&self) {
    }
}

impl<T1, T2, T3, T4, T5, T6, T7, T8, T9, T10, T11, T12, T13, T14, T15, T16> IndexableTuple<10> for (T1, T2, T3, T4, T5, T6, T7, T8, T9, T10, T11, T12, T13, T14, T15, T16) {
    type Value = T11;

    open spec fn spec_index(&self) -> T11 {
        self.10
    }

    open spec fn spec_with_index(self, value: T11) -> (T1, T2, T3, T4, T5, T6, T7, T8, T9, T10, T11, T12, T13, T14, T15, T16) {
        (self.0, self.1, self.2, self.3, self.4, self.5, self.6, self.7, self.8, self.9, value, self.11, self.12, self.13, self.14, self.15)
    }

    fn index_ref(&self) -> (r: &T11) {
        &self.10
    }

    fn index_mut(&mut self) -> (r: &mut T11) {
        &mut self.10
    }

    fn into_index(self) -> (r: T11) {
        self.10
    }

    proof fn lemma_index_in_range(&self) {
    }
}

impl<T1, T2, T3, T4, T5, T6, T7, T8, T9, T10, T11, T12, T13, T14, T15, T16> IndexableTuple<11> for (T1, T2, T3, T4, T5, T6, T7, T8, T9, T10, T11, T12, T13, T14, T15, T16) {
    type Value = T12;

    open spec fn spec_index(&self) -> T12 {
        self.11
    }

    open spec fn spec_with_index(self, value: T12) -> (T1, T2, T3, T4, T5, T6, T7, T8, T9, T10, T11, T12, T13, T14, T15, T16) {
        (self.0, self.1, self.2, self.3, self.4, self.5, self.6, self.7, self.8, self.9, self.10, value, self.12, self.13, self.14, self.15)
    }

    fn index_ref(&self) -> (r: &T12) {
        &self.11
    }

    fn index_mut(&mut self) -> (r: &mut T12) {
        &mut self.11
    }

    fn into_index(self) -> (r: T12) {
        self.11
    }

    proof fn lemma_index_in_range(&self) {
    }
}

impl<T1, T2, T3, T4, T5, T6, T7, T8, T9, T10, T11, T12, T13, T14, T15, T16> IndexableTuple<12> for (T1, T2, T3, T4, T5, T6, T7, T8, T9, T10, T11, T12, T13, T14, T15, T16) {
    type Value = T13;

    open spec fn spec_index(&self) -> T13 {
        self.12
    }

    open spec fn spec_with_index(self, value: T13) -> (T1, T2, T3, T4, T5, T6, T7, T8, T9, T10, T11, T12, T13, T14, T15, T16) {
        (self.0, self.1, self.2, self.3, self.4, self.5, self.6, self.7, self.8, self.9, self.10, self.11, value, self.13, self.14, self.15)
    }

    fn index_ref(&self) -> (r: &T13) {
        &self.12
    }

    fn index_mut(&mut self) -> (r: &mut T13) {
        &mut self.12
    }

    fn into_index(self) -> (r: T13) {
        self.12
    }

    proof fn lemma_index_in_range(&self) {
    }
}

impl<T1, T2, T3, T4, T5, T6, T7, T8, T9, T10, T11, T12, T13, T14, T15, T16> IndexableTuple<13> for (T1, T2, T3, T4, T5, T6, T7, T8, T9, T10, T11, T12, T13, T14, T15, T16) {
    type Value = T14;

    open spec fn spec_index(&self) -> T14 {
        self.13
    }

    open spec fn spec_with_index(self, value: T14) -> (T1, T2, T3, T4, T5, T6, T7, T8, T9, T10, T11, T12, T13, T14, T15, T16) {
        (self.0, self.1, self.2, self.3, self.4, self.5, self.6, self.7, self.8, self.9, self.10, self.11, self.12, value, self.14, self.15)
    }

    fn index_ref(&self) -> (r: &T14) {
        &self.13
    }

    fn index_mut(&mut self) -> (r: &mut T14) {
        &mut self.13
    }

    fn into_index(self) -> (r: T14) {
        self.13
    }

    proof fn lemma_index_in_range(&self) {
    }
}

impl<T1, T2, T3, T4, T5, T6, T7, T8, T9, T10, T11, T12, T13, T14, T15, T16> IndexableTuple<14> for (T1, T2, T3, T4, T5, T6, T7, T8, T9, T10, T11, T12, T13, T14, T15, T16) {
    type Value = T15;

    open spec fn spec_index(&self) -> T15 {
        self.14
    }

    open spec fn spec_with_index(self, value: T15) -> (T1, T2, T3, T4, T5, T6, T7, T8, T9, T10, T11, T12, T13, T14, T15, T16) {
        (self.0, self.1, self.2, self.3, self.4, self.5, self.6, self.7, self.8, self.9, self.10, self.11, self.12, self.13, value, self.15)
    }

    fn index_ref(&self) -> (r: &T15) {
        &self.14
    }

    fn index_mut(&mut self) -> (r: &mut T15) {
        &mut self.14
    }

    fn into_index(self) -> (r: T15) {
        self.14
    }

    proof fn lemma_index_in_range(&self) {
    }
}

impl<T1, T2, T3, T4, T5, T6, T7, T8, T9, T10, T11, T12, T13, T14, T15, T16> IndexableTuple<15> for (T1, T2, T3, T4, T5, T6, T7, T8, T9, T10, T11, T12, T13, T14, T15, T16) {
    type Value = T16;

    open spec fn spec_index(&self) -> T16 {
        self.15
    }

    open spec fn spec_with_index(self, value: T16) -> (T1, T2, T3, T4, T5, T6, T7, T8, T9, T10, T11, T12, T13, T14, T15, T16) {
        (self.0, self.1, self.2, self.3, self.4, self.5, self.6, self.7, self.8, self.9, self.10, self.11, self.12, self.13, self.14, value)
    }

    fn index_ref(&self) -> (r: &T16) {
        &self.15
    }

    fn index_mut(&mut self) -> (r: &mut T16) {
        &mut self.15
    }

    fn into_index(self) -> (r: T16) {
        self.15
    }

    proof fn lemma_index_in_range(&self) {
    }
}

impl<T1, T2, T3, T4, T5, T6, T7, T8, T9, T10, T11, T12, T13, T14, T15, T16> JoinableTuple<(T1, T2, T3, T4, T5, T6, T7, T8, T9, T10, T11, T12, T13, T14, T15, T16)> for () {
    type Join = (T1, T2, T3, T4, T5, T6, T7, T8, T9, T10, T11, T12, T13, T14, T15, T16);

    open spec fn spec_join(self, other: (T1, T2, T3, T4, T5, T6, T7, T8, T9, T10, T11, T12, T13, T14, T15, T16)) -> (T1, T2, T3, T4, T5, T6, T7, T8, T9, T10, T11, T12, T13, T14, T15, T16) {
        (other.0, other.1, other.2, other.3, other.4, other.5, other.6, other.7, other.8, other.9, other.10, other.11, other.12, other.13, other.14, other.15)
    }

    fn join(self, other: (T1, T2, T3, T4, T5, T6, T7, T8, T9, T10, T11, T12, T13, T14, T15, T16)) -> (r: (T1, T2, T3, T4, T5, T6, T7, T8, T9, T10, T11, T12, T13, T14, T15, T16)) {
        (other.0, other.1, other.2, other.3, other.4, other.5, other.6, other.7, other.8, other.9, other.10, other.11, other.12, other.13, other.14, other.15)
    }

    proof fn lemma_join_arity(self, other: (T1, T2, T3, T4, T5, T6, T7, T8, T9, T10, T11, T12, T13, T14, T15, T16)) {
    }
}

impl<T1, T2, T3, T4, T5, T6, T7, T8, T9, T10, T11, T12, T13, T14, T15, T16> JoinableTuple<(T2, T3, T4, T5, T6, T7, T8, T9, T10, T11, T12, T13, T14, T15, T16)> for (T1,) {
    type Join = (T1, T2, T3, T4, T5, T6, T7, T8, T9, T10, T11, T12, T13, T14, T15, T16);

    open spec fn spec_join(self, other: (T2, T3, T4, T5, T6, T7, T8, T9, T10, T11, T12, T13, T14, T15, T16)) -> (T1, T2, T3, T4, T5, T6, T7, T8, T9, T10, T11, T12, T13, T14, T15, T16) {
        (self.0, other.0, other.1, other.2, other.3, other.4, other.5, other.6, other.7, other.8, other.9, other.10, other.11, other.12, other.13, other.14)
    }

    fn join(self, other: (T2, T3, T4, T5, T6, T7, T8, T9, T10, T11, T12, T13, T14, T15, T16)) -> (r: (T1, T2, T3, T4, T5, T6, T7, T8, T9, T10, T11, T12, T13, T14, T15, T16)) {
        (self.0, other.0, other.1, other.2, other.3, other.4, other.5, other.6, other.7, other.8, other.9, other.10, other.11, other.12, other.13, other.14)
    }

    proof fn lemma_join_arity(self, other: (T2, T3, T4, T5, T6, T7, T8, T9, T10, T11, T12, T13, T14, T15, T16)) {
    }
}

impl<T1, T2, T3, T4, T5, T6, T7, T8, T9, T10, T11, T12, T13, T14, T15, T16> JoinableTuple<(T3, T4, T5, T6, T7, T8, T9, T10, T11, T12, T13, T14, T15, T16)> for (T1, T2) {
    type Join = (T1, T2, T3, T4, T5, T6, T7, T8, T9, T10, T11, T12, T13, T14, T15, T16);

    open spec fn spec_join(self, other: (T3, T4, T5, T6, T7, T8, T9, T10, T11, T12, T13, T14, T15, T16)) -> (T1, T2, T3, T4, T5, T6, T7, T8, T9, T10, T11, T12, T13, T14, T15, T16) {
        (self.0, self.1, other.0, other.1, other.2, other.3, other.4, other.5, other.6, other.7, other.8, other.9, other.10, other.11, other.12, other.13)
    }

    fn join(self, other: (T3, T4, T5, T6, T7, T8, T9, T10, T11, T12, T13, T14, T15, T16)) -> (r: (T1, T2, T3, T4, T5, T6, T7, T8, T9, T10, T11, T12, T13, T14, T15, T16)) {
        (self.0, self.1, other.0, other.1, other.2, other.3, other.4, other.5, other.6, other.7, other.8, other.9, other.10, other.11, other.12, other.13)
    }

    proof fn lemma_join_arity(self, other: (T3, T4, T5, T6, T7, T8, T9, T10, T11, T12, T13, T14, T15, T16)) {
    }
}

impl<T1, T2, T3, T4, T5, T6, T7, T8, T9, T10, T11, T12, T13, T14, T15, T16> JoinableTuple<(T4, T5, T6, T7, T8, T9, T10, T11, T12, T13, T14, T15, T16)> for (T1, T2, T3) {
    type Join = (T1, T2, T3, T4, T5, T6, T7, T8, T9, T10, T11, T12, T13, T14, T15, T16);

    open spec fn spec_join(self, other: (T4, T5, T6, T7, T8, T9, T10, T11, T12, T13, T14, T15, T16)) -> (T1, T2, T3, T4, T5, T6, T7, T8, T9, T10, T11, T12, T13, T14, T15, T16) {
        (self.0, self.1, self.2, other.0, other.1, other.2, other.3, other.4, other.5, other.6, other.7, other.8, other.9, other.10, other.11, other.12)
    }

    fn join(self, other: (T4, T5, T6, T7, T8, T9, T10, T11, T12, T13, T14, T15, T16)) -> (r: (T1, T2, T3, T4, T5, T6, T7, T8, T9, T10, T11, T12, T13, T14, T15, T16)) {
        (self.0, self.1, self.2, other.0, other.1, other.2, other.3, other.4, other.5, other.6, other.7, other.8, other.9, other.10, other.11, other.12)
    }

    proof fn lemma_join_arity(self, other: (T4, T5, T6, T7, T8, T9, T10, T11, T12, T13, T14, T15, T16)) {
    }
}

impl<T1, T2, T3, T4, T5, T6, T7, T8, T9, T10, T11, T12, T13, T14, T15, T16> JoinableTuple<(T5, T6, T7, T8, T9, T10, T11, T12, T13, T14, T15, T16)> for (T1, T2, T3, T4) {
    type Join = (T1, T2, T3, T4, T5, T6, T7, T8, T9, T10, T11, T12, T13, T14, T15, T16);

    open spec fn spec_join(self, other: (T5, T6, T7, T8, T9, T10, T11, T12, T13, T14, T15, T16)) -> (T1, T2, T3, T4, T5, T6, T7, T8, T9, T10, T11, T12, T13, T14, T15, T16) {
        (self.0, self.1, self.2, self.3, other.0, other.1, other.2, other.3, other.4, other.5, other.6, other.7, other.8, other.9, other.10, other.11)
    }

    fn join(self, other: (T5, T6, T7, T8, T9, T10, T11, T12, T13, T14, T15, T16)) -> (r: (T1, T2, T3, T4, T5, T6, T7, T8, T9, T10, T11, T12, T13, T14, T15, T16)) {
        (self.0, self.1, self.2, self.3, other.0, other.1, other.2, other.3, other.4, other.5, other.6, other.7, other.8, other.9, other.10, other.11)
    }

    proof fn lemma_join_arity(self, other: (T5, T6, T7, T8, T9, T10, T11, T12, T13, T14, T15, T16)) {
    }
}

impl<T1, T2, T3, T4, T5, T6, T7, T8, T9, T10, T11, T12, T13, T14, T15, T16> JoinableTuple<(T6, T7, T8, T9, T10, T11, T12, T13, T14, T15, T16)> for (T1, T2, T3, T4, T5) {
    type Join = (T1, T2, T3, T4, T5, T6, T7, T8, T9, T10, T11, T12, T13, T14, T15, T16);

    open spec fn spec_join(self, other: (T6, T7, T8, T9, T10, T11, T12, T13, T14, T15, T16)) -> (T1, T2, T3, T4, T5, T6, T7, T8, T9, T10, T11, T12, T13, T14, T15, T16) {
        (self.0, self.1, self.2, self.3, self.4, other.0, other.1, other.2, other.3, other.4, other.5, other.6, other.7, other.8, other.9, other.10)
    }

    fn join(self, other: (T6, T7, T8, T9, T10, T11, T12, T13, T14, T15, T16)) -> (r: (T1, T2, T3, T4, T5, T6, T7, T8, T9, T10, T11, T12, T13, T14, T15, T16)) {
        (self.0, self.1, self.2, self.3, self.4, other.0, other.1, other.2, other.3, other.4, other.5, other.6, other.7, other.8, other.9, other.10)
    }

    proof fn lemma_join_arity(self, other: (T6, T7, T8, T9, T10, T11, T12, T13, T14, T15, T16)) {
    }
}

impl<T1, T2, T3, T4, T5, T6, T7, T8, T9, T10, T11, T12, T13, T14, T15, T16> JoinableTuple<(T7, T8, T9, T10, T11, T12, T13, T14, T15, T16)> for (T1, T2, T3, T4, T5, T6) {
    type Join = (T1, T2, T3, T4, T5, T6, T7, T8, T9, T10, T11, T12, T13, T14, T15, T16);

    open spec fn spec_join(self, other: (T7, T8, T9, T10, T11, T12, T13, T14, T15, T16)) -> (T1, T2, T3, T4, T5, T6, T7, T8, T9, T10, T11, T12, T13, T14, T15, T16) {
        (self.0, self.1, self.2, self.3, self.4, self.5, other.0, other.1, other.2, other.3, other.4, other.5, other.6, other.7, other.8, other.9)
    }

    fn join(self, other: (T7, T8, T9, T10, T11, T12, T13, T14, T15, T16)) -> (r: (T1, T2, T3, T4, T5, T6, T7, T8, T9, T10, T11, T12, T13, T14, T15, T16)) {
        (self.0, self.1, self.2, self.3, self.4, self.5, other.0, other.1, other.2, other.3, other.4, other.5, other.6, other.7, other.8, other.9)
    }

    proof fn lemma_join_arity(self, other: (T7, T8, T9, T10, T11, T12, T13, T14, T15, T16)) {
    }
}

impl<T1, T2, T3, T4, T5, T6, T7, T8, T9, T10, T11, T12, T13, T14, T15, T16> JoinableTuple<(T8, T9, T10, T11, T12, T13, T14, T15, T16)> for (T1, T2, T3, T4, T5, T6, T7) {
    type Join = (T1, T2, T3, T4, T5, T6, T7, T8, T9, T10, T11, T12, T13, T14, T15, T16);

    open spec fn spec_join(self, other: (T8, T9, T10, T11, T12, T13, T14, T15, T16)) -> (T1, T2, T3, T4, T5, T6, T7, T8, T9, T10, T11, T12, T13, T14, T15, T16) {
        (self.0, self.1, self.2, self.3, self.4, self.5, self.6, other.0, other.1, other.2, other.3, other.4, other.5, other.6, other.7, other.8)
    }

    fn join(self, other: (T8, T9, T10, T11, T12, T13, T14, T15, T16)) -> (r: (T1, T2, T3, T4, T5, T6, T7, T8, T9, T10, T11, T12, T13, T14, T15, T16)) {
        (self.0, self.1, self.2, self.3, self.4, self.5, self.6, other.0, other.1, other.2, other.3, other.4, other.5, other.6, other.7, other.8)
    }

    proof fn lemma_join_arity(self, other: (T8, T9, T10, T11, T12, T13, T14, T15, T16)) {
    }
}

impl<T1, T2, T3, T4, T5, T6, T7, T8, T9, T10, T11, T12, T13, T14, T15, T16> JoinableTuple<(T9, T10, T11, T12, T13, T14, T15, T16)> for (T1, T2, T3, T4, T5, T6, T7, T8) {
    type Join = (T1, T2, T3, T4, T5, T6, T7, T8, T9, T10, T11, T12, T13, T14, T15, T16);

    open spec fn spec_join(self, other: (T9, T10, T11, T12, T13, T14, T15, T16)) -> (T1, T2, T3, T4, T5, T6, T7, T8, T9, T10, T11, T12, T13, T14, T15, T16) {
        (self.0, self.1, self.2, self.3, self.4, self.5, self.6, self.7, other.0, other.1, other.2, other.3, other.4, other.5, other.6, other.7)
    }

    fn join(self, other: (T9, T10, T11, T12, T13, T14, T15, T16)) -> (r: (T1, T2, T3, T4, T5, T6, T7, T8, T9, T10, T11, T12, T13, T14, T15, T16)) {
        (self.0, self.1, self.2, self.3, self.4, self.5, self.6, self.7, other.0, other.1, other.2, other.3, other.4, other.5, other.6, other.7)
    }

    proof fn lemma_join_arity(self, other: (T9, T10, T11, T12, T13, T14, T15, T16)) {
    }
}

impl<T1, T2, T3, T4, T5, T6, T7, T8, T9, T10, T11, T12, T13, T14, T15, T16> JoinableTuple<(T10, T11, T12, T13, T14, T15, T16)> for (T1, T2, T3, T4, T5, T6, T7, T8, T9) {
    type Join = (T1, T2, T3, T4, T5, T6, T7, T8, T9, T10, T11, T12, T13, T14, T15, T16);

    open spec fn spec_join(self, other: (T10, T11, T12, T13, T14, T15, T16)) -> (T1, T2, T3, T4, T5, T6, T7, T8, T9, T10, T11, T12, T13, T14, T15, T16) {
        (self.0, self.1, self.2, self.3, self.4, self.5, self.6, self.7, self.8, other.0, other.1, other.2, other.3, other.4, other.5, other.6)
    }

    fn join(self, other: (T10, T11, T12, T13, T14, T15, T16)) -> (r: (T1, T2, T3, T4, T5, T6, T7, T8, T9, T10, T11, T12, T13, T14, T15, T16)) {
        (self.0, self.1, self.2, self.3, self.4, self.5, self.6, self.7, self.8, other.0, other.1, other.2, other.3, other.4, other.5, other.6)
    }

    proof fn lemma_join_arity(self, other: (T10, T11, T12, T13, T14, T15, T16)) {
    }
}

impl<T1, T2, T3, T4, T5, T6, T7, T8, T9, T10, T11, T12, T13, T14, T15, T16> JoinableTuple<(T11, T12, T13, T14, T15, T16)> for (T1, T2, T3, T4, T5, T6, T7, T8, T9, T10) {
    type Join = (T1, T2, T3, T4, T5, T6, T7, T8, T9, T10, T11, T12, T13, T14, T15, T16);

    open spec fn spec_join(self, other: (T11, T12, T13, T14, T15, T16)) -> (T1, T2, T3, T4, T5, T6, T7, T8, T9, T10, T11, T12, T13, T14, T15, T16) {
        (self.0, self.1, self.2, self.3, self.4, self.5, self.6, self.7, self.8, self.9, other.0, other.1, other.2, other.3, other.4, other.5)
    }

    fn join(self, other: (T11, T12, T13, T14, T15, T16)) -> (r: (T1, T2, T3, T4, T5, T6, T7, T8, T9, T10, T11, T12, T13, T14, T15, T16)) {
        (self.0, self.1, self.2, self.3, self.4, self.5, self.6, self.7, self.8, self.9, other.0, other.1, other.2, other.3, other.4, other.5)
    }

    proof fn lemma_join_arity(self, other: (T11, T12, T13, T14, T15, T16)) {
    }
}

impl<T1, T2, T3, T4, T5, T6, T7, T8, T9, T10, T11, T12, T13, T14, T15, T16> JoinableTuple<(T12, T13, T14, T15, T16)> for (T1, T2, T3, T4, T5, T6, T7, T8, T9, T10, T11) {
    type Join = (T1, T2, T3, T4, T5, T6, T7, T8, T9, T10, T11, T12, T13, T14, T15, T16);

    open spec fn spec_join(self, other: (T12, T13, T14, T15, T16)) -> (T1, T2, T3, T4, T5, T6, T7, T8, T9, T10, T11, T12, T13, T14, T15, T16) {
        (self.0, self.1, self.2, self.3, self.4, self.5, self.6, self.7, self.8, self.9, self.10, other.0, other.1, other.2, other.3, other.4)
    }

    fn join(self, other: (T12, T13, T14, T15, T16)) -> (r: (T1, T2, T3, T4, T5, T6, T7, T8, T9, T10, T11, T12, T13, T14, T15, T16)) {
        (self.0, self.1, self.2, self.3, self.4, self.5, self.6, self.7, self.8, self.9, self.10, other.0, other.1, other.2, other.3, other.4)
    }

    proof fn lemma_join_arity(self, other: (T12, T13, T14, T15, T16)) {
    }
}

impl<T1, T2, T3, T4, T5, T6, T7, T8, T9, T10, T11, T12, T13, T14, T15, T16> JoinableTuple<(T13, T14, T15, T16)> for (T1, T2, T3, T4, T5, T6, T7, T8, T9, T10, T11, T12) {
    type Join = (T1, T2, T3, T4, T5, T6, T7, T8, T9, T10, T11, T12, T13, T14, T15, T16);

    open spec fn spec_join(self, other: (T13, T14, T15, T16)) -> (T1, T2, T3, T4, T5, T6, T7, T8, T9, T10, T11, T12, T13, T14, T15, T16) {
        (self.0, self.1, self.2, self.3, self.4, self.5, self.6, self.7, self.8, self.9, self.10, self.11, other.0, other.1, other.2, other.3)
    }

    fn join(self, other: (T13, T14, T15, T16)) -> (r: (T1, T2, T3, T4, T5, T6, T7, T8, T9, T10, T11, T12, T13, T14, T15, T16)) {
        (self.0, self.1, self.2, self.3, self.4, self.5, self.6, self.7, self.8, self.9, self.10, self.11, other.0, other.1, other.2, other.3)
    }

    proof fn lemma_join_arity(self, other: (T13, T14, T15, T16)) {
    }
}

impl<T1, T2, T3, T4, T5, T6, T7, T8, T9, T10, T11, T12, T13, T14, T15, T16> JoinableTuple<(T14, T15, T16)> for (T1, T2, T3, T4, T5, T6, T7, T8, T9, T10, T11, T12, T13) {
    type Join = (T1, T2, T3, T4, T5, T6, T7, T8, T9, T10, T11, T12, T13, T14, T15, T16);

    open spec fn spec_join(self, other: (T14, T15, T16)) -> (T1, T2, T3, T4, T5, T6, T7, T8, T9, T10, T11, T12, T13, T14, T15, T16) {
        (self.0, self.1, self.2, self.3, self.4, self.5, self.6, self.7, self.8, self.9, self.10, self.11, self.12, other.0, other.1, other.2)
    }

    fn join(self, other: (T14, T15, T16)) -> (r: (T1, T2, T3, T4, T5, T6, T7, T8, T9, T10, T11, T12, T13, T14, T15, T16)) {
        (self.0, self.1, self.2, self.3, self.4, self.5, self.6, self.7, self.8, self.9, self.10, self.11, self.12, other.0, other.1, other.2)
    }

    proof fn lemma_join_arity(self, other: (T14, T15, T16)) {
    }
}

impl<T1, T2, T3, T4, T5, T6, T7, T8, T9, T10, T11, T12, T13, T14, T15, T16> JoinableTuple<(T15, T16)> for (T1, T2, T3, T4, T5, T6, T7, T8, T9, T10, T11, T12, T13, T14) {
    type Join = (T1, T2, T3, T4, T5, T6, T7, T8, T9, T10, T11, T12, T13, T14, T15, T16);

    open spec fn spec_join(self, other: (T15, T16)) -> (T1, T2, T3, T4, T5, T6, T7, T8, T9, T10, T11, T12, T13, T14, T15, T16) {
        (self.0, self.1, self.2, self.3, self.4, self.5, self.6, self.7, self.8, self.9, self.10, self.11, self.12, self.13, other.0, other.1)
    }

    fn join(self, other: (T15, T16)) -> (r: (T1, T2, T3, T4, T5, T6, T7, T8, T9, T10, T11, T12, T13, T14, T15, T16)) {
        (self.0, self.1, self.2, self.3, self.4, self.5, self.6, self.7, self.8, self.9, self.10, self.11, self.12, self.13, other.0, other.1)
    }

    proof fn lemma_join_arity(self, other: (T15, T16)) {
    }
}

impl<T1, T2, T3, T4, T5, T6, T7, T8, T9, T10, T11, T12, T13, T14, T15, T16> JoinableTuple<(T16,)> for (T1, T2, T3, T4, T5, T6, T7, T8, T9, T10, T11, T12, T13, T14, T15) {
    type Join = (T1, T2, T3, T4, T5, T6, T7, T8, T9, T10, T11, T12, T13, T14, T15, T16);

    open spec fn spec_join(self, other: (T16,)) -> (T1, T2, T3, T4, T5, T6, T7, T8, T9, T10, T11, T12, T13, T14, T15, T16) {
        (self.0, self.1, self.2, self.3, self.4, self.5, self.6, self.7, self.8, self.9, self.10, self.11, self.12, self.13, self.14, other.0)
    }

    fn join(self, other: (T16,)) -> (r: (T1, T2, T3, T4, T5, T6, T7, T8, T9, T10, T11, T12, T13, T14, T15, T16)) {
        (self.0, self.1, self.2, self.3, self.4, self.5, self.6, self.7, self.8, self.9, self.10, self.11, self.12, self.13, self.14, other.0)
    }

    proof fn lemma_join_arity(self, other: (T16,)) {
    }
}

impl<T1, T2, T3, T4, T5, T6, T7, T8, T9, T10, T11, T12, T13, T14, T15, T16> JoinableTuple<()> for (T1, T2, T3, T4, T5, T6, T7, T8, T9, T10, T11, T12, T13, T14, T15, T16) {
    type Join = (T1, T2, T3, T4, T5, T6, T7, T8, T9, T10, T11, T12, T13, T14, T15, T16);

    open spec fn spec_join(self, other: ()) -> (T1, T2, T3, T4, T5, T6, T7, T8, T9, T10, T11, T12, T13, T14, T15, T16) {
        (self.0, self.1, self.2, self.3, self.4, self.5, self.6, self.7, self.8, self.9, self.10, self.11, self.12, self.13, self.14, self.15)
    }

    fn join(self, other: ()) -> (r: (T1, T2, T3, T4, T5, T6, T7, T8, T9, T10, T11, T12, T13, T14, T15, T16)) {
        (self.0, self.1, self.2, self.3, self.4, self.5, self.6, self.7, self.8, self.9, self.10, self.11, self.12, self.13, self.14, self.15)
    }

    proof fn lemma_join_arity(self, other: ()) {
    }
}

impl<T1, T2, T3, T4, T5, T6, T7, T8, T9, T10, T11, T12, T13, T14, T15, T16, T17> Sealed for (T1, T2, T3, T4, T5, T6, T7, T8, T9, T10, T11, T12, T13, T14, T15, T16, T17) {}

impl<T1, T2, T3, T4, T5, T6, T7, T8, T9, T10, T11, T12, T13, T14, T15, T16, T17> DynTuple for (T1, T2, T3, T4, T5, T6, T7, T8, T9, T10, T11, T12, T13, T14, T15, T16, T17) {
    open spec fn spec_arity(&self) -> nat {
        17
    }

    fn arity(&self) -> (r: usize) {
        17
    }
}

impl<T1, T2, T3, T4, T5, T6, T7, T8, T9, T10, T11, T12, T13, T14, T15, T16, T17> Tuple for (T1, T2, T3, T4, T5, T6, T7, T8, T9, T10, T11, T12, T13, T14, T15, T16, T17) {
    const ARITY: usize = 17;

    open spec fn spec_type_arity() -> nat {
        17
    }

    proof fn lemma_arity(&self) {
    }

    proof fn lemma_type_arity() {
    }
}

impl<T1, T2, T3, T4, T5, T6, T7, T8, T9, T10, T11, T12, T13, T14, T15, T16, T17, T> GrowableTuple<T> for (T1, T2, T3, T4, T5, T6, T7, T8, T9, T10, T11, T12, T13, T14, T15, T16, T17) {
    type Append = (T1, T2, T3, T4, T5, T6, T7, T8, T9, T10, T11, T12, T13, T14, T15, T16, T17, T);

    type Prepend = (T, T1, T2, T3, T4, T5, T6, T7, T8, T9, T10, T11, T12, T13, T14, T15, T16, T17);

    open spec fn spec_append(self, value: T) -> (T1, T2, T3, T4, T5, T6, T7, T8, T9, T10, T11, T12, T13, T14, T15, T16, T17, T) {
        (self.0, self.1, self.2, self.3, self.4, self.5, self.6, self.7, self.8, self.9, self.10, self.11, self.12, self.13, self.14, self.15, self.16, value)
    }

    open spec fn spec_prepend(self, value: T) -> (T, T1, T2, T3, T4, T5, T6, T7, T8, T9, T10, T11, T12, T13, T14, T15, T16, T17) {
        (value, self.0, self.1, self.2, self.3, self.4, self.5, self.6, self.7, self.8, self.9, self.10, self.11, self.12, self.13, self.14, self.15, self.16)
    }

    fn append(self, value: T) -> (r: (T1, T2, T3, T4, T5, T6, T7, T8, T9, T10, T11, T12, T13, T14, T15, T16, T17, T)) {
        (self.0, self.1, self.2, self.3, self.4, self.5, self.6, self.7, self.8, self.9, self.10, self.11, self.12, self.13, self.14, self.15, self.16, value)
    }

    fn prepend(self, value: T) -> (r: (T, T1, T2, T3, T4, T5, T6, T7, T8, T9, T10, T11, T12, T13, T14, T15, T16, T17)) {
        (value, self.0, self.1, self.2, self.3, self.4, self.5, self.6, self.7, self.8, self.9, self.10, self.11, self.12, self.13, self.14, self.15, self.16)
    }

    proof fn lemma_grow_arity(self, value: T) {
    }
}

impl<T1, T2, T3, T4, T5, T6, T7, T8, T9, T10, T11, T12, T13, T14, T15, T16, T17> NonEmptyTuple for (T1, T2, T3, T4, T5, T6, T7, T8, T9, T10, T11, T12, T13, T14, T15, T16, T17) {
    type Head = T1;

    type Tail = T17;

    type TruncateHead = (T2, T3, T4, T5, T6, T7, T8, T9, T10, T11, T12, T13, T14, T15, T16, T17);

    type TruncateTail = (T1, T2, T3, T4, T5, T6, T7, T8, T9, T10, T11, T12, T13, T14, T15, T16);

    open spec fn spec_head(&self) -> T1 {
        self.0
    }

    open spec fn spec_tail(&self) -> T17 {
        self.16
    }

    open spec fn spec_with_head(self, value: T1) -> (T1, T2, T3, T4, T5, T6, T7, T8, T9, T10, T11, T12, T13, T14, T15, T16, T17) {
        (value, self.1, self.2, self.3, self.4, self.5, self.6, self.7, self.8, self.9, self.10, self.11, self.12, self.13, self.14, self.15, self.16)
    }

    open spec fn spec_with_tail(self, value: T17) -> (T1, T2, T3, T4, T5, T6, T7, T8, T9, T10, T11, T12, T13, T14, T15, T16, T17) {
        (self.0, self.1, self.2, self.3, self.4, self.5, self.6, self.7, self.8, self.9, self.10, self.11, self.12, self.13, self.14, self.15, value)
    }

    open spec fn spec_truncate_head(self) -> (T1, (T2, T3, T4, T5, T6, T7, T8, T9, T10, T11, T12, T13, T14, T15, T16, T17)) {
        (self.0, (self.1, self.2, self.3, self.4, self.5, self.6, self.7, self.8, self.9, self.10, self.11, self.12, self.13, self.14, self.15, self.16))
    }

    open spec fn spec_truncate_tail(self) -> ((T1, T2, T3, T4, T5, T6, T7, T8, T9, T10, T11, T12, T13, T14, T15, T16), T17) {
        ((self.0, self.1, self.2, self.3, self.4, self.5, self.6, self.7, self.8, self.9, self.10, self.11, self.12, self.13, self.14, self.15), self.16)
    }

    fn head(&self) -> (r: &T1) {
        &self.0
    }

    fn head_mut(&mut self) -> (r: &mut T1) {
        &mut self.0
    }

    fn tail(&self) -> (r: &T17) {
        &self.16
    }

    fn tail_mut(&mut self) -> (r: &mut T17) {
        &mut self.16
    }

    fn truncate_head(self) -> (r: (T1, (T2, T3, T4, T5, T6, T7, T8, T9, T10, T11, T12, T13, T14, T15, T16, T17))) {
        (self.0, (self.1, self.2, self.3, self.4, self.5, self.6, self.7, self.8, self.9, self.10, self.11, self.12, self.13, self.14, self.15, self.16))
    }

    fn truncate_tail(self) -> (r: ((T1, T2, T3, T4, T5, T6, T7, T8, T9, T10, T11, T12, T13, T14, T15, T16), T17)) {
        ((self.0, self.1, self.2, self.3, self.4, self.5, self.6, self.7, self.8, self.9, self.10, self.11, self.12, self.13, self.14, self.15), self.16)
    }

    proof fn lemma_truncate_head(self) {
    }

    proof fn lemma_truncate_tail(self) {
    }
}

impl<T1, T2, T3, T4, T5, T6, T7, T8, T9, T10, T11, T12, T13, T14, T15, T16, T17> NonUnaryTuple for (T1, T2, T3, T4, T5, T6, T7, T8, T9, T10, T11, T12, T13, T14, T15, T16, T17) {
    type TruncateHeadTail = (T2, T3, T4, T5, T6, T7, T8, T9, T10, T11, T12, T13, T14, T15, T16);

    open spec fn spec_truncate_head_tail(self) -> (T1, (T2, T3, T4, T5, T6, T7, T8, T9, T10, T11, T12, T13, T14, T15, T16), T17) {
        (self.0, (self.1, self.2, self.3, self.4, self.5, self.6, self.7, self.8, self.9, self.10, self.11, self.12, self.13, self.14, self.15), self.16)
    }

    fn head_tail(&self) -> (r: (&T1, &T17)) {
        (&self.0, &self.16)
    }

    fn head_tail_mut(&mut self) -> (r: (&mut T1, &mut T17)) {
        (&mut self.0, &mut self.16)
    }

    fn truncate_head_tail(self) -> (r: (T1, (T2, T3, T4, T5, T6, T7, T8, T9, T10, T11, T12, T13, T14, T15, T16), T17)) {
        (self.0, (self.1, self.2, self.3, self.4, self.5, self.6, self.7, self.8, self.9, self.10, self.11, self.12, self.13, self.14, self.15), self.16)
    }

    proof fn lemma_truncate_head_tail(self) {
    }
}

impl<T1, T2, T3, T4, T5, T6, T7, T8, T9, T10, T11, T12, T13, T14, T15, T16, T17> IndexableTuple<0> for (T1, T2, T3, T4, T5, T6, T7, T8, T9, T10, T11, T12, T13, T14, T15, T16, T17) {
    type Value = T1;

    open spec fn spec_index(&self) -> T1 {
        self.0
    }

    open spec fn spec_with_index(self, value: T1) -> (T1, T2, T3, T4, T5, T6, T7, T8, T9, T10, T11, T12, T13, T14, T15, T16, T17) {
        (value, self.1, self.2, self.3, self.4, self.5, self.6, self.7, self.8, self.9, self.10, self.11, self.12, self.13, self.14, self.15, self.16)
    }

    fn index_ref(&self) -> (r: &T1) {
        &self.0
    }

    fn index_mut(&mut self) -> (r: &mut T1) {
        &mut self.0
    }

    fn into_index(self) -> (r: T1) {
        self.0
    }

    proof fn lemma_index_in_range(&self) {
    }
}

impl<T1, T2, T3, T4, T5, T6, T7, T8, T9, T10, T11, T12, T13, T14, T15, T16, T17> IndexableTuple<1> for (T1, T2, T3, T4, T5, T6, T7, T8, T9, T10, T11, T12, T13, T14, T15, T16, T17) {
    type Value = T2;

    open spec fn spec_index(&self) -> T2 {
        self.1
    }

    open spec fn spec_with_index(self, value: T2) -> (T1, T2, T3, T4, T5, T6, T7, T8, T9, T10, T11, T12, T13, T14, T15, T16, T17) {
        (self.0, value, self.2, self.3, self.4, self.5, self.6, self.7, self.8, self.9, self.10, self.11, self.12, self.13, self.14, self.15, self.16)
    }

    fn index_ref(&self) -> (r: &T2) {
        &self.1
    }

    fn index_mut(&mut self) -> (r: &mut T2) {
        &mut self.1
    }

    fn into_index(self) -> (r: T2) {
        self.1
    }

    proof fn lemma_index_in_range(&self) {
    }
}

impl<T1, T2, T3, T4, T5, T6, T7, T8, T9, T10, T11, T12, T13, T14, T15, T16, T17> IndexableTuple<2> for (T1, T2, T3, T4, T5, T6, T7, T8, T9, T10, T11, T12, T13, T14, T15, T16, T17) {
    type Value = T3;

    open spec fn spec_index(&self) -> T3 {
        self.2
    }

    open spec fn spec_with_index(self, value: T3) -> (T1, T2, T3, T4, T5, T6, T7, T8, T9, T10, T11, T12, T13, T14, T15, T16, T17) {
        (self.0, self.1, value, self.3, self.4, self.5, self.6, self.7, self.8, self.9, self.10, self.11, self.12, self.13, self.14, self.15, self.16)
    }

    fn index_ref(&self) -> (r: &T3) {
        &self.2
    }

    fn index_mut(&mut self) -> (r: &mut T3) {
        &mut self.2
    }

    fn into_index(self) -> (r: T3) {
        self.2
    }

    proof fn lemma_index_in_range(&self) {
    }
}

impl<T1, T2, T3, T4, T5, T6, T7, T8, T9, T10, T11, T12, T13, T14, T15, T16, T17> IndexableTuple<3> for (T1, T2, T3, T4, T5, T6, T7, T8, T9, T10, T11, T12, T13, T14, T15, T16, T17) {
    type Value = T4;

    open spec fn spec_index(&self) -> T4 {
        self.3
    }

    open spec fn spec_with_index(self, value: T4) -> (T1, T2, T3, T4, T5, T6, T7, T8, T9, T10, T11, T12, T13, T14, T15, T16, T17) {
        (self.0, self.1, self.2, value, self.4, self.5, self.6, self.7, self.8, self.9, self.10, self.11, self.12, self.13, self.14, self.15, self.16)
    }

    fn index_ref(&self) -> (r: &T4) {
        &self.3
    }

    fn index_mut(&mut self) -> (r: &mut T4) {
        &mut self.3
    }

    fn into_index(self) -> (r: T4) {
        self.3
    }

    proof fn lemma_index_in_range(&self) {
    }
}

impl<T1, T2, T3, T4, T5, T6, T7, T8, T9, T10, T11, T12, T13, T14, T15, T16, T17> IndexableTuple<4> for (T1, T2, T3, T4, T5, T6, T7, T8, T9, T10, T11, T12, T13, T14, T15, T16, T17) {
    type Value = T5;

    open spec fn spec_index(&self) -> T5 {
        self.4
    }

    open spec fn spec_with_index(self, value: T5) -> (T1, T2, T3, T4, T5, T6, T7, T8, T9, T10, T11, T12, T13, T14, T15, T16, T17) {
        (self.0, self.1, self.2, self.3, value, self.5, self.6, self.7, self.8, self.9, self.10, self.11, self.12, self.13, self.14, self.15, self.16)
    }

    fn index_ref(&self) -> (r: &T5) {
        &self.4
    }

    fn index_mut(&mut self) -> (r: &mut T5) {
        &mut self.4
    }

    fn into_index(self) -> (r: T5) {
        self.4
    }

    proof fn lemma_index_in_range(&self) {
    }
}

impl<T1, T2, T3, T4, T5, T6, T7, T8, T9, T10, T11, T12, T13, T14, T15, T16, T17> IndexableTuple<5> for (T1, T2, T3, T4, T5, T6, T7, T8, T9, T10, T11, T12, T13, T14, T15, T16, T17) {
    type Value = T6;

    open spec fn spec_index(&self) -> T6 {
        self.5
    }

    open spec fn spec_with_index(self, value: T6) -> (T1, T2, T3, T4, T5, T6, T7, T8, T9, T10, T11, T12, T13, T14, T15, T16, T17) {
        (self.0, self.1, self.2, self.3, self.4, value, self.6, self.7, self.8, self.9, self.10, self.11, self.12, self.13, self.14, self.15, self.16)
    }

    fn index_ref(&self) -> (r: &T6) {
        &self.5
    }

    fn index_mut(&mut self) -> (r: &mut T6) {
        &mut self.5
    }

    fn into_index(self) -> (r: T6) {
        self.5
    }

    proof fn lemma_index_in_range(&self) {
    }
}

impl<T1, T2, T3, T4, T5, T6, T7, T8, T9, T10, T11, T12, T13, T14, T15, T16, T17> IndexableTuple<6> for (T1, T2, T3, T4, T5, T6, T7, T8, T9, T10, T11, T12, T13, T14, T15, T16, T17) {
    type Value = T7;

    open spec fn spec_index(&self) -> T7 {
        self.6
    }

    open spec fn spec_with_index(self, value: T7) -> (T1, T2, T3, T4, T5, T6, T7, T8, T9, T10, T11, T12, T13, T14, T15, T16, T17) {
        (self.0, self.1, self.2, self.3, self.4, self.5, value, self.7, self.8, self.9, self.10, self.11, self.12, self.13, self.14, self.15, self.16)
    }

    fn index_ref(&self) -> (r: &T7) {
        &self.6
    }

    fn index_mut(&mut self) -> (r: &mut T7) {
        &mut self.6
    }

    fn into_index(self) -> (r: T7) {
        self.6
    }

    proof fn lemma_index_in_range(&self) {
    }
}

impl<T1, T2, T3, T4, T5, T6, T7, T8, T9, T10, T11, T12, T13, T14, T15, T16, T17> IndexableTuple<7> for (T1, T2, T3, T4, T5, T6, T7, T8, T9, T10, T11, T12, T13, T14, T15, T16, T17) {
    type Value = T8;

    open spec fn spec_index(&self) -> T8 {
        self.7
    }

    open spec fn spec_with_index(self, value: T8) -> (T1, T2, T3, T4, T5, T6, T7, T8, T9, T10, T11, T12, T13, T14, T15, T16, T17) {
        (self.0, self.1, self.2, self.3, self.4, self.5, self.6, value, self.8, self.9, self.10, self.11, self.12, self.13, self.14, self.15, self.16)
    }

    fn index_ref(&self) -> (r: &T8) {
        &self.7
    }

    fn index_mut(&mut self) -> (r: &mut T8) {
        &mut self.7
    }

    fn into_index(self) -> (r: T8) {
        self.7
    }

    proof fn lemma_index_in_range(&self) {
    }
}

impl<T1, T2, T3, T4, T5, T6, T7, T8, T9, T10, T11, T12, T13, T14, T15, T16, T17> IndexableTuple<8> for (T1, T2, T3, T4, T5, T6, T7, T8, T9, T10, T11, T12, T13, T14, T15, T16, T17) {
    type Value = T9;

    open spec fn spec_index(&self) -> T9 {
        self.8
    }

    open spec fn spec_with_index(self, value: T9) -> (T1, T2, T3, T4, T5, T6, T7, T8, T9, T10, T11, T12, T13, T14, T15, T16, T17) {
        (self.0, self.1, self.2, self.3, self.4, self.5, self.6, self.7, value, self.9, self.10, self.11, self.12, self.13, self.14, self.15, self.16)
    }

    fn index_ref(&self) -> (r: &T9) {
        &self.8
    }

    fn index_mut(&mut self) -> (r: &mut T9) {
        &mut self.8
    }

    fn into_index(self) -> (r: T9) {
        self.8
    }

    proof fn lemma_index_in_range(&self) {
    }
}

impl<T1, T2, T3, T4, T5, T6, T7, T8, T9, T10, T11, T12, T13, T14, T15, T16, T17> IndexableTuple<9> for (T1, T2, T3, T4, T5, T6, T7, T8, T9, T10, T11, T12, T13, T14, T15, T16, T17) {
    type Value = T10;

    open spec fn spec_index(&self) -> T10 {
        self.9
    }

    open spec fn spec_with_index(self, value: T10) -> (T1, T2, T3, T4, T5, T6, T7, T8, T9, T10, T11, T12, T13, T14, T15, T16, T17) {
        (self.0, self.1, self.2, self.3, self.4, self.5, self.6, self.7, self.8, value, self.10, self.11, self.12, self.13, self.14, self.15, self.16)
    }

    fn index_ref(&self) -> (r: &T10) {
        &self.9
    }

    fn index_mut(&mut self) -> (r: &mut T10) {
        &mut self.9
    }

    fn into_index(self) -> (r: T10) {
        self.9
    }

    proof fn lemma_index_in_range(&self) {
    }
}

impl<T1, T2, T3, T4, T5, T6, T7, T8, T9, T10, T11, T12, T13, T14, T15, T16, T17> IndexableTuple<10> for (T1, T2, T3, T4, T5, T6, T7, T8, T9, T10, T11, T12, T13, T14, T15, T16, T17) {
    type Value = T11;

    open spec fn spec_index(&self) -> T11 {
        self.10
    }

    open spec fn spec_with_index(self, value: T11) -> (T1, T2, T3, T4, T5, T6, T7, T8, T9, T10, T11, T12, T13, T14, T15, T16, T17) {
        (self.0, self.1, self.2, self.3, self.4, self.5, self.6, self.7, self.8, self.9, value, self.11, self.12, self.13, self.14, self.15, self.16)
    }

    fn index_ref(&self) -> (r: &T11) {
        &self.10
    }

    fn index_mut(&mut self) -> (r: &mut T11) {
        &mut self.10
    }

    fn into_index(self) -> (r: T11) {
        self.10
    }

    proof fn lemma_index_in_range(&self) {
    }
}

impl<T1, T2, T3, T4, T5, T6, T7, T8, T9, T10, T11, T12, T13, T14, T15, T16, T17> IndexableTuple<11> for (T1, T2, T3, T4, T5, T6, T7, T8, T9, T10, T11, T12, T13, T14, T15, T16, T17) {
    type Value = T12;

    open spec fn spec_index(&self) -> T12 {
        self.11
    }

    open spec fn spec_with_index(self, value: T12) -> (T1, T2, T3, T4, T5, T6, T7, T8, T9, T10, T11, T12, T13, T14, T15, T16, T17) {
        (self.0, self.1, self.2, self.3, self.4, self.5, self.6, self.7, self.8, self.9, self.10, value, self.12, self.13, self.14, self.15, self.16)
    }

    fn index_ref(&self) -> (r: &T12) {
        &self.11
    }

    fn index_mut(&mut self) -> (r: &mut T12) {
        &mut self.11
    }

    fn into_index(self) -> (r: T12) {
        self.11
    }

    proof fn lemma_index_in_range(&self) {
    }
}

impl<T1, T2, T3, T4, T5, T6, T7, T8, T9, T10, T11, T12, T13, T14, T15, T16, T17> IndexableTuple<12> for (T1, T2, T3, T4, T5, T6, T7, T8, T9, T10, T11, T12, T13, T14, T15, T16, T17) {
    type Value = T13;

    open spec fn spec_index(&self) -> T13 {
        self.12
    }

    open spec fn spec_with_index(self, value: T13) -> (T1, T2, T3, T4, T5, T6, T7, T8, T9, T10, T11, T12, T13, T14, T15, T16, T17) {
        (self.0, self.1, self.2, self.3, self.4, self.5, self.6, self.7, self.8, self.9, self.10, self.11, value, self.13, self.14, self.15, self.16)
    }

    fn index_ref(&self) -> (r: &T13) {
        &self.12
    }

    fn index_mut(&mut self) -> (r: &mut T13) {
        &mut self.12
    }

    fn into_index(self) -> (r: T13) {
        self.12
    }

    proof fn lemma_index_in_range(&self) {
    }
}

impl<T1, T2, T3, T4, T5, T6, T7, T8, T9, T10, T11, T12, T13, T14, T15, T16, T17> IndexableTuple<13> for (T1, T2, T3, T4, T5, T6, T7, T8, T9, T10, T11, T12, T13, T14, T15, T16, T17) {
    type Value = T14;

    open spec fn spec_index(&self) -> T14 {
        self.13
    }

    open spec fn spec_with_index(self, value: T14) -> (T1, T2, T3, T4, T5, T6, T7, T8, T9, T10, T11, T12, T13, T14, T15, T16, T17) {
        (self.0, self.1, self.2, self.3, self.4, self.5, self.6, self.7, self.8, self.9, self.10, self.11, self.12, value, self.14, self.15, self.16)
    }

    fn index_ref(&self) -> (r: &T14) {
        &self.13
    }

    fn index_mut(&mut self) -> (r: &mut T14) {
        &mut self.13
    }

    fn into_index(self) -> (r: T14) {
        self.13
    }

    proof fn lemma_index_in_range(&self) {
    }
}

impl<T1, T2, T3, T4, T5, T6, T7, T8, T9, T10, T11, T12, T13, T14, T15, T16, T17> IndexableTuple<14> for (T1, T2, T3, T4, T5, T6, T7, T8, T9, T10, T11, T12, T13, T14, T15, T16, T17) {
    type Value = T15;

    open spec fn spec_index(&self) -> T15 {
        self.14
    }

    open spec fn spec_with_index(self, value: T15) -> (T1, T2, T3, T4, T5, T6, T7, T8, T9, T10, T11, T12, T13, T14, T15, T16, T17) {
        (self.0, self.1, self.2, self.3, self.4, self.5, self.6, self.7, self.8, self.9, self.10, self.11, self.12, self.13, value, self.15, self.16)
    }

    fn index_ref(&self) -> (r: &T15) {
        &self.14
    }

    fn index_mut(&mut self) -> (r: &mut T15) {
        &mut self.14
    }

    fn into_index(self) -> (r: T15) {
        self.14
    }

    proof fn lemma_index_in_range(&self) {
    }
}

impl<T1, T2, T3, T4, T5, T6, T7, T8, T9, T10, T11, T12, T13, T14, T15, T16, T17> IndexableTuple<15> for (T1, T2, T3, T4, T5, T6, T7, T8, T9, T10, T11, T12, T13, T14, T15, T16, T17) {
    type Value = T16;

    open spec fn spec_index(&self) -> T16 {
        self.15
    }

    open spec fn spec_with_index(self, value: T16) -> (T1, T2, T3, T4, T5, T6, T7, T8, T9, T10, T11, T12, T13, T14, T15, T16, T17) {
        (self.0, self.1, self.2, self.3, self.4, self.5, self.6, self.7, self.8, self.9, self.10, self.11, self.12, self.13, self.14, value, self.16)
    }

    fn index_ref(&self) -> (r: &T16) {
        &self.15
    }

    fn index_mut(&mut self) -> (r: &mut T16) {
        &mut self.15
    }

    fn into_index(self) -> (r: T16) {
        self.15
    }

    proof fn lemma_index_in_range(&self) {
    }
}

impl<T1, T2, T3, T4, T5, T6, T7, T8, T9, T10, T11, T12, T13, T14, T15, T16, T17> IndexableTuple<16> for (T1, T2, T3, T4, T5, T6, T7, T8, T9, T10, T11, T12, T13, T14, T15, T16, T17) {
    type Value = T17;

    open spec fn spec_index(&self) -> T17 {
        self.16
    }

    open spec fn spec_with_index(self, value: T17) -> (T1, T2, T3, T4, T5, T6, T7, T8, T9, T10, T11, T12, T13, T14, T15, T16, T17) {
        (self.0, self.1, self.2, self.3, self.4, self.5, self.6, self.7, self.8, self.9, self.10, self.11, self.12, self.13, self.14, self.15, value)
    }

    fn index_ref(&self) -> (r: &T17) {
        &self.16
    }

    fn index_mut(&mut self) -> (r: &mut T17) {
        &mut self.16
    }

    fn into_index(self) -> (r: T17) {
        self.16
    }

    proof fn lemma_index_in_range(&self) {
    }
}

impl<T1, T2, T3, T4, T5, T6, T7, T8, T9, T10, T11, T12, T13, T14, T15, T16, T17> JoinableTuple<(T1, T2, T3, T4, T5, T6, T7, T8, T9, T10, T11, T12, T13, T14, T15, T16, T17)> for () {
    type Join = (T1, T2, T3, T4, T5, T6, T7, T8, T9, T10, T11, T12, T13, T14, T15, T16, T17);

    open spec fn spec_join(self, other: (T1, T2, T3, T4, T5, T6, T7, T8, T9, T10, T11, T12, T13, T14, T15, T16, T17)) -> (T1, T2, T3, T4, T5, T6, T7, T8, T9, T10, T11, T12, T13, T14, T15, T16, T17) {
        (other.0, other.1, other.2, other.3, other.4, other.5, other.6, other.7, other.8, other.9, other.10, other.11, other.12, other.13, other.14, other.15, other.16)
    }

    fn join(self, other: (T1, T2, T3, T4, T5, T6, T7, T8, T9, T10, T11, T12, T13, T14, T15, T16, T17)) -> (r: (T1, T2, T3, T4, T5, T6, T7, T8, T9, T10, T11, T12, T13, T14, T15, T16, T17)) {
        (other.0, other.1, other.2, other.3, other.4, other.5, other.6, other.7, other.8, other.9, other.10, other.11, other.12, other.13, other.14, other.15, other.16)
    }

    proof fn lemma_join_arity(self, other: (T1, T2, T3, T4, T5, T6, T7, T8, T9, T10, T11, T12, T13, T14, T15, T16, T17)) {
    }
}

impl<T1, T2, T3, T4, T5, T6, T7, T8, T9, T10, T11, T12, T13, T14, T15, T16, T17> JoinableTuple<(T2, T3, T4, T5, T6, T7, T8, T9, T10, T11, T12, T13, T14, T15, T16, T17)> for (T1,) {
    type Join = (T1, T2, T3, T4, T5, T6, T7, T8, T9, T10, T11, T12, T13, T14, T15, T16, T17);

    open spec fn spec_join(self, other: (T2, T3, T4, T5, T6, T7, T8, T9, T10, T11, T12, T13, T14, T15, T16, T17)) -> (T1, T2, T3, T4, T5, T6, T7, T8, T9, T10, T11, T12, T13, T14, T15, T16, T17) {
        (self.0, other.0, other.1, other.2, other.3, other.4, other.5, other.6, other.7, other.8, other.9, other.10, other.11, other.12, other.13, other.14, other.15)
    }

    fn join(self, other: (T2, T3, T4, T5, T6, T7, T8, T9, T10, T11, T12, T13, T14, T15, T16, T17)) -> (r: (T1, T2, T3, T4, T5, T6, T7, T8, T9, T10, T11, T12, T13, T14, T15, T16, T17)) {
        (self.0, other.0, other.1, other.2, other.3, other.4, other.5, other.6, other.7, other.8, other.9, other.10, other.11, other.12, other.13, other.14, other.15)
    }

    proof fn lemma_join_arity(self, other: (T2, T3, T4, T5, T6, T7, T8, T9, T10, T11, T12, T13, T14, T15, T16, T17)) {
    }
}

impl<T1, T2, T3, T4, T5, T6, T7, T8, T9, T10, T11, T12, T13, T14, T15, T16, T17> JoinableTuple<(T3, T4, T5, T6, T7, T8, T9, T10, T11, T12, T13, T14, T15, T16, T17)> for (T1, T2) {
    type Join = (T1, T2, T3, T4, T5, T6, T7, T8, T9, T10, T11, T12, T13, T14, T15, T16, T17);

    open spec fn spec_join(self, other: (T3, T4, T5, T6, T7, T8, T9, T10, T11, T12, T13, T14, T15, T16, T17)) -> (T1, T2, T3, T4, T5, T6, T7, T8, T9, T10, T11, T12, T13, T14, T15, T16, T17) {
        (self.0, self.1, other.0, other.1, other.2, other.3, other.4, other.5, other.6, other.7, other.8, other.9, other.10, other.11, other.12, other.13, other.14)
    }

    fn join(self, other: (T3, T4, T5, T6, T7, T8, T9, T10, T11, T12, T13, T14, T15, T16, T17)) -> (r: (T1, T2, T3, T4, T5, T6, T7, T8, T9, T10, T11, T12, T13, T14, T15, T16, T17)) {
        (self.0, self.1, other.0, other.1, other.2, other.3, other.4, other.5, other.6, other.7, other.8, other.9, other.10, other.11, other.12, other.13, other.14)
    }

    proof fn lemma_join_arity(self, other: (T3, T4, T5, T6, T7, T8, T9, T10, T11, T12, T13, T14, T15, T16, T17)) {
    }
}

impl<T1, T2, T3, T4, T5, T6, T7, T8, T9, T10, T11, T12, T13, T14, T15, T16, T17> JoinableTuple<(T4, T5, T6, T7, T8, T9, T10, T11, T12, T13, T14, T15, T16, T17)> for (T1, T2, T3) {
    type Join = (T1, T2, T3, T4, T5, T6, T7, T8, T9, T10, T11, T12, T13, T14, T15, T16, T17);

    open spec fn spec_join(self, other: (T4, T5, T6, T7, T8, T9, T10, T11, T12, T13, T14, T15, T16, T17)) -> (T1, T2, T3, T4, T5, T6, T7, T8, T9, T10, T11, T12, T13, T14, T15, T16, T17) {
        (self.0, self.1, self.2, other.0, other.1, other.2, other.3, other.4, other.5, other.6, other.7, other.8, other.9, other.10, other.11, other.12, other.13)
    }

    fn join(self, other: (T4, T5, T6, T7, T8, T9, T10, T11, T12, T13, T14, T15, T16, T17)) -> (r: (T1, T2, T3, T4, T5, T6, T7, T8, T9, T10, T11, T12, T13, T14, T15, T16, T17)) {
        (self.0, self.1, self.2, other.0, other.1, other.2, other.3, other.4, other.5, other.6, other.7, other.8, other.9, other.10, other.11, other.12, other.13)
    }

    proof fn lemma_join_arity(self, other: (T4, T5, T6, T7, T8, T9, T10, T11, T12, T13, T14, T15, T16, T17)) {
    }
}

impl<T1, T2, T3, T4, T5, T6, T7, T8, T9, T10, T11, T12, T13, T14, T15, T16, T17> JoinableTuple<(T5, T6, T7, T8, T9, T10, T11, T12, T13, T14, T15, T16, T17)> for (T1, T2, T3, T4) {
    type Join = (T1, T2, T3, T4, T5, T6, T7, T8, T9, T10, T11, T12, T13, T14, T15, T16, T17);

    open spec fn spec_join(self, other: (T5, T6, T7, T8, T9, T10, T11, T12, T13, T14, T15, T16, T17)) -> (T1, T2, T3, T4, T5, T6, T7, T8, T9, T10, T11, T12, T13, T14, T15, T16, T17) {
        (self.0, self.1, self.2, self.3, other.0, other.1, other.2, other.3, other.4, other.5, other.6, other.7, other.8, other.9, other.10, other.11, other.12)
    }

    fn join(self, other: (T5, T6, T7, T8, T9, T10, T11, T12, T13, T14, T15, T16, T17)) -> (r: (T1, T2, T3, T4, T5, T6, T7, T8, T9, T10, T11, T12, T13, T14, T15, T16, T17)) {
        (self.0, self.1, self.2, self.3, other.0, other.1, other.2, other.3, other.4, other.5, other.6, other.7, other.8, other.9, other.10, other.11, other.12)
    }

    proof fn lemma_join_arity(self, other: (T5, T6, T7, T8, T9, T10, T11, T12, T13, T14, T15, T16, T17)) {
    }
}

impl<T1, T2, T3, T4, T5, T6, T7, T8, T9, T10, T11, T12, T13, T14, T15, T16, T17> JoinableTuple<(T6, T7, T8, T9, T10, T11, T12, T13, T14, T15, T16, T17)> for (T1, T2, T3, T4, T5) {
    type Join = (T1, T2, T3, T4, T5, T6, T7, T8, T9, T10, T11, T12, T13, T14, T15, T16, T17);

    open spec fn spec_join(self, other: (T6, T7, T8, T9, T10, T11, T12, T13, T14, T15, T16, T17)) -> (T1, T2, T3, T4, T5, T6, T7, T8, T9, T10, T11, T12, T13, T14, T15, T16, T17) {
        (self.0, self.1, self.2, self.3, self.4, other.0, other.1, other.2, other.3, other.4, other.5, other.6, other.7, other.8, other.9, other.10, other.11)
    }

    fn join(self, other: (T6, T7, T8, T9, T10, T11, T12, T13, T14, T15, T16, T17)) -> (r: (T1, T2, T3, T4, T5, T6, T7, T8, T9, T10, T11, T12, T13, T14, T15, T16, T17)) {
        (self.0, self.1, self.2, self.3, self.4, other.0, other.1, other.2, other.3, other.4, other.5, other.6, other.7, other.8, other.9, other.10, other.11)
    }

    proof fn lemma_join_arity(self, other: (T6, T7, T8, T9, T10, T11, T12, T13, T14, T15, T16, T17)) {
    }
}

impl<T1, T2, T3, T4, T5, T6, T7, T8, T9, T10, T11, T12, T13, T14, T15, T16, T17> JoinableTuple<(T7, T8, T9, T10, T11, T12, T13, T14, T15, T16, T17)> for (T1, T2, T3, T4, T5, T6) {
    type Join = (T1, T2, T3, T4, T5, T6, T7, T8, T9, T10, T11, T12, T13, T14, T15, T16, T17);

    open spec fn spec_join(self, other: (T7, T8, T9, T10, T11, T12, T13, T14, T15, T16, T17)) -> (T1, T2, T3, T4, T5, T6, T7, T8, T9, T10, T11, T12, T13, T14, T15, T16, T17) {
        (self.0, self.1, self.2, self.3, self.4, self.5, other.0, other.1, other.2, other.3, other.4, other.5, other.6, other.7, other.8, other.9, other.10)
    }

    fn join(self, other: (T7, T8, T9, T10, T11, T12, T13, T14, T15, T16, T17)) -> (r: (T1, T2, T3, T4, T5, T6, T7, T8, T9, T10, T11, T12, T13, T14, T15, T16, T17)) {
        (self.0, self.1, self.2, self.3, self.4, self.5, other.0, other.1, other.2, other.3, other.4, other.5, other.6, other.7, other.8, other.9, other.10)
    }

    proof fn lemma_join_arity(self, other: (T7, T8, T9, T10, T11, T12, T13, T14, T15, T16, T17)) {
    }
}

impl<T1, T2, T3, T4, T5, T6, T7, T8, T9, T10, T11, T12, T13, T14, T15, T16, T17> JoinableTuple<(T8, T9, T10, T11, T12, T13, T14, T15, T16, T17)> for (T1, T2, T3, T4, T5, T6, T7) {
    type Join = (T1, T2, T3, T4, T5, T6, T7, T8, T9, T10, T11, T12, T13, T14, T15, T16, T17);

    open spec fn spec_join(self, other: (T8, T9, T10, T11, T12, T13, T14, T15, T16, T17)) -> (T1, T2, T3, T4, T5, T6, T7, T8, T9, T10, T11, T12, T13, T14, T15, T16, T17) {
        (self.0, self.1, self.2, self.3, self.4, self.5, self.6, other.0, other.1, other.2, other.3, other.4, other.5, other.6, other.7, other.8, other.9)
    }

    fn join(self, other: (T8, T9, T10, T11, T12, T13, T14, T15, T16, T17)) -> (r: (T1, T2, T3, T4, T5, T6, T7, T8, T9, T10, T11, T12, T13, T14, T15, T16, T17)) {
        (self.0, self.1, self.2, self.3, self.4, self.5, self.6, other.0, other.1, other.2, other.3, other.4, other.5, other.6, other.7, other.8, other.9)
    }

    proof fn lemma_join_arity(self, other: (T8, T9, T10, T11, T12, T13, T14, T15, T16, T17)) {
    }
}

impl<T1, T2, T3, T4, T5, T6, T7, T8, T9, T10, T11, T12, T13, T14, T15, T16, T17> JoinableTuple<(T9, T10, T11, T12, T13, T14, T15, T16, T17)> for (T1, T2, T3, T4, T5, T6, T7, T8) {
    type Join = (T1, T2, T3, T4, T5, T6, T7, T8, T9, T10, T11, T12, T13, T14, T15, T16, T17);

    open spec fn spec_join(self, other: (T9, T10, T11, T12, T13, T14, T15, T16, T17)) -> (T1, T2, T3, T4, T5, T6, T7, T8, T9, T10, T11, T12, T13, T14, T15, T16, T17) {
        (self.0, self.1, self.2, self.3, self.4, self.5, self.6, self.7, other.0, other.1, other.2, other.3, other.4, other.5, other.6, other.7, other.8)
    }

    fn join(self, other: (T9, T10, T11, T12, T13, T14, T15, T16, T17)) -> (r: (T1, T2, T3, T4, T5, T6, T7, T8, T9, T10, T11, T12, T13, T14, T15, T16, T17)) {
        (self.0, self.1, self.2, self.3, self.4, self.5, self.6, self.7, other.0, other.1, other.2, other.3, other.4, other.5, other.6, other.7, other.8)
    }

    proof fn lemma_join_arity(self, other: (T9, T10, T11, T12, T13, T14, T15, T16, T17)) {
    }
}

impl<T1, T2, T3, T4, T5, T6, T7, T8, T9, T10, T11, T12, T13, T14, T15, T16, T17> JoinableTuple<(T10, T11, T12, T13, T14, T15, T16, T17)> for (T1, T2, T3, T4, T5, T6, T7, T8, T9) {
    type Join = (T1, T2, T3, T4, T5, T6, T7, T8, T9, T10, T11, T12, T13, T14, T15, T16, T17);

    open spec fn spec_join(self, other: (T10, T11, T12, T13, T14, T15, T16, T17)) -> (T1, T2, T3, T4, T5, T6, T7, T8, T9, T10, T11, T12, T13, T14, T15, T16, T17) {
        (self.0, self.1, self.2, self.3, self.4, self.5, self.6, self.7, self.8, other.0, other.1, other.2, other.3, other.4, other.5, other.6, other.7)
    }

    fn join(self, other: (T10, T11, T12, T13, T14, T15, T16, T17)) -> (r: (T1, T2, T3, T4, T5, T6, T7, T8, T9, T10, T11, T12, T13, T14, T15, T16, T17)) {
        (self.0, self.1, self.2, self.3, self.4, self.5, self.6, self.7, self.8, other.0, other.1, other.2, other.3, other.4, other.5, other.6, other.7)
    }

    proof fn lemma_join_arity(self, other: (T10, T11, T12, T13, T14, T15, T16, T17)) {
    }
}

impl<T1, T2, T3, T4, T5, T6, T7, T8, T9, T10, T11, T12, T13, T14, T15, T16, T17> JoinableTuple<(T11, T12, T13, T14, T15, T16, T17)> for (T1, T2, T3, T4, T5, T6, T7, T8, T9, T10) {
    type Join = (T1, T2, T3, T4, T5, T6, T7, T8, T9, T10, T11, T12, T13, T14, T15, T16, T17);

    open spec fn spec_join(self, other: (T11, T12, T13, T14, T15, T16, T17)) -> (T1, T2, T3, T4, T5, T6, T7, T8, T9, T10, T11, T12, T13, T14, T15, T16, T17) {
        (self.0, self.1, self.2, self.3, self.4, self.5, self.6, self.7, self.8, self.9, other.0, other.1, other.2, other.3, other.4, other.5, other.6)
    }

    fn join(self, other: (T11, T12, T13, T14, T15, T16, T17)) -> (r: (T1, T2, T3, T4, T5, T6, T7, T8, T9, T10, T11, T12, T13, T14, T15, T16, T17)) {
        (self.0, self.1, self.2, self.3, self.4, self.5, self.6, self.7, self.8, self.9, other.0, other.1, other.2, other.3, other.4, other.5, other.6)
    }

    proof fn lemma_join_arity(self, other: (T11, T12, T13, T14, T15, T16, T17)) {
    }
}

impl<T1, T2, T3, T4, T5, T6, T7, T8, T9, T10, T11, T12, T13, T14, T15, T16, T17> JoinableTuple<(T12, T13, T14, T15, T16, T17)> for (T1, T2, T3, T4, T5, T6, T7, T8, T9, T10, T11) {
    type Join = (T1, T2, T3, T4, T5, T6, T7, T8, T9, T10, T11, T12, T13, T14, T15, T16, T17);

    open spec fn spec_join(self, other: (T12, T13, T14, T15, T16, T17)) -> (T1, T2, T3, T4, T5, T6, T7, T8, T9, T10, T11, T12, T13, T14, T15, T16, T17) {
        (self.0, self.1, self.2, self.3, self.4, self.5, self.6, self.7, self.8, self.9, self.10, other.0, other.1, other.2, other.3, other.4, other.5)
    }

    fn join(self, other: (T12, T13, T14, T15, T16, T17)) -> (r: (T1, T2, T3, T4, T5, T6, T7, T8, T9, T10, T11, T12, T13, T14, T15, T16, T17)) {
        (self.0, self.1, self.2, self.3, self.4, self.5, self.6, self.7, self.8, self.9, self.10, other.0, other.1, other.2, other.3, other.4, other.5)
    }

    proof fn lemma_join_arity(self, other: (T12, T13, T14, T15, T16, T17)) {
    }
}

impl<T1, T2, T3, T4, T5, T6, T7, T8, T9, T10, T11, T12, T13, T14, T15, T16, T17> JoinableTuple<(T13, T14, T15, T16, T17)> for (T1, T2, T3, T4, T5, T6, T7, T8, T9, T10, T11, T12) {
    type Join = (T1, T2, T3, T4, T5, T6, T7, T8, T9, T10, T11, T12, T13, T14, T15, T16, T17);

    open spec fn spec_join(self, other: (T13, T14, T15, T16, T17)) -> (T1, T2, T3, T4, T5, T6, T7, T8, T9, T10, T11, T12, T13, T14, T15, T16, T17) {
        (self.0, self.1, self.2, self.3, self.4, self.5, self.6, self.7, self.8, self.9, self.10, self.11, other.0, other.1, other.2, other.3, other.4)
    }

    fn join(self, other: (T13, T14, T15, T16, T17)) -> (r: (T1, T2, T3, T4, T5, T6, T7, T8, T9, T10, T11, T12, T13, T14, T15, T16, T17)) {
        (self.0, self.1, self.2, self.3, self.4, self.5, self.6, self.7, self.8, self.9, self.10, self.11, other.0, other.1, other.2, other.3, other.4)
    }

    proof fn lemma_join_arity(self, other: (T13, T14, T15, T16, T17)) {
    }
}

impl<T1, T2, T3, T4, T5, T6, T7, T8, T9, T10, T11, T12, T13, T14, T15, T16, T17> JoinableTuple<(T14, T15, T16, T17)> for (T1, T2, T3, T4, T5, T6, T7, T8, T9, T10, T11, T12, T13) {
    type Join = (T1, T2, T3, T4, T5, T6, T7, T8, T9, T10, T11, T12, T13, T14, T15, T16, T17);

    open spec fn spec_join(self, other: (T14, T15, T16, T17)) -> (T1, T2, T3, T4, T5, T6, T7, T8, T9, T10, T11, T12, T13, T14, T15, T16, T17) {
        (self.0, self.1, self.2, self.3, self.4, self.5, self.6, self.7, self.8, self.9, self.10, self.11, self.12, other.0, other.1, other.2, other.3)
    }

    fn join(self, other: (T14, T15, T16, T17)) -> (r: (T1, T2, T3, T4, T5, T6, T7, T8, T9, T10, T11, T12, T13, T14, T15, T16, T17)) {
        (self.0, self.1, self.2, self.3, self.4, self.5, self.6, self.7, self.8, self.9, self.10, self.11, self.12, other.0, other.1, other.2, other.3)
    }

    proof fn lemma_join_arity(self, other: (T14, T15, T16, T17)) {
    }
}

impl<T1, T2, T3, T4, T5, T6, T7, T8, T9, T10, T11, T12, T13, T14, T15, T16, T17> JoinableTuple<(T15, T16, T17)> for (T1, T2, T3, T4, T5, T6, T7, T8, T9, T10, T11, T12, T13, T14) {
    type Join = (T1, T2, T3, T4, T5, T6, T7, T8, T9, T10, T11, T12, T13, T14, T15, T16, T17);

    open spec fn spec_join(self, other: (T15, T16, T17)) -> (T1, T2, T3, T4, T5, T6, T7, T8, T9, T10, T11, T12, T13, T14, T15, T16, T17) {
        (self.0, self.1, self.2, self.3, self.4, self.5, self.6, self.7, self.8, self.9, self.10, self.11, self.12, self.13, other.0, other.1, other.2)
    }

    fn join(self, other: (T15, T16, T17)) -> (r: (T1, T2, T3, T4, T5, T6, T7, T8, T9, T10, T11, T12, T13, T14, T15, T16, T17)) {
        (self.0, self.1, self.2, self.3, self.4, self.5, self.6, self.7, self.8, self.9, self.10, self.11, self.12, self.13, other.0, other.1, other.2)
    }

    proof fn lemma_join_arity(self, other: (T15, T16, T17)) {
    }
}

impl<T1, T2, T3, T4, T5, T6, T7, T8, T9, T10, T11, T12, T13, T14, T15, T16, T17> JoinableTuple<(T16, T17)> for (T1, T2, T3, T4, T5, T6, T7, T8, T9, T10, T11, T12, T13, T14, T15) {
    type Join = (T1, T2, T3, T4, T5, T6, T7, T8, T9, T10, T11, T12, T13, T14, T15, T16, T17);

    open spec fn spec_join(self, other: (T16, T17)) -> (T1, T2, T3, T4, T5, T6, T7, T8, T9, T10, T11, T12, T13, T14, T15, T16, T17) {
        (self.0, self.1, self.2, self.3, self.4, self.5, self.6, self.7, self.8, self.9, self.10, self.11, self.12, self.13, self.14, other.0, other.1)
    }

    fn join(self, other: (T16, T17)) -> (r: (T1, T2, T3, T4, T5, T6, T7, T8, T9, T10, T11, T12, T13, T14, T15, T16, T17)) {
        (self.0, self.1, self.2, self.3, self.4, self.5, self.6, self.7, self.8, self.9, self.10, self.11, self.12, self.13, self.14, other.0, other.1)
    }

    proof fn lemma_join_arity(self, other: (T16, T17)) {
    }
}

impl<T1, T2, T3, T4, T5, T6, T7, T8, T9, T10, T11, T12, T13, T14, T15, T16, T17> JoinableTuple<(T17,)> for (T1, T2, T3, T4, T5, T6, T7, T8, T9, T10, T11, T12, T13, T14, T15, T16) {
    type Join = (T1, T2, T3, T4, T5, T6, T7, T8, T9, T10, T11, T12, T13, T14, T15, T16, T17);

    open spec fn spec_join(self, other: (T17,)) -> (T1, T2, T3, T4, T5, T6, T7, T8, T9, T10, T11, T12, T13, T14, T15, T16, T17) {
        (self.0, self.1, self.2, self.3, self.4, self.5, self.6, self.7, self.8, self.9, self.10, self.11, self.12, self.13, self.14, self.15, other.0)
    }

    fn join(self, other: (T17,)) -> (r: (T1, T2, T3, T4, T5, T6, T7, T8, T9, T10, T11, T12, T13, T14, T15, T16, T17)) {
        (self.0, self.1, self.2, self.3, self.4, self.5, self.6, self.7, self.8, self.9, self.10, self.11, self.12, self.13, self.14, self.15, other.0)
    }

    proof fn lemma_join_arity(self, other: (T17,)) {
    }
}

impl<T1, T2, T3, T4, T5, T6, T7, T8, T9, T10, T11, T12, T13, T14, T15, T16, T17> JoinableTuple<()> for (T1, T2, T3, T4, T5, T6, T7, T8, T9, T10, T11, T12, T13, T14, T15, T16, T17) {
    type Join = (T1, T2, T3, T4, T5, T6, T7, T8, T9, T10, T11, T12, T13, T14, T15, T16, T17);

    open spec fn spec_join(self, other: ()) -> (T1, T2, T3, T4, T5, T6, T7, T8, T9, T10, T11, T12, T13, T14, T15, T16, T17) {
        (self.0, self.1, self.2, self.3, self.4, self.5, self.6, self.7, self.8, self.9, self.10, self.11, self.12, self.13, self.14, self.15, self.16)
    }

    fn join(self, other: ()) -> (r: (T1, T2, T3, T4, T5, T6, T7, T8, T9, T10, T11, T12, T13, T14, T15, T16, T17)) {
        (self.0, self.1, self.2, self.3, self.4, self.5, self.6, self.7, self.8, self.9, self.10, self.11, self.12, self.13, self.14, self.15, self.16)
    }

    proof fn lemma_join_arity(self, other: ()) {
    }
}

impl<T1, T2, T3, T4, T5, T6, T7, T8, T9, T10, T11, T12, T13, T14, T15, T16, T17, T18> Sealed for (T1, T2, T3, T4, T5, T6, T7, T8, T9, T10, T11, T12, T13, T14, T15, T16, T17, T18) {}

impl<T1, T2, T3, T4, T5, T6, T7, T8, T9, T10, T11, T12, T13, T14, T15, T16, T17, T18> DynTuple for (T1, T2, T3, T4, T5, T6, T7, T8, T9, T10, T11, T12, T13, T14, T15, T16, T17, T18) {
    open spec fn spec_arity(&self) -> nat {
        18
    }

    fn arity(&self) -> (r: usize) {
        18
    }
}

impl<T1, T2, T3, T4, T5, T6, T7, T8, T9, T10, T11, T12, T13, T14, T15, T16, T17, T18> Tuple for (T1, T2, T3, T4, T5, T6, T7, T8, T9, T10, T11, T12, T13, T14, T15, T16, T17, T18) {
    const ARITY: usize = 18;

    open spec fn spec_type_arity() -> nat {
        18
    }

    proof fn lemma_arity(&self) {
    }

    proof fn lemma_type_arity() {
    }
}

impl<T1, T2, T3, T4, T5, T6, T7, T8, T9, T10, T11, T12, T13, T14, T15, T16, T17, T18, T> GrowableTuple<T> for (T1, T2, T3, T4, T5, T6, T7, T8, T9, T10, T11, T12, T13, T14, T15, T16, T17, T18) {
    type Append = (T1, T2, T3, T4, T5, T6, T7, T8, T9, T10, T11, T12, T13, T14, T15, T16, T17, T18, T);

    type Prepend = (T, T1, T2, T3, T4, T5, T6, T7, T8, T9, T10, T11, T12, T13, T14, T15, T16, T17, T18);

    open spec fn spec_append(self, value: T) -> (T1, T2, T3, T4, T5, T6, T7, T8, T9, T10, T11, T12, T13, T14, T15, T16, T17, T18, T) {
        (self.0, self.1, self.2, self.3, self.4, self.5, self.6, self.7, self.8, self.9, self.10, self.11, self.12, self.13, self.14, self.15, self.16, self.17, value)
    }

    open spec fn spec_prepend(self, value: T) -> (T, T1, T2, T3, T4, T5, T6, T7, T8, T9, T10, T11, T12, T13, T14, T15, T16, T17, T18) {
        (value, self.0, self.1, self.2, self.3, self.4, self.5, self.6, self.7, self.8, self.9, self.10, self.11, self.12, self.13, self.14, self.15, self.16, self.17)
    }

    fn append(self, value: T) -> (r: (T1, T2, T3, T4, T5, T6, T7, T8, T9, T10, T11, T12, T13, T14, T15, T16, T17, T18, T)) {
        (self.0, self.1, self.2, self.3, self.4, self.5, self.6, self.7, self.8, self.9, self.10, self.11, self.12, self.13, self.14, self.15, self.16, self.17, value)
    }

    fn prepend(self, value: T) -> (r: (T, T1, T2, T3, T4, T5, T6, T7, T8, T9, T10, T11, T12, T13, T14, T15, T16, T17, T18)) {
        (value, self.0, self.1, self.2, self.3, self.4, self.5, self.6, self.7, self.8, self.9, self.10, self.11, self.12, self.13, self.14, self.15, self.16, self.17)
    }

    proof fn lemma_grow_arity(self, value: T) {
    }
}

impl<T1, T2, T3, T4, T5, T6, T7, T8, T9, T10, T11, T12, T13, T14, T15, T16, T17, T18> NonEmptyTuple for (T1, T2, T3, T4, T5, T6, T7, T8, T9, T10, T11, T12, T13, T14, T15, T16, T17, T18) {
    type Head = T1;

    type Tail = T18;

    type TruncateHead = (T2, T3, T4, T5, T6, T7, T8, T9, T10, T11, T12, T13, T14, T15, T16, T17, T18);

    type TruncateTail = (T1, T2, T3, T4, T5, T6, T7, T8, T9, T10, T11, T12, T13, T14, T15, T16, T17);

    open spec fn spec_head(&self) -> T1 {
        self.0
    }

    open spec fn spec_tail(&self) -> T18 {
        self.17
    }

    open spec fn spec_with_head(self, value: T1) -> (T1, T2, T3, T4, T5, T6, T7, T8, T9, T10, T11, T12, T13, T14, T15, T16, T17, T18) {
        (value, self.1, self.2, self.3, self.4, self.5, self.6, self.7, self.8, self.9, self.10, self.11, self.12, self.13, self.14, self.15, self.16, self.17)
    }

    open spec fn spec_with_tail(self, value: T18) -> (T1, T2, T3, T4, T5, T6, T7, T8, T9, T10, T11, T12, T13, T14, T15, T16, T17, T18) {
        (self.0, self.1, self.2, self.3, self.4, self.5, self.6, self.7, self.8, self.9, self.10, self.11, self.12, self.13, self.14, self.15, self.16, value)
    }

    open spec fn spec_truncate_head(self) -> (T1, (T2, T3, T4, T5, T6, T7, T8, T9, T10, T11, T12, T13, T14, T15, T16, T17, T18)) {
        (self.0, (self.1, self.2, self.3, self.4, self.5, self.6, self.7, self.8, self.9, self.10, self.11, self.12, self.13, self.14, self.15, self.16, self.17))
    }

    open spec fn spec_truncate_tail(self) -> ((T1, T2, T3, T4, T5, T6, T7, T8, T9, T10, T11, T12, T13, T14, T15, T16, T17), T18) {
        ((self.0, self.1, self.2, self.3, self.4, self.5, self.6, self.7, self.8, self.9, self.10, self.11, self.12, self.13, self.14, self.15, self.16), self.17)
    }

    fn head(&self) -> (r: &T1) {
        &self.0
    }

    fn head_mut(&mut self) -> (r: &mut T1) {
        &mut self.0
    }

    fn tail(&self) -> (r: &T18) {
        &self.17
    }

    fn tail_mut(&mut self) -> (r: &mut T18) {
        &mut self.17
    }

    fn truncate_head(self) -> (r: (T1, (T2, T3, T4, T5, T6, T7, T8, T9, T10, T11, T12, T13, T14, T15, T16, T17, T18))) {
        (self.0, (self.1, self.2, self.3, self.4, self.5, self.6, self.7, self.8, self.9, self.10, self.11, self.12, self.13, self.14, self.15, self.16, self.17))
    }

    fn truncate_tail(self) -> (r: ((T1, T2, T3, T4, T5, T6, T7, T8, T9, T10, T11, T12, T13, T14, T15, T16, T17), T18)) {
        ((self.0, self.1, self.2, self.3, self.4, self.5, self.6, self.7, self.8, self.9, self.10, self.11, self.12, self.13, self.14, self.15, self.16), self.17)
    }

    proof fn lemma_truncate_head(self) {
    }

    proof fn lemma_truncate_tail(self) {
    }
}

impl<T1, T2, T3, T4, T5, T6, T7, T8, T9, T10, T11, T12, T13, T14, T15, T16, T17, T18> NonUnaryTuple for (T1, T2, T3, T4, T5, T6, T7, T8, T9, T10, T11, T12, T13, T14, T15, T16, T17, T18) {
    type TruncateHeadTail = (T2, T3, T4, T5, T6, T7, T8, T9, T10, T11, T12, T13, T14, T15, T16, T17);

    open spec fn spec_truncate_head_tail(self) -> (T1, (T2, T3, T4, T5, T6, T7, T8, T9, T10, T11, T12, T13, T14, T15, T16, T17), T18) {
        (self.0, (self.1, self.2, self.3, self.4, self.5, self.6, self.7, self.8, self.9, self.10, self.11, self.12, self.13, self.14, self.15, self.16), self.17)
    }

    fn head_tail(&self) -> (r: (&T1, &T18)) {
        (&self.0, &self.17)
    }

    fn head_tail_mut(&mut self) -> (r: (&mut T1, &mut T18)) {
        (&mut self.0, &mut self.17)
    }

    fn truncate_head_tail(self) -> (r: (T1, (T2, T3, T4, T5, T6, T7, T8, T9, T10, T11, T12, T13, T14, T15, T16, T17), T18)) {
        (self.0, (self.1, self.2, self.3, self.4, self.5, self.6, self.7, self.8, self.9, self.10, self.11, self.12, self.13, self.14, self.15, self.16), self.17)
    }

    proof fn lemma_truncate_head_tail(self) {
    }
}

impl<T1, T2, T3, T4, T5, T6, T7, T8, T9, T10, T11, T12, T13, T14, T15, T16, T17, T18> IndexableTuple<0> for (T1, T2, T3, T4, T5, T6, T7, T8, T9, T10, T11, T12, T13, T14, T15, T16, T17, T18) {
    type Value = T1;

    open spec fn spec_index(&self) -> T1 {
        self.0
    }

    open spec fn spec_with_index(self, value: T1) -> (T1, T2, T3, T4, T5, T6, T7, T8, T9, T10, T11, T12, T13, T14, T15, T16, T17, T18) {
        (value, self.1, self.2, self.3, self.4, self.5, self.6, self.7, self.8, self.9, self.10, self.11, self.12, self.13, self.14, self.15, self.16, self.17)
    }

    fn index_ref(&self) -> (r: &T1) {
        &self.0
    }

    fn index_mut(&mut self) -> (r: &mut T1) {
        &mut self.0
    }

    fn into_index(self) -> (r: T1) {
        self.0
    }

    proof fn lemma_index_in_range(&self) {
    }
}

impl<T1, T2, T3, T4, T5, T6, T7, T8, T9, T10, T11, T12, T13, T14, T15, T16, T17, T18> IndexableTuple<1> for (T1, T2, T3, T4, T5, T6, T7, T8, T9, T10, T11, T12, T13, T14, T15, T16, T17, T18) {
    type Value = T2;

    open spec fn spec_index(&self) -> T2 {
        self.1
    }

    open spec fn spec_with_index(self, value: T2) -> (T1, T2, T3, T4, T5, T6, T7, T8, T9, T10, T11, T12, T13, T14, T15, T16, T17, T18) {
        (self.0, value, self.2, self.3, self.4, self.5, self.6, self.7, self.8, self.9, self.10, self.11, self.12, self.13, self.14, self.15, self.16, self.17)
    }

    fn index_ref(&self) -> (r: &T2) {
        &self.1
    }

    fn index_mut(&mut self) -> (r: &mut T2) {
        &mut self.1
    }

    fn into_index(self) -> (r: T2) {
        self.1
    }

    proof fn lemma_index_in_range(&self) {
    }
}

impl<T1, T2, T3, T4, T5, T6, T7, T8, T9, T10, T11, T12, T13, T14, T15, T16, T17, T18> IndexableTuple<2> for (T1, T2, T3, T4, T5, T6, T7, T8, T9, T10, T11, T12, T13, T14, T15, T16, T17, T18) {
    type Value = T3;

    open spec fn spec_index(&self) -> T3 {
        self.2
    }

    open spec fn spec_with_index(self, value: T3) -> (T1, T2, T3, T4, T5, T6, T7, T8, T9, T10, T11, T12, T13, T14, T15, T16, T17, T18) {
        (self.0, self.1, value, self.3, self.4, self.5, self.6, self.7, self.8, self.9, self.10, self.11, self.12, self.13, self.14, self.15, self.16, self.17)
    }

    fn index_ref(&self) -> (r: &T3) {
        &self.2
    }

    fn index_mut(&mut self) -> (r: &mut T3) {
        &mut self.2
    }

    fn into_index(self) -> (r: T3) {
        self.2
    }

    proof fn lemma_index_in_range(&self) {
    }
}

impl<T1, T2, T3, T4, T5, T6, T7, T8, T9, T10, T11, T12, T13, T14, T15, T16, T17, T18> IndexableTuple<3> for (T1, T2, T3, T4, T5, T6, T7, T8, T9, T10, T11, T12, T13, T14, T15, T16, T17, T18) {
    type Value = T4;

    open spec fn spec_index(&self) -> T4 {
        self.3
    }

    open spec fn spec_with_index(self, value: T4) -> (T1, T2, T3, T4, T5, T6, T7, T8, T9, T10, T11, T12, T13, T14, T15, T16, T17, T18) {
        (self.0, self.1, self.2, value, self.4, self.5, self.6, self.7, self.8, self.9, self.10, self.11, self.12, self.13, self.14, self.15, self.16, self.17)
    }

    fn index_ref(&self) -> (r: &T4) {
        &self.3
    }

    fn index_mut(&mut self) -> (r: &mut T4) {
        &mut self.3
    }

    fn into_index(self) -> (r: T4) {
        self.3
    }

    proof fn lemma_index_in_range(&self) {
    }
}

impl<T1, T2, T3, T4, T5, T6, T7, T8, T9, T10, T11, T12, T13, T14, T15, T16, T17, T18> IndexableTuple<4> for (T1, T2, T3, T4, T5, T6, T7, T8, T9, T10, T11, T12, T13, T14, T15, T16, T17, T18) {
    type Value = T5;

    open spec fn spec_index(&self) -> T5 {
        self.4
    }

    open spec fn spec_with_index(self, value: T5) -> (T1, T2, T3, T4, T5, T6, T7, T8, T9, T10, T11, T12, T13, T14, T15, T16, T17, T18) {
        (self.0, self.1, self.2, self.3, value, self.5, self.6, self.7, self.8, self.9, self.10, self.11, self.12, self.13, self.14, self.15, self.16, self.17)
    }

    fn index_ref(&self) -> (r: &T5) {
        &self.4
    }

    fn index_mut(&mut self) -> (r: &mut T5) {
        &mut self.4
    }

    fn into_index(self) -> (r: T5) {
        self.4
    }

    proof fn lemma_index_in_range(&self) {
    }
}

impl<T1, T2, T3, T4, T5, T6, T7, T8, T9, T10, T11, T12, T13, T14, T15, T16, T17, T18> IndexableTuple<5> for (T1, T2, T3, T4, T5, T6, T7, T8, T9, T10, T11, T12, T13, T14, T15, T16, T17, T18) {
    type Value = T6;

    open spec fn spec_index(&self) -> T6 {
        self.5
    }

    open spec fn spec_with_index(self, value: T6) -> (T1, T2, T3, T4, T5, T6, T7, T8, T9, T10, T11, T12, T13, T14, T15, T16, T17, T18) {
        (self.0, self.1, self.2, self.3, self.4, value, self.6, self.7, self.8, self.9, self.10, self.11, self.12, self.13, self.14, self.15, self.16, self.17)
    }

    fn index_ref(&self) -> (r: &T6) {
        &self.5
    }

    fn index_mut(&mut self) -> (r: &mut T6) {
        &mut self.5
    }

    fn into_index(self) -> (r: T6) {
        self.5
    }

    proof fn lemma_index_in_range(&self) {
    }
}

impl<T1, T2, T3, T4, T5, T6, T7, T8, T9, T10, T11, T12, T13, T14, T15, T16, T17, T18> IndexableTuple<6> for (T1, T2, T3, T4, T5, T6, T7, T8, T9, T10, T11, T12, T13, T14, T15, T16, T17, T18) {
    type Value = T7;

    open spec fn spec_index(&self) -> T7 {
        self.6
    }

    open spec fn spec_with_index(self, value: T7) -> (T1, T2, T3, T4, T5, T6, T7, T8, T9, T10, T11, T12, T13, T14, T15, T16, T17, T18) {
        (self.0, self.1, self.2, self.3, self.4, self.5, value, self.7, self.8, self.9, self.10, self.11, self.12, self.13, self.14, self.15, self.16, self.17)
    }

    fn index_ref(&self) -> (r: &T7) {
        &self.6
    }

    fn index_mut(&mut self) -> (r: &mut T7) {
        &mut self.6
    }

    fn into_index(self) -> (r: T7) {
        self.6
    }

    proof fn lemma_index_in_range(&self) {
    }
}

impl<T1, T2, T3, T4, T5, T6, T7, T8, T9, T10, T11, T12, T13, T14, T15, T16, T17, T18> IndexableTuple<7> for (T1, T2, T3, T4, T5, T6, T7, T8, T9, T10, T11, T12, T13, T14, T15, T16, T17, T18) {
    type Value = T8;

    open spec fn spec_index(&self) -> T8 {
        self.7
    }

    open spec fn spec_with_index(self, value: T8) -> (T1, T2, T3, T4, T5, T6, T7, T8, T9, T10, T11, T12, T13, T14, T15, T16, T17, T18) {
        (self.0, self.1, self.2, self.3, self.4, self.5, self.6, value, self.8, self.9, self.10, self.11, self.12, self.13, self.14, self.15, self.16, self.17)
    }

    fn index_ref(&self) -> (r: &T8) {
        &self.7
    }

    fn index_mut(&mut self) -> (r: &mut T8) {
        &mut self.7
    }

    fn into_index(self) -> (r: T8) {
        self.7
    }

    proof fn lemma_index_in_range(&self) {
    }
}

impl<T1, T2, T3, T4, T5, T6, T7, T8, T9, T10, T11, T12, T13, T14, T15, T16, T17, T18> IndexableTuple<8> for (T1, T2, T3, T4, T5, T6, T7, T8, T9, T10, T11, T12, T13, T14, T15, T16, T17, T18) {
    type Value = T9;

    open spec fn spec_index(&self) -> T9 {
        self.8
    }

    open spec fn spec_with_index(self, value: T9) -> (T1, T2, T3, T4, T5, T6, T7, T8, T9, T10, T11, T12, T13, T14, T15, T16, T17, T18) {
        (self.0, self.1, self.2, self.3, self.4, self.5, self.6, self.7, value, self.9, self.10, self.11, self.12, self.13, self.14, self.15, self.16, self.17)
    }

    fn index_ref(&self) -> (r: &T9) {
        &self.8
    }

    fn index_mut(&mut self) -> (r: &mut T9) {
        &mut self.8
    }

    fn into_index(self) -> (r: T9) {
        self.8
    }

    proof fn lemma_index_in_range(&self) {
    }
}

impl<T1, T2, T3, T4, T5, T6, T7, T8, T9, T10, T11, T12, T13, T14, T15, T16, T17, T18> IndexableTuple<9> for (T1, T2, T3, T4, T5, T6, T7, T8, T9, T10, T11, T12, T13, T14, T15, T16, T17, T18) {
    type Value = T10;

    open spec fn spec_index(&self) -> T10 {
        self.9
    }

    open spec fn spec_with_index(self, value: T10) -> (T1, T2, T3, T4, T5, T6, T7, T8, T9, T10, T11, T12, T13, T14, T15, T16, T17, T18) {
        (self.0, self.1, self.2, self.3, self.4, self.5, self.6, self.7, self.8, value, self.10, self.11, self.12, self.13, self.14, self.15, self.16, self.17)
    }

    fn index_ref(&self) -> (r: &T10) {
        &self.9
    }

    fn index_mut(&mut self) -> (r: &mut T10) {
        &mut self.9
    }

    fn into_index(self) -> (r: T10) {
        self.9
    }

    proof fn lemma_index_in_range(&self) {
    }
}

impl<T1, T2, T3, T4, T5, T6, T7, T8, T9, T10, T11, T12, T13, T14, T15, T16, T17, T18> IndexableTuple<10> for (T1, T2, T3, T4, T5, T6, T7, T8, T9, T10, T11, T12, T13, T14, T15, T16, T17, T18) {
    type Value = T11;

    open spec fn spec_index(&self) -> T11 {
        self.10
    }

    open spec fn spec_with_index(self, value: T11) -> (T1, T2, T3, T4, T5, T6, T7, T8, T9, T10, T11, T12, T13, T14, T15, T16, T17, T18) {
        (self.0, self.1, self.2, self.3, self.4, self.5, self.6, self.7, self.8, self.9, value, self.11, self.12, self.13, self.14, self.15, self.16, self.17)
    }

    fn index_ref(&self) -> (r: &T11) {
        &self.10
    }

    fn index_mut(&mut self) -> (r: &mut T11) {
        &mut self.10
    }

    fn into_index(self) -> (r: T11) {
        self.10
    }

    proof fn lemma_index_in_range(&self) {
    }
}

impl<T1, T2, T3, T4, T5, T6, T7, T8, T9, T10, T11, T12, T13, T14, T15, T16, T17, T18> IndexableTuple<11> for (T1, T2, T3, T4, T5, T6, T7, T8, T9, T10, T11, T12, T13, T14, T15, T16, T17, T18) {
    type Value = T12;

    open spec fn spec_index(&self) -> T12 {
        self.11
    }

    open spec fn spec_with_index(self, value: T12) -> (T1, T2, T3, T4, T5, T6, T7, T8, T9, T10, T11, T12, T13, T14, T15, T16, T17, T18) {
        (self.0, self.1, self.2, self.3, self.4, self.5, self.6, self.7, self.8, self.9, self.10, value, self.12, self.13, self.14, self.15, self.16, self.17)
    }

    fn index_ref(&self) -> (r: &T12) {
        &self.11
    }

    fn index_mut(&mut self) -> (r: &mut T12) {
        &mut self.11
    }

    fn into_index(self) -> (r: T12) {
        self.11
    }

    proof fn lemma_index_in_range(&self) {
    }
}

impl<T1, T2, T3, T4, T5, T6, T7, T8, T9, T10, T11, T12, T13, T14, T15, T16, T17, T18> IndexableTuple<12> for (T1, T2, T3, T4, T5, T6, T7, T8, T9, T10, T11, T12, T13, T14, T15, T16, T17, T18) {
    type Value = T13;

    open spec fn spec_index(&self) -> T13 {
        self.12
    }

    open spec fn spec_with_index(self, value: T13) -> (T1, T2, T3, T4, T5, T6, T7, T8, T9, T10, T11, T12, T13, T14, T15, T16, T17, T18) {
        (self.0, self.1, self.2, self.3, self.4, self.5, self.6, self.7, self.8, self.9, self.10, self.11, value, self.13, self.14, self.15, self.16, self.17)
    }

    fn index_ref(&self) -> (r: &T13) {
        &self.12
    }

    fn index_mut(&mut self) -> (r: &mut T13) {
        &mut self.12
    }

    fn into_index(self) -> (r: T13) {
        self.12
    }

    proof fn lemma_index_in_range(&self) {
    }
}

impl<T1, T2, T3, T4, T5, T6, T7, T8, T9, T10, T11, T12, T13, T14, T15, T16, T17, T18> IndexableTuple<13> for (T1, T2, T3, T4, T5, T6, T7, T8, T9, T10, T11, T12, T13, T14, T15, T16, T17, T18) {
    type Value = T14;

    open spec fn spec_index(&self) -> T14 {
        self.13
    }

    open spec fn spec_with_index(self, value: T14) -> (T1, T2, T3, T4, T5, T6, T7, T8, T9, T10, T11, T12, T13, T14, T15, T16, T17, T18) {
        (self.0, self.1, self.2, self.3, self.4, self.5, self.6, self.7, self.8, self.9, self.10, self.11, self.12, value, self.14, self.15, self.16, self.17)
    }

    fn index_ref(&self) -> (r: &T14) {
        &self.13
    }

    fn index_mut(&mut self) -> (r: &mut T14) {
        &mut self.13
    }

    fn into_index(self) -> (r: T14) {
        self.13
    }

    proof fn lemma_index_in_range(&self) {
    }
}

impl<T1, T2, T3, T4, T5, T6, T7, T8, T9, T10, T11, T12, T13, T14, T15, T16, T17, T18> IndexableTuple<14> for (T1, T2, T3, T4, T5, T6, T7, T8, T9, T10, T11, T12, T13, T14, T15, T16, T17, T18) {
    type Value = T15;

    open spec fn spec_index(&self) -> T15 {
        self.14
    }

    open spec fn spec_with_index(self, value: T15) -> (T1, T2, T3, T4, T5, T6, T7, T8, T9, T10, T11, T12, T13, T14, T15, T16, T17, T18) {
        (self.0, self.1, self.2, self.3, self.4, self.5, self.6, self.7, self.8, self.9, self.10, self.11, self.12, self.13, value, self.15, self.16, self.17)
    }

    fn index_ref(&self) -> (r: &T15) {
        &self.14
    }

    fn index_mut(&mut self) -> (r: &mut T15) {
        &mut self.14
    }

    fn into_index(self) -> (r: T15) {
        self.14
    }

    proof fn lemma_index_in_range(&self) {
    }
}

impl<T1, T2, T3, T4, T5, T6, T7, T8, T9, T10, T11, T12, T13, T14, T15, T16, T17, T18> IndexableTuple<15> for (T1, T2, T3, T4, T5, T6, T7, T8, T9, T10, T11, T12, T13, T14, T15, T16, T17, T18) {
    type Value = T16;

    open spec fn spec_index(&self) -> T16 {
        self.15
    }

    open spec fn spec_with_index(self, value: T16) -> (T1, T2, T3, T4, T5, T6, T7, T8, T9, T10, T11, T12, T13, T14, T15, T16, T17, T18) {
        (self.0, self.1, self.2, self.3, self.4, self.5, self.6, self.7, self.8, self.9, self.10, self.11, self.12, self.13, self.14, value, self.16, self.17)
    }

    fn index_ref(&self) -> (r: &T16) {
        &self.15
    }

    fn index_mut(&mut self) -> (r: &mut T16) {
        &mut self.15
    }

    fn into_index(self) -> (r: T16) {
        self.15
    }

    proof fn lemma_index_in_range(&self) {
    }
}

impl<T1, T2, T3, T4, T5, T6, T7, T8, T9, T10, T11, T12, T13, T14, T15, T16, T17, T18> IndexableTuple<16> for (T1, T2, T3, T4, T5, T6, T7, T8, T9, T10, T11, T12, T13, T14, T15, T16, T17, T18) {
    type Value = T17;

    open spec fn spec_index(&self) -> T17 {
        self.16
    }

    open spec fn spec_with_index(self, value: T17) -> (T1, T2, T3, T4, T5, T6, T7, T8, T9, T10, T11, T12, T13, T14, T15, T16, T17, T18) {
        (self.0, self.1, self.2, self.3, self.4, self.5, self.6, self.7, self.8, self.9, self.10, self.11, self.12, self.13, self.14, self.15, value, self.17)
    }

    fn index_ref(&self) -> (r: &T17) {
        &self.16
    }

    fn index_mut(&mut self) -> (r: &mut T17) {
        &mut self.16
    }

    fn into_index(self) -> (r: T17) {
        self.16
    }

    proof fn lemma_index_in_range(&self) {
    }
}

impl<T1, T2, T3, T4, T5, T6, T7, T8, T9, T10, T11, T12, T13, T14, T15, T16, T17, T18> IndexableTuple<17> for (T1, T2, T3, T4, T5, T6, T7, T8, T9, T10, T11, T12, T13, T14, T15, T16, T17, T18) {
    type Value = T18;

    open spec fn spec_index(&self) -> T18 {
        self.17
    }

    open spec fn spec_with_index(self, value: T18) -> (T1, T2, T3, T4, T5, T6, T7, T8, T9, T10, T11, T12, T13, T14, T15, T16, T17, T18) {
        (self.0, self.1, self.2, self.3, self.4, self.5, self.6, self.7, self.8, self.9, self.10, self.11, self.12, self.13, self.14, self.15, self.16, value)
    }

    fn index_ref(&self) -> (r: &T18) {
        &self.17
    }

    fn index_mut(&mut self) -> (r: &mut T18) {
        &mut self.17
    }

    fn into_index(self) -> (r: T18) {
        self.17
    }

    proof fn lemma_index_in_range(&self) {
    }
}

impl<T1, T2, T3, T4, T5, T6, T7, T8, T9, T10, T11, T12, T13, T14, T15, T16, T17, T18> JoinableTuple<(T1, T2, T3, T4, T5, T6, T7, T8, T9, T10, T11, T12, T13, T14, T15, T16, T17, T18)> for () {
    type Join = (T1, T2, T3, T4, T5, T6, T7, T8, T9, T10, T11, T12, T13, T14, T15, T16, T17, T18);

    open spec fn spec_join(self, other: (T1, T2, T3, T4, T5, T6, T7, T8, T9, T10, T11, T12, T13, T14, T15, T16, T17, T18)) -> (T1, T2, T3, T4, T5, T6, T7, T8, T9, T10, T11, T12, T13, T14, T15, T16, T17, T18) {
        (other.0, other.1, other.2, other.3, other.4, other.5, other.6, other.7, other.8, other.9, other.10, other.11, other.12, other.13, other.14, other.15, other.16, other.17)
    }

    fn join(self, other: (T1, T2, T3, T4, T5, T6, T7, T8, T9, T10, T11, T12, T13, T14, T15, T16, T17, T18)) -> (r: (T1, T2, T3, T4, T5, T6, T7, T8, T9, T10, T11, T12, T13, T14, T15, T16, T17, T18)) {
        (other.0, other.1, other.2, other.3, other.4, other.5, other.6, other.7, other.8, other.9, other.10, other.11, other.12, other.13, other.14, other.15, other.16, other.17)
    }

    proof fn lemma_join_arity(self, other: (T1, T2, T3, T4, T5, T6, T7, T8, T9, T10, T11, T12, T13, T14, T15, T16, T17, T18)) {
    }
}

impl<T1, T2, T3, T4, T5, T6, T7, T8, T9, T10, T11, T12, T13, T14, T15, T16, T17, T18> JoinableTuple<(T2, T3, T4, T5, T6, T7, T8, T9, T10, T11, T12, T13, T14, T15, T16, T17, T18)> for (T1,) {
    type Join = (T1, T2, T3, T4, T5, T6, T7, T8, T9, T10, T11, T12, T13, T14, T15, T16, T17, T18);

    open spec fn spec_join(self, other: (T2, T3, T4, T5, T6, T7, T8, T9, T10, T11, T12, T13, T14, T15, T16, T17, T18)) -> (T1, T2, T3, T4, T5, T6, T7, T8, T9, T10, T11, T12, T13, T14, T15, T16, T17, T18) {
        (self.0, other.0, other.1, other.2, other.3, other.4, other.5, other.6, other.7, other.8, other.9, other.10, other.11, other.12, other.13, other.14, other.15, other.16)
    }

    fn join(self, other: (T2, T3, T4, T5, T6, T7, T8, T9, T10, T11, T12, T13, T14, T15, T16, T17, T18)) -> (r: (T1, T2, T3, T4, T5, T6, T7, T8, T9, T10, T11, T12, T13, T14, T15, T16, T17, T18)) {
        (self.0, other.0, other.1, other.2, other.3, other.4, other.5, other.6, other.7, other.8, other.9, other.10, other.11, other.12, other.13, other.14, other.15, other.16)
    }

    proof fn lemma_join_arity(self, other: (T2, T3, T4, T5, T6, T7, T8, T9, T10, T11, T12, T13, T14, T15, T16, T17, T18)) {
    }
}

impl<T1, T2, T3, T4, T5, T6, T7, T8, T9, T10, T11, T12, T13, T14, T15, T16, T17, T18> JoinableTuple<(T3, T4, T5, T6, T7, T8, T9, T10, T11, T12, T13, T14, T15, T16, T17, T18)> for (T1, T2) {
    type Join = (T1, T2, T3, T4, T5, T6, T7, T8, T9, T10, T11, T12, T13, T14, T15, T16, T17, T18);

    open spec fn spec_join(self, other: (T3, T4, T5, T6, T7, T8, T9, T10, T11, T12, T13, T14, T15, T16, T17, T18)) -> (T1, T2, T3, T4, T5, T6, T7, T8, T9, T10, T11, T12, T13, T14, T15, T16, T17, T18) {
        (self.0, self.1, other.0, other.1, other.2, other.3, other.4, other.5, other.6, other.7, other.8, other.9, other.10, other.11, other.12, other.13, other.14, other.15)
    }

    fn join(self, other: (T3, T4, T5, T6, T7, T8, T9, T10, T11, T12, T13, T14, T15, T16, T17, T18)) -> (r: (T1, T2, T3, T4, T5, T6, T7, T8, T9, T10, T11, T12, T13, T14, T15, T16, T17, T18)) {
        (self.0, self.1, other.0, other.1, other.2, other.3, other.4, other.5, other.6, other.7, other.8, other.9, other.10, other.11, other.12, other.13, other.14, other.15)
    }

    proof fn lemma_join_arity(self, other: (T3, T4, T5, T6, T7, T8, T9, T10, T11, T12, T13, T14, T15, T16, T17, T18)) {
    }
}

impl<T1, T2, T3, T4, T5, T6, T7, T8, T9, T10, T11, T12, T13, T14, T15, T16, T17, T18> JoinableTuple<(T4, T5, T6, T7, T8, T9, T10, T11, T12, T13, T14, T15, T16, T17, T18)> for (T1, T2, T3) {
    type Join = (T1, T2, T3, T4, T5, T6, T7, T8, T9, T10, T11, T12, T13, T14, T15, T16, T17, T18);

    open spec fn spec_join(self, other: (T4, T5, T6, T7, T8, T9, T10, T11, T12, T13, T14, T15, T16, T17, T18)) -> (T1, T2, T3, T4, T5, T6, T7, T8, T9, T10, T11, T12, T13, T14, T15, T16, T17, T18) {
        (self.0, self.1, self.2, other.0, other.1, other.2, other.3, other.4, other.5, other.6, other.7, other.8, other.9, other.10, other.11, other.12, other.13, other.14)
    }

    fn join(self, other: (T4, T5, T6, T7, T8, T9, T10, T11, T12, T13, T14, T15, T16, T17, T18)) -> (r: (T1, T2, T3, T4, T5, T6, T7, T8, T9, T10, T11, T12, T13, T14, T15, T16, T17, T18)) {
        (self.0, self.1, self.2, other.0, other.1, other.2, other.3, other.4, other.5, other.6, other.7, other.8, other.9, other.10, other.11, other.12, other.13, other.14)
    }

    proof fn lemma_join_arity(self, other: (T4, T5, T6, T7, T8, T9, T10, T11, T12, T13, T14, T15, T16, T17, T18)) {
    }
}

impl<T1, T2, T3, T4, T5, T6, T7, T8, T9, T10, T11, T12, T13, T14, T15, T16, T17, T18> JoinableTuple<(T5, T6, T7, T8, T9, T10, T11, T12, T13, T14, T15, T16, T17, T18)> for (T1, T2, T3, T4) {
    type Join = (T1, T2, T3, T4, T5, T6, T7, T8, T9, T10, T11, T12, T13, T14, T15, T16, T17, T18);

    open spec fn spec_join(self, other: (T5, T6, T7, T8, T9, T10, T11, T12, T13, T14, T15, T16, T17, T18)) -> (T1, T2, T3, T4, T5, T6, T7, T8, T9, T10, T11, T12, T13, T14, T15, T16, T17, T18) {
        (self.0, self.1, self.2, self.3, other.0, other.1, other.2, other.3, other.4, other.5, other.6, other.7, other.8, other.9, other.10, other.11, other.12, other.13)
    }

    fn join(self, other: (T5, T6, T7, T8, T9, T10, T11, T12, T13, T14, T15, T16, T17, T18)) -> (r: (T1, T2, T3, T4, T5, T6, T7, T8, T9, T10, T11, T12, T13, T14, T15, T16, T17, T18)) {
        (self.0, self.1, self.2, self.3, other.0, other.1, other.2, other.3, other.4, other.5, other.6, other.7, other.8, other.9, other.10, other.11, other.12, other.13)
    }

    proof fn lemma_join_arity(self, other: (T5, T6, T7, T8, T9, T10, T11, T12, T13, T14, T15, T16, T17, T18)) {
    }
}

impl<T1, T2, T3, T4, T5, T6, T7, T8, T9, T10, T11, T12, T13, T14, T15, T16, T17, T18> JoinableTuple<(T6, T7, T8, T9, T10, T11, T12, T13, T14, T15, T16, T17, T18)> for (T1, T2, T3, T4, T5) {
    type Join = (T1, T2, T3, T4, T5, T6, T7, T8, T9, T10, T11, T12, T13, T14, T15, T16, T17, T18);

    open spec fn spec_join(self, other: (T6, T7, T8, T9, T10, T11, T12, T13, T14, T15, T16, T17, T18)) -> (T1, T2, T3, T4, T5, T6, T7, T8, T9, T10, T11, T12, T13, T14, T15, T16, T17, T18) {
        (self.0, self.1, self.2, self.3, self.4, other.0, other.1, other.2, other.3, other.4, other.5, other.6, other.7, other.8, other.9, other.10, other.11, other.12)
    }

    fn join(self, other: (T6, T7, T8, T9, T10, T11, T12, T13, T14, T15, T16, T17, T18)) -> (r: (T1, T2, T3, T4, T5, T6, T7, T8, T9, T10, T11, T12, T13, T14, T15, T16, T17, T18)) {
        (self.0, self.1, self.2, self.3, self.4, other.0, other.1, other.2, other.3, other.4, other.5, other.6, other.7, other.8, other.9, other.10, other.11, other.12)
    }

    proof fn lemma_join_arity(self, other: (T6, T7, T8, T9, T10, T11, T12, T13, T14, T15, T16, T17, T18)) {
    }
}

impl<T1, T2, T3, T4, T5, T6, T7, T8, T9, T10, T11, T12, T13, T14, T15, T16, T17, T18> JoinableTuple<(T7, T8, T9, T10, T11, T12, T13, T14, T15, T16, T17, T18)> for (T1, T2, T3, T4, T5, T6) {
    type Join = (T1, T2, T3, T4, T5, T6, T7, T8, T9, T10, T11, T12, T13, T14, T15, T16, T17, T18);

    open spec fn spec_join(self, other: (T7, T8, T9, T10, T11, T12, T13, T14, T15, T16, T17, T18)) -> (T1, T2, T3, T4, T5, T6, T7, T8, T9, T10, T11, T12, T13, T14, T15, T16, T17, T18) {
        (self.0, self.1, self.2, self.3, self.4, self.5, other.0, other.1, other.2, other.3, other.4, other.5, other.6, other.7, other.8, other.9, other.10, other.11)
    }

    fn join(self, other: (T7, T8, T9, T10, T11, T12, T13, T14, T15, T16, T17, T18)) -> (r: (T1, T2, T3, T4, T5, T6, T7, T8, T9, T10, T11, T12, T13, T14, T15, T16, T17, T18)) {
        (self.0, self.1, self.2, self.3, self.4, self.5, other.0, other.1, other.2, other.3, other.4, other.5, other.6, other.7, other.8, other.9, other.10, other.11)
    }

    proof fn lemma_join_arity(self, other: (T7, T8, T9, T10, T11, T12, T13, T14, T15, T16, T17, T18)) {
    }
}

impl<T1, T2, T3, T4, T5, T6, T7, T8, T9, T10, T11, T12, T13, T14, T15, T16, T17, T18> JoinableTuple<(T8, T9, T10, T11, T12, T13, T14, T15, T16, T17, T18)> for (T1, T2, T3, T4, T5, T6, T7) {
    type Join = (T1, T2, T3, T4, T5, T6, T7, T8, T9, T10, T11, T12, T13, T14, T15, T16, T17, T18);

    open spec fn spec_join(self, other: (T8, T9, T10, T11, T12, T13, T14, T15, T16, T17, T18)) -> (T1, T2, T3, T4, T5, T6, T7, T8, T9, T10, T11, T12, T13, T14, T15, T16, T17, T18) {
        (self.0, self.1, self.2, self.3, self.4, self.5, self.6, other.0, other.1, other.2, other.3, other.4, other.5, other.6, other.7, other.8, other.9, other.10)
    }

    fn join(self, other: (T8, T9, T10, T11, T12, T13, T14, T15, T16, T17, T18)) -> (r: (T1, T2, T3, T4, T5, T6, T7, T8, T9, T10, T11, T12, T13, T14, T15, T16, T17, T18)) {
        (self.0, self.1, self.2, self.3, self.4, self.5, self.6, other.0, other.1, other.2, other.3, other.4, other.5, other.6, other.7, other.8, other.9, other.10)
    }

    proof fn lemma_join_arity(self, other: (T8, T9, T10, T11, T12, T13, T14, T15, T16, T17, T18)) {
    }
}

impl<T1, T2, T3, T4, T5, T6, T7, T8, T9, T10, T11, T12, T13, T14, T15, T16, T17, T18> JoinableTuple<(T9, T10, T11, T12, T13, T14, T15, T16, T17, T18)> for (T1, T2, T3, T4, T5, T6, T7, T8) {
    type Join = (T1, T2, T3, T4, T5, T6, T7, T8, T9, T10, T11, T12, T13, T14, T15, T16, T17, T18);

    open spec fn spec_join(self, other: (T9, T10, T11, T12, T13, T14, T15, T16, T17, T18)) -> (T1, T2, T3, T4, T5, T6, T7, T8, T9, T10, T11, T12, T13, T14, T15, T16, T17, T18) {
        (self.0, self.1, self.2, self.3, self.4, self.5, self.6, self.7, other.0, other.1, other.2, other.3, other.4, other.5, other.6, other.7, other.8, other.9)
    }

    fn join(self, other: (T9, T10, T11, T12, T13, T14, T15, T16, T17, T18)) -> (r: (T1, T2, T3, T4, T5, T6, T7, T8, T9, T10, T11, T12, T13, T14, T15, T16, T17, T18)) {
        (self.0, self.1, self.2, self.3, self.4, self.5, self.6, self.7, other.0, other.1, other.2, other.3, other.4, other.5, other.6, other.7, other.8, other.9)
    }

    proof fn lemma_join_arity(self, other: (T9, T10, T11, T12, T13, T14, T15, T16, T17, T18)) {
    }
}

impl<T1, T2, T3, T4, T5, T6, T7, T8, T9, T10, T11, T12, T13, T14, T15, T16, T17, T18> JoinableTuple<(T10, T11, T12, T13, T14, T15, T16, T17, T18)> for (T1, T2, T3, T4, T5, T6, T7, T8, T9) {
    type Join = (T1, T2, T3, T4, T5, T6, T7, T8, T9, T10, T11, T12, T13, T14, T15, T16, T17, T18);

    open spec fn spec_join(self, other: (T10, T11, T12, T13, T14, T15, T16, T17, T18)) -> (T1, T2, T3, T4, T5, T6, T7, T8, T9, T10, T11, T12, T13, T14, T15, T16, T17, T18) {
        (self.0, self.1, self.2, self.3, self.4, self.5, self.6, self.7, self.8, other.0, other.1, other.2, other.3, other.4, other.5, other.6, other.7, other.8)
    }

    fn join(self, other: (T10, T11, T12, T13, T14, T15, T16, T17, T18)) -> (r: (T1, T2, T3, T4, T5, T6, T7, T8, T9, T10, T11, T12, T13, T14, T15, T16, T17, T18)) {
        (self.0, self.1, self.2, self.3, self.4, self.5, self.6, self.7, self.8, other.0, other.1, other.2, other.3, other.4, other.5, other.6, other.7, other.8)
    }

    proof fn lemma_join_arity(self, other: (T10, T11, T12, T13, T14, T15, T16, T17, T18)) {
    }
}

impl<T1, T2, T3, T4, T5, T6, T7, T8, T9, T10, T11, T12, T13, T14, T15, T16, T17, T18> JoinableTuple<(T11, T12, T13, T14, T15, T16, T17, T18)> for (T1, T2, T3, T4, T5, T6, T7, T8, T9, T10) {
    type Join = (T1, T2, T3, T4, T5, T6, T7, T8, T9, T10, T11, T12, T13, T14, T15, T16, T17, T18);

    open spec fn spec_join(self, other: (T11, T12, T13, T14, T15, T16, T17, T18)) -> (T1, T2, T3, T4, T5, T6, T7, T8, T9, T10, T11, T12, T13, T14, T15, T16, T17, T18) {
        (self.0, self.1, self.2, self.3, self.4, self.5, self.6, self.7, self.8, self.9, other.0, other.1, other.2, other.3, other.4, other.5, other.6, other.7)
    }

    fn join(self, other: (T11, T12, T13, T14, T15, T16, T17, T18)) -> (r: (T1, T2, T3, T4, T5, T6, T7, T8, T9, T10, T11, T12, T13, T14, T15, T16, T17, T18)) {
        (self.0, self.1, self.2, self.3, self.4, self.5, self.6, self.7, self.8, self.9, other.0, other.1, other.2, other.3, other.4, other.5, other.6, other.7)
    }

    proof fn lemma_join_arity(self, other: (T11, T12, T13, T14, T15, T16, T17, T18)) {
    }
}

impl<T1, T2, T3, T4, T5, T6, T7, T8, T9, T10, T11, T12, T13, T14, T15, T16, T17, T18> JoinableTuple<(T12, T13, T14, T15, T16, T17, T18)> for (T1, T2, T3, T4, T5, T6, T7, T8, T9, T10, T11) {
    type Join = (T1, T2, T3, T4, T5, T6, T7, T8, T9, T10, T11, T12, T13, T14, T15, T16, T17, T18);

    open spec fn spec_join(self, other: (T12, T13, T14, T15, T16, T17, T18)) -> (T1, T2, T3, T4, T5, T6, T7, T8, T9, T10, T11, T12, T13, T14, T15, T16, T17, T18) {
        (self.0, self.1, self.2, self.3, self.4, self.5, self.6, self.7, self.8, self.9, self.10, other.0, other.1, other.2, other.3, other.4, other.5, other.6)
    }

    fn join(self, other: (T12, T13, T14, T15, T16, T17, T18)) -> (r: (T1, T2, T3, T4, T5, T6, T7, T8, T9, T10, T11, T12, T13, T14, T15, T16, T17, T18)) {
        (self.0, self.1, self.2, self.3, self.4, self.5, self.6, self.7, self.8, self.9, self.10, other.0, other.1, other.2, other.3, other.4, other.5, other.6)
    }

    proof fn lemma_join_arity(self, other: (T12, T13, T14, T15, T16, T17, T18)) {
    }
}

impl<T1, T2, T3, T4, T5, T6, T7, T8, T9, T10, T11, T12, T13, T14, T15, T16, T17, T18> JoinableTuple<(T13, T14, T15, T16, T17, T18)> for (T1, T2, T3, T4, T5, T6, T7, T8, T9, T10, T11, T12) {
    type Join = (T1, T2, T3, T4, T5, T6, T7, T8, T9, T10, T11, T12, T13, T14, T15, T16, T17, T18);

    open spec fn spec_join(self, other: (T13, T14, T15, T16, T17, T18)) -> (T1, T2, T3, T4, T5, T6, T7, T8, T9, T10, T11, T12, T13, T14, T15, T16, T17, T18) {
        (self.0, self.1, self.2, self.3, self.4, self.5, self.6, self.7, self.8, self.9, self.10, self.11, other.0, other.1, other.2, other.3, other.4, other.5)
    }

    fn join(self, other: (T13, T14, T15, T16, T17, T18)) -> (r: (T1, T2, T3, T4, T5, T6, T7, T8, T9, T10, T11, T12, T13, T14, T15, T16, T17, T18)) {
        (self.0, self.1, self.2, self.3, self.4, self.5, self.6, self.7, self.8, self.9, self.10, self.11, other.0, other.1, other.2, other.3, other.4, other.5)
    }

    proof fn lemma_join_arity(self, other: (T13, T14, T15, T16, T17, T18)) {
    }
}

impl<T1, T2, T3, T4, T5, T6, T7, T8, T9, T10, T11, T12, T13, T14, T15, T16, T17, T18> JoinableTuple<(T14, T15, T16, T17, T18)> for (T1, T2, T3, T4, T5, T6, T7, T8, T9, T10, T11, T12, T13) {
    type Join = (T1, T2, T3, T4, T5, T6, T7, T8, T9, T10, T11, T12, T13, T14, T15, T16, T17, T18);

    open spec fn spec_join(self, other: (T14, T15, T16, T17, T18)) -> (T1, T2, T3, T4, T5, T6, T7, T8, T9, T10, T11, T12, T13, T14, T15, T16, T17, T18) {
        (self.0, self.1, self.2, self.3, self.4, self.5, self.6, self.7, self.8, self.9, self.10, self.11, self.12, other.0, other.1, other.2, other.3, other.4)
    }

    fn join(self, other: (T14, T15, T16, T17, T18)) -> (r: (T1, T2, T3, T4, T5, T6, T7, T8, T9, T10, T11, T12, T13, T14, T15, T16, T17, T18)) {
        (self.0, self.1, self.2, self.3, self.4, self.5, self.6, self.7, self.8, self.9, self.10, self.11, self.12, other.0, other.1, other.2, other.3, other.4)
    }

    proof fn lemma_join_arity(self, other: (T14, T15, T16, T17, T18)) {
    }
}

impl<T1, T2, T3, T4, T5, T6, T7, T8, T9, T10, T11, T12, T13, T14, T15, T16, T17, T18> JoinableTuple<(T15, T16, T17, T18)> for (T1, T2, T3, T4, T5, T6, T7, T8, T9, T10, T11, T12, T13, T14) {
    type Join = (T1, T2, T3, T4, T5, T6, T7, T8, T9, T10, T11, T12, T13, T14, T15, T16, T17, T18);

    open spec fn spec_join(self, other: (T15, T16, T17, T18)) -> (T1, T2, T3, T4, T5, T6, T7, T8, T9, T10, T11, T12, T13, T14, T15, T16, T17, T18) {
        (self.0, self.1, self.2, self.3, self.4, self.5, self.6, self.7, self.8, self.9, self.10, self.11, self.12, self.13, other.0, other.1, other.2, other.3)
    }

    fn join(self, other: (T15, T16, T17, T18)) -> (r: (T1, T2, T3, T4, T5, T6, T7, T8, T9, T10, T11, T12, T13, T14, T15, T16, T17, T18)) {
        (self.0, self.1, self.2, self.3, self.4, self.5, self.6, self.7, self.8, self.9, self.10, self.11, self.12, self.13, other.0, other.1, other.2, other.3)
    }

    proof fn lemma_join_arity(self, other: (T15, T16, T17, T18)) {
    }
}

impl<T1, T2, T3, T4, T5, T6, T7, T8, T9, T10, T11, T12, T13, T14, T15, T16, T17, T18> JoinableTuple<(T16, T17, T18)> for (T1, T2, T3, T4, T5, T6, T7, T8, T9, T10, T11, T12, T13, T14, T15) {
    type Join = (T1, T2, T3, T4, T5, T6, T7, T8, T9, T10, T11, T12, T13, T14, T15, T16, T17, T18);

    open spec fn spec_join(self, other: (T16, T17, T18)) -> (T1, T2, T3, T4, T5, T6, T7, T8, T9, T10, T11, T12, T13, T14, T15, T16, T17, T18) {
        (self.0, self.1, self.2, self.3, self.4, self.5, self.6, self.7, self.8, self.9, self.10, self.11, self.12, self.13, self.14, other.0, other.1, other.2)
    }

    fn join(self, other: (T16, T17, T18)) -> (r: (T1, T2, T3, T4, T5, T6, T7, T8, T9, T10, T11, T12, T13, T14, T15, T16, T17, T18)) {
        (self.0, self.1, self.2, self.3, self.4, self.5, self.6, self.7, self.8, self.9, self.10, self.11, self.12, self.13, self.14, other.0, other.1, other.2)
    }

    proof fn lemma_join_arity(self, other: (T16, T17, T18)) {
    }
}

impl<T1, T2, T3, T4, T5, T6, T7, T8, T9, T10, T11, T12, T13, T14, T15, T16, T17, T18> JoinableTuple<(T17, T18)> for (T1, T2, T3, T4, T5, T6, T7, T8, T9, T10, T11, T12, T13, T14, T15, T16) {
    type Join = (T1, T2, T3, T4, T5, T6, T7, T8, T9, T10, T11, T12, T13, T14, T15, T16, T17, T18);

    open spec fn spec_join(self, other: (T17, T18)) -> (T1, T2, T3, T4, T5, T6, T7, T8, T9, T10, T11, T12, T13, T14, T15, T16, T17, T18) {
        (self.0, self.1, self.2, self.3, self.4, self.5, self.6, self.7, self.8, self.9, self.10, self.11, self.12, self.13, self.14, self.15, other.0, other.1)
    }

    fn join(self, other: (T17, T18)) -> (r: (T1, T2, T3, T4, T5, T6, T7, T8, T9, T10, T11, T12, T13, T14, T15, T16, T17, T18)) {
        (self.0, self.1, self.2, self.3, self.4, self.5, self.6, self.7, self.8, self.9, self.10, self.11, self.12, self.13, self.14, self.15, other.0, other.1)
    }

    proof fn lemma_join_arity(self, other: (T17, T18)) {
    }
}

impl<T1, T2, T3, T4, T5, T6, T7, T8, T9, T10, T11, T12, T13, T14, T15, T16, T17, T18> JoinableTuple<(T18,)> for (T1, T2, T3, T4, T5, T6, T7, T8, T9, T10, T11, T12, T13, T14, T15, T16, T17) {
    type Join = (T1, T2, T3, T4, T5, T6, T7, T8, T9, T10, T11, T12, T13, T14, T15, T16, T17, T18);

    open spec fn spec_join(self, other: (T18,)) -> (T1, T2, T3, T4, T5, T6, T7, T8, T9, T10, T11, T12, T13, T14, T15, T16, T17, T18) {
        (self.0, self.1, self.2, self.3, self.4, self.5, self.6, self.7, self.8, self.9, self.10, self.11, self.12, self.13, self.14, self.15, self.16, other.0)
    }

    fn join(self, other: (T18,)) -> (r: (T1, T2, T3, T4, T5, T6, T7, T8, T9, T10, T11, T12, T13, T14, T15, T16, T17, T18)) {
        (self.0, self.1, self.2, self.3, self.4, self.5, self.6, self.7, self.8, self.9, self.10, self.11, self.12, self.13, self.14, self.15, self.16, other.0)
    }

    proof fn lemma_join_arity(self, other: (T18,)) {
    }
}

impl<T1, T2, T3, T4, T5, T6, T7, T8, T9, T10, T11, T12, T13, T14, T15, T16, T17, T18> JoinableTuple<()> for (T1, T2, T3, T4, T5, T6, T7, T8, T9, T10, T11, T12, T13, T14, T15, T16, T17, T18) {
    type Join = (T1, T2, T3, T4, T5, T6, T7, T8, T9, T10, T11, T12, T13, T14, T15, T16, T17, T18);

    open spec fn spec_join(self, other: ()) -> (T1, T2, T3, T4, T5, T6, T7, T8, T9, T10, T11, T12, T13, T14, T15, T16, T17, T18) {
        (self.0, self.1, self.2, self.3, self.4, self.5, self.6, self.7, self.8, self.9, self.10, self.11, self.12, self.13, self.14, self.15, self.16, self.17)
    }

    fn join(self, other: ()) -> (r: (T1, T2, T3, T4, T5, T6, T7, T8, T9, T10, T11, T12, T13, T14, T15, T16, T17, T18)) {
        (self.0, self.1, self.2, self.3, self.4, self.5, self.6, self.7, self.8, self.9, self.10, self.11, self.12, self.13, self.14, self.15, self.16, self.17)
    }

    proof fn lemma_join_arity(self, other: ()) {
    }
}

impl<T1, T2, T3, T4, T5, T6, T7, T8, T9, T10, T11, T12, T13, T14, T15, T16, T17, T18, T19> Sealed for (T1, T2, T3, T4, T5, T6, T7, T8, T9, T10, T11, T12, T13, T14, T15, T16, T17, T18, T19) {}

impl<T1, T2, T3, T4, T5, T6, T7, T8, T9, T10, T11, T12, T13, T14, T15, T16, T17, T18, T19> DynTuple for (T1, T2, T3, T4, T5, T6, T7, T8, T9, T10, T11, T12, T13, T14, T15, T16, T17, T18, T19) {
    open spec fn spec_arity(&self) -> nat {
        19
    }

    fn arity(&self) -> (r: usize) {
        19
    }
}

impl<T1, T2, T3, T4, T5, T6, T7, T8, T9, T10, T11, T12, T13, T14, T15, T16, T17, T18, T19> Tuple for (T1, T2, T3, T4, T5, T6, T7, T8, T9, T10, T11, T12, T13, T14, T15, T16, T17, T18, T19) {
    const ARITY: usize = 19;

    open spec fn spec_type_arity() -> nat {
        19
    }

    proof fn lemma_arity(&self) {
    }

    proof fn lemma_type_arity() {
    }
}

impl<T1, T2, T3, T4, T5, T6, T7, T8, T9, T10, T11, T12, T13, T14, T15, T16, T17, T18, T19, T> GrowableTuple<T> for (T1, T2, T3, T4, T5, T6, T7, T8, T9, T10, T11, T12, T13, T14, T15, T16, T17, T18, T19) {
    type Append = (T1, T2, T3, T4, T5, T6, T7, T8, T9, T10, T11, T12, T13, T14, T15, T16, T17, T18, T19, T);

    type Prepend = (T, T1, T2, T3, T4, T5, T6, T7, T8, T9, T10, T11, T12, T13, T14, T15, T16, T17, T18, T19);

    open spec fn spec_append(self, value: T) -> (T1, T2, T3, T4, T5, T6, T7, T8, T9, T10, T11, T12, T13, T14, T15, T16, T17, T18, T19, T) {
        (self.0, self.1, self.2, self.3, self.4, self.5, self.6, self.7, self.8, self.9, self.10, self.11, self.12, self.13, self.14, self.15, self.16, self.17, self.18, value)
    }

    open spec fn spec_prepend(self, value: T) -> (T, T1, T2, T3, T4, T5, T6, T7, T8, T9, T10, T11, T12, T13, T14, T15, T16, T17, T18, T19) {
        (value, self.0, self.1, self.2, self.3, self.4, self.5, self.6, self.7, self.8, self.9, self.10, self.11, self.12, self.13, self.14, self.15, self.16, self.17, self.18)
    }

    fn append(self, value: T) -> (r: (T1, T2, T3, T4, T5, T6, T7, T8, T9, T10, T11, T12, T13, T14, T15, T16, T17, T18, T19, T)) {
        (self.0, self.1, self.2, self.3, self.4, self.5, self.6, self.7, self.8, self.9, self.10, self.11, self.12, self.13, self.14, self.15, self.16, self.17, self.18, value)
    }

    fn prepend(self, value: T) -> (r: (T, T1, T2, T3, T4, T5, T6, T7, T8, T9, T10, T11, T12, T13, T14, T15, T16, T17, T18, T19)) {
        (value, self.0, self.1, self.2, self.3, self.4, self.5, self.6, self.7, self.8, self.9, self.10, self.11, self.12, self.13, self.14, self.15, self.16, self.17, self.18)
    }

    proof fn lemma_grow_arity(self, value: T) {
    }
}

impl<T1, T2, T3, T4, T5, T6, T7, T8, T9, T10, T11, T12, T13, T14, T15, T16, T17, T18, T19> NonEmptyTuple for (T1, T2, T3, T4, T5, T6, T7, T8, T9, T10, T11, T12, T13, T14, T15, T16, T17, T18, T19) {
    type Head = T1;

    type Tail = T19;

    type TruncateHead = (T2, T3, T4, T5, T6, T7, T8, T9, T10, T11, T12, T13, T14, T15, T16, T17, T18, T19);

    type TruncateTail = (T1, T2, T3, T4, T5, T6, T7, T8, T9, T10, T11, T12, T13, T14, T15, T16, T17, T18);

    open spec fn spec_head(&self) -> T1 {
        self.0
    }

    open spec fn spec_tail(&self) -> T19 {
        self.18
    }

    open spec fn spec_with_head(self, value: T1) -> (T1, T2, T3, T4, T5, T6, T7, T8, T9, T10, T11, T12, T13, T14, T15, T16, T17, T18, T19) {
        (value, self.1, self.2, self.3, self.4, self.5, self.6, self.7, self.8, self.9, self.10, self.11, self.12, self.13, self.14, self.15, self.16, self.17, self.18)
    }

    open spec fn spec_with_tail(self, value: T19) -> (T1, T2, T3, T4, T5, T6, T7, T8, T9, T10, T11, T12, T13, T14, T15, T16, T17, T18, T19) {
        (self.0, self.1, self.2, self.3, self.4, self.5, self.6, self.7, self.8, self.9, self.10, self.11, self.12, self.13, self.14, self.15, self.16, self.17, value)
    }

    open spec fn spec_truncate_head(self) -> (T1, (T2, T3, T4, T5, T6, T7, T8, T9, T10, T11, T12, T13, T14, T15, T16, T17, T18, T19)) {
        (self.0, (self.1, self.2, self.3, self.4, self.5, self.6, self.7, self.8, self.9, self.10, self.11, self.12, self.13, self.14, self.15, self.16, self.17, self.18))
    }

    open spec fn spec_truncate_tail(self) -> ((T1, T2, T3, T4, T5, T6, T7, T8, T9, T10, T11, T12, T13, T14, T15, T16, T17, T18), T19) {
        ((self.0, self.1, self.2, self.3, self.4, self.5, self.6, self.7, self.8, self.9, self.10, self.11, self.12, self.13, self.14, self.15, self.16, self.17), self.18)
    }

    fn head(&self) -> (r: &T1) {
        &self.0
    }

    fn head_mut(&mut self) -> (r: &mut T1) {
        &mut self.0
    }

    fn tail(&self) -> (r: &T19) {
        &self.18
    }

    fn tail_mut(&mut self) -> (r: &mut T19) {
        &mut self.18
    }

    fn truncate_head(self) -> (r: (T1, (T2, T3, T4, T5, T6, T7, T8, T9, T10, T11, T12, T13, T14, T15, T16, T17, T18, T19))) {
        (self.0, (self.1, self.2, self.3, self.4, self.5, self.6, self.7, self.8, self.9, self.10, self.11, self.12, self.13, self.14, self.15, self.16, self.17, self.18))
    }

    fn truncate_tail(self) -> (r: ((T1, T2, T3, T4, T5, T6, T7, T8, T9, T10, T11, T12, T13, T14, T15, T16, T17, T18), T19)) {
        ((self.0, self.1, self.2, self.3, self.4, self.5, self.6, self.7, self.8, self.9, self.10, self.11, self.12, self.13, self.14, self.15, self.16, self.17), self.18)
    }

    proof fn lemma_truncate_head(self) {
    }

    proof fn lemma_truncate_tail(self) {
    }
}

impl<T1, T2, T3, T4, T5, T6, T7, T8, T9, T10, T11, T12, T13, T14, T15, T16, T17, T18, T19> NonUnaryTuple for (T1, T2, T3, T4, T5, T6, T7, T8, T9, T10, T11, T12, T13, T14, T15, T16, T17, T18, T19) {
    type TruncateHeadTail = (T2, T3, T4, T5, T6, T7, T8, T9, T10, T11, T12, T13, T14, T15, T16, T17, T18);

    open spec fn spec_truncate_head_tail(self) -> (T1, (T2, T3, T4, T5, T6, T7, T8, T9, T10, T11, T12, T13, T14, T15, T16, T17, T18), T19) {
        (self.0, (self.1, self.2, self.3, self.4, self.5, self.6, self.7, self.8, self.9, self.10, self.11, self.12, self.13, self.14, self.15, self.16, self.17), self.18)
    }

    fn head_tail(&self) -> (r: (&T1, &T19)) {
        (&self.0, &self.18)
    }

    fn head_tail_mut(&mut self) -> (r: (&mut T1, &mut T19)) {
        (&mut self.0, &mut self.18)
    }

    fn truncate_head_tail(self) -> (r: (T1, (T2, T3, T4, T5, T6, T7, T8, T9, T10, T11, T12, T13, T14, T15, T16, T17, T18), T19)) {
        (self.0, (self.1, self.2, self.3, self.4, self.5, self.6, self.7, self.8, self.9, self.10, self.11, self.12, self.13, self.14, self.15, self.16, self.17), self.18)
    }

    proof fn lemma_truncate_head_tail(self) {
    }
}

impl<T1, T2, T3, T4, T5, T6, T7, T8, T9, T10, T11, T12, T13, T14, T15, T16, T17, T18, T19> IndexableTuple<0> for (T1, T2, T3, T4, T5, T6, T7, T8, T9, T10, T11, T12, T13, T14, T15, T16, T17, T18, T19) {
    type Value = T1;

    open spec fn spec_index(&self) -> T1 {
        self.0
    }

    open spec fn spec_with_index(self, value: T1) -> (T1, T2, T3, T4, T5, T6, T7, T8, T9, T10, T11, T12, T13, T14, T15, T16, T17, T18, T19) {
        (value, self.1, self.2, self.3, self.4, self.5, self.6, self.7, self.8, self.9, self.10, self.11, self.12, self.13, self.14, self.15, self.16, self.17, self.18)
    }

    fn index_ref(&self) -> (r: &T1) {
        &self.0
    }

    fn index_mut(&mut self) -> (r: &mut T1) {
        &mut self.0
    }

    fn into_index(self) -> (r: T1) {
        self.0
    }

    proof fn lemma_index_in_range(&self) {
    }
}

impl<T1, T2, T3, T4, T5, T6, T7, T8, T9, T10, T11, T12, T13, T14, T15, T16, T17, T18, T19> IndexableTuple<1> for (T1, T2, T3, T4, T5, T6, T7, T8, T9, T10, T11, T12, T13, T14, T15, T16, T17, T18, T19) {
    type Value = T2;

    open spec fn spec_index(&self) -> T2 {
        self.1
    }

    open spec fn spec_with_index(self, value: T2) -> (T1, T2, T3, T4, T5, T6, T7, T8, T9, T10, T11, T12, T13, T14, T15, T16, T17, T18, T19) {
        (self.0, value, self.2, self.3, self.4, self.5, self.6, self.7, self.8, self.9, self.10, self.11, self.12, self.13, self.14, self.15, self.16, self.17, self.18)
    }

    fn index_ref(&self) -> (r: &T2) {
        &self.1
    }

    fn index_mut(&mut self) -> (r: &mut T2) {
        &mut self.1
    }

    fn into_index(self) -> (r: T2) {
        self.1
    }

    proof fn lemma_index_in_range(&self) {
    }
}

impl<T1, T2, T3, T4, T5, T6, T7, T8, T9, T10, T11, T12, T13, T14, T15, T16, T17, T18, T19> IndexableTuple<2> for (T1, T2, T3, T4, T5, T6, T7, T8, T9, T10, T11, T12, T13, T14, T15, T16, T17, T18, T19) {
    type Value = T3;

    open spec fn spec_index(&self) -> T3 {
        self.2
    }

    open spec fn spec_with_index(self, value: T3) -> (T1, T2, T3, T4, T5, T6, T7, T8, T9, T10, T11, T12, T13, T14, T15, T16, T17, T18, T19) {
        (self.0, self.1, value, self.3, self.4, self.5, self.6, self.7, self.8, self.9, self.10, self.11, self.12, self.13, self.14, self.15, self.16, self.17, self.18)
    }

    fn index_ref(&self) -> (r: &T3) {
        &self.2
    }

    fn index_mut(&mut self) -> (r: &mut T3) {
        &mut self.2
    }

    fn into_index(self) -> (r: T3) {
        self.2
    }

    proof fn lemma_index_in_range(&self) {
    }
}

impl<T1, T2, T3, T4, T5, T6, T7, T8, T9, T10, T11, T12, T13, T14, T15, T16, T17, T18, T19> IndexableTuple<3> for (T1, T2, T3, T4, T5, T6, T7, T8, T9, T10, T11, T12, T13, T14, T15, T16, T17, T18, T19) {
    type Value = T4;

    open spec fn spec_index(&self) -> T4 {
        self.3
    }

    open spec fn spec_with_index(self, value: T4) -> (T1, T2, T3, T4, T5, T6, T7, T8, T9, T10, T11, T12, T13, T14, T15, T16, T17, T18, T19) {
        (self.0, self.1, self.2, value, self.4, self.5, self.6, self.7, self.8, self.9, self.10, self.11, self.12, self.13, self.14, self.15, self.16, self.17, self.18)
    }

    fn index_ref(&self) -> (r: &T4) {
        &self.3
    }

    fn index_mut(&mut self) -> (r: &mut T4) {
        &mut self.3
    }

    fn into_index(self) -> (r: T4) {
        self.3
    }

    proof fn lemma_index_in_range(&self) {
    }
}

impl<T1, T2, T3, T4, T5, T6, T7, T8, T9, T10, T11, T12, T13, T14, T15, T16, T17, T18, T19> IndexableTuple<4> for (T1, T2, T3, T4, T5, T6, T7, T8, T9, T10, T11, T12, T13, T14, T15, T16, T17, T18, T19) {
    type Value = T5;

    open spec fn spec_index(&self) -> T5 {
        self.4
    }

    open spec fn spec_with_index(self, value: T5) -> (T1, T2, T3, T4, T5, T6, T7, T8, T9, T10, T11, T12, T13, T14, T15, T16, T17, T18, T19) {
        (self.0, self.1, self.2, self.3, value, self.5, self.6, self.7, self.8, self.9, self.10, self.11, self.12, self.13, self.14, self.15, self.16, self.17, self.18)
    }

    fn index_ref(&self) -> (r: &T5) {
        &self.4
    }

    fn index_mut(&mut self) -> (r: &mut T5) {
        &mut self.4
    }

    fn into_index(self) -> (r: T5) {
        self.4
    }

    proof fn lemma_index_in_range(&self) {
    }
}

impl<T1, T2, T3, T4, T5, T6, T7, T8, T9, T10, T11, T12, T13, T14, T15, T16, T17, T18, T19> IndexableTuple<5> for (T1, T2, T3, T4, T5, T6, T7, T8, T9, T10, T11, T12, T13, T14, T15, T16, T17, T18, T19) {
    type Value = T6;

    open spec fn spec_index(&self) -> T6 {
        self.5
    }

    open spec fn spec_with_index(self, value: T6) -> (T1, T2, T3, T4, T5, T6, T7, T8, T9, T10, T11, T12, T13, T14, T15, T16, T17, T18, T19) {
        (self.0, self.1, self.2, self.3, self.4, value, self.6, self.7, self.8, self.9, self.10, self.11, self.12, self.13, self.14, self.15, self.16, self.17, self.18)
    }

    fn index_ref(&self) -> (r: &T6) {
        &self.5
    }

    fn index_mut(&mut self) -> (r: &mut T6) {
        &mut self.5
    }

    fn into_index(self) -> (r: T6) {
        self.5
    }

    proof fn lemma_index_in_range(&self) {
    }
}

impl<T1, T2, T3, T4, T5, T6, T7, T8, T9, T10, T11, T12, T13, T14, T15, T16, T17, T18, T19> IndexableTuple<6> for (T1, T2, T3, T4, T5, T6, T7, T8, T9, T10, T11, T12, T13, T14, T15, T16, T17, T18, T19) {
    type Value = T7;

    open spec fn spec_index(&self) -> T7 {
        self.6
    }

    open spec fn spec_with_index(self, value: T7) -> (T1, T2, T3, T4, T5, T6, T7, T8, T9, T10, T11, T12, T13, T14, T15, T16, T17, T18, T19) {
        (self.0, self.1, self.2, self.3, self.4, self.5, value, self.7, self.8, self.9, self.10, self.11, self.12, self.13, self.14, self.15, self.16, self.17, self.18)
    }

    fn index_ref(&self) -> (r: &T7) {
        &self.6
    }

    fn index_mut(&mut self) -> (r: &mut T7) {
        &mut self.6
    }

    fn into_index(self) -> (r: T7) {
        self.6
    }

    proof fn lemma_index_in_range(&self) {
    }
}

impl<T1, T2, T3, T4, T5, T6, T7, T8, T9, T10, T11, T12, T13, T14, T15, T16, T17, T18, T19> IndexableTuple<7> for (T1, T2, T3, T4, T5, T6, T7, T8, T9, T10, T11, T12, T13, T14, T15, T16, T17, T18, T19) {
    type Value = T8;

    open spec fn spec_index(&self) -> T8 {
        self.7
    }

    open spec fn spec_with_index(self, value: T8) -> (T1, T2, T3, T4, T5, T6, T7, T8, T9, T10, T11, T12, T13, T14, T15, T16, T17, T18, T19) {
        (self.0, self.1, self.2, self.3, self.4, self.5, self.6, value, self.8, self.9, self.10, self.11, self.12, self.13, self.14, self.15, self.16, self.17, self.18)
    }

    fn index_ref(&self) -> (r: &T8) {
        &self.7
    }

    fn index_mut(&mut self) -> (r: &mut T8) {
        &mut self.7
    }

    fn into_index(self) -> (r: T8) {
        self.7
    }

    proof fn lemma_index_in_range(&self) {
    }
}

impl<T1, T2, T3, T4, T5, T6, T7, T8, T9, T10, T11, T12, T13, T14, T15, T16, T17, T18, T19> IndexableTuple<8> for (T1, T2, T3, T4, T5, T6, T7, T8, T9, T10, T11, T12, T13, T14, T15, T16, T17, T18, T19) {
    type Value = T9;

    open spec fn spec_index(&self) -> T9 {
        self.8
    }

    open spec fn spec_with_index(self, value: T9) -> (T1, T2, T3, T4, T5, T6, T7, T8, T9, T10, T11, T12, T13, T14, T15, T16, T17, T18, T19) {
        (self.0, self.1, self.2, self.3, self.4, self.5, self.6, self.7, value, self.9, self.10, self.11, self.12, self.13, self.14, self.15, self.16, self.17, self.18)
    }

    fn index_ref(&self) -> (r: &T9) {
        &self.8
    }

    fn index_mut(&mut self) -> (r: &mut T9) {
        &mut self.8
    }

    fn into_index(self) -> (r: T9) {
        self.8
    }

    proof fn lemma_index_in_range(&self) {
    }
}

impl<T1, T2, T3, T4, T5, T6, T7, T8, T9, T10, T11, T12, T13, T14, T15, T16, T17, T18, T19> IndexableTuple<9> for (T1, T2, T3, T4, T5, T6, T7, T8, T9, T10, T11, T12, T13, T14, T15, T16, T17, T18, T19) {
    type Value = T10;

    open spec fn spec_index(&self) -> T10 {
        self.9
    }

    open spec fn spec_with_index(self, value: T10) -> (T1, T2, T3, T4, T5, T6, T7, T8, T9, T10, T11, T12, T13, T14, T15, T16, T17, T18, T19) {
        (self.0, self.1, self.2, self.3, self.4, self.5, self.6, self.7, self.8, value, self.10, self.11, self.12, self.13, self.14, self.15, self.16, self.17, self.18)
    }

    fn index_ref(&self) -> (r: &T10) {
        &self.9
    }

    fn index_mut(&mut self) -> (r: &mut T10) {
        &mut self.9
    }

    fn into_index(self) -> (r: T10) {
        self.9
    }

    proof fn lemma_index_in_range(&self) {
    }
}

impl<T1, T2, T3, T4, T5, T6, T7, T8, T9, T10, T11, T12, T13, T14, T15, T16, T17, T18, T19> IndexableTuple<10> for (T1, T2, T3, T4, T5, T6, T7, T8, T9, T10, T11, T12, T13, T14, T15, T16, T17, T18, T19) {
    type Value = T11;

    open spec fn spec_index(&self) -> T11 {
        self.10
    }

    open spec fn spec_with_index(self, value: T11) -> (T1, T2, T3, T4, T5, T6, T7, T8, T9, T10, T11, T12, T13, T14, T15, T16, T17, T18, T19) {
        (self.0, self.1, self.2, self.3, self.4, self.5, self.6, self.7, self.8, self.9, value, self.11, self.12, self.13, self.14, self.15, self.16, self.17, self.18)
    }

    fn index_ref(&self) -> (r: &T11) {
        &self.10
    }

    fn index_mut(&mut self) -> (r: &mut T11) {
        &mut self.10
    }

    fn into_index(self) -> (r: T11) {
        self.10
    }

    proof fn lemma_index_in_range(&self) {
    }
}

impl<T1, T2, T3, T4, T5, T6, T7, T8, T9, T10, T11, T12, T13, T14, T15, T16, T17, T18, T19> IndexableTuple<11> for (T1, T2, T3, T4, T5, T6, T7, T8, T9, T10, T11, T12, T13, T14, T15, T16, T17, T18, T19) {
    type Value = T12;

    open spec fn spec_index(&self) -> T12 {
        self.11
    }

    open spec fn spec_with_index(self, value: T12) -> (T1, T2, T3, T4, T5, T6, T7, T8, T9, T10, T11, T12, T13, T14, T15, T16, T17, T18, T19) {
        (self.0, self.1, self.2, self.3, self.4, self.5, self.6, self.7, self.8, self.9, self.10, value, self.12, self.13, self.14, self.15, self.16, self.17, self.18)
    }

    fn index_ref(&self) -> (r: &T12) {
        &self.11
    }

    fn index_mut(&mut self) -> (r: &mut T12) {
        &mut self.11
    }

    fn into_index(self) -> (r: T12) {
        self.11
    }

    proof fn lemma_index_in_range(&self) {
    }
}

impl<T1, T2, T3, T4, T5, T6, T7, T8, T9, T10, T11, T12, T13, T14, T15, T16, T17, T18, T19> IndexableTuple<12> for (T1, T2, T3, T4, T5, T6, T7, T8, T9, T10, T11, T12, T13, T14, T15, T16, T17, T18, T19) {
    type Value = T13;

    open spec fn spec_index(&self) -> T13 {
        self.12
    }

    open spec fn spec_with_index(self, value: T13) -> (T1, T2, T3, T4, T5, T6, T7, T8, T9, T10, T11, T12, T13, T14, T15, T16, T17, T18, T19) {
        (self.0, self.1, self.2, self.3, self.4, self.5, self.6, self.7, self.8, self.9, self.10, self.11, value, self.13, self.14, self.15, self.16, self.17, self.18)
    }

    fn index_ref(&self) -> (r: &T13) {
        &self.12
    }

    fn index_mut(&mut self) -> (r: &mut T13) {
        &mut self.12
    }

    fn into_index(self) -> (r: T13) {
        self.12
    }

    proof fn lemma_index_in_range(&self) {
    }
}

impl<T1, T2, T3, T4, T5, T6, T7, T8, T9, T10, T11, T12, T13, T14, T15, T16, T17, T18, T19> IndexableTuple<13> for (T1, T2, T3, T4, T5, T6, T7, T8, T9, T10, T11, T12, T13, T14, T15, T16, T17, T18, T19) {
    type Value = T14;

    open spec fn spec_index(&self) -> T14 {
        self.13
    }

    open spec fn spec_with_index(self, value: T14) -> (T1, T2, T3, T4, T5, T6, T7, T8, T9, T10, T11, T12, T13, T14, T15, T16, T17, T18, T19) {
        (self.0, self.1, self.2, self.3, self.4, self.5, self.6, self.7, self.8, self.9, self.10, self.11, self.12, value, self.14, self.15, self.16, self.17, self.18)
    }

    fn index_ref(&self) -> (r: &T14) {
        &self.13
    }

    fn index_mut(&mut self) -> (r: &mut T14) {
        &mut self.13
    }

    fn into_index(self) -> (r: T14) {
        self.13
    }

    proof fn lemma_index_in_range(&self) {
    }
}

impl<T1, T2, T3, T4, T5, T6, T7, T8, T9, T10, T11, T12, T13, T14, T15, T16, T17, T18, T19> IndexableTuple<14> for (T1, T2, T3, T4, T5, T6, T7, T8, T9, T10, T11, T12, T13, T14, T15, T16, T17, T18, T19) {
    type Value = T15;

    open spec fn spec_index(&self) -> T15 {
        self.14
    }

    open spec fn spec_with_index(self, value: T15) -> (T1, T2, T3, T4, T5, T6, T7, T8, T9, T10, T11, T12, T13, T14, T15, T16, T17, T18, T19) {
        (self.0, self.1, self.2, self.3, self.4, self.5, self.6, self.7, self.8, self.9, self.10, self.11, self.12, self.13, value, self.15, self.16, self.17, self.18)
    }

    fn index_ref(&self) -> (r: &T15) {
        &self.14
    }

    fn index_mut(&mut self) -> (r: &mut T15) {
        &mut self.14
    }

    fn into_index(self) -> (r: T15) {
        self.14
    }

    proof fn lemma_index_in_range(&self) {
    }
}

impl<T1, T2, T3, T4, T5, T6, T7, T8, T9, T10, T11, T12, T13, T14, T15, T16, T17, T18, T19> IndexableTuple<15> for (T1, T2, T3, T4, T5, T6, T7, T8, T9, T10, T11, T12, T13, T14, T15, T16, T17, T18, T19) {
    type Value = T16;

    open spec fn spec_index(&self) -> T16 {
        self.15
    }

    open spec fn spec_with_index(self, value: T16) -> (T1, T2, T3, T4, T5, T6, T7, T8, T9, T10, T11, T12, T13, T14, T15, T16, T17, T18, T19) {
        (self.0, self.1, self.2, self.3, self.4, self.5, self.6, self.7, self.8, self.9, self.10, self.11, self.12, self.13, self.14, value, self.16, self.17, self.18)
    }

    fn index_ref(&self) -> (r: &T16) {
        &self.15
    }

    fn index_mut(&mut self) -> (r: &mut T16) {
        &mut self.15
    }

    fn into_index(self) -> (r: T16) {
        self.15
    }

    proof fn lemma_index_in_range(&self) {
    }
}

impl<T1, T2, T3, T4, T5, T6, T7, T8, T9, T10, T11, T12, T13, T14, T15, T16, T17, T18, T19> IndexableTuple<16> for (T1, T2, T3, T4, T5, T6, T7, T8, T9, T10, T11, T12, T13, T14, T15, T16, T17, T18, T19) {
    type Value = T17;

    open spec fn spec_index(&self) -> T17 {
        self.16
    }

    open spec fn spec_with_index(self, value: T17) -> (T1, T2, T3, T4, T5, T6, T7, T8, T9, T10, T11, T12, T13, T14, T15, T16, T17, T18, T19) {
        (self.0, self.1, self.2, self.3, self.4, self.5, self.6, self.7, self.8, self.9, self.10, self.11, self.12, self.13, self.14, self.15, value, self.17, self.18)
    }

    fn index_ref(&self) -> (r: &T17) {
        &self.16
    }

    fn index_mut(&mut self) -> (r: &mut T17) {
        &mut self.16
    }

    fn into_index(self) -> (r: T17) {
        self.16
    }

    proof fn lemma_index_in_range(&self) {
    }
}

impl<T1, T2, T3, T4, T5, T6, T7, T8, T9, T10, T11, T12, T13, T14, T15, T16, T17, T18, T19> IndexableTuple<17> for (T1, T2, T3, T4, T5, T6, T7, T8, T9, T10, T11, T12, T13, T14, T15, T16, T17, T18, T19) {
    type Value = T18;

    open spec fn spec_index(&self) -> T18 {
        self.17
    }

    open spec fn spec_with_index(self, value: T18) -> (T1, T2, T3, T4, T5, T6, T7, T8, T9, T10, T11, T12, T13, T14, T15, T16, T17, T18, T19) {
        (self.0, self.1, self.2, self.3, self.4, self.5, self.6, self.7, self.8, self.9, self.10, self.11, self.12, self.13, self.14, self.15, self.16, value, self.18)
    }

    fn index_ref(&self) -> (r: &T18) {
        &self.17
    }

    fn index_mut(&mut self) -> (r: &mut T18) {
        &mut self.17
    }

    fn into_index(self) -> (r: T18) {
        self.17
    }

    proof fn lemma_index_in_range(&self) {
    }
}

impl<T1, T2, T3, T4, T5, T6, T7, T8, T9, T10, T11, T12, T13, T14, T15, T16, T17, T18, T19> IndexableTuple<18> for (T1, T2, T3, T4, T5, T6, T7, T8, T9, T10, T11, T12, T13, T14, T15, T16, T17, T18, T19) {
    type Value = T19;

    open spec fn spec_index(&self) -> T19 {
        self.18
    }

    open spec fn spec_with_index(self, value: T19) -> (T1, T2, T3, T4, T5, T6, T7, T8, T9, T10, T11, T12, T13, T14, T15, T16, T17, T18, T19) {
        (self.0, self.1, self.2, self.3, self.4, self.5, self.6, self.7, self.8, self.9, self.10, self.11, self.12, self.13, self.14, self.15, self.16, self.17, value)
    }

    fn index_ref(&self) -> (r: &T19) {
        &self.18
    }

    fn index_mut(&mut self) -> (r: &mut T19) {
        &mut self.18
    }

    fn into_index(self) -> (r: T19) {
        self.18
    }

    proof fn lemma_index_in_range(&self) {
    }
}

impl<T1, T2, T3, T4, T5, T6, T7, T8, T9, T10, T11, T12, T13, T14, T15, T16, T17, T18, T19> JoinableTuple<(T1, T2, T3, T4, T5, T6, T7, T8, T9, T10, T11, T12, T13, T14, T15, T16, T17, T18, T19)> for () {
    type Join = (T1, T2, T3, T4, T5, T6, T7, T8, T9, T10, T11, T12, T13, T14, T15, T16, T17, T18, T19);

    open spec fn spec_join(self, other: (T1, T2, T3, T4, T5, T6, T7, T8, T9, T10, T11, T12, T13, T14, T15, T16, T17, T18, T19)) -> (T1, T2, T3, T4, T5, T6, T7, T8, T9, T10, T11, T12, T13, T14, T15, T16, T17, T18, T19) {
        (other.0, other.1, other.2, other.3, other.4, other.5, other.6, other.7, other.8, other.9, other.10, other.11, other.12, other.13, other.14, other.15, other.16, other.17, other.18)
    }

    fn join(self, other: (T1, T2, T3, T4, T5, T6, T7, T8, T9, T10, T11, T12, T13, T14, T15, T16, T17, T18, T19)) -> (r: (T1, T2, T3, T4, T5, T6, T7, T8, T9, T10, T11, T12, T13, T14, T15, T16, T17, T18, T19)) {
        (other.0, other.1, other.2, other.3, other.4, other.5, other.6, other.7, other.8, other.9, other.10, other.11, other.12, other.13, other.14, other.15, other.16, other.17, other.18)
    }

    proof fn lemma_join_arity(self, other: (T1, T2, T3, T4, T5, T6, T7, T8, T9, T10, T11, T12, T13, T14, T15, T16, T17, T18, T19)) {
    }
}

impl<T1, T2, T3, T4, T5, T6, T7, T8, T9, T10, T11, T12, T13, T14, T15, T16, T17, T18, T19> JoinableTuple<(T2, T3, T4, T5, T6, T7, T8, T9, T10, T11, T12, T13, T14, T15, T16, T17, T18, T19)> for (T1,) {
    type Join = (T1, T2, T3, T4, T5, T6, T7, T8, T9, T10, T11, T12, T13, T14, T15, T16, T17, T18, T19);

    open spec fn spec_join(self, other: (T2, T3, T4, T5, T6, T7, T8, T9, T10, T11, T12, T13, T14, T15, T16, T17, T18, T19)) -> (T1, T2, T3, T4, T5, T6, T7, T8, T9, T10, T11, T12, T13, T14, T15, T16, T17, T18, T19) {
        (self.0, other.0, other.1, other.2, other.3, other.4, other.5, other.6, other.7, other.8, other.9, other.10, other.11, other.12, other.13, other.14, other.15, other.16, other.17)
    }

    fn join(self, other: (T2, T3, T4, T5, T6, T7, T8, T9, T10, T11, T12, T13, T14, T15, T16, T17, T18, T19)) -> (r: (T1, T2, T3, T4, T5, T6, T7, T8, T9, T10, T11, T12, T13, T14, T15, T16, T17, T18, T19)) {
        (self.0, other.0, other.1, other.2, other.3, other.4, other.5, other.6, other.7, other.8, other.9, other.10, other.11, other.12, other.13, other.14, other.15, other.16, other.17)
    }

    proof fn lemma_join_arity(self, other: (T2, T3, T4, T5, T6, T7, T8, T9, T10, T11, T12, T13, T14, T15, T16, T17, T18, T19)) {
    }
}

impl<T1, T2, T3, T4, T5, T6, T7, T8, T9, T10, T11, T12, T13, T14, T15, T16, T17, T18, T19> JoinableTuple<(T3, T4, T5, T6, T7, T8, T9, T10, T11, T12, T13, T14, T15, T16, T17, T18, T19)> for (T1, T2) {
    type Join = (T1, T2, T3, T4, T5, T6, T7, T8, T9, T10, T11, T12, T13, T14, T15, T16, T17, T18, T19);

    open spec fn spec_join(self, other: (T3, T4, T5, T6, T7, T8, T9, T10, T11, T12, T13, T14, T15, T16, T17, T18, T19)) -> (T1, T2, T3, T4, T5, T6, T7, T8, T9, T10, T11, T12, T13, T14, T15, T16, T17, T18, T19) {
        (self.0, self.1, other.0, other.1, other.2, other.3, other.4, other.5, other.6, other.7, other.8, other.9, other.10, other.11, other.12, other.13, other.14, other.15, other.16)
    }

    fn join(self, other: (T3, T4, T5, T6, T7, T8, T9, T10, T11, T12, T13, T14, T15, T16, T17, T18, T19)) -> (r: (T1, T2, T3, T4, T5, T6, T7, T8, T9, T10, T11, T12, T13, T14, T15, T16, T17, T18, T19)) {
        (self.0, self.1, other.0, other.1, other.2, other.3, other.4, other.5, other.6, other.7, other.8, other.9, other.10, other.11, other.12, other.13, other.14, other.15, other.16)
    }

    proof fn lemma_join_arity(self, other: (T3, T4, T5, T6, T7, T8, T9, T10, T11, T12, T13, T14, T15, T16, T17, T18, T19)) {
    }
}

impl<T1, T2, T3, T4, T5, T6, T7, T8, T9, T10, T11, T12, T13, T14, T15, T16, T17, T18, T19> JoinableTuple<(T4, T5, T6, T7, T8, T9, T10, T11, T12, T13, T14, T15, T16, T17, T18, T19)> for (T1, T2, T3) {
    type Join = (T1, T2, T3, T4, T5, T6, T7, T8, T9, T10, T11, T12, T13, T14, T15, T16, T17, T18, T19);

    open spec fn spec_join(self, other: (T4, T5, T6, T7, T8, T9, T10, T11, T12, T13, T14, T15, T16, T17, T18, T19)) -> (T1, T2, T3, T4, T5, T6, T7, T8, T9, T10, T11, T12, T13, T14, T15, T16, T17, T18, T19) {
        (self.0, self.1, self.2, other.0, other.1, other.2, other.3, other.4, other.5, other.6, other.7, other.8, other.9, other.10, other.11, other.12, other.13, other.14, other.15)
    }

    fn join(self, other: (T4, T5, T6, T7, T8, T9, T10, T11, T12, T13, T14, T15, T16, T17, T18, T19)) -> (r: (T1, T2, T3, T4, T5, T6, T7, T8, T9, T10, T11, T12, T13, T14, T15, T16, T17, T18, T19)) {
        (self.0, self.1, self.2, other.0, other.1, other.2, other.3, other.4, other.5, other.6, other.7, other.8, other.9, other.10, other.11, other.12, other.13, other.14, other.15)
    }

    proof fn lemma_join_arity(self, other: (T4, T5, T6, T7, T8, T9, T10, T11, T12, T13, T14, T15, T16, T17, T18, T19)) {
    }
}

impl<T1, T2, T3, T4, T5, T6, T7, T8, T9, T10, T11, T12, T13, T14, T15, T16, T17, T18, T19> JoinableTuple<(T5, T6, T7, T8, T9, T10, T11, T12, T13, T14, T15, T16, T17, T18, T19)> for (T1, T2, T3, T4) {
    type Join = (T1, T2, T3, T4, T5, T6, T7, T8, T9, T10, T11, T12, T13, T14, T15, T16, T17, T18, T19);

    open spec fn spec_join(self, other: (T5, T6, T7, T8, T9, T10, T11, T12, T13, T14, T15, T16, T17, T18, T19)) -> (T1, T2, T3, T4, T5, T6, T7, T8, T9, T10, T11, T12, T13, T14, T15, T16, T17, T18, T19) {
        (self.0, self.1, self.2, self.3, other.0, other.1, other.2, other.3, other.4, other.5, other.6, other.7, other.8, other.9, other.10, other.11, other.12, other.13, other.14)
    }

    fn join(self, other: (T5, T6, T7, T8, T9, T10, T11, T12, T13, T14, T15, T16, T17, T18, T19)) -> (r: (T1, T2, T3, T4, T5, T6, T7, T8, T9, T10, T11, T12, T13, T14, T15, T16, T17, T18, T19)) {
        (self.0, self.1, self.2, self.3, other.0, other.1, other.2, other.3, other.4, other.5, other.6, other.7, other.8, other.9, other.10, other.11, other.12, other.13, other.14)
    }

    proof fn lemma_join_arity(self, other: (T5, T6, T7, T8, T9, T10, T11, T12, T13, T14, T15, T16, T17, T18, T19)) {
    }
}

impl<T1, T2, T3, T4, T5, T6, T7, T8, T9, T10, T11, T12, T13, T14, T15, T16, T17, T18, T19> JoinableTuple<(T6, T7, T8, T9, T10, T11, T12, T13, T14, T15, T16, T17, T18, T19)> for (T1, T2, T3, T4, T5) {
    type Join = (T1, T2, T3, T4, T5, T6, T7, T8, T9, T10, T11, T12, T13, T14, T15, T16, T17, T18, T19);

    open spec fn spec_join(self, other: (T6, T7, T8, T9, T10, T11, T12, T13, T14, T15, T16, T17, T18, T19)) -> (T1, T2, T3, T4, T5, T6, T7, T8, T9, T10, T11, T12, T13, T14, T15, T16, T17, T18, T19) {
        (self.0, self.1, self.2, self.3, self.4, other.0, other.1, other.2, other.3, other.4, other.5, other.6, other.7, other.8, other.9, other.10, other.11, other.12, other.13)
    }

    fn join(self, other: (T6, T7, T8, T9, T10, T11, T12, T13, T14, T15, T16, T17, T18, T19)) -> (r: (T1, T2, T3, T4, T5, T6, T7, T8, T9, T10, T11, T12, T13, T14, T15, T16, T17, T18, T19)) {
        (self.0, self.1, self.2, self.3, self.4, other.0, other.1, other.2, other.3, other.4, other.5, other.6, other.7, other.8, other.9, other.10, other.11, other.12, other.13)
    }

    proof fn lemma_join_arity(self, other: (T6, T7, T8, T9, T10, T11, T12, T13, T14, T15, T16, T17, T18, T19)) {
    }
}

impl<T1, T2, T3, T4, T5, T6, T7, T8, T9, T10, T11, T12, T13, T14, T15, T16, T17, T18, T19> JoinableTuple<(T7, T8, T9, T10, T11, T12, T13, T14, T15, T16, T17, T18, T19)> for (T1, T2, T3, T4, T5, T6) {
    type Join = (T1, T2, T3, T4, T5, T6, T7, T8, T9, T10, T11, T12, T13, T14, T15, T16, T17, T18, T19);

    open spec fn spec_join(self, other: (T7, T8, T9, T10, T11, T12, T13, T14, T15, T16, T17, T18, T19)) -> (T1, T2, T3, T4, T5, T6, T7, T8, T9, T10, T11, T12, T13, T14, T15, T16, T17, T18, T19) {
        (self.0, self.1, self.2, self.3, self.4, self.5, other.0, other.1, other.2, other.3, other.4, other.5, other.6, other.7, other.8, other.9, other.10, other.11, other.12)
    }

    fn join(self, other: (T7, T8, T9, T10, T11, T12, T13, T14, T15, T16, T17, T18, T19)) -> (r: (T1, T2, T3, T4, T5, T6, T7, T8, T9, T10, T11, T12, T13, T14, T15, T16, T17, T18, T19)) {
        (self.0, self.1, self.2, self.3, self.4, self.5, other.0, other.1, other.2, other.3, other.4, other.5, other.6, other.7, other.8, other.9, other.10, other.11, other.12)
    }

    proof fn lemma_join_arity(self, other: (T7, T8, T9, T10, T11, T12, T13, T14, T15, T16, T17, T18, T19)) {
    }
}

impl<T1, T2, T3, T4, T5, T6, T7, T8, T9, T10, T11, T12, T13, T14, T15, T16, T17, T18, T19> JoinableTuple<(T8, T9, T10, T11, T12, T13, T14, T15, T16, T17, T18, T19)> for (T1, T2, T3, T4, T5, T6, T7) {
    type Join = (T1, T2, T3, T4, T5, T6, T7, T8, T9, T10, T11, T12, T13, T14, T15, T16, T17, T18, T19);

    open spec fn spec_join(self, other: (T8, T9, T10, T11, T12, T13, T14, T15, T16, T17, T18, T19)) -> (T1, T2, T3, T4, T5, T6, T7, T8, T9, T10, T11, T12, T13, T14, T15, T16, T17, T18, T19) {
        (self.0, self.1, self.2, self.3, self.4, self.5, self.6, other.0, other.1, other.2, other.3, other.4, other.5, other.6, other.7, other.8, other.9, other.10, other.11)
    }

    fn join(self, other: (T8, T9, T10, T11, T12, T13, T14, T15, T16, T17, T18, T19)) -> (r: (T1, T2, T3, T4, T5, T6, T7, T8, T9, T10, T11, T12, T13, T14, T15, T16, T17, T18, T19)) {
        (self.0, self.1, self.2, self.3, self.4, self.5, self.6, other.0, other.1, other.2, other.3, other.4, other.5, other.6, other.7, other.8, other.9, other.10, other.11)
    }

    proof fn lemma_join_arity(self, other: (T8, T9, T10, T11, T12, T13, T14, T15, T16, T17, T18, T19)) {
    }
}

impl<T1, T2, T3, T4, T5, T6, T7, T8, T9, T10, T11, T12, T13, T14, T15, T16, T17, T18, T19> JoinableTuple<(T9, T10, T11, T12, T13, T14, T15, T16, T17, T18, T19)> for (T1, T2, T3, T4, T5, T6, T7, T8) {
    type Join = (T1, T2, T3, T4, T5, T6, T7, T8, T9, T10, T11, T12, T13, T14, T15, T16, T17, T18, T19);

    open spec fn spec_join(self, other: (T9, T10, T11, T12, T13, T14, T15, T16, T17, T18, T19)) -> (T1, T2, T3, T4, T5, T6, T7, T8, T9, T10, T11, T12, T13, T14, T15, T16, T17, T18, T19) {
        (self.0, self.1, self.2, self.3, self.4, self.5, self.6, self.7, other.0, other.1, other.2, other.3, other.4, other.5, other.6, other.7, other.8, other.9, other.10)
    }

    fn join(self, other: (T9, T10, T11, T12, T13, T14, T15, T16, T17, T18, T19)) -> (r: (T1, T2, T3, T4, T5, T6, T7, T8, T9, T10, T11, T12, T13, T14, T15, T16, T17, T18, T19)) {
        (self.0, self.1, self.2, self.3, self.4, self.5, self.6, self.7, other.0, other.1, other.2, other.3, other.4, other.5, other.6, other.7, other.8, other.9, other.10)
    }

    proof fn lemma_join_arity(self, other: (T9, T10, T11, T12, T13, T14, T15, T16, T17, T18, T19)) {
    }
}

impl<T1, T2, T3, T4, T5, T6, T7, T8, T9, T10, T11, T12, T13, T14, T15, T16, T17, T18, T19> JoinableTuple<(T10, T11, T12, T13, T14, T15, T16, T17, T18, T19)> for (T1, T2, T3, T4, T5, T6, T7, T8, T9) {
    type Join = (T1, T2, T3, T4, T5, T6, T7, T8, T9, T10, T11, T12, T13, T14, T15, T16, T17, T18, T19);

    open spec fn spec_join(self, other: (T10, T11, T12, T13, T14, T15, T16, T17, T18, T19)) -> (T1, T2, T3, T4, T5, T6, T7, T8, T9, T10, T11, T12, T13, T14, T15, T16, T17, T18, T19) {
        (self.0, self.1, self.2, self.3, self.4, self.5, self.6, self.7, self.8, other.0, other.1, other.2, other.3, other.4, other.5, other.6, other.7, other.8, other.9)
    }

    fn join(self, other: (T10, T11, T12, T13, T14, T15, T16, T17, T18, T19)) -> (r: (T1, T2, T3, T4, T5, T6, T7, T8, T9, T10, T11, T12, T13, T14, T15, T16, T17, T18, T19)) {
        (self.0, self.1, self.2, self.3, self.4, self.5, self.6, self.7, self.8, other.0, other.1, other.2, other.3, other.4, other.5, other.6, other.7, other.8, other.9)
    }

    proof fn lemma_join_arity(self, other: (T10, T11, T12, T13, T14, T15, T16, T17, T18, T19)) {
    }
}

impl<T1, T2, T3, T4, T5, T6, T7, T8, T9, T10, T11, T12, T13, T14, T15, T16, T17, T18, T19> JoinableTuple<(T11, T12, T13, T14, T15, T16, T17, T18, T19)> for (T1, T2, T3, T4, T5, T6, T7, T8, T9, T10) {
    type Join = (T1, T2, T3, T4, T5, T6, T7, T8, T9, T10, T11, T12, T13, T14, T15, T16, T17, T18, T19);

    open spec fn spec_join(self, other: (T11, T12, T13, T14, T15, T16, T17, T18, T19)) -> (T1, T2, T3, T4, T5, T6, T7, T8, T9, T10, T11, T12, T13, T14, T15, T16, T17, T18, T19) {
        (self.0, self.1, self.2, self.3, self.4, self.5, self.6, self.7, self.8, self.9, other.0, other.1, other.2, other.3, other.4, other.5, other.6, other.7, other.8)
    }

    fn join(self, other: (T11, T12, T13, T14, T15, T16, T17, T18, T19)) -> (r: (T1, T2, T3, T4, T5, T6, T7, T8, T9, T10, T11, T12, T13, T14, T15, T16, T17, T18, T19)) {
        (self.0, self.1, self.2, self.3, self.4, self.5, self.6, self.7, self.8, self.9, other.0, other.1, other.2, other.3, other.4, other.5, other.6, other.7, other.8)
    }

    proof fn lemma_join_arity(self, other: (T11, T12, T13, T14, T15, T16, T17, T18, T19)) {
    }
}

impl<T1, T2, T3, T4, T5, T6, T7, T8, T9, T10, T11, T12, T13, T14, T15, T16, T17, T18, T19> JoinableTuple<(T12, T13, T14, T15, T16, T17, T18, T19)> for (T1, T2, T3, T4, T5, T6, T7, T8, T9, T10, T11) {
    type Join = (T1, T2, T3, T4, T5, T6, T7, T8, T9, T10, T11, T12, T13, T14, T15, T16, T17, T18, T19);

    open spec fn spec_join(self, other: (T12, T13, T14, T15, T16, T17, T18, T19)) -> (T1, T2, T3, T4, T5, T6, T7, T8, T9, T10, T11, T12, T13, T14, T15, T16, T17, T18, T19) {
        (self.0, self.1, self.2, self.3, self.4, self.5, self.6, self.7, self.8, self.9, self.10, other.0, other.1, other.2, other.3, other.4, other.5, other.6, other.7)
    }

    fn join(self, other: (T12, T13, T14, T15, T16, T17, T18, T19)) -> (r: (T1, T2, T3, T4, T5, T6, T7, T8, T9, T10, T11, T12, T13, T14, T15, T16, T17, T18, T19)) {
        (self.0, self.1, self.2, self.3, self.4, self.5, self.6, self.7, self.8, self.9, self.10, other.0, other.1, other.2, other.3, other.4, other.5, other.6, other.7)
    }

    proof fn lemma_join_arity(self, other: (T12, T13, T14, T15, T16, T17, T18, T19)) {
    }
}

impl<T1, T2, T3, T4, T5, T6, T7, T8, T9, T10, T11, T12, T13, T14, T15, T16, T17, T18, T19> JoinableTuple<(T13, T14, T15, T16, T17, T18, T19)> for (T1, T2, T3, T4, T5, T6, T7, T8, T9, T10, T11, T12) {
    type Join = (T1, T2, T3, T4, T5, T6, T7, T8, T9, T10, T11, T12, T13, T14, T15, T16, T17, T18, T19);

    open spec fn spec_join(self, other: (T13, T14, T15, T16, T17, T18, T19)) -> (T1, T2, T3, T4, T5, T6, T7, T8, T9, T10, T11, T12, T13, T14, T15, T16, T17, T18, T19) {
        (self.0, self.1, self.2, self.3, self.4, self.5, self.6, self.7, self.8, self.9, self.10, self.11, other.0, other.1, other.2, other.3, other.4, other.5, other.6)
    }

    fn join(self, other: (T13, T14, T15, T16, T17, T18, T19)) -> (r: (T1, T2, T3, T4, T5, T6, T7, T8, T9, T10, T11, T12, T13, T14, T15, T16, T17, T18, T19)) {
        (self.0, self.1, self.2, self.3, self.4, self.5, self.6, self.7, self.8, self.9, self.10, self.11, other.0, other.1, other.2, other.3, other.4, other.5, other.6)
    }

    proof fn lemma_join_arity(self, other: (T13, T14, T15, T16, T17, T18, T19)) {
    }
}

impl<T1, T2, T3, T4, T5, T6, T7, T8, T9, T10, T11, T12, T13, T14, T15, T16, T17, T18, T19> JoinableTuple<(T14, T15, T16, T17, T18, T19)> for (T1, T2, T3, T4, T5, T6, T7, T8, T9, T10, T11, T12, T13) {
    type Join = (T1, T2, T3, T4, T5, T6, T7, T8, T9, T10, T11, T12, T13, T14, T15, T16, T17, T18, T19);

    open spec fn spec_join(self, other: (T14, T15, T16, T17, T18, T19)) -> (T1, T2, T3, T4, T5, T6, T7, T8, T9, T10, T11, T12, T13, T14, T15, T16, T17, T18, T19) {
        (self.0, self.1, self.2, self.3, self.4, self.5, self.6, self.7, self.8, self.9, self.10, self.11, self.12, other.0, other.1, other.2, other.3, other.4, other.5)
    }

    fn join(self, other: (T14, T15, T16, T17, T18, T19)) -> (r: (T1, T2, T3, T4, T5, T6, T7, T8, T9, T10, T11, T12, T13, T14, T15, T16, T17, T18, T19)) {
        (self.0, self.1, self.2, self.3, self.4, self.5, self.6, self.7, self.8, self.9, self.10, self.11, self.12, other.0, other.1, other.2, other.3, other.4, other.5)
    }

    proof fn lemma_join_arity(self, other: (T14, T15, T16, T17, T18, T19)) {
    }
}

impl<T1, T2, T3, T4, T5, T6, T7, T8, T9, T10, T11, T12, T13, T14, T15, T16, T17, T18, T19> JoinableTuple<(T15, T16, T17, T18, T19)> for (T1, T2, T3, T4, T5, T6, T7, T8, T9, T10, T11, T12, T13, T14) {
    type Join = (T1, T2, T3, T4, T5, T6, T7, T8, T9, T10, T11, T12, T13, T14, T15, T16, T17, T18, T19);

    open spec fn spec_join(self, other: (T15, T16, T17, T18, T19)) -> (T1, T2, T3, T4, T5, T6, T7, T8, T9, T10, T11, T12, T13, T14, T15, T16, T17, T18, T19) {
        (self.0, self.1, self.2, self.3, self.4, self.5, self.6, self.7, self.8, self.9, self.10, self.11, self.12, self.13, other.0, other.1, other.2, other.3, other.4)
    }

    fn join(self, other: (T15, T16, T17, T18, T19)) -> (r: (T1, T2, T3, T4, T5, T6, T7, T8, T9, T10, T11, T12, T13, T14, T15, T16, T17, T18, T19)) {
        (self.0, self.1, self.2, self.3, self.4, self.5, self.6, self.7, self.8, self.9, self.10, self.11, self.12, self.13, other.0, other.1, other.2, other.3, other.4)
    }

    proof fn lemma_join_arity(self, other: (T15, T16, T17, T18, T19)) {
    }
}

impl<T1, T2, T3, T4, T5, T6, T7, T8, T9, T10, T11, T12, T13, T14, T15, T16, T17, T18, T19> JoinableTuple<(T16, T17, T18, T19)> for (T1, T2, T3, T4, T5, T6, T7, T8, T9, T10, T11, T12, T13, T14, T15) {
    type Join = (T1, T2, T3, T4, T5, T6, T7, T8, T9, T10, T11, T12, T13, T14, T15, T16, T17, T18, T19);

    open spec fn spec_join(self, other: (T16, T17, T18, T19)) -> (T1, T2, T3, T4, T5, T6, T7, T8, T9, T10, T11, T12, T13, T14, T15, T16, T17, T18, T19) {
        (self.0, self.1, self.2, self.3, self.4, self.5, self.6, self.7, self.8, self.9, self.10, self.11, self.12, self.13, self.14, other.0, other.1, other.2, other.3)
    }

    fn join(self, other: (T16, T17, T18, T19)) -> (r: (T1, T2, T3, T4, T5, T6, T7, T8, T9, T10, T11, T12, T13, T14, T15, T16, T17, T18, T19)) {
        (self.0, self.1, self.2, self.3, self.4, self.5, self.6, self.7, self.8, self.9, self.10, self.11, self.12, self.13, self.14, other.0, other.1, other.2, other.3)
    }

    proof fn lemma_join_arity(self, other: (T16, T17, T18, T19)) {
    }
}

impl<T1, T2, T3, T4, T5, T6, T7, T8, T9, T10, T11, T12, T13, T14, T15, T16, T17, T18, T19> JoinableTuple<(T17, T18, T19)> for (T1, T2, T3, T4, T5, T6, T7, T8, T9, T10, T11, T12, T13, T14, T15, T16) {
    type Join = (T1, T2, T3, T4, T5, T6, T7, T8, T9, T10, T11, T12, T13, T14, T15, T16, T17, T18, T19);

    open spec fn spec_join(self, other: (T17, T18, T19)) -> (T1, T2, T3, T4, T5, T6, T7, T8, T9, T10, T11, T12, T13, T14, T15, T16, T17, T18, T19) {
        (self.0, self.1, self.2, self.3, self.4, self.5, self.6, self.7, self.8, self.9, self.10, self.11, self.12, self.13, self.14, self.15, other.0, other.1, other.2)
    }

    fn join(self, other: (T17, T18, T19)) -> (r: (T1, T2, T3, T4, T5, T6, T7, T8, T9, T10, T11, T12, T13, T14, T15, T16, T17, T18, T19)) {
        (self.0, self.1, self.2, self.3, self.4, self.5, self.6, self.7, self.8, self.9, self.10, self.11, self.12, self.13, self.14, self.15, other.0, other.1, other.2)
    }

    proof fn lemma_join_arity(self, other: (T17, T18, T19)) {
    }
}

impl<T1, T2, T3, T4, T5, T6, T7, T8, T9, T10, T11, T12, T13, T14, T15, T16, T17, T18, T19> JoinableTuple<(T18, T19)> for (T1, T2, T3, T4, T5, T6, T7, T8, T9, T10, T11, T12, T13, T14, T15, T16, T17) {
    type Join = (T1, T2, T3, T4, T5, T6, T7, T8, T9, T10, T11, T12, T13, T14, T15, T16, T17, T18, T19);

    open spec fn spec_join(self, other: (T18, T19)) -> (T1, T2, T3, T4, T5, T6, T7, T8, T9, T10, T11, T12, T13, T14, T15, T16, T17, T18, T19) {
        (self.0, self.1, self.2, self.3, self.4, self.5, self.6, self.7, self.8, self.9, self.10, self.11, self.12, self.13, self.14, self.15, self.16, other.0, other.1)
    }

    fn join(self, other: (T18, T19)) -> (r: (T1, T2, T3, T4, T5, T6, T7, T8, T9, T10, T11, T12, T13, T14, T15, T16, T17, T18, T19)) {
        (self.0, self.1, self.2, self.3, self.4, self.5, self.6, self.7, self.8, self.9, self.10, self.11, self.12, self.13, self.14, self.15, self.16, other.0, other.1)
    }

    proof fn lemma_join_arity(self, other: (T18, T19)) {
    }
}

impl<T1, T2, T3, T4, T5, T6, T7, T8, T9, T10, T11, T12, T13, T14, T15, T16, T17, T18, T19> JoinableTuple<(T19,)> for (T1, T2, T3, T4, T5, T6, T7, T8, T9, T10, T11, T12, T13, T14, T15, T16, T17, T18) {
    type Join = (T1, T2, T3, T4, T5, T6, T7, T8, T9, T10, T11, T12, T13, T14, T15, T16, T17, T18, T19);

    open spec fn spec_join(self, other: (T19,)) -> (T1, T2, T3, T4, T5, T6, T7, T8, T9, T10, T11, T12, T13, T14, T15, T16, T17, T18, T19) {
        (self.0, self.1, self.2, self.3, self.4, self.5, self.6, self.7, self.8, self.9, self.10, self.11, self.12, self.13, self.14, self.15, self.16, self.17, other.0)
    }

    fn join(self, other: (T19,)) -> (r: (T1, T2, T3, T4, T5, T6, T7, T8, T9, T10, T11, T12, T13, T14, T15, T16, T17, T18, T19)) {
        (self.0, self.1, self.2, self.3, self.4, self.5, self.6, self.7, self.8, self.9, self.10, self.11, self.12, self.13, self.14, self.15, self.16, self.17, other.0)
    }

    proof fn lemma_join_arity(self, other: (T19,)) {
    }
}

impl<T1, T2, T3, T4, T5, T6, T7, T8, T9, T10, T11, T12, T13, T14, T15, T16, T17, T18, T19> JoinableTuple<()> for (T1, T2, T3, T4, T5, T6, T7, T8, T9, T10, T11, T12, T13, T14, T15, T16, T17, T18, T19) {
    type Join = (T1, T2, T3, T4, T5, T6, T7, T8, T9, T10, T11, T12, T13, T14, T15, T16, T17, T18, T19);

    open spec fn spec_join(self, other: ()) -> (T1, T2, T3, T4, T5, T6, T7, T8, T9, T10, T11, T12, T13, T14, T15, T16, T17, T18, T19) {
        (self.0, self.1, self.2, self.3, self.4, self.5, self.6, self.7, self.8, self.9, self.10, self.11, self.12, self.13, self.14, self.15, self.16, self.17, self.18)
    }

    fn join(self, other: ()) -> (r: (T1, T2, T3, T4, T5, T6, T7, T8, T9, T10, T11, T12, T13, T14, T15, T16, T17, T18, T19)) {
        (self.0, self.1, self.2, self.3, self.4, self.5, self.6, self.7, self.8, self.9, self.10, self.11, self.12, self.13, self.14, self.15, self.16, self.17, self.18)
    }

    proof fn lemma_join_arity(self, other: ()) {
    }
}

impl<T1, T2, T3, T4, T5, T6, T7, T8, T9, T10, T11, T12, T13, T14, T15, T16, T17, T18, T19, T20> Sealed for (T1, T2, T3, T4, T5, T6, T7, T8, T9, T10, T11, T12, T13, T14, T15, T16, T17, T18, T19, T20) {}

impl<T1, T2, T3, T4, T5, T6, T7, T8, T9, T10, T11, T12, T13, T14, T15, T16, T17, T18, T19, T20> DynTuple for (T1, T2, T3, T4, T5, T6, T7, T8, T9, T10, T11, T12, T13, T14, T15, T16, T17, T18, T19, T20) {
    open spec fn spec_arity(&self) -> nat {
        20
    }

    fn arity(&self) -> (r: usize) {
        20
    }
}

impl<T1, T2, T3, T4, T5, T6, T7, T8, T9, T10, T11, T12, T13, T14, T15, T16, T17, T18, T19, T20> Tuple for (T1, T2, T3, T4, T5, T6, T7, T8, T9, T10, T11, T12, T13, T14, T15, T16, T17, T18, T19, T20) {
    const ARITY: usize = 20;

    open spec fn spec_type_arity() -> nat {
        20
    }

    proof fn lemma_arity(&self) {
    }

    proof fn lemma_type_arity() {
    }
}

impl<T1, T2, T3, T4, T5, T6, T7, T8, T9, T10, T11, T12, T13, T14, T15, T16, T17, T18, T19, T20, T> GrowableTuple<T> for (T1, T2, T3, T4, T5, T6, T7, T8, T9, T10, T11, T12, T13, T14, T15, T16, T17, T18, T19, T20) {
    type Append = (T1, T2, T3, T4, T5, T6, T7, T8, T9, T10, T11, T12, T13, T14, T15, T16, T17, T18, T19, T20, T);

    type Prepend = (T, T1, T2, T3, T4, T5, T6, T7, T8, T9, T10, T11, T12, T13, T14, T15, T16, T17, T18, T19, T20);

    open spec fn spec_append(self, value: T) -> (T1, T2, T3, T4, T5, T6, T7, T8, T9, T10, T11, T12, T13, T14, T15, T16, T17, T18, T19, T20, T) {
        (self.0, self.1, self.2, self.3, self.4, self.5, self.6, self.7, self.8, self.9, self.10, self.11, self.12, self.13, self.14, self.15, self.16, self.17, self.18, self.19, value)
    }

    open spec fn spec_prepend(self, value: T) -> (T, T1, T2, T3, T4, T5, T6, T7, T8, T9, T10, T11, T12, T13, T14, T15, T16, T17, T18, T19, T20) {
        (value, self.0, self.1, self.2, self.3, self.4, self.5, self.6, self.7, self.8, self.9, self.10, self.11, self.12, self.13, self.14, self.15, self.16, self.17, self.18, self.19)
    }

    fn append(self, value: T) -> (r: (T1, T2, T3, T4, T5, T6, T7, T8, T9, T10, T11, T12, T13, T14, T15, T16, T17, T18, T19, T20, T)) {
        (self.0, self.1, self.2, self.3, self.4, self.5, self.6, self.7, self.8, self.9, self.10, self.11, self.12, self.13, self.14, self.15, self.16, self.17, self.18, self.19, value)
    }

    fn prepend(self, value: T) -> (r: (T, T1, T2, T3, T4, T5, T6, T7, T8, T9, T10, T11, T12, T13, T14, T15, T16, T17, T18, T19, T20)) {
        (value, self.0, self.1, self.2, self.3, self.4, self.5, self.6, self.7, self.8, self.9, self.10, self.11, self.12, self.13, self.14, self.15, self.16, self.17, self.18, self.19)
    }

    proof fn lemma_grow_arity(self, value: T) {
    }
}

impl<T1, T2, T3, T4, T5, T6, T7, T8, T9, T10, T11, T12, T13, T14, T15, T16, T17, T18, T19, T20> NonEmptyTuple for (T1, T2, T3, T4, T5, T6, T7, T8, T9, T10, T11, T12, T13, T14, T15, T16, T17, T18, T19, T20) {
    type Head = T1;

    type Tail = T20;

    type TruncateHead = (T2, T3, T4, T5, T6, T7, T8, T9, T10, T11, T12, T13, T14, T15, T16, T17, T18, T19, T20);

    type TruncateTail = (T1, T2, T3, T4, T5, T6, T7, T8, T9, T10, T11, T12, T13, T14, T15, T16, T17, T18, T19);

    open spec fn spec_head(&self) -> T1 {
        self.0
    }

    open spec fn spec_tail(&self) -> T20 {
        self.19
    }

    open spec fn spec_with_head(self, value: T1) -> (T1, T2, T3, T4, T5, T6, T7, T8, T9, T10, T11, T12, T13, T14, T15, T16, T17, T18, T19, T20) {
        (value, self.1, self.2, self.3, self.4, self.5, self.6, self.7, self.8, self.9, self.10, self.11, self.12, self.13, self.14, self.15, self.16, self.17, self.18, self.19)
    }

    open spec fn spec_with_tail(self, value: T20) -> (T1, T2, T3, T4, T5, T6, T7, T8, T9, T10, T11, T12, T13, T14, T15, T16, T17, T18, T19, T20) {
        (self.0, self.1, self.2, self.3, self.4, self.5, self.6, self.7, self.8, self.9, self.10, self.11, self.12, self.13, self.14, self.15, self.16, self.17, self.18, value)
    }

    open spec fn spec_truncate_head(self) -> (T1, (T2, T3, T4, T5, T6, T7, T8, T9, T10, T11, T12, T13, T14, T15, T16, T17, T18, T19, T20)) {
        (self.0, (self.1, self.2, self.3, self.4, self.5, self.6, self.7, self.8, self.9, self.10, self.11, self.12, self.13, self.14, self.15, self.16, self.17, self.18, self.19))
    }

    open spec fn spec_truncate_tail(self) -> ((T1, T2, T3, T4, T5, T6, T7, T8, T9, T10, T11, T12, T13, T14, T15, T16, T17, T18, T19), T20) {
        ((self.0, self.1, self.2, self.3, self.4, self.5, self.6, self.7, self.8, self.9, self.10, self.11, self.12, self.13, self.14, self.15, self.16, self.17, self.18), self.19)
    }

    fn head(&self) -> (r: &T1) {
        &self.0
    }

    fn head_mut(&mut self) -> (r: &mut T1) {
        &mut self.0
    }

    fn tail(&self) -> (r: &T20) {
        &self.19
    }

    fn tail_mut(&mut self) -> (r: &mut T20) {
        &mut self.19
    }

    fn truncate_head(self) -> (r: (T1, (T2, T3, T4, T5, T6, T7, T8, T9, T10, T11, T12, T13, T14, T15, T16, T17, T18, T19, T20))) {
        (self.0, (self.1, self.2, self.3, self.4, self.5, self.6, self.7, self.8, self.9, self.10, self.11, self.12, self.13, self.14, self.15, self.16, self.17, self.18, self.19))
    }

    fn truncate_tail(self) -> (r: ((T1, T2, T3, T4, T5, T6, T7, T8, T9, T10, T11, T12, T13, T14, T15, T16, T17, T18, T19), T20)) {
        ((self.0, self.1, self.2, self.3, self.4, self.5, self.6, self.7, self.8, self.9, self.10, self.11, self.12, self.13, self.14, self.15, self.16, self.17, self.18), self.19)
    }

    proof fn lemma_truncate_head(self) {
    }

    proof fn lemma_truncate_tail(self) {
    }
}

impl<T1, T2, T3, T4, T5, T6, T7, T8, T9, T10, T11, T12, T13, T14, T15, T16, T17, T18, T19, T20> NonUnaryTuple for (T1, T2, T3, T4, T5, T6, T7, T8, T9, T10, T11, T12, T13, T14, T15, T16, T17, T18, T19, T20) {
    type TruncateHeadTail = (T2, T3, T4, T5, T6, T7, T8, T9, T10, T11, T12, T13, T14, T15, T16, T17, T18, T19);

    open spec fn spec_truncate_head_tail(self) -> (T1, (T2, T3, T4, T5, T6, T7, T8, T9, T10, T11, T12, T13, T14, T15, T16, T17, T18, T19), T20) {
        (self.0, (self.1, self.2, self.3, self.4, self.5, self.6, self.7, self.8, self.9, self.10, self.11, self.12, self.13, self.14, self.15, self.16, self.17, self.18), self.19)
    }

    fn head_tail(&self) -> (r: (&T1, &T20)) {
        (&self.0, &self.19)
    }

    fn head_tail_mut(&mut self) -> (r: (&mut T1, &mut T20)) {
        (&mut self.0, &mut self.19)
    }

    fn truncate_head_tail(self) -> (r: (T1, (T2, T3, T4, T5, T6, T7, T8, T9, T10, T11, T12, T13, T14, T15, T16, T17, T18, T19), T20)) {
        (self.0, (self.1, self.2, self.3, self.4, self.5, self.6, self.7, self.8, self.9, self.10, self.11, self.12, self.13, self.14, self.15, self.16, self.17, self.18), self.19)
    }

    proof fn lemma_truncate_head_tail(self) {
    }
}

impl<T1, T2, T3, T4, T5, T6, T7, T8, T9, T10, T11, T12, T13, T14, T15, T16, T17, T18, T19, T20> IndexableTuple<0> for (T1, T2, T3, T4, T5, T6, T7, T8, T9, T10, T11, T12, T13, T14, T15, T16, T17, T18, T19, T20) {
    type Value = T1;

    open spec fn spec_index(&self) -> T1 {
        self.0
    }

    open spec fn spec_with_index(self, value: T1) -> (T1, T2, T3, T4, T5, T6, T7, T8, T9, T10, T11, T12, T13, T14, T15, T16, T17, T18, T19, T20) {
        (value, self.1, self.2, self.3, self.4, self.5, self.6, self.7, self.8, self.9, self.10, self.11, self.12, self.13, self.14, self.15, self.16, self.17, self.18, self.19)
    }

    fn index_ref(&self) -> (r: &T1) {
        &self.0
    }

    fn index_mut(&mut self) -> (r: &mut T1) {
        &mut self.0
    }

    fn into_index(self) -> (r: T1) {
        self.0
    }

    proof fn lemma_index_in_range(&self) {
    }
}

impl<T1, T2, T3, T4, T5, T6, T7, T8, T9, T10, T11, T12, T13, T14, T15, T16, T17, T18, T19, T20> IndexableTuple<1> for (T1, T2, T3, T4, T5, T6, T7, T8, T9, T10, T11, T12, T13, T14, T15, T16, T17, T18, T19, T20) {
    type Value = T2;

    open spec fn spec_index(&self) -> T2 {
        self.1
    }

    open spec fn spec_with_index(self, value: T2) -> (T1, T2, T3, T4, T5, T6, T7, T8, T9, T10, T11, T12, T13, T14, T15, T16, T17, T18, T19, T20) {
        (self.0, value, self.2, self.3, self.4, self.5, self.6, self.7, self.8, self.9, self.10, self.11, self.12, self.13, self.14, self.15, self.16, self.17, self.18, self.19)
    }

    fn index_ref(&self) -> (r: &T2) {
        &self.1
    }

    fn index_mut(&mut self) -> (r: &mut T2) {
        &mut self.1
    }

    fn into_index(self) -> (r: T2) {
        self.1
    }

    proof fn lemma_index_in_range(&self) {
    }
}

impl<T1, T2, T3, T4, T5, T6, T7, T8, T9, T10, T11, T12, T13, T14, T15, T16, T17, T18, T19, T20> IndexableTuple<2> for (T1, T2, T3, T4, T5, T6, T7, T8, T9, T10, T11, T12, T13, T14, T15, T16, T17, T18, T19, T20) {
    type Value = T3;

    open spec fn spec_index(&self) -> T3 {
        self.2
    }

    open spec fn spec_with_index(self, value: T3) -> (T1, T2, T3, T4, T5, T6, T7, T8, T9, T10, T11, T12, T13, T14, T15, T16, T17, T18, T19, T20) {
        (self.0, self.1, value, self.3, self.4, self.5, self.6, self.7, self.8, self.9, self.10, self.11, self.12, self.13, self.14, self.15, self.16, self.17, self.18, self.19)
    }

    fn index_ref(&self) -> (r: &T3) {
        &self.2
    }

    fn index_mut(&mut self) -> (r: &mut T3) {
        &mut self.2
    }

    fn into_index(self) -> (r: T3) {
        self.2
    }

    proof fn lemma_index_in_range(&self) {
    }
}

impl<T1, T2, T3, T4, T5, T6, T7, T8, T9, T10, T11, T12, T13, T14, T15, T16, T17, T18, T19, T20> IndexableTuple<3> for (T1, T2, T3, T4, T5, T6, T7, T8, T9, T10, T11, T12, T13, T14, T15, T16, T17, T18, T19, T20) {
    type Value = T4;

    open spec fn spec_index(&self) -> T4 {
        self.3
    }

    open spec fn spec_with_index(self, value: T4) -> (T1, T2, T3, T4, T5, T6, T7, T8, T9, T10, T11, T12, T13, T14, T15, T16, T17, T18, T19, T20) {
        (self.0, self.1, self.2, value, self.4, self.5, self.6, self.7, self.8, self.9, self.10, self.11, self.12, self.13, self.14, self.15, self.16, self.17, self.18, self.19)
    }

    fn index_ref(&self) -> (r: &T4) {
        &self.3
    }

    fn index_mut(&mut self) -> (r: &mut T4) {
        &mut self.3
    }

    fn into_index(self) -> (r: T4) {
        self.3
    }

    proof fn lemma_index_in_range(&self) {
    }
}

impl<T1, T2, T3, T4, T5, T6, T7, T8, T9, T10, T11, T12, T13, T14, T15, T16, T17, T18, T19, T20> IndexableTuple<4> for (T1, T2, T3, T4, T5, T6, T7, T8, T9, T10, T11, T12, T13, T14, T15, T16, T17, T18, T19, T20) {
    type Value = T5;

    open spec fn spec_index(&self) -> T5 {
        self.4
    }

    open spec fn spec_with_index(self, value: T5) -> (T1, T2, T3, T4, T5, T6, T7, T8, T9, T10, T11, T12, T13, T14, T15, T16, T17, T18, T19, T20) {
        (self.0, self.1, self.2, self.3, value, self.5, self.6, self.7, self.8, self.9, self.10, self.11, self.12, self.13, self.14, self.15, self.16, self.17, self.18, self.19)
    }

    fn index_ref(&self) -> (r: &T5) {
        &self.4
    }

    fn index_mut(&mut self) -> (r: &mut T5) {
        &mut self.4
    }

    fn into_index(self) -> (r: T5) {
        self.4
    }

    proof fn lemma_index_in_range(&self) {
    }
}

impl<T1, T2, T3, T4, T5, T6, T7, T8, T9, T10, T11, T12, T13, T14, T15, T16, T17, T18, T19, T20> IndexableTuple<5> for (T1, T2, T3, T4, T5, T6, T7, T8, T9, T10, T11, T12, T13, T14, T15, T16, T17, T18, T19, T20) {
    type Value = T6;

    open spec fn spec_index(&self) -> T6 {
        self.5
    }

    open spec fn spec_with_index(self, value: T6) -> (T1, T2, T3, T4, T5, T6, T7, T8, T9, T10, T11, T12, T13, T14, T15, T16, T17, T18, T19, T20) {
        (self.0, self.1, self.2, self.3, self.4, value, self.6, self.7, self.8, self.9, self.10, self.11, self.12, self.13, self.14, self.15, self.16, self.17, self.18, self.19)
    }

    fn index_ref(&self) -> (r: &T6) {
        &self.5
    }

    fn index_mut(&mut self) -> (r: &mut T6) {
        &mut self.5
    }

    fn into_index(self) -> (r: T6) {
        self.5
    }

    proof fn lemma_index_in_range(&self) {
    }
}

impl<T1, T2, T3, T4, T5, T6, T7, T8, T9, T10, T11, T12, T13, T14, T15, T16, T17, T18, T19, T20> IndexableTuple<6> for (T1, T2, T3, T4, T5, T6, T7, T8, T9, T10, T11, T12, T13, T14, T15, T16, T17, T18, T19, T20) {
    type Value = T7;

    open spec fn spec_index(&self) -> T7 {
        self.6
    }

    open spec fn spec_with_index(self, value: T7) -> (T1, T2, T3, T4, T5, T6, T7, T8, T9, T10, T11, T12, T13, T14, T15, T16, T17, T18, T19, T20) {
        (self.0, self.1, self.2, self.3, self.4, self.5, value, self.7, self.8, self.9, self.10, self.11, self.12, self.13, self.14, self.15, self.16, self.17, self.18, self.19)
    }

    fn index_ref(&self) -> (r: &T7) {
        &self.6
    }

    fn index_mut(&mut self) -> (r: &mut T7) {
        &mut self.6
    }

    fn into_index(self) -> (r: T7) {
        self.6
    }

    proof fn lemma_index_in_range(&self) {
    }
}

impl<T1, T2, T3, T4, T5, T6, T7, T8, T9, T10, T11, T12, T13, T14, T15, T16, T17, T18, T19, T20> IndexableTuple<7> for (T1, T2, T3, T4, T5, T6, T7, T8, T9, T10, T11, T12, T13, T14, T15, T16, T17, T18, T19, T20) {
    type Value = T8;

    open spec fn spec_index(&self) -> T8 {
        self.7
    }

    open spec fn spec_with_index(self, value: T8) -> (T1, T2, T3, T4, T5, T6, T7, T8, T9, T10, T11, T12, T13, T14, T15, T16, T17, T18, T19, T20) {
        (self.0, self.1, self.2, self.3, self.4, self.5, self.6, value, self.8, self.9, self.10, self.11, self.12, self.13, self.14, self.15, self.16, self.17, self.18, self.19)
    }

    fn index_ref(&self) -> (r: &T8) {
        &self.7
    }

    fn index_mut(&mut self) -> (r: &mut T8) {
        &mut self.7
    }

    fn into_index(self) -> (r: T8) {
        self.7
    }

    proof fn lemma_index_in_range(&self) {
    }
}

impl<T1, T2, T3, T4, T5, T6, T7, T8, T9, T10, T11, T12, T13, T14, T15, T16, T17, T18, T19, T20> IndexableTuple<8> for (T1, T2, T3, T4, T5, T6, T7, T8, T9, T10, T11, T12, T13, T14, T15, T16, T17, T18, T19, T20) {
    type Value = T9;

    open spec fn spec_index(&self) -> T9 {
        self.8
    }

    open spec fn spec_with_index(self, value: T9) -> (T1, T2, T3, T4, T5, T6, T7, T8, T9, T10, T11, T12, T13, T14, T15, T16, T17, T18, T19, T20) {
        (self.0, self.1, self.2, self.3, self.4, self.5, self.6, self.7, value, self.9, self.10, self.11, self.12, self.13, self.14, self.15, self.16, self.17, self.18, self.19)
    }

    fn index_ref(&self) -> (r: &T9) {
        &self.8
    }

    fn index_mut(&mut self) -> (r: &mut T9) {
        &mut self.8
    }

    fn into_index(self) -> (r: T9) {
        self.8
    }

    proof fn lemma_index_in_range(&self) {
    }
}

impl<T1, T2, T3, T4, T5, T6, T7, T8, T9, T10, T11, T12, T13, T14, T15, T16, T17, T18, T19, T20> IndexableTuple<9> for (T1, T2, T3, T4, T5, T6, T7, T8, T9, T10, T11, T12, T13, T14, T15, T16, T17, T18, T19, T20) {
    type Value = T10;

    open spec fn spec_index(&self) -> T10 {
        self.9
    }

    open spec fn spec_with_index(self, value: T10) -> (T1, T2, T3, T4, T5, T6, T7, T8, T9, T10, T11, T12, T13, T14, T15, T16, T17, T18, T19, T20) {
        (self.0, self.1, self.2, self.3, self.4, self.5, self.6, self.7, self.8, value, self.10, self.11, self.12, self.13, self.14, self.15, self.16, self.17, self.18, self.19)
    }

    fn index_ref(&self) -> (r: &T10) {
        &self.9
    }

    fn index_mut(&mut self) -> (r: &mut T10) {
        &mut self.9
    }

    fn into_index(self) -> (r: T10) {
        self.9
    }

    proof fn lemma_index_in_range(&self) {
    }
}

impl<T1, T2, T3, T4, T5, T6, T7, T8, T9, T10, T11, T12, T13, T14, T15, T16, T17, T18, T19, T20> IndexableTuple<10> for (T1, T2, T3, T4, T5, T6, T7, T8, T9, T10, T11, T12, T13, T14, T15, T16, T17, T18, T19, T20) {
    type Value = T11;

    open spec fn spec_index(&self) -> T11 {
        self.10
    }

    open spec fn spec_with_index(self, value: T11) -> (T1, T2, T3, T4, T5, T6, T7, T8, T9, T10, T11, T12, T13, T14, T15, T16, T17, T18, T19, T20) {
        (self.0, self.1, self.2, self.3, self.4, self.5, self.6, self.7, self.8, self.9, value, self.11, self.12, self.13, self.14, self.15, self.16, self.17, self.18, self.19)
    }

    fn index_ref(&self) -> (r: &T11) {
        &self.10
    }

    fn index_mut(&mut self) -> (r: &mut T11) {
        &mut self.10
    }

    fn into_index(self) -> (r: T11) {
        self.10
    }

    proof fn lemma_index_in_range(&self) {
    }
}

impl<T1, T2, T3, T4, T5, T6, T7, T8, T9, T10, T11, T12, T13, T14, T15, T16, T17, T18, T19, T20> IndexableTuple<11> for (T1, T2, T3, T4, T5, T6, T7, T8, T9, T10, T11, T12, T13, T14, T15, T16, T17, T18, T19, T20) {
    type Value = T12;

    open spec fn spec_index(&self) -> T12 {
        self.11
    }

    open spec fn spec_with_index(self, value: T12) -> (T1, T2, T3, T4, T5, T6, T7, T8, T9, T10, T11, T12, T13, T14, T15, T16, T17, T18, T19, T20) {
        (self.0, self.1, self.2, self.3, self.4, self.5, self.6, self.7, self.8, self.9, self.10, value, self.12, self.13, self.14, self.15, self.16, self.17, self.18, self.19)
    }

    fn index_ref(&self) -> (r: &T12) {
        &self.11
    }

    fn index_mut(&mut self) -> (r: &mut T12) {
        &mut self.11
    }

    fn into_index(self) -> (r: T12) {
        self.11
    }

    proof fn lemma_index_in_range(&self) {
    }
}

impl<T1, T2, T3, T4, T5, T6, T7, T8, T9, T10, T11, T12, T13, T14, T15, T16, T17, T18, T19, T20> IndexableTuple<12> for (T1, T2, T3, T4, T5, T6, T7, T8, T9, T10, T11, T12, T13, T14, T15, T16, T17, T18, T19, T20) {
    type Value = T13;

    open spec fn spec_index(&self) -> T13 {
        self.12
    }

    open spec fn spec_with_index(self, value: T13) -> (T1, T2, T3, T4, T5, T6, T7, T8, T9, T10, T11, T12, T13, T14, T15, T16, T17, T18, T19, T20) {
        (self.0, self.1, self.2, self.3, self.4, self.5, self.6, self.7, self.8, self.9, self.10, self.11, value, self.13, self.14, self.15, self.16, self.17, self.18, self.19)
    }

    fn index_ref(&self) -> (r: &T13) {
        &self.12
    }

    fn index_mut(&mut self) -> (r: &mut T13) {
        &mut self.12
    }

    fn into_index(self) -> (r: T13) {
        self.12
    }

    proof fn lemma_index_in_range(&self) {
    }
}

impl<T1, T2, T3, T4, T5, T6, T7, T8, T9, T10, T11, T12, T13, T14, T15, T16, T17, T18, T19, T20> IndexableTuple<13> for (T1, T2, T3, T4, T5, T6, T7, T8, T9, T10, T11, T12, T13, T14, T15, T16, T17, T18, T19, T20) {
    type Value = T14;

    open spec fn spec_index(&self) -> T14 {
        self.13
    }

    open spec fn spec_with_index(self, value: T14) -> (T1, T2, T3, T4, T5, T6, T7, T8, T9, T10, T11, T12, T13, T14, T15, T16, T17, T18, T19, T20) {
        (self.0, self.1, self.2, self.3, self.4, self.5, self.6, self.7, self.8, self.9, self.10, self.11, self.12, value, self.14, self.15, self.16, self.17, self.18, self.19)
    }

    fn index_ref(&self) -> (r: &T14) {
        &self.13
    }

    fn index_mut(&mut self) -> (r: &mut T14) {
        &mut self.13
    }

    fn into_index(self) -> (r: T14) {
        self.13
    }

    proof fn lemma_index_in_range(&self) {
    }
}

impl<T1, T2, T3, T4, T5, T6, T7, T8, T9, T10, T11, T12, T13, T14, T15, T16, T17, T18, T19, T20> IndexableTuple<14> for (T1, T2, T3, T4, T5, T6, T7, T8, T9, T10, T11, T12, T13, T14, T15, T16, T17, T18, T19, T20) {
    type Value = T15;

    open spec fn spec_index(&self) -> T15 {
        self.14
    }

    open spec fn spec_with_index(self, value: T15) -> (T1, T2, T3, T4, T5, T6, T7, T8, T9, T10, T11, T12, T13, T14, T15, T16, T17, T18, T19, T20) {
        (self.0, self.1, self.2, self.3, self.4, self.5, self.6, self.7, self.8, self.9, self.10, self.11, self.12, self.13, value, self.15, self.16, self.17, self.18, self.19)
    }

    fn index_ref(&self) -> (r: &T15) {
        &self.14
    }

    fn index_mut(&mut self) -> (r: &mut T15) {
        &mut self.14
    }

    fn into_index(self) -> (r: T15) {
        self.14
    }

    proof fn lemma_index_in_range(&self) {
    }
}

impl<T1, T2, T3, T4, T5, T6, T7, T8, T9, T10, T11, T12, T13, T14, T15, T16, T17, T18, T19, T20> IndexableTuple<15> for (T1, T2, T3, T4, T5, T6, T7, T8, T9, T10, T11, T12, T13, T14, T15, T16, T17, T18, T19, T20) {
    type Value = T16;

    open spec fn spec_index(&self) -> T16 {
        self.15
    }

    open spec fn spec_with_index(self, value: T16) -> (T1, T2, T3, T4, T5, T6, T7, T8, T9, T10, T11, T12, T13, T14, T15, T16, T17, T18, T19, T20) {
        (self.0, self.1, self.2, self.3, self.4, self.5, self.6, self.7, self.8, self.9, self.10, self.11, self.12, self.13, self.14, value, self.16, self.17, self.18, self.19)
    }

    fn index_ref(&self) -> (r: &T16) {
        &self.15
    }

    fn index_mut(&mut self) -> (r: &mut T16) {
        &mut self.15
    }

    fn into_index(self) -> (r: T16) {
        self.15
    }

    proof fn lemma_index_in_range(&self) {
    }
}

impl<T1, T2, T3, T4, T5, T6, T7, T8, T9, T10, T11, T12, T13, T14, T15, T16, T17, T18, T19, T20> IndexableTuple<16> for (T1, T2, T3, T4, T5, T6, T7, T8, T9, T10, T11, T12, T13, T14, T15, T16, T17, T18, T19, T20) {
    type Value = T17;

    open spec fn spec_index(&self) -> T17 {
        self.16
    }

    open spec fn spec_with_index(self, value: T17) -> (T1, T2, T3, T4, T5, T6, T7, T8, T9, T10, T11, T12, T13, T14, T15, T16, T17, T18, T19, T20) {
        (self.0, self.1, self.2, self.3, self.4, self.5, self.6, self.7, self.8, self.9, self.10, self.11, self.12, self.13, self.14, self.15, value, self.17, self.18, self.19)
    }

    fn index_ref(&self) -> (r: &T17) {
        &self.16
    }

    fn index_mut(&mut self) -> (r: &mut T17) {
        &mut self.16
    }

    fn into_index(self) -> (r: T17) {
        self.16
    }

    proof fn lemma_index_in_range(&self) {
    }
}

impl<T1, T2, T3, T4, T5, T6, T7, T8, T9, T10, T11, T12, T13, T14, T15, T16, T17, T18, T19, T20> IndexableTuple<17> for (T1, T2, T3, T4, T5, T6, T7, T8, T9, T10, T11, T12, T13, T14, T15, T16, T17, T18, T19, T20) {
    type Value = T18;

    open spec fn spec_index(&self) -> T18 {
        self.17
    }

    open spec fn spec_with_index(self, value: T18) -> (T1, T2, T3, T4, T5, T6, T7, T8, T9, T10, T11, T12, T13, T14, T15, T16, T17, T18, T19, T20) {
        (self.0, self.1, self.2, self.3, self.4, self.5, self.6, self.7, self.8, self.9, self.10, self.11, self.12, self.13, self.14, self.15, self.16, value, self.18, self.19)
    }

    fn index_ref(&self) -> (r: &T18) {
        &self.17
    }

    fn index_mut(&mut self) -> (r: &mut T18) {
        &mut self.17
    }

    fn into_index(self) -> (r: T18) {
        self.17
    }

    proof fn lemma_index_in_range(&self) {
    }
}

impl<T1, T2, T3, T4, T5, T6, T7, T8, T9, T10, T11, T12, T13, T14, T15, T16, T17, T18, T19, T20> IndexableTuple<18> for (T1, T2, T3, T4, T5, T6, T7, T8, T9, T10, T11, T12, T13, T14, T15, T16, T17, T18, T19, T20) {
    type Value = T19;

    open spec fn spec_index(&self) -> T19 {
        self.18
    }

    open spec fn spec_with_index(self, value: T19) -> (T1, T2, T3, T4, T5, T6, T7, T8, T9, T10, T11, T12, T13, T14, T15, T16, T17, T18, T19, T20) {
        (self.0, self.1, self.2, self.3, self.4, self.5, self.6, self.7, self.8, self.9, self.10, self.11, self.12, self.13, self.14, self.15, self.16, self.17, value, self.19)
    }

    fn index_ref(&self) -> (r: &T19) {
        &self.18
    }

    fn index_mut(&mut self) -> (r: &mut T19) {
        &mut self.18
    }

    fn into_index(self) -> (r: T19) {
        self.18
    }

    proof fn lemma_index_in_range(&self) {
    }
}

impl<T1, T2, T3, T4, T5, T6, T7, T8, T9, T10, T11, T12, T13, T14, T15, T16, T17, T18, T19, T20> IndexableTuple<19> for (T1, T2, T3, T4, T5, T6, T7, T8, T9, T10, T11, T12, T13, T14, T15, T16, T17, T18, T19, T20) {
    type Value = T20;

    open spec fn spec_index(&self) -> T20 {
        self.19
    }

    open spec fn spec_with_index(self, value: T20) -> (T1, T2, T3, T4, T5, T6, T7, T8, T9, T10, T11, T12, T13, T14, T15, T16, T17, T18, T19, T20) {
        (self.0, self.1, self.2, self.3, self.4, self.5, self.6, self.7, self.8, self.9, self.10, self.11, self.12, self.13, self.14, self.15, self.16, self.17, self.18, value)
    }

    fn index_ref(&self) -> (r: &T20) {
        &self.19
    }

    fn index_mut(&mut self) -> (r: &mut T20) {
        &mut self.19
    }

    fn into_index(self) -> (r: T20) {
        self.19
    }

    proof fn lemma_index_in_range(&self) {
    }
}

impl<T1, T2, T3, T4, T5, T6, T7, T8, T9, T10, T11, T12, T13, T14, T15, T16, T17, T18, T19, T20> JoinableTuple<(T1, T2, T3, T4, T5, T6, T7, T8, T9, T10, T11, T12, T13, T14, T15, T16, T17, T18, T19, T20)> for () {
    type Join = (T1, T2, T3, T4, T5, T6, T7, T8, T9, T10, T11, T12, T13, T14, T15, T16, T17, T18, T19, T20);

    open spec fn spec_join(self, other: (T1, T2, T3, T4, T5, T6, T7, T8, T9, T10, T11, T12, T13, T14, T15, T16, T17, T18, T19, T20)) -> (T1, T2, T3, T4, T5, T6, T7, T8, T9, T10, T11, T12, T13, T14, T15, T16, T17, T18, T19, T20) {
        (other.0, other.1, other.2, other.3, other.4, other.5, other.6, other.7, other.8, other.9, other.10, other.11, other.12, other.13, other.14, other.15, other.16, other.17, other.18, other.19)
    }

    fn join(self, other: (T1, T2, T3, T4, T5, T6, T7, T8, T9, T10, T11, T12, T13, T14, T15, T16, T17, T18, T19, T20)) -> (r: (T1, T2, T3, T4, T5, T6, T7, T8, T9, T10, T11, T12, T13, T14, T15, T16, T17, T18, T19, T20)) {
        (other.0, other.1, other.2, other.3, other.4, other.5, other.6, other.7, other.8, other.9, other.10, other.11, other.12, other.13, other.14, other.15, other.16, other.17, other.18, other.19)
    }

    proof fn lemma_join_arity(self, other: (T1, T2, T3, T4, T5, T6, T7, T8, T9, T10, T11, T12, T13, T14, T15, T16, T17, T18, T19, T20)) {
    }
}

impl<T1, T2, T3, T4, T5, T6, T7, T8, T9, T10, T11, T12, T13, T14, T15, T16, T17, T18, T19, T20> JoinableTuple<(T2, T3, T4, T5, T6, T7, T8, T9, T10, T11, T12, T13, T14, T15, T16, T17, T18, T19, T20)> for (T1,) {
    type Join = (T1, T2, T3, T4, T5, T6, T7, T8, T9, T10, T11, T12, T13, T14, T15, T16, T17, T18, T19, T20);

    open spec fn spec_join(self, other: (T2, T3, T4, T5, T6, T7, T8, T9, T10, T11, T12, T13, T14, T15, T16, T17, T18, T19, T20)) -> (T1, T2, T3, T4, T5, T6, T7, T8, T9, T10, T11, T12, T13, T14, T15, T16, T17, T18, T19, T20) {
        (self.0, other.0, other.1, other.2, other.3, other.4, other.5, other.6, other.7, other.8, other.9, other.10, other.11, other.12, other.13, other.14, other.15, other.16, other.17, other.18)
    }

    fn join(self, other: (T2, T3, T4, T5, T6, T7, T8, T9, T10, T11, T12, T13, T14, T15, T16, T17, T18, T19, T20)) -> (r: (T1, T2, T3, T4, T5, T6, T7, T8, T9, T10, T11, T12, T13, T14, T15, T16, T17, T18, T19, T20)) {
        (self.0, other.0, other.1, other.2, other.3, other.4, other.5, other.6, other.7, other.8, other.9, other.10, other.11, other.12, other.13, other.14, other.15, other.16, other.17, other.18)
    }

    proof fn lemma_join_arity(self, other: (T2, T3, T4, T5, T6, T7, T8, T9, T10, T11, T12, T13, T14, T15, T16, T17, T18, T19, T20)) {
    }
}

impl<T1, T2, T3, T4, T5, T6, T7, T8, T9, T10, T11, T12, T13, T14, T15, T16, T17, T18, T19, T20> JoinableTuple<(T3, T4, T5, T6, T7, T8, T9, T10, T11, T12, T13, T14, T15, T16, T17, T18, T19, T20)> for (T1, T2) {
    type Join = (T1, T2, T3, T4, T5, T6, T7, T8, T9, T10, T11, T12, T13, T14, T15, T16, T17, T18, T19, T20);

    open spec fn spec_join(self, other: (T3, T4, T5, T6, T7, T8, T9, T10, T11, T12, T13, T14, T15, T16, T17, T18, T19, T20)) -> (T1, T2, T3, T4, T5, T6, T7, T8, T9, T10, T11, T12, T13, T14, T15, T16, T17, T18, T19, T20) {
        (self.0, self.1, other.0, other.1, other.2, other.3, other.4, other.5, other.6, other.7, other.8, other.9, other.10, other.11, other.12, other.13, other.14, other.15, other.16, other.17)
    }

    fn join(self, other: (T3, T4, T5, T6, T7, T8, T9, T10, T11, T12, T13, T14, T15, T16, T17, T18, T19, T20)) -> (r: (T1, T2, T3, T4, T5, T6, T7, T8, T9, T10, T11, T12, T13, T14, T15, T16, T17, T18, T19, T20)) {
        (self.0, self.1, other.0, other.1, other.2, other.3, other.4, other.5, other.6, other.7, other.8, other.9, other.10, other.11, other.12, other.13, other.14, other.15, other.16, other.17)
    }

    proof fn lemma_join_arity(self, other: (T3, T4, T5, T6, T7, T8, T9, T10, T11, T12, T13, T14, T15, T16, T17, T18, T19, T20)) {
    }
}

impl<T1, T2, T3, T4, T5, T6, T7, T8, T9, T10, T11, T12, T13, T14, T15, T16, T17, T18, T19, T20> JoinableTuple<(T4, T5, T6, T7, T8, T9, T10, T11, T12, T13, T14, T15, T16, T17, T18, T19, T20)> for (T1, T2, T3) {
    type Join = (T1, T2, T3, T4, T5, T6, T7, T8, T9, T10, T11, T12, T13, T14, T15, T16, T17, T18, T19, T20);

    open spec fn spec_join(self, other: (T4, T5, T6, T7, T8, T9, T10, T11, T12, T13, T14, T15, T16, T17, T18, T19, T20)) -> (T1, T2, T3, T4, T5, T6, T7, T8, T9, T10, T11, T12, T13, T14, T15, T16, T17, T18, T19, T20) {
        (self.0, self.1, self.2, other.0, other.1, other.2, other.3, other.4, other.5, other.6, other.7, other.8, other.9, other.10, other.11, other.12, other.13, other.14, other.15, other.16)
    }

    fn join(self, other: (T4, T5, T6, T7, T8, T9, T10, T11, T12, T13, T14, T15, T16, T17, T18, T19, T20)) -> (r: (T1, T2, T3, T4, T5, T6, T7, T8, T9, T10, T11, T12, T13, T14, T15, T16, T17, T18, T19, T20)) {
        (self.0, self.1, self.2, other.0, other.1, other.2, other.3, other.4, other.5, other.6, other.7, other.8, other.9, other.10, other.11, other.12, other.13, other.14, other.15, other.16)
    }

    proof fn lemma_join_arity(self, other: (T4, T5, T6, T7, T8, T9, T10, T11, T12, T13, T14, T15, T16, T17, T18, T19, T20)) {
    }
}

impl<T1, T2, T3, T4, T5, T6, T7, T8, T9, T10, T11, T12, T13, T14, T15, T16, T17, T18, T19, T20> JoinableTuple<(T5, T6, T7, T8, T9, T10, T11, T12, T13, T14, T15, T16, T17, T18, T19, T20)> for (T1, T2, T3, T4) {
    type Join = (T1, T2, T3, T4, T5, T6, T7, T8, T9, T10, T11, T12, T13, T14, T15, T16, T17, T18, T19, T20);

    open spec fn spec_join(self, other: (T5, T6, T7, T8, T9, T10, T11, T12, T13, T14, T15, T16, T17, T18, T19, T20)) -> (T1, T2, T3, T4, T5, T6, T7, T8, T9, T10, T11, T12, T13, T14, T15, T16, T17, T18, T19, T20) {
        (self.0, self.1, self.2, self.3, other.0, other.1, other.2, other.3, other.4, other.5, other.6, other.7, other.8, other.9, other.10, other.11, other.12, other.13, other.14, other.15)
    }

    fn join(self, other: (T5, T6, T7, T8, T9, T10, T11, T12, T13, T14, T15, T16, T17, T18, T19, T20)) -> (r: (T1, T2, T3, T4, T5, T6, T7, T8, T9, T10, T11, T12, T13, T14, T15, T16, T17, T18, T19, T20)) {
        (self.0, self.1, self.2, self.3, other.0, other.1, other.2, other.3, other.4, other.5, other.6, other.7, other.8, other.9, other.10, other.11, other.12, other.13, other.14, other.15)
    }

    proof fn lemma_join_arity(self, other: (T5, T6, T7, T8, T9, T10, T11, T12, T13, T14, T15, T16, T17, T18, T19, T20)) {
    }
}

impl<T1, T2, T3, T4, T5, T6, T7, T8, T9, T10, T11, T12, T13, T14, T15, T16, T17, T18, T19, T20> JoinableTuple<(T6, T7, T8, T9, T10, T11, T12, T13, T14, T15, T16, T17, T18, T19, T20)> for (T1, T2, T3, T4, T5) {
    type Join = (T1, T2, T3, T4, T5, T6, T7, T8, T9, T10, T11, T12, T13, T14, T15, T16, T17, T18, T19, T20);

    open spec fn spec_join(self, other: (T6, T7, T8, T9, T10, T11, T12, T13, T14, T15, T16, T17, T18, T19, T20)) -> (T1, T2, T3, T4, T5, T6, T7, T8, T9, T10, T11, T12, T13, T14, T15, T16, T17, T18, T19, T20) {
        (self.0, self.1, self.2, self.3, self.4, other.0, other.1, other.2, other.3, other.4, other.5, other.6, other.7, other.8, other.9, other.10, other.11, other.12, other.13, other.14)
    }

    fn join(self, other: (T6, T7, T8, T9, T10, T11, T12, T13, T14, T15, T16, T17, T18, T19, T20)) -> (r: (T1, T2, T3, T4, T5, T6, T7, T8, T9, T10, T11, T12, T13, T14, T15, T16, T17, T18, T19, T20)) {
        (self.0, self.1, self.2, self.3, self.4, other.0, other.1, other.2, other.3, other.4, other.5, other.6, other.7, other.8, other.9, other.10, other.11, other.12, other.13, other.14)
    }

    proof fn lemma_join_arity(self, other: (T6, T7, T8, T9, T10, T11, T12, T13, T14, T15, T16, T17, T18, T19, T20)) {
    }
}

impl<T1, T2, T3, T4, T5, T6, T7, T8, T9, T10, T11, T12, T13, T14, T15, T16, T17, T18, T19, T20> JoinableTuple<(T7, T8, T9, T10, T11, T12, T13, T14, T15, T16, T17, T18, T19, T20)> for (T1, T2, T3, T4, T5, T6) {
    type Join = (T1, T2, T3, T4, T5, T6, T7, T8, T9, T10, T11, T12, T13, T14, T15, T16, T17, T18, T19, T20);

    open spec fn spec_join(self, other: (T7, T8, T9, T10, T11, T12, T13, T14, T15, T16, T17, T18, T19, T20)) -> (T1, T2, T3, T4, T5, T6, T7, T8, T9, T10, T11, T12, T13, T14, T15, T16, T17, T18, T19, T20) {
        (self.0, self.1, self.2, self.3, self.4, self.5, other.0, other.1, other.2, other.3, other.4, other.5, other.6, other.7, other.8, other.9, other.10, other.11, other.12, other.13)
    }

    fn join(self, other: (T7, T8, T9, T10, T11, T12, T13, T14, T15, T16, T17, T18, T19, T20)) -> (r: (T1, T2, T3, T4, T5, T6, T7, T8, T9, T10, T11, T12, T13, T14, T15, T16, T17, T18, T19, T20)) {
        (self.0, self.1, self.2, self.3, self.4, self.5, other.0, other.1, other.2, other.3, other.4, other.5, other.6, other.7, other.8, other.9, other.10, other.11, other.12, other.13)
    }

    proof fn lemma_join_arity(self, other: (T7, T8, T9, T10, T11, T12, T13, T14, T15, T16, T17, T18, T19, T20)) {
    }
}

impl<T1, T2, T3, T4, T5, T6, T7, T8, T9, T10, T11, T12, T13, T14, T15, T16, T17, T18, T19, T20> JoinableTuple<(T8, T9, T10, T11, T12, T13, T14, T15, T16, T17, T18, T19, T20)> for (T1, T2, T3, T4, T5, T6, T7) {
    type Join = (T1, T2, T3, T4, T5, T6, T7, T8, T9, T10, T11, T12, T13, T14, T15, T16, T17, T18, T19, T20);

    open spec fn spec_join(self, other: (T8, T9, T10, T11, T12, T13, T14, T15, T16, T17, T18, T19, T20)) -> (T1, T2, T3, T4, T5, T6, T7, T8, T9, T10, T11, T12, T13, T14, T15, T16, T17, T18, T19, T20) {
        (self.0, self.1, self.2, self.3, self.4, self.5, self.6, other.0, other.1, other.2, other.3, other.4, other.5, other.6, other.7, other.8, other.9, other.10, other.11, other.12)
    }

    fn join(self, other: (T8, T9, T10, T11, T12, T13, T14, T15, T16, T17, T18, T19, T20)) -> (r: (T1, T2, T3, T4, T5, T6, T7, T8, T9, T10, T11, T12, T13, T14, T15, T16, T17, T18, T19, T20)) {
        (self.0, self.1, self.2, self.3, self.4, self.5, self.6, other.0, other.1, other.2, other.3, other.4, other.5, other.6, other.7, other.8, other.9, other.10, other.11, other.12)
    }

    proof fn lemma_join_arity(self, other: (T8, T9, T10, T11, T12, T13, T14, T15, T16, T17, T18, T19, T20)) {
    }
}

impl<T1, T2, T3, T4, T5, T6, T7, T8, T9, T10, T11, T12, T13, T14, T15, T16, T17, T18, T19, T20> JoinableTuple<(T9, T10, T11, T12, T13, T14, T15, T16, T17, T18, T19, T20)> for (T1, T2, T3, T4, T5, T6, T7, T8) {
    type Join = (T1, T2, T3, T4, T5, T6, T7, T8, T9, T10, T11, T12, T13, T14, T15, T16, T17, T18, T19, T20);

    open spec fn spec_join(self, other: (T9, T10, T11, T12, T13, T14, T15, T16, T17, T18, T19, T20)) -> (T1, T2, T3, T4, T5, T6, T7, T8, T9, T10, T11, T12, T13, T14, T15, T16, T17, T18, T19, T20) {
        (self.0, self.1, self.2, self.3, self.4, self.5, self.6, self.7, other.0, other.1, other.2, other.3, other.4, other.5, other.6, other.7, other.8, other.9, other.10, other.11)
    }

    fn join(self, other: (T9, T10, T11, T12, T13, T14, T15, T16, T17, T18, T19, T20)) -> (r: (T1, T2, T3, T4, T5, T6, T7, T8, T9, T10, T11, T12, T13, T14, T15, T16, T17, T18, T19, T20)) {
        (self.0, self.1, self.2, self.3, self.4, self.5, self.6, self.7, other.0, other.1, other.2, other.3, other.4, other.5, other.6, other.7, other.8, other.9, other.10, other.11)
    }

    proof fn lemma_join_arity(self, other: (T9, T10, T11, T12, T13, T14, T15, T16, T17, T18, T19, T20)) {
    }
}

impl<T1, T2, T3, T4, T5, T6, T7, T8, T9, T10, T11, T12, T13, T14, T15, T16, T17, T18, T19, T20> JoinableTuple<(T10, T11, T12, T13, T14, T15, T16, T17, T18, T19, T20)> for (T1, T2, T3, T4, T5, T6, T7, T8, T9) {
    type Join = (T1, T2, T3, T4, T5, T6, T7, T8, T9, T10, T11, T12, T13, T14, T15, T16, T17, T18, T19, T20);

    open spec fn spec_join(self, other: (T10, T11, T12, T13, T14, T15, T16, T17, T18, T19, T20)) -> (T1, T2, T3, T4, T5, T6, T7, T8, T9, T10, T11, T12, T13, T14, T15, T16, T17, T18, T19, T20) {
        (self.0, self.1, self.2, self.3, self.4, self.5, self.6, self.7, self.8, other.0, other.1, other.2, other.3, other.4, other.5, other.6, other.7, other.8, other.9, other.10)
    }

    fn join(self, other: (T10, T11, T12, T13, T14, T15, T16, T17, T18, T19, T20)) -> (r: (T1, T2, T3, T4, T5, T6, T7, T8, T9, T10, T11, T12, T13, T14, T15, T16, T17, T18, T19, T20)) {
        (self.0, self.1, self.2, self.3, self.4, self.5, self.6, self.7, self.8, other.0, other.1, other.2, other.3, other.4, other.5, other.6, other.7, other.8, other.9, other.10)
    }

    proof fn lemma_join_arity(self, other: (T10, T11, T12, T13, T14, T15, T16, T17, T18, T19, T20)) {
    }
}

impl<T1, T2, T3, T4, T5, T6, T7, T8, T9, T10, T11, T12, T13, T14, T15, T16, T17, T18, T19, T20> JoinableTuple<(T11, T12, T13, T14, T15, T16, T17, T18, T19, T20)> for (T1, T2, T3, T4, T5, T6, T7, T8, T9, T10) {
    type Join = (T1, T2, T3, T4, T5, T6, T7, T8, T9, T10, T11, T12, T13, T14, T15, T16, T17, T18, T19, T20);

    open spec fn spec_join(self, other: (T11, T12, T13, T14, T15, T16, T17, T18, T19, T20)) -> (T1, T2, T3, T4, T5, T6, T7, T8, T9, T10, T11, T12, T13, T14, T15, T16, T17, T18, T19, T20) {
        (self.0, self.1, self.2, self.3, self.4, self.5, self.6, self.7, self.8, self.9, other.0, other.1, other.2, other.3, other.4, other.5, other.6, other.7, other.8, other.9)
    }

    fn join(self, other: (T11, T12, T13, T14, T15, T16, T17, T18, T19, T20)) -> (r: (T1, T2, T3, T4, T5, T6, T7, T8, T9, T10, T11, T12, T13, T14, T15, T16, T17, T18, T19, T20)) {
        (self.0, self.1, self.2, self.3, self.4, self.5, self.6, self.7, self.8, self.9, other.0, other.1, other.2, other.3, other.4, other.5, other.6, other.7, other.8, other.9)
    }

    proof fn lemma_join_arity(self, other: (T11, T12, T13, T14, T15, T16, T17, T18, T19, T20)) {
    }
}

impl<T1, T2, T3, T4, T5, T6, T7, T8, T9, T10, T11, T12, T13, T14, T15, T16, T17, T18, T19, T20> JoinableTuple<(T12, T13, T14, T15, T16, T17, T18, T19, T20)> for (T1, T2, T3, T4, T5, T6, T7, T8, T9, T10, T11) {
    type Join = (T1, T2, T3, T4, T5, T6, T7, T8, T9, T10, T11, T12, T13, T14, T15, T16, T17, T18, T19, T20);

    open spec fn spec_join(self, other: (T12, T13, T14, T15, T16, T17, T18, T19, T20)) -> (T1, T2, T3, T4, T5, T6, T7, T8, T9, T10, T11, T12, T13, T14, T15, T16, T17, T18, T19, T20) {
        (self.0, self.1, self.2, self.3, self.4, self.5, self.6, self.7, self.8, self.9, self.10, other.0, other.1, other.2, other.3, other.4, other.5, other.6, other.7, other.8)
    }

    fn join(self, other: (T12, T13, T14, T15, T16, T17, T18, T19, T20)) -> (r: (T1, T2, T3, T4, T5, T6, T7, T8, T9, T10, T11, T12, T13, T14, T15, T16, T17, T18, T19, T20)) {
        (self.0, self.1, self.2, self.3, self.4, self.5, self.6, self.7, self.8, self.9, self.10, other.0, other.1, other.2, other.3, other.4, other.5, other.6, other.7, other.8)
    }

    proof fn lemma_join_arity(self, other: (T12, T13, T14, T15, T16, T17, T18, T19, T20)) {
    }
}

impl<T1, T2, T3, T4, T5, T6, T7, T8, T9, T10, T11, T12, T13, T14, T15, T16, T17, T18, T19, T20> JoinableTuple<(T13, T14, T15, T16, T17, T18, T19, T20)> for (T1, T2, T3, T4, T5, T6, T7, T8, T9, T10, T11, T12) {
    type Join = (T1, T2, T3, T4, T5, T6, T7, T8, T9, T10, T11, T12, T13, T14, T15, T16, T17, T18, T19, T20);

    open spec fn spec_join(self, other: (T13, T14, T15, T16, T17, T18, T19, T20)) -> (T1, T2, T3, T4, T5, T6, T7, T8, T9, T10, T11, T12, T13, T14, T15, T16, T17, T18, T19, T20) {
        (self.0, self.1, self.2, self.3, self.4, self.5, self.6, self.7, self.8, self.9, self.10, self.11, other.0, other.1, other.2, other.3, other.4, other.5, other.6, other.7)
    }

    fn join(self, other: (T13, T14, T15, T16, T17, T18, T19, T20)) -> (r: (T1, T2, T3, T4, T5, T6, T7, T8, T9, T10, T11, T12, T13, T14, T15, T16, T17, T18, T19, T20)) {
        (self.0, self.1, self.2, self.3, self.4, self.5, self.6, self.7, self.8, self.9, self.10, self.11, other.0, other.1, other.2, other.3, other.4, other.5, other.6, other.7)
    }

    proof fn lemma_join_arity(self, other: (T13, T14, T15, T16, T17, T18, T19, T20)) {
    }
}

impl<T1, T2, T3, T4, T5, T6, T7, T8, T9, T10, T11, T12, T13, T14, T15, T16, T17, T18, T19, T20> JoinableTuple<(T14, T15, T16, T17, T18, T19, T20)> for (T1, T2, T3, T4, T5, T6, T7, T8, T9, T10, T11, T12, T13) {
    type Join = (T1, T2, T3, T4, T5, T6, T7, T8, T9, T10, T11, T12, T13, T14, T15, T16, T17, T18, T19, T20);

    open spec fn spec_join(self, other: (T14, T15, T16, T17, T18, T19, T20)) -> (T1, T2, T3, T4, T5, T6, T7, T8, T9, T10, T11, T12, T13, T14, T15, T16, T17, T18, T19, T20) {
        (self.0, self.1, self.2, self.3, self.4, self.5, self.6, self.7, self.8, self.9, self.10, self.11, self.12, other.0, other.1, other.2, other.3, other.4, other.5, other.6)
    }

    fn join(self, other: (T14, T15, T16, T17, T18, T19, T20)) -> (r: (T1, T2, T3, T4, T5, T6, T7, T8, T9, T10, T11, T12, T13, T14, T15, T16, T17, T18, T19, T20)) {
        (self.0, self.1, self.2, self.3, self.4, self.5, self.6, self.7, self.8, self.9, self.10, self.11, self.12, other.0, other.1, other.2, other.3, other.4, other.5, other.6)
    }

    proof fn lemma_join_arity(self, other: (T14, T15, T16, T17, T18, T19, T20)) {
    }
}

impl<T1, T2, T3, T4, T5, T6, T7, T8, T9, T10, T11, T12, T13, T14, T15, T16, T17, T18, T19, T20> JoinableTuple<(T15, T16, T17, T18, T19, T20)> for (T1, T2, T3, T4, T5, T6, T7, T8, T9, T10, T11, T12, T13, T14) {
    type Join = (T1, T2, T3, T4, T5, T6, T7, T8, T9, T10, T11, T12, T13, T14, T15, T16, T17, T18, T19, T20);

    open spec fn spec_join(self, other: (T15, T16, T17, T18, T19, T20)) -> (T1, T2, T3, T4, T5, T6, T7, T8, T9, T10, T11, T12, T13, T14, T15, T16, T17, T18, T19, T20) {
        (self.0, self.1, self.2, self.3, self.4, self.5, self.6, self.7, self.8, self.9, self.10, self.11, self.12, self.13, other.0, other.1, other.2, other.3, other.4, other.5)
    }

    fn join(self, other: (T15, T16, T17, T18, T19, T20)) -> (r: (T1, T2, T3, T4, T5, T6, T7, T8, T9, T10, T11, T12, T13, T14, T15, T16, T17, T18, T19, T20)) {
        (self.0, self.1, self.2, self.3, self.4, self.5, self.6, self.7, self.8, self.9, self.10, self.11, self.12, self.13, other.0, other.1, other.2, other.3, other.4, other.5)
    }

    proof fn lemma_join_arity(self, other: (T15, T16, T17, T18, T19, T20)) {
    }
}

impl<T1, T2, T3, T4, T5, T6, T7, T8, T9, T10, T11, T12, T13, T14, T15, T16, T17, T18, T19, T20> JoinableTuple<(T16, T17, T18, T19, T20)> for (T1, T2, T3, T4, T5, T6, T7, T8, T9, T10, T11, T12, T13, T14, T15) {
    type Join = (T1, T2, T3, T4, T5, T6, T7, T8, T9, T10, T11, T12, T13, T14, T15, T16, T17, T18, T19, T20);

    open spec fn spec_join(self, other: (T16, T17, T18, T19, T20)) -> (T1, T2, T3, T4, T5, T6, T7, T8, T9, T10, T11, T12, T13, T14, T15, T16, T17, T18, T19, T20) {
        (self.0, self.1, self.2, self.3, self.4, self.5, self.6, self.7, self.8, self.9, self.10, self.11, self.12, self.13, self.14, other.0, other.1, other.2, other.3, other.4)
    }

    fn join(self, other: (T16, T17, T18, T19, T20)) -> (r: (T1, T2, T3, T4, T5, T6, T7, T8, T9, T10, T11, T12, T13, T14, T15, T16, T17, T18, T19, T20)) {
        (self.0, self.1, self.2, self.3, self.4, self.5, self.6, self.7, self.8, self.9, self.10, self.11, self.12, self.13, self.14, other.0, other.1, other.2, other.3, other.4)
    }

    proof fn lemma_join_arity(self, other: (T16, T17, T18, T19, T20)) {
    }
}

impl<T1, T2, T3, T4, T5, T6, T7, T8, T9, T10, T11, T12, T13, T14, T15, T16, T17, T18, T19, T20> JoinableTuple<(T17, T18, T19, T20)> for (T1, T2, T3, T4, T5, T6, T7, T8, T9, T10, T11, T12, T13, T14, T15, T16) {
    type Join = (T1, T2, T3, T4, T5, T6, T7, T8, T9, T10, T11, T12, T13, T14, T15, T16, T17, T18, T19, T20);

    open spec fn spec_join(self, other: (T17, T18, T19, T20)) -> (T1, T2, T3, T4, T5, T6, T7, T8, T9, T10, T11, T12, T13, T14, T15, T16, T17, T18, T19, T20) {
        (self.0, self.1, self.2, self.3, self.4, self.5, self.6, self.7, self.8, self.9, self.10, self.11, self.12, self.13, self.14, self.15, other.0, other.1, other.2, other.3)
    }

    fn join(self, other: (T17, T18, T19, T20)) -> (r: (T1, T2, T3, T4, T5, T6, T7, T8, T9, T10, T11, T12, T13, T14, T15, T16, T17, T18, T19, T20)) {
        (self.0, self.1, self.2, self.3, self.4, self.5, self.6, self.7, self.8, self.9, self.10, self.11, self.12, self.13, self.14, self.15, other.0, other.1, other.2, other.3)
    }

    proof fn lemma_join_arity(self, other: (T17, T18, T19, T20)) {
    }
}

impl<T1, T2, T3, T4, T5, T6, T7, T8, T9, T10, T11, T12, T13, T14, T15, T16, T17, T18, T19, T20> JoinableTuple<(T18, T19, T20)> for (T1, T2, T3, T4, T5, T6, T7, T8, T9, T10, T11, T12, T13, T14, T15, T16, T17) {
    type Join = (T1, T2, T3, T4, T5, T6, T7, T8, T9, T10, T11, T12, T13, T14, T15, T16, T17, T18, T19, T20);

    open spec fn spec_join(self, other: (T18, T19, T20)) -> (T1, T2, T3, T4, T5, T6, T7, T8, T9, T10, T11, T12, T13, T14, T15, T16, T17, T18, T19, T20) {
        (self.0, self.1, self.2, self.3, self.4, self.5, self.6, self.7, self.8, self.9, self.10, self.11, self.12, self.13, self.14, self.15, self.16, other.0, other.1, other.2)
    }

    fn join(self, other: (T18, T19, T20)) -> (r: (T1, T2, T3, T4, T5, T6, T7, T8, T9, T10, T11, T12, T13, T14, T15, T16, T17, T18, T19, T20)) {
        (self.0, self.1, self.2, self.3, self.4, self.5, self.6, self.7, self.8, self.9, self.10, self.11, self.12, self.13, self.14, self.15, self.16, other.0, other.1, other.2)
    }

    proof fn lemma_join_arity(self, other: (T18, T19, T20)) {
    }
}

impl<T1, T2, T3, T4, T5, T6, T7, T8, T9, T10, T11, T12, T13, T14, T15, T16, T17, T18, T19, T20> JoinableTuple<(T19, T20)> for (T1, T2, T3, T4, T5, T6, T7, T8, T9, T10, T11, T12, T13, T14, T15, T16, T17, T18) {
    type Join = (T1, T2, T3, T4, T5, T6, T7, T8, T9, T10, T11, T12, T13, T14, T15, T16, T17, T18, T19, T20);

    open spec fn spec_join(self, other: (T19, T20)) -> (T1, T2, T3, T4, T5, T6, T7, T8, T9, T10, T11, T12, T13, T14, T15, T16, T17, T18, T19, T20) {
        (self.0, self.1, self.2, self.3, self.4, self.5, self.6, self.7, self.8, self.9, self.10, self.11, self.12, self.13, self.14, self.15, self.16, self.17, other.0, other.1)
    }

    fn join(self, other: (T19, T20)) -> (r: (T1, T2, T3, T4, T5, T6, T7, T8, T9, T10, T11, T12, T13, T14, T15, T16, T17, T18, T19, T20)) {
        (self.0, self.1, self.2, self.3, self.4, self.5, self.6, self.7, self.8, self.9, self.10, self.11, self.12, self.13, self.14, self.15, self.16, self.17, other.0, other.1)
    }

    proof fn lemma_join_arity(self, other: (T19, T20)) {
    }
}

impl<T1, T2, T3, T4, T5, T6, T7, T8, T9, T10, T11, T12, T13, T14, T15, T16, T17, T18, T19, T20> JoinableTuple<(T20,)> for (T1, T2, T3, T4, T5, T6, T7, T8, T9, T10, T11, T12, T13, T14, T15, T16, T17, T18, T19) {
    type Join = (T1, T2, T3, T4, T5, T6, T7, T8, T9, T10, T11, T12, T13, T14, T15, T16, T17, T18, T19, T20);

    open spec fn spec_join(self, other: (T20,)) -> (T1, T2, T3, T4, T5, T6, T7, T8, T9, T10, T11, T12, T13, T14, T15, T16, T17, T18, T19, T20) {
        (self.0, self.1, self.2, self.3, self.4, self.5, self.6, self.7, self.8, self.9, self.10, self.11, self.12, self.13, self.14, self.15, self.16, self.17, self.18, other.0)
    }

    fn join(self, other: (T20,)) -> (r: (T1, T2, T3, T4, T5, T6, T7, T8, T9, T10, T11, T12, T13, T14, T15, T16, T17, T18, T19, T20)) {
        (self.0, self.1, self.2, self.3, self.4, self.5, self.6, self.7, self.8, self.9, self.10, self.11, self.12, self.13, self.14, self.15, self.16, self.17, self.18, other.0)
    }

    proof fn lemma_join_arity(self, other: (T20,)) {
    }
}

impl<T1, T2, T3, T4, T5, T6, T7, T8, T9, T10, T11, T12, T13, T14, T15, T16, T17, T18, T19, T20> JoinableTuple<()> for (T1, T2, T3, T4, T5, T6, T7, T8, T9, T10, T11, T12, T13, T14, T15, T16, T17, T18, T19, T20) {
    type Join = (T1, T2, T3, T4, T5, T6, T7, T8, T9, T10, T11, T12, T13, T14, T15, T16, T17, T18, T19, T20);

    open spec fn spec_join(self, other: ()) -> (T1, T2, T3, T4, T5, T6, T7, T8, T9, T10, T11, T12, T13, T14, T15, T16, T17, T18, T19, T20) {
        (self.0, self.1, self.2, self.3, self.4, self.5, self.6, self.7, self.8, self.9, self.10, self.11, self.12, self.13, self.14, self.15, self.16, self.17, self.18, self.19)
    }

    fn join(self, other: ()) -> (r: (T1, T2, T3, T4, T5, T6, T7, T8, T9, T10, T11, T12, T13, T14, T15, T16, T17, T18, T19, T20)) {
        (self.0, self.1, self.2, self.3, self.4, self.5, self.6, self.7, self.8, self.9, self.10, self.11, self.12, self.13, self.14, self.15, self.16, self.17, self.18, self.19)
    }

    proof fn lemma_join_arity(self, other: ()) {
    }
}

impl<T1, T2, T3, T4, T5, T6, T7, T8, T9, T10, T11, T12, T13, T14, T15, T16, T17, T18, T19, T20, T21> Sealed for (T1, T2, T3, T4, T5, T6, T7, T8, T9, T10, T11, T12, T13, T14, T15, T16, T17, T18, T19, T20, T21) {}

impl<T1, T2, T3, T4, T5, T6, T7, T8, T9, T10, T11, T12, T13, T14, T15, T16, T17, T18, T19, T20, T21> DynTuple for (T1, T2, T3, T4, T5, T6, T7, T8, T9, T10, T11, T12, T13, T14, T15, T16, T17, T18, T19, T20, T21) {
    open spec fn spec_arity(&self) -> nat {
        21
    }

    fn arity(&self) -> (r: usize) {
        21
    }
}

impl<T1, T2, T3, T4, T5, T6, T7, T8, T9, T10, T11, T12, T13, T14, T15, T16, T17, T18, T19, T20, T21> Tuple for (T1, T2, T3, T4, T5, T6, T7, T8, T9, T10, T11, T12, T13, T14, T15, T16, T17, T18, T19, T20, T21) {
    const ARITY: usize = 21;

    open spec fn spec_type_arity() -> nat {
        21
    }

    proof fn lemma_arity(&self) {
    }

    proof fn lemma_type_arity() {
    }
}

impl<T1, T2, T3, T4, T5, T6, T7, T8, T9, T10, T11, T12, T13, T14, T15, T16, T17, T18, T19, T20, T21, T> GrowableTuple<T> for (T1, T2, T3, T4, T5, T6, T7, T8, T9, T10, T11, T12, T13, T14, T15, T16, T17, T18, T19, T20, T21) {
    type Append = (T1, T2, T3, T4, T5, T6, T7, T8, T9, T10, T11, T12, T13, T14, T15, T16, T17, T18, T19, T20, T21, T);

    type Prepend = (T, T1, T2, T3, T4, T5, T6, T7, T8, T9, T10, T11, T12, T13, T14, T15, T16, T17, T18, T19, T20, T21);

    open spec fn spec_append(self, value: T) -> (T1, T2, T3, T4, T5, T6, T7, T8, T9, T10, T11, T12, T13, T14, T15, T16, T17, T18, T19, T20, T21, T) {
        (self.0, self.1, self.2, self.3, self.4, self.5, self.6, self.7, self.8, self.9, self.10, self.11, self.12, self.13, self.14, self.15, self.16, self.17, self.18, self.19, self.20, value)
    }

    open spec fn spec_prepend(self, value: T) -> (T, T1, T2, T3, T4, T5, T6, T7, T8, T9, T10, T11, T12, T13, T14, T15, T16, T17, T18, T19, T20, T21) {
        (value, self.0, self.1, self.2, self.3, self.4, self.5, self.6, self.7, self.8, self.9, self.10, self.11, self.12, self.13, self.14, self.15, self.16, self.17, self.18, self.19, self.20)
    }

    fn append(self, value: T) -> (r: (T1, T2, T3, T4, T5, T6, T7, T8, T9, T10, T11, T12, T13, T14, T15, T16, T17, T18, T19, T20, T21, T)) {
        (self.0, self.1, self.2, self.3, self.4, self.5, self.6, self.7, self.8, self.9, self.10, self.11, self.12, self.13, self.14, self.15, self.16, self.17, self.18, self.19, self.20, value)
    }

    fn prepend(self, value: T) -> (r: (T, T1, T2, T3, T4, T5, T6, T7, T8, T9, T10, T11, T12, T13, T14, T15, T16, T17, T18, T19, T20, T21)) {
        (value, self.0, self.1, self.2, self.3, self.4, self.5, self.6, self.7, self.8, self.9, self.10, self.11, self.12, self.13, self.14, self.15, self.16, self.17, self.18, self.19, self.20)
    }

    proof fn lemma_grow_arity(self, value: T) {
    }
}

impl<T1, T2, T3, T4, T5, T6, T7, T8, T9, T10, T11, T12, T13, T14, T15, T16, T17, T18, T19, T20, T21> NonEmptyTuple for (T1, T2, T3, T4, T5, T6, T7, T8, T9, T10, T11, T12, T13, T14, T15, T16, T17, T18, T19, T20, T21) {
    type Head = T1;

    type Tail = T21;

    type TruncateHead = (T2, T3, T4, T5, T6, T7, T8, T9, T10, T11, T12, T13, T14, T15, T16, T17, T18, T19, T20, T21);

    type TruncateTail = (T1, T2, T3, T4, T5, T6, T7, T8, T9, T10, T11, T12, T13, T14, T15, T16, T17, T18, T19, T20);

    open spec fn spec_head(&self) -> T1 {
        self.0
    }

    open spec fn spec_tail(&self) -> T21 {
        self.20
    }

    open spec fn spec_with_head(self, value: T1) -> (T1, T2, T3, T4, T5, T6, T7, T8, T9, T10, T11, T12, T13, T14, T15, T16, T17, T18, T19, T20, T21) {
        (value, self.1, self.2, self.3, self.4, self.5, self.6, self.7, self.8, self.9, self.10, self.11, self.12, self.13, self.14, self.15, self.16, self.17, self.18, self.19, self.20)
    }

    open spec fn spec_with_tail(self, value: T21) -> (T1, T2, T3, T4, T5, T6, T7, T8, T9, T10, T11, T12, T13, T14, T15, T16, T17, T18, T19, T20, T21) {
        (self.0, self.1, self.2, self.3, self.4, self.5, self.6, self.7, self.8, self.9, self.10, self.11, self.12, self.13, self.14, self.15, self.16, self.17, self.18, self.19, value)
    }

    open spec fn spec_truncate_head(self) -> (T1, (T2, T3, T4, T5, T6, T7, T8, T9, T10, T11, T12, T13, T14, T15, T16, T17, T18, T19, T20, T21)) {
        (self.0, (self.1, self.2, self.3, self.4, self.5, self.6, self.7, self.8, self.9, self.10, self.11, self.12, self.13, self.14, self.15, self.16, self.17, self.18, self.19, self.20))
    }

    open spec fn spec_truncate_tail(self) -> ((T1, T2, T3, T4, T5, T6, T7, T8, T9, T10, T11, T12, T13, T14, T15, T16, T17, T18, T19, T20), T21) {
        ((self.0, self.1, self.2, self.3, self.4, self.5, self.6, self.7, self.8, self.9, self.10, self.11, self.12, self.13, self.14, self.15, self.16, self.17, self.18, self.19), self.20)
    }

    fn head(&self) -> (r: &T1) {
        &self.0
    }

    fn head_mut(&mut self) -> (r: &mut T1) {
        &mut self.0
    }

    fn tail(&self) -> (r: &T21) {
        &self.20
    }

    fn tail_mut(&mut self) -> (r: &mut T21) {
        &mut self.20
    }

    fn truncate_head(self) -> (r: (T1, (T2, T3, T4, T5, T6, T7, T8, T9, T10, T11, T12, T13, T14, T15, T16, T17, T18, T19, T20, T21))) {
        (self.0, (self.1, self.2, self.3, self.4, self.5, self.6, self.7, self.8, self.9, self.10, self.11, self.12, self.13, self.14, self.15, self.16, self.17, self.18, self.19, self.20))
    }

    fn truncate_tail(self) -> (r: ((T1, T2, T3, T4, T5, T6, T7, T8, T9, T10, T11, T12, T13, T14, T15, T16, T17, T18, T19, T20), T21)) {
        ((self.0, self.1, self.2, self.3, self.4, self.5, self.6, self.7, self.8, self.9, self.10, self.11, self.12, self.13, self.14, self.15, self.16, self.17, self.18, self.19), self.20)
    }

    proof fn lemma_truncate_head(self) {
    }

    proof fn lemma_truncate_tail(self) {
    }
}

impl<T1, T2, T3, T4, T5, T6, T7, T8, T9, T10, T11, T12, T13, T14, T15, T16, T17, T18, T19, T20, T21> NonUnaryTuple for (T1, T2, T3, T4, T5, T6, T7, T8, T9, T10, T11, T12, T13, T14, T15, T16, T17, T18, T19, T20, T21) {
    type TruncateHeadTail = (T2, T3, T4, T5, T6, T7, T8, T9, T10, T11, T12, T13, T14, T15, T16, T17, T18, T19, T20);

    open spec fn spec_truncate_head_tail(self) -> (T1, (T2, T3, T4, T5, T6, T7, T8, T9, T10, T11, T12, T13, T14, T15, T16, T17, T18, T19, T20), T21) {
        (self.0, (self.1, self.2, self.3, self.4, self.5, self.6, self.7, self.8, self.9, self.10, self.11, self.12, self.13, self.14, self.15, self.16, self.17, self.18, self.19), self.20)
    }

    fn head_tail(&self) -> (r: (&T1, &T21)) {
        (&self.0, &self.20)
    }

    fn head_tail_mut(&mut self) -> (r: (&mut T1, &mut T21)) {
        (&mut self.0, &mut self.20)
    }

    fn truncate_head_tail(self) -> (r: (T1, (T2, T3, T4, T5, T6, T7, T8, T9, T10, T11, T12, T13, T14, T15, T16, T17, T18, T19, T20), T21)) {
        (self.0, (self.1, self.2, self.3, self.4, self.5, self.6, self.7, self.8, self.9, self.10, self.11, self.12, self.13, self.14, self.15, self.16, self.17, self.18, self.19), self.20)
    }

    proof fn lemma_truncate_head_tail(self) {
    }
}

impl<T1, T2, T3, T4, T5, T6, T7, T8, T9, T10, T11, T12, T13, T14, T15, T16, T17, T18, T19, T20, T21> IndexableTuple<0> for (T1, T2, T3, T4, T5, T6, T7, T8, T9, T10, T11, T12, T13, T14, T15, T16, T17, T18, T19, T20, T21) {
    type Value = T1;

    open spec fn spec_index(&self) -> T1 {
        self.0
    }

    open spec fn spec_with_index(self, value: T1) -> (T1, T2, T3, T4, T5, T6, T7, T8, T9, T10, T11, T12, T13, T14, T15, T16, T17, T18, T19, T20, T21) {
        (value, self.1, self.2, self.3, self.4, self.5, self.6, self.7, self.8, self.9, self.10, self.11, self.12, self.13, self.14, self.15, self.16, self.17, self.18, self.19, self.20)
    }

    fn index_ref(&self) -> (r: &T1) {
        &self.0
    }

    fn index_mut(&mut self) -> (r: &mut T1) {
        &mut self.0
    }

    fn into_index(self) -> (r: T1) {
        self.0
    }

    proof fn lemma_index_in_range(&self) {
    }
}

impl<T1, T2, T3, T4, T5, T6, T7, T8, T9, T10, T11, T12, T13, T14, T15, T16, T17, T18, T19, T20, T21> IndexableTuple<1> for (T1, T2, T3, T4, T5, T6, T7, T8, T9, T10, T11, T12, T13, T14, T15, T16, T17, T18, T19, T20, T21) {
    type Value = T2;

    open spec fn spec_index(&self) -> T2 {
        self.1
    }

    open spec fn spec_with_index(self, value: T2) -> (T1, T2, T3, T4, T5, T6, T7, T8, T9, T10, T11, T12, T13, T14, T15, T16, T17, T18, T19, T20, T21) {
        (self.0, value, self.2, self.3, self.4, self.5, self.6, self.7, self.8, self.9, self.10, self.11, self.12, self.13, self.14, self.15, self.16, self.17, self.18, self.19, self.20)
    }

    fn index_ref(&self) -> (r: &T2) {
        &self.1
    }

    fn index_mut(&mut self) -> (r: &mut T2) {
        &mut self.1
    }

    fn into_index(self) -> (r: T2) {
        self.1
    }

    proof fn lemma_index_in_range(&self) {
    }
}

impl<T1, T2, T3, T4, T5, T6, T7, T8, T9, T10, T11, T12, T13, T14, T15, T16, T17, T18, T19, T20, T21> IndexableTuple<2> for (T1, T2, T3, T4, T5, T6, T7, T8, T9, T10, T11, T12, T13, T14, T15, T16, T17, T18, T19, T20, T21) {
    type Value = T3;

    open spec fn spec_index(&self) -> T3 {
        self.2
    }

    open spec fn spec_with_index(self, value: T3) -> (T1, T2, T3, T4, T5, T6, T7, T8, T9, T10, T11, T12, T13, T14, T15, T16, T17, T18, T19, T20, T21) {
        (self.0, self.1, value, self.3, self.4, self.5, self.6, self.7, self.8, self.9, self.10, self.11, self.12, self.13, self.14, self.15, self.16, self.17, self.18, self.19, self.20)
    }

    fn index_ref(&self) -> (r: &T3) {
        &self.2
    }

    fn index_mut(&mut self) -> (r: &mut T3) {
        &mut self.2
    }

    fn into_index(self) -> (r: T3) {
        self.2
    }

    proof fn lemma_index_in_range(&self) {
    }
}

impl<T1, T2, T3, T4, T5, T6, T7, T8, T9, T10, T11, T12, T13, T14, T15, T16, T17, T18, T19, T20, T21> IndexableTuple<3> for (T1, T2, T3, T4, T5, T6, T7, T8, T9, T10, T11, T12, T13, T14, T15, T16, T17, T18, T19, T20, T21) {
    type Value = T4;

    open spec fn spec_index(&self) -> T4 {
        self.3
    }

    open spec fn spec_with_index(self, value: T4) -> (T1, T2, T3, T4, T5, T6, T7, T8, T9, T10, T11, T12, T13, T14, T15, T16, T17, T18, T19, T20, T21) {
        (self.0, self.1, self.2, value, self.4, self.5, self.6, self.7, self.8, self.9, self.10, self.11, self.12, self.13, self.14, self.15, self.16, self.17, self.18, self.19, self.20)
    }

    fn index_ref(&self) -> (r: &T4) {
        &self.3
    }

    fn index_mut(&mut self) -> (r: &mut T4) {
        &mut self.3
    }

    fn into_index(self) -> (r: T4) {
        self.3
    }

    proof fn lemma_index_in_range(&self) {
    }
}

impl<T1, T2, T3, T4, T5, T6, T7, T8, T9, T10, T11, T12, T13, T14, T15, T16, T17, T18, T19, T20, T21> IndexableTuple<4> for (T1, T2, T3, T4, T5, T6, T7, T8, T9, T10, T11, T12, T13, T14, T15, T16, T17, T18, T19, T20, T21) {
    type Value = T5;

    open spec fn spec_index(&self) -> T5 {
        self.4
    }

    open spec fn spec_with_index(self, value: T5) -> (T1, T2, T3, T4, T5, T6, T7, T8, T9, T10, T11, T12, T13, T14, T15, T16, T17, T18, T19, T20, T21) {
        (self.0, self.1, self.2, self.3, value, self.5, self.6, self.7, self.8, self.9, self.10, self.11, self.12, self.13, self.14, self.15, self.16, self.17, self.18, self.19, self.20)
    }

    fn index_ref(&self) -> (r: &T5) {
        &self.4
    }

    fn index_mut(&mut self) -> (r: &mut T5) {
        &mut self.4
    }

    fn into_index(self) -> (r: T5) {
        self.4
    }

    proof fn lemma_index_in_range(&self) {
    }
}

impl<T1, T2, T3, T4, T5, T6, T7, T8, T9, T10, T11, T12, T13, T14, T15, T16, T17, T18, T19, T20, T21> IndexableTuple<5> for (T1, T2, T3, T4, T5, T6, T7, T8, T9, T10, T11, T12, T13, T14, T15, T16, T17, T18, T19, T20, T21) {
    type Value = T6;

    open spec fn spec_index(&self) -> T6 {
        self.5
    }

    open spec fn spec_with_index(self, value: T6) -> (T1, T2, T3, T4, T5, T6, T7, T8, T9, T10, T11, T12, T13, T14, T15, T16, T17, T18, T19, T20, T21) {
        (self.0, self.1, self.2, self.3, self.4, value, self.6, self.7, self.8, self.9, self.10, self.11, self.12, self.13, self.14, self.15, self.16, self.17, self.18, self.19, self.20)
    }

    fn index_ref(&self) -> (r: &T6) {
        &self.5
    }

    fn index_mut(&mut self) -> (r: &mut T6) {
        &mut self.5
    }

    fn into_index(self) -> (r: T6) {
        self.5
    }

    proof fn lemma_index_in_range(&self) {
    }
}

impl<T1, T2, T3, T4, T5, T6, T7, T8, T9, T10, T11, T12, T13, T14, T15, T16, T17, T18, T19, T20, T21> IndexableTuple<6> for (T1, T2, T3, T4, T5, T6, T7, T8, T9, T10, T11, T12, T13, T14, T15, T16, T17, T18, T19, T20, T21) {
    type Value = T7;

    open spec fn spec_index(&self) -> T7 {
        self.6
    }

    open spec fn spec_with_index(self, value: T7) -> (T1, T2, T3, T4, T5, T6, T7, T8, T9, T10, T11, T12, T13, T14, T15, T16, T17, T18, T19, T20, T21) {
        (self.0, self.1, self.2, self.3, self.4, self.5, value, self.7, self.8, self.9, self.10, self.11, self.12, self.13, self.14, self.15, self.16, self.17, self.18, self.19, self.20)
    }

    fn index_ref(&self) -> (r: &T7) {
        &self.6
    }

    fn index_mut(&mut self) -> (r: &mut T7) {
        &mut self.6
    }

    fn into_index(self) -> (r: T7) {
        self.6
    }

    proof fn lemma_index_in_range(&self) {
    }
}

impl<T1, T2, T3, T4, T5, T6, T7, T8, T9, T10, T11, T12, T13, T14, T15, T16, T17, T18, T19, T20, T21> IndexableTuple<7> for (T1, T2, T3, T4, T5, T6, T7, T8, T9, T10, T11, T12, T13, T14, T15, T16, T17, T18, T19, T20, T21) {
    type Value = T8;

    open spec fn spec_index(&self) -> T8 {
        self.7
    }

    open spec fn spec_with_index(self, value: T8) -> (T1, T2, T3, T4, T5, T6, T7, T8, T9, T10, T11, T12, T13, T14, T15, T16, T17, T18, T19, T20, T21) {
        (self.0, self.1, self.2, self.3, self.4, self.5, self.6, value, self.8, self.9, self.10, self.11, self.12, self.13, self.14, self.15, self.16, self.17, self.18, self.19, self.20)
    }

    fn index_ref(&self) -> (r: &T8) {
        &self.7
    }

    fn index_mut(&mut self) -> (r: &mut T8) {
        &mut self.7
    }

    fn into_index(self) -> (r: T8) {
        self.7
    }

    proof fn lemma_index_in_range(&self) {
    }
}

impl<T1, T2, T3, T4, T5, T6, T7, T8, T9, T10, T11, T12, T13, T14, T15, T16, T17, T18, T19, T20, T21> IndexableTuple<8> for (T1, T2, T3, T4, T5, T6, T7, T8, T9, T10, T11, T12, T13, T14, T15, T16, T17, T18, T19, T20, T21) {
    type Value = T9;

    open spec fn spec_index(&self) -> T9 {
        self.8
    }

    open spec fn spec_with_index(self, value: T9) -> (T1, T2, T3, T4, T5, T6, T7, T8, T9, T10, T11, T12, T13, T14, T15, T16, T17, T18, T19, T20, T21) {
        (self.0, self.1, self.2, self.3, self.4, self.5, self.6, self.7, value, self.9, self.10, self.11, self.12, self.13, self.14, self.15, self.16, self.17, self.18, self.19, self.20)
    }

    fn index_ref(&self) -> (r: &T9) {
        &self.8
    }

    fn index_mut(&mut self) -> (r: &mut T9) {
        &mut self.8
    }

    fn into_index(self) -> (r: T9) {
        self.8
    }

    proof fn lemma_index_in_range(&self) {
    }
}

impl<T1, T2, T3, T4, T5, T6, T7, T8, T9, T10, T11, T12, T13, T14, T15, T16, T17, T18, T19, T20, T21> IndexableTuple<9> for (T1, T2, T3, T4, T5, T6, T7, T8, T9, T10, T11, T12, T13, T14, T15, T16, T17, T18, T19, T20, T21) {
    type Value = T10;

    open spec fn spec_index(&self) -> T10 {
        self.9
    }

    open spec fn spec_with_index(self, value: T10) -> (T1, T2, T3, T4, T5, T6, T7, T8, T9, T10, T11, T12, T13, T14, T15, T16, T17, T18, T19, T20, T21) {
        (self.0, self.1, self.2, self.3, self.4, self.5, self.6, self.7, self.8, value, self.10, self.11, self.12, self.13, self.14, self.15, self.16, self.17, self.18, self.19, self.20)
    }

    fn index_ref(&self) -> (r: &T10) {
        &self.9
    }

    fn index_mut(&mut self) -> (r: &mut T10) {
        &mut self.9
    }

    fn into_index(self) -> (r: T10) {
        self.9
    }

    proof fn lemma_index_in_range(&self) {
    }
}

impl<T1, T2, T3, T4, T5, T6, T7, T8, T9, T10, T11, T12, T13, T14, T15, T16, T17, T18, T19, T20, T21> IndexableTuple<10> for (T1, T2, T3, T4, T5, T6, T7, T8, T9, T10, T11, T12, T13, T14, T15, T16, T17, T18, T19, T20, T21) {
    type Value = T11;

    open spec fn spec_index(&self) -> T11 {
        self.10
    }

    open spec fn spec_with_index(self, value: T11) -> (T1, T2, T3, T4, T5, T6, T7, T8, T9, T10, T11, T12, T13, T14, T15, T16, T17, T18, T19, T20, T21) {
        (self.0, self.1, self.2, self.3, self.4, self.5, self.6, self.7, self.8, self.9, value, self.11, self.12, self.13, self.14, self.15, self.16, self.17, self.18, self.19, self.20)
    }

    fn index_ref(&self) -> (r: &T11) {
        &self.10
    }

    fn index_mut(&mut self) -> (r: &mut T11) {
        &mut self.10
    }

    fn into_index(self) -> (r: T11) {
        self.10
    }

    proof fn lemma_index_in_range(&self) {
    }
}

impl<T1, T2, T3, T4, T5, T6, T7, T8, T9, T10, T11, T12, T13, T14, T15, T16, T17, T18, T19, T20, T21> IndexableTuple<11> for (T1, T2, T3, T4, T5, T6, T7, T8, T9, T10, T11, T12, T13, T14, T15, T16, T17, T18, T19, T20, T21) {
    type Value = T12;

    open spec fn spec_index(&self) -> T12 {
        self.11
    }

    open spec fn spec_with_index(self, value: T12) -> (T1, T2, T3, T4, T5, T6, T7, T8, T9, T10, T11, T12, T13, T14, T15, T16, T17, T18, T19, T20, T21) {
        (self.0, self.1, self.2, self.3, self.4, self.5, self.6, self.7, self.8, self.9, self.10, value, self.12, self.13, self.14, self.15, self.16, self.17, self.18, self.19, self.20)
    }

    fn index_ref(&self) -> (r: &T12) {
        &self.11
    }

    fn index_mut(&mut self) -> (r: &mut T12) {
        &mut self.11
    }

    fn into_index(self) -> (r: T12) {
        self.11
    }

    proof fn lemma_index_in_range(&self) {
    }
}

impl<T1, T2, T3, T4, T5, T6, T7, T8, T9, T10, T11, T12, T13, T14, T15, T16, T17, T18, T19, T20, T21> IndexableTuple<12> for (T1, T2, T3, T4, T5, T6, T7, T8, T9, T10, T11, T12, T13, T14, T15, T16, T17, T18, T19, T20, T21) {
    type Value = T13;

    open spec fn spec_index(&self) -> T13 {
        self.12
    }

    open spec fn spec_with_index(self, value: T13) -> (T1, T2, T3, T4, T5, T6, T7, T8, T9, T10, T11, T12, T13, T14, T15, T16, T17, T18, T19, T20, T21) {
        (self.0, self.1, self.2, self.3, self.4, self.5, self.6, self.7, self.8, self.9, self.10, self.11, value, self.13, self.14, self.15, self.16, self.17, self.18, self.19, self.20)
    }

    fn index_ref(&self) -> (r: &T13) {
        &self.12
    }

    fn index_mut(&mut self) -> (r: &mut T13) {
        &mut self.12
    }

    fn into_index(self) -> (r: T13) {
        self.12
    }

    proof fn lemma_index_in_range(&self) {
    }
}

impl<T1, T2, T3, T4, T5, T6, T7, T8, T9, T10, T11, T12, T13, T14, T15, T16, T17, T18, T19, T20, T21> IndexableTuple<13> for (T1, T2, T3, T4, T5, T6, T7, T8, T9, T10, T11, T12, T13, T14, T15, T16, T17, T18, T19, T20, T21) {
    type Value = T14;

    open spec fn spec_index(&self) -> T14 {
        self.13
    }

    open spec fn spec_with_index(self, value: T14) -> (T1, T2, T3, T4, T5, T6, T7, T8, T9, T10, T11, T12, T13, T14, T15, T16, T17, T18, T19, T20, T21) {
        (self.0, self.1, self.2, self.3, self.4, self.5, self.6, self.7, self.8, self.9, self.10, self.11, self.12, value, self.14, self.15, self.16, self.17, self.18, self.19, self.20)
    }

    fn index_ref(&self) -> (r: &T14) {
        &self.13
    }

    fn index_mut(&mut self) -> (r: &mut T14) {
        &mut self.13
    }

    fn into_index(self) -> (r: T14) {
        self.13
    }

    proof fn lemma_index_in_range(&self) {
    }
}

impl<T1, T2, T3, T4, T5, T6, T7, T8, T9, T10, T11, T12, T13, T14, T15, T16, T17, T18, T19, T20, T21> IndexableTuple<14> for (T1, T2, T3, T4, T5, T6, T7, T8, T9, T10, T11, T12, T13, T14, T15, T16, T17, T18, T19, T20, T21) {
    type Value = T15;

    open spec fn spec_index(&self) -> T15 {
        self.14
    }

    open spec fn spec_with_index(self, value: T15) -> (T1, T2, T3, T4, T5, T6, T7, T8, T9, T10, T11, T12, T13, T14, T15, T16, T17, T18, T19, T20, T21) {
        (self.0, self.1, self.2, self.3, self.4, self.5, self.6, self.7, self.8, self.9, self.10, self.11, self.12, self.13, value, self.15, self.16, self.17, self.18, self.19, self.20)
    }

    fn index_ref(&self) -> (r: &T15) {
        &self.14
    }

    fn index_mut(&mut self) -> (r: &mut T15) {
        &mut self.14
    }

    fn into_index(self) -> (r: T15) {
        self.14
    }

    proof fn lemma_index_in_range(&self) {
    }
}

impl<T1, T2, T3, T4, T5, T6, T7, T8, T9, T10, T11, T12, T13, T14, T15, T16, T17, T18, T19, T20, T21> IndexableTuple<15> for (T1, T2, T3, T4, T5, T6, T7, T8, T9, T10, T11, T12, T13, T14, T15, T16, T17, T18, T19, T20, T21) {
    type Value = T16;

    open spec fn spec_index(&self) -> T16 {
        self.15
    }

    open spec fn spec_with_index(self, value: T16) -> (T1, T2, T3, T4, T5, T6, T7, T8, T9, T10, T11, T12, T13, T14, T15, T16, T17, T18, T19, T20, T21) {
        (self.0, self.1, self.2, self.3, self.4, self.5, self.6, self.7, self.8, self.9, self.10, self.11, self.12, self.13, self.14, value, self.16, self.17, self.18, self.19, self.20)
    }

    fn index_ref(&self) -> (r: &T16) {
        &self.15
    }

    fn index_mut(&mut self) -> (r: &mut T16) {
        &mut self.15
    }

    fn into_index(self) -> (r: T16) {
        self.15
    }

    proof fn lemma_index_in_range(&self) {
    }
}

impl<T1, T2, T3, T4, T5, T6, T7, T8, T9, T10, T11, T12, T13, T14, T15, T16, T17, T18, T19, T20, T21> IndexableTuple<16> for (T1, T2, T3, T4, T5, T6, T7, T8, T9, T10, T11, T12, T13, T14, T15, T16, T17, T18, T19, T20, T21) {
    type Value = T17;

    open spec fn spec_index(&self) -> T17 {
        self.16
    }

    open spec fn spec_with_index(self, value: T17) -> (T1, T2, T3, T4, T5, T6, T7, T8, T9, T10, T11, T12, T13, T14, T15, T16, T17, T18, T19, T20, T21) {
        (self.0, self.1, self.2, self.3, self.4, self.5, self.6, self.7, self.8, self.9, self.10, self.11, self.12, self.13, self.14, self.15, value, self.17, self.18, self.19, self.20)
    }

    fn index_ref(&self) -> (r: &T17) {
        &self.16
    }

    fn index_mut(&mut self) -> (r: &mut T17) {
        &mut self.16
    }

    fn into_index(self) -> (r: T17) {
        self.16
    }

    proof fn lemma_index_in_range(&self) {
    }
}

impl<T1, T2, T3, T4, T5, T6, T7, T8, T9, T10, T11, T12, T13, T14, T15, T16, T17, T18, T19, T20, T21> IndexableTuple<17> for (T1, T2, T3, T4, T5, T6, T7, T8, T9, T10, T11, T12, T13, T14, T15, T16, T17, T18, T19, T20, T21) {
    type Value = T18;

    open spec fn spec_index(&self) -> T18 {
        self.17
    }

    open spec fn spec_with_index(self, value: T18) -> (T1, T2, T3, T4, T5, T6, T7, T8, T9, T10, T11, T12, T13, T14, T15, T16, T17, T18, T19, T20, T21) {
        (self.0, self.1, self.2, self.3, self.4, self.5, self.6, self.7, self.8, self.9, self.10, self.11, self.12, self.13, self.14, self.15, self.16, value, self.18, self.19, self.20)
    }

    fn index_ref(&self) -> (r: &T18) {
        &self.17
    }

    fn index_mut(&mut self) -> (r: &mut T18) {
        &mut self.17
    }

    fn into_index(self) -> (r: T18) {
        self.17
    }

    proof fn lemma_index_in_range(&self) {
    }
}

impl<T1, T2, T3, T4, T5, T6, T7, T8, T9, T10, T11, T12, T13, T14, T15, T16, T17, T18, T19, T20, T21> IndexableTuple<18> for (T1, T2, T3, T4, T5, T6, T7, T8, T9, T10, T11, T12, T13, T14, T15, T16, T17, T18, T19, T20, T21) {
    type Value = T19;

    open spec fn spec_index(&self) -> T19 {
        self.18
    }

    open spec fn spec_with_index(self, value: T19) -> (T1, T2, T3, T4, T5, T6, T7, T8, T9, T10, T11, T12, T13, T14, T15, T16, T17, T18, T19, T20, T21) {
        (self.0, self.1, self.2, self.3, self.4, self.5, self.6, self.7, self.8, self.9, self.10, self.11, self.12, self.13, self.14, self.15, self.16, self.17, value, self.19, self.20)
    }

    fn index_ref(&self) -> (r: &T19) {
        &self.18
    }

    fn index_mut(&mut self) -> (r: &mut T19) {
        &mut self.18
    }

    fn into_index(self) -> (r: T19) {
        self.18
    }

    proof fn lemma_index_in_range(&self) {
    }
}

impl<T1, T2, T3, T4, T5, T6, T7, T8, T9, T10, T11, T12, T13, T14, T15, T16, T17, T18, T19, T20, T21> IndexableTuple<19> for (T1, T2, T3, T4, T5, T6, T7, T8, T9, T10, T11, T12, T13, T14, T15, T16, T17, T18, T19, T20, T21) {
    type Value = T20;

    open spec fn spec_index(&self) -> T20 {
        self.19
    }

    open spec fn spec_with_index(self, value: T20) -> (T1, T2, T3, T4, T5, T6, T7, T8, T9, T10, T11, T12, T13, T14, T15, T16, T17, T18, T19, T20, T21) {
        (self.0, self.1, self.2, self.3, self.4, self.5, self.6, self.7, self.8, self.9, self.10, self.11, self.12, self.13, self.14, self.15, self.16, self.17, self.18, value, self.20)
    }

    fn index_ref(&self) -> (r: &T20) {
        &self.19
    }

    fn index_mut(&mut self) -> (r: &mut T20) {
        &mut self.19
    }

    fn into_index(self) -> (r: T20) {
        self.19
    }

    proof fn lemma_index_in_range(&self) {
    }
}

impl<T1, T2, T3, T4, T5, T6, T7, T8, T9, T10, T11, T12, T13, T14, T15, T16, T17, T18, T19, T20, T21> IndexableTuple<20> for (T1, T2, T3, T4, T5, T6, T7, T8, T9, T10, T11, T12, T13, T14, T15, T16, T17, T18, T19, T20, T21) {
    type Value = T21;

    open spec fn spec_index(&self) -> T21 {
        self.20
    }

    open spec fn spec_with_index(self, value: T21) -> (T1, T2, T3, T4, T5, T6, T7, T8, T9, T10, T11, T12, T13, T14, T15, T16, T17, T18, T19, T20, T21) {
        (self.0, self.1, self.2, self.3, self.4, self.5, self.6, self.7, self.8, self.9, self.10, self.11, self.12, self.13, self.14, self.15, self.16, self.17, self.18, self.19, value)
    }

    fn index_ref(&self) -> (r: &T21) {
        &self.20
    }

    fn index_mut(&mut self) -> (r: &mut T21) {
        &mut self.20
    }

    fn into_index(self) -> (r: T21) {
        self.20
    }

    proof fn lemma_index_in_range(&self) {
    }
}

impl<T1, T2, T3, T4, T5, T6, T7, T8, T9, T10, T11, T12, T13, T14, T15, T16, T17, T18, T19, T20, T21> JoinableTuple<(T1, T2, T3, T4, T5, T6, T7, T8, T9, T10, T11, T12, T13, T14, T15, T16, T17, T18, T19, T20, T21)> for () {
    type Join = (T1, T2, T3, T4, T5, T6, T7, T8, T9, T10, T11, T12, T13, T14, T15, T16, T17, T18, T19, T20, T21);

    open spec fn spec_join(self, other: (T1, T2, T3, T4, T5, T6, T7, T8, T9, T10, T11, T12, T13, T14, T15, T16, T17, T18, T19, T20, T21)) -> (T1, T2, T3, T4, T5, T6, T7, T8, T9, T10, T11, T12, T13, T14, T15, T16, T17, T18, T19, T20, T21) {
        (other.0, other.1, other.2, other.3, other.4, other.5, other.6, other.7, other.8, other.9, other.10, other.11, other.12, other.13, other.14, other.15, other.16, other.17, other.18, other.19, other.20)
    }

    fn join(self, other: (T1, T2, T3, T4, T5, T6, T7, T8, T9, T10, T11, T12, T13, T14, T15, T16, T17, T18, T19, T20, T21)) -> (r: (T1, T2, T3, T4, T5, T6, T7, T8, T9, T10, T11, T12, T13, T14, T15, T16, T17, T18, T19, T20, T21)) {
        (other.0, other.1, other.2, other.3, other.4, other.5, other.6, other.7, other.8, other.9, other.10, other.11, other.12, other.13, other.14, other.15, other.16, other.17, other.18, other.19, other.20)
    }

    proof fn lemma_join_arity(self, other: (T1, T2, T3, T4, T5, T6, T7, T8, T9, T10, T11, T12, T13, T14, T15, T16, T17, T18, T19, T20, T21)) {
    }
}

impl<T1, T2, T3, T4, T5, T6, T7, T8, T9, T10, T11, T12, T13, T14, T15, T16, T17, T18, T19, T20, T21> JoinableTuple<(T2, T3, T4, T5, T6, T7, T8, T9, T10, T11, T12, T13, T14, T15, T16, T17, T18, T19, T20, T21)> for (T1,) {
    type Join = (T1, T2, T3, T4, T5, T6, T7, T8, T9, T10, T11, T12, T13, T14, T15, T16, T17, T18, T19, T20, T21);

    open spec fn spec_join(self, other: (T2, T3, T4, T5, T6, T7, T8, T9, T10, T11, T12, T13, T14, T15, T16, T17, T18, T19, T20, T21)) -> (T1, T2, T3, T4, T5, T6, T7, T8, T9, T10, T11, T12, T13, T14, T15, T16, T17, T18, T19, T20, T21) {
        (self.0, other.0, other.1, other.2, other.3, other.4, other.5, other.6, other.7, other.8, other.9, other.10, other.11, other.12, other.13, other.14, other.15, other.16, other.17, other.18, other.19)
    }

    fn join(self, other: (T2, T3, T4, T5, T6, T7, T8, T9, T10, T11, T12, T13, T14, T15, T16, T17, T18, T19, T20, T21)) -> (r: (T1, T2, T3, T4, T5, T6, T7, T8, T9, T10, T11, T12, T13, T14, T15, T16, T17, T18, T19, T20, T21)) {
        (self.0, other.0, other.1, other.2, other.3, other.4, other.5, other.6, other.7, other.8, other.9, other.10, other.11, other.12, other.13, other.14, other.15, other.16, other.17, other.18, other.19)
    }

    proof fn lemma_join_arity(self, other: (T2, T3, T4, T5, T6, T7, T8, T9, T10, T11, T12, T13, T14, T15, T16, T17, T18, T19, T20, T21)) {
    }
}

impl<T1, T2, T3, T4, T5, T6, T7, T8, T9, T10, T11, T12, T13, T14, T15, T16, T17, T18, T19, T20, T21> JoinableTuple<(T3, T4, T5, T6, T7, T8, T9, T10, T11, T12, T13, T14, T15, T16, T17, T18, T19, T20, T21)> for (T1, T2) {
    type Join = (T1, T2, T3, T4, T5, T6, T7, T8, T9, T10, T11, T12, T13, T14, T15, T16, T17, T18, T19, T20, T21);

    open spec fn spec_join(self, other: (T3, T4, T5, T6, T7, T8, T9, T10, T11, T12, T13, T14, T15, T16, T17, T18, T19, T20, T21)) -> (T1, T2, T3, T4, T5, T6, T7, T8, T9, T10, T11, T12, T13, T14, T15, T16, T17, T18, T19, T20, T21) {
        (self.0, self.1, other.0, other.1, other.2, other.3, other.4, other.5, other.6, other.7, other.8, other.9, other.10, other.11, other.12, other.13, other.14, other.15, other.16, other.17, other.18)
    }

    fn join(self, other: (T3, T4, T5, T6, T7, T8, T9, T10, T11, T12, T13, T14, T15, T16, T17, T18, T19, T20, T21)) -> (r: (T1, T2, T3, T4, T5, T6, T7, T8, T9, T10, T11, T12, T13, T14, T15, T16, T17, T18, T19, T20, T21)) {
        (self.0, self.1, other.0, other.1, other.2, other.3, other.4, other.5, other.6, other.7, other.8, other.9, other.10, other.11, other.12, other.13, other.14, other.15, other.16, other.17, other.18)
    }

    proof fn lemma_join_arity(self, other: (T3, T4, T5, T6, T7, T8, T9, T10, T11, T12, T13, T14, T15, T16, T17, T18, T19, T20, T21)) {
    }
}

impl<T1, T2, T3, T4, T5, T6, T7, T8, T9, T10, T11, T12, T13, T14, T15, T16, T17, T18, T19, T20, T21> JoinableTuple<(T4, T5, T6, T7, T8, T9, T10, T11, T12, T13, T14, T15, T16, T17, T18, T19, T20, T21)> for (T1, T2, T3) {
    type Join = (T1, T2, T3, T4, T5, T6, T7, T8, T9, T10, T11, T12, T13, T14, T15, T16, T17, T18, T19, T20, T21);

    open spec fn spec_join(self, other: (T4, T5, T6, T7, T8, T9, T10, T11, T12, T13, T14, T15, T16, T17, T18, T19, T20, T21)) -> (T1, T2, T3, T4, T5, T6, T7, T8, T9, T10, T11, T12, T13, T14, T15, T16, T17, T18, T19, T20, T21) {
        (self.0, self.1, self.2, other.0, other.1, other.2, other.3, other.4, other.5, other.6, other.7, other.8, other.9, other.10, other.11, other.12, other.13, other.14, other.15, other.16, other.17)
    }

    fn join(self, other: (T4, T5, T6, T7, T8, T9, T10, T11, T12, T13, T14, T15, T16, T17, T18, T19, T20, T21)) -> (r: (T1, T2, T3, T4, T5, T6, T7, T8, T9, T10, T11, T12, T13, T14, T15, T16, T17, T18, T19, T20, T21)) {
        (self.0, self.1, self.2, other.0, other.1, other.2, other.3, other.4, other.5, other.6, other.7, other.8, other.9, other.10, other.11, other.12, other.13, other.14, other.15, other.16, other.17)
    }

    proof fn lemma_join_arity(self, other: (T4, T5, T6, T7, T8, T9, T10, T11, T12, T13, T14, T15, T16, T17, T18, T19, T20, T21)) {
    }
}

impl<T1, T2, T3, T4, T5, T6, T7, T8, T9, T10, T11, T12, T13, T14, T15, T16, T17, T18, T19, T20, T21> JoinableTuple<(T5, T6, T7, T8, T9, T10, T11, T12, T13, T14, T15, T16, T17, T18, T19, T20, T21)> for (T1, T2, T3, T4) {
    type Join = (T1, T2, T3, T4, T5, T6, T7, T8, T9, T10, T11, T12, T13, T14, T15, T16, T17, T18, T19, T20, T21);

    open spec fn spec_join(self, other: (T5, T6, T7, T8, T9, T10, T11, T12, T13, T14, T15, T16, T17, T18, T19, T20, T21)) -> (T1, T2, T3, T4, T5, T6, T7, T8, T9, T10, T11, T12, T13, T14, T15, T16, T17, T18, T19, T20, T21) {
        (self.0, self.1, self.2, self.3, other.0, other.1, other.2, other.3, other.4, other.5, other.6, other.7, other.8, other.9, other.10, other.11, other.12, other.13, other.14, other.15, other.16)
    }

    fn join(self, other: (T5, T6, T7, T8, T9, T10, T11, T12, T13, T14, T15, T16, T17, T18, T19, T20, T21)) -> (r: (T1, T2, T3, T4, T5, T6, T7, T8, T9, T10, T11, T12, T13, T14, T15, T16, T17, T18, T19, T20, T21)) {
        (self.0, self.1, self.2, self.3, other.0, other.1, other.2, other.3, other.4, other.5, other.6, other.7, other.8, other.9, other.10, other.11, other.12, other.13, other.14, other.15, other.16)
    }

    proof fn lemma_join_arity(self, other: (T5, T6, T7, T8, T9, T10, T11, T12, T13, T14, T15, T16, T17, T18, T19, T20, T21)) {
    }
}

impl<T1, T2, T3, T4, T5, T6, T7, T8, T9, T10, T11, T12, T13, T14, T15, T16, T17, T18, T19, T20, T21> JoinableTuple<(T6, T7, T8, T9, T10, T11, T12, T13, T14, T15, T16, T17, T18, T19, T20, T21)> for (T1, T2, T3, T4, T5) {
    type Join = (T1, T2, T3, T4, T5, T6, T7, T8, T9, T10, T11, T12, T13, T14, T15, T16, T17, T18, T19, T20, T21);

    open spec fn spec_join(self, other: (T6, T7, T8, T9, T10, T11, T12, T13, T14, T15, T16, T17, T18, T19, T20, T21)) -> (T1, T2, T3, T4, T5, T6, T7, T8, T9, T10, T11, T12, T13, T14, T15, T16, T17, T18, T19, T20, T21) {
        (self.0, self.1, self.2, self.3, self.4, other.0, other.1, other.2, other.3, other.4, other.5, other.6, other.7, other.8, other.9, other.10, other.11, other.12, other.13, other.14, other.15)
    }

    fn join(self, other: (T6, T7, T8, T9, T10, T11, T12, T13, T14, T15, T16, T17, T18, T19, T20, T21)) -> (r: (T1, T2, T3, T4, T5, T6, T7, T8, T9, T10, T11, T12, T13, T14, T15, T16, T17, T18, T19, T20, T21)) {
        (self.0, self.1, self.2, self.3, self.4, other.0, other.1, other.2, other.3, other.4, other.5, other.6, other.7, other.8, other.9, other.10, other.11, other.12, other.13, other.14, other.15)
    }

    proof fn lemma_join_arity(self, other: (T6, T7, T8, T9, T10, T11, T12, T13, T14, T15, T16, T17, T18, T19, T20, T21)) {
    }
}

impl<T1, T2, T3, T4, T5, T6, T7, T8, T9, T10, T11, T12, T13, T14, T15, T16, T17, T18, T19, T20, T21> JoinableTuple<(T7, T8, T9, T10, T11, T12, T13, T14, T15, T16, T17, T18, T19, T20, T21)> for (T1, T2, T3, T4, T5, T6) {
    type Join = (T1, T2, T3, T4, T5, T6, T7, T8, T9, T10, T11, T12, T13, T14, T15, T16, T17, T18, T19, T20, T21);

    open spec fn spec_join(self, other: (T7, T8, T9, T10, T11, T12, T13, T14, T15, T16, T17, T18, T19, T20, T21)) -> (T1, T2, T3, T4, T5, T6, T7, T8, T9, T10, T11, T12, T13, T14, T15, T16, T17, T18, T19, T20, T21) {
        (self.0, self.1, self.2, self.3, self.4, self.5, other.0, other.1, other.2, other.3, other.4, other.5, other.6, other.7, other.8, other.9, other.10, other.11, other.12, other.13, other.14)
    }

    fn join(self, other: (T7, T8, T9, T10, T11, T12, T13, T14, T15, T16, T17, T18, T19, T20, T21)) -> (r: (T1, T2, T3, T4, T5, T6, T7, T8, T9, T10, T11, T12, T13, T14, T15, T16, T17, T18, T19, T20, T21)) {
        (self.0, self.1, self.2, self.3, self.4, self.5, other.0, other.1, other.2, other.3, other.4, other.5, other.6, other.7, other.8, other.9, other.10, other.11, other.12, other.13, other.14)
    }

    proof fn lemma_join_arity(self, other: (T7, T8, T9, T10, T11, T12, T13, T14, T15, T16, T17, T18, T19, T20, T21)) {
    }
}

impl<T1, T2, T3, T4, T5, T6, T7, T8, T9, T10, T11, T12, T13, T14, T15, T16, T17, T18, T19, T20, T21> JoinableTuple<(T8, T9, T10, T11, T12, T13, T14, T15, T16, T17, T18, T19, T20, T21)> for (T1, T2, T3, T4, T5, T6, T7) {
    type Join = (T1, T2, T3, T4, T5, T6, T7, T8, T9, T10, T11, T12, T13, T14, T15, T16, T17, T18, T19, T20, T21);

    open spec fn spec_join(self, other: (T8, T9, T10, T11, T12, T13, T14, T15, T16, T17, T18, T19, T20, T21)) -> (T1, T2, T3, T4, T5, T6, T7, T8, T9, T10, T11, T12, T13, T14, T15, T16, T17, T18, T19, T20, T21) {
        (self.0, self.1, self.2, self.3, self.4, self.5, self.6, other.0, other.1, other.2, other.3, other.4, other.5, other.6, other.7, other.8, other.9, other.10, other.11, other.12, other.13)
    }

    fn join(self, other: (T8, T9, T10, T11, T12, T13, T14, T15, T16, T17, T18, T19, T20, T21)) -> (r: (T1, T2, T3, T4, T5, T6, T7, T8, T9, T10, T11, T12, T13, T14, T15, T16, T17, T18, T19, T20, T21)) {
        (self.0, self.1, self.2, self.3, self.4, self.5, self.6, other.0, other.1, other.2, other.3, other.4, other.5, other.6, other.7, other.8, other.9, other.10, other.11, other.12, other.13)
    }

    proof fn lemma_join_arity(self, other: (T8, T9, T10, T11, T12, T13, T14, T15, T16, T17, T18, T19, T20, T21)) {
    }
}

impl<T1, T2, T3, T4, T5, T6, T7, T8, T9, T10, T11, T12, T13, T14, T15, T16, T17, T18, T19, T20, T21> JoinableTuple<(T9, T10, T11, T12, T13, T14, T15, T16, T17, T18, T19, T20, T21)> for (T1, T2, T3, T4, T5, T6, T7, T8) {
    type Join = (T1, T2, T3, T4, T5, T6, T7, T8, T9, T10, T11, T12, T13, T14, T15, T16, T17, T18, T19, T20, T21);

    open spec fn spec_join(self, other: (T9, T10, T11, T12, T13, T14, T15, T16, T17, T18, T19, T20, T21)) -> (T1, T2, T3, T4, T5, T6, T7, T8, T9, T10, T11, T12, T13, T14, T15, T16, T17, T18, T19, T20, T21) {
        (self.0, self.1, self.2, self.3, self.4, self.5, self.6, self.7, other.0, other.1, other.2, other.3, other.4, other.5, other.6, other.7, other.8, other.9, other.10, other.11, other.12)
    }

    fn join(self, other: (T9, T10, T11, T12, T13, T14, T15, T16, T17, T18, T19, T20, T21)) -> (r: (T1, T2, T3, T4, T5, T6, T7, T8, T9, T10, T11, T12, T13, T14, T15, T16, T17, T18, T19, T20, T21)) {
        (self.0, self.1, self.2, self.3, self.4, self.5, self.6, self.7, other.0, other.1, other.2, other.3, other.4, other.5, other.6, other.7, other.8, other.9, other.10, other.11, other.12)
    }

    proof fn lemma_join_arity(self, other: (T9, T10, T11, T12, T13, T14, T15, T16, T17, T18, T19, T20, T21)) {
    }
}

impl<T1, T2, T3, T4, T5, T6, T7, T8, T9, T10, T11, T12, T13, T14, T15, T16, T17, T18, T19, T20, T21> JoinableTuple<(T10, T11, T12, T13, T14, T15, T16, T17, T18, T19, T20, T21)> for (T1, T2, T3, T4, T5, T6, T7, T8, T9) {
    type Join = (T1, T2, T3, T4, T5, T6, T7, T8, T9, T10, T11, T12, T13, T14, T15, T16, T17, T18, T19, T20, T21);

    open spec fn spec_join(self, other: (T10, T11, T12, T13, T14, T15, T16, T17, T18, T19, T20, T21)) -> (T1, T2, T3, T4, T5, T6, T7, T8, T9, T10, T11, T12, T13, T14, T15, T16, T17, T18, T19, T20, T21) {
        (self.0, self.1, self.2, self.3, self.4, self.5, self.6, self.7, self.8, other.0, other.1, other.2, other.3, other.4, other.5, other.6, other.7, other.8, other.9, other.10, other.11)
    }

    fn join(self, other: (T10, T11, T12, T13, T14, T15, T16, T17, T18, T19, T20, T21)) -> (r: (T1, T2, T3, T4, T5, T6, T7, T8, T9, T10, T11, T12, T13, T14, T15, T16, T17, T18, T19, T20, T21)) {
        (self.0, self.1, self.2, self.3, self.4, self.5, self.6, self.7, self.8, other.0, other.1, other.2, other.3, other.4, other.5, other.6, other.7, other.8, other.9, other.10, other.11)
    }

    proof fn lemma_join_arity(self, other: (T10, T11, T12, T13, T14, T15, T16, T17, T18, T19, T20, T21)) {
    }
}

impl<T1, T2, T3, T4, T5, T6, T7, T8, T9, T10, T11, T12, T13, T14, T15, T16, T17, T18, T19, T20, T21> JoinableTuple<(T11, T12, T13, T14, T15, T16, T17, T18, T19, T20, T21)> for (T1, T2, T3, T4, T5, T6, T7, T8, T9, T10) {
    type Join = (T1, T2, T3, T4, T5, T6, T7, T8, T9, T10, T11, T12, T13, T14, T15, T16, T17, T18, T19, T20, T21);

    open spec fn spec_join(self, other: (T11, T12, T13, T14, T15, T16, T17, T18, T19, T20, T21)) -> (T1, T2, T3, T4, T5, T6, T7, T8, T9, T10, T11, T12, T13, T14, T15, T16, T17, T18, T19, T20, T21) {
        (self.0, self.1, self.2, self.3, self.4, self.5, self.6, self.7, self.8, self.9, other.0, other.1, other.2, other.3, other.4, other.5, other.6, other.7, other.8, other.9, other.10)
    }

    fn join(self, other: (T11, T12, T13, T14, T15, T16, T17, T18, T19, T20, T21)) -> (r: (T1, T2, T3, T4, T5, T6, T7, T8, T9, T10, T11, T12, T13, T14, T15, T16, T17, T18, T19, T20, T21)) {
        (self.0, self.1, self.2, self.3, self.4, self.5, self.6, self.7, self.8, self.9, other.0, other.1, other.2, other.3, other.4, other.5, other.6, other.7, other.8, other.9, other.10)
    }

    proof fn lemma_join_arity(self, other: (T11, T12, T13, T14, T15, T16, T17, T18, T19, T20, T21)) {
    }
}

impl<T1, T2, T3, T4, T5, T6, T7, T8, T9, T10, T11, T12, T13, T14, T15, T16, T17, T18, T19, T20, T21> JoinableTuple<(T12, T13, T14, T15, T16, T17, T18, T19, T20, T21)> for (T1, T2, T3, T4, T5, T6, T7, T8, T9, T10, T11) {
    type Join = (T1, T2, T3, T4, T5, T6, T7, T8, T9, T10, T11, T12, T13, T14, T15, T16, T17, T18, T19, T20, T21);

    open spec fn spec_join(self, other: (T12, T13, T14, T15, T16, T17, T18, T19, T20, T21)) -> (T1, T2, T3, T4, T5, T6, T7, T8, T9, T10, T11, T12, T13, T14, T15, T16, T17, T18, T19, T20, T21) {
        (self.0, self.1, self.2, self.3, self.4, self.5, self.6, self.7, self.8, self.9, self.10, other.0, other.1, other.2, other.3, other.4, other.5, other.6, other.7, other.8, other.9)
    }

    fn join(self, other: (T12, T13, T14, T15, T16, T17, T18, T19, T20, T21)) -> (r: (T1, T2, T3, T4, T5, T6, T7, T8, T9, T10, T11, T12, T13, T14, T15, T16, T17, T18, T19, T20, T21)) {
        (self.0, self.1, self.2, self.3, self.4, self.5, self.6, self.7, self.8, self.9, self.10, other.0, other.1, other.2, other.3, other.4, other.5, other.6, other.7, other.8, other.9)
    }

    proof fn lemma_join_arity(self, other: (T12, T13, T14, T15, T16, T17, T18, T19, T20, T21)) {
    }
}

impl<T1, T2, T3, T4, T5, T6, T7, T8, T9, T10, T11, T12, T13, T14, T15, T16, T17, T18, T19, T20, T21> JoinableTuple<(T13, T14, T15, T16, T17, T18, T19, T20, T21)> for (T1, T2, T3, T4, T5, T6, T7, T8, T9, T10, T11, T12) {
    type Join = (T1, T2, T3, T4, T5, T6, T7, T8, T9, T10, T11, T12, T13, T14, T15, T16, T17, T18, T19, T20, T21);

    open spec fn spec_join(self, other: (T13, T14, T15, T16, T17, T18, T19, T20, T21)) -> (T1, T2, T3, T4, T5, T6, T7, T8, T9, T10, T11, T12, T13, T14, T15, T16, T17, T18, T19, T20, T21) {
        (self.0, self.1, self.2, self.3, self.4, self.5, self.6, self.7, self.8, self.9, self.10, self.11, other.0, other.1, other.2, other.3, other.4, other.5, other.6, other.7, other.8)
    }

    fn join(self, other: (T13, T14, T15, T16, T17, T18, T19, T20, T21)) -> (r: (T1, T2, T3, T4, T5, T6, T7, T8, T9, T10, T11, T12, T13, T14, T15, T16, T17, T18, T19, T20, T21)) {
        (self.0, self.1, self.2, self.3, self.4, self.5, self.6, self.7, self.8, self.9, self.10, self.11, other.0, other.1, other.2, other.3, other.4, other.5, other.6, other.7, other.8)
    }

    proof fn lemma_join_arity(self, other: (T13, T14, T15, T16, T17, T18, T19, T20, T21)) {
    }
}

impl<T1, T2, T3, T4, T5, T6, T7, T8, T9, T10, T11, T12, T13, T14, T15, T16, T17, T18, T19, T20, T21> JoinableTuple<(T14, T15, T16, T17, T18, T19, T20, T21)> for (T1, T2, T3, T4, T5, T6, T7, T8, T9, T10, T11, T12, T13) {
    type Join = (T1, T2, T3, T4, T5, T6, T7, T8, T9, T10, T11, T12, T13, T14, T15, T16, T17, T18, T19, T20, T21);

    open spec fn spec_join(self, other: (T14, T15, T16, T17, T18, T19, T20, T21)) -> (T1, T2, T3, T4, T5, T6, T7, T8, T9, T10, T11, T12, T13, T14, T15, T16, T17, T18, T19, T20, T21) {
        (self.0, self.1, self.2, self.3, self.4, self.5, self.6, self.7, self.8, self.9, self.10, self.11, self.12, other.0, other.1, other.2, other.3, other.4, other.5, other.6, other.7)
    }

    fn join(self, other: (T14, T15, T16, T17, T18, T19, T20, T21)) -> (r: (T1, T2, T3, T4, T5, T6, T7, T8, T9, T10, T11, T12, T13, T14, T15, T16, T17, T18, T19, T20, T21)) {
        (self.0, self.1, self.2, self.3, self.4, self.5, self.6, self.7, self.8, self.9, self.10, self.11, self.12, other.0, other.1, other.2, other.3, other.4, other.5, other.6, other.7)
    }

    proof fn lemma_join_arity(self, other: (T14, T15, T16, T17, T18, T19, T20, T21)) {
    }
}

impl<T1, T2, T3, T4, T5, T6, T7, T8, T9, T10, T11, T12, T13, T14, T15, T16, T17, T18, T19, T20, T21> JoinableTuple<(T15, T16, T17, T18, T19, T20, T21)> for (T1, T2, T3, T4, T5, T6, T7, T8, T9, T10, T11, T12, T13, T14) {
    type Join = (T1, T2, T3, T4, T5, T6, T7, T8, T9, T10, T11, T12, T13, T14, T15, T16, T17, T18, T19, T20, T21);

    open spec fn spec_join(self, other: (T15, T16, T17, T18, T19, T20, T21)) -> (T1, T2, T3, T4, T5, T6, T7, T8, T9, T10, T11, T12, T13, T14, T15, T16, T17, T18, T19, T20, T21) {
        (self.0, self.1, self.2, self.3, self.4, self.5, self.6, self.7, self.8, self.9, self.10, self.11, self.12, self.13, other.0, other.1, other.2, other.3, other.4, other.5, other.6)
    }

    fn join(self, other: (T15, T16, T17, T18, T19, T20, T21)) -> (r: (T1, T2, T3, T4, T5, T6, T7, T8, T9, T10, T11, T12, T13, T14, T15, T16, T17, T18, T19, T20, T21)) {
        (self.0, self.1, self.2, self.3, self.4, self.5, self.6, self.7, self.8, self.9, self.10, self.11, self.12, self.13, other.0, other.1, other.2, other.3, other.4, other.5, other.6)
    }

    proof fn lemma_join_arity(self, other: (T15, T16, T17, T18, T19, T20, T21)) {
    }
}

impl<T1, T2, T3, T4, T5, T6, T7, T8, T9, T10, T11, T12, T13, T14, T15, T16, T17, T18, T19, T20, T21> JoinableTuple<(T16, T17, T18, T19, T20, T21)> for (T1, T2, T3, T4, T5, T6, T7, T8, T9, T10, T11, T12, T13, T14, T15) {
    type Join = (T1, T2, T3, T4, T5, T6, T7, T8, T9, T10, T11, T12, T13, T14, T15, T16, T17, T18, T19, T20, T21);

    open spec fn spec_join(self, other: (T16, T17, T18, T19, T20, T21)) -> (T1, T2, T3, T4, T5, T6, T7, T8, T9, T10, T11, T12, T13, T14, T15, T16, T17, T18, T19, T20, T21) {
        (self.0, self.1, self.2, self.3, self.4, self.5, self.6, self.7, self.8, self.9, self.10, self.11, self.12, self.13, self.14, other.0, other.1, other.2, other.3, other.4, other.5)
    }

    fn join(self, other: (T16, T17, T18, T19, T20, T21)) -> (r: (T1, T2, T3, T4, T5, T6, T7, T8, T9, T10, T11, T12, T13, T14, T15, T16, T17, T18, T19, T20, T21)) {
        (self.0, self.1, self.2, self.3, self.4, self.5, self.6, self.7, self.8, self.9, self.10, self.11, self.12, self.13, self.14, other.0, other.1, other.2, other.3, other.4, other.5)
    }

    proof fn lemma_join_arity(self, other: (T16, T17, T18, T19, T20, T21)) {
    }
}

impl<T1, T2, T3, T4, T5, T6, T7, T8, T9, T10, T11, T12, T13, T14, T15, T16, T17, T18, T19, T20, T21> JoinableTuple<(T17, T18, T19, T20, T21)> for (T1, T2, T3, T4, T5, T6, T7, T8, T9, T10, T11, T12, T13, T14, T15, T16) {
    type Join = (T1, T2, T3, T4, T5, T6, T7, T8, T9, T10, T11, T12, T13, T14, T15, T16, T17, T18, T19, T20, T21);

    open spec fn spec_join(self, other: (T17, T18, T19, T20, T21)) -> (T1, T2, T3, T4, T5, T6, T7, T8, T9, T10, T11, T12, T13, T14, T15, T16, T17, T18, T19, T20, T21) {
        (self.0, self.1, self.2, self.3, self.4, self.5, self.6, self.7, self.8, self.9, self.10, self.11, self.12, self.13, self.14, self.15, other.0, other.1, other.2, other.3, other.4)
    }

    fn join(self, other: (T17, T18, T19, T20, T21)) -> (r: (T1, T2, T3, T4, T5, T6, T7, T8, T9, T10, T11, T12, T13, T14, T15, T16, T17, T18, T19, T20, T21)) {
        (self.0, self.1, self.2, self.3, self.4, self.5, self.6, self.7, self.8, self.9, self.10, self.11, self.12, self.13, self.14, self.15, other.0, other.1, other.2, other.3, other.4)
    }

    proof fn lemma_join_arity(self, other: (T17, T18, T19, T20, T21)) {
    }
}

impl<T1, T2, T3, T4, T5, T6, T7, T8, T9, T10, T11, T12, T13, T14, T15, T16, T17, T18, T19, T20, T21> JoinableTuple<(T18, T19, T20, T21)> for (T1, T2, T3, T4, T5, T6, T7, T8, T9, T10, T11, T12, T13, T14, T15, T16, T17) {
    type Join = (T1, T2, T3, T4, T5, T6, T7, T8, T9, T10, T11, T12, T13, T14, T15, T16, T17, T18, T19, T20, T21);

    open spec fn spec_join(self, other: (T18, T19, T20, T21)) -> (T1, T2, T3, T4, T5, T6, T7, T8, T9, T10, T11, T12, T13, T14, T15, T16, T17, T18, T19, T20, T21) {
        (self.0, self.1, self.2, self.3, self.4, self.5, self.6, self.7, self.8, self.9, self.10, self.11, self.12, self.13, self.14, self.15, self.16, other.0, other.1, other.2, other.3)
    }

    fn join(self, other: (T18, T19, T20, T21)) -> (r: (T1, T2, T3, T4, T5, T6, T7, T8, T9, T10, T11, T12, T13, T14, T15, T16, T17, T18, T19, T20, T21)) {
        (self.0, self.1, self.2, self.3, self.4, self.5, self.6, self.7, self.8, self.9, self.10, self.11, self.12, self.13, self.14, self.15, self.16, other.0, other.1, other.2, other.3)
    }

    proof fn lemma_join_arity(self, other: (T18, T19, T20, T21)) {
    }
}

impl<T1, T2, T3, T4, T5, T6, T7, T8, T9, T10, T11, T12, T13, T14, T15, T16, T17, T18, T19, T20, T21> JoinableTuple<(T19, T20, T21)> for (T1, T2, T3, T4, T5, T6, T7, T8, T9, T10, T11, T12, T13, T14, T15, T16, T17, T18) {
    type Join = (T1, T2, T3, T4, T5, T6, T7, T8, T9, T10, T11, T12, T13, T14, T15, T16, T17, T18, T19, T20, T21);

    open spec fn spec_join(self, other: (T19, T20, T21)) -> (T1, T2, T3, T4, T5, T6, T7, T8, T9, T10, T11, T12, T13, T14, T15, T16, T17, T18, T19, T20, T21) {
        (self.0, self.1, self.2, self.3, self.4, self.5, self.6, self.7, self.8, self.9, self.10, self.11, self.12, self.13, self.14, self.15, self.16, self.17, other.0, other.1, other.2)
    }

    fn join(self, other: (T19, T20, T21)) -> (r: (T1, T2, T3, T4, T5, T6, T7, T8, T9, T10, T11, T12, T13, T14, T15, T16, T17, T18, T19, T20, T21)) {
        (self.0, self.1, self.2, self.3, self.4, self.5, self.6, self.7, self.8, self.9, self.10, self.11, self.12, self.13, self.14, self.15, self.16, self.17, other.0, other.1, other.2)
    }

    proof fn lemma_join_arity(self, other: (T19, T20, T21)) {
    }
}

impl<T1, T2, T3, T4, T5, T6, T7, T8, T9, T10, T11, T12, T13, T14, T15, T16, T17, T18, T19, T20, T21> JoinableTuple<(T20, T21)> for (T1, T2, T3, T4, T5, T6, T7, T8, T9, T10, T11, T12, T13, T14, T15, T16, T17, T18, T19) {
    type Join = (T1, T2, T3, T4, T5, T6, T7, T8, T9, T10, T11, T12, T13, T14, T15, T16, T17, T18, T19, T20, T21);

    open spec fn spec_join(self, other: (T20, T21)) -> (T1, T2, T3, T4, T5, T6, T7, T8, T9, T10, T11, T12, T13, T14, T15, T16, T17, T18, T19, T20, T21) {
        (self.0, self.1, self.2, self.3, self.4, self.5, self.6, self.7, self.8, self.9, self.10, self.11, self.12, self.13, self.14, self.15, self.16, self.17, self.18, other.0, other.1)
    }

    fn join(self, other: (T20, T21)) -> (r: (T1, T2, T3, T4, T5, T6, T7, T8, T9, T10, T11, T12, T13, T14, T15, T16, T17, T18, T19, T20, T21)) {
        (self.0, self.1, self.2, self.3, self.4, self.5, self.6, self.7, self.8, self.9, self.10, self.11, self.12, self.13, self.14, self.15, self.16, self.17, self.18, other.0, other.1)
    }

    proof fn lemma_join_arity(self, other: (T20, T21)) {
    }
}

impl<T1, T2, T3, T4, T5, T6, T7, T8, T9, T10, T11, T12, T13, T14, T15, T16, T17, T18, T19, T20, T21> JoinableTuple<(T21,)> for (T1, T2, T3, T4, T5, T6, T7, T8, T9, T10, T11, T12, T13, T14, T15, T16, T17, T18, T19, T20) {
    type Join = (T1, T2, T3, T4, T5, T6, T7, T8, T9, T10, T11, T12, T13, T14, T15, T16, T17, T18, T19, T20, T21);

    open spec fn spec_join(self, other: (T21,)) -> (T1, T2, T3, T4, T5, T6, T7, T8, T9, T10, T11, T12, T13, T14, T15, T16, T17, T18, T19, T20, T21) {
        (self.0, self.1, self.2, self.3, self.4, self.5, self.6, self.7, self.8, self.9, self.10, self.11, self.12, self.13, self.14, self.15, self.16, self.17, self.18, self.19, other.0)
    }

    fn join(self, other: (T21,)) -> (r: (T1, T2, T3, T4, T5, T6, T7, T8, T9, T10, T11, T12, T13, T14, T15, T16, T17, T18, T19, T20, T21)) {
        (self.0, self.1, self.2, self.3, self.4, self.5, self.6, self.7, self.8, self.9, self.10, self.11, self.12, self.13, self.14, self.15, self.16, self.17, self.18, self.19, other.0)
    }

    proof fn lemma_join_arity(self, other: (T21,)) {
    }
}

impl<T1, T2, T3, T4, T5, T6, T7, T8, T9, T10, T11, T12, T13, T14, T15, T16, T17, T18, T19, T20, T21> JoinableTuple<()> for (T1, T2, T3, T4, T5, T6, T7, T8, T9, T10, T11, T12, T13, T14, T15, T16, T17, T18, T19, T20, T21) {
    type Join = (T1, T2, T3, T4, T5, T6, T7, T8, T9, T10, T11, T12, T13, T14, T15, T16, T17, T18, T19, T20, T21);

    open spec fn spec_join(self, other: ()) -> (T1, T2, T3, T4, T5, T6, T7, T8, T9, T10, T11, T12, T13, T14, T15, T16, T17, T18, T19, T20, T21) {
        (self.0, self.1, self.2, self.3, self.4, self.5, self.6, self.7, self.8, self.9, self.10, self.11, self.12, self.13, self.14, self.15, self.16, self.17, self.18, self.19, self.20)
    }

    fn join(self, other: ()) -> (r: (T1, T2, T3, T4, T5, T6, T7, T8, T9, T10, T11, T12, T13, T14, T15, T16, T17, T18, T19, T20, T21)) {
        (self.0, self.1, self.2, self.3, self.4, self.5, self.6, self.7, self.8, self.9, self.10, self.11, self.12, self.13, self.14, self.15, self.16, self.17, self.18, self.19, self.20)
    }

    proof fn lemma_join_arity(self, other: ()) {
    }
}

impl<T1, T2, T3, T4, T5, T6, T7, T8, T9, T10, T11, T12, T13, T14, T15, T16, T17, T18, T19, T20, T21, T22> Sealed for (T1, T2, T3, T4, T5, T6, T7, T8, T9, T10, T11, T12, T13, T14, T15, T16, T17, T18, T19, T20, T21, T22) {}

impl<T1, T2, T3, T4, T5, T6, T7, T8, T9, T10, T11, T12, T13, T14, T15, T16, T17, T18, T19, T20, T21, T22> DynTuple for (T1, T2, T3, T4, T5, T6, T7, T8, T9, T10, T11, T12, T13, T14, T15, T16, T17, T18, T19, T20, T21, T22) {
    open spec fn spec_arity(&self) -> nat {
        22
    }

    fn arity(&self) -> (r: usize) {
        22
    }
}

impl<T1, T2, T3, T4, T5, T6, T7, T8, T9, T10, T11, T12, T13, T14, T15, T16, T17, T18, T19, T20, T21, T22> Tuple for (T1, T2, T3, T4, T5, T6, T7, T8, T9, T10, T11, T12, T13, T14, T15, T16, T17, T18, T19, T20, T21, T22) {
    const ARITY: usize = 22;

    open spec fn spec_type_arity() -> nat {
        22
    }

    proof fn lemma_arity(&self) {
    }

    proof fn lemma_type_arity() {
    }
}

impl<T1, T2, T3, T4, T5, T6, T7, T8, T9, T10, T11, T12, T13, T14, T15, T16, T17, T18, T19, T20, T21, T22, T> GrowableTuple<T> for (T1, T2, T3, T4, T5, T6, T7, T8, T9, T10, T11, T12, T13, T14, T15, T16, T17, T18, T19, T20, T21, T22) {
    type Append = (T1, T2, T3, T4, T5, T6, T7, T8, T9, T10, T11, T12, T13, T14, T15, T16, T17, T18, T19, T20, T21, T22, T);

    type Prepend = (T, T1, T2, T3, T4, T5, T6, T7, T8, T9, T10, T11, T12, T13, T14, T15, T16, T17, T18, T19, T20, T21, T22);

    open spec fn spec_append(self, value: T) -> (T1, T2, T3, T4, T5, T6, T7, T8, T9, T10, T11, T12, T13, T14, T15, T16, T17, T18, T19, T20, T21, T22, T) {
        (self.0, self.1, self.2, self.3, self.4, self.5, self.6, self.7, self.8, self.9, self.10, self.11, self.12, self.13, self.14, self.15, self.16, self.17, self.18, self.19, self.20, self.21, value)
    }

    open spec fn spec_prepend(self, value: T) -> (T, T1, T2, T3, T4, T5, T6, T7, T8, T9, T10, T11, T12, T13, T14, T15, T16, T17, T18, T19, T20, T21, T22) {
        (value, self.0, self.1, self.2, self.3, self.4, self.5, self.6, self.7, self.8, self.9, self.10, self.11, self.12, self.13, self.14, self.15, self.16, self.17, self.18, self.19, self.20, self.21)
    }

    fn append(self, value: T) -> (r: (T1, T2, T3, T4, T5, T6, T7, T8, T9, T10, T11, T12, T13, T14, T15, T16, T17, T18, T19, T20, T21, T22, T)) {
        (self.0, self.1, self.2, self.3, self.4, self.5, self.6, self.7, self.8, self.9, self.10, self.11, self.12, self.13, self.14, self.15, self.16, self.17, self.18, self.19, self.20, self.21, value)
    }

    fn prepend(self, value: T) -> (r: (T, T1, T2, T3, T4, T5, T6, T7, T8, T9, T10, T11, T12, T13, T14, T15, T16, T17, T18, T19, T20, T21, T22)) {
        (value, self.0, self.1, self.2, self.3, self.4, self.5, self.6, self.7, self.8, self.9, self.10, self.11, self.12, self.13, self.14, self.15, self.16, self.17, self.18, self.19, self.20, self.21)
    }

    proof fn lemma_grow_arity(self, value: T) {
    }
}

impl<T1, T2, T3, T4, T5, T6, T7, T8, T9, T10, T11, T12, T13, T14, T15, T16, T17, T18, T19, T20, T21, T22> NonEmptyTuple for (T1, T2, T3, T4, T5, T6, T7, T8, T9, T10, T11, T12, T13, T14, T15, T16, T17, T18, T19, T20, T21, T22) {
    type Head = T1;

    type Tail = T22;

    type TruncateHead = (T2, T3, T4, T5, T6, T7, T8, T9, T10, T11, T12, T13, T14, T15, T16, T17, T18, T19, T20, T21, T22);

    type TruncateTail = (T1, T2, T3, T4, T5, T6, T7, T8, T9, T10, T11, T12, T13, T14, T15, T16, T17, T18, T19, T20, T21);

    open spec fn spec_head(&self) -> T1 {
        self.0
    }

    open spec fn spec_tail(&self) -> T22 {
        self.21
    }

    open spec fn spec_with_head(self, value: T1) -> (T1, T2, T3, T4, T5, T6, T7, T8, T9, T10, T11, T12, T13, T14, T15, T16, T17, T18, T19, T20, T21, T22) {
        (value, self.1, self.2, self.3, self.4, self.5, self.6, self.7, self.8, self.9, self.10, self.11, self.12, self.13, self.14, self.15, self.16, self.17, self.18, self.19, self.20, self.21)
    }

    open spec fn spec_with_tail(self, value: T22) -> (T1, T2, T3, T4, T5, T6, T7, T8, T9, T10, T11, T12, T13, T14, T15, T16, T17, T18, T19, T20, T21, T22) {
        (self.0, self.1, self.2, self.3, self.4, self.5, self.6, self.7, self.8, self.9, self.10, self.11, self.12, self.13, self.14, self.15, self.16, self.17, self.18, self.19, self.20, value)
    }

    open spec fn spec_truncate_head(self) -> (T1, (T2, T3, T4, T5, T6, T7, T8, T9, T10, T11, T12, T13, T14, T15, T16, T17, T18, T19, T20, T21, T22)) {
        (self.0, (self.1, self.2, self.3, self.4, self.5, self.6, self.7, self.8, self.9, self.10, self.11, self.12, self.13, self.14, self.15, self.16, self.17, self.18, self.19, self.20, self.21))
    }

    open spec fn spec_truncate_tail(self) -> ((T1, T2, T3, T4, T5, T6, T7, T8, T9, T10, T11, T12, T13, T14, T15, T16, T17, T18, T19, T20, T21), T22) {
        ((self.0, self.1, self.2, self.3, self.4, self.5, self.6, self.7, self.8, self.9, self.10, self.11, self.12, self.13, self.14, self.15, self.16, self.17, self.18, self.19, self.20), self.21)
    }

    fn head(&self) -> (r: &T1) {
        &self.0
    }

    fn head_mut(&mut self) -> (r: &mut T1) {
        &mut self.0
    }

    fn tail(&self) -> (r: &T22) {
        &self.21
    }

    fn tail_mut(&mut self) -> (r: &mut T22) {
        &mut self.21
    }

    fn truncate_head(self) -> (r: (T1, (T2, T3, T4, T5, T6, T7, T8, T9, T10, T11, T12, T13, T14, T15, T16, T17, T18, T19, T20, T21, T22))) {
        (self.0, (self.1, self.2, self.3, self.4, self.5, self.6, self.7, self.8, self.9, self.10, self.11, self.12, self.13, self.14, self.15, self.16, self.17, self.18, self.19, self.20, self.21))
    }

    fn truncate_tail(self) -> (r: ((T1, T2, T3, T4, T5, T6, T7, T8, T9, T10, T11, T12, T13, T14, T15, T16, T17, T18, T19, T20, T21), T22)) {
        ((self.0, self.1, self.2, self.3, self.4, self.5, self.6, self.7, self.8, self.9, self.10, self.11, self.12, self.13, self.14, self.15, self.16, self.17, self.18, self.19, self.20), self.21)
    }

    proof fn lemma_truncate_head(self) {
    }

    proof fn lemma_truncate_tail(self) {
    }
}

impl<T1, T2, T3, T4, T5, T6, T7, T8, T9, T10, T11, T12, T13, T14, T15, T16, T17, T18, T19, T20, T21, T22> NonUnaryTuple for (T1, T2, T3, T4, T5, T6, T7, T8, T9, T10, T11, T12, T13, T14, T15, T16, T17, T18, T19, T20, T21, T22) {
    type TruncateHeadTail = (T2, T3, T4, T5, T6, T7, T8, T9, T10, T11, T12, T13, T14, T15, T16, T17, T18, T19, T20, T21);

    open spec fn spec_truncate_head_tail(self) -> (T1, (T2, T3, T4, T5, T6, T7, T8, T9, T10, T11, T12, T13, T14, T15, T16, T17, T18, T19, T20, T21), T22) {
        (self.0, (self.1, self.2, self.3, self.4, self.5, self.6, self.7, self.8, self.9, self.10, self.11, self.12, self.13, self.14, self.15, self.16, self.17, self.18, self.19, self.20), self.21)
    }

    fn head_tail(&self) -> (r: (&T1, &T22)) {
        (&self.0, &self.21)
    }

    fn head_tail_mut(&mut self) -> (r: (&mut T1, &mut T22)) {
        (&mut self.0, &mut self.21)
    }

    fn truncate_head_tail(self) -> (r: (T1, (T2, T3, T4, T5, T6, T7, T8, T9, T10, T11, T12, T13, T14, T15, T16, T17, T18, T19, T20, T21), T22)) {
        (self.0, (self.1, self.2, self.3, self.4, self.5, self.6, self.7, self.8, self.9, self.10, self.11, self.12, self.13, self.14, self.15, self.16, self.17, self.18, self.19, self.20), self.21)
    }

    proof fn lemma_truncate_head_tail(self) {
    }
}

impl<T1, T2, T3, T4, T5, T6, T7, T8, T9, T10, T11, T12, T13, T14, T15, T16, T17, T18, T19, T20, T21, T22> IndexableTuple<0> for (T1, T2, T3, T4, T5, T6, T7, T8, T9, T10, T11, T12, T13, T14, T15, T16, T17, T18, T19, T20, T21, T22) {
    type Value = T1;

    open spec fn spec_index(&self) -> T1 {
        self.0
    }

    open spec fn spec_with_index(self, value: T1) -> (T1, T2, T3, T4, T5, T6, T7, T8, T9, T10, T11, T12, T13, T14, T15, T16, T17, T18, T19, T20, T21, T22) {
        (value, self.1, self.2, self.3, self.4, self.5, self.6, self.7, self.8, self.9, self.10, self.11, self.12, self.13, self.14, self.15, self.16, self.17, self.18, self.19, self.20, self.21)
    }

    fn index_ref(&self) -> (r: &T1) {
        &self.0
    }

    fn index_mut(&mut self) -> (r: &mut T1) {
        &mut self.0
    }

    fn into_index(self) -> (r: T1) {
        self.0
    }

    proof fn lemma_index_in_range(&self) {
    }
}

impl<T1, T2, T3, T4, T5, T6, T7, T8, T9, T10, T11, T12, T13, T14, T15, T16, T17, T18, T19, T20, T21, T22> IndexableTuple<1> for (T1, T2, T3, T4, T5, T6, T7, T8, T9, T10, T11, T12, T13, T14, T15, T16, T17, T18, T19, T20, T21, T22) {
    type Value = T2;

    open spec fn spec_index(&self) -> T2 {
        self.1
    }

    open spec fn spec_with_index(self, value: T2) -> (T1, T2, T3, T4, T5, T6, T7, T8, T9, T10, T11, T12, T13, T14, T15, T16, T17, T18, T19, T20, T21, T22) {
        (self.0, value, self.2, self.3, self.4, self.5, self.6, self.7, self.8, self.9, self.10, self.11, self.12, self.13, self.14, self.15, self.16, self.17, self.18, self.19, self.20, self.21)
    }

    fn index_ref(&self) -> (r: &T2) {
        &self.1
    }

    fn index_mut(&mut self) -> (r: &mut T2) {
        &mut self.1
    }

    fn into_index(self) -> (r: T2) {
        self.1
    }

    proof fn lemma_index_in_range(&self) {
    }
}

impl<T1, T2, T3, T4, T5, T6, T7, T8, T9, T10, T11, T12, T13, T14, T15, T16, T17, T18, T19, T20, T21, T22> IndexableTuple<2> for (T1, T2, T3, T4, T5, T6, T7, T8, T9, T10, T11, T12, T13, T14, T15, T16, T17, T18, T19, T20, T21, T22) {
    type Value = T3;

    open spec fn spec_index(&self) -> T3 {
        self.2
    }

    open spec fn spec_with_index(self, value: T3) -> (T1, T2, T3, T4, T5, T6, T7, T8, T9, T10, T11, T12, T13, T14, T15, T16, T17, T18, T19, T20, T21, T22) {
        (self.0, self.1, value, self.3, self.4, self.5, self.6, self.7, self.8, self.9, self.10, self.11, self.12, self.13, self.14, self.15, self.16, self.17, self.18, self.19, self.20, self.21)
    }

    fn index_ref(&self) -> (r: &T3) {
        &self.2
    }

    fn index_mut(&mut self) -> (r: &mut T3) {
        &mut self.2
    }

    fn into_index(self) -> (r: T3) {
        self.2
    }

    proof fn lemma_index_in_range(&self) {
    }
}

impl<T1, T2, T3, T4, T5, T6, T7, T8, T9, T10, T11, T12, T13, T14, T15, T16, T17, T18, T19, T20, T21, T22> IndexableTuple<3> for (T1, T2, T3, T4, T5, T6, T7, T8, T9, T10, T11, T12, T13, T14, T15, T16, T17, T18, T19, T20, T21, T22) {
    type Value = T4;

    open spec fn spec_index(&self) -> T4 {
        self.3
    }

    open spec fn spec_with_index(self, value: T4) -> (T1, T2, T3, T4, T5, T6, T7, T8, T9, T10, T11, T12, T13, T14, T15, T16, T17, T18, T19, T20, T21, T22) {
        (self.0, self.1, self.2, value, self.4, self.5, self.6, self.7, self.8, self.9, self.10, self.11, self.12, self.13, self.14, self.15, self.16, self.17, self.18, self.19, self.20, self.21)
    }

    fn index_ref(&self) -> (r: &T4) {
        &self.3
    }

    fn index_mut(&mut self) -> (r: &mut T4) {
        &mut self.3
    }

    fn into_index(self) -> (r: T4) {
        self.3
    }

    proof fn lemma_index_in_range(&self) {
    }
}

impl<T1, T2, T3, T4, T5, T6, T7, T8, T9, T10, T11, T12, T13, T14, T15, T16, T17, T18, T19, T20, T21, T22> IndexableTuple<4> for (T1, T2, T3, T4, T5, T6, T7, T8, T9, T10, T11, T12, T13, T14, T15, T16, T17, T18, T19, T20, T21, T22) {
    type Value = T5;

    open spec fn spec_index(&self) -> T5 {
        self.4
    }

    open spec fn spec_with_index(self, value: T5) -> (T1, T2, T3, T4, T5, T6, T7, T8, T9, T10, T11, T12, T13, T14, T15, T16, T17, T18, T19, T20, T21, T22) {
        (self.0, self.1, self.2, self.3, value, self.5, self.6, self.7, self.8, self.9, self.10, self.11, self.12, self.13, self.14, self.15, self.16, self.17, self.18, self.19, self.20, self.21)
    }

    fn index_ref(&self) -> (r: &T5) {
        &self.4
    }

    fn index_mut(&mut self) -> (r: &mut T5) {
        &mut self.4
    }

    fn into_index(self) -> (r: T5) {
        self.4
    }

    proof fn lemma_index_in_range(&self) {
    }
}

impl<T1, T2, T3, T4, T5, T6, T7, T8, T9, T10, T11, T12, T13, T14, T15, T16, T17, T18, T19, T20, T21, T22> IndexableTuple<5> for (T1, T2, T3, T4, T5, T6, T7, T8, T9, T10, T11, T12, T13, T14, T15, T16, T17, T18, T19, T20, T21, T22) {
    type Value = T6;

    open spec fn spec_index(&self) -> T6 {
        self.5
    }

    open spec fn spec_with_index(self, value: T6) -> (T1, T2, T3, T4, T5, T6, T7, T8, T9, T10, T11, T12, T13, T14, T15, T16, T17, T18, T19, T20, T21, T22) {
        (self.0, self.1, self.2, self.3, self.4, value, self.6, self.7, self.8, self.9, self.10, self.11, self.12, self.13, self.14, self.15, self.16, self.17, self.18, self.19, self.20, self.21)
    }

    fn index_ref(&self) -> (r: &T6) {
        &self.5
    }

    fn index_mut(&mut self) -> (r: &mut T6) {
        &mut self.5
    }

    fn into_index(self) -> (r: T6) {
        self.5
    }

    proof fn lemma_index_in_range(&self) {
    }
}

impl<T1, T2, T3, T4, T5, T6, T7, T8, T9, T10, T11, T12, T13, T14, T15, T16, T17, T18, T19, T20, T21, T22> IndexableTuple<6> for (T1, T2, T3, T4, T5, T6, T7, T8, T9, T10, T11, T12, T13, T14, T15, T16, T17, T18, T19, T20, T21, T22) {
    type Value = T7;

    open spec fn spec_index(&self) -> T7 {
        self.6
    }

    open spec fn spec_with_index(self, value: T7) -> (T1, T2, T3, T4, T5, T6, T7, T8, T9, T10, T11, T12, T13, T14, T15, T16, T17, T18, T19, T20, T21, T22) {
        (self.0, self.1, self.2, self.3, self.4, self.5, value, self.7, self.8, self.9, self.10, self.11, self.12, self.13, self.14, self.15, self.16, self.17, self.18, self.19, self.20, self.21)
    }

    fn index_ref(&self) -> (r: &T7) {
        &self.6
    }

    fn index_mut(&mut self) -> (r: &mut T7) {
        &mut self.6
    }

    fn into_index(self) -> (r: T7) {
        self.6
    }

    proof fn lemma_index_in_range(&self) {
    }
}

impl<T1, T2, T3, T4, T5, T6, T7, T8, T9, T10, T11, T12, T13, T14, T15, T16, T17, T18, T19, T20, T21, T22> IndexableTuple<7> for (T1, T2, T3, T4, T5, T6, T7, T8, T9, T10, T11, T12, T13, T14, T15, T16, T17, T18, T19, T20, T21, T22) {
    type Value = T8;

    open spec fn spec_index(&self) -> T8 {
        self.7
    }

    open spec fn spec_with_index(self, value: T8) -> (T1, T2, T3, T4, T5, T6, T7, T8, T9, T10, T11, T12, T13, T14, T15, T16, T17, T18, T19, T20, T21, T22) {
        (self.0, self.1, self.2, self.3, self.4, self.5, self.6, value, self.8, self.9, self.10, self.11, self.12, self.13, self.14, self.15, self.16, self.17, self.18, self.19, self.20, self.21)
    }

    fn index_ref(&self) -> (r: &T8) {
        &self.7
    }

    fn index_mut(&mut self) -> (r: &mut T8) {
        &mut self.7
    }

    fn into_index(self) -> (r: T8) {
        self.7
    }

    proof fn lemma_index_in_range(&self) {
    }
}

impl<T1, T2, T3, T4, T5, T6, T7, T8, T9, T10, T11, T12, T13, T14, T15, T16, T17, T18, T19, T20, T21, T22> IndexableTuple<8> for (T1, T2, T3, T4, T5, T6, T7, T8, T9, T10, T11, T12, T13, T14, T15, T16, T17, T18, T19, T20, T21, T22) {
    type Value = T9;

    open spec fn spec_index(&self) -> T9 {
        self.8
    }

    open spec fn spec_with_index(self, value: T9) -> (T1, T2, T3, T4, T5, T6, T7, T8, T9, T10, T11, T12, T13, T14, T15, T16, T17, T18, T19, T20, T21, T22) {
        (self.0, self.1, self.2, self.3, self.4, self.5, self.6, self.7, value, self.9, self.10, self.11, self.12, self.13, self.14, self.15, self.16, self.17, self.18, self.19, self.20, self.21)
    }

    fn index_ref(&self) -> (r: &T9) {
        &self.8
    }

    fn index_mut(&mut self) -> (r: &mut T9) {
        &mut self.8
    }

    fn into_index(self) -> (r: T9) {
        self.8
    }

    proof fn lemma_index_in_range(&self) {
    }
}

impl<T1, T2, T3, T4, T5, T6, T7, T8, T9, T10, T11, T12, T13, T14, T15, T16, T17, T18, T19, T20, T21, T22> IndexableTuple<9> for (T1, T2, T3, T4, T5, T6, T7, T8, T9, T10, T11, T12, T13, T14, T15, T16, T17, T18, T19, T20, T21, T22) {
    type Value = T10;

    open spec fn spec_index(&self) -> T10 {
        self.9
    }

    open spec fn spec_with_index(self, value: T10) -> (T1, T2, T3, T4, T5, T6, T7, T8, T9, T10, T11, T12, T13, T14, T15, T16, T17, T18, T19, T20, T21, T22) {
        (self.0, self.1, self.2, self.3, self.4, self.5, self.6, self.7, self.8, value, self.10, self.11, self.12, self.13, self.14, self.15, self.16, self.17, self.18, self.19, self.20, self.21)
    }

    fn index_ref(&self) -> (r: &T10) {
        &self.9
    }

    fn index_mut(&mut self) -> (r: &mut T10) {
        &mut self.9
    }

    fn into_index(self) -> (r: T10) {
        self.9
    }

    proof fn lemma_index_in_range(&self) {
    }
}

impl<T1, T2, T3, T4, T5, T6, T7, T8, T9, T10, T11, T12, T13, T14, T15, T16, T17, T18, T19, T20, T21, T22> IndexableTuple<10> for (T1, T2, T3, T4, T5, T6, T7, T8, T9, T10, T11, T12, T13, T14, T15, T16, T17, T18, T19, T20, T21, T22) {
    type Value = T11;

    open spec fn spec_index(&self) -> T11 {
        self.10
    }

    open spec fn spec_with_index(self, value: T11) -> (T1, T2, T3, T4, T5, T6, T7, T8, T9, T10, T11, T12, T13, T14, T15, T16, T17, T18, T19, T20, T21, T22) {
        (self.0, self.1, self.2, self.3, self.4, self.5, self.6, self.7, self.8, self.9, value, self.11, self.12, self.13, self.14, self.15, self.16, self.17, self.18, self.19, self.20, self.21)
    }

    fn index_ref(&self) -> (r: &T11) {
        &self.10
    }

    fn index_mut(&mut self) -> (r: &mut T11) {
        &mut self.10
    }

    fn into_index(self) -> (r: T11) {
        self.10
    }

    proof fn lemma_index_in_range(&self) {
    }
}

impl<T1, T2, T3, T4, T5, T6, T7, T8, T9, T10, T11, T12, T13, T14, T15, T16, T17, T18, T19, T20, T21, T22> IndexableTuple<11> for (T1, T2, T3, T4, T5, T6, T7, T8, T9, T10, T11, T12, T13, T14, T15, T16, T17, T18, T19, T20, T21, T22) {
    type Value = T12;

    open spec fn spec_index(&self) -> T12 {
        self.11
    }

    open spec fn spec_with_index(self, value: T12) -> (T1, T2, T3, T4, T5, T6, T7, T8, T9, T10, T11, T12, T13, T14, T15, T16, T17, T18, T19, T20, T21, T22) {
        (self.0, self.1, self.2, self.3, self.4, self.5, self.6, self.7, self.8, self.9, self.10, value, self.12, self.13, self.14, self.15, self.16, self.17, self.18, self.19, self.20, self.21)
    }

    fn index_ref(&self) -> (r: &T12) {
        &self.11
    }

    fn index_mut(&mut self) -> (r: &mut T12) {
        &mut self.11
    }

    fn into_index(self) -> (r: T12) {
        self.11
    }

    proof fn lemma_index_in_range(&self) {
    }
}

impl<T1, T2, T3, T4, T5, T6, T7, T8, T9, T10, T11, T12, T13, T14, T15, T16, T17, T18, T19, T20, T21, T22> IndexableTuple<12> for (T1, T2, T3, T4, T5, T6, T7, T8, T9, T10, T11, T12, T13, T14, T15, T16, T17, T18, T19, T20, T21, T22) {
    type Value = T13;

    open spec fn spec_index(&self) -> T13 {
        self.12
    }

    open spec fn spec_with_index(self, value: T13) -> (T1, T2, T3, T4, T5, T6, T7, T8, T9, T10, T11, T12, T13, T14, T15, T16, T17, T18, T19, T20, T21, T22) {
        (self.0, self.1, self.2, self.3, self.4, self.5, self.6, self.7, self.8, self.9, self.10, self.11, value, self.13, self.14, self.15, self.16, self.17, self.18, self.19, self.20, self.21)
    }

    fn index_ref(&self) -> (r: &T13) {
        &self.12
    }

    fn index_mut(&mut self) -> (r: &mut T13) {
        &mut self.12
    }

    fn into_index(self) -> (r: T13) {
        self.12
    }

    proof fn lemma_index_in_range(&self) {
    }
}

impl<T1, T2, T3, T4, T5, T6, T7, T8, T9, T10, T11, T12, T13, T14, T15, T16, T17, T18, T19, T20, T21, T22> IndexableTuple<13> for (T1, T2, T3, T4, T5, T6, T7, T8, T9, T10, T11, T12, T13, T14, T15, T16, T17, T18, T19, T20, T21, T22) {
    type Value = T14;

    open spec fn spec_index(&self) -> T14 {
        self.13
    }

    open spec fn spec_with_index(self, value: T14) -> (T1, T2, T3, T4, T5, T6, T7, T8, T9, T10, T11, T12, T13, T14, T15, T16, T17, T18, T19, T20, T21, T22) {
        (self.0, self.1, self.2, self.3, self.4, self.5, self.6, self.7, self.8, self.9, self.10, self.11, self.12, value, self.14, self.15, self.16, self.17, self.18, self.19, self.20, self.21)
    }

    fn index_ref(&self) -> (r: &T14) {
        &self.13
    }

    fn index_mut(&mut self) -> (r: &mut T14) {
        &mut self.13
    }

    fn into_index(self) -> (r: T14) {
        self.13
    }

    proof fn lemma_index_in_range(&self) {
    }
}

impl<T1, T2, T3, T4, T5, T6, T7, T8, T9, T10, T11, T12, T13, T14, T15, T16, T17, T18, T19, T20, T21, T22> IndexableTuple<14> for (T1, T2, T3, T4, T5, T6, T7, T8, T9, T10, T11, T12, T13, T14, T15, T16, T17, T18, T19, T20, T21, T22) {
    type Value = T15;

    open spec fn spec_index(&self) -> T15 {
        self.14
    }

    open spec fn spec_with_index(self, value: T15) -> (T1, T2, T3, T4, T5, T6, T7, T8, T9, T10, T11, T12, T13, T14, T15, T16, T17, T18, T19, T20, T21, T22) {
        (self.0, self.1, self.2, self.3, self.4, self.5, self.6, self.7, self.8, self.9, self.10, self.11, self.12, self.13, value, self.15, self.16, self.17, self.18, self.19, self.20, self.21)
    }

    fn index_ref(&self) -> (r: &T15) {
        &self.14
    }

    fn index_mut(&mut self) -> (r: &mut T15) {
        &mut self.14
    }

    fn into_index(self) -> (r: T15) {
        self.14
    }

    proof fn lemma_index_in_range(&self) {
    }
}

impl<T1, T2, T3, T4, T5, T6, T7, T8, T9, T10, T11, T12, T13, T14, T15, T16, T17, T18, T19, T20, T21, T22> IndexableTuple<15> for (T1, T2, T3, T4, T5, T6, T7, T8, T9, T10, T11, T12, T13, T14, T15, T16, T17, T18, T19, T20, T21, T22) {
    type Value = T16;

    open spec fn spec_index(&self) -> T16 {
        self.15
    }

    open spec fn spec_with_index(self, value: T16) -> (T1, T2, T3, T4, T5, T6, T7, T8, T9, T10, T11, T12, T13, T14, T15, T16, T17, T18, T19, T20, T21, T22) {
        (self.0, self.1, self.2, self.3, self.4, self.5, self.6, self.7, self.8, self.9, self.10, self.11, self.12, self.13, self.14, value, self.16, self.17, self.18, self.19, self.20, self.21)
    }

    fn index_ref(&self) -> (r: &T16) {
        &self.15
    }

    fn index_mut(&mut self) -> (r: &mut T16) {
        &mut self.15
    }

    fn into_index(self) -> (r: T16) {
        self.15
    }

    proof fn lemma_index_in_range(&self) {
    }
}

impl<T1, T2, T3, T4, T5, T6, T7, T8, T9, T10, T11, T12, T13, T14, T15, T16, T17, T18, T19, T20, T21, T22> IndexableTuple<16> for (T1, T2, T3, T4, T5, T6, T7, T8, T9, T10, T11, T12, T13, T14, T15, T16, T17, T18, T19, T20, T21, T22) {
    type Value = T17;

    open spec fn spec_index(&self) -> T17 {
        self.16
    }

    open spec fn spec_with_index(self, value: T17) -> (T1, T2, T3, T4, T5, T6, T7, T8, T9, T10, T11, T12, T13, T14, T15, T16, T17, T18, T19, T20, T21, T22) {
        (self.0, self.1, self.2, self.3, self.4, self.5, self.6, self.7, self.8, self.9, self.10, self.11, self.12, self.13, self.14, self.15, value, self.17, self.18, self.19, self.20, self.21)
    }

    fn index_ref(&self) -> (r: &T17) {
        &self.16
    }

    fn index_mut(&mut self) -> (r: &mut T17) {
        &mut self.16
    }

    fn into_index(self) -> (r: T17) {
        self.16
    }

    proof fn lemma_index_in_range(&self) {
    }
}

impl<T1, T2, T3, T4, T5, T6, T7, T8, T9, T10, T11, T12, T13, T14, T15, T16, T17, T18, T19, T20, T21, T22> IndexableTuple<17> for (T1, T2, T3, T4, T5, T6, T7, T8, T9, T10, T11, T12, T13, T14, T15, T16, T17, T18, T19, T20, T21, T22) {
    type Value = T18;

    open spec fn spec_index(&self) -> T18 {
        self.17
    }

    open spec fn spec_with_index(self, value: T18) -> (T1, T2, T3, T4, T5, T6, T7, T8, T9, T10, T11, T12, T13, T14, T15, T16, T17, T18, T19, T20, T21, T22) {
        (self.0, self.1, self.2, self.3, self.4, self.5, self.6, self.7, self.8, self.9, self.10, self.11, self.12, self.13, self.14, self.15, self.16, value, self.18, self.19, self.20, self.21)
    }

    fn index_ref(&self) -> (r: &T18) {
        &self.17
    }

    fn index_mut(&mut self) -> (r: &mut T18) {
        &mut self.17
    }

    fn into_index(self) -> (r: T18) {
        self.17
    }

    proof fn lemma_index_in_range(&self) {
    }
}

impl<T1, T2, T3, T4, T5, T6, T7, T8, T9, T10, T11, T12, T13, T14, T15, T16, T17, T18, T19, T20, T21, T22> IndexableTuple<18> for (T1, T2, T3, T4, T5, T6, T7, T8, T9, T10, T11, T12, T13, T14, T15, T16, T17, T18, T19, T20, T21, T22) {
    type Value = T19;

    open spec fn spec_index(&self) -> T19 {
        self.18
    }

    open spec fn spec_with_index(self, value: T19) -> (T1, T2, T3, T4, T5, T6, T7, T8, T9, T10, T11, T12, T13, T14, T15, T16, T17, T18, T19, T20, T21, T22) {
        (self.0, self.1, self.2, self.3, self.4, self.5, self.6, self.7, self.8, self.9, self.10, self.11, self.12, self.13, self.14, self.15, self.16, self.17, value, self.19, self.20, self.21)
    }

    fn index_ref(&self) -> (r: &T19) {
        &self.18
    }

    fn index_mut(&mut self) -> (r: &mut T19) {
        &mut self.18
    }

    fn into_index(self) -> (r: T19) {
        self.18
    }

    proof fn lemma_index_in_range(&self) {
    }
}

impl<T1, T2, T3, T4, T5, T6, T7, T8, T9, T10, T11, T12, T13, T14, T15, T16, T17, T18, T19, T20, T21, T22> IndexableTuple<19> for (T1, T2, T3, T4, T5, T6, T7, T8, T9, T10, T11, T12, T13, T14, T15, T16, T17, T18, T19, T20, T21, T22) {
    type Value = T20;

    open spec fn spec_index(&self) -> T20 {
        self.19
    }

    open spec fn spec_with_index(self, value: T20) -> (T1, T2, T3, T4, T5, T6, T7, T8, T9, T10, T11, T12, T13, T14, T15, T16, T17, T18, T19, T20, T21, T22) {
        (self.0, self.1, self.2, self.3, self.4, self.5, self.6, self.7, self.8, self.9, self.10, self.11, self.12, self.13, self.14, self.15, self.16, self.17, self.18, value, self.20, self.21)
    }

    fn index_ref(&self) -> (r: &T20) {
        &self.19
    }

    fn index_mut(&mut self) -> (r: &mut T20) {
        &mut self.19
    }

    fn into_index(self) -> (r: T20) {
        self.19
    }

    proof fn lemma_index_in_range(&self) {
    }
}

impl<T1, T2, T3, T4, T5, T6, T7, T8, T9, T10, T11, T12, T13, T14, T15, T16, T17, T18, T19, T20, T21, T22> IndexableTuple<20> for (T1, T2, T3, T4, T5, T6, T7, T8, T9, T10, T11, T12, T13, T14, T15, T16, T17, T18, T19, T20, T21, T22) {
    type Value = T21;

    open spec fn spec_index(&self) -> T21 {
        self.20
    }

    open spec fn spec_with_index(self, value: T21) -> (T1, T2, T3, T4, T5, T6, T7, T8, T9, T10, T11, T12, T13, T14, T15, T16, T17, T18, T19, T20, T21, T22) {
        (self.0, self.1, self.2, self.3, self.4, self.5, self.6, self.7, self.8, self.9, self.10, self.11, self.12, self.13, self.14, self.15, self.16, self.17, self.18, self.19, value, self.21)
    }

    fn index_ref(&self) -> (r: &T21) {
        &self.20
    }

    fn index_mut(&mut self) -> (r: &mut T21) {
        &mut self.20
    }

    fn into_index(self) -> (r: T21) {
        self.20
    }

    proof fn lemma_index_in_range(&self) {
    }
}

impl<T1, T2, T3, T4, T5, T6, T7, T8, T9, T10, T11, T12, T13, T14, T15, T16, T17, T18, T19, T20, T21, T22> IndexableTuple<21> for (T1, T2, T3, T4, T5, T6, T7, T8, T9, T10, T11, T12, T13, T14, T15, T16, T17, T18, T19, T20, T21, T22) {
    type Value = T22;

    open spec fn spec_index(&self) -> T22 {
        self.21
    }

    open spec fn spec_with_index(self, value: T22) -> (T1, T2, T3, T4, T5, T6, T7, T8, T9, T10, T11, T12, T13, T14, T15, T16, T17, T18, T19, T20, T21, T22) {
        (self.0, self.1, self.2, self.3, self.4, self.5, self.6, self.7, self.8, self.9, self.10, self.11, self.12, self.13, self.14, self.15, self.16, self.17, self.18, self.19, self.20, value)
    }

    fn index_ref(&self) -> (r: &T22) {
        &self.21
    }

    fn index_mut(&mut self) -> (r: &mut T22) {
        &mut self.21
    }

    fn into_index(self) -> (r: T22) {
        self.21
    }

    proof fn lemma_index_in_range(&self) {
    }
}

impl<T1, T2, T3, T4, T5, T6, T7, T8, T9, T10, T11, T12, T13, T14, T15, T16, T17, T18, T19, T20, T21, T22> JoinableTuple<(T1, T2, T3, T4, T5, T6, T7, T8, T9, T10, T11, T12, T13, T14, T15, T16, T17, T18, T19, T20, T21, T22)> for () {
    type Join = (T1, T2, T3, T4, T5, T6, T7, T8, T9, T10, T11, T12, T13, T14, T15, T16, T17, T18, T19, T20, T21, T22);

    open spec fn spec_join(self, other: (T1, T2, T3, T4, T5, T6, T7, T8, T9, T10, T11, T12, T13, T14, T15, T16, T17, T18, T19, T20, T21, T22)) -> (T1, T2, T3, T4, T5, T6, T7, T8, T9, T10, T11, T12, T13, T14, T15, T16, T17, T18, T19, T20, T21, T22) {
        (other.0, other.1, other.2, other.3, other.4, other.5, other.6, other.7, other.8, other.9, other.10, other.11, other.12, other.13, other.14, other.15, other.16, other.17, other.18, other.19, other.20, other.21)
    }

    fn join(self, other: (T1, T2, T3, T4, T5, T6, T7, T8, T9, T10, T11, T12, T13, T14, T15, T16, T17, T18, T19, T20, T21, T22)) -> (r: (T1, T2, T3, T4, T5, T6, T7, T8, T9, T10, T11, T12, T13, T14, T15, T16, T17, T18, T19, T20, T21, T22)) {
        (other.0, other.1, other.2, other.3, other.4, other.5, other.6, other.7, other.8, other.9, other.10, other.11, other.12, other.13, other.14, other.15, other.16, other.17, other.18, other.19, other.20, other.21)
    }

    proof fn lemma_join_arity(self, other: (T1, T2, T3, T4, T5, T6, T7, T8, T9, T10, T11, T12, T13, T14, T15, T16, T17, T18, T19, T20, T21, T22)) {
    }
}

impl<T1, T2, T3, T4, T5, T6, T7, T8, T9, T10, T11, T12, T13, T14, T15, T16, T17, T18, T19, T20, T21, T22> JoinableTuple<(T2, T3, T4, T5, T6, T7, T8, T9, T10, T11, T12, T13, T14, T15, T16, T17, T18, T19, T20, T21, T22)> for (T1,) {
    type Join = (T1, T2, T3, T4, T5, T6, T7, T8, T9, T10, T11, T12, T13, T14, T15, T16, T17, T18, T19, T20, T21, T22);

    open spec fn spec_join(self, other: (T2, T3, T4, T5, T6, T7, T8, T9, T10, T11, T12, T13, T14, T15, T16, T17, T18, T19, T20, T21, T22)) -> (T1, T2, T3, T4, T5, T6, T7, T8, T9, T10, T11, T12, T13, T14, T15, T16, T17, T18, T19, T20, T21, T22) {
        (self.0, other.0, other.1, other.2, other.3, other.4, other.5, other.6, other.7, other.8, other.9, other.10, other.11, other.12, other.13, other.14, other.15, other.16, other.17, other.18, other.19, other.20)
    }

    fn join(self, other: (T2, T3, T4, T5, T6, T7, T8, T9, T10, T11, T12, T13, T14, T15, T16, T17, T18, T19, T20, T21, T22)) -> (r: (T1, T2, T3, T4, T5, T6, T7, T8, T9, T10, T11, T12, T13, T14, T15, T16, T17, T18, T19, T20, T21, T22)) {
        (self.0, other.0, other.1, other.2, other.3, other.4, other.5, other.6, other.7, other.8, other.9, other.10, other.11, other.12, other.13, other.14, other.15, other.16, other.17, other.18, other.19, other.20)
    }

    proof fn lemma_join_arity(self, other: (T2, T3, T4, T5, T6, T7, T8, T9, T10, T11, T12, T13, T14, T15, T16, T17, T18, T19, T20, T21, T22)) {
    }
}

impl<T1, T2, T3, T4, T5, T6, T7, T8, T9, T10, T11, T12, T13, T14, T15, T16, T17, T18, T19, T20, T21, T22> JoinableTuple<(T3, T4, T5, T6, T7, T8, T9, T10, T11, T12, T13, T14, T15, T16, T17, T18, T19, T20, T21, T22)> for (T1, T2) {
    type Join = (T1, T2, T3, T4, T5, T6, T7, T8, T9, T10, T11, T12, T13, T14, T15, T16, T17, T18, T19, T20, T21, T22);

    open spec fn spec_join(self, other: (T3, T4, T5, T6, T7, T8, T9, T10, T11, T12, T13, T14, T15, T16, T17, T18, T19, T20, T21, T22)) -> (T1, T2, T3, T4, T5, T6, T7, T8, T9, T10, T11, T12, T13, T14, T15, T16, T17, T18, T19, T20, T21, T22) {
        (self.0, self.1, other.0, other.1, other.2, other.3, other.4, other.5, other.6, other.7, other.8, other.9, other.10, other.11, other.12, other.13, other.14, other.15, other.16, other.17, other.18, other.19)
    }

    fn join(self, other: (T3, T4, T5, T6, T7, T8, T9, T10, T11, T12, T13, T14, T15, T16, T17, T18, T19, T20, T21, T22)) -> (r: (T1, T2, T3, T4, T5, T6, T7, T8, T9, T10, T11, T12, T13, T14, T15, T16, T17, T18, T19, T20, T21, T22)) {
        (self.0, self.1, other.0, other.1, other.2, other.3, other.4, other.5, other.6, other.7, other.8, other.9, other.10, other.11, other.12, other.13, other.14, other.15, other.16, other.17, other.18, other.19)
    }

    proof fn lemma_join_arity(self, other: (T3, T4, T5, T6, T7, T8, T9, T10, T11, T12, T13, T14, T15, T16, T17, T18, T19, T20, T21, T22)) {
    }
}

impl<T1, T2, T3, T4, T5, T6, T7, T8, T9, T10, T11, T12, T13, T14, T15, T16, T17, T18, T19, T20, T21, T22> JoinableTuple<(T4, T5, T6, T7, T8, T9, T10, T11, T12, T13, T14, T15, T16, T17, T18, T19, T20, T21, T22)> for (T1, T2, T3) {
    type Join = (T1, T2, T3, T4, T5, T6, T7, T8, T9, T10, T11, T12, T13, T14, T15, T16, T17, T18, T19, T20, T21, T22);

    open spec fn spec_join(self, other: (T4, T5, T6, T7, T8, T9, T10, T11, T12, T13, T14, T15, T16, T17, T18, T19, T20, T21, T22)) -> (T1, T2, T3, T4, T5, T6, T7, T8, T9, T10, T11, T12, T13, T14, T15, T16, T17, T18, T19, T20, T21, T22) {
        (self.0, self.1, self.2, other.0, other.1, other.2, other.3, other.4, other.5, other.6, other.7, other.8, other.9, other.10, other.11, other.12, other.13, other.14, other.15, other.16, other.17, other.18)
    }

    fn join(self, other: (T4, T5, T6, T7, T8, T9, T10, T11, T12, T13, T14, T15, T16, T17, T18, T19, T20, T21, T22)) -> (r: (T1, T2, T3, T4, T5, T6, T7, T8, T9, T10, T11, T12, T13, T14, T15, T16, T17, T18, T19, T20, T21, T22)) {
        (self.0, self.1, self.2, other.0, other.1, other.2, other.3, other.4, other.5, other.6, other.7, other.8, other.9, other.10, other.11, other.12, other.13, other.14, other.15, other.16, other.17, other.18)
    }

    proof fn lemma_join_arity(self, other: (T4, T5, T6, T7, T8, T9, T10, T11, T12, T13, T14, T15, T16, T17, T18, T19, T20, T21, T22)) {
    }
}

impl<T1, T2, T3, T4, T5, T6, T7, T8, T9, T10, T11, T12, T13, T14, T15, T16, T17, T18, T19, T20, T21, T22> JoinableTuple<(T5, T6, T7, T8, T9, T10, T11, T12, T13, T14, T15, T16, T17, T18, T19, T20, T21, T22)> for (T1, T2, T3, T4) {
    type Join = (T1, T2, T3, T4, T5, T6, T7, T8, T9, T10, T11, T12, T13, T14, T15, T16, T17, T18, T19, T20, T21, T22);

    open spec fn spec_join(self, other: (T5, T6, T7, T8, T9, T10, T11, T12, T13, T14, T15, T16, T17, T18, T19, T20, T21, T22)) -> (T1, T2, T3, T4, T5, T6, T7, T8, T9, T10, T11, T12, T13, T14, T15, T16, T17, T18, T19, T20, T21, T22) {
        (self.0, self.1, self.2, self.3, other.0, other.1, other.2, other.3, other.4, other.5, other.6, other.7, other.8, other.9, other.10, other.11, other.12, other.13, other.14, other.15, other.16, other.17)
    }

    fn join(self, other: (T5, T6, T7, T8, T9, T10, T11, T12, T13, T14, T15, T16, T17, T18, T19, T20, T21, T22)) -> (r: (T1, T2, T3, T4, T5, T6, T7, T8, T9, T10, T11, T12, T13, T14, T15, T16, T17, T18, T19, T20, T21, T22)) {
        (self.0, self.1, self.2, self.3, other.0, other.1, other.2, other.3, other.4, other.5, other.6, other.7, other.8, other.9, other.10, other.11, other.12, other.13, other.14, other.15, other.16, other.17)
    }

    proof fn lemma_join_arity(self, other: (T5, T6, T7, T8, T9, T10, T11, T12, T13, T14, T15, T16, T17, T18, T19, T20, T21, T22)) {
    }
}

impl<T1, T2, T3, T4, T5, T6, T7, T8, T9, T10, T11, T12, T13, T14, T15, T16, T17, T18, T19, T20, T21, T22> JoinableTuple<(T6, T7, T8, T9, T10, T11, T12, T13, T14, T15, T16, T17, T18, T19, T20, T21, T22)> for (T1, T2, T3, T4, T5) {
    type Join = (T1, T2, T3, T4, T5, T6, T7, T8, T9, T10, T11, T12, T13, T14, T15, T16, T17, T18, T19, T20, T21, T22);

    open spec fn spec_join(self, other: (T6, T7, T8, T9, T10, T11, T12, T13, T14, T15, T16, T17, T18, T19, T20, T21, T22)) -> (T1, T2, T3, T4, T5, T6, T7, T8, T9, T10, T11, T12, T13, T14, T15, T16, T17, T18, T19, T20, T21, T22) {
        (self.0, self.1, self.2, self.3, self.4, other.0, other.1, other.2, other.3, other.4, other.5, other.6, other.7, other.8, other.9, other.10, other.11, other.12, other.13, other.14, other.15, other.16)
    }

    fn join(self, other: (T6, T7, T8, T9, T10, T11, T12, T13, T14, T15, T16, T17, T18, T19, T20, T21, T22)) -> (r: (T1, T2, T3, T4, T5, T6, T7, T8, T9, T10, T11, T12, T13, T14, T15, T16, T17, T18, T19, T20, T21, T22)) {
        (self.0, self.1, self.2, self.3, self.4, other.0, other.1, other.2, other.3, other.4, other.5, other.6, other.7, other.8, other.9, other.10, other.11, other.12, other.13, other.14, other.15, other.16)
    }

    proof fn lemma_join_arity(self, other: (T6, T7, T8, T9, T10, T11, T12, T13, T14, T15, T16, T17, T18, T19, T20, T21, T22)) {
    }
}

impl<T1, T2, T3, T4, T5, T6, T7, T8, T9, T10, T11, T12, T13, T14, T15, T16, T17, T18, T19, T20, T21, T22> JoinableTuple<(T7, T8, T9, T10, T11, T12, T13, T14, T15, T16, T17, T18, T19, T20, T21, T22)> for (T1, T2, T3, T4, T5, T6) {
    type Join = (T1, T2, T3, T4, T5, T6, T7, T8, T9, T10, T11, T12, T13, T14, T15, T16, T17, T18, T19, T20, T21, T22);

    open spec fn spec_join(self, other: (T7, T8, T9, T10, T11, T12, T13, T14, T15, T16, T17, T18, T19, T20, T21, T22)) -> (T1, T2, T3, T4, T5, T6, T7, T8, T9, T10, T11, T12, T13, T14, T15, T16, T17, T18, T19, T20, T21, T22) {
        (self.0, self.1, self.2, self.3, self.4, self.5, other.0, other.1, other.2, other.3, other.4, other.5, other.6, other.7, other.8, other.9, other.10, other.11, other.12, other.13, other.14, other.15)
    }

    fn join(self, other: (T7, T8, T9, T10, T11, T12, T13, T14, T15, T16, T17, T18, T19, T20, T21, T22)) -> (r: (T1, T2, T3, T4, T5, T6, T7, T8, T9, T10, T11, T12, T13, T14, T15, T16, T17, T18, T19, T20, T21, T22)) {
        (self.0, self.1, self.2, self.3, self.4, self.5, other.0, other.1, other.2, other.3, other.4, other.5, other.6, other.7, other.8, other.9, other.10, other.11, other.12, other.13, other.14, other.15)
    }

    proof fn lemma_join_arity(self, other: (T7, T8, T9, T10, T11, T12, T13, T14, T15, T16, T17, T18, T19, T20, T21, T22)) {
    }
}

impl<T1, T2, T3, T4, T5, T6, T7, T8, T9, T10, T11, T12, T13, T14, T15, T16, T17, T18, T19, T20, T21, T22> JoinableTuple<(T8, T9, T10, T11, T12, T13, T14, T15, T16, T17, T18, T19, T20, T21, T22)> for (T1, T2, T3, T4, T5, T6, T7) {
    type Join = (T1, T2, T3, T4, T5, T6, T7, T8, T9, T10, T11, T12, T13, T14, T15, T16, T17, T18, T19, T20, T21, T22);

    open spec fn spec_join(self, other: (T8, T9, T10, T11, T12, T13, T14, T15, T16, T17, T18, T19, T20, T21, T22)) -> (T1, T2, T3, T4, T5, T6, T7, T8, T9, T10, T11, T12, T13, T14, T15, T16, T17, T18, T19, T20, T21, T22) {
        (self.0, self.1, self.2, self.3, self.4, self.5, self.6, other.0, other.1, other.2, other.3, other.4, other.5, other.6, other.7, other.8, other.9, other.10, other.11, other.12, other.13, other.14)
    }

    fn join(self, other: (T8, T9, T10, T11, T12, T13, T14, T15, T16, T17, T18, T19, T20, T21, T22)) -> (r: (T1, T2, T3, T4, T5, T6, T7, T8, T9, T10, T11, T12, T13, T14, T15, T16, T17, T18, T19, T20, T21, T22)) {
        (self.0, self.1, self.2, self.3, self.4, self.5, self.6, other.0, other.1, other.2, other.3, other.4, other.5, other.6, other.7, other.8, other.9, other.10, other.11, other.12, other.13, other.14)
    }

    proof fn lemma_join_arity(self, other: (T8, T9, T10, T11, T12, T13, T14, T15, T16, T17, T18, T19, T20, T21, T22)) {
    }
}

impl<T1, T2, T3, T4, T5, T6, T7, T8, T9, T10, T11, T12, T13, T14, T15, T16, T17, T18, T19, T20, T21, T22> JoinableTuple<(T9, T10, T11, T12, T13, T14, T15, T16, T17, T18, T19, T20, T21, T22)> for (T1, T2, T3, T4, T5, T6, T7, T8) {
    type Join = (T1, T2, T3, T4, T5, T6, T7, T8, T9, T10, T11, T12, T13, T14, T15, T16, T17, T18, T19, T20, T21, T22);

    open spec fn spec_join(self, other: (T9, T10, T11, T12, T13, T14, T15, T16, T17, T18, T19, T20, T21, T22)) -> (T1, T2, T3, T4, T5, T6, T7, T8, T9, T10, T11, T12, T13, T14, T15, T16, T17, T18, T19, T20, T21, T22) {
        (self.0, self.1, self.2, self.3, self.4, self.5, self.6, self.7, other.0, other.1, other.2, other.3, other.4, other.5, other.6, other.7, other.8, other.9, other.10, other.11, other.12, other.13)
    }

    fn join(self, other: (T9, T10, T11, T12, T13, T14, T15, T16, T17, T18, T19, T20, T21, T22)) -> (r: (T1, T2, T3, T4, T5, T6, T7, T8, T9, T10, T11, T12, T13, T14, T15, T16, T17, T18, T19, T20, T21, T22)) {
        (self.0, self.1, self.2, self.3, self.4, self.5, self.6, self.7, other.0, other.1, other.2, other.3, other.4, other.5, other.6, other.7, other.8, other.9, other.10, other.11, other.12, other.13)
    }

    proof fn lemma_join_arity(self, other: (T9, T10, T11, T12, T13, T14, T15, T16, T17, T18, T19, T20, T21, T22)) {
    }
}

impl<T1, T2, T3, T4, T5, T6, T7, T8, T9, T10, T11, T12, T13, T14, T15, T16, T17, T18, T19, T20, T21, T22> JoinableTuple<(T10, T11, T12, T13, T14, T15, T16, T17, T18, T19, T20, T21, T22)> for (T1, T2, T3, T4, T5, T6, T7, T8, T9) {
    type Join = (T1, T2, T3, T4, T5, T6, T7, T8, T9, T10, T11, T12, T13, T14, T15, T16, T17, T18, T19, T20, T21, T22);

    open spec fn spec_join(self, other: (T10, T11, T12, T13, T14, T15, T16, T17, T18, T19, T20, T21, T22)) -> (T1, T2, T3, T4, T5, T6, T7, T8, T9, T10, T11, T12, T13, T14, T15, T16, T17, T18, T19, T20, T21, T22) {
        (self.0, self.1, self.2, self.3, self.4, self.5, self.6, self.7, self.8, other.0, other.1, other.2, other.3, other.4, other.5, other.6, other.7, other.8, other.9, other.10, other.11, other.12)
    }

    fn join(self, other: (T10, T11, T12, T13, T14, T15, T16, T17, T18, T19, T20, T21, T22)) -> (r: (T1, T2, T3, T4, T5, T6, T7, T8, T9, T10, T11, T12, T13, T14, T15, T16, T17, T18, T19, T20, T21, T22)) {
        (self.0, self.1, self.2, self.3, self.4, self.5, self.6, self.7, self.8, other.0, other.1, other.2, other.3, other.4, other.5, other.6, other.7, other.8, other.9, other.10, other.11, other.12)
    }

    proof fn lemma_join_arity(self, other: (T10, T11, T12, T13, T14, T15, T16, T17, T18, T19, T20, T21, T22)) {
    }
}

impl<T1, T2, T3, T4, T5, T6, T7, T8, T9, T10, T11, T12, T13, T14, T15, T16, T17, T18, T19, T20, T21, T22> JoinableTuple<(T11, T12, T13, T14, T15, T16, T17, T18, T19, T20, T21, T22)> for (T1, T2, T3, T4, T5, T6, T7, T8, T9, T10) {
    type Join = (T1, T2, T3, T4, T5, T6, T7, T8, T9, T10, T11, T12, T13, T14, T15, T16, T17, T18, T19, T20, T21, T22);

    open spec fn spec_join(self, other: (T11, T12, T13, T14, T15, T16, T17, T18, T19, T20, T21, T22)) -> (T1, T2, T3, T4, T5, T6, T7, T8, T9, T10, T11, T12, T13, T14, T15, T16, T17, T18, T19, T20, T21, T22) {
        (self.0, self.1, self.2, self.3, self.4, self.5, self.6, self.7, self.8, self.9, other.0, other.1, other.2, other.3, other.4, other.5, other.6, other.7, other.8, other.9, other.10, other.11)
    }

    fn join(self, other: (T11, T12, T13, T14, T15, T16, T17, T18, T19, T20, T21, T22)) -> (r: (T1, T2, T3, T4, T5, T6, T7, T8, T9, T10, T11, T12, T13, T14, T15, T16, T17, T18, T19, T20, T21, T22)) {
        (self.0, self.1, self.2, self.3, self.4, self.5, self.6, self.7, self.8, self.9, other.0, other.1, other.2, other.3, other.4, other.5, other.6, other.7, other.8, other.9, other.10, other.11)
    }

    proof fn lemma_join_arity(self, other: (T11, T12, T13, T14, T15, T16, T17, T18, T19, T20, T21, T22)) {
    }
}

impl<T1, T2, T3, T4, T5, T6, T7, T8, T9, T10, T11, T12, T13, T14, T15, T16, T17, T18, T19, T20, T21, T22> JoinableTuple<(T12, T13, T14, T15, T16, T17, T18, T19, T20, T21, T22)> for (T1, T2, T3, T4, T5, T6, T7, T8, T9, T10, T11) {
    type Join = (T1, T2, T3, T4, T5, T6, T7, T8, T9, T10, T11, T12, T13, T14, T15, T16, T17, T18, T19, T20, T21, T22);

    open spec fn spec_join(self, other: (T12, T13, T14, T15, T16, T17, T18, T19, T20, T21, T22)) -> (T1, T2, T3, T4, T5, T6, T7, T8, T9, T10, T11, T12, T13, T14, T15, T16, T17, T18, T19, T20, T21, T22) {
        (self.0, self.1, self.2, self.3, self.4, self.5, self.6, self.7, self.8, self.9, self.10, other.0, other.1, other.2, other.3, other.4, other.5, other.6, other.7, other.8, other.9, other.10)
    }

    fn join(self, other: (T12, T13, T14, T15, T16, T17, T18, T19, T20, T21, T22)) -> (r: (T1, T2, T3, T4, T5, T6, T7, T8, T9, T10, T11, T12, T13, T14, T15, T16, T17, T18, T19, T20, T21, T22)) {
        (self.0, self.1, self.2, self.3, self.4, self.5, self.6, self.7, self.8, self.9, self.10, other.0, other.1, other.2, other.3, other.4, other.5, other.6, other.7, other.8, other.9, other.10)
    }

    proof fn lemma_join_arity(self, other: (T12, T13, T14, T15, T16, T17, T18, T19, T20, T21, T22)) {
    }
}

impl<T1, T2, T3, T4, T5, T6, T7, T8, T9, T10, T11, T12, T13, T14, T15, T16, T17, T18, T19, T20, T21, T22> JoinableTuple<(T13, T14, T15, T16, T17, T18, T19, T20, T21, T22)> for (T1, T2, T3, T4, T5, T6, T7, T8, T9, T10, T11, T12) {
    type Join = (T1, T2, T3, T4, T5, T6, T7, T8, T9, T10, T11, T12, T13, T14, T15, T16, T17, T18, T19, T20, T21, T22);

    open spec fn spec_join(self, other: (T13, T14, T15, T16, T17, T18, T19, T20, T21, T22)) -> (T1, T2, T3, T4, T5, T6, T7, T8, T9, T10, T11, T12, T13, T14, T15, T16, T17, T18, T19, T20, T21, T22) {
        (self.0, self.1, self.2, self.3, self.4, self.5, self.6, self.7, self.8, self.9, self.10, self.11, other.0, other.1, other.2, other.3, other.4, other.5, other.6, other.7, other.8, other.9)
    }

    fn join(self, other: (T13, T14, T15, T16, T17, T18, T19, T20, T21, T22)) -> (r: (T1, T2, T3, T4, T5, T6, T7, T8, T9, T10, T11, T12, T13, T14, T15, T16, T17, T18, T19, T20, T21, T22)) {
        (self.0, self.1, self.2, self.3, self.4, self.5, self.6, self.7, self.8, self.9, self.10, self.11, other.0, other.1, other.2, other.3, other.4, other.5, other.6, other.7, other.8, other.9)
    }

    proof fn lemma_join_arity(self, other: (T13, T14, T15, T16, T17, T18, T19, T20, T21, T22)) {
    }
}

impl<T1, T2, T3, T4, T5, T6, T7, T8, T9, T10, T11, T12, T13, T14, T15, T16, T17, T18, T19, T20, T21, T22> JoinableTuple<(T14, T15, T16, T17, T18, T19, T20, T21, T22)> for (T1, T2, T3, T4, T5, T6, T7, T8, T9, T10, T11, T12, T13) {
    type Join = (T1, T2, T3, T4, T5, T6, T7, T8, T9, T10, T11, T12, T13, T14, T15, T16, T17, T18, T19, T20, T21, T22);

    open spec fn spec_join(self, other: (T14, T15, T16, T17, T18, T19, T20, T21, T22)) -> (T1, T2, T3, T4, T5, T6, T7, T8, T9, T10, T11, T12, T13, T14, T15, T16, T17, T18, T19, T20, T21, T22) {
        (self.0, self.1, self.2, self.3, self.4, self.5, self.6, self.7, self.8, self.9, self.10, self.11, self.12, other.0, other.1, other.2, other.3, other.4, other.5, other.6, other.7, other.8)
    }

    fn join(self, other: (T14, T15, T16, T17, T18, T19, T20, T21, T22)) -> (r: (T1, T2, T3, T4, T5, T6, T7, T8, T9, T10, T11, T12, T13, T14, T15, T16, T17, T18, T19, T20, T21, T22)) {
        (self.0, self.1, self.2, self.3, self.4, self.5, self.6, self.7, self.8, self.9, self.10, self.11, self.12, other.0, other.1, other.2, other.3, other.4, other.5, other.6, other.7, other.8)
    }

    proof fn lemma_join_arity(self, other: (T14, T15, T16, T17, T18, T19, T20, T21, T22)) {
    }
}

impl<T1, T2, T3, T4, T5, T6, T7, T8, T9, T10, T11, T12, T13, T14, T15, T16, T17, T18, T19, T20, T21, T22> JoinableTuple<(T15, T16, T17, T18, T19, T20, T21, T22)> for (T1, T2, T3, T4, T5, T6, T7, T8, T9, T10, T11, T12, T13, T14) {
    type Join = (T1, T2, T3, T4, T5, T6, T7, T8, T9, T10, T11, T12, T13, T14, T15, T16, T17, T18, T19, T20, T21, T22);

    open spec fn spec_join(self, other: (T15, T16, T17, T18, T19, T20, T21, T22)) -> (T1, T2, T3, T4, T5, T6, T7, T8, T9, T10, T11, T12, T13, T14, T15, T16, T17, T18, T19, T20, T21, T22) {
        (self.0, self.1, self.2, self.3, self.4, self.5, self.6, self.7, self.8, self.9, self.10, self.11, self.12, self.13, other.0, other.1, other.2, other.3, other.4, other.5, other.6, other.7)
    }

    fn join(self, other: (T15, T16, T17, T18, T19, T20, T21, T22)) -> (r: (T1, T2, T3, T4, T5, T6, T7, T8, T9, T10, T11, T12, T13, T14, T15, T16, T17, T18, T19, T20, T21, T22)) {
        (self.0, self.1, self.2, self.3, self.4, self.5, self.6, self.7, self.8, self.9, self.10, self.11, self.12, self.13, other.0, other.1, other.2, other.3, other.4, other.5, other.6, other.7)
    }

    proof fn lemma_join_arity(self, other: (T15, T16, T17, T18, T19, T20, T21, T22)) {
    }
}

impl<T1, T2, T3, T4, T5, T6, T7, T8, T9, T10, T11, T12, T13, T14, T15, T16, T17, T18, T19, T20, T21, T22> JoinableTuple<(T16, T17, T18, T19, T20, T21, T22)> for (T1, T2, T3, T4, T5, T6, T7, T8, T9, T10, T11, T12, T13, T14, T15) {
    type Join = (T1, T2, T3, T4, T5, T6, T7, T8, T9, T10, T11, T12, T13, T14, T15, T16, T17, T18, T19, T20, T21, T22);

    open spec fn spec_join(self, other: (T16, T17, T18, T19, T20, T21, T22)) -> (T1, T2, T3, T4, T5, T6, T7, T8, T9, T10, T11, T12, T13, T14, T15, T16, T17, T18, T19, T20, T21, T22) {
        (self.0, self.1, self.2, self.3, self.4, self.5, self.6, self.7, self.8, self.9, self.10, self.11, self.12, self.13, self.14, other.0, other.1, other.2, other.3, other.4, other.5, other.6)
    }

    fn join(self, other: (T16, T17, T18, T19, T20, T21, T22)) -> (r: (T1, T2, T3, T4, T5, T6, T7, T8, T9, T10, T11, T12, T13, T14, T15, T16, T17, T18, T19, T20, T21, T22)) {
        (self.0, self.1, self.2, self.3, self.4, self.5, self.6, self.7, self.8, self.9, self.10, self.11, self.12, self.13, self.14, other.0, other.1, other.2, other.3, other.4, other.5, other.6)
    }

    proof fn lemma_join_arity(self, other: (T16, T17, T18, T19, T20, T21, T22)) {
    }
}

impl<T1, T2, T3, T4, T5, T6, T7, T8, T9, T10, T11, T12, T13, T14, T15, T16, T17, T18, T19, T20, T21, T22> JoinableTuple<(T17, T18, T19, T20, T21, T22)> for (T1, T2, T3, T4, T5, T6, T7, T8, T9, T10, T11, T12, T13, T14, T15, T16) {
    type Join = (T1, T2, T3, T4, T5, T6, T7, T8, T9, T10, T11, T12, T13, T14, T15, T16, T17, T18, T19, T20, T21, T22);

    open spec fn spec_join(self, other: (T17, T18, T19, T20, T21, T22)) -> (T1, T2, T3, T4, T5, T6, T7, T8, T9, T10, T11, T12, T13, T14, T15, T16, T17, T18, T19, T20, T21, T22) {
        (self.0, self.1, self.2, self.3, self.4, self.5, self.6, self.7, self.8, self.9, self.10, self.11, self.12, self.13, self.14, self.15, other.0, other.1, other.2, other.3, other.4, other.5)
    }

    fn join(self, other: (T17, T18, T19, T20, T21, T22)) -> (r: (T1, T2, T3, T4, T5, T6, T7, T8, T9, T10, T11, T12, T13, T14, T15, T16, T17, T18, T19, T20, T21, T22)) {
        (self.0, self.1, self.2, self.3, self.4, self.5, self.6, self.7, self.8, self.9, self.10, self.11, self.12, self.13, self.14, self.15, other.0, other.1, other.2, other.3, other.4, other.5)
    }

    proof fn lemma_join_arity(self, other: (T17, T18, T19, T20, T21, T22)) {
    }
}

impl<T1, T2, T3, T4, T5, T6, T7, T8, T9, T10, T11, T12, T13, T14, T15, T16, T17, T18, T19, T20, T21, T22> JoinableTuple<(T18, T19, T20, T21, T22)> for (T1, T2, T3, T4, T5, T6, T7, T8, T9, T10, T11, T12, T13, T14, T15, T16, T17) {
    type Join = (T1, T2, T3, T4, T5, T6, T7, T8, T9, T10, T11, T12, T13, T14, T15, T16, T17, T18, T19, T20, T21, T22);

    open spec fn spec_join(self, other: (T18, T19, T20, T21, T22)) -> (T1, T2, T3, T4, T5, T6, T7, T8, T9, T10, T11, T12, T13, T14, T15, T16, T17, T18, T19, T20, T21, T22) {
        (self.0, self.1, self.2, self.3, self.4, self.5, self.6, self.7, self.8, self.9, self.10, self.11, self.12, self.13, self.14, self.15, self.16, other.0, other.1, other.2, other.3, other.4)
    }

    fn join(self, other: (T18, T19, T20, T21, T22)) -> (r: (T1, T2, T3, T4, T5, T6, T7, T8, T9, T10, T11, T12, T13, T14, T15, T16, T17, T18, T19, T20, T21, T22)) {
        (self.0, self.1, self.2, self.3, self.4, self.5, self.6, self.7, self.8, self.9, self.10, self.11, self.12, self.13, self.14, self.15, self.16, other.0, other.1, other.2, other.3, other.4)
    }

    proof fn lemma_join_arity(self, other: (T18, T19, T20, T21, T22)) {
    }
}

impl<T1, T2, T3, T4, T5, T6, T7, T8, T9, T10, T11, T12, T13, T14, T15, T16, T17, T18, T19, T20, T21, T22> JoinableTuple<(T19, T20, T21, T22)> for (T1, T2, T3, T4, T5, T6, T7, T8, T9, T10, T11, T12, T13, T14, T15, T16, T17, T18) {
    type Join = (T1, T2, T3, T4, T5, T6, T7, T8, T9, T10, T11, T12, T13, T14, T15, T16, T17, T18, T19, T20, T21, T22);

    open spec fn spec_join(self, other: (T19, T20, T21, T22)) -> (T1, T2, T3, T4, T5, T6, T7, T8, T9, T10, T11, T12, T13, T14, T15, T16, T17, T18, T19, T20, T21, T22) {
        (self.0, self.1, self.2, self.3, self.4, self.5, self.6, self.7, self.8, self.9, self.10, self.11, self.12, self.13, self.14, self.15, self.16, self.17, other.0, other.1, other.2, other.3)
    }

    fn join(self, other: (T19, T20, T21, T22)) -> (r: (T1, T2, T3, T4, T5, T6, T7, T8, T9, T10, T11, T12, T13, T14, T15, T16, T17, T18, T19, T20, T21, T22)) {
        (self.0, self.1, self.2, self.3, self.4, self.5, self.6, self.7, self.8, self.9, self.10, self.11, self.12, self.13, self.14, self.15, self.16, self.17, other.0, other.1, other.2, other.3)
    }

    proof fn lemma_join_arity(self, other: (T19, T20, T21, T22)) {
    }
}

impl<T1, T2, T3, T4, T5, T6, T7, T8, T9, T10, T11, T12, T13, T14, T15, T16, T17, T18, T19, T20, T21, T22> JoinableTuple<(T20, T21, T22)> for (T1, T2, T3, T4, T5, T6, T7, T8, T9, T10, T11, T12, T13, T14, T15, T16, T17, T18, T19) {
    type Join = (T1, T2, T3, T4, T5, T6, T7, T8, T9, T10, T11, T12, T13, T14, T15, T16, T17, T18, T19, T20, T21, T22);

    open spec fn spec_join(self, other: (T20, T21, T22)) -> (T1, T2, T3, T4, T5, T6, T7, T8, T9, T10, T11, T12, T13, T14, T15, T16, T17, T18, T19, T20, T21, T22) {
        (self.0, self.1, self.2, self.3, self.4, self.5, self.6, self.7, self.8, self.9, self.10, self.11, self.12, self.13, self.14, self.15, self.16, self.17, self.18, other.0, other.1, other.2)
    }

    fn join(self, other: (T20, T21, T22)) -> (r: (T1, T2, T3, T4, T5, T6, T7, T8, T9, T10, T11, T12, T13, T14, T15, T16, T17, T18, T19, T20, T21, T22)) {
        (self.0, self.1, self.2, self.3, self.4, self.5, self.6, self.7, self.8, self.9, self.10, self.11, self.12, self.13, self.14, self.15, self.16, self.17, self.18, other.0, other.1, other.2)
    }

    proof fn lemma_join_arity(self, other: (T20, T21, T22)) {
    }
}

impl<T1, T2, T3, T4, T5, T6, T7, T8, T9, T10, T11, T12, T13, T14, T15, T16, T17, T18, T19, T20, T21, T22> JoinableTuple<(T21, T22)> for (T1, T2, T3, T4, T5, T6, T7, T8, T9, T10, T11, T12, T13, T14, T15, T16, T17, T18, T19, T20) {
    type Join = (T1, T2, T3, T4, T5, T6, T7, T8, T9, T10, T11, T12, T13, T14, T15, T16, T17, T18, T19, T20, T21, T22);

    open spec fn spec_join(self, other: (T21, T22)) -> (T1, T2, T3, T4, T5, T6, T7, T8, T9, T10, T11, T12, T13, T14, T15, T16, T17, T18, T19, T20, T21, T22) {
        (self.0, self.1, self.2, self.3, self.4, self.5, self.6, self.7, self.8, self.9, self.10, self.11, self.12, self.13, self.14, self.15, self.16, self.17, self.18, self.19, other.0, other.1)
    }

    fn join(self, other: (T21, T22)) -> (r: (T1, T2, T3, T4, T5, T6, T7, T8, T9, T10, T11, T12, T13, T14, T15, T16, T17, T18, T19, T20, T21, T22)) {
        (self.0, self.1, self.2, self.3, self.4, self.5, self.6, self.7, self.8, self.9, self.10, self.11, self.12, self.13, self.14, self.15, self.16, self.17, self.18, self.19, other.0, other.1)
    }

    proof fn lemma_join_arity(self, other: (T21, T22)) {
    }
}

impl<T1, T2, T3, T4, T5, T6, T7, T8, T9, T10, T11, T12, T13, T14, T15, T16, T17, T18, T19, T20, T21, T22> JoinableTuple<(T22,)> for (T1, T2, T3, T4, T5, T6, T7, T8, T9, T10, T11, T12, T13, T14, T15, T16, T17, T18, T19, T20, T21) {
    type Join = (T1, T2, T3, T4, T5, T6, T7, T8, T9, T10, T11, T12, T13, T14, T15, T16, T17, T18, T19, T20, T21, T22);

    open spec fn spec_join(self, other: (T22,)) -> (T1, T2, T3, T4, T5, T6, T7, T8, T9, T10, T11, T12, T13, T14, T15, T16, T17, T18, T19, T20, T21, T22) {
        (self.0, self.1, self.2, self.3, self.4, self.5, self.6, self.7, self.8, self.9, self.10, self.11, self.12, self.13, self.14, self.15, self.16, self.17, self.18, self.19, self.20, other.0)
    }

    fn join(self, other: (T22,)) -> (r: (T1, T2, T3, T4, T5, T6, T7, T8, T9, T10, T11, T12, T13, T14, T15, T16, T17, T18, T19, T20, T21, T22)) {
        (self.0, self.1, self.2, self.3, self.4, self.5, self.6, self.7, self.8, self.9, self.10, self.11, self.12, self.13, self.14, self.15, self.16, self.17, self.18, self.19, self.20, other.0)
    }

    proof fn lemma_join_arity(self, other: (T22,)) {
    }
}

impl<T1, T2, T3, T4, T5, T6, T7, T8, T9, T10, T11, T12, T13, T14, T15, T16, T17, T18, T19, T20, T21, T22> JoinableTuple<()> for (T1, T2, T3, T4, T5, T6, T7, T8, T9, T10, T11, T12, T13, T14, T15, T16, T17, T18, T19, T20, T21, T22) {
    type Join = (T1, T2, T3, T4, T5, T6, T7, T8, T9, T10, T11, T12, T13, T14, T15, T16, T17, T18, T19, T20, T21, T22);

    open spec fn spec_join(self, other: ()) -> (T1, T2, T3, T4, T5, T6, T7, T8, T9, T10, T11, T12, T13, T14, T15, T16, T17, T18, T19, T20, T21, T22) {
        (self.0, self.1, self.2, self.3, self.4, self.5, self.6, self.7, self.8, self.9, self.10, self.11, self.12, self.13, self.14, self.15, self.16, self.17, self.18, self.19, self.20, self.21)
    }

    fn join(self, other: ()) -> (r: (T1, T2, T3, T4, T5, T6, T7, T8, T9, T10, T11, T12, T13, T14, T15, T16, T17, T18, T19, T20, T21, T22)) {
        (self.0, self.1, self.2, self.3, self.4, self.5, self.6, self.7, self.8, self.9, self.10, self.11, self.12, self.13, self.14, self.15, self.16, self.17, self.18, self.19, self.20, self.21)
    }

    proof fn lemma_join_arity(self, other: ()) {
    }
}

impl<T1, T2, T3, T4, T5, T6, T7, T8, T9, T10, T11, T12, T13, T14, T15, T16, T17, T18, T19, T20, T21, T22, T23> Sealed for (T1, T2, T3, T4, T5, T6, T7, T8, T9, T10, T11, T12, T13, T14, T15, T16, T17, T18, T19, T20, T21, T22, T23) {}

impl<T1, T2, T3, T4, T5, T6, T7, T8, T9, T10, T11, T12, T13, T14, T15, T16, T17, T18, T19, T20, T21, T22, T23> DynTuple for (T1, T2, T3, T4, T5, T6, T7, T8, T9, T10, T11, T12, T13, T14, T15, T16, T17, T18, T19, T20, T21, T22, T23) {
    open spec fn spec_arity(&self) -> nat {
        23
    }

    fn arity(&self) -> (r: usize) {
        23
    }
}

impl<T1, T2, T3, T4, T5, T6, T7, T8, T9, T10, T11, T12, T13, T14, T15, T16, T17, T18, T19, T20, T21, T22, T23> Tuple for (T1, T2, T3, T4, T5, T6, T7, T8, T9, T10, T11, T12, T13, T14, T15, T16, T17, T18, T19, T20, T21, T22, T23) {
    const ARITY: usize = 23;

    open spec fn spec_type_arity() -> nat {
        23
    }

    proof fn lemma_arity(&self) {
    }

    proof fn lemma_type_arity() {
    }
}

impl<T1, T2, T3, T4, T5, T6, T7, T8, T9, T10, T11, T12, T13, T14, T15, T16, T17, T18, T19, T20, T21, T22, T23, T> GrowableTuple<T> for (T1, T2, T3, T4, T5, T6, T7, T8, T9, T10, T11, T12, T13, T14, T15, T16, T17, T18, T19, T20, T21, T22, T23) {
    type Append = (T1, T2, T3, T4, T5, T6, T7, T8, T9, T10, T11, T12, T13, T14, T15, T16, T17, T18, T19, T20, T21, T22, T23, T);

    type Prepend = (T, T1, T2, T3, T4, T5, T6, T7, T8, T9, T10, T11, T12, T13, T14, T15, T16, T17, T18, T19, T20, T21, T22, T23);

    open spec fn spec_append(self, value: T) -> (T1, T2, T3, T4, T5, T6, T7, T8, T9, T10, T11, T12, T13, T14, T15, T16, T17, T18, T19, T20, T21, T22, T23, T) {
        (self.0, self.1, self.2, self.3, self.4, self.5, self.6, self.7, self.8, self.9, self.10, self.11, self.12, self.13, self.14, self.15, self.16, self.17, self.18, self.19, self.20, self.21, self.22, value)
    }

    open spec fn spec_prepend(self, value: T) -> (T, T1, T2, T3, T4, T5, T6, T7, T8, T9, T10, T11, T12, T13, T14, T15, T16, T17, T18, T19, T20, T21, T22, T23) {
        (value, self.0, self.1, self.2, self.3, self.4, self.5, self.6, self.7, self.8, self.9, self.10, self.11, self.12, self.13, self.14, self.15, self.16, self.17, self.18, self.19, self.20, self.21, self.22)
    }

    fn append(self, value: T) -> (r: (T1, T2, T3, T4, T5, T6, T7, T8, T9, T10, T11, T12, T13, T14, T15, T16, T17, T18, T19, T20, T21, T22, T23, T)) {
        (self.0, self.1, self.2, self.3, self.4, self.5, self.6, self.7, self.8, self.9, self.10, self.11, self.12, self.13, self.14, self.15, self.16, self.17, self.18, self.19, self.20, self.21, self.22, value)
    }

    fn prepend(self, value: T) -> (r: (T, T1, T2, T3, T4, T5, T6, T7, T8, T9, T10, T11, T12, T13, T14, T15, T16, T17, T18, T19, T20, T21, T22, T23)) {
        (value, self.0, self.1, self.2, self.3, self.4, self.5, self.6, self.7, self.8, self.9, self.10, self.11, self.12, self.13, self.14, self.15, self.16, self.17, self.18, self.19, self.20, self.21, self.22)
    }

    proof fn lemma_grow_arity(self, value: T) {
    }
}

impl<T1, T2, T3, T4, T5, T6, T7, T8, T9, T10, T11, T12, T13, T14, T15, T16, T17, T18, T19, T20, T21, T22, T23> NonEmptyTuple for (T1, T2, T3, T4, T5, T6, T7, T8, T9, T10, T11, T12, T13, T14, T15, T16, T17, T18, T19, T20, T21, T22, T23) {
    type Head = T1;

    type Tail = T23;

    type TruncateHead = (T2, T3, T4, T5, T6, T7, T8, T9, T10, T11, T12, T13, T14, T15, T16, T17, T18, T19, T20, T21, T22, T23);

    type TruncateTail = (T1, T2, T3, T4, T5, T6, T7, T8, T9, T10, T11, T12, T13, T14, T15, T16, T17, T18, T19, T20, T21, T22);

    open spec fn spec_head(&self) -> T1 {
        self.0
    }

    open spec fn spec_tail(&self) -> T23 {
        self.22
    }

    open spec fn spec_with_head(self, value: T1) -> (T1, T2, T3, T4, T5, T6, T7, T8, T9, T10, T11, T12, T13, T14, T15, T16, T17, T18, T19, T20, T21, T22, T23) {
        (value, self.1, self.2, self.3, self.4, self.5, self.6, self.7, self.8, self.9, self.10, self.11, self.12, self.13, self.14, self.15, self.16, self.17, self.18, self.19, self.20, self.21, self.22)
    }

    open spec fn spec_with_tail(self, value: T23) -> (T1, T2, T3, T4, T5, T6, T7, T8, T9, T10, T11, T12, T13, T14, T15, T16, T17, T18, T19, T20, T21, T22, T23) {
        (self.0, self.1, self.2, self.3, self.4, self.5, self.6, self.7, self.8, self.9, self.10, self.11, self.12, self.13, self.14, self.15, self.16, self.17, self.18, self.19, self.20, self.21, value)
    }

    open spec fn spec_truncate_head(self) -> (T1, (T2, T3, T4, T5, T6, T7, T8, T9, T10, T11, T12, T13, T14, T15, T16, T17, T18, T19, T20, T21, T22, T23)) {
        (self.0, (self.1, self.2, self.3, self.4, self.5, self.6, self.7, self.8, self.9, self.10, self.11, self.12, self.13, self.14, self.15, self.16, self.17, self.18, self.19, self.20, self.21, self.22))
    }

    open spec fn spec_truncate_tail(self) -> ((T1, T2, T3, T4, T5, T6, T7, T8, T9, T10, T11, T12, T13, T14, T15, T16, T17, T18, T19, T20, T21, T22), T23) {
        ((self.0, self.1, self.2, self.3, self.4, self.5, self.6, self.7, self.8, self.9, self.10, self.11, self.12, self.13, self.14, self.15, self.16, self.17, self.18, self.19, self.20, self.21), self.22)
    }

    fn head(&self) -> (r: &T1) {
        &self.0
    }

    fn head_mut(&mut self) -> (r: &mut T1) {
        &mut self.0
    }

    fn tail(&self) -> (r: &T23) {
        &self.22
    }

    fn tail_mut(&mut self) -> (r: &mut T23) {
        &mut self.22
    }

    fn truncate_head(self) -> (r: (T1, (T2, T3, T4, T5, T6, T7, T8, T9, T10, T11, T12, T13, T14, T15, T16, T17, T18, T19, T20, T21, T22, T23))) {
        (self.0, (self.1, self.2, self.3, self.4, self.5, self.6, self.7, self.8, self.9, self.10, self.11, self.12, self.13, self.14, self.15, self.16, self.17, self.18, self.19, self.20, self.21, self.22))
    }

    fn truncate_tail(self) -> (r: ((T1, T2, T3, T4, T5, T6, T7, T8, T9, T10, T11, T12, T13, T14, T15, T16, T17, T18, T19, T20, T21, T22), T23)) {
        ((self.0, self.1, self.2, self.3, self.4, self.5, self.6, self.7, self.8, self.9, self.10, self.11, self.12, self.13, self.14, self.15, self.16, self.17, self.18, self.19, self.20, self.21), self.22)
    }

    proof fn lemma_truncate_head(self) {
    }

    proof fn lemma_truncate_tail(self) {
    }
}

impl<T1, T2, T3, T4, T5, T6, T7, T8, T9, T10, T11, T12, T13, T14, T15, T16, T17, T18, T19, T20, T21, T22, T23> NonUnaryTuple for (T1, T2, T3, T4, T5, T6, T7, T8, T9, T10, T11, T12, T13, T14, T15, T16, T17, T18, T19, T20, T21, T22, T23) {
    type TruncateHeadTail = (T2, T3, T4, T5, T6, T7, T8, T9, T10, T11, T12, T13, T14, T15, T16, T17, T18, T19, T20, T21, T22);

    open spec fn spec_truncate_head_tail(self) -> (T1, (T2, T3, T4, T5, T6, T7, T8, T9, T10, T11, T12, T13, T14, T15, T16, T17, T18, T19, T20, T21, T22), T23) {
        (self.0, (self.1, self.2, self.3, self.4, self.5, self.6, self.7, self.8, self.9, self.10, self.11, self.12, self.13, self.14, self.15, self.16, self.17, self.18, self.19, self.20, self.21), self.22)
    }

    fn head_tail(&self) -> (r: (&T1, &T23)) {
        (&self.0, &self.22)
    }

    fn head_tail_mut(&mut self) -> (r: (&mut T1, &mut T23)) {
        (&mut self.0, &mut self.22)
    }

    fn truncate_head_tail(self) -> (r: (T1, (T2, T3, T4, T5, T6, T7, T8, T9, T10, T11, T12, T13, T14, T15, T16, T17, T18, T19, T20, T21, T22), T23)) {
        (self.0, (self.1, self.2, self.3, self.4, self.5, self.6, self.7, self.8, self.9, self.10, self.11, self.12, self.13, self.14, self.15, self.16, self.17, self.18, self.19, self.20, self.21), self.22)
    }

    proof fn lemma_truncate_head_tail(self) {
    }
}

impl<T1, T2, T3, T4, T5, T6, T7, T8, T9, T10, T11, T12, T13, T14, T15, T16, T17, T18, T19, T20, T21, T22, T23> IndexableTuple<0> for (T1, T2, T3, T4, T5, T6, T7, T8, T9, T10, T11, T12, T13, T14, T15, T16, T17, T18, T19, T20, T21, T22, T23) {
    type Value = T1;

    open spec fn spec_index(&self) -> T1 {
        self.0
    }

    open spec fn spec_with_index(self, value: T1) -> (T1, T2, T3, T4, T5, T6, T7, T8, T9, T10, T11, T12, T13, T14, T15, T16, T17, T18, T19, T20, T21, T22, T23) {
        (value, self.1, self.2, self.3, self.4, self.5, self.6, self.7, self.8, self.9, self.10, self.11, self.12, self.13, self.14, self.15, self.16, self.17, self.18, self.19, self.20, self.21, self.22)
    }

    fn index_ref(&self) -> (r: &T1) {
        &self.0
    }

    fn index_mut(&mut self) -> (r: &mut T1) {
        &mut self.0
    }

    fn into_index(self) -> (r: T1) {
        self.0
    }

    proof fn lemma_index_in_range(&self) {
    }
}

impl<T1, T2, T3, T4, T5, T6, T7, T8, T9, T10, T11, T12, T13, T14, T15, T16, T17, T18, T19, T20, T21, T22, T23> IndexableTuple<1> for (T1, T2, T3, T4, T5, T6, T7, T8, T9, T10, T11, T12, T13, T14, T15, T16, T17, T18, T19, T20, T21, T22, T23) {
    type Value = T2;

    open spec fn spec_index(&self) -> T2 {
        self.1
    }

    open spec fn spec_with_index(self, value: T2) -> (T1, T2, T3, T4, T5, T6, T7, T8, T9, T10, T11, T12, T13, T14, T15, T16, T17, T18, T19, T20, T21, T22, T23) {
        (self.0, value, self.2, self.3, self.4, self.5, self.6, self.7, self.8, self.9, self.10, self.11, self.12, self.13, self.14, self.15, self.16, self.17, self.18, self.19, self.20, self.21, self.22)
    }

    fn index_ref(&self) -> (r: &T2) {
        &self.1
    }

    fn index_mut(&mut self) -> (r: &mut T2) {
        &mut self.1
    }

    fn into_index(self) -> (r: T2) {
        self.1
    }

    proof fn lemma_index_in_range(&self) {
    }
}

impl<T1, T2, T3, T4, T5, T6, T7, T8, T9, T10, T11, T12, T13, T14, T15, T16, T17, T18, T19, T20, T21, T22, T23> IndexableTuple<2> for (T1, T2, T3, T4, T5, T6, T7, T8, T9, T10, T11, T12, T13, T14, T15, T16, T17, T18, T19, T20, T21, T22, T23) {
    type Value = T3;

    open spec fn spec_index(&self) -> T3 {
        self.2
    }

    open spec fn spec_with_index(self, value: T3) -> (T1, T2, T3, T4, T5, T6, T7, T8, T9, T10, T11, T12, T13, T14, T15, T16, T17, T18, T19, T20, T21, T22, T23) {
        (self.0, self.1, value, self.3, self.4, self.5, self.6, self.7, self.8, self.9, self.10, self.11, self.12, self.13, self.14, self.15, self.16, self.17, self.18, self.19, self.20, self.21, self.22)
    }

    fn index_ref(&self) -> (r: &T3) {
        &self.2
    }

    fn index_mut(&mut self) -> (r: &mut T3) {
        &mut self.2
    }

    fn into_index(self) -> (r: T3) {
        self.2
    }

    proof fn lemma_index_in_range(&self) {
    }
}

impl<T1, T2, T3, T4, T5, T6, T7, T8, T9, T10, T11, T12, T13, T14, T15, T16, T17, T18, T19, T20, T21, T22, T23> IndexableTuple<3> for (T1, T2, T3, T4, T5, T6, T7, T8, T9, T10, T11, T12, T13, T14, T15, T16, T17, T18, T19, T20, T21, T22, T23) {
    type Value = T4;

    open spec fn spec_index(&self) -> T4 {
        self.3
    }

    open spec fn spec_with_index(self, value: T4) -> (T1, T2, T3, T4, T5, T6, T7, T8, T9, T10, T11, T12, T13, T14, T15, T16, T17, T18, T19, T20, T21, T22, T23) {
        (self.0, self.1, self.2, value, self.4, self.5, self.6, self.7, self.8, self.9, self.10, self.11, self.12, self.13, self.14, self.15, self.16, self.17, self.18, self.19, self.20, self.21, self.22)
    }

    fn index_ref(&self) -> (r: &T4) {
        &self.3
    }

    fn index_mut(&mut self) -> (r: &mut T4) {
        &mut self.3
    }

    fn into_index(self) -> (r: T4) {
        self.3
    }

    proof fn lemma_index_in_range(&self) {
    }
}

impl<T1, T2, T3, T4, T5, T6, T7, T8, T9, T10, T11, T12, T13, T14, T15, T16, T17, T18, T19, T20, T21, T22, T23> IndexableTuple<4> for (T1, T2, T3, T4, T5, T6, T7, T8, T9, T10, T11, T12, T13, T14, T15, T16, T17, T18, T19, T20, T21, T22, T23) {
    type Value = T5;

    open spec fn spec_index(&self) -> T5 {
        self.4
    }

    open spec fn spec_with_index(self, value: T5) -> (T1, T2, T3, T4, T5, T6, T7, T8, T9, T10, T11, T12, T13, T14, T15, T16, T17, T18, T19, T20, T21, T22, T23) {
        (self.0, self.1, self.2, self.3, value, self.5, self.6, self.7, self.8, self.9, self.10, self.11, self.12, self.13, self.14, self.15, self.16, self.17, self.18, self.19, self.20, self.21, self.22)
    }

    fn index_ref(&self) -> (r: &T5) {
        &self.4
    }

    fn index_mut(&mut self) -> (r: &mut T5) {
        &mut self.4
    }

    fn into_index(self) -> (r: T5) {
        self.4
    }

    proof fn lemma_index_in_range(&self) {
    }
}

impl<T1, T2, T3, T4, T5, T6, T7, T8, T9, T10, T11, T12, T13, T14, T15, T16, T17, T18, T19, T20, T21, T22, T23> IndexableTuple<5> for (T1, T2, T3, T4, T5, T6, T7, T8, T9, T10, T11, T12, T13, T14, T15, T16, T17, T18, T19, T20, T21, T22, T23) {
    type Value = T6;

    open spec fn spec_index(&self) -> T6 {
        self.5
    }

    open spec fn spec_with_index(self, value: T6) -> (T1, T2, T3, T4, T5, T6, T7, T8, T9, T10, T11, T12, T13, T14, T15, T16, T17, T18, T19, T20, T21, T22, T23) {
        (self.0, self.1, self.2, self.3, self.4, value, self.6, self.7, self.8, self.9, self.10, self.11, self.12, self.13, self.14, self.15, self.16, self.17, self.18, self.19, self.20, self.21, self.22)
    }

    fn index_ref(&self) -> (r: &T6) {
        &self.5
    }

    fn index_mut(&mut self) -> (r: &mut T6) {
        &mut self.5
    }

    fn into_index(self) -> (r: T6) {
        self.5
    }

    proof fn lemma_index_in_range(&self) {
    }
}

impl<T1, T2, T3, T4, T5, T6, T7, T8, T9, T10, T11, T12, T13, T14, T15, T16, T17, T18, T19, T20, T21, T22, T23> IndexableTuple<6> for (T1, T2, T3, T4, T5, T6, T7, T8, T9, T10, T11, T12, T13, T14, T15, T16, T17, T18, T19, T20, T21, T22, T23) {
    type Value = T7;

    open spec fn spec_index(&self) -> T7 {
        self.6
    }

    open spec fn spec_with_index(self, value: T7) -> (T1, T2, T3, T4, T5, T6, T7, T8, T9, T10, T11, T12, T13, T14, T15, T16, T17, T18, T19, T20, T21, T22, T23) {
        (self.0, self.1, self.2, self.3, self.4, self.5, value, self.7, self.8, self.9, self.10, self.11, self.12, self.13, self.14, self.15, self.16, self.17, self.18, self.19, self.20, self.21, self.22)
    }

    fn index_ref(&self) -> (r: &T7) {
        &self.6
    }

    fn index_mut(&mut self) -> (r: &mut T7) {
        &mut self.6
    }

    fn into_index(self) -> (r: T7) {
        self.6
    }

    proof fn lemma_index_in_range(&self) {
    }
}

impl<T1, T2, T3, T4, T5, T6, T7, T8, T9, T10, T11, T12, T13, T14, T15, T16, T17, T18, T19, T20, T21, T22, T23> IndexableTuple<7> for (T1, T2, T3, T4, T5, T6, T7, T8, T9, T10, T11, T12, T13, T14, T15, T16, T17, T18, T19, T20, T21, T22, T23) {
    type Value = T8;

    open spec fn spec_index(&self) -> T8 {
        self.7
    }

    open spec fn spec_with_index(self, value: T8) -> (T1, T2, T3, T4, T5, T6, T7, T8, T9, T10, T11, T12, T13, T14, T15, T16, T17, T18, T19, T20, T21, T22, T23) {
        (self.0, self.1, self.2, self.3, self.4, self.5, self.6, value, self.8, self.9, self.10, self.11, self.12, self.13, self.14, self.15, self.16, self.17, self.18, self.19, self.20, self.21, self.22)
    }

    fn index_ref(&self) -> (r: &T8) {
        &self.7
    }

    fn index_mut(&mut self) -> (r: &mut T8) {
        &mut self.7
    }

    fn into_index(self) -> (r: T8) {
        self.7
    }

    proof fn lemma_index_in_range(&self) {
    }
}

impl<T1, T2, T3, T4, T5, T6, T7, T8, T9, T10, T11, T12, T13, T14, T15, T16, T17, T18, T19, T20, T21, T22, T23> IndexableTuple<8> for (T1, T2, T3, T4, T5, T6, T7, T8, T9, T10, T11, T12, T13, T14, T15, T16, T17, T18, T19, T20, T21, T22, T23) {
    type Value = T9;

    open spec fn spec_index(&self) -> T9 {
        self.8
    }

    open spec fn spec_with_index(self, value: T9) -> (T1, T2, T3, T4, T5, T6, T7, T8, T9, T10, T11, T12, T13, T14, T15, T16, T17, T18, T19, T20, T21, T22, T23) {
        (self.0, self.1, self.2, self.3, self.4, self.5, self.6, self.7, value, self.9, self.10, self.11, self.12, self.13, self.14, self.15, self.16, self.17, self.18, self.19, self.20, self.21, self.22)
    }

    fn index_ref(&self) -> (r: &T9) {
        &self.8
    }

    fn index_mut(&mut self) -> (r: &mut T9) {
        &mut self.8
    }

    fn into_index(self) -> (r: T9) {
        self.8
    }

    proof fn lemma_index_in_range(&self) {
    }
}

impl<T1, T2, T3, T4, T5, T6, T7, T8, T9, T10, T11, T12, T13, T14, T15, T16, T17, T18, T19, T20, T21, T22, T23> IndexableTuple<9> for (T1, T2, T3, T4, T5, T6, T7, T8, T9, T10, T11, T12, T13, T14, T15, T16, T17, T18, T19, T20, T21, T22, T23) {
    type Value = T10;

    open spec fn spec_index(&self) -> T10 {
        self.9
    }

    open spec fn spec_with_index(self, value: T10) -> (T1, T2, T3, T4, T5, T6, T7, T8, T9, T10, T11, T12, T13, T14, T15, T16, T17, T18, T19, T20, T21, T22, T23) {
        (self.0, self.1, self.2, self.3, self.4, self.5, self.6, self.7, self.8, value, self.10, self.11, self.12, self.13, self.14, self.15, self.16, self.17, self.18, self.19, self.20, self.21, self.22)
    }

    fn index_ref(&self) -> (r: &T10) {
        &self.9
    }

    fn index_mut(&mut self) -> (r: &mut T10) {
        &mut self.9
    }

    fn into_index(self) -> (r: T10) {
        self.9
    }

    proof fn lemma_index_in_range(&self) {
    }
}

impl<T1, T2, T3, T4, T5, T6, T7, T8, T9, T10, T11, T12, T13, T14, T15, T16, T17, T18, T19, T20, T21, T22, T23> IndexableTuple<10> for (T1, T2, T3, T4, T5, T6, T7, T8, T9, T10, T11, T12, T13, T14, T15, T16, T17, T18, T19, T20, T21, T22, T23) {
    type Value = T11;

    open spec fn spec_index(&self) -> T11 {
        self.10
    }

    open spec fn spec_with_index(self, value: T11) -> (T1, T2, T3, T4, T5, T6, T7, T8, T9, T10, T11, T12, T13, T14, T15, T16, T17, T18, T19, T20, T21, T22, T23) {
        (self.0, self.1, self.2, self.3, self.4, self.5, self.6, self.7, self.8, self.9, value, self.11, self.12, self.13, self.14, self.15, self.16, self.17, self.18, self.19, self.20, self.21, self.22)
    }

    fn index_ref(&self) -> (r: &T11) {
        &self.10
    }

    fn index_mut(&mut self) -> (r: &mut T11) {
        &mut self.10
    }

    fn into_index(self) -> (r: T11) {
        self.10
    }

    proof fn lemma_index_in_range(&self) {
    }
}

impl<T1, T2, T3, T4, T5, T6, T7, T8, T9, T10, T11, T12, T13, T14, T15, T16, T17, T18, T19, T20, T21, T22, T23> IndexableTuple<11> for (T1, T2, T3, T4, T5, T6, T7, T8, T9, T10, T11, T12, T13, T14, T15, T16, T17, T18, T19, T20, T21, T22, T23) {
    type Value = T12;

    open spec fn spec_index(&self) -> T12 {
        self.11
    }

    open spec fn spec_with_index(self, value: T12) -> (T1, T2, T3, T4, T5, T6, T7, T8, T9, T10, T11, T12, T13, T14, T15, T16, T17, T18, T19, T20, T21, T22, T23) {
        (self.0, self.1, self.2, self.3, self.4, self.5, self.6, self.7, self.8, self.9, self.10, value, self.12, self.13, self.14, self.15, self.16, self.17, self.18, self.19, self.20, self.21, self.22)
    }

    fn index_ref(&self) -> (r: &T12) {
        &self.11
    }

    fn index_mut(&mut self) -> (r: &mut T12) {
        &mut self.11
    }

    fn into_index(self) -> (r: T12) {
        self.11
    }

    proof fn lemma_index_in_range(&self) {
    }
}

impl<T1, T2, T3, T4, T5, T6, T7, T8, T9, T10, T11, T12, T13, T14, T15, T16, T17, T18, T19, T20, T21, T22, T23> IndexableTuple<12> for (T1, T2, T3, T4, T5, T6, T7, T8, T9, T10, T11, T12, T13, T14, T15, T16, T17, T18, T19, T20, T21, T22, T23) {
    type Value = T13;

    open spec fn spec_index(&self) -> T13 {
        self.12
    }

    open spec fn spec_with_index(self, value: T13) -> (T1, T2, T3, T4, T5, T6, T7, T8, T9, T10, T11, T12, T13, T14, T15, T16, T17, T18, T19, T20, T21, T22, T23) {
        (self.0, self.1, self.2, self.3, self.4, self.5, self.6, self.7, self.8, self.9, self.10, self.11, value, self.13, self.14, self.15, self.16, self.17, self.18, self.19, self.20, self.21, self.22)
    }

    fn index_ref(&self) -> (r: &T13) {
        &self.12
    }

    fn index_mut(&mut self) -> (r: &mut T13) {
        &mut self.12
    }

    fn into_index(self) -> (r: T13) {
        self.12
    }

    proof fn lemma_index_in_range(&self) {
    }
}

impl<T1, T2, T3, T4, T5, T6, T7, T8, T9, T10, T11, T12, T13, T14, T15, T16, T17, T18, T19, T20, T21, T22, T23> IndexableTuple<13> for (T1, T2, T3, T4, T5, T6, T7, T8, T9, T10, T11, T12, T13, T14, T15, T16, T17, T18, T19, T20, T21, T22, T23) {
    type Value = T14;

    open spec fn spec_index(&self) -> T14 {
        self.13
    }

    open spec fn spec_with_index(self, value: T14) -> (T1, T2, T3, T4, T5, T6, T7, T8, T9, T10, T11, T12, T13, T14, T15, T16, T17, T18, T19, T20, T21, T22, T23) {
        (self.0, self.1, self.2, self.3, self.4, self.5, self.6, self.7, self.8, self.9, self.10, self.11, self.12, value, self.14, self.15, self.16, self.17, self.18, self.19, self.20, self.21, self.22)
    }

    fn index_ref(&self) -> (r: &T14) {
        &self.13
    }

    fn index_mut(&mut self) -> (r: &mut T14) {
        &mut self.13
    }

    fn into_index(self) -> (r: T14) {
        self.13
    }

    proof fn lemma_index_in_range(&self) {
    }
}

impl<T1, T2, T3, T4, T5, T6, T7, T8, T9, T10, T11, T12, T13, T14, T15, T16, T17, T18, T19, T20, T21, T22, T23> IndexableTuple<14> for (T1, T2, T3, T4, T5, T6, T7, T8, T9, T10, T11, T12, T13, T14, T15, T16, T17, T18, T19, T20, T21, T22, T23) {
    type Value = T15;

    open spec fn spec_index(&self) -> T15 {
        self.14
    }

    open spec fn spec_with_index(self, value: T15) -> (T1, T2, T3, T4, T5, T6, T7, T8, T9, T10, T11, T12, T13, T14, T15, T16, T17, T18, T19, T20, T21, T22, T23) {
        (self.0, self.1, self.2, self.3, self.4, self.5, self.6, self.7, self.8, self.9, self.10, self.11, self.12, self.13, value, self.15, self.16, self.17, self.18, self.19, self.20, self.21, self.22)
    }

    fn index_ref(&self) -> (r: &T15) {
        &self.14
    }

    fn index_mut(&mut self) -> (r: &mut T15) {
        &mut self.14
    }

    fn into_index(self) -> (r: T15) {
        self.14
    }

    proof fn lemma_index_in_range(&self) {
    }
}

impl<T1, T2, T3, T4, T5, T6, T7, T8, T9, T10, T11, T12, T13, T14, T15, T16, T17, T18, T19, T20, T21, T22, T23> IndexableTuple<15> for (T1, T2, T3, T4, T5, T6, T7, T8, T9, T10, T11, T12, T13, T14, T15, T16, T17, T18, T19, T20, T21, T22, T23) {
    type Value = T16;

    open spec fn spec_index(&self) -> T16 {
        self.15
    }

    open spec fn spec_with_index(self, value: T16) -> (T1, T2, T3, T4, T5, T6, T7, T8, T9, T10, T11, T12, T13, T14, T15, T16, T17, T18, T19, T20, T21, T22, T23) {
        (self.0, self.1, self.2, self.3, self.4, self.5, self.6, self.7, self.8, self.9, self.10, self.11, self.12, self.13, self.14, value, self.16, self.17, self.18, self.19, self.20, self.21, self.22)
    }

    fn index_ref(&self) -> (r: &T16) {
        &self.15
    }

    fn index_mut(&mut self) -> (r: &mut T16) {
        &mut self.15
    }

    fn into_index(self) -> (r: T16) {
        self.15
    }

    proof fn lemma_index_in_range(&self) {
    }
}

impl<T1, T2, T3, T4, T5, T6, T7, T8, T9, T10, T11, T12, T13, T14, T15, T16, T17, T18, T19, T20, T21, T22, T23> IndexableTuple<16> for (T1, T2, T3, T4, T5, T6, T7, T8, T9, T10, T11, T12, T13, T14, T15, T16, T17, T18, T19, T20, T21, T22, T23) {
    type Value = T17;

    open spec fn spec_index(&self) -> T17 {
        self.16
    }

    open spec fn spec_with_index(self, value: T17) -> (T1, T2, T3, T4, T5, T6, T7, T8, T9, T10, T11, T12, T13, T14, T15, T16, T17, T18, T19, T20, T21, T22, T23) {
        (self.0, self.1, self.2, self.3, self.4, self.5, self.6, self.7, self.8, self.9, self.10, self.11, self.12, self.13, self.14, self.15, value, self.17, self.18, self.19, self.20, self.21, self.22)
    }

    fn index_ref(&self) -> (r: &T17) {
        &self.16
    }

    fn index_mut(&mut self) -> (r: &mut T17) {
        &mut self.16
    }

    fn into_index(self) -> (r: T17) {
        self.16
    }

    proof fn lemma_index_in_range(&self) {
    }
}

impl<T1, T2, T3, T4, T5, T6, T7, T8, T9, T10, T11, T12, T13, T14, T15, T16, T17, T18, T19, T20, T21, T22, T23> IndexableTuple<17> for (T1, T2, T3, T4, T5, T6, T7, T8, T9, T10, T11, T12, T13, T14, T15, T16, T17, T18, T19, T20, T21, T22, T23) {
    type Value = T18;

    open spec fn spec_index(&self) -> T18 {
        self.17
    }

    open spec fn spec_with_index(self, value: T18) -> (T1, T2, T3, T4, T5, T6, T7, T8, T9, T10, T11, T12, T13, T14, T15, T16, T17, T18, T19, T20, T21, T22, T23) {
        (self.0, self.1, self.2, self.3, self.4, self.5, self.6, self.7, self.8, self.9, self.10, self.11, self.12, self.13, self.14, self.15, self.16, value, self.18, self.19, self.20, self.21, self.22)
    }

    fn index_ref(&self) -> (r: &T18) {
        &self.17
    }

    fn index_mut(&mut self) -> (r: &mut T18) {
        &mut self.17
    }

    fn into_index(self) -> (r: T18) {
        self.17
    }

    proof fn lemma_index_in_range(&self) {
    }
}

impl<T1, T2, T3, T4, T5, T6, T7, T8, T9, T10, T11, T12, T13, T14, T15, T16, T17, T18, T19, T20, T21, T22, T23> IndexableTuple<18> for (T1, T2, T3, T4, T5, T6, T7, T8, T9, T10, T11, T12, T13, T14, T15, T16, T17, T18, T19, T20, T21, T22, T23) {
    type Value = T19;

    open spec fn spec_index(&self) -> T19 {
        self.18
    }

    open spec fn spec_with_index(self, value: T19) -> (T1, T2, T3, T4, T5, T6, T7, T8, T9, T10, T11, T12, T13, T14, T15, T16, T17, T18, T19, T20, T21, T22, T23) {
        (self.0, self.1, self.2, self.3, self.4, self.5, self.6, self.7, self.8, self.9, self.10, self.11, self.12, self.13, self.14, self.15, self.16, self.17, value, self.19, self.20, self.21, self.22)
    }

    fn index_ref(&self) -> (r: &T19) {
        &self.18
    }

    fn index_mut(&mut self) -> (r: &mut T19) {
        &mut self.18
    }

    fn into_index(self) -> (r: T19) {
        self.18
    }

    proof fn lemma_index_in_range(&self) {
    }
}

impl<T1, T2, T3, T4, T5, T6, T7, T8, T9, T10, T11, T12, T13, T14, T15, T16, T17, T18, T19, T20, T21, T22, T23> IndexableTuple<19> for (T1, T2, T3, T4, T5, T6, T7, T8, T9, T10, T11, T12, T13, T14, T15, T16, T17, T18, T19, T20, T21, T22, T23) {
    type Value = T20;

    open spec fn spec_index(&self) -> T20 {
        self.19
    }

    open spec fn spec_with_index(self, value: T20) -> (T1, T2, T3, T4, T5, T6, T7, T8, T9, T10, T11, T12, T13, T14, T15, T16, T17, T18, T19, T20, T21, T22, T23) {
        (self.0, self.1, self.2, self.3, self.4, self.5, self.6, self.7, self.8, self.9, self.10, self.11, self.12, self.13, self.14, self.15, self.16, self.17, self.18, value, self.20, self.21, self.22)
    }

    fn index_ref(&self) -> (r: &T20) {
        &self.19
    }

    fn index_mut(&mut self) -> (r: &mut T20) {
        &mut self.19
    }

    fn into_index(self) -> (r: T20) {
        self.19
    }

    proof fn lemma_index_in_range(&self) {
    }
}

impl<T1, T2, T3, T4, T5, T6, T7, T8, T9, T10, T11, T12, T13, T14, T15, T16, T17, T18, T19, T20, T21, T22, T23> IndexableTuple<20> for (T1, T2, T3, T4, T5, T6, T7, T8, T9, T10, T11, T12, T13, T14, T15, T16, T17, T18, T19, T20, T21, T22, T23) {
    type Value = T21;

    open spec fn spec_index(&self) -> T21 {
        self.20
    }

    open spec fn spec_with_index(self, value: T21) -> (T1, T2, T3, T4, T5, T6, T7, T8, T9, T10, T11, T12, T13, T14, T15, T16, T17, T18, T19, T20, T21, T22, T23) {
        (self.0, self.1, self.2, self.3, self.4, self.5, self.6, self.7, self.8, self.9, self.10, self.11, self.12, self.13, self.14, self.15, self.16, self.17, self.18, self.19, value, self.21, self.22)
    }

    fn index_ref(&self) -> (r: &T21) {
        &self.20
    }

    fn index_mut(&mut self) -> (r: &mut T21) {
        &mut self.20
    }

    fn into_index(self) -> (r: T21) {
        self.20
    }

    proof fn lemma_index_in_range(&self) {
    }
}

impl<T1, T2, T3, T4, T5, T6, T7, T8, T9, T10, T11, T12, T13, T14, T15, T16, T17, T18, T19, T20, T21, T22, T23> IndexableTuple<21> for (T1, T2, T3, T4, T5, T6, T7, T8, T9, T10, T11, T12, T13, T14, T15, T16, T17, T18, T19, T20, T21, T22, T23) {
    type Value = T22;

    open spec fn spec_index(&self) -> T22 {
        self.21
    }

    open spec fn spec_with_index(self, value: T22) -> (T1, T2, T3, T4, T5, T6, T7, T8, T9, T10, T11, T12, T13, T14, T15, T16, T17, T18, T19, T20, T21, T22, T23) {
        (self.0, self.1, self.2, self.3, self.4, self.5, self.6, self.7, self.8, self.9, self.10, self.11, self.12, self.13, self.14, self.15, self.16, self.17, self.18, self.19, self.20, value, self.22)
    }

    fn index_ref(&self) -> (r: &T22) {
        &self.21
    }

    fn index_mut(&mut self) -> (r: &mut T22) {
        &mut self.21
    }

    fn into_index(self) -> (r: T22) {
        self.21
    }

    proof fn lemma_index_in_range(&self) {
    }
}

impl<T1, T2, T3, T4, T5, T6, T7, T8, T9, T10, T11, T12, T13, T14, T15, T16, T17, T18, T19, T20, T21, T22, T23> IndexableTuple<22> for (T1, T2, T3, T4, T5, T6, T7, T8, T9, T10, T11, T12, T13, T14, T15, T16, T17, T18, T19, T20, T21, T22, T23) {
    type Value = T23;

    open spec fn spec_index(&self) -> T23 {
        self.22
    }

    open spec fn spec_with_index(self, value: T23) -> (T1, T2, T3, T4, T5, T6, T7, T8, T9, T10, T11, T12, T13, T14, T15, T16, T17, T18, T19, T20, T21, T22, T23) {
        (self.0, self.1, self.2, self.3, self.4, self.5, self.6, self.7, self.8, self.9, self.10, self.11, self.12, self.13, self.14, self.15, self.16, self.17, self.18, self.19, self.20, self.21, value)
    }

    fn index_ref(&self) -> (r: &T23) {
        &self.22
    }

    fn index_mut(&mut self) -> (r: &mut T23) {
        &mut self.22
    }

    fn into_index(self) -> (r: T23) {
        self.22
    }

    proof fn lemma_index_in_range(&self) {
    }
}

impl<T1, T2, T3, T4, T5, T6, T7, T8, T9, T10, T11, T12, T13, T14, T15, T16, T17, T18, T19, T20, T21, T22, T23> JoinableTuple<(T1, T2, T3, T4, T5, T6, T7, T8, T9, T10, T11, T12, T13, T14, T15, T16, T17, T18, T19, T20, T21, T22, T23)> for () {
    type Join = (T1, T2, T3, T4, T5, T6, T7, T8, T9, T10, T11, T12, T13, T14, T15, T16, T17, T18, T19, T20, T21, T22, T23);

    open spec fn spec_join(self, other: (T1, T2, T3, T4, T5, T6, T7, T8, T9, T10, T11, T12, T13, T14, T15, T16, T17, T18, T19, T20, T21, T22, T23)) -> (T1, T2, T3, T4, T5, T6, T7, T8, T9, T10, T11, T12, T13, T14, T15, T16, T17, T18, T19, T20, T21, T22, T23) {
        (other.0, other.1, other.2, other.3, other.4, other.5, other.6, other.7, other.8, other.9, other.10, other.11, other.12, other.13, other.14, other.15, other.16, other.17, other.18, other.19, other.20, other.21, other.22)
    }

    fn join(self, other: (T1, T2, T3, T4, T5, T6, T7, T8, T9, T10, T11, T12, T13, T14, T15, T16, T17, T18, T19, T20, T21, T22, T23)) -> (r: (T1, T2, T3, T4, T5, T6, T7, T8, T9, T10, T11, T12, T13, T14, T15, T16, T17, T18, T19, T20, T21, T22, T23)) {
        (other.0, other.1, other.2, other.3, other.4, other.5, other.6, other.7, other.8, other.9, other.10, other.11, other.12, other.13, other.14, other.15, other.16, other.17, other.18, other.19, other.20, other.21, other.22)
    }

    proof fn lemma_join_arity(self, other: (T1, T2, T3, T4, T5, T6, T7, T8, T9, T10, T11, T12, T13, T14, T15, T16, T17, T18, T19, T20, T21, T22, T23)) {
    }
}

impl<T1, T2, T3, T4, T5, T6, T7, T8, T9, T10, T11, T12, T13, T14, T15, T16, T17, T18, T19, T20, T21, T22, T23> JoinableTuple<(T2, T3, T4, T5, T6, T7, T8, T9, T10, T11, T12, T13, T14, T15, T16, T17, T18, T19, T20, T21, T22, T23)> for (T1,) {
    type Join = (T1, T2, T3, T4, T5, T6, T7, T8, T9, T10, T11, T12, T13, T14, T15, T16, T17, T18, T19, T20, T21, T22, T23);

    open spec fn spec_join(self, other: (T2, T3, T4, T5, T6, T7, T8, T9, T10, T11, T12, T13, T14, T15, T16, T17, T18, T19, T20, T21, T22, T23)) -> (T1, T2, T3, T4, T5, T6, T7, T8, T9, T10, T11, T12, T13, T14, T15, T16, T17, T18, T19, T20, T21, T22, T23) {
        (self.0, other.0, other.1, other.2, other.3, other.4, other.5, other.6, other.7, other.8, other.9, other.10, other.11, other.12, other.13, other.14, other.15, other.16, other.17, other.18, other.19, other.20, other.21)
    }

    fn join(self, other: (T2, T3, T4, T5, T6, T7, T8, T9, T10, T11, T12, T13, T14, T15, T16, T17, T18, T19, T20, T21, T22, T23)) -> (r: (T1, T2, T3, T4, T5, T6, T7, T8, T9, T10, T11, T12, T13, T14, T15, T16, T17, T18, T19, T20, T21, T22, T23)) {
        (self.0, other.0, other.1, other.2, other.3, other.4, other.5, other.6, other.7, other.8, other.9, other.10, other.11, other.12, other.13, other.14, other.15, other.16, other.17, other.18, other.19, other.20, other.21)
    }

    proof fn lemma_join_arity(self, other: (T2, T3, T4, T5, T6, T7, T8, T9, T10, T11, T12, T13, T14, T15, T16, T17, T18, T19, T20, T21, T22, T23)) {
    }
}

impl<T1, T2, T3, T4, T5, T6, T7, T8, T9, T10, T11, T12, T13, T14, T15, T16, T17, T18, T19, T20, T21, T22, T23> JoinableTuple<(T3, T4, T5, T6, T7, T8, T9, T10, T11, T12, T13, T14, T15, T16, T17, T18, T19, T20, T21, T22, T23)> for (T1, T2) {
    type Join = (T1, T2, T3, T4, T5, T6, T7, T8, T9, T10, T11, T12, T13, T14, T15, T16, T17, T18, T19, T20, T21, T22, T23);

    open spec fn spec_join(self, other: (T3, T4, T5, T6, T7, T8, T9, T10, T11, T12, T13, T14, T15, T16, T17, T18, T19, T20, T21, T22, T23)) -> (T1, T2, T3, T4, T5, T6, T7, T8, T9, T10, T11, T12, T13, T14, T15, T16, T17, T18, T19, T20, T21, T22, T23) {
        (self.0, self.1, other.0, other.1, other.2, other.3, other.4, other.5, other.6, other.7, other.8, other.9, other.10, other.11, other.12, other.13, other.14, other.15, other.16, other.17, other.18, other.19, other.20)
    }

    fn join(self, other: (T3, T4, T5, T6, T7, T8, T9, T10, T11, T12, T13, T14, T15, T16, T17, T18, T19, T20, T21, T22, T23)) -> (r: (T1, T2, T3, T4, T5, T6, T7, T8, T9, T10, T11, T12, T13, T14, T15, T16, T17, T18, T19, T20, T21, T22, T23)) {
        (self.0, self.1, other.0, other.1, other.2, other.3, other.4, other.5, other.6, other.7, other.8, other.9, other.10, other.11, other.12, other.13, other.14, other.15, other.16, other.17, other.18, other.19, other.20)
    }

    proof fn lemma_join_arity(self, other: (T3, T4, T5, T6, T7, T8, T9, T10, T11, T12, T13, T14, T15, T16, T17, T18, T19, T20, T21, T22, T23)) {
    }
}

impl<T1, T2, T3, T4, T5, T6, T7, T8, T9, T10, T11, T12, T13, T14, T15, T16, T17, T18, T19, T20, T21, T22, T23> JoinableTuple<(T4, T5, T6, T7, T8, T9, T10, T11, T12, T13, T14, T15, T16, T17, T18, T19, T20, T21, T22, T23)> for (T1, T2, T3) {
    type Join = (T1, T2, T3, T4, T5, T6, T7, T8, T9, T10, T11, T12, T13, T14, T15, T16, T17, T18, T19, T20, T21, T22, T23);

    open spec fn spec_join(self, other: (T4, T5, T6, T7, T8, T9, T10, T11, T12, T13, T14, T15, T16, T17, T18, T19, T20, T21, T22, T23)) -> (T1, T2, T3, T4, T5, T6, T7, T8, T9, T10, T11, T12, T13, T14, T15, T16, T17, T18, T19, T20, T21, T22, T23) {
        (self.0, self.1, self.2, other.0, other.1, other.2, other.3, other.4, other.5, other.6, other.7, other.8, other.9, other.10, other.11, other.12, other.13, other.14, other.15, other.16, other.17, other.18, other.19)
    }

    fn join(self, other: (T4, T5, T6, T7, T8, T9, T10, T11, T12, T13, T14, T15, T16, T17, T18, T19, T20, T21, T22, T23)) -> (r: (T1, T2, T3, T4, T5, T6, T7, T8, T9, T10, T11, T12, T13, T14, T15, T16, T17, T18, T19, T20, T21, T22, T23)) {
        (self.0, self.1, self.2, other.0, other.1, other.2, other.3, other.4, other.5, other.6, other.7, other.8, other.9, other.10, other.11, other.12, other.13, other.14, other.15, other.16, other.17, other.18, other.19)
    }

    proof fn lemma_join_arity(self, other: (T4, T5, T6, T7, T8, T9, T10, T11, T12, T13, T14, T15, T16, T17, T18, T19, T20, T21, T22, T23)) {
    }
}

impl<T1, T2, T3, T4, T5, T6, T7, T8, T9, T10, T11, T12, T13, T14, T15, T16, T17, T18, T19, T20, T21, T22, T23> JoinableTuple<(T5, T6, T7, T8, T9, T10, T11, T12, T13, T14, T15, T16, T17, T18, T19, T20, T21, T22, T23)> for (T1, T2, T3, T4) {
    type Join = (T1, T2, T3, T4, T5, T6, T7, T8, T9, T10, T11, T12, T13, T14, T15, T16, T17, T18, T19, T20, T21, T22, T23);

    open spec fn spec_join(self, other: (T5, T6, T7, T8, T9, T10, T11, T12, T13, T14, T15, T16, T17, T18, T19, T20, T21, T22, T23)) -> (T1, T2, T3, T4, T5, T6, T7, T8, T9, T10, T11, T12, T13, T14, T15, T16, T17, T18, T19, T20, T21, T22, T23) {
        (self.0, self.1, self.2, self.3, other.0, other.1, other.2, other.3, other.4, other.5, other.6, other.7, other.8, other.9, other.10, other.11, other.12, other.13, other.14, other.15, other.16, other.17, other.18)
    }

    fn join(self, other: (T5, T6, T7, T8, T9, T10, T11, T12, T13, T14, T15, T16, T17, T18, T19, T20, T21, T22, T23)) -> (r: (T1, T2, T3, T4, T5, T6, T7, T8, T9, T10, T11, T12, T13, T14, T15, T16, T17, T18, T19, T20, T21, T22, T23)) {
        (self.0, self.1, self.2, self.3, other.0, other.1, other.2, other.3, other.4, other.5, other.6, other.7, other.8, other.9, other.10, other.11, other.12, other.13, other.14, other.15, other.16, other.17, other.18)
    }

    proof fn lemma_join_arity(self, other: (T5, T6, T7, T8, T9, T10, T11, T12, T13, T14, T15, T16, T17, T18, T19, T20, T21, T22, T23)) {
    }
}

impl<T1, T2, T3, T4, T5, T6, T7, T8, T9, T10, T11, T12, T13, T14, T15, T16, T17, T18, T19, T20, T21, T22, T23> JoinableTuple<(T6, T7, T8, T9, T10, T11, T12, T13, T14, T15, T16, T17, T18, T19, T20, T21, T22, T23)> for (T1, T2, T3, T4, T5) {
    type Join = (T1, T2, T3, T4, T5, T6, T7, T8, T9, T10, T11, T12, T13, T14, T15, T16, T17, T18, T19, T20, T21, T22, T23);

    open spec fn spec_join(self, other: (T6, T7, T8, T9, T10, T11, T12, T13, T14, T15, T16, T17, T18, T19, T20, T21, T22, T23)) -> (T1, T2, T3, T4, T5, T6, T7, T8, T9, T10, T11, T12, T13, T14, T15, T16, T17, T18, T19, T20, T21, T22, T23) {
        (self.0, self.1, self.2, self.3, self.4, other.0, other.1, other.2, other.3, other.4, other.5, other.6, other.7, other.8, other.9, other.10, other.11, other.12, other.13, other.14, other.15, other.16, other.17)
    }

    fn join(self, other: (T6, T7, T8, T9, T10, T11, T12, T13, T14, T15, T16, T17, T18, T19, T20, T21, T22, T23)) -> (r: (T1, T2, T3, T4, T5, T6, T7, T8, T9, T10, T11, T12, T13, T14, T15, T16, T17, T18, T19, T20, T21, T22, T23)) {
        (self.0, self.1, self.2, self.3, self.4, other.0, other.1, other.2, other.3, other.4, other.5, other.6, other.7, other.8, other.9, other.10, other.11, other.12, other.13, other.14, other.15, other.16, other.17)
    }

    proof fn lemma_join_arity(self, other: (T6, T7, T8, T9, T10, T11, T12, T13, T14, T15, T16, T17, T18, T19, T20, T21, T22, T23)) {
    }
}

impl<T1, T2, T3, T4, T5, T6, T7, T8, T9, T10, T11, T12, T13, T14, T15, T16, T17, T18, T19, T20, T21, T22, T23> JoinableTuple<(T7, T8, T9, T10, T11, T12, T13, T14, T15, T16, T17, T18, T19, T20, T21, T22, T23)> for (T1, T2, T3, T4, T5, T6) {
    type Join = (T1, T2, T3, T4, T5, T6, T7, T8, T9, T10, T11, T12, T13, T14, T15, T16, T17, T18, T19, T20, T21, T22, T23);

    open spec fn spec_join(self, other: (T7, T8, T9, T10, T11, T12, T13, T14, T15, T16, T17, T18, T19, T20, T21, T22, T23)) -> (T1, T2, T3, T4, T5, T6, T7, T8, T9, T10, T11, T12, T13, T14, T15, T16, T17, T18, T19, T20, T21, T22, T23) {
        (self.0, self.1, self.2, self.3, self.4, self.5, other.0, other.1, other.2, other.3, other.4, other.5, other.6, other.7, other.8, other.9, other.10, other.11, other.12, other.13, other.14, other.15, other.16)
    }

    fn join(self, other: (T7, T8, T9, T10, T11, T12, T13, T14, T15, T16, T17, T18, T19, T20, T21, T22, T23)) -> (r: (T1, T2, T3, T4, T5, T6, T7, T8, T9, T10, T11, T12, T13, T14, T15, T16, T17, T18, T19, T20, T21, T22, T23)) {
        (self.0, self.1, self.2, self.3, self.4, self.5, other.0, other.1, other.2, other.3, other.4, other.5, other.6, other.7, other.8, other.9, other.10, other.11, other.12, other.13, other.14, other.15, other.16)
    }

    proof fn lemma_join_arity(self, other: (T7, T8, T9, T10, T11, T12, T13, T14, T15, T16, T17, T18, T19, T20, T21, T22, T23)) {
    }
}

impl<T1, T2, T3, T4, T5, T6, T7, T8, T9, T10, T11, T12, T13, T14, T15, T16, T17, T18, T19, T20, T21, T22, T23> JoinableTuple<(T8, T9, T10, T11, T12, T13, T14, T15, T16, T17, T18, T19, T20, T21, T22, T23)> for (T1, T2, T3, T4, T5, T6, T7) {
    type Join = (T1, T2, T3, T4, T5, T6, T7, T8, T9, T10, T11, T12, T13, T14, T15, T16, T17, T18, T19, T20, T21, T22, T23);

    open spec fn spec_join(self, other: (T8, T9, T10, T11, T12, T13, T14, T15, T16, T17, T18, T19, T20, T21, T22, T23)) -> (T1, T2, T3, T4, T5, T6, T7, T8, T9, T10, T11, T12, T13, T14, T15, T16, T17, T18, T19, T20, T21, T22, T23) {
        (self.0, self.1, self.2, self.3, self.4, self.5, self.6, other.0, other.1, other.2, other.3, other.4, other.5, other.6, other.7, other.8, other.9, other.10, other.11, other.12, other.13, other.14, other.15)
    }

    fn join(self, other: (T8, T9, T10, T11, T12, T13, T14, T15, T16, T17, T18, T19, T20, T21, T22, T23)) -> (r: (T1, T2, T3, T4, T5, T6, T7, T8, T9, T10, T11, T12, T13, T14, T15, T16, T17, T18, T19, T20, T21, T22, T23)) {
        (self.0, self.1, self.2, self.3, self.4, self.5, self.6, other.0, other.1, other.2, other.3, other.4, other.5, other.6, other.7, other.8, other.9, other.10, other.11, other.12, other.13, other.14, other.15)
    }

    proof fn lemma_join_arity(self, other: (T8, T9, T10, T11, T12, T13, T14, T15, T16, T17, T18, T19, T20, T21, T22, T23)) {
    }
}

impl<T1, T2, T3, T4, T5, T6, T7, T8, T9, T10, T11, T12, T13, T14, T15, T16, T17, T18, T19, T20, T21, T22, T23> JoinableTuple<(T9, T10, T11, T12, T13, T14, T15, T16, T17, T18, T19, T20, T21, T22, T23)> for (T1, T2, T3, T4, T5, T6, T7, T8) {
    type Join = (T1, T2, T3, T4, T5, T6, T7, T8, T9, T10, T11, T12, T13, T14, T15, T16, T17, T18, T19, T20, T21, T22, T23);

    open spec fn spec_join(self, other: (T9, T10, T11, T12, T13, T14, T15, T16, T17, T18, T19, T20, T21, T22, T23)) -> (T1, T2, T3, T4, T5, T6, T7, T8, T9, T10, T11, T12, T13, T14, T15, T16, T17, T18, T19, T20, T21, T22, T23) {
        (self.0, self.1, self.2, self.3, self.4, self.5, self.6, self.7, other.0, other.1, other.2, other.3, other.4, other.5, other.6, other.7, other.8, other.9, other.10, other.11, other.12, other.13, other.14)
    }

    fn join(self, other: (T9, T10, T11, T12, T13, T14, T15, T16, T17, T18, T19, T20, T21, T22, T23)) -> (r: (T1, T2, T3, T4, T5, T6, T7, T8, T9, T10, T11, T12, T13, T14, T15, T16, T17, T18, T19, T20, T21, T22, T23)) {
        (self.0, self.1, self.2, self.3, self.4, self.5, self.6, self.7, other.0, other.1, other.2, other.3, other.4, other.5, other.6, other.7, other.8, other.9, other.10, other.11, other.12, other.13, other.14)
    }

    proof fn lemma_join_arity(self, other: (T9, T10, T11, T12, T13, T14, T15, T16, T17, T18, T19, T20, T21, T22, T23)) {
    }
}

impl<T1, T2, T3, T4, T5, T6, T7, T8, T9, T10, T11, T12, T13, T14, T15, T16, T17, T18, T19, T20, T21, T22, T23> JoinableTuple<(T10, T11, T12, T13, T14, T15, T16, T17, T18, T19, T20, T21, T22, T23)> for (T1, T2, T3, T4, T5, T6, T7, T8, T9) {
    type Join = (T1, T2, T3, T4, T5, T6, T7, T8, T9, T10, T11, T12, T13, T14, T15, T16, T17, T18, T19, T20, T21, T22, T23);

    open spec fn spec_join(self, other: (T10, T11, T12, T13, T14, T15, T16, T17, T18, T19, T20, T21, T22, T23)) -> (T1, T2, T3, T4, T5, T6, T7, T8, T9, T10, T11, T12, T13, T14, T15, T16, T17, T18, T19, T20, T21, T22, T23) {
        (self.0, self.1, self.2, self.3, self.4, self.5, self.6, self.7, self.8, other.0, other.1, other.2, other.3, other.4, other.5, other.6, other.7, other.8, other.9, other.10, other.11, other.12, other.13)
    }

    fn join(self, other: (T10, T11, T12, T13, T14, T15, T16, T17, T18, T19, T20, T21, T22, T23)) -> (r: (T1, T2, T3, T4, T5, T6, T7, T8, T9, T10, T11, T12, T13, T14, T15, T16, T17, T18, T19, T20, T21, T22, T23)) {
        (self.0, self.1, self.2, self.3, self.4, self.5, self.6, self.7, self.8, other.0, other.1, other.2, other.3, other.4, other.5, other.6, other.7, other.8, other.9, other.10, other.11, other.12, other.13)
    }

    proof fn lemma_join_arity(self, other: (T10, T11, T12, T13, T14, T15, T16, T17, T18, T19, T20, T21, T22, T23)) {
    }
}

impl<T1, T2, T3, T4, T5, T6, T7, T8, T9, T10, T11, T12, T13, T14, T15, T16, T17, T18, T19, T20, T21, T22, T23> JoinableTuple<(T11, T12, T13, T14, T15, T16, T17, T18, T19, T20, T21, T22, T23)> for (T1, T2, T3, T4, T5, T6, T7, T8, T9, T10) {
    type Join = (T1, T2, T3, T4, T5, T6, T7, T8, T9, T10, T11, T12, T13, T14, T15, T16, T17, T18, T19, T20, T21, T22, T23);

    open spec fn spec_join(self, other: (T11, T12, T13, T14, T15, T16, T17, T18, T19, T20, T21, T22, T23)) -> (T1, T2, T3, T4, T5, T6, T7, T8, T9, T10, T11, T12, T13, T14, T15, T16, T17, T18, T19, T20, T21, T22, T23) {
        (self.0, self.1, self.2, self.3, self.4, self.5, self.6, self.7, self.8, self.9, other.0, other.1, other.2, other.3, other.4, other.5, other.6, other.7, other.8, other.9, other.10, other.11, other.12)
    }

    fn join(self, other: (T11, T12, T13, T14, T15, T16, T17, T18, T19, T20, T21, T22, T23)) -> (r: (T1, T2, T3, T4, T5, T6, T7, T8, T9, T10, T11, T12, T13, T14, T15, T16, T17, T18, T19, T20, T21, T22, T23)) {
        (self.0, self.1, self.2, self.3, self.4, self.5, self.6, self.7, self.8, self.9, other.0, other.1, other.2, other.3, other.4, other.5, other.6, other.7, other.8, other.9, other.10, other.11, other.12)
    }

    proof fn lemma_join_arity(self, other: (T11, T12, T13, T14, T15, T16, T17, T18, T19, T20, T21, T22, T23)) {
    }
}

impl<T1, T2, T3, T4, T5, T6, T7, T8, T9, T10, T11, T12, T13, T14, T15, T16, T17, T18, T19, T20, T21, T22, T23> JoinableTuple<(T12, T13, T14, T15, T16, T17, T18, T19, T20, T21, T22, T23)> for (T1, T2, T3, T4, T5, T6, T7, T8, T9, T10, T11) {
    type Join = (T1, T2, T3, T4, T5, T6, T7, T8, T9, T10, T11, T12, T13, T14, T15, T16, T17, T18, T19, T20, T21, T22, T23);

    open spec fn spec_join(self, other: (T12, T13, T14, T15, T16, T17, T18, T19, T20, T21, T22, T23)) -> (T1, T2, T3, T4, T5, T6, T7, T8, T9, T10, T11, T12, T13, T14, T15, T16, T17, T18, T19, T20, T21, T22, T23) {
        (self.0, self.1, self.2, self.3, self.4, self.5, self.6, self.7, self.8, self.9, self.10, other.0, other.1, other.2, other.3, other.4, other.5, other.6, other.7, other.8, other.9, other.10, other.11)
    }

    fn join(self, other: (T12, T13, T14, T15, T16, T17, T18, T19, T20, T21, T22, T23)) -> (r: (T1, T2, T3, T4, T5, T6, T7, T8, T9, T10, T11, T12, T13, T14, T15, T16, T17, T18, T19, T20, T21, T22, T23)) {
        (self.0, self.1, self.2, self.3, self.4, self.5, self.6, self.7, self.8, self.9, self.10, other.0, other.1, other.2, other.3, other.4, other.5, other.6, other.7, other.8, other.9, other.10, other.11)
    }

    proof fn lemma_join_arity(self, other: (T12, T13, T14, T15, T16, T17, T18, T19, T20, T21, T22, T23)) {
    }
}

impl<T1, T2, T3, T4, T5, T6, T7, T8, T9, T10, T11, T12, T13, T14, T15, T16, T17, T18, T19, T20, T21, T22, T23> JoinableTuple<(T13, T14, T15, T16, T17, T18, T19, T20, T21, T22, T23)> for (T1, T2, T3, T4, T5, T6, T7, T8, T9, T10, T11, T12) {
    type Join = (T1, T2, T3, T4, T5, T6, T7, T8, T9, T10, T11, T12, T13, T14, T15, T16, T17, T18, T19, T20, T21, T22, T23);

    open spec fn spec_join(self, other: (T13, T14, T15, T16, T17, T18, T19, T20, T21, T22, T23)) -> (T1, T2, T3, T4, T5, T6, T7, T8, T9, T10, T11, T12, T13, T14, T15, T16, T17, T18, T19, T20, T21, T22, T23) {
        (self.0, self.1, self.2, self.3, self.4, self.5, self.6, self.7, self.8, self.9, self.10, self.11, other.0, other.1, other.2, other.3, other.4, other.5, other.6, other.7, other.8, other.9, other.10)
    }

    fn join(self, other: (T13, T14, T15, T16, T17, T18, T19, T20, T21, T22, T23)) -> (r: (T1, T2, T3, T4, T5, T6, T7, T8, T9, T10, T11, T12, T13, T14, T15, T16, T17, T18, T19, T20, T21, T22, T23)) {
        (self.0, self.1, self.2, self.3, self.4, self.5, self.6, self.7, self.8, self.9, self.10, self.11, other.0, other.1, other.2, other.3, other.4, other.5, other.6, other.7, other.8, other.9, other.10)
    }

    proof fn lemma_join_arity(self, other: (T13, T14, T15, T16, T17, T18, T19, T20, T21, T22, T23)) {
    }
}

impl<T1, T2, T3, T4, T5, T6, T7, T8, T9, T10, T11, T12, T13, T14, T15, T16, T17, T18, T19, T20, T21, T22, T23> JoinableTuple<(T14, T15, T16, T17, T18, T19, T20, T21, T22, T23)> for (T1, T2, T3, T4, T5, T6, T7, T8, T9, T10, T11, T12, T13) {
    type Join = (T1, T2, T3, T4, T5, T6, T7, T8, T9, T10, T11, T12, T13, T14, T15, T16, T17, T18, T19, T20, T21, T22, T23);

    open spec fn spec_join(self, other: (T14, T15, T16, T17, T18, T19, T20, T21, T22, T23)) -> (T1, T2, T3, T4, T5, T6, T7, T8, T9, T10, T11, T12, T13, T14, T15, T16, T17, T18, T19, T20, T21, T22, T23) {
        (self.0, self.1, self.2, self.3, self.4, self.5, self.6, self.7, self.8, self.9, self.10, self.11, self.12, other.0, other.1, other.2, other.3, other.4, other.5, other.6, other.7, other.8, other.9)
    }

    fn join(self, other: (T14, T15, T16, T17, T18, T19, T20, T21, T22, T23)) -> (r: (T1, T2, T3, T4, T5, T6, T7, T8, T9, T10, T11, T12, T13, T14, T15, T16, T17, T18, T19, T20, T21, T22, T23)) {
        (self.0, self.1, self.2, self.3, self.4, self.5, self.6, self.7, self.8, self.9, self.10, self.11, self.12, other.0, other.1, other.2, other.3, other.4, other.5, other.6, other.7, other.8, other.9)
    }

    proof fn lemma_join_arity(self, other: (T14, T15, T16, T17, T18, T19, T20, T21, T22, T23)) {
    }
}

impl<T1, T2, T3, T4, T5, T6, T7, T8, T9, T10, T11, T12, T13, T14, T15, T16, T17, T18, T19, T20, T21, T22, T23> JoinableTuple<(T15, T16, T17, T18, T19, T20, T21, T22, T23)> for (T1, T2, T3, T4, T5, T6, T7, T8, T9, T10, T11, T12, T13, T14) {
    type Join = (T1, T2, T3, T4, T5, T6, T7, T8, T9, T10, T11, T12, T13, T14, T15, T16, T17, T18, T19, T20, T21, T22, T23);

    open spec fn spec_join(self, other: (T15, T16, T17, T18, T19, T20, T21, T22, T23)) -> (T1, T2, T3, T4, T5, T6, T7, T8, T9, T10, T11, T12, T13, T14, T15, T16, T17, T18, T19, T20, T21, T22, T23) {
        (self.0, self.1, self.2, self.3, self.4, self.5, self.6, self.7, self.8, self.9, self.10, self.11, self.12, self.13, other.0, other.1, other.2, other.3, other.4, other.5, other.6, other.7, other.8)
    }

    fn join(self, other: (T15, T16, T17, T18, T19, T20, T21, T22, T23)) -> (r: (T1, T2, T3, T4, T5, T6, T7, T8, T9, T10, T11, T12, T13, T14, T15, T16, T17, T18, T19, T20, T21, T22, T23)) {
        (self.0, self.1, self.2, self.3, self.4, self.5, self.6, self.7, self.8, self.9, self.10, self.11, self.12, self.13, other.0, other.1, other.2, other.3, other.4, other.5, other.6, other.7, other.8)
    }

    proof fn lemma_join_arity(self, other: (T15, T16, T17, T18, T19, T20, T21, T22, T23)) {
    }
}

impl<T1, T2, T3, T4, T5, T6, T7, T8, T9, T10, T11, T12, T13, T14, T15, T16, T17, T18, T19, T20, T21, T22, T23> JoinableTuple<(T16, T17, T18, T19, T20, T21, T22, T23)> for (T1, T2, T3, T4, T5, T6, T7, T8, T9, T10, T11, T12, T13, T14, T15) {
    type Join = (T1, T2, T3, T4, T5, T6, T7, T8, T9, T10, T11, T12, T13, T14, T15, T16, T17, T18, T19, T20, T21, T22, T23);

    open spec fn spec_join(self, other: (T16, T17, T18, T19, T20, T21, T22, T23)) -> (T1, T2, T3, T4, T5, T6, T7, T8, T9, T10, T11, T12, T13, T14, T15, T16, T17, T18, T19, T20, T21, T22, T23) {
        (self.0, self.1, self.2, self.3, self.4, self.5, self.6, self.7, self.8, self.9, self.10, self.11, self.12, self.13, self.14, other.0, other.1, other.2, other.3, other.4, other.5, other.6, other.7)
    }

    fn join(self, other: (T16, T17, T18, T19, T20, T21, T22, T23)) -> (r: (T1, T2, T3, T4, T5, T6, T7, T8, T9, T10, T11, T12, T13, T14, T15, T16, T17, T18, T19, T20, T21, T22, T23)) {
        (self.0, self.1, self.2, self.3, self.4, self.5, self.6, self.7, self.8, self.9, self.10, self.11, self.12, self.13, self.14, other.0, other.1, other.2, other.3, other.4, other.5, other.6, other.7)
    }

    proof fn lemma_join_arity(self, other: (T16, T17, T18, T19, T20, T21, T22, T23)) {
    }
}

impl<T1, T2, T3, T4, T5, T6, T7, T8, T9, T10, T11, T12, T13, T14, T15, T16, T17, T18, T19, T20, T21, T22, T23> JoinableTuple<(T17, T18, T19, T20, T21, T22, T23)> for (T1, T2, T3, T4, T5, T6, T7, T8, T9, T10, T11, T12, T13, T14, T15, T16) {
    type Join = (T1, T2, T3, T4, T5, T6, T7, T8, T9, T10, T11, T12, T13, T14, T15, T16, T17, T18, T19, T20, T21, T22, T23);

    open spec fn spec_join(self, other: (T17, T18, T19, T20, T21, T22, T23)) -> (T1, T2, T3, T4, T5, T6, T7, T8, T9, T10, T11, T12, T13, T14, T15, T16, T17, T18, T19, T20, T21, T22, T23) {
        (self.0, self.1, self.2, self.3, self.4, self.5, self.6, self.7, self.8, self.9, self.10, self.11, self.12, self.13, self.14, self.15, other.0, other.1, other.2, other.3, other.4, other.5, other.6)
    }

    fn join(self, other: (T17, T18, T19, T20, T21, T22, T23)) -> (r: (T1, T2, T3, T4, T5, T6, T7, T8, T9, T10, T11, T12, T13, T14, T15, T16, T17, T18, T19, T20, T21, T22, T23)) {
        (self.0, self.1, self.2, self.3, self.4, self.5, self.6, self.7, self.8, self.9, self.10, self.11, self.12, self.13, self.14, self.15, other.0, other.1, other.2, other.3, other.4, other.5, other.6)
    }

    proof fn lemma_join_arity(self, other: (T17, T18, T19, T20, T21, T22, T23)) {
    }
}

impl<T1, T2, T3, T4, T5, T6, T7, T8, T9, T10, T11, T12, T13, T14, T15, T16, T17, T18, T19, T20, T21, T22, T23> JoinableTuple<(T18, T19, T20, T21, T22, T23)> for (T1, T2, T3, T4, T5, T6, T7, T8, T9, T10, T11, T12, T13, T14, T15, T16, T17) {
    type Join = (T1, T2, T3, T4, T5, T6, T7, T8, T9, T10, T11, T12, T13, T14, T15, T16, T17, T18, T19, T20, T21, T22, T23);

    open spec fn spec_join(self, other: (T18, T19, T20, T21, T22, T23)) -> (T1, T2, T3, T4, T5, T6, T7, T8, T9, T10, T11, T12, T13, T14, T15, T16, T17, T18, T19, T20, T21, T22, T23) {
        (self.0, self.1, self.2, self.3, self.4, self.5, self.6, self.7, self.8, self.9, self.10, self.11, self.12, self.13, self.14, self.15, self.16, other.0, other.1, other.2, other.3, other.4, other.5)
    }

    fn join(self, other: (T18, T19, T20, T21, T22, T23)) -> (r: (T1, T2, T3, T4, T5, T6, T7, T8, T9, T10, T11, T12, T13, T14, T15, T16, T17, T18, T19, T20, T21, T22, T23)) {
        (self.0, self.1, self.2, self.3, self.4, self.5, self.6, self.7, self.8, self.9, self.10, self.11, self.12, self.13, self.14, self.15, self.16, other.0, other.1, other.2, other.3, other.4, other.5)
    }

    proof fn lemma_join_arity(self, other: (T18, T19, T20, T21, T22, T23)) {
    }
}

impl<T1, T2, T3, T4, T5, T6, T7, T8, T9, T10, T11, T12, T13, T14, T15, T16, T17, T18, T19, T20, T21, T22, T23> JoinableTuple<(T19, T20, T21, T22, T23)> for (T1, T2, T3, T4, T5, T6, T7, T8, T9, T10, T11, T12, T13, T14, T15, T16, T17, T18) {
    type Join = (T1, T2, T3, T4, T5, T6, T7, T8, T9, T10, T11, T12, T13, T14, T15, T16, T17, T18, T19, T20, T21, T22, T23);

    open spec fn spec_join(self, other: (T19, T20, T21, T22, T23)) -> (T1, T2, T3, T4, T5, T6, T7, T8, T9, T10, T11, T12, T13, T14, T15, T16, T17, T18, T19, T20, T21, T22, T23) {
        (self.0, self.1, self.2, self.3, self.4, self.5, self.6, self.7, self.8, self.9, self.10, self.11, self.12, self.13, self.14, self.15, self.16, self.17, other.0, other.1, other.2, other.3, other.4)
    }

    fn join(self, other: (T19, T20, T21, T22, T23)) -> (r: (T1, T2, T3, T4, T5, T6, T7, T8, T9, T10, T11, T12, T13, T14, T15, T16, T17, T18, T19, T20, T21, T22, T23)) {
        (self.0, self.1, self.2, self.3, self.4, self.5, self.6, self.7, self.8, self.9, self.10, self.11, self.12, self.13, self.14, self.15, self.16, self.17, other.0, other.1, other.2, other.3, other.4)
    }

    proof fn lemma_join_arity(self, other: (T19, T20, T21, T22, T23)) {
    }
}

impl<T1, T2, T3, T4, T5, T6, T7, T8, T9, T10, T11, T12, T13, T14, T15, T16, T17, T18, T19, T20, T21, T22, T23> JoinableTuple<(T20, T21, T22, T23)> for (T1, T2, T3, T4, T5, T6, T7, T8, T9, T10, T11, T12, T13, T14, T15, T16, T17, T18, T19) {
    type Join = (T1, T2, T3, T4, T5, T6, T7, T8, T9, T10, T11, T12, T13, T14, T15, T16, T17, T18, T19, T20, T21, T22, T23);

    open spec fn spec_join(self, other: (T20, T21, T22, T23)) -> (T1, T2, T3, T4, T5, T6, T7, T8, T9, T10, T11, T12, T13, T14, T15, T16, T17, T18, T19, T20, T21, T22, T23) {
        (self.0, self.1, self.2, self.3, self.4, self.5, self.6, self.7, self.8, self.9, self.10, self.11, self.12, self.13, self.14, self.15, self.16, self.17, self.18, other.0, other.1, other.2, other.3)
    }

    fn join(self, other: (T20, T21, T22, T23)) -> (r: (T1, T2, T3, T4, T5, T6, T7, T8, T9, T10, T11, T12, T13, T14, T15, T16, T17, T18, T19, T20, T21, T22, T23)) {
        (self.0, self.1, self.2, self.3, self.4, self.5, self.6, self.7, self.8, self.9, self.10, self.11, self.12, self.13, self.14, self.15, self.16, self.17, self.18, other.0, other.1, other.2, other.3)
    }

    proof fn lemma_join_arity(self, other: (T20, T21, T22, T23)) {
    }
}

impl<T1, T2, T3, T4, T5, T6, T7, T8, T9, T10, T11, T12, T13, T14, T15, T16, T17, T18, T19, T20, T21, T22, T23> JoinableTuple<(T21, T22, T23)> for (T1, T2, T3, T4, T5, T6, T7, T8, T9, T10, T11, T12, T13, T14, T15, T16, T17, T18, T19, T20) {
    type Join = (T1, T2, T3, T4, T5, T6, T7, T8, T9, T10, T11, T12, T13, T14, T15, T16, T17, T18, T19, T20, T21, T22, T23);

    open spec fn spec_join(self, other: (T21, T22, T23)) -> (T1, T2, T3, T4, T5, T6, T7, T8, T9, T10, T11, T12, T13, T14, T15, T16, T17, T18, T19, T20, T21, T22, T23) {
        (self.0, self.1, self.2, self.3, self.4, self.5, self.6, self.7, self.8, self.9, self.10, self.11, self.12, self.13, self.14, self.15, self.16, self.17, self.18, self.19, other.0, other.1, other.2)
    }

    fn join(self, other: (T21, T22, T23)) -> (r: (T1, T2, T3, T4, T5, T6, T7, T8, T9, T10, T11, T12, T13, T14, T15, T16, T17, T18, T19, T20, T21, T22, T23)) {
        (self.0, self.1, self.2, self.3, self.4, self.5, self.6, self.7, self.8, self.9, self.10, self.11, self.12, self.13, self.14, self.15, self.16, self.17, self.18, self.19, other.0, other.1, other.2)
    }

    proof fn lemma_join_arity(self, other: (T21, T22, T23)) {
    }
}

impl<T1, T2, T3, T4, T5, T6, T7, T8, T9, T10, T11, T12, T13, T14, T15, T16, T17, T18, T19, T20, T21, T22, T23> JoinableTuple<(T22, T23)> for (T1, T2, T3, T4, T5, T6, T7, T8, T9, T10, T11, T12, T13, T14, T15, T16, T17, T18, T19, T20, T21) {
    type Join = (T1, T2, T3, T4, T5, T6, T7, T8, T9, T10, T11, T12, T13, T14, T15, T16, T17, T18, T19, T20, T21, T22, T23);

    open spec fn spec_join(self, other: (T22, T23)) -> (T1, T2, T3, T4, T5, T6, T7, T8, T9, T10, T11, T12, T13, T14, T15, T16, T17, T18, T19, T20, T21, T22, T23) {
        (self.0, self.1, self.2, self.3, self.4, self.5, self.6, self.7, self.8, self.9, self.10, self.11, self.12, self.13, self.14, self.15, self.16, self.17, self.18, self.19, self.20, other.0, other.1)
    }

    fn join(self, other: (T22, T23)) -> (r: (T1, T2, T3, T4, T5, T6, T7, T8, T9, T10, T11, T12, T13, T14, T15, T16, T17, T18, T19, T20, T21, T22, T23)) {
        (self.0, self.1, self.2, self.3, self.4, self.5, self.6, self.7, self.8, self.9, self.10, self.11, self.12, self.13, self.14, self.15, self.16, self.17, self.18, self.19, self.20, other.0, other.1)
    }

    proof fn lemma_join_arity(self, other: (T22, T23)) {
    }
}

impl<T1, T2, T3, T4, T5, T6, T7, T8, T9, T10, T11, T12, T13, T14, T15, T16, T17, T18, T19, T20, T21, T22, T23> JoinableTuple<(T23,)> for (T1, T2, T3, T4, T5, T6, T7, T8, T9, T10, T11, T12, T13, T14, T15, T16, T17, T18, T19, T20, T21, T22) {
    type Join = (T1, T2, T3, T4, T5, T6, T7, T8, T9, T10, T11, T12, T13, T14, T15, T16, T17, T18, T19, T20, T21, T22, T23);

    open spec fn spec_join(self, other: (T23,)) -> (T1, T2, T3, T4, T5, T6, T7, T8, T9, T10, T11, T12, T13, T14, T15, T16, T17, T18, T19, T20, T21, T22, T23) {
        (self.0, self.1, self.2, self.3, self.4, self.5, self.6, self.7, self.8, self.9, self.10, self.11, self.12, self.13, self.14, self.15, self.16, self.17, self.18, self.19, self.20, self.21, other.0)
    }

    fn join(self, other: (T23,)) -> (r: (T1, T2, T3, T4, T5, T6, T7, T8, T9, T10, T11, T12, T13, T14, T15, T16, T17, T18, T19, T20, T21, T22, T23)) {
        (self.0, self.1, self.2, self.3, self.4, self.5, self.6, self.7, self.8, self.9, self.10, self.11, self.12, self.13, self.14, self.15, self.16, self.17, self.18, self.19, self.20, self.21, other.0)
    }

    proof fn lemma_join_arity(self, other: (T23,)) {
    }
}

impl<T1, T2, T3, T4, T5, T6, T7, T8, T9, T10, T11, T12, T13, T14, T15, T16, T17, T18, T19, T20, T21, T22, T23> JoinableTuple<()> for (T1, T2, T3, T4, T5, T6, T7, T8, T9, T10, T11, T12, T13, T14, T15, T16, T17, T18, T19, T20, T21, T22, T23) {
    type Join = (T1, T2, T3, T4, T5, T6, T7, T8, T9, T10, T11, T12, T13, T14, T15, T16, T17, T18, T19, T20, T21, T22, T23);

    open spec fn spec_join(self, other: ()) -> (T1, T2, T3, T4, T5, T6, T7, T8, T9, T10, T11, T12, T13, T14, T15, T16, T17, T18, T19, T20, T21, T22, T23) {
        (self.0, self.1, self.2, self.3, self.4, self.5, self.6, self.7, self.8, self.9, self.10, self.11, self.12, self.13, self.14, self.15, self.16, self.17, self.18, self.19, self.20, self.21, self.22)
    }

    fn join(self, other: ()) -> (r: (T1, T2, T3, T4, T5, T6, T7, T8, T9, T10, T11, T12, T13, T14, T15, T16, T17, T18, T19, T20, T21, T22, T23)) {
        (self.0, self.1, self.2, self.3, self.4, self.5, self.6, self.7, self.8, self.9, self.10, self.11, self.12, self.13, self.14, self.15, self.16, self.17, self.18, self.19, self.20, self.21, self.22)
    }

    proof fn lemma_join_arity(self, other: ()) {
    }
}

impl<T1, T2, T3, T4, T5, T6, T7, T8, T9, T10, T11, T12, T13, T14, T15, T16, T17, T18, T19, T20, T21, T22, T23, T24> Sealed for (T1, T2, T3, T4, T5, T6, T7, T8, T9, T10, T11, T12, T13, T14, T15, T16, T17, T18, T19, T20, T21, T22, T23, T24) {}

impl<T1, T2, T3, T4, T5, T6, T7, T8, T9, T10, T11, T12, T13, T14, T15, T16, T17, T18, T19, T20, T21, T22, T23, T24> DynTuple for (T1, T2, T3, T4, T5, T6, T7, T8, T9, T10, T11, T12, T13, T14, T15, T16, T17, T18, T19, T20, T21, T22, T23, T24) {
    open spec fn spec_arity(&self) -> nat {
        24
    }

    fn arity(&self) -> (r: usize) {
        24
    }
}

impl<T1, T2, T3, T4, T5, T6, T7, T8, T9, T10, T11, T12, T13, T14, T15, T16, T17, T18, T19, T20, T21, T22, T23, T24> Tuple for (T1, T2, T3, T4, T5, T6, T7, T8, T9, T10, T11, T12, T13, T14, T15, T16, T17, T18, T19, T20, T21, T22, T23, T24) {
    const ARITY: usize = 24;

    open spec fn spec_type_arity() -> nat {
        24
    }

    proof fn lemma_arity(&self) {
    }

    proof fn lemma_type_arity() {
    }
}

impl<T1, T2, T3, T4, T5, T6, T7, T8, T9, T10, T11, T12, T13, T14, T15, T16, T17, T18, T19, T20, T21, T22, T23, T24, T> GrowableTuple<T> for (T1, T2, T3, T4, T5, T6, T7, T8, T9, T10, T11, T12, T13, T14, T15, T16, T17, T18, T19, T20, T21, T22, T23, T24) {
    type Append = (T1, T2, T3, T4, T5, T6, T7, T8, T9, T10, T11, T12, T13, T14, T15, T16, T17, T18, T19, T20, T21, T22, T23, T24, T);

    type Prepend = (T, T1, T2, T3, T4, T5, T6, T7, T8, T9, T10, T11, T12, T13, T14, T15, T16, T17, T18, T19, T20, T21, T22, T23, T24);

    open spec fn spec_append(self, value: T) -> (T1, T2, T3, T4, T5, T6, T7, T8, T9, T10, T11, T12, T13, T14, T15, T16, T17, T18, T19, T20, T21, T22, T23, T24, T) {
        (self.0, self.1, self.2, self.3, self.4, self.5, self.6, self.7, self.8, self.9, self.10, self.11, self.12, self.13, self.14, self.15, self.16, self.17, self.18, self.19, self.20, self.21, self.22, self.23, value)
    }

    open spec fn spec_prepend(self, value: T) -> (T, T1, T2, T3, T4, T5, T6, T7, T8, T9, T10, T11, T12, T13, T14, T15, T16, T17, T18, T19, T20, T21, T22, T23, T24) {
        (value, self.0, self.1, self.2, self.3, self.4, self.5, self.6, self.7, self.8, self.9, self.10, self.11, self.12, self.13, self.14, self.15, self.16, self.17, self.18, self.19, self.20, self.21, self.22, self.23)
    }

    fn append(self, value: T) -> (r: (T1, T2, T3, T4, T5, T6, T7, T8, T9, T10, T11, T12, T13, T14, T15, T16, T17, T18, T19, T20, T21, T22, T23, T24, T)) {
        (self.0, self.1, self.2, self.3, self.4, self.5, self.6, self.7, self.8, self.9, self.10, self.11, self.12, self.13, self.14, self.15, self.16, self.17, self.18, self.19, self.20, self.21, self.22, self.23, value)
    }

    fn prepend(self, value: T) -> (r: (T, T1, T2, T3, T4, T5, T6, T7, T8, T9, T10, T11, T12, T13, T14, T15, T16, T17, T18, T19, T20, T21, T22, T23, T24)) {
        (value, self.0, self.1, self.2, self.3, self.4, self.5, self.6, self.7, self.8, self.9, self.10, self.11, self.12, self.13, self.14, self.15, self.16, self.17, self.18, self.19, self.20, self.21, self.22, self.23)
    }

    proof fn lemma_grow_arity(self, value: T) {
    }
}

impl<T1, T2, T3, T4, T5, T6, T7, T8, T9, T10, T11, T12, T13, T14, T15, T16, T17, T18, T19, T20, T21, T22, T23, T24> NonEmptyTuple for (T1, T2, T3, T4, T5, T6, T7, T8, T9, T10, T11, T12, T13, T14, T15, T16, T17, T18, T19, T20, T21, T22, T23, T24) {
    type Head = T1;

    type Tail = T24;

    type TruncateHead = (T2, T3, T4, T5, T6, T7, T8, T9, T10, T11, T12, T13, T14, T15, T16, T17, T18, T19, T20, T21, T22, T23, T24);

    type TruncateTail = (T1, T2, T3, T4, T5, T6, T7, T8, T9, T10, T11, T12, T13, T14, T15, T16, T17, T18, T19, T20, T21, T22, T23);

    open spec fn spec_head(&self) -> T1 {
        self.0
    }

    open spec fn spec_tail(&self) -> T24 {
        self.23
    }

    open spec fn spec_with_head(self, value: T1) -> (T1, T2, T3, T4, T5, T6, T7, T8, T9, T10, T11, T12, T13, T14, T15, T16, T17, T18, T19, T20, T21, T22, T23, T24) {
        (value, self.1, self.2, self.3, self.4, self.5, self.6, self.7, self.8, self.9, self.10, self.11, self.12, self.13, self.14, self.15, self.16, self.17, self.18, self.19, self.20, self.21, self.22, self.23)
    }

    open spec fn spec_with_tail(self, value: T24) -> (T1, T2, T3, T4, T5, T6, T7, T8, T9, T10, T11, T12, T13, T14, T15, T16, T17, T18, T19, T20, T21, T22, T23, T24) {
        (self.0, self.1, self.2, self.3, self.4, self.5, self.6, self.7, self.8, self.9, self.10, self.11, self.12, self.13, self.14, self.15, self.16, self.17, self.18, self.19, self.20, self.21, self.22, value)
    }

    open spec fn spec_truncate_head(self) -> (T1, (T2, T3, T4, T5, T6, T7, T8, T9, T10, T11, T12, T13, T14, T15, T16, T17, T18, T19, T20, T21, T22, T23, T24)) {
        (self.0, (self.1, self.2, self.3, self.4, self.5, self.6, self.7, self.8, self.9, self.10, self.11, self.12, self.13, self.14, self.15, self.16, self.17, self.18, self.19, self.20, self.21, self.22, self.23))
    }

    open spec fn spec_truncate_tail(self) -> ((T1, T2, T3, T4, T5, T6, T7, T8, T9, T10, T11, T12, T13, T14, T15, T16, T17, T18, T19, T20, T21, T22, T23), T24) {
        ((self.0, self.1, self.2, self.3, self.4, self.5, self.6, self.7, self.8, self.9, self.10, self.11, self.12, self.13, self.14, self.15, self.16, self.17, self.18, self.19, self.20, self.21, self.22), self.23)
    }

    fn head(&self) -> (r: &T1) {
        &self.0
    }

    fn head_mut(&mut self) -> (r: &mut T1) {
        &mut self.0
    }

    fn tail(&self) -> (r: &T24) {
        &self.23
    }

    fn tail_mut(&mut self) -> (r: &mut T24) {
        &mut self.23
    }

    fn truncate_head(self) -> (r: (T1, (T2, T3, T4, T5, T6, T7, T8, T9, T10, T11, T12, T13, T14, T15, T16, T17, T18, T19, T20, T21, T22, T23, T24))) {
        (self.0, (self.1, self.2, self.3, self.4, self.5, self.6, self.7, self.8, self.9, self.10, self.11, self.12, self.13, self.14, self.15, self.16, self.17, self.18, self.19, self.20, self.21, self.22, self.23))
    }

    fn truncate_tail(self) -> (r: ((T1, T2, T3, T4, T5, T6, T7, T8, T9, T10, T11, T12, T13, T14, T15, T16, T17, T18, T19, T20, T21, T22, T23), T24)) {
        ((self.0, self.1, self.2, self.3, self.4, self.5, self.6, self.7, self.8, self.9, self.10, self.11, self.12, self.13, self.14, self.15, self.16, self.17, self.18, self.19, self.20, self.21, self.22), self.23)
    }

    proof fn lemma_truncate_head(self) {
    }

    proof fn lemma_truncate_tail(self) {
    }
}

impl<T1, T2, T3, T4, T5, T6, T7, T8, T9, T10, T11, T12, T13, T14, T15, T16, T17, T18, T19, T20, T21, T22, T23, T24> NonUnaryTuple for (T1, T2, T3, T4, T5, T6, T7, T8, T9, T10, T11, T12, T13, T14, T15, T16, T17, T18, T19, T20, T21, T22, T23, T24) {
    type TruncateHeadTail = (T2, T3, T4, T5, T6, T7, T8, T9, T10, T11, T12, T13, T14, T15, T16, T17, T18, T19, T20, T21, T22, T23);

    open spec fn spec_truncate_head_tail(self) -> (T1, (T2, T3, T4, T5, T6, T7, T8, T9, T10, T11, T12, T13, T14, T15, T16, T17, T18, T19, T20, T21, T22, T23), T24) {
        (self.0, (self.1, self.2, self.3, self.4, self.5, self.6, self.7, self.8, self.9, self.10, self.11, self.12, self.13, self.14, self.15, self.16, self.17, self.18, self.19, self.20, self.21, self.22), self.23)
    }

    fn head_tail(&self) -> (r: (&T1, &T24)) {
        (&self.0, &self.23)
    }

    fn head_tail_mut(&mut self) -> (r: (&mut T1, &mut T24)) {
        (&mut self.0, &mut self.23)
    }

    fn truncate_head_tail(self) -> (r: (T1, (T2, T3, T4, T5, T6, T7, T8, T9, T10, T11, T12, T13, T14, T15, T16, T17, T18, T19, T20, T21, T22, T23), T24)) {
        (self.0, (self.1, self.2, self.3, self.4, self.5, self.6, self.7, self.8, self.9, self.10, self.11, self.12, self.13, self.14, self.15, self.16, self.17, self.18, self.19, self.20, self.21, self.22), self.23)
    }

    proof fn lemma_truncate_head_tail(self) {
    }
}

impl<T1, T2, T3, T4, T5, T6, T7, T8, T9, T10, T11, T12, T13, T14, T15, T16, T17, T18, T19, T20, T21, T22, T23, T24> IndexableTuple<0> for (T1, T2, T3, T4, T5, T6, T7, T8, T9, T10, T11, T12, T13, T14, T15, T16, T17, T18, T19, T20, T21, T22, T23, T24) {
    type Value = T1;

    open spec fn spec_index(&self) -> T1 {
        self.0
    }

    open spec fn spec_with_index(self, value: T1) -> (T1, T2, T3, T4, T5, T6, T7, T8, T9, T10, T11, T12, T13, T14, T15, T16, T17, T18, T19, T20, T21, T22, T23, T24) {
        (value, self.1, self.2, self.3, self.4, self.5, self.6, self.7, self.8, self.9, self.10, self.11, self.12, self.13, self.14, self.15, self.16, self.17, self.18, self.19, self.20, self.21, self.22, self.23)
    }

    fn index_ref(&self) -> (r: &T1) {
        &self.0
    }

    fn index_mut(&mut self) -> (r: &mut T1) {
        &mut self.0
    }

    fn into_index(self) -> (r: T1) {
        self.0
    }

    proof fn lemma_index_in_range(&self) {
    }
}

impl<T1, T2, T3, T4, T5, T6, T7, T8, T9, T10, T11, T12, T13, T14, T15, T16, T17, T18, T19, T20, T21, T22, T23, T24> IndexableTuple<1> for (T1, T2, T3, T4, T5, T6, T7, T8, T9, T10, T11, T12, T13, T14, T15, T16, T17, T18, T19, T20, T21, T22, T23, T24) {
    type Value = T2;

    open spec fn spec_index(&self) -> T2 {
        self.1
    }

    open spec fn spec_with_index(self, value: T2) -> (T1, T2, T3, T4, T5, T6, T7, T8, T9, T10, T11, T12, T13, T14, T15, T16, T17, T18, T19, T20, T21, T22, T23, T24) {
        (self.0, value, self.2, self.3, self.4, self.5, self.6, self.7, self.8, self.9, self.10, self.11, self.12, self.13, self.14, self.15, self.16, self.17, self.18, self.19, self.20, self.21, self.22, self.23)
    }

    fn index_ref(&self) -> (r: &T2) {
        &self.1
    }

    fn index_mut(&mut self) -> (r: &mut T2) {
        &mut self.1
    }

    fn into_index(self) -> (r: T2) {
        self.1
    }

    proof fn lemma_index_in_range(&self) {
    }
}

impl<T1, T2, T3, T4, T5, T6, T7, T8, T9, T10, T11, T12, T13, T14, T15, T16, T17, T18, T19, T20, T21, T22, T23, T24> IndexableTuple<2> for (T1, T2, T3, T4, T5, T6, T7, T8, T9, T10, T11, T12, T13, T14, T15, T16, T17, T18, T19, T20, T21, T22, T23, T24) {
    type Value = T3;

    open spec fn spec_index(&self) -> T3 {
        self.2
    }

    open spec fn spec_with_index(self, value: T3) -> (T1, T2, T3, T4, T5, T6, T7, T8, T9, T10, T11, T12, T13, T14, T15, T16, T17, T18, T19, T20, T21, T22, T23, T24) {
        (self.0, self.1, value, self.3, self.4, self.5, self.6, self.7, self.8, self.9, self.10, self.11, self.12, self.13, self.14, self.15, self.16, self.17, self.18, self.19, self.20, self.21, self.22, self.23)
    }

    fn index_ref(&self) -> (r: &T3) {
        &self.2
    }

    fn index_mut(&mut self) -> (r: &mut T3) {
        &mut self.2
    }

    fn into_index(self) -> (r: T3) {
        self.2
    }

    proof fn lemma_index_in_range(&self) {
    }
}

impl<T1, T2, T3, T4, T5, T6, T7, T8, T9, T10, T11, T12, T13, T14, T15, T16, T17, T18, T19, T20, T21, T22, T23, T24> IndexableTuple<3> for (T1, T2, T3, T4, T5, T6, T7, T8, T9, T10, T11, T12, T13, T14, T15, T16, T17, T18, T19, T20, T21, T22, T23, T24) {
    type Value = T4;

    open spec fn spec_index(&self) -> T4 {
        self.3
    }

    open spec fn spec_with_index(self, value: T4) -> (T1, T2, T3, T4, T5, T6, T7, T8, T9, T10, T11, T12, T13, T14, T15, T16, T17, T18, T19, T20, T21, T22, T23, T24) {
        (self.0, self.1, self.2, value, self.4, self.5, self.6, self.7, self.8, self.9, self.10, self.11, self.12, self.13, self.14, self.15, self.16, self.17, self.18, self.19, self.20, self.21, self.22, self.23)
    }

    fn index_ref(&self) -> (r: &T4) {
        &self.3
    }

    fn index_mut(&mut self) -> (r: &mut T4) {
        &mut self.3
    }

    fn into_index(self) -> (r: T4) {
        self.3
    }

    proof fn lemma_index_in_range(&self) {
    }
}

impl<T1, T2, T3, T4, T5, T6, T7, T8, T9, T10, T11, T12, T13, T14, T15, T16, T17, T18, T19, T20, T21, T22, T23, T24> IndexableTuple<4> for (T1, T2, T3, T4, T5, T6, T7, T8, T9, T10, T11, T12, T13, T14, T15, T16, T17, T18, T19, T20, T21, T22, T23, T24) {
    type Value = T5;

    open spec fn spec_index(&self) -> T5 {
        self.4
    }

    open spec fn spec_with_index(self, value: T5) -> (T1, T2, T3, T4, T5, T6, T7, T8, T9, T10, T11, T12, T13, T14, T15, T16, T17, T18, T19, T20, T21, T22, T23, T24) {
        (self.0, self.1, self.2, self.3, value, self.5, self.6, self.7, self.8, self.9, self.10, self.11, self.12, self.13, self.14, self.15, self.16, self.17, self.18, self.19, self.20, self.21, self.22, self.23)
    }

    fn index_ref(&self) -> (r: &T5) {
        &self.4
    }

    fn index_mut(&mut self) -> (r: &mut T5) {
        &mut self.4
    }

    fn into_index(self) -> (r: T5) {
        self.4
    }

    proof fn lemma_index_in_range(&self) {
    }
}

impl<T1, T2, T3, T4, T5, T6, T7, T8, T9, T10, T11, T12, T13, T14, T15, T16, T17, T18, T19, T20, T21, T22, T23, T24> IndexableTuple<5> for (T1, T2, T3, T4, T5, T6, T7, T8, T9, T10, T11, T12, T13, T14, T15, T16, T17, T18, T19, T20, T21, T22, T23, T24) {
    type Value = T6;

    open spec fn spec_index(&self) -> T6 {
        self.5
    }

    open spec fn spec_with_index(self, value: T6) -> (T1, T2, T3, T4, T5, T6, T7, T8, T9, T10, T11, T12, T13, T14, T15, T16, T17, T18, T19, T20, T21, T22, T23, T24) {
        (self.0, self.1, self.2, self.3, self.4, value, self.6, self.7, self.8, self.9, self.10, self.11, self.12, self.13, self.14, self.15, self.16, self.17, self.18, self.19, self.20, self.21, self.22, self.23)
    }

    fn index_ref(&self) -> (r: &T6) {
        &self.5
    }

    fn index_mut(&mut self) -> (r: &mut T6) {
        &mut self.5
    }

    fn into_index(self) -> (r: T6) {
        self.5
    }

    proof fn lemma_index_in_range(&self) {
    }
}

impl<T1, T2, T3, T4, T5, T6, T7, T8, T9, T10, T11, T12, T13, T14, T15, T16, T17, T18, T19, T20, T21, T22, T23, T24> IndexableTuple<6> for (T1, T2, T3, T4, T5, T6, T7, T8, T9, T10, T11, T12, T13, T14, T15, T16, T17, T18, T19, T20, T21, T22, T23, T24) {
    type Value = T7;

    open spec fn spec_index(&self) -> T7 {
        self.6
    }

    open spec fn spec_with_index(self, value: T7) -> (T1, T2, T3, T4, T5, T6, T7, T8, T9, T10, T11, T12, T13, T14, T15, T16, T17, T18, T19, T20, T21, T22, T23, T24) {
        (self.0, self.1, self.2, self.3, self.4, self.5, value, self.7, self.8, self.9, self.10, self.11, self.12, self.13, self.14, self.15, self.16, self.17, self.18, self.19, self.20, self.21, self.22, self.23)
    }

    fn index_ref(&self) -> (r: &T7) {
        &self.6
    }

    fn index_mut(&mut self) -> (r: &mut T7) {
        &mut self.6
    }

    fn into_index(self) -> (r: T7) {
        self.6
    }

    proof fn lemma_index_in_range(&self) {
    }
}

impl<T1, T2, T3, T4, T5, T6, T7, T8, T9, T10, T11, T12, T13, T14, T15, T16, T17, T18, T19, T20, T21, T22, T23, T24> IndexableTuple<7> for (T1, T2, T3, T4, T5, T6, T7, T8, T9, T10, T11, T12, T13, T14, T15, T16, T17, T18, T19, T20, T21, T22, T23, T24) {
    type Value = T8;

    open spec fn spec_index(&self) -> T8 {
        self.7
    }

    open spec fn spec_with_index(self, value: T8) -> (T1, T2, T3, T4, T5, T6, T7, T8, T9, T10, T11, T12, T13, T14, T15, T16, T17, T18, T19, T20, T21, T22, T23, T24) {
        (self.0, self.1, self.2, self.3, self.4, self.5, self.6, value, self.8, self.9, self.10, self.11, self.12, self.13, self.14, self.15, self.16, self.17, self.18, self.19, self.20, self.21, self.22, self.23)
    }

    fn index_ref(&self) -> (r: &T8) {
        &self.7
    }

    fn index_mut(&mut self) -> (r: &mut T8) {
        &mut self.7
    }

    fn into_index(self) -> (r: T8) {
        self.7
    }

    proof fn lemma_index_in_range(&self) {
    }
}

impl<T1, T2, T3, T4, T5, T6, T7, T8, T9, T10, T11, T12, T13, T14, T15, T16, T17, T18, T19, T20, T21, T22, T23, T24> IndexableTuple<8> for (T1, T2, T3, T4, T5, T6, T7, T8, T9, T10, T11, T12, T13, T14, T15, T16, T17, T18, T19, T20, T21, T22, T23, T24) {
    type Value = T9;

    open spec fn spec_index(&self) -> T9 {
        self.8
    }

    open spec fn spec_with_index(self, value: T9) -> (T1, T2, T3, T4, T5, T6, T7, T8, T9, T10, T11, T12, T13, T14, T15, T16, T17, T18, T19, T20, T21, T22, T23, T24) {
        (self.0, self.1, self.2, self.3, self.4, self.5, self.6, self.7, value, self.9, self.10, self.11, self.12, self.13, self.14, self.15, self.16, self.17, self.18, self.19, self.20, self.21, self.22, self.23)
    }

    fn index_ref(&self) -> (r: &T9) {
        &self.8
    }

    fn index_mut(&mut self) -> (r: &mut T9) {
        &mut self.8
    }

    fn into_index(self) -> (r: T9) {
        self.8
    }

    proof fn lemma_index_in_range(&self) {
    }
}

impl<T1, T2, T3, T4, T5, T6, T7, T8, T9, T10, T11, T12, T13, T14, T15, T16, T17, T18, T19, T20, T21, T22, T23, T24> IndexableTuple<9> for (T1, T2, T3, T4, T5, T6, T7, T8, T9, T10, T11, T12, T13, T14, T15, T16, T17, T18, T19, T20, T21, T22, T23, T24) {
    type Value = T10;

    open spec fn spec_index(&self) -> T10 {
        self.9
    }

    open spec fn spec_with_index(self, value: T10) -> (T1, T2, T3, T4, T5, T6, T7, T8, T9, T10, T11, T12, T13, T14, T15, T16, T17, T18, T19, T20, T21, T22, T23, T24) {
        (self.0, self.1, self.2, self.3, self.4, self.5, self.6, self.7, self.8, value, self.10, self.11, self.12, self.13, self.14, self.15, self.16, self.17, self.18, self.19, self.20, self.21, self.22, self.23)
    }

    fn index_ref(&self) -> (r: &T10) {
        &self.9
    }

    fn index_mut(&mut self) -> (r: &mut T10) {
        &mut self.9
    }

    fn into_index(self) -> (r: T10) {
        self.9
    }

    proof fn lemma_index_in_range(&self) {
    }
}

impl<T1, T2, T3, T4, T5, T6, T7, T8, T9, T10, T11, T12, T13, T14, T15, T16, T17, T18, T19, T20, T21, T22, T23, T24> IndexableTuple<10> for (T1, T2, T3, T4, T5, T6, T7, T8, T9, T10, T11, T12, T13, T14, T15, T16, T17, T18, T19, T20, T21, T22, T23, T24) {
    type Value = T11;

    open spec fn spec_index(&self) -> T11 {
        self.10
    }

    open spec fn spec_with_index(self, value: T11) -> (T1, T2, T3, T4, T5, T6, T7, T8, T9, T10, T11, T12, T13, T14, T15, T16, T17, T18, T19, T20, T21, T22, T23, T24) {
        (self.0, self.1, self.2, self.3, self.4, self.5, self.6, self.7, self.8, self.9, value, self.11, self.12, self.13, self.14, self.15, self.16, self.17, self.18, self.19, self.20, self.21, self.22, self.23)
    }

    fn index_ref(&self) -> (r: &T11) {
        &self.10
    }

    fn index_mut(&mut self) -> (r: &mut T11) {
        &mut self.10
    }

    fn into_index(self) -> (r: T11) {
        self.10
    }

    proof fn lemma_index_in_range(&self) {
    }
}

impl<T1, T2, T3, T4, T5, T6, T7, T8, T9, T10, T11, T12, T13, T14, T15, T16, T17, T18, T19, T20, T21, T22, T23, T24> IndexableTuple<11> for (T1, T2, T3, T4, T5, T6, T7, T8, T9, T10, T11, T12, T13, T14, T15, T16, T17, T18, T19, T20, T21, T22, T23, T24) {
    type Value = T12;

    open spec fn spec_index(&self) -> T12 {
        self.11
    }

    open spec fn spec_with_index(self, value: T12) -> (T1, T2, T3, T4, T5, T6, T7, T8, T9, T10, T11, T12, T13, T14, T15, T16, T17, T18, T19, T20, T21, T22, T23, T24) {
        (self.0, self.1, self.2, self.3, self.4, self.5, self.6, self.7, self.8, self.9, self.10, value, self.12, self.13, self.14, self.15, self.16, self.17, self.18, self.19, self.20, self.21, self.22, self.23)
    }

    fn index_ref(&self) -> (r: &T12) {
        &self.11
    }

    fn index_mut(&mut self) -> (r: &mut T12) {
        &mut self.11
    }

    fn into_index(self) -> (r: T12) {
        self.11
    }

    proof fn lemma_index_in_range(&self) {
    }
}

impl<T1, T2, T3, T4, T5, T6, T7, T8, T9, T10, T11, T12, T13, T14, T15, T16, T17, T18, T19, T20, T21, T22, T23, T24> IndexableTuple<12> for (T1, T2, T3, T4, T5, T6, T7, T8, T9, T10, T11, T12, T13, T14, T15, T16, T17, T18, T19, T20, T21, T22, T23, T24) {
    type Value = T13;

    open spec fn spec_index(&self) -> T13 {
        self.12
    }

    open spec fn spec_with_index(self, value: T13) -> (T1, T2, T3, T4, T5, T6, T7, T8, T9, T10, T11, T12, T13, T14, T15, T16, T17, T18, T19, T20, T21, T22, T23, T24) {
        (self.0, self.1, self.2, self.3, self.4, self.5, self.6, self.7, self.8, self.9, self.10, self.11, value, self.13, self.14, self.15, self.16, self.17, self.18, self.19, self.20, self.21, self.22, self.23)
    }

    fn index_ref(&self) -> (r: &T13) {
        &self.12
    }

    fn index_mut(&mut self) -> (r: &mut T13) {
        &mut self.12
    }

    fn into_index(self) -> (r: T13) {
        self.12
    }

    proof fn lemma_index_in_range(&self) {
    }
}

impl<T1, T2, T3, T4, T5, T6, T7, T8, T9, T10, T11, T12, T13, T14, T15, T16, T17, T18, T19, T20, T21, T22, T23, T24> IndexableTuple<13> for (T1, T2, T3, T4, T5, T6, T7, T8, T9, T10, T11, T12, T13, T14, T15, T16, T17, T18, T19, T20, T21, T22, T23, T24) {
    type Value = T14;

    open spec fn spec_index(&self) -> T14 {
        self.13
    }

    open spec fn spec_with_index(self, value: T14) -> (T1, T2, T3, T4, T5, T6, T7, T8, T9, T10, T11, T12, T13, T14, T15, T16, T17, T18, T19, T20, T21, T22, T23, T24) {
        (self.0, self.1, self.2, self.3, self.4, self.5, self.6, self.7, self.8, self.9, self.10, self.11, self.12, value, self.14, self.15, self.16, self.17, self.18, self.19, self.20, self.21, self.22, self.23)
    }

    fn index_ref(&self) -> (r: &T14) {
        &self.13
    }

    fn index_mut(&mut self) -> (r: &mut T14) {
        &mut self.13
    }

    fn into_index(self) -> (r: T14) {
        self.13
    }

    proof fn lemma_index_in_range(&self) {
    }
}

impl<T1, T2, T3, T4, T5, T6, T7, T8, T9, T10, T11, T12, T13, T14, T15, T16, T17, T18, T19, T20, T21, T22, T23, T24> IndexableTuple<14> for (T1, T2, T3, T4, T5, T6, T7, T8, T9, T10, T11, T12, T13, T14, T15, T16, T17, T18, T19, T20, T21, T22, T23, T24) {
    type Value = T15;

    open spec fn spec_index(&self) -> T15 {
        self.14
    }

    open spec fn spec_with_index(self, value: T15) -> (T1, T2, T3, T4, T5, T6, T7, T8, T9, T10, T11, T12, T13, T14, T15, T16, T17, T18, T19, T20, T21, T22, T23, T24) {
        (self.0, self.1, self.2, self.3, self.4, self.5, self.6, self.7, self.8, self.9, self.10, self.11, self.12, self.13, value, self.15, self.16, self.17, self.18, self.19, self.20, self.21, self.22, self.23)
    }

    fn index_ref(&self) -> (r: &T15) {
        &self.14
    }

    fn index_mut(&mut self) -> (r: &mut T15) {
        &mut self.14
    }

    fn into_index(self) -> (r: T15) {
        self.14
    }

    proof fn lemma_index_in_range(&self) {
    }
}

impl<T1, T2, T3, T4, T5, T6, T7, T8, T9, T10, T11, T12, T13, T14, T15, T16, T17, T18, T19, T20, T21, T22, T23, T24> IndexableTuple<15> for (T1, T2, T3, T4, T5, T6, T7, T8, T9, T10, T11, T12, T13, T14, T15, T16, T17, T18, T19, T20, T21, T22, T23, T24) {
    type Value = T16;

    open spec fn spec_index(&self) -> T16 {
        self.15
    }

    open spec fn spec_with_index(self, value: T16) -> (T1, T2, T3, T4, T5, T6, T7, T8, T9, T10, T11, T12, T13, T14, T15, T16, T17, T18, T19, T20, T21, T22, T23, T24) {
        (self.0, self.1, self.2, self.3, self.4, self.5, self.6, self.7, self.8, self.9, self.10, self.11, self.12, self.13, self.14, value, self.16, self.17, self.18, self.19, self.20, self.21, self.22, self.23)
    }

    fn index_ref(&self) -> (r: &T16) {
        &self.15
    }

    fn index_mut(&mut self) -> (r: &mut T16) {
        &mut self.15
    }

    fn into_index(self) -> (r: T16) {
        self.15
    }

    proof fn lemma_index_in_range(&self) {
    }
}

impl<T1, T2, T3, T4, T5, T6, T7, T8, T9, T10, T11, T12, T13, T14, T15, T16, T17, T18, T19, T20, T21, T22, T23, T24> IndexableTuple<16> for (T1, T2, T3, T4, T5, T6, T7, T8, T9, T10, T11, T12, T13, T14, T15, T16, T17, T18, T19, T20, T21, T22, T23, T24) {
    type Value = T17;

    open spec fn spec_index(&self) -> T17 {
        self.16
    }

    open spec fn spec_with_index(self, value: T17) -> (T1, T2, T3, T4, T5, T6, T7, T8, T9, T10, T11, T12, T13, T14, T15, T16, T17, T18, T19, T20, T21, T22, T23, T24) {
        (self.0, self.1, self.2, self.3, self.4, self.5, self.6, self.7, self.8, self.9, self.10, self.11, self.12, self.13, self.14, self.15, value, self.17, self.18, self.19, self.20, self.21, self.22, self.23)
    }

    fn index_ref(&self) -> (r: &T17) {
        &self.16
    }

    fn index_mut(&mut self) -> (r: &mut T17) {
        &mut self.16
    }

    fn into_index(self) -> (r: T17) {
        self.16
    }

    proof fn lemma_index_in_range(&self) {
    }
}

impl<T1, T2, T3, T4, T5, T6, T7, T8, T9, T10, T11, T12, T13, T14, T15, T16, T17, T18, T19, T20, T21, T22, T23, T24> IndexableTuple<17> for (T1, T2, T3, T4, T5, T6, T7, T8, T9, T10, T11, T12, T13, T14, T15, T16, T17, T18, T19, T20, T21, T22, T23, T24) {
    type Value = T18;

    open spec fn spec_index(&self) -> T18 {
        self.17
    }

    open spec fn spec_with_index(self, value: T18) -> (T1, T2, T3, T4, T5, T6, T7, T8, T9, T10, T11, T12, T13, T14, T15, T16, T17, T18, T19, T20, T21, T22, T23, T24) {
        (self.0, self.1, self.2, self.3, self.4, self.5, self.6, self.7, self.8, self.9, self.10, self.11, self.12, self.13, self.14, self.15, self.16, value, self.18, self.19, self.20, self.21, self.22, self.23)
    }

    fn index_ref(&self) -> (r: &T18) {
        &self.17
    }

    fn index_mut(&mut self) -> (r: &mut T18) {
        &mut self.17
    }

    fn into_index(self) -> (r: T18) {
        self.17
    }

    proof fn lemma_index_in_range(&self) {
    }
}

impl<T1, T2, T3, T4, T5, T6, T7, T8, T9, T10, T11, T12, T13, T14, T15, T16, T17, T18, T19, T20, T21, T22, T23, T24> IndexableTuple<18> for (T1, T2, T3, T4, T5, T6, T7, T8, T9, T10, T11, T12, T13, T14, T15, T16, T17, T18, T19, T20, T21, T22, T23, T24) {
    type Value = T19;

    open spec fn spec_index(&self) -> T19 {
        self.18
    }

    open spec fn spec_with_index(self, value: T19) -> (T1, T2, T3, T4, T5, T6, T7, T8, T9, T10, T11, T12, T13, T14, T15, T16, T17, T18, T19, T20, T21, T22, T23, T24) {
        (self.0, self.1, self.2, self.3, self.4, self.5, self.6, self.7, self.8, self.9, self.10, self.11, self.12, self.13, self.14, self.15, self.16, self.17, value, self.19, self.20, self.21, self.22, self.23)
    }

    fn index_ref(&self) -> (r: &T19) {
        &self.18
    }

    fn index_mut(&mut self) -> (r: &mut T19) {
        &mut self.18
    }

    fn into_index(self) -> (r: T19) {
        self.18
    }

    proof fn lemma_index_in_range(&self) {
    }
}

impl<T1, T2, T3, T4, T5, T6, T7, T8, T9, T10, T11, T12, T13, T14, T15, T16, T17, T18, T19, T20, T21, T22, T23, T24> IndexableTuple<19> for (T1, T2, T3, T4, T5, T6, T7, T8, T9, T10, T11, T12, T13, T14, T15, T16, T17, T18, T19, T20, T21, T22, T23, T24) {
    type Value = T20;

    open spec fn spec_index(&self) -> T20 {
        self.19
    }

    open spec fn spec_with_index(self, value: T20) -> (T1, T2, T3, T4, T5, T6, T7, T8, T9, T10, T11, T12, T13, T14, T15, T16, T17, T18, T19, T20, T21, T22, T23, T24) {
        (self.0, self.1, self.2, self.3, self.4, self.5, self.6, self.7, self.8, self.9, self.10, self.11, self.12, self.13, self.14, self.15, self.16, self.17, self.18, value, self.20, self.21, self.22, self.23)
    }

    fn index_ref(&self) -> (r: &T20) {
        &self.19
    }

    fn index_mut(&mut self) -> (r: &mut T20) {
        &mut self.19
    }

    fn into_index(self) -> (r: T20) {
        self.19
    }

    proof fn lemma_index_in_range(&self) {
    }
}

impl<T1, T2, T3, T4, T5, T6, T7, T8, T9, T10, T11, T12, T13, T14, T15, T16, T17, T18, T19, T20, T21, T22, T23, T24> IndexableTuple<20> for (T1, T2, T3, T4, T5, T6, T7, T8, T9, T10, T11, T12, T13, T14, T15, T16, T17, T18, T19, T20, T21, T22, T23, T24) {
    type Value = T21;

    open spec fn spec_index(&self) -> T21 {
        self.20
    }

    open spec fn spec_with_index(self, value: T21) -> (T1, T2, T3, T4, T5, T6, T7, T8, T9, T10, T11, T12, T13, T14, T15, T16, T17, T18, T19, T20, T21, T22, T23, T24) {
        (self.0, self.1, self.2, self.3, self.4, self.5, self.6, self.7, self.8, self.9, self.10, self.11, self.12, self.13, self.14, self.15, self.16, self.17, self.18, self.19, value, self.21, self.22, self.23)
    }

    fn index_ref(&self) -> (r: &T21) {
        &self.20
    }

    fn index_mut(&mut self) -> (r: &mut T21) {
        &mut self.20
    }

    fn into_index(self) -> (r: T21) {
        self.20
    }

    proof fn lemma_index_in_range(&self) {
    }
}

impl<T1, T2, T3, T4, T5, T6, T7, T8, T9, T10, T11, T12, T13, T14, T15, T16, T17, T18, T19, T20, T21, T22, T23, T24> IndexableTuple<21> for (T1, T2, T3, T4, T5, T6, T7, T8, T9, T10, T11, T12, T13, T14, T15, T16, T17, T18, T19, T20, T21, T22, T23, T24) {
    type Value = T22;

    open spec fn spec_index(&self) -> T22 {
        self.21
    }

    open spec fn spec_with_index(self, value: T22) -> (T1, T2, T3, T4, T5, T6, T7, T8, T9, T10, T11, T12, T13, T14, T15, T16, T17, T18, T19, T20, T21, T22, T23, T24) {
        (self.0, self.1, self.2, self.3, self.4, self.5, self.6, self.7, self.8, self.9, self.10, self.11, self.12, self.13, self.14, self.15, self.16, self.17, self.18, self.19, self.20, value, self.22, self.23)
    }

    fn index_ref(&self) -> (r: &T22) {
        &self.21
    }

    fn index_mut(&mut self) -> (r: &mut T22) {
        &mut self.21
    }

    fn into_index(self) -> (r: T22) {
        self.21
    }

    proof fn lemma_index_in_range(&self) {
    }
}

impl<T1, T2, T3, T4, T5, T6, T7, T8, T9, T10, T11, T12, T13, T14, T15, T16, T17, T18, T19, T20, T21, T22, T23, T24> IndexableTuple<22> for (T1, T2, T3, T4, T5, T6, T7, T8, T9, T10, T11, T12, T13, T14, T15, T16, T17, T18, T19, T20, T21, T22, T23, T24) {
    type Value = T23;

    open spec fn spec_index(&self) -> T23 {
        self.22
    }

    open spec fn spec_with_index(self, value: T23) -> (T1, T2, T3, T4, T5, T6, T7, T8, T9, T10, T11, T12, T13, T14, T15, T16, T17, T18, T19, T20, T21, T22, T23, T24) {
        (self.0, self.1, self.2, self.3, self.4, self.5, self.6, self.7, self.8, self.9, self.10, self.11, self.12, self.13, self.14, self.15, self.16, self.17, self.18, self.19, self.20, self.21, value, self.23)
    }

    fn index_ref(&self) -> (r: &T23) {
        &self.22
    }

    fn index_mut(&mut self) -> (r: &mut T23) {
        &mut self.22
    }

    fn into_index(self) -> (r: T23) {
        self.22
    }

    proof fn lemma_index_in_range(&self) {
    }
}

impl<T1, T2, T3, T4, T5, T6, T7, T8, T9, T10, T11, T12, T13, T14, T15, T16, T17, T18, T19, T20, T21, T22, T23, T24> IndexableTuple<23> for (T1, T2, T3, T4, T5, T6, T7, T8, T9, T10, T11, T12, T13, T14, T15, T16, T17, T18, T19, T20, T21, T22, T23, T24) {
    type Value = T24;

    open spec fn spec_index(&self) -> T24 {
        self.23
    }

    open spec fn spec_with_index(self, value: T24) -> (T1, T2, T3, T4, T5, T6, T7, T8, T9, T10, T11, T12, T13, T14, T15, T16, T17, T18, T19, T20, T21, T22, T23, T24) {
        (self.0, self.1, self.2, self.3, self.4, self.5, self.6, self.7, self.8, self.9, self.10, self.11, self.12, self.13, self.14, self.15, self.16, self.17, self.18, self.19, self.20, self.21, self.22, value)
    }

    fn index_ref(&self) -> (r: &T24) {
        &self.23
    }

    fn index_mut(&mut self) -> (r: &mut T24) {
        &mut self.23
    }

    fn into_index(self) -> (r: T24) {
        self.23
    }

    proof fn lemma_index_in_range(&self) {
    }
}

impl<T1, T2, T3, T4, T5, T6, T7, T8, T9, T10, T11, T12, T13, T14, T15, T16, T17, T18, T19, T20, T21, T22, T23, T24> JoinableTuple<(T1, T2, T3, T4, T5, T6, T7, T8, T9, T10, T11, T12, T13, T14, T15, T16, T17, T18, T19, T20, T21, T22, T23, T24)> for () {
    type Join = (T1, T2, T3, T4, T5, T6, T7, T8, T9, T10, T11, T12, T13, T14, T15, T16, T17, T18, T19, T20, T21, T22, T23, T24);

    open spec fn spec_join(self, other: (T1, T2, T3, T4, T5, T6, T7, T8, T9, T10, T11, T12, T13, T14, T15, T16, T17, T18, T19, T20, T21, T22, T23, T24)) -> (T1, T2, T3, T4, T5, T6, T7, T8, T9, T10, T11, T12, T13, T14, T15, T16, T17, T18, T19, T20, T21, T22, T23, T24) {
        (other.0, other.1, other.2, other.3, other.4, other.5, other.6, other.7, other.8, other.9, other.10, other.11, other.12, other.13, other.14, other.15, other.16, other.17, other.18, other.19, other.20, other.21, other.22, other.23)
    }

    fn join(self, other: (T1, T2, T3, T4, T5, T6, T7, T8, T9, T10, T11, T12, T13, T14, T15, T16, T17, T18, T19, T20, T21, T22, T23, T24)) -> (r: (T1, T2, T3, T4, T5, T6, T7, T8, T9, T10, T11, T12, T13, T14, T15, T16, T17, T18, T19, T20, T21, T22, T23, T24)) {
        (other.0, other.1, other.2, other.3, other.4, other.5, other.6, other.7, other.8, other.9, other.10, other.11, other.12, other.13, other.14, other.15, other.16, other.17, other.18, other.19, other.20, other.21, other.22, other.23)
    }

    proof fn lemma_join_arity(self, other: (T1, T2, T3, T4, T5, T6, T7, T8, T9, T10, T11, T12, T13, T14, T15, T16, T17, T18, T19, T20, T21, T22, T23, T24)) {
    }
}

impl<T1, T2, T3, T4, T5, T6, T7, T8, T9, T10, T11, T12, T13, T14, T15, T16, T17, T18, T19, T20, T21, T22, T23, T24> JoinableTuple<(T2, T3, T4, T5, T6, T7, T8, T9, T10, T11, T12, T13, T14, T15, T16, T17, T18, T19, T20, T21, T22, T23, T24)> for (T1,) {
    type Join = (T1, T2, T3, T4, T5, T6, T7, T8, T9, T10, T11, T12, T13, T14, T15, T16, T17, T18, T19, T20, T21, T22, T23, T24);

    open spec fn spec_join(self, other: (T2, T3, T4, T5, T6, T7, T8, T9, T10, T11, T12, T13, T14, T15, T16, T17, T18, T19, T20, T21, T22, T23, T24)) -> (T1, T2, T3, T4, T5, T6, T7, T8, T9, T10, T11, T12, T13, T14, T15, T16, T17, T18, T19, T20, T21, T22, T23, T24) {
        (self.0, other.0, other.1, other.2, other.3, other.4, other.5, other.6, other.7, other.8, other.9, other.10, other.11, other.12, other.13, other.14, other.15, other.16, other.17, other.18, other.19, other.20, other.21, other.22)
    }

    fn join(self, other: (T2, T3, T4, T5, T6, T7, T8, T9, T10, T11, T12, T13, T14, T15, T16, T17, T18, T19, T20, T21, T22, T23, T24)) -> (r: (T1, T2, T3, T4, T5, T6, T7, T8, T9, T10, T11, T12, T13, T14, T15, T16, T17, T18, T19, T20, T21, T22, T23, T24)) {
        (self.0, other.0, other.1, other.2, other.3, other.4, other.5, other.6, other.7, other.8, other.9, other.10, other.11, other.12, other.13, other.14, other.15, other.16, other.17, other.18, other.19, other.20, other.21, other.22)
    }

    proof fn lemma_join_arity(self, other: (T2, T3, T4, T5, T6, T7, T8, T9, T10, T11, T12, T13, T14, T15, T16, T17, T18, T19, T20, T21, T22, T23, T24)) {
    }
}

impl<T1, T2, T3, T4, T5, T6, T7, T8, T9, T10, T11, T12, T13, T14, T15, T16, T17, T18, T19, T20, T21, T22, T23, T24> JoinableTuple<(T3, T4, T5, T6, T7, T8, T9, T10, T11, T12, T13, T14, T15, T16, T17, T18, T19, T20, T21, T22, T23, T24)> for (T1, T2) {
    type Join = (T1, T2, T3, T4, T5, T6, T7, T8, T9, T10, T11, T12, T13, T14, T15, T16, T17, T18, T19, T20, T21, T22, T23, T24);

    open spec fn spec_join(self, other: (T3, T4, T5, T6, T7, T8, T9, T10, T11, T12, T13, T14, T15, T16, T17, T18, T19, T20, T21, T22, T23, T24)) -> (T1, T2, T3, T4, T5, T6, T7, T8, T9, T10, T11, T12, T13, T14, T15, T16, T17, T18, T19, T20, T21, T22, T23, T24) {
        (self.0, self.1, other.0, other.1, other.2, other.3, other.4, other.5, other.6, other.7, other.8, other.9, other.10, other.11, other.12, other.13, other.14, other.15, other.16, other.17, other.18, other.19, other.20, other.21)
    }

    fn join(self, other: (T3, T4, T5, T6, T7, T8, T9, T10, T11, T12, T13, T14, T15, T16, T17, T18, T19, T20, T21, T22, T23, T24)) -> (r: (T1, T2, T3, T4, T5, T6, T7, T8, T9, T10, T11, T12, T13, T14, T15, T16, T17, T18, T19, T20, T21, T22, T23, T24)) {
        (self.0, self.1, other.0, other.1, other.2, other.3, other.4, other.5, other.6, other.7, other.8, other.9, other.10, other.11, other.12, other.13, other.14, other.15, other.16, other.17, other.18, other.19, other.20, other.21)
    }

    proof fn lemma_join_arity(self, other: (T3, T4, T5, T6, T7, T8, T9, T10, T11, T12, T13, T14, T15, T16, T17, T18, T19, T20, T21, T22, T23, T24)) {
    }
}

impl<T1, T2, T3, T4, T5, T6, T7, T8, T9, T10, T11, T12, T13, T14, T15, T16, T17, T18, T19, T20, T21, T22, T23, T24> JoinableTuple<(T4, T5, T6, T7, T8, T9, T10, T11, T12, T13, T14, T15, T16, T17, T18, T19, T20, T21, T22, T23, T24)> for (T1, T2, T3) {
    type Join = (T1, T2, T3, T4, T5, T6, T7, T8, T9, T10, T11, T12, T13, T14, T15, T16, T17, T18, T19, T20, T21, T22, T23, T24);

    open spec fn spec_join(self, other: (T4, T5, T6, T7, T8, T9, T10, T11, T12, T13, T14, T15, T16, T17, T18, T19, T20, T21, T22, T23, T24)) -> (T1, T2, T3, T4, T5, T6, T7, T8, T9, T10, T11, T12, T13, T14, T15, T16, T17, T18, T19, T20, T21, T22, T23, T24) {
        (self.0, self.1, self.2, other.0, other.1, other.2, other.3, other.4, other.5, other.6, other.7, other.8, other.9, other.10, other.11, other.12, other.13, other.14, other.15, other.16, other.17, other.18, other.19, other.20)
    }

    fn join(self, other: (T4, T5, T6, T7, T8, T9, T10, T11, T12, T13, T14, T15, T16, T17, T18, T19, T20, T21, T22, T23, T24)) -> (r: (T1, T2, T3, T4, T5, T6, T7, T8, T9, T10, T11, T12, T13, T14, T15, T16, T17, T18, T19, T20, T21, T22, T23, T24)) {
        (self.0, self.1, self.2, other.0, other.1, other.2, other.3, other.4, other.5, other.6, other.7, other.8, other.9, other.10, other.11, other.12, other.13, other.14, other.15, other.16, other.17, other.18, other.19, other.20)
    }

    proof fn lemma_join_arity(self, other: (T4, T5, T6, T7, T8, T9, T10, T11, T12, T13, T14, T15, T16, T17, T18, T19, T20, T21, T22, T23, T24)) {
    }
}

impl<T1, T2, T3, T4, T5, T6, T7, T8, T9, T10, T11, T12, T13, T14, T15, T16, T17, T18, T19, T20, T21, T22, T23, T24> JoinableTuple<(T5, T6, T7, T8, T9, T10, T11, T12, T13, T14, T15, T16, T17, T18, T19, T20, T21, T22, T23, T24)> for (T1, T2, T3, T4) {
    type Join = (T1, T2, T3, T4, T5, T6, T7, T8, T9, T10, T11, T12, T13, T14, T15, T16, T17, T18, T19, T20, T21, T22, T23, T24);

    open spec fn spec_join(self, other: (T5, T6, T7, T8, T9, T10, T11, T12, T13, T14, T15, T16, T17, T18, T19, T20, T21, T22, T23, T24)) -> (T1, T2, T3, T4, T5, T6, T7, T8, T9, T10, T11, T12, T13, T14, T15, T16, T17, T18, T19, T20, T21, T22, T23, T24) {
        (self.0, self.1, self.2, self.3, other.0, other.1, other.2, other.3, other.4, other.5, other.6, other.7, other.8, other.9, other.10, other.11, other.12, other.13, other.14, other.15, other.16, other.17, other.18, other.19)
    }

    fn join(self, other: (T5, T6, T7, T8, T9, T10, T11, T12, T13, T14, T15, T16, T17, T18, T19, T20, T21, T22, T23, T24)) -> (r: (T1, T2, T3, T4, T5, T6, T7, T8, T9, T10, T11, T12, T13, T14, T15, T16, T17, T18, T19, T20, T21, T22, T23, T24)) {
        (self.0, self.1, self.2, self.3, other.0, other.1, other.2, other.3, other.4, other.5, other.6, other.7, other.8, other.9, other.10, other.11, other.12, other.13, other.14, other.15, other.16, other.17, other.18, other.19)
    }

    proof fn lemma_join_arity(self, other: (T5, T6, T7, T8, T9, T10, T11, T12, T13, T14, T15, T16, T17, T18, T19, T20, T21, T22, T23, T24)) {
    }
}

impl<T1, T2, T3, T4, T5, T6, T7, T8, T9, T10, T11, T12, T13, T14, T15, T16, T17, T18, T19, T20, T21, T22, T23, T24> JoinableTuple<(T6, T7, T8, T9, T10, T11, T12, T13, T14, T15, T16, T17, T18, T19, T20, T21, T22, T23, T24)> for (T1, T2, T3, T4, T5) {
    type Join = (T1, T2, T3, T4, T5, T6, T7, T8, T9, T10, T11, T12, T13, T14, T15, T16, T17, T18, T19, T20, T21, T22, T23, T24);

    open spec fn spec_join(self, other: (T6, T7, T8, T9, T10, T11, T12, T13, T14, T15, T16, T17, T18, T19, T20, T21, T22, T23, T24)) -> (T1, T2, T3, T4, T5, T6, T7, T8, T9, T10, T11, T12, T13, T14, T15, T16, T17, T18, T19, T20, T21, T22, T23, T24) {
        (self.0, self.1, self.2, self.3, self.4, other.0, other.1, other.2, other.3, other.4, other.5, other.6, other.7, other.8, other.9, other.10, other.11, other.12, other.13, other.14, other.15, other.16, other.17, other.18)
    }

    fn join(self, other: (T6, T7, T8, T9, T10, T11, T12, T13, T14, T15, T16, T17, T18, T19, T20, T21, T22, T23, T24)) -> (r: (T1, T2, T3, T4, T5, T6, T7, T8, T9, T10, T11, T12, T13, T14, T15, T16, T17, T18, T19, T20, T21, T22, T23, T24)) {
        (self.0, self.1, self.2, self.3, self.4, other.0, other.1, other.2, other.3, other.4, other.5, other.6, other.7, other.8, other.9, other.10, other.11, other.12, other.13, other.14, other.15, other.16, other.17, other.18)
    }

    proof fn lemma_join_arity(self, other: (T6, T7, T8, T9, T10, T11, T12, T13, T14, T15, T16, T17, T18, T19, T20, T21, T22, T23, T24)) {
    }
}

impl<T1, T2, T3, T4, T5, T6, T7, T8, T9, T10, T11, T12, T13, T14, T15, T16, T17, T18, T19, T20, T21, T22, T23, T24> JoinableTuple<(T7, T8, T9, T10, T11, T12, T13, T14, T15, T16, T17, T18, T19, T20, T21, T22, T23, T24)> for (T1, T2, T3, T4, T5, T6) {
    type Join = (T1, T2, T3, T4, T5, T6, T7, T8, T9, T10, T11, T12, T13, T14, T15, T16, T17, T18, T19, T20, T21, T22, T23, T24);

    open spec fn spec_join(self, other: (T7, T8, T9, T10, T11, T12, T13, T14, T15, T16, T17, T18, T19, T20, T21, T22, T23, T24)) -> (T1, T2, T3, T4, T5, T6, T7, T8, T9, T10, T11, T12, T13, T14, T15, T16, T17, T18, T19, T20, T21, T22, T23, T24) {
        (self.0, self.1, self.2, self.3, self.4, self.5, other.0, other.1, other.2, other.3, other.4, other.5, other.6, other.7, other.8, other.9, other.10, other.11, other.12, other.13, other.14, other.15, other.16, other.17)
    }

    fn join(self, other: (T7, T8, T9, T10, T11, T12, T13, T14, T15, T16, T17, T18, T19, T20, T21, T22, T23, T24)) -> (r: (T1, T2, T3, T4, T5, T6, T7, T8, T9, T10, T11, T12, T13, T14, T15, T16, T17, T18, T19, T20, T21, T22, T23, T24)) {
        (self.0, self.1, self.2, self.3, self.4, self.5, other.0, other.1, other.2, other.3, other.4, other.5, other.6, other.7, other.8, other.9, other.10, other.11, other.12, other.13, other.14, other.15, other.16, other.17)
    }

    proof fn lemma_join_arity(self, other: (T7, T8, T9, T10, T11, T12, T13, T14, T15, T16, T17, T18, T19, T20, T21, T22, T23, T24)) {
    }
}

impl<T1, T2, T3, T4, T5, T6, T7, T8, T9, T10, T11, T12, T13, T14, T15, T16, T17, T18, T19, T20, T21, T22, T23, T24> JoinableTuple<(T8, T9, T10, T11, T12, T13, T14, T15, T16, T17, T18, T19, T20, T21, T22, T23, T24)> for (T1, T2, T3, T4, T5, T6, T7) {
    type Join = (T1, T2, T3, T4, T5, T6, T7, T8, T9, T10, T11, T12, T13, T14, T15, T16, T17, T18, T19, T20, T21, T22, T23, T24);

    open spec fn spec_join(self, other: (T8, T9, T10, T11, T12, T13, T14, T15, T16, T17, T18, T19, T20, T21, T22, T23, T24)) -> (T1, T2, T3, T4, T5, T6, T7, T8, T9, T10, T11, T12, T13, T14, T15, T16, T17, T18, T19, T20, T21, T22, T23, T24) {
        (self.0, self.1, self.2, self.3, self.4, self.5, self.6, other.0, other.1, other.2, other.3, other.4, other.5, other.6, other.7, other.8, other.9, other.10, other.11, other.12, other.13, other.14, other.15, other.16)
    }

    fn join(self, other: (T8, T9, T10, T11, T12, T13, T14, T15, T16, T17, T18, T19, T20, T21, T22, T23, T24)) -> (r: (T1, T2, T3, T4, T5, T6, T7, T8, T9, T10, T11, T12, T13, T14, T15, T16, T17, T18, T19, T20, T21, T22, T23, T24)) {
        (self.0, self.1, self.2, self.3, self.4, self.5, self.6, other.0, other.1, other.2, other.3, other.4, other.5, other.6, other.7, other.8, other.9, other.10, other.11, other.12, other.13, other.14, other.15, other.16)
    }

    proof fn lemma_join_arity(self, other: (T8, T9, T10, T11, T12, T13, T14, T15, T16, T17, T18, T19, T20, T21, T22, T23, T24)) {
    }
}

impl<T1, T2, T3, T4, T5, T6, T7, T8, T9, T10, T11, T12, T13, T14, T15, T16, T17, T18, T19, T20, T21, T22, T23, T24> JoinableTuple<(T9, T10, T11, T12, T13, T14, T15, T16, T17, T18, T19, T20, T21, T22, T23, T24)> for (T1, T2, T3, T4, T5, T6, T7, T8) {
    type Join = (T1, T2, T3, T4, T5, T6, T7, T8, T9, T10, T11, T12, T13, T14, T15, T16, T17, T18, T19, T20, T21, T22, T23, T24);

    open spec fn spec_join(self, other: (T9, T10, T11, T12, T13, T14, T15, T16, T17, T18, T19, T20, T21, T22, T23, T24)) -> (T1, T2, T3, T4, T5, T6, T7, T8, T9, T10, T11, T12, T13, T14, T15, T16, T17, T18, T19, T20, T21, T22, T23, T24) {
        (self.0, self.1, self.2, self.3, self.4, self.5, self.6, self.7, other.0, other.1, other.2, other.3, other.4, other.5, other.6, other.7, other.8, other.9, other.10, other.11, other.12, other.13, other.14, other.15)
    }

    fn join(self, other: (T9, T10, T11, T12, T13, T14, T15, T16, T17, T18, T19, T20, T21, T22, T23, T24)) -> (r: (T1, T2, T3, T4, T5, T6, T7, T8, T9, T10, T11, T12, T13, T14, T15, T16, T17, T18, T19, T20, T21, T22, T23, T24)) {
        (self.0, self.1, self.2, self.3, self.4, self.5, self.6, self.7, other.0, other.1, other.2, other.3, other.4, other.5, other.6, other.7, other.8, other.9, other.10, other.11, other.12, other.13, other.14, other.15)
    }

    proof fn lemma_join_arity(self, other: (T9, T10, T11, T12, T13, T14, T15, T16, T17, T18, T19, T20, T21, T22, T23, T24)) {
    }
}

impl<T1, T2, T3, T4, T5, T6, T7, T8, T9, T10, T11, T12, T13, T14, T15, T16, T17, T18, T19, T20, T21, T22, T23, T24> JoinableTuple<(T10, T11, T12, T13, T14, T15, T16, T17, T18, T19, T20, T21, T22, T23, T24)> for (T1, T2, T3, T4, T5, T6, T7, T8, T9) {
    type Join = (T1, T2, T3, T4, T5, T6, T7, T8, T9, T10, T11, T12, T13, T14, T15, T16, T17, T18, T19, T20, T21, T22, T23, T24);

    open spec fn spec_join(self, other: (T10, T11, T12, T13, T14, T15, T16, T17, T18, T19, T20, T21, T22, T23, T24)) -> (T1, T2, T3, T4, T5, T6, T7, T8, T9, T10, T11, T12, T13, T14, T15, T16, T17, T18, T19, T20, T21, T22, T23, T24) {
        (self.0, self.1, self.2, self.3, self.4, self.5, self.6, self.7, self.8, other.0, other.1, other.2, other.3, other.4, other.5, other.6, other.7, other.8, other.9, other.10, other.11, other.12, other.13, other.14)
    }

    fn join(self, other: (T10, T11, T12, T13, T14, T15, T16, T17, T18, T19, T20, T21, T22, T23, T24)) -> (r: (T1, T2, T3, T4, T5, T6, T7, T8, T9, T10, T11, T12, T13, T14, T15, T16, T17, T18, T19, T20, T21, T22, T23, T24)) {
        (self.0, self.1, self.2, self.3, self.4, self.5, self.6, self.7, self.8, other.0, other.1, other.2, other.3, other.4, other.5, other.6, other.7, other.8, other.9, other.10, other.11, other.12, other.13, other.14)
    }

    proof fn lemma_join_arity(self, other: (T10, T11, T12, T13, T14, T15, T16, T17, T18, T19, T20, T21, T22, T23, T24)) {
    }
}

impl<T1, T2, T3, T4, T5, T6, T7, T8, T9, T10, T11, T12, T13, T14, T15, T16, T17, T18, T19, T20, T21, T22, T23, T24> JoinableTuple<(T11, T12, T13, T14, T15, T16, T17, T18, T19, T20, T21, T22, T23, T24)> for (T1, T2, T3, T4, T5, T6, T7, T8, T9, T10) {
    type Join = (T1, T2, T3, T4, T5, T6, T7, T8, T9, T10, T11, T12, T13, T14, T15, T16, T17, T18, T19, T20, T21, T22, T23, T24);

    open spec fn spec_join(self, other: (T11, T12, T13, T14, T15, T16, T17, T18, T19, T20, T21, T22, T23, T24)) -> (T1, T2, T3, T4, T5, T6, T7, T8, T9, T10, T11, T12, T13, T14, T15, T16, T17, T18, T19, T20, T21, T22, T23, T24) {
        (self.0, self.1, self.2, self.3, self.4, self.5, self.6, self.7, self.8, self.9, other.0, other.1, other.2, other.3, other.4, other.5, other.6, other.7, other.8, other.9, other.10, other.11, other.12, other.13)
    }

    fn join(self, other: (T11, T12, T13, T14, T15, T16, T17, T18, T19, T20, T21, T22, T23, T24)) -> (r: (T1, T2, T3, T4, T5, T6, T7, T8, T9, T10, T11, T12, T13, T14, T15, T16, T17, T18, T19, T20, T21, T22, T23, T24)) {
        (self.0, self.1, self.2, self.3, self.4, self.5, self.6, self.7, self.8, self.9, other.0, other.1, other.2, other.3, other.4, other.5, other.6, other.7, other.8, other.9, other.10, other.11, other.12, other.13)
    }

    proof fn lemma_join_arity(self, other: (T11, T12, T13, T14, T15, T16, T17, T18, T19, T20, T21, T22, T23, T24)) {
    }
}

impl<T1, T2, T3, T4, T5, T6, T7, T8, T9, T10, T11, T12, T13, T14, T15, T16, T17, T18, T19, T20, T21, T22, T23, T24> JoinableTuple<(T12, T13, T14, T15, T16, T17, T18, T19, T20, T21, T22, T23, T24)> for (T1, T2, T3, T4, T5, T6, T7, T8, T9, T10, T11) {
    type Join = (T1, T2, T3, T4, T5, T6, T7, T8, T9, T10, T11, T12, T13, T14, T15, T16, T17, T18, T19, T20, T21, T22, T23, T24);

    open spec fn spec_join(self, other: (T12, T13, T14, T15, T16, T17, T18, T19, T20, T21, T22, T23, T24)) -> (T1, T2, T3, T4, T5, T6, T7, T8, T9, T10, T11, T12, T13, T14, T15, T16, T17, T18, T19, T20, T21, T22, T23, T24) {
        (self.0, self.1, self.2, self.3, self.4, self.5, self.6, self.7, self.8, self.9, self.10, other.0, other.1, other.2, other.3, other.4, other.5, other.6, other.7, other.8, other.9, other.10, other.11, other.12)
    }

    fn join(self, other: (T12, T13, T14, T15, T16, T17, T18, T19, T20, T21, T22, T23, T24)) -> (r: (T1, T2, T3, T4, T5, T6, T7, T8, T9, T10, T11, T12, T13, T14, T15, T16, T17, T18, T19, T20, T21, T22, T23, T24)) {
        (self.0, self.1, self.2, self.3, self.4, self.5, self.6, self.7, self.8, self.9, self.10, other.0, other.1, other.2, other.3, other.4, other.5, other.6, other.7, other.8, other.9, other.10, other.11, other.12)
    }

    proof fn lemma_join_arity(self, other: (T12, T13, T14, T15, T16, T17, T18, T19, T20, T21, T22, T23, T24)) {
    }
}

impl<T1, T2, T3, T4, T5, T6, T7, T8, T9, T10, T11, T12, T13, T14, T15, T16, T17, T18, T19, T20, T21, T22, T23, T24> JoinableTuple<(T13, T14, T15, T16, T17, T18, T19, T20, T21, T22, T23, T24)> for (T1, T2, T3, T4, T5, T6, T7, T8, T9, T10, T11, T12) {
    type Join = (T1, T2, T3, T4, T5, T6, T7, T8, T9, T10, T11, T12, T13, T14, T15, T16, T17, T18, T19, T20, T21, T22, T23, T24);

    open spec fn spec_join(self, other: (T13, T14, T15, T16, T17, T18, T19, T20, T21, T22, T23, T24)) -> (T1, T2, T3, T4, T5, T6, T7, T8, T9, T10, T11, T12, T13, T14, T15, T16, T17, T18, T19, T20, T21, T22, T23, T24) {
        (self.0, self.1, self.2, self.3, self.4, self.5, self.6, self.7, self.8, self.9, self.10, self.11, other.0, other.1, other.2, other.3, other.4, other.5, other.6, other.7, other.8, other.9, other.10, other.11)
    }

    fn join(self, other: (T13, T14, T15, T16, T17, T18, T19, T20, T21, T22, T23, T24)) -> (r: (T1, T2, T3, T4, T5, T6, T7, T8, T9, T10, T11, T12, T13, T14, T15, T16, T17, T18, T19, T20, T21, T22, T23, T24)) {
        (self.0, self.1, self.2, self.3, self.4, self.5, self.6, self.7, self.8, self.9, self.10, self.11, other.0, other.1, other.2, other.3, other.4, other.5, other.6, other.7, other.8, other.9, other.10, other.11)
    }

    proof fn lemma_join_arity(self, other: (T13, T14, T15, T16, T17, T18, T19, T20, T21, T22, T23, T24)) {
    }
}

impl<T1, T2, T3, T4, T5, T6, T7, T8, T9, T10, T11, T12, T13, T14, T15, T16, T17, T18, T19, T20, T21, T22, T23, T24> JoinableTuple<(T14, T15, T16, T17, T18, T19, T20, T21, T22, T23, T24)> for (T1, T2, T3, T4, T5, T6, T7, T8, T9, T10, T11, T12, T13) {
    type Join = (T1, T2, T3, T4, T5, T6, T7, T8, T9, T10, T11, T12, T13, T14, T15, T16, T17, T18, T19, T20, T21, T22, T23, T24);

    open spec fn spec_join(self, other: (T14, T15, T16, T17, T18, T19, T20, T21, T22, T23, T24)) -> (T1, T2, T3, T4, T5, T6, T7, T8, T9, T10, T11, T12, T13, T14, T15, T16, T17, T18, T19, T20, T21, T22, T23, T24) {
        (self.0, self.1, self.2, self.3, self.4, self.5, self.6, self.7, self.8, self.9, self.10, self.11, self.12, other.0, other.1, other.2, other.3, other.4, other.5, other.6, other.7, other.8, other.9, other.10)
    }

    fn join(self, other: (T14, T15, T16, T17, T18, T19, T20, T21, T22, T23, T24)) -> (r: (T1, T2, T3, T4, T5, T6, T7, T8, T9, T10, T11, T12, T13, T14, T15, T16, T17, T18, T19, T20, T21, T22, T23, T24)) {
        (self.0, self.1, self.2, self.3, self.4, self.5, self.6, self.7, self.8, self.9, self.10, self.11, self.12, other.0, other.1, other.2, other.3, other.4, other.5, other.6, other.7, other.8, other.9, other.10)
    }

    proof fn lemma_join_arity(self, other: (T14, T15, T16, T17, T18, T19, T20, T21, T22, T23, T24)) {
    }
}

impl<T1, T2, T3, T4, T5, T6, T7, T8, T9, T10, T11, T12, T13, T14, T15, T16, T17, T18, T19, T20, T21, T22, T23, T24> JoinableTuple<(T15, T16, T17, T18, T19, T20, T21, T22, T23, T24)> for (T1, T2, T3, T4, T5, T6, T7, T8, T9, T10, T11, T12, T13, T14) {
    type Join = (T1, T2, T3, T4, T5, T6, T7, T8, T9, T10, T11, T12, T13, T14, T15, T16, T17, T18, T19, T20, T21, T22, T23, T24);

    open spec fn spec_join(self, other: (T15, T16, T17, T18, T19, T20, T21, T22, T23, T24)) -> (T1, T2, T3, T4, T5, T6, T7, T8, T9, T10, T11, T12, T13, T14, T15, T16, T17, T18, T19, T20, T21, T22, T23, T24) {
        (self.0, self.1, self.2, self.3, self.4, self.5, self.6, self.7, self.8, self.9, self.10, self.11, self.12, self.13, other.0, other.1, other.2, other.3, other.4, other.5, other.6, other.7, other.8, other.9)
    }

    fn join(self, other: (T15, T16, T17, T18, T19, T20, T21, T22, T23, T24)) -> (r: (T1, T2, T3, T4, T5, T6, T7, T8, T9, T10, T11, T12, T13, T14, T15, T16, T17, T18, T19, T20, T21, T22, T23, T24)) {
        (self.0, self.1, self.2, self.3, self.4, self.5, self.6, self.7, self.8, self.9, self.10, self.11, self.12, self.13, other.0, other.1, other.2, other.3, other.4, other.5, other.6, other.7, other.8, other.9)
    }

    proof fn lemma_join_arity(self, other: (T15, T16, T17, T18, T19, T20, T21, T22, T23, T24)) {
    }
}

impl<T1, T2, T3, T4, T5, T6, T7, T8, T9, T10, T11, T12, T13, T14, T15, T16, T17, T18, T19, T20, T21, T22, T23, T24> JoinableTuple<(T16, T17, T18, T19, T20, T21, T22, T23, T24)> for (T1, T2, T3, T4, T5, T6, T7, T8, T9, T10, T11, T12, T13, T14, T15) {
    type Join = (T1, T2, T3, T4, T5, T6, T7, T8, T9, T10, T11, T12, T13, T14, T15, T16, T17, T18, T19, T20, T21, T22, T23, T24);

    open spec fn spec_join(self, other: (T16, T17, T18, T19, T20, T21, T22, T23, T24)) -> (T1, T2, T3, T4, T5, T6, T7, T8, T9, T10, T11, T12, T13, T14, T15, T16, T17, T18, T19, T20, T21, T22, T23, T24) {
        (self.0, self.1, self.2, self.3, self.4, self.5, self.6, self.7, self.8, self.9, self.10, self.11, self.12, self.13, self.14, other.0, other.1, other.2, other.3, other.4, other.5, other.6, other.7, other.8)
    }

    fn join(self, other: (T16, T17, T18, T19, T20, T21, T22, T23, T24)) -> (r: (T1, T2, T3, T4, T5, T6, T7, T8, T9, T10, T11, T12, T13, T14, T15, T16, T17, T18, T19, T20, T21, T22, T23, T24)) {
        (self.0, self.1, self.2, self.3, self.4, self.5, self.6, self.7, self.8, self.9, self.10, self.11, self.12, self.13, self.14, other.0, other.1, other.2, other.3, other.4, other.5, other.6, other.7, other.8)
    }

    proof fn lemma_join_arity(self, other: (T16, T17, T18, T19, T20, T21, T22, T23, T24)) {
    }
}

impl<T1, T2, T3, T4, T5, T6, T7, T8, T9, T10, T11, T12, T13, T14, T15, T16, T17, T18, T19, T20, T21, T22, T23, T24> JoinableTuple<(T17, T18, T19, T20, T21, T22, T23, T24)> for (T1, T2, T3, T4, T5, T6, T7, T8, T9, T10, T11, T12, T13, T14, T15, T16) {
    type Join = (T1, T2, T3, T4, T5, T6, T7, T8, T9, T10, T11, T12, T13, T14, T15, T16, T17, T18, T19, T20, T21, T22, T23, T24);

    open spec fn spec_join(self, other: (T17, T18, T19, T20, T21, T22, T23, T24)) -> (T1, T2, T3, T4, T5, T6, T7, T8, T9, T10, T11, T12, T13, T14, T15, T16, T17, T18, T19, T20, T21, T22, T23, T24) {
        (self.0, self.1, self.2, self.3, self.4, self.5, self.6, self.7, self.8, self.9, self.10, self.11, self.12, self.13, self.14, self.15, other.0, other.1, other.2, other.3, other.4, other.5, other.6, other.7)
    }

    fn join(self, other: (T17, T18, T19, T20, T21, T22, T23, T24)) -> (r: (T1, T2, T3, T4, T5, T6, T7, T8, T9, T10, T11, T12, T13, T14, T15, T16, T17, T18, T19, T20, T21, T22, T23, T24)) {
        (self.0, self.1, self.2, self.3, self.4, self.5, self.6, self.7, self.8, self.9, self.10, self.11, self.12, self.13, self.14, self.15, other.0, other.1, other.2, other.3, other.4, other.5, other.6, other.7)
    }

    proof fn lemma_join_arity(self, other: (T17, T18, T19, T20, T21, T22, T23, T24)) {
    }
}

impl<T1, T2, T3, T4, T5, T6, T7, T8, T9, T10, T11, T12, T13, T14, T15, T16, T17, T18, T19, T20, T21, T22, T23, T24> JoinableTuple<(T18, T19, T20, T21, T22, T23, T24)> for (T1, T2, T3, T4, T5, T6, T7, T8, T9, T10, T11, T12, T13, T14, T15, T16, T17) {
    type Join = (T1, T2, T3, T4, T5, T6, T7, T8, T9, T10, T11, T12, T13, T14, T15, T16, T17, T18, T19, T20, T21, T22, T23, T24);

    open spec fn spec_join(self, other: (T18, T19, T20, T21, T22, T23, T24)) -> (T1, T2, T3, T4, T5, T6, T7, T8, T9, T10, T11, T12, T13, T14, T15, T16, T17, T18, T19, T20, T21, T22, T23, T24) {
        (self.0, self.1, self.2, self.3, self.4, self.5, self.6, self.7, self.8, self.9, self.10, self.11, self.12, self.13, self.14, self.15, self.16, other.0, other.1, other.2, other.3, other.4, other.5, other.6)
    }

    fn join(self, other: (T18, T19, T20, T21, T22, T23, T24)) -> (r: (T1, T2, T3, T4, T5, T6, T7, T8, T9, T10, T11, T12, T13, T14, T15, T16, T17, T18, T19, T20, T21, T22, T23, T24)) {
        (self.0, self.1, self.2, self.3, self.4, self.5, self.6, self.7, self.8, self.9, self.10, self.11, self.12, self.13, self.14, self.15, self.16, other.0, other.1, other.2, other.3, other.4, other.5, other.6)
    }

    proof fn lemma_join_arity(self, other: (T18, T19, T20, T21, T22, T23, T24)) {
    }
}

impl<T1, T2, T3, T4, T5, T6, T7, T8, T9, T10, T11, T12, T13, T14, T15, T16, T17, T18, T19, T20, T21, T22, T23, T24> JoinableTuple<(T19, T20, T21, T22, T23, T24)> for (T1, T2, T3, T4, T5, T6, T7, T8, T9, T10, T11, T12, T13, T14, T15, T16, T17, T18) {
    type Join = (T1, T2, T3, T4, T5, T6, T7, T8, T9, T10, T11, T12, T13, T14, T15, T16, T17, T18, T19, T20, T21, T22, T23, T24);

    open spec fn spec_join(self, other: (T19, T20, T21, T22, T23, T24)) -> (T1, T2, T3, T4, T5, T6, T7, T8, T9, T10, T11, T12, T13, T14, T15, T16, T17, T18, T19, T20, T21, T22, T23, T24) {
        (self.0, self.1, self.2, self.3, self.4, self.5, self.6, self.7, self.8, self.9, self.10, self.11, self.12, self.13, self.14, self.15, self.16, self.17, other.0, other.1, other.2, other.3, other.4, other.5)
    }

    fn join(self, other: (T19, T20, T21, T22, T23, T24)) -> (r: (T1, T2, T3, T4, T5, T6, T7, T8, T9, T10, T11, T12, T13, T14, T15, T16, T17, T18, T19, T20, T21, T22, T23, T24)) {
        (self.0, self.1, self.2, self.3, self.4, self.5, self.6, self.7, self.8, self.9, self.10, self.11, self.12, self.13, self.14, self.15, self.16, self.17, other.0, other.1, other.2, other.3, other.4, other.5)
    }

    proof fn lemma_join_arity(self, other: (T19, T20, T21, T22, T23, T24)) {
    }
}

impl<T1, T2, T3, T4, T5, T6, T7, T8, T9, T10, T11, T12, T13, T14, T15, T16, T17, T18, T19, T20, T21, T22, T23, T24> JoinableTuple<(T20, T21, T22, T23, T24)> for (T1, T2, T3, T4, T5, T6, T7, T8, T9, T10, T11, T12, T13, T14, T15, T16, T17, T18, T19) {
    type Join = (T1, T2, T3, T4, T5, T6, T7, T8, T9, T10, T11, T12, T13, T14, T15, T16, T17, T18, T19, T20, T21, T22, T23, T24);

    open spec fn spec_join(self, other: (T20, T21, T22, T23, T24)) -> (T1, T2, T3, T4, T5, T6, T7, T8, T9, T10, T11, T12, T13, T14, T15, T16, T17, T18, T19, T20, T21, T22, T23, T24) {
        (self.0, self.1, self.2, self.3, self.4, self.5, self.6, self.7, self.8, self.9, self.10, self.11, self.12, self.13, self.14, self.15, self.16, self.17, self.18, other.0, other.1, other.2, other.3, other.4)
    }

    fn join(self, other: (T20, T21, T22, T23, T24)) -> (r: (T1, T2, T3, T4, T5, T6, T7, T8, T9, T10, T11, T12, T13, T14, T15, T16, T17, T18, T19, T20, T21, T22, T23, T24)) {
        (self.0, self.1, self.2, self.3, self.4, self.5, self.6, self.7, self.8, self.9, self.10, self.11, self.12, self.13, self.14, self.15, self.16, self.17, self.18, other.0, other.1, other.2, other.3, other.4)
    }

    proof fn lemma_join_arity(self, other: (T20, T21, T22, T23, T24)) {
    }
}

impl<T1, T2, T3, T4, T5, T6, T7, T8, T9, T10, T11, T12, T13, T14, T15, T16, T17, T18, T19, T20, T21, T22, T23, T24> JoinableTuple<(T21, T22, T23, T24)> for (T1, T2, T3, T4, T5, T6, T7, T8, T9, T10, T11, T12, T13, T14, T15, T16, T17, T18, T19, T20) {
    type Join = (T1, T2, T3, T4, T5, T6, T7, T8, T9, T10, T11, T12, T13, T14, T15, T16, T17, T18, T19, T20, T21, T22, T23, T24);

    open spec fn spec_join(self, other: (T21, T22, T23, T24)) -> (T1, T2, T3, T4, T5, T6, T7, T8, T9, T10, T11, T12, T13, T14, T15, T16, T17, T18, T19, T20, T21, T22, T23, T24) {
        (self.0, self.1, self.2, self.3, self.4, self.5, self.6, self.7, self.8, self.9, self.10, self.11, self.12, self.13, self.14, self.15, self.16, self.17, self.18, self.19, other.0, other.1, other.2, other.3)
    }

    fn join(self, other: (T21, T22, T23, T24)) -> (r: (T1, T2, T3, T4, T5, T6, T7, T8, T9, T10, T11, T12, T13, T14, T15, T16, T17, T18, T19, T20, T21, T22, T23, T24)) {
        (self.0, self.1, self.2, self.3, self.4, self.5, self.6, self.7, self.8, self.9, self.10, self.11, self.12, self.13, self.14, self.15, self.16, self.17, self.18, self.19, other.0, other.1, other.2, other.3)
    }

    proof fn lemma_join_arity(self, other: (T21, T22, T23, T24)) {
    }
}

impl<T1, T2, T3, T4, T5, T6, T7, T8, T9, T10, T11, T12, T13, T14, T15, T16, T17, T18, T19, T20, T21, T22, T23, T24> JoinableTuple<(T22, T23, T24)> for (T1, T2, T3, T4, T5, T6, T7, T8, T9, T10, T11, T12, T13, T14, T15, T16, T17, T18, T19, T20, T21) {
    type Join = (T1, T2, T3, T4, T5, T6, T7, T8, T9, T10, T11, T12, T13, T14, T15, T16, T17, T18, T19, T20, T21, T22, T23, T24);

    open spec fn spec_join(self, other: (T22, T23, T24)) -> (T1, T2, T3, T4, T5, T6, T7, T8, T9, T10, T11, T12, T13, T14, T15, T16, T17, T18, T19, T20, T21, T22, T23, T24) {
        (self.0, self.1, self.2, self.3, self.4, self.5, self.6, self.7, self.8, self.9, self.10, self.11, self.12, self.13, self.14, self.15, self.16, self.17, self.18, self.19, self.20, other.0, other.1, other.2)
    }

    fn join(self, other: (T22, T23, T24)) -> (r: (T1, T2, T3, T4, T5, T6, T7, T8, T9, T10, T11, T12, T13, T14, T15, T16, T17, T18, T19, T20, T21, T22, T23, T24)) {
        (self.0, self.1, self.2, self.3, self.4, self.5, self.6, self.7, self.8, self.9, self.10, self.11, self.12, self.13, self.14, self.15, self.16, self.17, self.18, self.19, self.20, other.0, other.1, other.2)
    }

    proof fn lemma_join_arity(self, other: (T22, T23, T24)) {
    }
}

impl<T1, T2, T3, T4, T5, T6, T7, T8, T9, T10, T11, T12, T13, T14, T15, T16, T17, T18, T19, T20, T21, T22, T23, T24> JoinableTuple<(T23, T24)> for (T1, T2, T3, T4, T5, T6, T7, T8, T9, T10, T11, T12, T13, T14, T15, T16, T17, T18, T19, T20, T21, T22) {
    type Join = (T1, T2, T3, T4, T5, T6, T7, T8, T9, T10, T11, T12, T13, T14, T15, T16, T17, T18, T19, T20, T21, T22, T23, T24);

    open spec fn spec_join(self, other: (T23, T24)) -> (T1, T2, T3, T4, T5, T6, T7, T8, T9, T10, T11, T12, T13, T14, T15, T16, T17, T18, T19, T20, T21, T22, T23, T24) {
        (self.0, self.1, self.2, self.3, self.4, self.5, self.6, self.7, self.8, self.9, self.10, self.11, self.12, self.13, self.14, self.15, self.16, self.17, self.18, self.19, self.20, self.21, other.0, other.1)
    }

    fn join(self, other: (T23, T24)) -> (r: (T1, T2, T3, T4, T5, T6, T7, T8, T9, T10, T11, T12, T13, T14, T15, T16, T17, T18, T19, T20, T21, T22, T23, T24)) {
        (self.0, self.1, self.2, self.3, self.4, self.5, self.6, self.7, self.8, self.9, self.10, self.11, self.12, self.13, self.14, self.15, self.16, self.17, self.18, self.19, self.20, self.21, other.0, other.1)
    }

    proof fn lemma_join_arity(self, other: (T23, T24)) {
    }
}

impl<T1, T2, T3, T4, T5, T6, T7, T8, T9, T10, T11, T12, T13, T14, T15, T16, T17, T18, T19, T20, T21, T22, T23, T24> JoinableTuple<(T24,)> for (T1, T2, T3, T4, T5, T6, T7, T8, T9, T10, T11, T12, T13, T14, T15, T16, T17, T18, T19, T20, T21, T22, T23) {
    type Join = (T1, T2, T3, T4, T5, T6, T7, T8, T9, T10, T11, T12, T13, T14, T15, T16, T17, T18, T19, T20, T21, T22, T23, T24);

    open spec fn spec_join(self, other: (T24,)) -> (T1, T2, T3, T4, T5, T6, T7, T8, T9, T10, T11, T12, T13, T14, T15, T16, T17, T18, T19, T20, T21, T22, T23, T24) {
        (self.0, self.1, self.2, self.3, self.4, self.5, self.6, self.7, self.8, self.9, self.10, self.11, self.12, self.13, self.14, self.15, self.16, self.17, self.18, self.19, self.20, self.21, self.22, other.0)
    }

    fn join(self, other: (T24,)) -> (r: (T1, T2, T3, T4, T5, T6, T7, T8, T9, T10, T11, T12, T13, T14, T15, T16, T17, T18, T19, T20, T21, T22, T23, T24)) {
        (self.0, self.1, self.2, self.3, self.4, self.5, self.6, self.7, self.8, self.9, self.10, self.11, self.12, self.13, self.14, self.15, self.16, self.17, self.18, self.19, self.20, self.21, self.22, other.0)
    }

    proof fn lemma_join_arity(self, other: (T24,)) {
    }
}

impl<T1, T2, T3, T4, T5, T6, T7, T8, T9, T10, T11, T12, T13, T14, T15, T16, T17, T18, T19, T20, T21, T22, T23, T24> JoinableTuple<()> for (T1, T2, T3, T4, T5, T6, T7, T8, T9, T10, T11, T12, T13, T14, T15, T16, T17, T18, T19, T20, T21, T22, T23, T24) {
    type Join = (T1, T2, T3, T4, T5, T6, T7, T8, T9, T10, T11, T12, T13, T14, T15, T16, T17, T18, T19, T20, T21, T22, T23, T24);

    open spec fn spec_join(self, other: ()) -> (T1, T2, T3, T4, T5, T6, T7, T8, T9, T10, T11, T12, T13, T14, T15, T16, T17, T18, T19, T20, T21, T22, T23, T24) {
        (self.0, self.1, self.2, self.3, self.4, self.5, self.6, self.7, self.8, self.9, self.10, self.11, self.12, self.13, self.14, self.15, self.16, self.17, self.18, self.19, self.20, self.21, self.22, self.23)
    }

    fn join(self, other: ()) -> (r: (T1, T2, T3, T4, T5, T6, T7, T8, T9, T10, T11, T12, T13, T14, T15, T16, T17, T18, T19, T20, T21, T22, T23, T24)) {
        (self.0, self.1, self.2, self.3, self.4, self.5, self.6, self.7, self.8, self.9, self.10, self.11, self.12, self.13, self.14, self.15, self.16, self.17, self.18, self.19, self.20, self.21, self.22, self.23)
    }

    proof fn lemma_join_arity(self, other: ()) {
    }
}

impl<T1, T2, T3, T4, T5, T6, T7, T8, T9, T10, T11, T12, T13, T14, T15, T16, T17, T18, T19, T20, T21, T22, T23, T24, T25> Sealed for (T1, T2, T3, T4, T5, T6, T7, T8, T9, T10, T11, T12, T13, T14, T15, T16, T17, T18, T19, T20, T21, T22, T23, T24, T25) {}

impl<T1, T2, T3, T4, T5, T6, T7, T8, T9, T10, T11, T12, T13, T14, T15, T16, T17, T18, T19, T20, T21, T22, T23, T24, T25> DynTuple for (T1, T2, T3, T4, T5, T6, T7, T8, T9, T10, T11, T12, T13, T14, T15, T16, T17, T18, T19, T20, T21, T22, T23, T24, T25) {
    open spec fn spec_arity(&self) -> nat {
        25
    }

    fn arity(&self) -> (r: usize) {
        25
    }
}

impl<T1, T2, T3, T4, T5, T6, T7, T8, T9, T10, T11, T12, T13, T14, T15, T16, T17, T18, T19, T20, T21, T22, T23, T24, T25> Tuple for (T1, T2, T3, T4, T5, T6, T7, T8, T9, T10, T11, T12, T13, T14, T15, T16, T17, T18, T19, T20, T21, T22, T23, T24, T25) {
    const ARITY: usize = 25;

    open spec fn spec_type_arity() -> nat {
        25
    }

    proof fn lemma_arity(&self) {
    }

    proof fn lemma_type_arity() {
    }
}

impl<T1, T2, T3, T4, T5, T6, T7, T8, T9, T10, T11, T12, T13, T14, T15, T16, T17, T18, T19, T20, T21, T22, T23, T24, T25, T> GrowableTuple<T> for (T1, T2, T3, T4, T5, T6, T7, T8, T9, T10, T11, T12, T13, T14, T15, T16, T17, T18, T19, T20, T21, T22, T23, T24, T25) {
    type Append = (T1, T2, T3, T4, T5, T6, T7, T8, T9, T10, T11, T12, T13, T14, T15, T16, T17, T18, T19, T20, T21, T22, T23, T24, T25, T);

    type Prepend = (T, T1, T2, T3, T4, T5, T6, T7, T8, T9, T10, T11, T12, T13, T14, T15, T16, T17, T18, T19, T20, T21, T22, T23, T24, T25);

    open spec fn spec_append(self, value: T) -> (T1, T2, T3, T4, T5, T6, T7, T8, T9, T10, T11, T12, T13, T14, T15, T16, T17, T18, T19, T20, T21, T22, T23, T24, T25, T) {
        (self.0, self.1, self.2, self.3, self.4, self.5, self.6, self.7, self.8, self.9, self.10, self.11, self.12, self.13, self.14, self.15, self.16, self.17, self.18, self.19, self.20, self.21, self.22, self.23, self.24, value)
    }

    open spec fn spec_prepend(self, value: T) -> (T, T1, T2, T3, T4, T5, T6, T7, T8, T9, T10, T11, T12, T13, T14, T15, T16, T17, T18, T19, T20, T21, T22, T23, T24, T25) {
        (value, self.0, self.1, self.2, self.3, self.4, self.5, self.6, self.7, self.8, self.9, self.10, self.11, self.12, self.13, self.14, self.15, self.16, self.17, self.18, self.19, self.20, self.21, self.22, self.23, self.24)
    }

    fn append(self, value: T) -> (r: (T1, T2, T3, T4, T5, T6, T7, T8, T9, T10, T11, T12, T13, T14, T15, T16, T17, T18, T19, T20, T21, T22, T23, T24, T25, T)) {
        (self.0, self.1, self.2, self.3, self.4, self.5, self.6, self.7, self.8, self.9, self.10, self.11, self.12, self.13, self.14, self.15, self.16, self.17, self.18, self.19, self.20, self.21, self.22, self.23, self.24, value)
    }

    fn prepend(self, value: T) -> (r: (T, T1, T2, T3, T4, T5, T6, T7, T8, T9, T10, T11, T12, T13, T14, T15, T16, T17, T18, T19, T20, T21, T22, T23, T24, T25)) {
        (value, self.0, self.1, self.2, self.3, self.4, self.5, self.6, self.7, self.8, self.9, self.10, self.11, self.12, self.13, self.14, self.15, self.16, self.17, self.18, self.19, self.20, self.21, self.22, self.23, self.24)
    }

    proof fn lemma_grow_arity(self, value: T) {
    }
}

impl<T1, T2, T3, T4, T5, T6, T7, T8, T9, T10, T11, T12, T13, T14, T15, T16, T17, T18, T19, T20, T21, T22, T23, T24, T25> NonEmptyTuple for (T1, T2, T3, T4, T5, T6, T7, T8, T9, T10, T11, T12, T13, T14, T15, T16, T17, T18, T19, T20, T21, T22, T23, T24, T25) {
    type Head = T1;

    type Tail = T25;

    type TruncateHead = (T2, T3, T4, T5, T6, T7, T8, T9, T10, T11, T12, T13, T14, T15, T16, T17, T18, T19, T20, T21, T22, T23, T24, T25);

    type TruncateTail = (T1, T2, T3, T4, T5, T6, T7, T8, T9, T10, T11, T12, T13, T14, T15, T16, T17, T18, T19, T20, T21, T22, T23, T24);

    open spec fn spec_head(&self) -> T1 {
        self.0
    }

    open spec fn spec_tail(&self) -> T25 {
        self.24
    }

    open spec fn spec_with_head(self, value: T1) -> (T1, T2, T3, T4, T5, T6, T7, T8, T9, T10, T11, T12, T13, T14, T15, T16, T17, T18, T19, T20, T21, T22, T23, T24, T25) {
        (value, self.1, self.2, self.3, self.4, self.5, self.6, self.7, self.8, self.9, self.10, self.11, self.12, self.13, self.14, self.15, self.16, self.17, self.18, self.19, self.20, self.21, self.22, self.23, self.24)
    }

    open spec fn spec_with_tail(self, value: T25) -> (T1, T2, T3, T4, T5, T6, T7, T8, T9, T10, T11, T12, T13, T14, T15, T16, T17, T18, T19, T20, T21, T22, T23, T24, T25) {
        (self.0, self.1, self.2, self.3, self.4, self.5, self.6, self.7, self.8, self.9, self.10, self.11, self.12, self.13, self.14, self.15, self.16, self.17, self.18, self.19, self.20, self.21, self.22, self.23, value)
    }

    open spec fn spec_truncate_head(self) -> (T1, (T2, T3, T4, T5, T6, T7, T8, T9, T10, T11, T12, T13, T14, T15, T16, T17, T18, T19, T20, T21, T22, T23, T24, T25)) {
        (self.0, (self.1, self.2, self.3, self.4, self.5, self.6, self.7, self.8, self.9, self.10, self.11, self.12, self.13, self.14, self.15, self.16, self.17, self.18, self.19, self.20, self.21, self.22, self.23, self.24))
    }

    open spec fn spec_truncate_tail(self) -> ((T1, T2, T3, T4, T5, T6, T7, T8, T9, T10, T11, T12, T13, T14, T15, T16, T17, T18, T19, T20, T21, T22, T23, T24), T25) {
        ((self.0, self.1, self.2, self.3, self.4, self.5, self.6, self.7, self.8, self.9, self.10, self.11, self.12, self.13, self.14, self.15, self.16, self.17, self.18, self.19, self.20, self.21, self.22, self.23), self.24)
    }

    fn head(&self) -> (r: &T1) {
        &self.0
    }

    fn head_mut(&mut self) -> (r: &mut T1) {
        &mut self.0
    }

    fn tail(&self) -> (r: &T25) {
        &self.24
    }

    fn tail_mut(&mut self) -> (r: &mut T25) {
        &mut self.24
    }

    fn truncate_head(self) -> (r: (T1, (T2, T3, T4, T5, T6, T7, T8, T9, T10, T11, T12, T13, T14, T15, T16, T17, T18, T19, T20, T21, T22, T23, T24, T25))) {
        (self.0, (self.1, self.2, self.3, self.4, self.5, self.6, self.7, self.8, self.9, self.10, self.11, self.12, self.13, self.14, self.15, self.16, self.17, self.18, self.19, self.20, self.21, self.22, self.23, self.24))
    }

    fn truncate_tail(self) -> (r: ((T1, T2, T3, T4, T5, T6, T7, T8, T9, T10, T11, T12, T13, T14, T15, T16, T17, T18, T19, T20, T21, T22, T23, T24), T25)) {
        ((self.0, self.1, self.2, self.3, self.4, self.5, self.6, self.7, self.8, self.9, self.10, self.11, self.12, self.13, self.14, self.15, self.16, self.17, self.18, self.19, self.20, self.21, self.22, self.23), self.24)
    }

    proof fn lemma_truncate_head(self) {
    }

    proof fn lemma_truncate_tail(self) {
    }
}

impl<T1, T2, T3, T4, T5, T6, T7, T8, T9, T10, T11, T12, T13, T14, T15, T16, T17, T18, T19, T20, T21, T22, T23, T24, T25> NonUnaryTuple for (T1, T2, T3, T4, T5, T6, T7, T8, T9, T10, T11, T12, T13, T14, T15, T16, T17, T18, T19, T20, T21, T22, T23, T24, T25) {
    type TruncateHeadTail = (T2, T3, T4, T5, T6, T7, T8, T9, T10, T11, T12, T13, T14, T15, T16, T17, T18, T19, T20, T21, T22, T23, T24);

    open spec fn spec_truncate_head_tail(self) -> (T1, (T2, T3, T4, T5, T6, T7, T8, T9, T10, T11, T12, T13, T14, T15, T16, T17, T18, T19, T20, T21, T22, T23, T24), T25) {
        (self.0, (self.1, self.2, self.3, self.4, self.5, self.6, self.7, self.8, self.9, self.10, self.11, self.12, self.13, self.14, self.15, self.16, self.17, self.18, self.19, self.20, self.21, self.22, self.23), self.24)
    }

    fn head_tail(&self) -> (r: (&T1, &T25)) {
        (&self.0, &self.24)
    }

    fn head_tail_mut(&mut self) -> (r: (&mut T1, &mut T25)) {
        (&mut self.0, &mut self.24)
    }

    fn truncate_head_tail(self) -> (r: (T1, (T2, T3, T4, T5, T6, T7, T8, T9, T10, T11, T12, T13, T14, T15, T16, T17, T18, T19, T20, T21, T22, T23, T24), T25)) {
        (self.0, (self.1, self.2, self.3, self.4, self.5, self.6, self.7, self.8, self.9, self.10, self.11, self.12, self.13, self.14, self.15, self.16, self.17, self.18, self.19, self.20, self.21, self.22, self.23), self.24)
    }

    proof fn lemma_truncate_head_tail(self) {
    }
}

impl<T1, T2, T3, T4, T5, T6, T7, T8, T9, T10, T11, T12, T13, T14, T15, T16, T17, T18, T19, T20, T21, T22, T23, T24, T25> IndexableTuple<0> for (T1, T2, T3, T4, T5, T6, T7, T8, T9, T10, T11, T12, T13, T14, T15, T16, T17, T18, T19, T20, T21, T22, T23, T24, T25) {
    type Value = T1;

    open spec fn spec_index(&self) -> T1 {
        self.0
    }

    open spec fn spec_with_index(self, value: T1) -> (T1, T2, T3, T4, T5, T6, T7, T8, T9, T10, T11, T12, T13, T14, T15, T16, T17, T18, T19, T20, T21, T22, T23, T24, T25) {
        (value, self.1, self.2, self.3, self.4, self.5, self.6, self.7, self.8, self.9, self.10, self.11, self.12, self.13, self.14, self.15, self.16, self.17, self.18, self.19, self.20, self.21, self.22, self.23, self.24)
    }

    fn index_ref(&self) -> (r: &T1) {
        &self.0
    }

    fn index_mut(&mut self) -> (r: &mut T1) {
        &mut self.0
    }

    fn into_index(self) -> (r: T1) {
        self.0
    }

    proof fn lemma_index_in_range(&self) {
    }
}

impl<T1, T2, T3, T4, T5, T6, T7, T8, T9, T10, T11, T12, T13, T14, T15, T16, T17, T18, T19, T20, T21, T22, T23, T24, T25> IndexableTuple<1> for (T1, T2, T3, T4, T5, T6, T7, T8, T9, T10, T11, T12, T13, T14, T15, T16, T17, T18, T19, T20, T21, T22, T23, T24, T25) {
    type Value = T2;

    open spec fn spec_index(&self) -> T2 {
        self.1
    }

    open spec fn spec_with_index(self, value: T2) -> (T1, T2, T3, T4, T5, T6, T7, T8, T9, T10, T11, T12, T13, T14, T15, T16, T17, T18, T19, T20, T21, T22, T23, T24, T25) {
        (self.0, value, self.2, self.3, self.4, self.5, self.6, self.7, self.8, self.9, self.10, self.11, self.12, self.13, self.14, self.15, self.16, self.17, self.18, self.19, self.20, self.21, self.22, self.23, self.24)
    }

    fn index_ref(&self) -> (r: &T2) {
        &self.1
    }

    fn index_mut(&mut self) -> (r: &mut T2) {
        &mut self.1
    }

    fn into_index(self) -> (r: T2) {
        self.1
    }

    proof fn lemma_index_in_range(&self) {
    }
}

impl<T1, T2, T3, T4, T5, T6, T7, T8, T9, T10, T11, T12, T13, T14, T15, T16, T17, T18, T19, T20, T21, T22, T23, T24, T25> IndexableTuple<2> for (T1, T2, T3, T4, T5, T6, T7, T8, T9, T10, T11, T12, T13, T14, T15, T16, T17, T18, T19, T20, T21, T22, T23, T24, T25) {
    type Value = T3;

    open spec fn spec_index(&self) -> T3 {
        self.2
    }

    open spec fn spec_with_index(self, value: T3) -> (T1, T2, T3, T4, T5, T6, T7, T8, T9, T10, T11, T12, T13, T14, T15, T16, T17, T18, T19, T20, T21, T22, T23, T24, T25) {
        (self.0, self.1, value, self.3, self.4, self.5, self.6, self.7, self.8, self.9, self.10, self.11, self.12, self.13, self.14, self.15, self.16, self.17, self.18, self.19, self.20, self.21, self.22, self.23, self.24)
    }

    fn index_ref(&self) -> (r: &T3) {
        &self.2
    }

    fn index_mut(&mut self) -> (r: &mut T3) {
        &mut self.2
    }

    fn into_index(self) -> (r: T3) {
        self.2
    }

    proof fn lemma_index_in_range(&self) {
    }
}

impl<T1, T2, T3, T4, T5, T6, T7, T8, T9, T10, T11, T12, T13, T14, T15, T16, T17, T18, T19, T20, T21, T22, T23, T24, T25> IndexableTuple<3> for (T1, T2, T3, T4, T5, T6, T7, T8, T9, T10, T11, T12, T13, T14, T15, T16, T17, T18, T19, T20, T21, T22, T23, T24, T25) {
    type Value = T4;

    open spec fn spec_index(&self) -> T4 {
        self.3
    }

    open spec fn spec_with_index(self, value: T4) -> (T1, T2, T3, T4, T5, T6, T7, T8, T9, T10, T11, T12, T13, T14, T15, T16, T17, T18, T19, T20, T21, T22, T23, T24, T25) {
        (self.0, self.1, self.2, value, self.4, self.5, self.6, self.7, self.8, self.9, self.10, self.11, self.12, self.13, self.14, self.15, self.16, self.17, self.18, self.19, self.20, self.21, self.22, self.23, self.24)
    }

    fn index_ref(&self) -> (r: &T4) {
        &self.3
    }

    fn index_mut(&mut self) -> (r: &mut T4) {
        &mut self.3
    }

    fn into_index(self) -> (r: T4) {
        self.3
    }

    proof fn lemma_index_in_range(&self) {
    }
}

impl<T1, T2, T3, T4, T5, T6, T7, T8, T9, T10, T11, T12, T13, T14, T15, T16, T17, T18, T19, T20, T21, T22, T23, T24, T25> IndexableTuple<4> for (T1, T2, T3, T4, T5, T6, T7, T8, T9, T10, T11, T12, T13, T14, T15, T16, T17, T18, T19, T20, T21, T22, T23, T24, T25) {
    type Value = T5;

    open spec fn spec_index(&self) -> T5 {
        self.4
    }

    open spec fn spec_with_index(self, value: T5) -> (T1, T2, T3, T4, T5, T6, T7, T8, T9, T10, T11, T12, T13, T14, T15, T16, T17, T18, T19, T20, T21, T22, T23, T24, T25) {
        (self.0, self.1, self.2, self.3, value, self.5, self.6, self.7, self.8, self.9, self.10, self.11, self.12, self.13, self.14, self.15, self.16, self.17, self.18, self.19, self.20, self.21, self.22, self.23, self.24)
    }

    fn index_ref(&self) -> (r: &T5) {
        &self.4
    }

    fn index_mut(&mut self) -> (r: &mut T5) {
        &mut self.4
    }

    fn into_index(self) -> (r: T5) {
        self.4
    }

    proof fn lemma_index_in_range(&self) {
    }
}

impl<T1, T2, T3, T4, T5, T6, T7, T8, T9, T10, T11, T12, T13, T14, T15, T16, T17, T18, T19, T20, T21, T22, T23, T24, T25> IndexableTuple<5> for (T1, T2, T3, T4, T5, T6, T7, T8, T9, T10, T11, T12, T13, T14, T15, T16, T17, T18, T19, T20, T21, T22, T23, T24, T25) {
    type Value = T6;

    open spec fn spec_index(&self) -> T6 {
        self.5
    }

    open spec fn spec_with_index(self, value: T6) -> (T1, T2, T3, T4, T5, T6, T7, T8, T9, T10, T11, T12, T13, T14, T15, T16, T17, T18, T19, T20, T21, T22, T23, T24, T25) {
        (self.0, self.1, self.2, self.3, self.4, value, self.6, self.7, self.8, self.9, self.10, self.11, self.12, self.13, self.14, self.15, self.16, self.17, self.18, self.19, self.20, self.21, self.22, self.23, self.24)
    }

    fn index_ref(&self) -> (r: &T6) {
        &self.5
    }

    fn index_mut(&mut self) -> (r: &mut T6) {
        &mut self.5
    }

    fn into_index(self) -> (r: T6) {
        self.5
    }

    proof fn lemma_index_in_range(&self) {
    }
}

impl<T1, T2, T3, T4, T5, T6, T7, T8, T9, T10, T11, T12, T13, T14, T15, T16, T17, T18, T19, T20, T21, T22, T23, T24, T25> IndexableTuple<6> for (T1, T2, T3, T4, T5, T6, T7, T8, T9, T10, T11, T12, T13, T14, T15, T16, T17, T18, T19, T20, T21, T22, T23, T24, T25) {
    type Value = T7;

    open spec fn spec_index(&self) -> T7 {
        self.6
    }

    open spec fn spec_with_index(self, value: T7) -> (T1, T2, T3, T4, T5, T6, T7, T8, T9, T10, T11, T12, T13, T14, T15, T16, T17, T18, T19, T20, T21, T22, T23, T24, T25) {
        (self.0, self.1, self.2, self.3, self.4, self.5, value, self.7, self.8, self.9, self.10, self.11, self.12, self.13, self.14, self.15, self.16, self.17, self.18, self.19, self.20, self.21, self.22, self.23, self.24)
    }

    fn index_ref(&self) -> (r: &T7) {
        &self.6
    }

    fn index_mut(&mut self) -> (r: &mut T7) {
        &mut self.6
    }

    fn into_index(self) -> (r: T7) {
        self.6
    }

    proof fn lemma_index_in_range(&self) {
    }
}

impl<T1, T2, T3, T4, T5, T6, T7, T8, T9, T10, T11, T12, T13, T14, T15, T16, T17, T18, T19, T20, T21, T22, T23, T24, T25> IndexableTuple<7> for (T1, T2, T3, T4, T5, T6, T7, T8, T9, T10, T11, T12, T13, T14, T15, T16, T17, T18, T19, T20, T21, T22, T23, T24, T25) {
    type Value = T8;

    open spec fn spec_index(&self) -> T8 {
        self.7
    }

    open spec fn spec_with_index(self, value: T8) -> (T1, T2, T3, T4, T5, T6, T7, T8, T9, T10, T11, T12, T13, T14, T15, T16, T17, T18, T19, T20, T21, T22, T23, T24, T25) {
        (self.0, self.1, self.2, self.3, self.4, self.5, self.6, value, self.8, self.9, self.10, self.11, self.12, self.13, self.14, self.15, self.16, self.17, self.18, self.19, self.20, self.21, self.22, self.23, self.24)
    }

    fn index_ref(&self) -> (r: &T8) {
        &self.7
    }

    fn index_mut(&mut self) -> (r: &mut T8) {
        &mut self.7
    }

    fn into_index(self) -> (r: T8) {
        self.7
    }

    proof fn lemma_index_in_range(&self) {
    }
}

impl<T1, T2, T3, T4, T5, T6, T7, T8, T9, T10, T11, T12, T13, T14, T15, T16, T17, T18, T19, T20, T21, T22, T23, T24, T25> IndexableTuple<8> for (T1, T2, T3, T4, T5, T6, T7, T8, T9, T10, T11, T12, T13, T14, T15, T16, T17, T18, T19, T20, T21, T22, T23, T24, T25) {
    type Value = T9;

    open spec fn spec_index(&self) -> T9 {
        self.8
    }

    open spec fn spec_with_index(self, value: T9) -> (T1, T2, T3, T4, T5, T6, T7, T8, T9, T10, T11, T12, T13, T14, T15, T16, T17, T18, T19, T20, T21, T22, T23, T24, T25) {
        (self.0, self.1, self.2, self.3, self.4, self.5, self.6, self.7, value, self.9, self.10, self.11, self.12, self.13, self.14, self.15, self.16, self.17, self.18, self.19, self.20, self.21, self.22, self.23, self.24)
    }

    fn index_ref(&self) -> (r: &T9) {
        &self.8
    }

    fn index_mut(&mut self) -> (r: &mut T9) {
        &mut self.8
    }

    fn into_index(self) -> (r: T9) {
        self.8
    }

    proof fn lemma_index_in_range(&self) {
    }
}

impl<T1, T2, T3, T4, T5, T6, T7, T8, T9, T10, T11, T12, T13, T14, T15, T16, T17, T18, T19, T20, T21, T22, T23, T24, T25> IndexableTuple<9> for (T1, T2, T3, T4, T5, T6, T7, T8, T9, T10, T11, T12, T13, T14, T15, T16, T17, T18, T19, T20, T21, T22, T23, T24, T25) {
    type Value = T10;

    open spec fn spec_index(&self) -> T10 {
        self.9
    }

    open spec fn spec_with_index(self, value: T10) -> (T1, T2, T3, T4, T5, T6, T7, T8, T9, T10, T11, T12, T13, T14, T15, T16, T17, T18, T19, T20, T21, T22, T23, T24, T25) {
        (self.0, self.1, self.2, self.3, self.4, self.5, self.6, self.7, self.8, value, self.10, self.11, self.12, self.13, self.14, self.15, self.16, self.17, self.18, self.19, self.20, self.21, self.22, self.23, self.24)
    }

    fn index_ref(&self) -> (r: &T10) {
        &self.9
    }

    fn index_mut(&mut self) -> (r: &mut T10) {
        &mut self.9
    }

    fn into_index(self) -> (r: T10) {
        self.9
    }

    proof fn lemma_index_in_range(&self) {
    }
}

impl<T1, T2, T3, T4, T5, T6, T7, T8, T9, T10, T11, T12, T13, T14, T15, T16, T17, T18, T19, T20, T21, T22, T23, T24, T25> IndexableTuple<10> for (T1, T2, T3, T4, T5, T6, T7, T8, T9, T10, T11, T12, T13, T14, T15, T16, T17, T18, T19, T20, T21, T22, T23, T24, T25) {
    type Value = T11;

    open spec fn spec_index(&self) -> T11 {
        self.10
    }

    open spec fn spec_with_index(self, value: T11) -> (T1, T2, T3, T4, T5, T6, T7, T8, T9, T10, T11, T12, T13, T14, T15, T16, T17, T18, T19, T20, T21, T22, T23, T24, T25) {
        (self.0, self.1, self.2, self.3, self.4, self.5, self.6, self.7, self.8, self.9, value, self.11, self.12, self.13, self.14, self.15, self.16, self.17, self.18, self.19, self.20, self.21, self.22, self.23, self.24)
    }

    fn index_ref(&self) -> (r: &T11) {
        &self.10
    }

    fn index_mut(&mut self) -> (r: &mut T11) {
        &mut self.10
    }

    fn into_index(self) -> (r: T11) {
        self.10
    }

    proof fn lemma_index_in_range(&self) {
    }
}

impl<T1, T2, T3, T4, T5, T6, T7, T8, T9, T10, T11, T12, T13, T14, T15, T16, T17, T18, T19, T20, T21, T22, T23, T24, T25> IndexableTuple<11> for (T1, T2, T3, T4, T5, T6, T7, T8, T9, T10, T11, T12, T13, T14, T15, T16, T17, T18, T19, T20, T21, T22, T23, T24, T25) {
    type Value = T12;

    open spec fn spec_index(&self) -> T12 {
        self.11
    }

    open spec fn spec_with_index(self, value: T12) -> (T1, T2, T3, T4, T5, T6, T7, T8, T9, T10, T11, T12, T13, T14, T15, T16, T17, T18, T19, T20, T21, T22, T23, T24, T25) {
        (self.0, self.1, self.2, self.3, self.4, self.5, self.6, self.7, self.8, self.9, self.10, value, self.12, self.13, self.14, self.15, self.16, self.17, self.18, self.19, self.20, self.21, self.22, self.23, self.24)
    }

    fn index_ref(&self) -> (r: &T12) {
        &self.11
    }

    fn index_mut(&mut self) -> (r: &mut T12) {
        &mut self.11
    }

    fn into_index(self) -> (r: T12) {
        self.11
    }

    proof fn lemma_index_in_range(&self) {
    }
}

impl<T1, T2, T3, T4, T5, T6, T7, T8, T9, T10, T11, T12, T13, T14, T15, T16, T17, T18, T19, T20, T21, T22, T23, T24, T25> IndexableTuple<12> for (T1, T2, T3, T4, T5, T6, T7, T8, T9, T10, T11, T12, T13, T14, T15, T16, T17, T18, T19, T20, T21, T22, T23, T24, T25) {
    type Value = T13;

    open spec fn spec_index(&self) -> T13 {
        self.12
    }

    open spec fn spec_with_index(self, value: T13) -> (T1, T2, T3, T4, T5, T6, T7, T8, T9, T10, T11, T12, T13, T14, T15, T16, T17, T18, T19, T20, T21, T22, T23, T24, T25) {
        (self.0, self.1, self.2, self.3, self.4, self.5, self.6, self.7, self.8, self.9, self.10, self.11, value, self.13, self.14, self.15, self.16, self.17, self.18, self.19, self.20, self.21, self.22, self.23, self.24)
    }

    fn index_ref(&self) -> (r: &T13) {
        &self.12
    }

    fn index_mut(&mut self) -> (r: &mut T13) {
        &mut self.12
    }

    fn into_index(self) -> (r: T13) {
        self.12
    }

    proof fn lemma_index_in_range(&self) {
    }
}

impl<T1, T2, T3, T4, T5, T6, T7, T8, T9, T10, T11, T12, T13, T14, T15, T16, T17, T18, T19, T20, T21, T22, T23, T24, T25> IndexableTuple<13> for (T1, T2, T3, T4, T5, T6, T7, T8, T9, T10, T11, T12, T13, T14, T15, T16, T17, T18, T19, T20, T21, T22, T23, T24, T25) {
    type Value = T14;

    open spec fn spec_index(&self) -> T14 {
        self.13
    }

    open spec fn spec_with_index(self, value: T14) -> (T1, T2, T3, T4, T5, T6, T7, T8, T9, T10, T11, T12, T13, T14, T15, T16, T17, T18, T19, T20, T21, T22, T23, T24, T25) {
        (self.0, self.1, self.2, self.3, self.4, self.5, self.6, self.7, self.8, self.9, self.10, self.11, self.12, value, self.14, self.15, self.16, self.17, self.18, self.19, self.20, self.21, self.22, self.23, self.24)
    }

    fn index_ref(&self) -> (r: &T14) {
        &self.13
    }

    fn index_mut(&mut self) -> (r: &mut T14) {
        &mut self.13
    }

    fn into_index(self) -> (r: T14) {
        self.13
    }

    proof fn lemma_index_in_range(&self) {
    }
}

impl<T1, T2, T3, T4, T5, T6, T7, T8, T9, T10, T11, T12, T13, T14, T15, T16, T17, T18, T19, T20, T21, T22, T23, T24, T25> IndexableTuple<14> for (T1, T2, T3, T4, T5, T6, T7, T8, T9, T10, T11, T12, T13, T14, T15, T16, T17, T18, T19, T20, T21, T22, T23, T24, T25) {
    type Value = T15;

    open spec fn spec_index(&self) -> T15 {
        self.14
    }

    open spec fn spec_with_index(self, value: T15) -> (T1, T2, T3, T4, T5, T6, T7, T8, T9, T10, T11, T12, T13, T14, T15, T16, T17, T18, T19, T20, T21, T22, T23, T24, T25) {
        (self.0, self.1, self.2, self.3, self.4, self.5, self.6, self.7, self.8, self.9, self.10, self.11, self.12, self.13, value, self.15, self.16, self.17, self.18, self.19, self.20, self.21, self.22, self.23, self.24)
    }

    fn index_ref(&self) -> (r: &T15) {
        &self.14
    }

    fn index_mut(&mut self) -> (r: &mut T15) {
        &mut self.14
    }

    fn into_index(self) -> (r: T15) {
        self.14
    }

    proof fn lemma_index_in_range(&self) {
    }
}

impl<T1, T2, T3, T4, T5, T6, T7, T8, T9, T10, T11, T12, T13, T14, T15, T16, T17, T18, T19, T20, T21, T22, T23, T24, T25> IndexableTuple<15> for (T1, T2, T3, T4, T5, T6, T7, T8, T9, T10, T11, T12, T13, T14, T15, T16, T17, T18, T19, T20, T21, T22, T23, T24, T25) {
    type Value = T16;

    open spec fn spec_index(&self) -> T16 {
        self.15
    }

    open spec fn spec_with_index(self, value: T16) -> (T1, T2, T3, T4, T5, T6, T7, T8, T9, T10, T11, T12, T13, T14, T15, T16, T17, T18, T19, T20, T21, T22, T23, T24, T25) {
        (self.0, self.1, self.2, self.3, self.4, self.5, self.6, self.7, self.8, self.9, self.10, self.11, self.12, self.13, self.14, value, self.16, self.17, self.18, self.19, self.20, self.21, self.22, self.23, self.24)
    }

    fn index_ref(&self) -> (r: &T16) {
        &self.15
    }

    fn index_mut(&mut self) -> (r: &mut T16) {
        &mut self.15
    }

    fn into_index(self) -> (r: T16) {
        self.15
    }

    proof fn lemma_index_in_range(&self) {
    }
}

impl<T1, T2, T3, T4, T5, T6, T7, T8, T9, T10, T11, T12, T13, T14, T15, T16, T17, T18, T19, T20, T21, T22, T23, T24, T25> IndexableTuple<16> for (T1, T2, T3, T4, T5, T6, T7, T8, T9, T10, T11, T12, T13, T14, T15, T16, T17, T18, T19, T20, T21, T22, T23, T24, T25) {
    type Value = T17;

    open spec fn spec_index(&self) -> T17 {
        self.16
    }

    open spec fn spec_with_index(self, value: T17) -> (T1, T2, T3, T4, T5, T6, T7, T8, T9, T10, T11, T12, T13, T14, T15, T16, T17, T18, T19, T20, T21, T22, T23, T24, T25) {
        (self.0, self.1, self.2, self.3, self.4, self.5, self.6, self.7, self.8, self.9, self.10, self.11, self.12, self.13, self.14, self.15, value, self.17, self.18, self.19, self.20, self.21, self.22, self.23, self.24)
    }

    fn index_ref(&self) -> (r: &T17) {
        &self.16
    }

    fn index_mut(&mut self) -> (r: &mut T17) {
        &mut self.16
    }

    fn into_index(self) -> (r: T17) {
        self.16
    }

    proof fn lemma_index_in_range(&self) {
    }
}

impl<T1, T2, T3, T4, T5, T6, T7, T8, T9, T10, T11, T12, T13, T14, T15, T16, T17, T18, T19, T20, T21, T22, T23, T24, T25> IndexableTuple<17> for (T1, T2, T3, T4, T5, T6, T7, T8, T9, T10, T11, T12, T13, T14, T15, T16, T17, T18, T19, T20, T21, T22, T23, T24, T25) {
    type Value = T18;

    open spec fn spec_index(&self) -> T18 {
        self.17
    }

    open spec fn spec_with_index(self, value: T18) -> (T1, T2, T3, T4, T5, T6, T7, T8, T9, T10, T11, T12, T13, T14, T15, T16, T17, T18, T19, T20, T21, T22, T23, T24, T25) {
        (self.0, self.1, self.2, self.3, self.4, self.5, self.6, self.7, self.8, self.9, self.10, self.11, self.12, self.13, self.14, self.15, self.16, value, self.18, self.19, self.20, self.21, self.22, self.23, self.24)
    }

    fn index_ref(&self) -> (r: &T18) {
        &self.17
    }

    fn index_mut(&mut self) -> (r: &mut T18) {
        &mut self.17
    }

    fn into_index(self) -> (r: T18) {
        self.17
    }

    proof fn lemma_index_in_range(&self) {
    }
}

impl<T1, T2, T3, T4, T5, T6, T7, T8, T9, T10, T11, T12, T13, T14, T15, T16, T17, T18, T19, T20, T21, T22, T23, T24, T25> IndexableTuple<18> for (T1, T2, T3, T4, T5, T6, T7, T8, T9, T10, T11, T12, T13, T14, T15, T16, T17, T18, T19, T20, T21, T22, T23, T24, T25) {
    type Value = T19;

    open spec fn spec_index(&self) -> T19 {
        self.18
    }

    open spec fn spec_with_index(self, value: T19) -> (T1, T2, T3, T4, T5, T6, T7, T8, T9, T10, T11, T12, T13, T14, T15, T16, T17, T18, T19, T20, T21, T22, T23, T24, T25) {
        (self.0, self.1, self.2, self.3, self.4, self.5, self.6, self.7, self.8, self.9, self.10, self.11, self.12, self.13, self.14, self.15, self.16, self.17, value, self.19, self.20, self.21, self.22, self.23, self.24)
    }

    fn index_ref(&self) -> (r: &T19) {
        &self.18
    }

    fn index_mut(&mut self) -> (r: &mut T19) {
        &mut self.18
    }

    fn into_index(self) -> (r: T19) {
        self.18
    }

    proof fn lemma_index_in_range(&self) {
    }
}

impl<T1, T2, T3, T4, T5, T6, T7, T8, T9, T10, T11, T12, T13, T14, T15, T16, T17, T18, T19, T20, T21, T22, T23, T24, T25> IndexableTuple<19> for (T1, T2, T3, T4, T5, T6, T7, T8, T9, T10, T11, T12, T13, T14, T15, T16, T17, T18, T19, T20, T21, T22, T23, T24, T25) {
    type Value = T20;

    open spec fn spec_index(&self) -> T20 {
        self.19
    }

    open spec fn spec_with_index(self, value: T20) -> (T1, T2, T3, T4, T5, T6, T7, T8, T9, T10, T11, T12, T13, T14, T15, T16, T17, T18, T19, T20, T21, T22, T23, T24, T25) {
        (self.0, self.1, self.2, self.3, self.4, self.5, self.6, self.7, self.8, self.9, self.10, self.11, self.12, self.13, self.14, self.15, self.16, self.17, self.18, value, self.20, self.21, self.22, self.23, self.24)
    }

    fn index_ref(&self) -> (r: &T20) {
        &self.19
    }

    fn index_mut(&mut self) -> (r: &mut T20) {
        &mut self.19
    }

    fn into_index(self) -> (r: T20) {
        self.19
    }

    proof fn lemma_index_in_range(&self) {
    }
}

impl<T1, T2, T3, T4, T5, T6, T7, T8, T9, T10, T11, T12, T13, T14, T15, T16, T17, T18, T19, T20, T21, T22, T23, T24, T25> IndexableTuple<20> for (T1, T2, T3, T4, T5, T6, T7, T8, T9, T10, T11, T12, T13, T14, T15, T16, T17, T18, T19, T20, T21, T22, T23, T24, T25) {
    type Value = T21;

    open spec fn spec_index(&self) -> T21 {
        self.20
    }

    open spec fn spec_with_index(self, value: T21) -> (T1, T2, T3, T4, T5, T6, T7, T8, T9, T10, T11, T12, T13, T14, T15, T16, T17, T18, T19, T20, T21, T22, T23, T24, T25) {
        (self.0, self.1, self.2, self.3, self.4, self.5, self.6, self.7, self.8, self.9, self.10, self.11, self.12, self.13, self.14, self.15, self.16, self.17, self.18, self.19, value, self.21, self.22, self.23, self.24)
    }

    fn index_ref(&self) -> (r: &T21) {
        &self.20
    }

    fn index_mut(&mut self) -> (r: &mut T21) {
        &mut self.20
    }

    fn into_index(self) -> (r: T21) {
        self.20
    }

    proof fn lemma_index_in_range(&self) {
    }
}

impl<T1, T2, T3, T4, T5, T6, T7, T8, T9, T10, T11, T12, T13, T14, T15, T16, T17, T18, T19, T20, T21, T22, T23, T24, T25> IndexableTuple<21> for (T1, T2, T3, T4, T5, T6, T7, T8, T9, T10, T11, T12, T13, T14, T15, T16, T17, T18, T19, T20, T21, T22, T23, T24, T25) {
    type Value = T22;

    open spec fn spec_index(&self) -> T22 {
        self.21
    }

    open spec fn spec_with_index(self, value: T22) -> (T1, T2, T3, T4, T5, T6, T7, T8, T9, T10, T11, T12, T13, T14, T15, T16, T17, T18, T19, T20, T21, T22, T23, T24, T25) {
        (self.0, self.1, self.2, self.3, self.4, self.5, self.6, self.7, self.8, self.9, self.10, self.11, self.12, self.13, self.14, self.15, self.16, self.17, self.18, self.19, self.20, value, self.22, self.23, self.24)
    }

    fn index_ref(&self) -> (r: &T22) {
        &self.21
    }

    fn index_mut(&mut self) -> (r: &mut T22) {
        &mut self.21
    }

    fn into_index(self) -> (r: T22) {
        self.21
    }

    proof fn lemma_index_in_range(&self) {
    }
}

impl<T1, T2, T3, T4, T5, T6, T7, T8, T9, T10, T11, T12, T13, T14, T15, T16, T17, T18, T19, T20, T21, T22, T23, T24, T25> IndexableTuple<22> for (T1, T2, T3, T4, T5, T6, T7, T8, T9, T10, T11, T12, T13, T14, T15, T16, T17, T18, T19, T20, T21, T22, T23, T24, T25) {
    type Value = T23;

    open spec fn spec_index(&self) -> T23 {
        self.22
    }

    open spec fn spec_with_index(self, value: T23) -> (T1, T2, T3, T4, T5, T6, T7, T8, T9, T10, T11, T12, T13, T14, T15, T16, T17, T18, T19, T20, T21, T22, T23, T24, T25) {
        (self.0, self.1, self.2, self.3, self.4, self.5, self.6, self.7, self.8, self.9, self.10, self.11, self.12, self.13, self.14, self.15, self.16, self.17, self.18, self.19, self.20, self.21, value, self.23, self.24)
    }

    fn index_ref(&self) -> (r: &T23) {
        &self.22
    }

    fn index_mut(&mut self) -> (r: &mut T23) {
        &mut self.22
    }

    fn into_index(self) -> (r: T23) {
        self.22
    }

    proof fn lemma_index_in_range(&self) {
    }
}

impl<T1, T2, T3, T4, T5, T6, T7, T8, T9, T10, T11, T12, T13, T14, T15, T16, T17, T18, T19, T20, T21, T22, T23, T24, T25> IndexableTuple<23> for (T1, T2, T3, T4, T5, T6, T7, T8, T9, T10, T11, T12, T13, T14, T15, T16, T17, T18, T19, T20, T21, T22, T23, T24, T25) {
    type Value = T24;

    open spec fn spec_index(&self) -> T24 {
        self.23
    }

    open spec fn spec_with_index(self, value: T24) -> (T1, T2, T3, T4, T5, T6, T7, T8, T9, T10, T11, T12, T13, T14, T15, T16, T17, T18, T19, T20, T21, T22, T23, T24, T25) {
        (self.0, self.1, self.2, self.3, self.4, self.5, self.6, self.7, self.8, self.9, self.10, self.11, self.12, self.13, self.14, self.15, self.16, self.17, self.18, self.19, self.20, self.21, self.22, value, self.24)
    }

    fn index_ref(&self) -> (r: &T24) {
        &self.23
    }

    fn index_mut(&mut self) -> (r: &mut T24) {
        &mut self.23
    }

    fn into_index(self) -> (r: T24) {
        self.23
    }

    proof fn lemma_index_in_range(&self) {
    }
}

impl<T1, T2, T3, T4, T5, T6, T7, T8, T9, T10, T11, T12, T13, T14, T15, T16, T17, T18, T19, T20, T21, T22, T23, T24, T25> IndexableTuple<24> for (T1, T2, T3, T4, T5, T6, T7, T8, T9, T10, T11, T12, T13, T14, T15, T16, T17, T18, T19, T20, T21, T22, T23, T24, T25) {
    type Value = T25;

    open spec fn spec_index(&self) -> T25 {
        self.24
    }

    open spec fn spec_with_index(self, value: T25) -> (T1, T2, T3, T4, T5, T6, T7, T8, T9, T10, T11, T12, T13, T14, T15, T16, T17, T18, T19, T20, T21, T22, T23, T24, T25) {
        (self.0, self.1, self.2, self.3, self.4, self.5, self.6, self.7, self.8, self.9, self.10, self.11, self.12, self.13, self.14, self.15, self.16, self.17, self.18, self.19, self.20, self.21, self.22, self.23, value)
    }

    fn index_ref(&self) -> (r: &T25) {
        &self.24
    }

    fn index_mut(&mut self) -> (r: &mut T25) {
        &mut self.24
    }

    fn into_index(self) -> (r: T25) {
        self.24
    }

    proof fn lemma_index_in_range(&self) {
    }
}

impl<T1, T2, T3, T4, T5, T6, T7, T8, T9, T10, T11, T12, T13, T14, T15, T16, T17, T18, T19, T20, T21, T22, T23, T24, T25> JoinableTuple<(T1, T2, T3, T4, T5, T6, T7, T8, T9, T10, T11, T12, T13, T14, T15, T16, T17, T18, T19, T20, T21, T22, T23, T24, T25)> for () {
    type Join = (T1, T2, T3, T4, T5, T6, T7, T8, T9, T10, T11, T12, T13, T14, T15, T16, T17, T18, T19, T20, T21, T22, T23, T24, T25);

    open spec fn spec_join(self, other: (T1, T2, T3, T4, T5, T6, T7, T8, T9, T10, T11, T12, T13, T14, T15, T16, T17, T18, T19, T20, T21, T22, T23, T24, T25)) -> (T1, T2, T3, T4, T5, T6, T7, T8, T9, T10, T11, T12, T13, T14, T15, T16, T17, T18, T19, T20, T21, T22, T23, T24, T25) {
        (other.0, other.1, other.2, other.3, other.4, other.5, other.6, other.7, other.8, other.9, other.10, other.11, other.12, other.13, other.14, other.15, other.16, other.17, other.18, other.19, other.20, other.21, other.22, other.23, other.24)
    }

    fn join(self, other: (T1, T2, T3, T4, T5, T6, T7, T8, T9, T10, T11, T12, T13, T14, T15, T16, T17, T18, T19, T20, T21, T22, T23, T24, T25)) -> (r: (T1, T2, T3, T4, T5, T6, T7, T8, T9, T10, T11, T12, T13, T14, T15, T16, T17, T18, T19, T20, T21, T22, T23, T24, T25)) {
        (other.0, other.1, other.2, other.3, other.4, other.5, other.6, other.7, other.8, other.9, other.10, other.11, other.12, other.13, other.14, other.15, other.16, other.17, other.18, other.19, other.20, other.21, other.22, other.23, other.24)
    }

    proof fn lemma_join_arity(self, other: (T1, T2, T3, T4, T5, T6, T7, T8, T9, T10, T11, T12, T13, T14, T15, T16, T17, T18, T19, T20, T21, T22, T23, T24, T25)) {
    }
}

impl<T1, T2, T3, T4, T5, T6, T7, T8, T9, T10, T11, T12, T13, T14, T15, T16, T17, T18, T19, T20, T21, T22, T23, T24, T25> JoinableTuple<(T2, T3, T4, T5, T6, T7, T8, T9, T10, T11, T12, T13, T14, T15, T16, T17, T18, T19, T20, T21, T22, T23, T24, T25)> for (T1,) {
    type Join = (T1, T2, T3, T4, T5, T6, T7, T8, T9, T10, T11, T12, T13, T14, T15, T16, T17, T18, T19, T20, T21, T22, T23, T24, T25);

    open spec fn spec_join(self, other: (T2, T3, T4, T5, T6, T7, T8, T9, T10, T11, T12, T13, T14, T15, T16, T17, T18, T19, T20, T21, T22, T23, T24, T25)) -> (T1, T2, T3, T4, T5, T6, T7, T8, T9, T10, T11, T12, T13, T14, T15, T16, T17, T18, T19, T20, T21, T22, T23, T24, T25) {
        (self.0, other.0, other.1, other.2, other.3, other.4, other.5, other.6, other.7, other.8, other.9, other.10, other.11, other.12, other.13, other.14, other.15, other.16, other.17, other.18, other.19, other.20, other.21, other.22, other.23)
    }

    fn join(self, other: (T2, T3, T4, T5, T6, T7, T8, T9, T10, T11, T12, T13, T14, T15, T16, T17, T18, T19, T20, T21, T22, T23, T24, T25)) -> (r: (T1, T2, T3, T4, T5, T6, T7, T8, T9, T10, T11, T12, T13, T14, T15, T16, T17, T18, T19, T20, T21, T22, T23, T24, T25)) {
        (self.0, other.0, other.1, other.2, other.3, other.4, other.5, other.6, other.7, other.8, other.9, other.10, other.11, other.12, other.13, other.14, other.15, other.16, other.17, other.18, other.19, other.20, other.21, other.22, other.23)
    }

    proof fn lemma_join_arity(self, other: (T2, T3, T4, T5, T6, T7, T8, T9, T10, T11, T12, T13, T14, T15, T16, T17, T18, T19, T20, T21, T22, T23, T24, T25)) {
    }
}

impl<T1, T2, T3, T4, T5, T6, T7, T8, T9, T10, T11, T12, T13, T14, T15, T16, T17, T18, T19, T20, T21, T22, T23, T24, T25> JoinableTuple<(T3, T4, T5, T6, T7, T8, T9, T10, T11, T12, T13, T14, T15, T16, T17, T18, T19, T20, T21, T22, T23, T24, T25)> for (T1, T2) {
    type Join = (T1, T2, T3, T4, T5, T6, T7, T8, T9, T10, T11, T12, T13, T14, T15, T16, T17, T18, T19, T20, T21, T22, T23, T24, T25);

    open spec fn spec_join(self, other: (T3, T4, T5, T6, T7, T8, T9, T10, T11, T12, T13, T14, T15, T16, T17, T18, T19, T20, T21, T22, T23, T24, T25)) -> (T1, T2, T3, T4, T5, T6, T7, T8, T9, T10, T11, T12, T13, T14, T15, T16, T17, T18, T19, T20, T21, T22, T23, T24, T25) {
        (self.0, self.1, other.0, other.1, other.2, other.3, other.4, other.5, other.6, other.7, other.8, other.9, other.10, other.11, other.12, other.13, other.14, other.15, other.16, other.17, other.18, other.19, other.20, other.21, other.22)
    }

    fn join(self, other: (T3, T4, T5, T6, T7, T8, T9, T10, T11, T12, T13, T14, T15, T16, T17, T18, T19, T20, T21, T22, T23, T24, T25)) -> (r: (T1, T2, T3, T4, T5, T6, T7, T8, T9, T10, T11, T12, T13, T14, T15, T16, T17, T18, T19, T20, T21, T22, T23, T24, T25)) {
        (self.0, self.1, other.0, other.1, other.2, other.3, other.4, other.5, other.6, other.7, other.8, other.9, other.10, other.11, other.12, other.13, other.14, other.15, other.16, other.17, other.18, other.19, other.20, other.21, other.22)
    }

    proof fn lemma_join_arity(self, other: (T3, T4, T5, T6, T7, T8, T9, T10, T11, T12, T13, T14, T15, T16, T17, T18, T19, T20, T21, T22, T23, T24, T25)) {
    }
}

impl<T1, T2, T3, T4, T5, T6, T7, T8, T9, T10, T11, T12, T13, T14, T15, T16, T17, T18, T19, T20, T21, T22, T23, T24, T25> JoinableTuple<(T4, T5, T6, T7, T8, T9, T10, T11, T12, T13, T14, T15, T16, T17, T18, T19, T20, T21, T22, T23, T24, T25)> for (T1, T2, T3) {
    type Join = (T1, T2, T3, T4, T5, T6, T7, T8, T9, T10, T11, T12, T13, T14, T15, T16, T17, T18, T19, T20, T21, T22, T23, T24, T25);

    open spec fn spec_join(self, other: (T4, T5, T6, T7, T8, T9, T10, T11, T12, T13, T14, T15, T16, T17, T18, T19, T20, T21, T22, T23, T24, T25)) -> (T1, T2, T3, T4, T5, T6, T7, T8, T9, T10, T11, T12, T13, T14, T15, T16, T17, T18, T19, T20, T21, T22, T23, T24, T25) {
        (self.0, self.1, self.2, other.0, other.1, other.2, other.3, other.4, other.5, other.6, other.7, other.8, other.9, other.10, other.11, other.12, other.13, other.14, other.15, other.16, other.17, other.18, other.19, other.20, other.21)
    }

    fn join(self, other: (T4, T5, T6, T7, T8, T9, T10, T11, T12, T13, T14, T15, T16, T17, T18, T19, T20, T21, T22, T23, T24, T25)) -> (r: (T1, T2, T3, T4, T5, T6, T7, T8, T9, T10, T11, T12, T13, T14, T15, T16, T17, T18, T19, T20, T21, T22, T23, T24, T25)) {
        (self.0, self.1, self.2, other.0, other.1, other.2, other.3, other.4, other.5, other.6, other.7, other.8, other.9, other.10, other.11, other.12, other.13, other.14, other.15, other.16, other.17, other.18, other.19, other.20, other.21)
    }

    proof fn lemma_join_arity(self, other: (T4, T5, T6, T7, T8, T9, T10, T11, T12, T13, T14, T15, T16, T17, T18, T19, T20, T21, T22, T23, T24, T25)) {
    }
}

impl<T1, T2, T3, T4, T5, T6, T7, T8, T9, T10, T11, T12, T13, T14, T15, T16, T17, T18, T19, T20, T21, T22, T23, T24, T25> JoinableTuple<(T5, T6, T7, T8, T9, T10, T11, T12, T13, T14, T15, T16, T17, T18, T19, T20, T21, T22, T23, T24, T25)> for (T1, T2, T3, T4) {
    type Join = (T1, T2, T3, T4, T5, T6, T7, T8, T9, T10, T11, T12, T13, T14, T15, T16, T17, T18, T19, T20, T21, T22, T23, T24, T25);

    open spec fn spec_join(self, other: (T5, T6, T7, T8, T9, T10, T11, T12, T13, T14, T15, T16, T17, T18, T19, T20, T21, T22, T23, T24, T25)) -> (T1, T2, T3, T4, T5, T6, T7, T8, T9, T10, T11, T12, T13, T14, T15, T16, T17, T18, T19, T20, T21, T22, T23, T24, T25) {
        (self.0, self.1, self.2, self.3, other.0, other.1, other.2, other.3, other.4, other.5, other.6, other.7, other.8, other.9, other.10, other.11, other.12, other.13, other.14, other.15, other.16, other.17, other.18, other.19, other.20)
    }

    fn join(self, other: (T5, T6, T7, T8, T9, T10, T11, T12, T13, T14, T15, T16, T17, T18, T19, T20, T21, T22, T23, T24, T25)) -> (r: (T1, T2, T3, T4, T5, T6, T7, T8, T9, T10, T11, T12, T13, T14, T15, T16, T17, T18, T19, T20, T21, T22, T23, T24, T25)) {
        (self.0, self.1, self.2, self.3, other.0, other.1, other.2, other.3, other.4, other.5, other.6, other.7, other.8, other.9, other.10, other.11, other.12, other.13, other.14, other.15, other.16, other.17, other.18, other.19, other.20)
    }

    proof fn lemma_join_arity(self, other: (T5, T6, T7, T8, T9, T10, T11, T12, T13, T14, T15, T16, T17, T18, T19, T20, T21, T22, T23, T24, T25)) {
    }
}

impl<T1, T2, T3, T4, T5, T6, T7, T8, T9, T10, T11, T12, T13, T14, T15, T16, T17, T18, T19, T20, T21, T22, T23, T24, T25> JoinableTuple<(T6, T7, T8, T9, T10, T11, T12, T13, T14, T15, T16, T17, T18, T19, T20, T21, T22, T23, T24, T25)> for (T1, T2, T3, T4, T5) {
    type Join = (T1, T2, T3, T4, T5, T6, T7, T8, T9, T10, T11, T12, T13, T14, T15, T16, T17, T18, T19, T20, T21, T22, T23, T24, T25);

    open spec fn spec_join(self, other: (T6, T7, T8, T9, T10, T11, T12, T13, T14, T15, T16, T17, T18, T19, T20, T21, T22, T23, T24, T25)) -> (T1, T2, T3, T4, T5, T6, T7, T8, T9, T10, T11, T12, T13, T14, T15, T16, T17, T18, T19, T20, T21, T22, T23, T24, T25) {
        (self.0, self.1, self.2, self.3, self.4, other.0, other.1, other.2, other.3, other.4, other.5, other.6, other.7, other.8, other.9, other.10, other.11, other.12, other.13, other.14, other.15, other.16, other.17, other.18, other.19)
    }

    fn join(self, other: (T6, T7, T8, T9, T10, T11, T12, T13, T14, T15, T16, T17, T18, T19, T20, T21, T22, T23, T24, T25)) -> (r: (T1, T2, T3, T4, T5, T6, T7, T8, T9, T10, T11, T12, T13, T14, T15, T16, T17, T18, T19, T20, T21, T22, T23, T24, T25)) {
        (self.0, self.1, self.2, self.3, self.4, other.0, other.1, other.2, other.3, other.4, other.5, other.6, other.7, other.8, other.9, other.10, other.11, other.12, other.13, other.14, other.15, other.16, other.17, other.18, other.19)
    }

    proof fn lemma_join_arity(self, other: (T6, T7, T8, T9, T10, T11, T12, T13, T14, T15, T16, T17, T18, T19, T20, T21, T22, T23, T24, T25)) {
    }
}

impl<T1, T2, T3, T4, T5, T6, T7, T8, T9, T10, T11, T12, T13, T14, T15, T16, T17, T18, T19, T20, T21, T22, T23, T24, T25> JoinableTuple<(T7, T8, T9, T10, T11, T12, T13, T14, T15, T16, T17, T18, T19, T20, T21, T22, T23, T24, T25)> for (T1, T2, T3, T4, T5, T6) {
    type Join = (T1, T2, T3, T4, T5, T6, T7, T8, T9, T10, T11, T12, T13, T14, T15, T16, T17, T18, T19, T20, T21, T22, T23, T24, T25);

    open spec fn spec_join(self, other: (T7, T8, T9, T10, T11, T12, T13, T14, T15, T16, T17, T18, T19, T20, T21, T22, T23, T24, T25)) -> (T1, T2, T3, T4, T5, T6, T7, T8, T9, T10, T11, T12, T13, T14, T15, T16, T17, T18, T19, T20, T21, T22, T23, T24, T25) {
        (self.0, self.1, self.2, self.3, self.4, self.5, other.0, other.1, other.2, other.3, other.4, other.5, other.6, other.7, other.8, other.9, other.10, other.11, other.12, other.13, other.14, other.15, other.16, other.17, other.18)
    }

    fn join(self, other: (T7, T8, T9, T10, T11, T12, T13, T14, T15, T16, T17, T18, T19, T20, T21, T22, T23, T24, T25)) -> (r: (T1, T2, T3, T4, T5, T6, T7, T8, T9, T10, T11, T12, T13, T14, T15, T16, T17, T18, T19, T20, T21, T22, T23, T24, T25)) {
        (self.0, self.1, self.2, self.3, self.4, self.5, other.0, other.1, other.2, other.3, other.4, other.5, other.6, other.7, other.8, other.9, other.10, other.11, other.12, other.13, other.14, other.15, other.16, other.17, other.18)
    }

    proof fn lemma_join_arity(self, other: (T7, T8, T9, T10, T11, T12, T13, T14, T15, T16, T17, T18, T19, T20, T21, T22, T23, T24, T25)) {
    }
}

impl<T1, T2, T3, T4, T5, T6, T7, T8, T9, T10, T11, T12, T13, T14, T15, T16, T17, T18, T19, T20, T21, T22, T23, T24, T25> JoinableTuple<(T8, T9, T10, T11, T12, T13, T14, T15, T16, T17, T18, T19, T20, T21, T22, T23, T24, T25)> for (T1, T2, T3, T4, T5, T6, T7) {
    type Join = (T1, T2, T3, T4, T5, T6, T7, T8, T9, T10, T11, T12, T13, T14, T15, T16, T17, T18, T19, T20, T21, T22, T23, T24, T25);

    open spec fn spec_join(self, other: (T8, T9, T10, T11, T12, T13, T14, T15, T16, T17, T18, T19, T20, T21, T22, T23, T24, T25)) -> (T1, T2, T3, T4, T5, T6, T7, T8, T9, T10, T11, T12, T13, T14, T15, T16, T17, T18, T19, T20, T21, T22, T23, T24, T25) {
        (self.0, self.1, self.2, self.3, self.4, self.5, self.6, other.0, other.1, other.2, other.3, other.4, other.5, other.6, other.7, other.8, other.9, other.10, other.11, other.12, other.13, other.14, other.15, other.16, other.17)
    }

    fn join(self, other: (T8, T9, T10, T11, T12, T13, T14, T15, T16, T17, T18, T19, T20, T21, T22, T23, T24, T25)) -> (r: (T1, T2, T3, T4, T5, T6, T7, T8, T9, T10, T11, T12, T13, T14, T15, T16, T17, T18, T19, T20, T21, T22, T23, T24, T25)) {
        (self.0, self.1, self.2, self.3, self.4, self.5, self.6, other.0, other.1, other.2, other.3, other.4, other.5, other.6, other.7, other.8, other.9, other.10, other.11, other.12, other.13, other.14, other.15, other.16, other.17)
    }

    proof fn lemma_join_arity(self, other: (T8, T9, T10, T11, T12, T13, T14, T15, T16, T17, T18, T19, T20, T21, T22, T23, T24, T25)) {
    }
}

impl<T1, T2, T3, T4, T5, T6, T7, T8, T9, T10, T11, T12, T13, T14, T15, T16, T17, T18, T19, T20, T21, T22, T23, T24, T25> JoinableTuple<(T9, T10, T11, T12, T13, T14, T15, T16, T17, T18, T19, T20, T21, T22, T23, T24, T25)> for (T1, T2, T3, T4, T5, T6, T7, T8) {
    type Join = (T1, T2, T3, T4, T5, T6, T7, T8, T9, T10, T11, T12, T13, T14, T15, T16, T17, T18, T19, T20, T21, T22, T23, T24, T25);

    open spec fn spec_join(self, other: (T9, T10, T11, T12, T13, T14, T15, T16, T17, T18, T19, T20, T21, T22, T23, T24, T25)) -> (T1, T2, T3, T4, T5, T6, T7, T8, T9, T10, T11, T12, T13, T14, T15, T16, T17, T18, T19, T20, T21, T22, T23, T24, T25) {
        (self.0, self.1, self.2, self.3, self.4, self.5, self.6, self.7, other.0, other.1, other.2, other.3, other.4, other.5, other.6, other.7, other.8, other.9, other.10, other.11, other.12, other.13, other.14, other.15, other.16)
    }

    fn join(self, other: (T9, T10, T11, T12, T13, T14, T15, T16, T17, T18, T19, T20, T21, T22, T23, T24, T25)) -> (r: (T1, T2, T3, T4, T5, T6, T7, T8, T9, T10, T11, T12, T13, T14, T15, T16, T17, T18, T19, T20, T21, T22, T23, T24, T25)) {
        (self.0, self.1, self.2, self.3, self.4, self.5, self.6, self.7, other.0, other.1, other.2, other.3, other.4, other.5, other.6, other.7, other.8, other.9, other.10, other.11, other.12, other.13, other.14, other.15, other.16)
    }

    proof fn lemma_join_arity(self, other: (T9, T10, T11, T12, T13, T14, T15, T16, T17, T18, T19, T20, T21, T22, T23, T24, T25)) {
    }
}

impl<T1, T2, T3, T4, T5, T6, T7, T8, T9, T10, T11, T12, T13, T14, T15, T16, T17, T18, T19, T20, T21, T22, T23, T24, T25> JoinableTuple<(T10, T11, T12, T13, T14, T15, T16, T17, T18, T19, T20, T21, T22, T23, T24, T25)> for (T1, T2, T3, T4, T5, T6, T7, T8, T9) {
    type Join = (T1, T2, T3, T4, T5, T6, T7, T8, T9, T10, T11, T12, T13, T14, T15, T16, T17, T18, T19, T20, T21, T22, T23, T24, T25);

    open spec fn spec_join(self, other: (T10, T11, T12, T13, T14, T15, T16, T17, T18, T19, T20, T21, T22, T23, T24, T25)) -> (T1, T2, T3, T4, T5, T6, T7, T8, T9, T10, T11, T12, T13, T14, T15, T16, T17, T18, T19, T20, T21, T22, T23, T24, T25) {
        (self.0, self.1, self.2, self.3, self.4, self.5, self.6, self.7, self.8, other.0, other.1, other.2, other.3, other.4, other.5, other.6, other.7, other.8, other.9, other.10, other.11, other.12, other.13, other.14, other.15)
    }

    fn join(self, other: (T10, T11, T12, T13, T14, T15, T16, T17, T18, T19, T20, T21, T22, T23, T24, T25)) -> (r: (T1, T2, T3, T4, T5, T6, T7, T8, T9, T10, T11, T12, T13, T14, T15, T16, T17, T18, T19, T20, T21, T22, T23, T24, T25)) {
        (self.0, self.1, self.2, self.3, self.4, self.5, self.6, self.7, self.8, other.0, other.1, other.2, other.3, other.4, other.5, other.6, other.7, other.8, other.9, other.10, other.11, other.12, other.13, other.14, other.15)
    }

    proof fn lemma_join_arity(self, other: (T10, T11, T12, T13, T14, T15, T16, T17, T18, T19, T20, T21, T22, T23, T24, T25)) {
    }
}

impl<T1, T2, T3, T4, T5, T6, T7, T8, T9, T10, T11, T12, T13, T14, T15, T16, T17, T18, T19, T20, T21, T22, T23, T24, T25> JoinableTuple<(T11, T12, T13, T14, T15, T16, T17, T18, T19, T20, T21, T22, T23, T24, T25)> for (T1, T2, T3, T4, T5, T6, T7, T8, T9, T10) {
    type Join = (T1, T2, T3, T4, T5, T6, T7, T8, T9, T10, T11, T12, T13, T14, T15, T16, T17, T18, T19, T20, T21, T22, T23, T24, T25);

    open spec fn spec_join(self, other: (T11, T12, T13, T14, T15, T16, T17, T18, T19, T20, T21, T22, T23, T24, T25)) -> (T1, T2, T3, T4, T5, T6, T7, T8, T9, T10, T11, T12, T13, T14, T15, T16, T17, T18, T19, T20, T21, T22, T23, T24, T25) {
        (self.0, self.1, self.2, self.3, self.4, self.5, self.6, self.7, self.8, self.9, other.0, other.1, other.2, other.3, other.4, other.5, other.6, other.7, other.8, other.9, other.10, other.11, other.12, other.13, other.14)
    }

    fn join(self, other: (T11, T12, T13, T14, T15, T16, T17, T18, T19, T20, T21, T22, T23, T24, T25)) -> (r: (T1, T2, T3, T4, T5, T6, T7, T8, T9, T10, T11, T12, T13, T14, T15, T16, T17, T18, T19, T20, T21, T22, T23, T24, T25)) {
        (self.0, self.1, self.2, self.3, self.4, self.5, self.6, self.7, self.8, self.9, other.0, other.1, other.2, other.3, other.4, other.5, other.6, other.7, other.8, other.9, other.10, other.11, other.12, other.13, other.14)
    }

    proof fn lemma_join_arity(self, other: (T11, T12, T13, T14, T15, T16, T17, T18, T19, T20, T21, T22, T23, T24, T25)) {
    }
}

impl<T1, T2, T3, T4, T5, T6, T7, T8, T9, T10, T11, T12, T13, T14, T15, T16, T17, T18, T19, T20, T21, T22, T23, T24, T25> JoinableTuple<(T12, T13, T14, T15, T16, T17, T18, T19, T20, T21, T22, T23, T24, T25)> for (T1, T2, T3, T4, T5, T6, T7, T8, T9, T10, T11) {
    type Join = (T1, T2, T3, T4, T5, T6, T7, T8, T9, T10, T11, T12, T13, T14, T15, T16, T17, T18, T19, T20, T21, T22, T23, T24, T25);

    open spec fn spec_join(self, other: (T12, T13, T14, T15, T16, T17, T18, T19, T20, T21, T22, T23, T24, T25)) -> (T1, T2, T3, T4, T5, T6, T7, T8, T9, T10, T11, T12, T13, T14, T15, T16, T17, T18, T19, T20, T21, T22, T23, T24, T25) {
        (self.0, self.1, self.2, self.3, self.4, self.5, self.6, self.7, self.8, self.9, self.10, other.0, other.1, other.2, other.3, other.4, other.5, other.6, other.7, other.8, other.9, other.10, other.11, other.12, other.13)
    }

    fn join(self, other: (T12, T13, T14, T15, T16, T17, T18, T19, T20, T21, T22, T23, T24, T25)) -> (r: (T1, T2, T3, T4, T5, T6, T7, T8, T9, T10, T11, T12, T13, T14, T15, T16, T17, T18, T19, T20, T21, T22, T23, T24, T25)) {
        (self.0, self.1, self.2, self.3, self.4, self.5, self.6, self.7, self.8, self.9, self.10, other.0, other.1, other.2, other.3, other.4, other.5, other.6, other.7, other.8, other.9, other.10, other.11, other.12, other.13)
    }

    proof fn lemma_join_arity(self, other: (T12, T13, T14, T15, T16, T17, T18, T19, T20, T21, T22, T23, T24, T25)) {
    }
}

impl<T1, T2, T3, T4, T5, T6, T7, T8, T9, T10, T11, T12, T13, T14, T15, T16, T17, T18, T19, T20, T21, T22, T23, T24, T25> JoinableTuple<(T13, T14, T15, T16, T17, T18, T19, T20, T21, T22, T23, T24, T25)> for (T1, T2, T3, T4, T5, T6, T7, T8, T9, T10, T11, T12) {
    type Join = (T1, T2, T3, T4, T5, T6, T7, T8, T9, T10, T11, T12, T13, T14, T15, T16, T17, T18, T19, T20, T21, T22, T23, T24, T25);

    open spec fn spec_join(self, other: (T13, T14, T15, T16, T17, T18, T19, T20, T21, T22, T23, T24, T25)) -> (T1, T2, T3, T4, T5, T6, T7, T8, T9, T10, T11, T12, T13, T14, T15, T16, T17, T18, T19, T20, T21, T22, T23, T24, T25) {
        (self.0, self.1, self.2, self.3, self.4, self.5, self.6, self.7, self.8, self.9, self.10, self.11, other.0, other.1, other.2, other.3, other.4, other.5, other.6, other.7, other.8, other.9, other.10, other.11, other.12)
    }

    fn join(self, other: (T13, T14, T15, T16, T17, T18, T19, T20, T21, T22, T23, T24, T25)) -> (r: (T1, T2, T3, T4, T5, T6, T7, T8, T9, T10, T11, T12, T13, T14, T15, T16, T17, T18, T19, T20, T21, T22, T23, T24, T25)) {
        (self.0, self.1, self.2, self.3, self.4, self.5, self.6, self.7, self.8, self.9, self.10, self.11, other.0, other.1, other.2, other.3, other.4, other.5, other.6, other.7, other.8, other.9, other.10, other.11, other.12)
    }

    proof fn lemma_join_arity(self, other: (T13, T14, T15, T16, T17, T18, T19, T20, T21, T22, T23, T24, T25)) {
    }
}

impl<T1, T2, T3, T4, T5, T6, T7, T8, T9, T10, T11, T12, T13, T14, T15, T16, T17, T18, T19, T20, T21, T22, T23, T24, T25> JoinableTuple<(T14, T15, T16, T17, T18, T19, T20, T21, T22, T23, T24, T25)> for (T1, T2, T3, T4, T5, T6, T7, T8, T9, T10, T11, T12, T13) {
    type Join = (T1, T2, T3, T4, T5, T6, T7, T8, T9, T10, T11, T12, T13, T14, T15, T16, T17, T18, T19, T20, T21, T22, T23, T24, T25);

    open spec fn spec_join(self, other: (T14, T15, T16, T17, T18, T19, T20, T21, T22, T23, T24, T25)) -> (T1, T2, T3, T4, T5, T6, T7, T8, T9, T10, T11, T12, T13, T14, T15, T16, T17, T18, T19, T20, T21, T22, T23, T24, T25) {
        (self.0, self.1, self.2, self.3, self.4, self.5, self.6, self.7, self.8, self.9, self.10, self.11, self.12, other.0, other.1, other.2, other.3, other.4, other.5, other.6, other.7, other.8, other.9, other.10, other.11)
    }

    fn join(self, other: (T14, T15, T16, T17, T18, T19, T20, T21, T22, T23, T24, T25)) -> (r: (T1, T2, T3, T4, T5, T6, T7, T8, T9, T10, T11, T12, T13, T14, T15, T16, T17, T18, T19, T20, T21, T22, T23, T24, T25)) {
        (self.0, self.1, self.2, self.3, self.4, self.5, self.6, self.7, self.8, self.9, self.10, self.11, self.12, other.0, other.1, other.2, other.3, other.4, other.5, other.6, other.7, other.8, other.9, other.10, other.11)
    }

    proof fn lemma_join_arity(self, other: (T14, T15, T16, T17, T18, T19, T20, T21, T22, T23, T24, T25)) {
    }
}

impl<T1, T2, T3, T4, T5, T6, T7, T8, T9, T10, T11, T12, T13, T14, T15, T16, T17, T18, T19, T20, T21, T22, T23, T24, T25> JoinableTuple<(T15, T16, T17, T18, T19, T20, T21, T22, T23, T24, T25)> for (T1, T2, T3, T4, T5, T6, T7, T8, T9, T10, T11, T12, T13, T14) {
    type Join = (T1, T2, T3, T4, T5, T6, T7, T8, T9, T10, T11, T12, T13, T14, T15, T16, T17, T18, T19, T20, T21, T22, T23, T24, T25);

    open spec fn spec_join(self, other: (T15, T16, T17, T18, T19, T20, T21, T22, T23, T24, T25)) -> (T1, T2, T3, T4, T5, T6, T7, T8, T9, T10, T11, T12, T13, T14, T15, T16, T17, T18, T19, T20, T21, T22, T23, T24, T25) {
        (self.0, self.1, self.2, self.3, self.4, self.5, self.6, self.7, self.8, self.9, self.10, self.11, self.12, self.13, other.0, other.1, other.2, other.3, other.4, other.5, other.6, other.7, other.8, other.9, other.10)
    }

    fn join(self, other: (T15, T16, T17, T18, T19, T20, T21, T22, T23, T24, T25)) -> (r: (T1, T2, T3, T4, T5, T6, T7, T8, T9, T10, T11, T12, T13, T14, T15, T16, T17, T18, T19, T20, T21, T22, T23, T24, T25)) {
        (self.0, self.1, self.2, self.3, self.4, self.5, self.6, self.7, self.8, self.9, self.10, self.11, self.12, self.13, other.0, other.1, other.2, other.3, other.4, other.5, other.6, other.7, other.8, other.9, other.10)
    }

    proof fn lemma_join_arity(self, other: (T15, T16, T17, T18, T19, T20, T21, T22, T23, T24, T25)) {
    }
}

impl<T1, T2, T3, T4, T5, T6, T7, T8, T9, T10, T11, T12, T13, T14, T15, T16, T17, T18, T19, T20, T21, T22, T23, T24, T25> JoinableTuple<(T16, T17, T18, T19, T20, T21, T22, T23, T24, T25)> for (T1, T2, T3, T4, T5, T6, T7, T8, T9, T10, T11, T12, T13, T14, T15) {
    type Join = (T1, T2, T3, T4, T5, T6, T7, T8, T9, T10, T11, T12, T13, T14, T15, T16, T17, T18, T19, T20, T21, T22, T23, T24, T25);

    open spec fn spec_join(self, other: (T16, T17, T18, T19, T20, T21, T22, T23, T24, T25)) -> (T1, T2, T3, T4, T5, T6, T7, T8, T9, T10, T11, T12, T13, T14, T15, T16, T17, T18, T19, T20, T21, T22, T23, T24, T25) {
        (self.0, self.1, self.2, self.3, self.4, self.5, self.6, self.7, self.8, self.9, self.10, self.11, self.12, self.13, self.14, other.0, other.1, other.2, other.3, other.4, other.5, other.6, other.7, other.8, other.9)
    }

    fn join(self, other: (T16, T17, T18, T19, T20, T21, T22, T23, T24, T25)) -> (r: (T1, T2, T3, T4, T5, T6, T7, T8, T9, T10, T11, T12, T13, T14, T15, T16, T17, T18, T19, T20, T21, T22, T23, T24, T25)) {
        (self.0, self.1, self.2, self.3, self.4, self.5, self.6, self.7, self.8, self.9, self.10, self.11, self.12, self.13, self.14, other.0, other.1, other.2, other.3, other.4, other.5, other.6, other.7, other.8, other.9)
    }

    proof fn lemma_join_arity(self, other: (T16, T17, T18, T19, T20, T21, T22, T23, T24, T25)) {
    }
}

impl<T1, T2, T3, T4, T5, T6, T7, T8, T9, T10, T11, T12, T13, T14, T15, T16, T17, T18, T19, T20, T21, T22, T23, T24, T25> JoinableTuple<(T17, T18, T19, T20, T21, T22, T23, T24, T25)> for (T1, T2, T3, T4, T5, T6, T7, T8, T9, T10, T11, T12, T13, T14, T15, T16) {
    type Join = (T1, T2, T3, T4, T5, T6, T7, T8, T9, T10, T11, T12, T13, T14, T15, T16, T17, T18, T19, T20, T21, T22, T23, T24, T25);

    open spec fn spec_join(self, other: (T17, T18, T19, T20, T21, T22, T23, T24, T25)) -> (T1, T2, T3, T4, T5, T6, T7, T8, T9, T10, T11, T12, T13, T14, T15, T16, T17, T18, T19, T20, T21, T22, T23, T24, T25) {
        (self.0, self.1, self.2, self.3, self.4, self.5, self.6, self.7, self.8, self.9, self.10, self.11, self.12, self.13, self.14, self.15, other.0, other.1, other.2, other.3, other.4, other.5, other.6, other.7, other.8)
    }

    fn join(self, other: (T17, T18, T19, T20, T21, T22, T23, T24, T25)) -> (r: (T1, T2, T3, T4, T5, T6, T7, T8, T9, T10, T11, T12, T13, T14, T15, T16, T17, T18, T19, T20, T21, T22, T23, T24, T25)) {
        (self.0, self.1, self.2, self.3, self.4, self.5, self.6, self.7, self.8, self.9, self.10, self.11, self.12, self.13, self.14, self.15, other.0, other.1, other.2, other.3, other.4, other.5, other.6, other.7, other.8)
    }

    proof fn lemma_join_arity(self, other: (T17, T18, T19, T20, T21, T22, T23, T24, T25)) {
    }
}

impl<T1, T2, T3, T4, T5, T6, T7, T8, T9, T10, T11, T12, T13, T14, T15, T16, T17, T18, T19, T20, T21, T22, T23, T24, T25> JoinableTuple<(T18, T19, T20, T21, T22, T23, T24, T25)> for (T1, T2, T3, T4, T5, T6, T7, T8, T9, T10, T11, T12, T13, T14, T15, T16, T17) {
    type Join = (T1, T2, T3, T4, T5, T6, T7, T8, T9, T10, T11, T12, T13, T14, T15, T16, T17, T18, T19, T20, T21, T22, T23, T24, T25);

    open spec fn spec_join(self, other: (T18, T19, T20, T21, T22, T23, T24, T25)) -> (T1, T2, T3, T4, T5, T6, T7, T8, T9, T10, T11, T12, T13, T14, T15, T16, T17, T18, T19, T20, T21, T22, T23, T24, T25) {
        (self.0, self.1, self.2, self.3, self.4, self.5, self.6, self.7, self.8, self.9, self.10, self.11, self.12, self.13, self.14, self.15, self.16, other.0, other.1, other.2, other.3, other.4, other.5, other.6, other.7)
    }

    fn join(self, other: (T18, T19, T20, T21, T22, T23, T24, T25)) -> (r: (T1, T2, T3, T4, T5, T6, T7, T8, T9, T10, T11, T12, T13, T14, T15, T16, T17, T18, T19, T20, T21, T22, T23, T24, T25)) {
        (self.0, self.1, self.2, self.3, self.4, self.5, self.6, self.7, self.8, self.9, self.10, self.11, self.12, self.13, self.14, self.15, self.16, other.0, other.1, other.2, other.3, other.4, other.5, other.6, other.7)
    }

    proof fn lemma_join_arity(self, other: (T18, T19, T20, T21, T22, T23, T24, T25)) {
    }
}

impl<T1, T2, T3, T4, T5, T6, T7, T8, T9, T10, T11, T12, T13, T14, T15, T16, T17, T18, T19, T20, T21, T22, T23, T24, T25> JoinableTuple<(T19, T20, T21, T22, T23, T24, T25)> for (T1, T2, T3, T4, T5, T6, T7, T8, T9, T10, T11, T12, T13, T14, T15, T16, T17, T18) {
    type Join = (T1, T2, T3, T4, T5, T6, T7, T8, T9, T10, T11, T12, T13, T14, T15, T16, T17, T18, T19, T20, T21, T22, T23, T24, T25);

    open spec fn spec_join(self, other: (T19, T20, T21, T22, T23, T24, T25)) -> (T1, T2, T3, T4, T5, T6, T7, T8, T9, T10, T11, T12, T13, T14, T15, T16, T17, T18, T19, T20, T21, T22, T23, T24, T25) {
        (self.0, self.1, self.2, self.3, self.4, self.5, self.6, self.7, self.8, self.9, self.10, self.11, self.12, self.13, self.14, self.15, self.16, self.17, other.0, other.1, other.2, other.3, other.4, other.5, other.6)
    }

    fn join(self, other: (T19, T20, T21, T22, T23, T24, T25)) -> (r: (T1, T2, T3, T4, T5, T6, T7, T8, T9, T10, T11, T12, T13, T14, T15, T16, T17, T18, T19, T20, T21, T22, T23, T24, T25)) {
        (self.0, self.1, self.2, self.3, self.4, self.5, self.6, self.7, self.8, self.9, self.10, self.11, self.12, self.13, self.14, self.15, self.16, self.17, other.0, other.1, other.2, other.3, other.4, other.5, other.6)
    }

    proof fn lemma_join_arity(self, other: (T19, T20, T21, T22, T23, T24, T25)) {
    }
}

impl<T1, T2, T3, T4, T5, T6, T7, T8, T9, T10, T11, T12, T13, T14, T15, T16, T17, T18, T19, T20, T21, T22, T23, T24, T25> JoinableTuple<(T20, T21, T22, T23, T24, T25)> for (T1, T2, T3, T4, T5, T6, T7, T8, T9, T10, T11, T12, T13, T14, T15, T16, T17, T18, T19) {
    type Join = (T1, T2, T3, T4, T5, T6, T7, T8, T9, T10, T11, T12, T13, T14, T15, T16, T17, T18, T19, T20, T21, T22, T23, T24, T25);

    open spec fn spec_join(self, other: (T20, T21, T22, T23, T24, T25)) -> (T1, T2, T3, T4, T5, T6, T7, T8, T9, T10, T11, T12, T13, T14, T15, T16, T17, T18, T19, T20, T21, T22, T23, T24, T25) {
        (self.0, self.1, self.2, self.3, self.4, self.5, self.6, self.7, self.8, self.9, self.10, self.11, self.12, self.13, self.14, self.15, self.16, self.17, self.18, other.0, other.1, other.2, other.3, other.4, other.5)
    }

    fn join(self, other: (T20, T21, T22, T23, T24, T25)) -> (r: (T1, T2, T3, T4, T5, T6, T7, T8, T9, T10, T11, T12, T13, T14, T15, T16, T17, T18, T19, T20, T21, T22, T23, T24, T25)) {
        (self.0, self.1, self.2, self.3, self.4, self.5, self.6, self.7, self.8, self.9, self.10, self.11, self.12, self.13, self.14, self.15, self.16, self.17, self.18, other.0, other.1, other.2, other.3, other.4, other.5)
    }

    proof fn lemma_join_arity(self, other: (T20, T21, T22, T23, T24, T25)) {
    }
}

impl<T1, T2, T3, T4, T5, T6, T7, T8, T9, T10, T11, T12, T13, T14, T15, T16, T17, T18, T19, T20, T21, T22, T23, T24, T25> JoinableTuple<(T21, T22, T23, T24, T25)> for (T1, T2, T3, T4, T5, T6, T7, T8, T9, T10, T11, T12, T13, T14, T15, T16, T17, T18, T19, T20) {
    type Join = (T1, T2, T3, T4, T5, T6, T7, T8, T9, T10, T11, T12, T13, T14, T15, T16, T17, T18, T19, T20, T21, T22, T23, T24, T25);

    open spec fn spec_join(self, other: (T21, T22, T23, T24, T25)) -> (T1, T2, T3, T4, T5, T6, T7, T8, T9, T10, T11, T12, T13, T14, T15, T16, T17, T18, T19, T20, T21, T22, T23, T24, T25) {
        (self.0, self.1, self.2, self.3, self.4, self.5, self.6, self.7, self.8, self.9, self.10, self.11, self.12, self.13, self.14, self.15, self.16, self.17, self.18, self.19, other.0, other.1, other.2, other.3, other.4)
    }

    fn join(self, other: (T21, T22, T23, T24, T25)) -> (r: (T1, T2, T3, T4, T5, T6, T7, T8, T9, T10, T11, T12, T13, T14, T15, T16, T17, T18, T19, T20, T21, T22, T23, T24, T25)) {
        (self.0, self.1, self.2, self.3, self.4, self.5, self.6, self.7, self.8, self.9, self.10, self.11, self.12, self.13, self.14, self.15, self.16, self.17, self.18, self.19, other.0, other.1, other.2, other.3, other.4)
    }

    proof fn lemma_join_arity(self, other: (T21, T22, T23, T24, T25)) {
    }
}

impl<T1, T2, T3, T4, T5, T6, T7, T8, T9, T10, T11, T12, T13, T14, T15, T16, T17, T18, T19, T20, T21, T22, T23, T24, T25> JoinableTuple<(T22, T23, T24, T25)> for (T1, T2, T3, T4, T5, T6, T7, T8, T9, T10, T11, T12, T13, T14, T15, T16, T17, T18, T19, T20, T21) {
    type Join = (T1, T2, T3, T4, T5, T6, T7, T8, T9, T10, T11, T12, T13, T14, T15, T16, T17, T18, T19, T20, T21, T22, T23, T24, T25);

    open spec fn spec_join(self, other: (T22, T23, T24, T25)) -> (T1, T2, T3, T4, T5, T6, T7, T8, T9, T10, T11, T12, T13, T14, T15, T16, T17, T18, T19, T20, T21, T22, T23, T24, T25) {
        (self.0, self.1, self.2, self.3, self.4, self.5, self.6, self.7, self.8, self.9, self.10, self.11, self.12, self.13, self.14, self.15, self.16, self.17, self.18, self.19, self.20, other.0, other.1, other.2, other.3)
    }

    fn join(self, other: (T22, T23, T24, T25)) -> (r: (T1, T2, T3, T4, T5, T6, T7, T8, T9, T10, T11, T12, T13, T14, T15, T16, T17, T18, T19, T20, T21, T22, T23, T24, T25)) {
        (self.0, self.1, self.2, self.3, self.4, self.5, self.6, self.7, self.8, self.9, self.10, self.11, self.12, self.13, self.14, self.15, self.16, self.17, self.18, self.19, self.20, other.0, other.1, other.2, other.3)
    }

    proof fn lemma_join_arity(self, other: (T22, T23, T24, T25)) {
    }
}

impl<T1, T2, T3, T4, T5, T6, T7, T8, T9, T10, T11, T12, T13, T14, T15, T16, T17, T18, T19, T20, T21, T22, T23, T24, T25> JoinableTuple<(T23, T24, T25)> for (T1, T2, T3, T4, T5, T6, T7, T8, T9, T10, T11, T12, T13, T14, T15, T16, T17, T18, T19, T20, T21, T22) {
    type Join = (T1, T2, T3, T4, T5, T6, T7, T8, T9, T10, T11, T12, T13, T14, T15, T16, T17, T18, T19, T20, T21, T22, T23, T24, T25);

    open spec fn spec_join(self, other: (T23, T24, T25)) -> (T1, T2, T3, T4, T5, T6, T7, T8, T9, T10, T11, T12, T13, T14, T15, T16, T17, T18, T19, T20, T21, T22, T23, T24, T25) {
        (self.0, self.1, self.2, self.3, self.4, self.5, self.6, self.7, self.8, self.9, self.10, self.11, self.12, self.13, self.14, self.15, self.16, self.17, self.18, self.19, self.20, self.21, other.0, other.1, other.2)
    }

    fn join(self, other: (T23, T24, T25)) -> (r: (T1, T2, T3, T4, T5, T6, T7, T8, T9, T10, T11, T12, T13, T14, T15, T16, T17, T18, T19, T20, T21, T22, T23, T24, T25)) {
        (self.0, self.1, self.2, self.3, self.4, self.5, self.6, self.7, self.8, self.9, self.10, self.11, self.12, self.13, self.14, self.15, self.16, self.17, self.18, self.19, self.20, self.21, other.0, other.1, other.2)
    }

    proof fn lemma_join_arity(self, other: (T23, T24, T25)) {
    }
}

impl<T1, T2, T3, T4, T5, T6, T7, T8, T9, T10, T11, T12, T13, T14, T15, T16, T17, T18, T19, T20, T21, T22, T23, T24, T25> JoinableTuple<(T24, T25)> for (T1, T2, T3, T4, T5, T6, T7, T8, T9, T10, T11, T12, T13, T14, T15, T16, T17, T18, T19, T20, T21, T22, T23) {
    type Join = (T1, T2, T3, T4, T5, T6, T7, T8, T9, T10, T11, T12, T13, T14, T15, T16, T17, T18, T19, T20, T21, T22, T23, T24, T25);

    open spec fn spec_join(self, other: (T24, T25)) -> (T1, T2, T3, T4, T5, T6, T7, T8, T9, T10, T11, T12, T13, T14, T15, T16, T17, T18, T19, T20, T21, T22, T23, T24, T25) {
        (self.0, self.1, self.2, self.3, self.4, self.5, self.6, self.7, self.8, self.9, self.10, self.11, self.12, self.13, self.14, self.15, self.16, self.17, self.18, self.19, self.20, self.21, self.22, other.0, other.1)
    }

    fn join(self, other: (T24, T25)) -> (r: (T1, T2, T3, T4, T5, T6, T7, T8, T9, T10, T11, T12, T13, T14, T15, T16, T17, T18, T19, T20, T21, T22, T23, T24, T25)) {
        (self.0, self.1, self.2, self.3, self.4, self.5, self.6, self.7, self.8, self.9, self.10, self.11, self.12, self.13, self.14, self.15, self.16, self.17, self.18, self.19, self.20, self.21, self.22, other.0, other.1)
    }

    proof fn lemma_join_arity(self, other: (T24, T25)) {
    }
}

impl<T1, T2, T3, T4, T5, T6, T7, T8, T9, T10, T11, T12, T13, T14, T15, T16, T17, T18, T19, T20, T21, T22, T23, T24, T25> JoinableTuple<(T25,)> for (T1, T2, T3, T4, T5, T6, T7, T8, T9, T10, T11, T12, T13, T14, T15, T16, T17, T18, T19, T20, T21, T22, T23, T24) {
    type Join = (T1, T2, T3, T4, T5, T6, T7, T8, T9, T10, T11, T12, T13, T14, T15, T16, T17, T18, T19, T20, T21, T22, T23, T24, T25);

    open spec fn spec_join(self, other: (T25,)) -> (T1, T2, T3, T4, T5, T6, T7, T8, T9, T10, T11, T12, T13, T14, T15, T16, T17, T18, T19, T20, T21, T22, T23, T24, T25) {
        (self.0, self.1, self.2, self.3, self.4, self.5, self.6, self.7, self.8, self.9, self.10, self.11, self.12, self.13, self.14, self.15, self.16, self.17, self.18, self.19, self.20, self.21, self.22, self.23, other.0)
    }

    fn join(self, other: (T25,)) -> (r: (T1, T2, T3, T4, T5, T6, T7, T8, T9, T10, T11, T12, T13, T14, T15, T16, T17, T18, T19, T20, T21, T22, T23, T24, T25)) {
        (self.0, self.1, self.2, self.3, self.4, self.5, self.6, self.7, self.8, self.9, self.10, self.11, self.12, self.13, self.14, self.15, self.16, self.17, self.18, self.19, self.20, self.21, self.22, self.23, other.0)
    }

    proof fn lemma_join_arity(self, other: (T25,)) {
    }
}

impl<T1, T2, T3, T4, T5, T6, T7, T8, T9, T10, T11, T12, T13, T14, T15, T16, T17, T18, T19, T20, T21, T22, T23, T24, T25> JoinableTuple<()> for (T1, T2, T3, T4, T5, T6, T7, T8, T9, T10, T11, T12, T13, T14, T15, T16, T17, T18, T19, T20, T21, T22, T23, T24, T25) {
    type Join = (T1, T2, T3, T4, T5, T6, T7, T8, T9, T10, T11, T12, T13, T14, T15, T16, T17, T18, T19, T20, T21, T22, T23, T24, T25);

    open spec fn spec_join(self, other: ()) -> (T1, T2, T3, T4, T5, T6, T7, T8, T9, T10, T11, T12, T13, T14, T15, T16, T17, T18, T19, T20, T21, T22, T23, T24, T25) {
        (self.0, self.1, self.2, self.3, self.4, self.5, self.6, self.7, self.8, self.9, self.10, self.11, self.12, self.13, self.14, self.15, self.16, self.17, self.18, self.19, self.20, self.21, self.22, self.23, self.24)
    }

    fn join(self, other: ()) -> (r: (T1, T2, T3, T4, T5, T6, T7, T8, T9, T10, T11, T12, T13, T14, T15, T16, T17, T18, T19, T20, T21, T22, T23, T24, T25)) {
        (self.0, self.1, self.2, self.3, self.4, self.5, self.6, self.7, self.8, self.9, self.10, self.11, self.12, self.13, self.14, self.15, self.16, self.17, self.18, self.19, self.20, self.21, self.22, self.23, self.24)
    }

    proof fn lemma_join_arity(self, other: ()) {
    }
}

impl<T1, T2, T3, T4, T5, T6, T7, T8, T9, T10, T11, T12, T13, T14, T15, T16, T17, T18, T19, T20, T21, T22, T23, T24, T25, T26> Sealed for (T1, T2, T3, T4, T5, T6, T7, T8, T9, T10, T11, T12, T13, T14, T15, T16, T17, T18, T19, T20, T21, T22, T23, T24, T25, T26) {}

impl<T1, T2, T3, T4, T5, T6, T7, T8, T9, T10, T11, T12, T13, T14, T15, T16, T17, T18, T19, T20, T21, T22, T23, T24, T25, T26> DynTuple for (T1, T2, T3, T4, T5, T6, T7, T8, T9, T10, T11, T12, T13, T14, T15, T16, T17, T18, T19, T20, T21, T22, T23, T24, T25, T26) {
    open spec fn spec_arity(&self) -> nat {
        26
    }

    fn arity(&self) -> (r: usize) {
        26
    }
}

impl<T1, T2, T3, T4, T5, T6, T7, T8, T9, T10, T11, T12, T13, T14, T15, T16, T17, T18, T19, T20, T21, T22, T23, T24, T25, T26> Tuple for (T1, T2, T3, T4, T5, T6, T7, T8, T9, T10, T11, T12, T13, T14, T15, T16, T17, T18, T19, T20, T21, T22, T23, T24, T25, T26) {
    const ARITY: usize = 26;

    open spec fn spec_type_arity() -> nat {
        26
    }

    proof fn lemma_arity(&self) {
    }

    proof fn lemma_type_arity() {
    }
}

impl<T1, T2, T3, T4, T5, T6, T7, T8, T9, T10, T11, T12, T13, T14, T15, T16, T17, T18, T19, T20, T21, T22, T23, T24, T25, T26, T> GrowableTuple<T> for (T1, T2, T3, T4, T5, T6, T7, T8, T9, T10, T11, T12, T13, T14, T15, T16, T17, T18, T19, T20, T21, T22, T23, T24, T25, T26) {
    type Append = (T1, T2, T3, T4, T5, T6, T7, T8, T9, T10, T11, T12, T13, T14, T15, T16, T17, T18, T19, T20, T21, T22, T23, T24, T25, T26, T);

    type Prepend = (T, T1, T2, T3, T4, T5, T6, T7, T8, T9, T10, T11, T12, T13, T14, T15, T16, T17, T18, T19, T20, T21, T22, T23, T24, T25, T26);

    open spec fn spec_append(self, value: T) -> (T1, T2, T3, T4, T5, T6, T7, T8, T9, T10, T11, T12, T13, T14, T15, T16, T17, T18, T19, T20, T21, T22, T23, T24, T25, T26, T) {
        (self.0, self.1, self.2, self.3, self.4, self.5, self.6, self.7, self.8, self.9, self.10, self.11, self.12, self.13, self.14, self.15, self.16, self.17, self.18, self.19, self.20, self.21, self.22, self.23, self.24, self.25, value)
    }

    open spec fn spec_prepend(self, value: T) -> (T, T1, T2, T3, T4, T5, T6, T7, T8, T9, T10, T11, T12, T13, T14, T15, T16, T17, T18, T19, T20, T21, T22, T23, T24, T25, T26) {
        (value, self.0, self.1, self.2, self.3, self.4, self.5, self.6, self.7, self.8, self.9, self.10, self.11, self.12, self.13, self.14, self.15, self.16, self.17, self.18, self.19, self.20, self.21, self.22, self.23, self.24, self.25)
    }

    fn append(self, value: T) -> (r: (T1, T2, T3, T4, T5, T6, T7, T8, T9, T10, T11, T12, T13, T14, T15, T16, T17, T18, T19, T20, T21, T22, T23, T24, T25, T26, T)) {
        (self.0, self.1, self.2, self.3, self.4, self.5, self.6, self.7, self.8, self.9, self.10, self.11, self.12, self.13, self.14, self.15, self.16, self.17, self.18, self.19, self.20, self.21, self.22, self.23, self.24, self.25, value)
    }

    fn prepend(self, value: T) -> (r: (T, T1, T2, T3, T4, T5, T6, T7, T8, T9, T10, T11, T12, T13, T14, T15, T16, T17, T18, T19, T20, T21, T22, T23, T24, T25, T26)) {
        (value, self.0, self.1, self.2, self.3, self.4, self.5, self.6, self.7, self.8, self.9, self.10, self.11, self.12, self.13, self.14, self.15, self.16, self.17, self.18, self.19, self.20, self.21, self.22, self.23, self.24, self.25)
    }

    proof fn lemma_grow_arity(self, value: T) {
    }
}

impl<T1, T2, T3, T4, T5, T6, T7, T8, T9, T10, T11, T12, T13, T14, T15, T16, T17, T18, T19, T20, T21, T22, T23, T24, T25, T26> NonEmptyTuple for (T1, T2, T3, T4, T5, T6, T7, T8, T9, T10, T11, T12, T13, T14, T15, T16, T17, T18, T19, T20, T21, T22, T23, T24, T25, T26) {
    type Head = T1;

    type Tail = T26;

    type TruncateHead = (T2, T3, T4, T5, T6, T7, T8, T9, T10, T11, T12, T13, T14, T15, T16, T17, T18, T19, T20, T21, T22, T23, T24, T25, T26);

    type TruncateTail = (T1, T2, T3, T4, T5, T6, T7, T8, T9, T10, T11, T12, T13, T14, T15, T16, T17, T18, T19, T20, T21, T22, T23, T24, T25);

    open spec fn spec_head(&self) -> T1 {
        self.0
    }

    open spec fn spec_tail(&self) -> T26 {
        self.25
    }

    open spec fn spec_with_head(self, value: T1) -> (T1, T2, T3, T4, T5, T6, T7, T8, T9, T10, T11, T12, T13, T14, T15, T16, T17, T18, T19, T20, T21, T22, T23, T24, T25, T26) {
        (value, self.1, self.2, self.3, self.4, self.5, self.6, self.7, self.8, self.9, self.10, self.11, self.12, self.13, self.14, self.15, self.16, self.17, self.18, self.19, self.20, self.21, self.22, self.23, self.24, self.25)
    }

    open spec fn spec_with_tail(self, value: T26) -> (T1, T2, T3, T4, T5, T6, T7, T8, T9, T10, T11, T12, T13, T14, T15, T16, T17, T18, T19, T20, T21, T22, T23, T24, T25, T26) {
        (self.0, self.1, self.2, self.3, self.4, self.5, self.6, self.7, self.8, self.9, self.10, self.11, self.12, self.13, self.14, self.15, self.16, self.17, self.18, self.19, self.20, self.21, self.22, self.23, self.24, value)
    }

    open spec fn spec_truncate_head(self) -> (T1, (T2, T3, T4, T5, T6, T7, T8, T9, T10, T11, T12, T13, T14, T15, T16, T17, T18, T19, T20, T21, T22, T23, T24, T25, T26)) {
        (self.0, (self.1, self.2, self.3, self.4, self.5, self.6, self.7, self.8, self.9, self.10, self.11, self.12, self.13, self.14, self.15, self.16, self.17, self.18, self.19, self.20, self.21, self.22, self.23, self.24, self.25))
    }

    open spec fn spec_truncate_tail(self) -> ((T1, T2, T3, T4, T5, T6, T7, T8, T9, T10, T11, T12, T13, T14, T15, T16, T17, T18, T19, T20, T21, T22, T23, T24, T25), T26) {
        ((self.0, self.1, self.2, self.3, self.4, self.5, self.6, self.7, self.8, self.9, self.10, self.11, self.12, self.13, self.14, self.15, self.16, self.17, self.18, self.19, self.20, self.21, self.22, self.23, self.24), self.25)
    }

    fn head(&self) -> (r: &T1) {
        &self.0
    }

    fn head_mut(&mut self) -> (r: &mut T1) {
        &mut self.0
    }

    fn tail(&self) -> (r: &T26) {
        &self.25
    }

    fn tail_mut(&mut self) -> (r: &mut T26) {
        &mut self.25
    }

    fn truncate_head(self) -> (r: (T1, (T2, T3, T4, T5, T6, T7, T8, T9, T10, T11, T12, T13, T14, T15, T16, T17, T18, T19, T20, T21, T22, T23, T24, T25, T26))) {
        (self.0, (self.1, self.2, self.3, self.4, self.5, self.6, self.7, self.8, self.9, self.10, self.11, self.12, self.13, self.14, self.15, self.16, self.17, self.18, self.19, self.20, self.21, self.22, self.23, self.24, self.25))
    }

    fn truncate_tail(self) -> (r: ((T1, T2, T3, T4, T5, T6, T7, T8, T9, T10, T11, T12, T13, T14, T15, T16, T17, T18, T19, T20, T21, T22, T23, T24, T25), T26)) {
        ((self.0, self.1, self.2, self.3, self.4, self.5, self.6, self.7, self.8, self.9, self.10, self.11, self.12, self.13, self.14, self.15, self.16, self.17, self.18, self.19, self.20, self.21, self.22, self.23, self.24), self.25)
    }

    proof fn lemma_truncate_head(self) {
    }

    proof fn lemma_truncate_tail(self) {
    }
}

impl<T1, T2, T3, T4, T5, T6, T7, T8, T9, T10, T11, T12, T13, T14, T15, T16, T17, T18, T19, T20, T21, T22, T23, T24, T25, T26> NonUnaryTuple for (T1, T2, T3, T4, T5, T6, T7, T8, T9, T10, T11, T12, T13, T14, T15, T16, T17, T18, T19, T20, T21, T22, T23, T24, T25, T26) {
    type TruncateHeadTail = (T2, T3, T4, T5, T6, T7, T8, T9, T10, T11, T12, T13, T14, T15, T16, T17, T18, T19, T20, T21, T22, T23, T24, T25);

    open spec fn spec_truncate_head_tail(self) -> (T1, (T2, T3, T4, T5, T6, T7, T8, T9, T10, T11, T12, T13, T14, T15, T16, T17, T18, T19, T20, T21, T22, T23, T24, T25), T26) {
        (self.0, (self.1, self.2, self.3, self.4, self.5, self.6, self.7, self.8, self.9, self.10, self.11, self.12, self.13, self.14, self.15, self.16, self.17, self.18, self.19, self.20, self.21, self.22, self.23, self.24), self.25)
    }

    fn head_tail(&self) -> (r: (&T1, &T26)) {
        (&self.0, &self.25)
    }

    fn head_tail_mut(&mut self) -> (r: (&mut T1, &mut T26)) {
        (&mut self.0, &mut self.25)
    }

    fn truncate_head_tail(self) -> (r: (T1, (T2, T3, T4, T5, T6, T7, T8, T9, T10, T11, T12, T13, T14, T15, T16, T17, T18, T19, T20, T21, T22, T23, T24, T25), T26)) {
        (self.0, (self.1, self.2, self.3, self.4, self.5, self.6, self.7, self.8, self.9, self.10, self.11, self.12, self.13, self.14, self.15, self.16, self.17, self.18, self.19, self.20, self.21, self.22, self.23, self.24), self.25)
    }

    proof fn lemma_truncate_head_tail(self) {
    }
}

impl<T1, T2, T3, T4, T5, T6, T7, T8, T9, T10, T11, T12, T13, T14, T15, T16, T17, T18, T19, T20, T21, T22, T23, T24, T25, T26> IndexableTuple<0> for (T1, T2, T3, T4, T5, T6, T7, T8, T9, T10, T11, T12, T13, T14, T15, T16, T17, T18, T19, T20, T21, T22, T23, T24, T25, T26) {
    type Value = T1;

    open spec fn spec_index(&self) -> T1 {
        self.0
    }

    open spec fn spec_with_index(self, value: T1) -> (T1, T2, T3, T4, T5, T6, T7, T8, T9, T10, T11, T12, T13, T14, T15, T16, T17, T18, T19, T20, T21, T22, T23, T24, T25, T26) {
        (value, self.1, self.2, self.3, self.4, self.5, self.6, self.7, self.8, self.9, self.10, self.11, self.12, self.13, self.14, self.15, self.16, self.17, self.18, self.19, self.20, self.21, self.22, self.23, self.24, self.25)
    }

    fn index_ref(&self) -> (r: &T1) {
        &self.0
    }

    fn index_mut(&mut self) -> (r: &mut T1) {
        &mut self.0
    }

    fn into_index(self) -> (r: T1) {
        self.0
    }

    proof fn lemma_index_in_range(&self) {
    }
}

impl<T1, T2, T3, T4, T5, T6, T7, T8, T9, T10, T11, T12, T13, T14, T15, T16, T17, T18, T19, T20, T21, T22, T23, T24, T25, T26> IndexableTuple<1> for (T1, T2, T3, T4, T5, T6, T7, T8, T9, T10, T11, T12, T13, T14, T15, T16, T17, T18, T19, T20, T21, T22, T23, T24, T25, T26) {
    type Value = T2;

    open spec fn spec_index(&self) -> T2 {
        self.1
    }

    open spec fn spec_with_index(self, value: T2) -> (T1, T2, T3, T4, T5, T6, T7, T8, T9, T10, T11, T12, T13, T14, T15, T16, T17, T18, T19, T20, T21, T22, T23, T24, T25, T26) {
        (self.0, value, self.2, self.3, self.4, self.5, self.6, self.7, self.8, self.9, self.10, self.11, self.12, self.13, self.14, self.15, self.16, self.17, self.18, self.19, self.20, self.21, self.22, self.23, self.24, self.25)
    }

    fn index_ref(&self) -> (r: &T2) {
        &self.1
    }

    fn index_mut(&mut self) -> (r: &mut T2) {
        &mut self.1
    }

    fn into_index(self) -> (r: T2) {
        self.1
    }

    proof fn lemma_index_in_range(&self) {
    }
}

impl<T1, T2, T3, T4, T5, T6, T7, T8, T9, T10, T11, T12, T13, T14, T15, T16, T17, T18, T19, T20, T21, T22, T23, T24, T25, T26> IndexableTuple<2> for (T1, T2, T3, T4, T5, T6, T7, T8, T9, T10, T11, T12, T13, T14, T15, T16, T17, T18, T19, T20, T21, T22, T23, T24, T25, T26) {
    type Value = T3;

    open spec fn spec_index(&self) -> T3 {
        self.2
    }

    open spec fn spec_with_index(self, value: T3) -> (T1, T2, T3, T4, T5, T6, T7, T8, T9, T10, T11, T12, T13, T14, T15, T16, T17, T18, T19, T20, T21, T22, T23, T24, T25, T26) {
        (self.0, self.1, value, self.3, self.4, self.5, self.6, self.7, self.8, self.9, self.10, self.11, self.12, self.13, self.14, self.15, self.16, self.17, self.18, self.19, self.20, self.21, self.22, self.23, self.24, self.25)
    }

    fn index_ref(&self) -> (r: &T3) {
        &self.2
    }

    fn index_mut(&mut self) -> (r: &mut T3) {
        &mut self.2
    }

    fn into_index(self) -> (r: T3) {
        self.2
    }

    proof fn lemma_index_in_range(&self) {
    }
}

impl<T1, T2, T3, T4, T5, T6, T7, T8, T9, T10, T11, T12, T13, T14, T15, T16, T17, T18, T19, T20, T21, T22, T23, T24, T25, T26> IndexableTuple<3> for (T1, T2, T3, T4, T5, T6, T7, T8, T9, T10, T11, T12, T13, T14, T15, T16, T17, T18, T19, T20, T21, T22, T23, T24, T25, T26) {
    type Value = T4;

    open spec fn spec_index(&self) -> T4 {
        self.3
    }

    open spec fn spec_with_index(self, value: T4) -> (T1, T2, T3, T4, T5, T6, T7, T8, T9, T10, T11, T12, T13, T14, T15, T16, T17, T18, T19, T20, T21, T22, T23, T24, T25, T26) {
        (self.0, self.1, self.2, value, self.4, self.5, self.6, self.7, self.8, self.9, self.10, self.11, self.12, self.13, self.14, self.15, self.16, self.17, self.18, self.19, self.20, self.21, self.22, self.23, self.24, self.25)
    }

    fn index_ref(&self) -> (r: &T4) {
        &self.3
    }

    fn index_mut(&mut self) -> (r: &mut T4) {
        &mut self.3
    }

    fn into_index(self) -> (r: T4) {
        self.3
    }

    proof fn lemma_index_in_range(&self) {
    }
}

impl<T1, T2, T3, T4, T5, T6, T7, T8, T9, T10, T11, T12, T13, T14, T15, T16, T17, T18, T19, T20, T21, T22, T23, T24, T25, T26> IndexableTuple<4> for (T1, T2, T3, T4, T5, T6, T7, T8, T9, T10, T11, T12, T13, T14, T15, T16, T17, T18, T19, T20, T21, T22, T23, T24, T25, T26) {
    type Value = T5;

    open spec fn spec_index(&self) -> T5 {
        self.4
    }

    open spec fn spec_with_index(self, value: T5) -> (T1, T2, T3, T4, T5, T6, T7, T8, T9, T10, T11, T12, T13, T14, T15, T16, T17, T18, T19, T20, T21, T22, T23, T24, T25, T26) {
        (self.0, self.1, self.2, self.3, value, self.5, self.6, self.7, self.8, self.9, self.10, self.11, self.12, self.13, self.14, self.15, self.16, self.17, self.18, self.19, self.20, self.21, self.22, self.23, self.24, self.25)
    }

    fn index_ref(&self) -> (r: &T5) {
        &self.4
    }

    fn index_mut(&mut self) -> (r: &mut T5) {
        &mut self.4
    }

    fn into_index(self) -> (r: T5) {
        self.4
    }

    proof fn lemma_index_in_range(&self) {
    }
}

impl<T1, T2, T3, T4, T5, T6, T7, T8, T9, T10, T11, T12, T13, T14, T15, T16, T17, T18, T19, T20, T21, T22, T23, T24, T25, T26> IndexableTuple<5> for (T1, T2, T3, T4, T5, T6, T7, T8, T9, T10, T11, T12, T13, T14, T15, T16, T17, T18, T19, T20, T21, T22, T23, T24, T25, T26) {
    type Value = T6;

    open spec fn spec_index(&self) -> T6 {
        self.5
    }

    open spec fn spec_with_index(self, value: T6) -> (T1, T2, T3, T4, T5, T6, T7, T8, T9, T10, T11, T12, T13, T14, T15, T16, T17, T18, T19, T20, T21, T22, T23, T24, T25, T26) {
        (self.0, self.1, self.2, self.3, self.4, value, self.6, self.7, self.8, self.9, self.10, self.11, self.12, self.13, self.14, self.15, self.16, self.17, self.18, self.19, self.20, self.21, self.22, self.23, self.24, self.25)
    }

    fn index_ref(&self) -> (r: &T6) {
        &self.5
    }

    fn index_mut(&mut self) -> (r: &mut T6) {
        &mut self.5
    }

    fn into_index(self) -> (r: T6) {
        self.5
    }

    proof fn lemma_index_in_range(&self) {
    }
}

impl<T1, T2, T3, T4, T5, T6, T7, T8, T9, T10, T11, T12, T13, T14, T15, T16, T17, T18, T19, T20, T21, T22, T23, T24, T25, T26> IndexableTuple<6> for (T1, T2, T3, T4, T5, T6, T7, T8, T9, T10, T11, T12, T13, T14, T15, T16, T17, T18, T19, T20, T21, T22, T23, T24, T25, T26) {
    type Value = T7;

    open spec fn spec_index(&self) -> T7 {
        self.6
    }

    open spec fn spec_with_index(self, value: T7) -> (T1, T2, T3, T4, T5, T6, T7, T8, T9, T10, T11, T12, T13, T14, T15, T16, T17, T18, T19, T20, T21, T22, T23, T24, T25, T26) {
        (self.0, self.1, self.2, self.3, self.4, self.5, value, self.7, self.8, self.9, self.10, self.11, self.12, self.13, self.14, self.15, self.16, self.17, self.18, self.19, self.20, self.21, self.22, self.23, self.24, self.25)
    }

    fn index_ref(&self) -> (r: &T7) {
        &self.6
    }

    fn index_mut(&mut self) -> (r: &mut T7) {
        &mut self.6
    }

    fn into_index(self) -> (r: T7) {
        self.6
    }

    proof fn lemma_index_in_range(&self) {
    }
}

impl<T1, T2, T3, T4, T5, T6, T7, T8, T9, T10, T11, T12, T13, T14, T15, T16, T17, T18, T19, T20, T21, T22, T23, T24, T25, T26> IndexableTuple<7> for (T1, T2, T3, T4, T5, T6, T7, T8, T9, T10, T11, T12, T13, T14, T15, T16, T17, T18, T19, T20, T21, T22, T23, T24, T25, T26) {
    type Value = T8;

    open spec fn spec_index(&self) -> T8 {
        self.7
    }

    open spec fn spec_with_index(self, value: T8) -> (T1, T2, T3, T4, T5, T6, T7, T8, T9, T10, T11, T12, T13, T14, T15, T16, T17, T18, T19, T20, T21, T22, T23, T24, T25, T26) {
        (self.0, self.1, self.2, self.3, self.4, self.5, self.6, value, self.8, self.9, self.10, self.11, self.12, self.13, self.14, self.15, self.16, self.17, self.18, self.19, self.20, self.21, self.22, self.23, self.24, self.25)
    }

    fn index_ref(&self) -> (r: &T8) {
        &self.7
    }

    fn index_mut(&mut self) -> (r: &mut T8) {
        &mut self.7
    }

    fn into_index(self) -> (r: T8) {
        self.7
    }

    proof fn lemma_index_in_range(&self) {
    }
}

impl<T1, T2, T3, T4, T5, T6, T7, T8, T9, T10, T11, T12, T13, T14, T15, T16, T17, T18, T19, T20, T21, T22, T23, T24, T25, T26> IndexableTuple<8> for (T1, T2, T3, T4, T5, T6, T7, T8, T9, T10, T11, T12, T13, T14, T15, T16, T17, T18, T19, T20, T21, T22, T23, T24, T25, T26) {
    type Value = T9;

    open spec fn spec_index(&self) -> T9 {
        self.8
    }

    open spec fn spec_with_index(self, value: T9) -> (T1, T2, T3, T4, T5, T6, T7, T8, T9, T10, T11, T12, T13, T14, T15, T16, T17, T18, T19, T20, T21, T22, T23, T24, T25, T26) {
        (self.0, self.1, self.2, self.3, self.4, self.5, self.6, self.7, value, self.9, self.10, self.11, self.12, self.13, self.14, self.15, self.16, self.17, self.18, self.19, self.20, self.21, self.22, self.23, self.24, self.25)
    }

    fn index_ref(&self) -> (r: &T9) {
        &self.8
    }

    fn index_mut(&mut self) -> (r: &mut T9) {
        &mut self.8
    }

    fn into_index(self) -> (r: T9) {
        self.8
    }

    proof fn lemma_index_in_range(&self) {
    }
}

impl<T1, T2, T3, T4, T5, T6, T7, T8, T9, T10, T11, T12, T13, T14, T15, T16, T17, T18, T19, T20, T21, T22, T23, T24, T25, T26> IndexableTuple<9> for (T1, T2, T3, T4, T5, T6, T7, T8, T9, T10, T11, T12, T13, T14, T15, T16, T17, T18, T19, T20, T21, T22, T23, T24, T25, T26) {
    type Value = T10;

    open spec fn spec_index(&self) -> T10 {
        self.9
    }

    open spec fn spec_with_index(self, value: T10) -> (T1, T2, T3, T4, T5, T6, T7, T8, T9, T10, T11, T12, T13, T14, T15, T16, T17, T18, T19, T20, T21, T22, T23, T24, T25, T26) {
        (self.0, self.1, self.2, self.3, self.4, self.5, self.6, self.7, self.8, value, self.10, self.11, self.12, self.13, self.14, self.15, self.16, self.17, self.18, self.19, self.20, self.21, self.22, self.23, self.24, self.25)
    }

    fn index_ref(&self) -> (r: &T10) {
        &self.9
    }

    fn index_mut(&mut self) -> (r: &mut T10) {
        &mut self.9
    }

    fn into_index(self) -> (r: T10) {
        self.9
    }

    proof fn lemma_index_in_range(&self) {
    }
}

impl<T1, T2, T3, T4, T5, T6, T7, T8, T9, T10, T11, T12, T13, T14, T15, T16, T17, T18, T19, T20, T21, T22, T23, T24, T25, T26> IndexableTuple<10> for (T1, T2, T3, T4, T5, T6, T7, T8, T9, T10, T11, T12, T13, T14, T15, T16, T17, T18, T19, T20, T21, T22, T23, T24, T25, T26) {
    type Value = T11;

    open spec fn spec_index(&self) -> T11 {
        self.10
    }

    open spec fn spec_with_index(self, value: T11) -> (T1, T2, T3, T4, T5, T6, T7, T8, T9, T10, T11, T12, T13, T14, T15, T16, T17, T18, T19, T20, T21, T22, T23, T24, T25, T26) {
        (self.0, self.1, self.2, self.3, self.4, self.5, self.6, self.7, self.8, self.9, value, self.11, self.12, self.13, self.14, self.15, self.16, self.17, self.18, self.19, self.20, self.21, self.22, self.23, self.24, self.25)
    }

    fn index_ref(&self) -> (r: &T11) {
        &self.10
    }

    fn index_mut(&mut self) -> (r: &mut T11) {
        &mut self.10
    }

    fn into_index(self) -> (r: T11) {
        self.10
    }

    proof fn lemma_index_in_range(&self) {
    }
}

impl<T1, T2, T3, T4, T5, T6, T7, T8, T9, T10, T11, T12, T13, T14, T15, T16, T17, T18, T19, T20, T21, T22, T23, T24, T25, T26> IndexableTuple<11> for (T1, T2, T3, T4, T5, T6, T7, T8, T9, T10, T11, T12, T13, T14, T15, T16, T17, T18, T19, T20, T21, T22, T23, T24, T25, T26) {
    type Value = T12;

    open spec fn spec_index(&self) -> T12 {
        self.11
    }

    open spec fn spec_with_index(self, value: T12) -> (T1, T2, T3, T4, T5, T6, T7, T8, T9, T10, T11, T12, T13, T14, T15, T16, T17, T18, T19, T20, T21, T22, T23, T24, T25, T26) {
        (self.0, self.1, self.2, self.3, self.4, self.5, self.6, self.7, self.8, self.9, self.10, value, self.12, self.13, self.14, self.15, self.16, self.17, self.18, self.19, self.20, self.21, self.22, self.23, self.24, self.25)
    }

    fn index_ref(&self) -> (r: &T12) {
        &self.11
    }

    fn index_mut(&mut self) -> (r: &mut T12) {
        &mut self.11
    }

    fn into_index(self) -> (r: T12) {
        self.11
    }

    proof fn lemma_index_in_range(&self) {
    }
}

impl<T1, T2, T3, T4, T5, T6, T7, T8, T9, T10, T11, T12, T13, T14, T15, T16, T17, T18, T19, T20, T21, T22, T23, T24, T25, T26> IndexableTuple<12> for (T1, T2, T3, T4, T5, T6, T7, T8, T9, T10, T11, T12, T13, T14, T15, T16, T17, T18, T19, T20, T21, T22, T23, T24, T25, T26) {
    type Value = T13;

    open spec fn spec_index(&self) -> T13 {
        self.12
    }

    open spec fn spec_with_index(self, value: T13) -> (T1, T2, T3, T4, T5, T6, T7, T8, T9, T10, T11, T12, T13, T14, T15, T16, T17, T18, T19, T20, T21, T22, T23, T24, T25, T26) {
        (self.0, self.1, self.2, self.3, self.4, self.5, self.6, self.7, self.8, self.9, self.10, self.11, value, self.13, self.14, self.15, self.16, self.17, self.18, self.19, self.20, self.21, self.22, self.23, self.24, self.25)
    }

    fn index_ref(&self) -> (r: &T13) {
        &self.12
    }

    fn index_mut(&mut self) -> (r: &mut T13) {
        &mut self.12
    }

    fn into_index(self) -> (r: T13) {
        self.12
    }

    proof fn lemma_index_in_range(&self) {
    }
}

impl<T1, T2, T3, T4, T5, T6, T7, T8, T9, T10, T11, T12, T13, T14, T15, T16, T17, T18, T19, T20, T21, T22, T23, T24, T25, T26> IndexableTuple<13> for (T1, T2, T3, T4, T5, T6, T7, T8, T9, T10, T11, T12, T13, T14, T15, T16, T17, T18, T19, T20, T21, T22, T23, T24, T25, T26) {
    type Value = T14;

    open spec fn spec_index(&self) -> T14 {
        self.13
    }

    open spec fn spec_with_index(self, value: T14) -> (T1, T2, T3, T4, T5, T6, T7, T8, T9, T10, T11, T12, T13, T14, T15, T16, T17, T18, T19, T20, T21, T22, T23, T24, T25, T26) {
        (self.0, self.1, self.2, self.3, self.4, self.5, self.6, self.7, self.8, self.9, self.10, self.11, self.12, value, self.14, self.15, self.16, self.17, self.18, self.19, self.20, self.21, self.22, self.23, self.24, self.25)
    }

    fn index_ref(&self) -> (r: &T14) {
        &self.13
    }

    fn index_mut(&mut self) -> (r: &mut T14) {
        &mut self.13
    }

    fn into_index(self) -> (r: T14) {
        self.13
    }

    proof fn lemma_index_in_range(&self) {
    }
}

impl<T1, T2, T3, T4, T5, T6, T7, T8, T9, T10, T11, T12, T13, T14, T15, T16, T17, T18, T19, T20, T21, T22, T23, T24, T25, T26> IndexableTuple<14> for (T1, T2, T3, T4, T5, T6, T7, T8, T9, T10, T11, T12, T13, T14, T15, T16, T17, T18, T19, T20, T21, T22, T23, T24, T25, T26) {
    type Value = T15;

    open spec fn spec_index(&self) -> T15 {
        self.14
    }

    open spec fn spec_with_index(self, value: T15) -> (T1, T2, T3, T4, T5, T6, T7, T8, T9, T10, T11, T12, T13, T14, T15, T16, T17, T18, T19, T20, T21, T22, T23, T24, T25, T26) {
        (self.0, self.1, self.2, self.3, self.4, self.5, self.6, self.7, self.8, self.9, self.10, self.11, self.12, self.13, value, self.15, self.16, self.17, self.18, self.19, self.20, self.21, self.22, self.23, self.24, self.25)
    }

    fn index_ref(&self) -> (r: &T15) {
        &self.14
    }

    fn index_mut(&mut self) -> (r: &mut T15) {
        &mut self.14
    }

    fn into_index(self) -> (r: T15) {
        self.14
    }

    proof fn lemma_index_in_range(&self) {
    }
}

impl<T1, T2, T3, T4, T5, T6, T7, T8, T9, T10, T11, T12, T13, T14, T15, T16, T17, T18, T19, T20, T21, T22, T23, T24, T25, T26> IndexableTuple<15> for (T1, T2, T3, T4, T5, T6, T7, T8, T9, T10, T11, T12, T13, T14, T15, T16, T17, T18, T19, T20, T21, T22, T23, T24, T25, T26) {
    type Value = T16;

    open spec fn spec_index(&self) -> T16 {
        self.15
    }

    open spec fn spec_with_index(self, value: T16) -> (T1, T2, T3, T4, T5, T6, T7, T8, T9, T10, T11, T12, T13, T14, T15, T16, T17, T18, T19, T20, T21, T22, T23, T24, T25, T26) {
        (self.0, self.1, self.2, self.3, self.4, self.5, self.6, self.7, self.8, self.9, self.10, self.11, self.12, self.13, self.14, value, self.16, self.17, self.18, self.19, self.20, self.21, self.22, self.23, self.24, self.25)
    }

    fn index_ref(&self) -> (r: &T16) {
        &self.15
    }

    fn index_mut(&mut self) -> (r: &mut T16) {
        &mut self.15
    }

    fn into_index(self) -> (r: T16) {
        self.15
    }

    proof fn lemma_index_in_range(&self) {
    }
}

impl<T1, T2, T3, T4, T5, T6, T7, T8, T9, T10, T11, T12, T13, T14, T15, T16, T17, T18, T19, T20, T21, T22, T23, T24, T25, T26> IndexableTuple<16> for (T1, T2, T3, T4, T5, T6, T7, T8, T9, T10, T11, T12, T13, T14, T15, T16, T17, T18, T19, T20, T21, T22, T23, T24, T25, T26) {
    type Value = T17;

    open spec fn spec_index(&self) -> T17 {
        self.16
    }

    open spec fn spec_with_index(self, value: T17) -> (T1, T2, T3, T4, T5, T6, T7, T8, T9, T10, T11, T12, T13, T14, T15, T16, T17, T18, T19, T20, T21, T22, T23, T24, T25, T26) {
        (self.0, self.1, self.2, self.3, self.4, self.5, self.6, self.7, self.8, self.9, self.10, self.11, self.12, self.13, self.14, self.15, value, self.17, self.18, self.19, self.20, self.21, self.22, self.23, self.24, self.25)
    }

    fn index_ref(&self) -> (r: &T17) {
        &self.16
    }

    fn index_mut(&mut self) -> (r: &mut T17) {
        &mut self.16
    }

    fn into_index(self) -> (r: T17) {
        self.16
    }

    proof fn lemma_index_in_range(&self) {
    }
}

impl<T1, T2, T3, T4, T5, T6, T7, T8, T9, T10, T11, T12, T13, T14, T15, T16, T17, T18, T19, T20, T21, T22, T23, T24, T25, T26> IndexableTuple<17> for (T1, T2, T3, T4, T5, T6, T7, T8, T9, T10, T11, T12, T13, T14, T15, T16, T17, T18, T19, T20, T21, T22, T23, T24, T25, T26) {
    type Value = T18;

    open spec fn spec_index(&self) -> T18 {
        self.17
    }

    open spec fn spec_with_index(self, value: T18) -> (T1, T2, T3, T4, T5, T6, T7, T8, T9, T10, T11, T12, T13, T14, T15, T16, T17, T18, T19, T20, T21, T22, T23, T24, T25, T26) {
        (self.0, self.1, self.2, self.3, self.4, self.5, self.6, self.7, self.8, self.9, self.10, self.11, self.12, self.13, self.14, self.15, self.16, value, self.18, self.19, self.20, self.21, self.22, self.23, self.24, self.25)
    }

    fn index_ref(&self) -> (r: &T18) {
        &self.17
    }

    fn index_mut(&mut self) -> (r: &mut T18) {
        &mut self.17
    }

    fn into_index(self) -> (r: T18) {
        self.17
    }

    proof fn lemma_index_in_range(&self) {
    }
}

impl<T1, T2, T3, T4, T5, T6, T7, T8, T9, T10, T11, T12, T13, T14, T15, T16, T17, T18, T19, T20, T21, T22, T23, T24, T25, T26> IndexableTuple<18> for (T1, T2, T3, T4, T5, T6, T7, T8, T9, T10, T11, T12, T13, T14, T15, T16, T17, T18, T19, T20, T21, T22, T23, T24, T25, T26) {
    type Value = T19;

    open spec fn spec_index(&self) -> T19 {
        self.18
    }

    open spec fn spec_with_index(self, value: T19) -> (T1, T2, T3, T4, T5, T6, T7, T8, T9, T10, T11, T12, T13, T14, T15, T16, T17, T18, T19, T20, T21, T22, T23, T24, T25, T26) {
        (self.0, self.1, self.2, self.3, self.4, self.5, self.6, self.7, self.8, self.9, self.10, self.11, self.12, self.13, self.14, self.15, self.16, self.17, value, self.19, self.20, self.21, self.22, self.23, self.24, self.25)
    }

    fn index_ref(&self) -> (r: &T19) {
        &self.18
    }

    fn index_mut(&mut self) -> (r: &mut T19) {
        &mut self.18
    }

    fn into_index(self) -> (r: T19) {
        self.18
    }

    proof fn lemma_index_in_range(&self) {
    }
}

impl<T1, T2, T3, T4, T5, T6, T7, T8, T9, T10, T11, T12, T13, T14, T15, T16, T17, T18, T19, T20, T21, T22, T23, T24, T25, T26> IndexableTuple<19> for (T1, T2, T3, T4, T5, T6, T7, T8, T9, T10, T11, T12, T13, T14, T15, T16, T17, T18, T19, T20, T21, T22, T23, T24, T25, T26) {
    type Value = T20;

    open spec fn spec_index(&self) -> T20 {
        self.19
    }

    open spec fn spec_with_index(self, value: T20) -> (T1, T2, T3, T4, T5, T6, T7, T8, T9, T10, T11, T12, T13, T14, T15, T16, T17, T18, T19, T20, T21, T22, T23, T24, T25, T26) {
        (self.0, self.1, self.2, self.3, self.4, self.5, self.6, self.7, self.8, self.9, self.10, self.11, self.12, self.13, self.14, self.15, self.16, self.17, self.18, value, self.20, self.21, self.22, self.23, self.24, self.25)
    }

    fn index_ref(&self) -> (r: &T20) {
        &self.19
    }

    fn index_mut(&mut self) -> (r: &mut T20) {
        &mut self.19
    }

    fn into_index(self) -> (r: T20) {
        self.19
    }

    proof fn lemma_index_in_range(&self) {
    }
}

impl<T1, T2, T3, T4, T5, T6, T7, T8, T9, T10, T11, T12, T13, T14, T15, T16, T17, T18, T19, T20, T21, T22, T23, T24, T25, T26> IndexableTuple<20> for (T1, T2, T3, T4, T5, T6, T7, T8, T9, T10, T11, T12, T13, T14, T15, T16, T17, T18, T19, T20, T21, T22, T23, T24, T25, T26) {
    type Value = T21;

    open spec fn spec_index(&self) -> T21 {
        self.20
    }

    open spec fn spec_with_index(self, value: T21) -> (T1, T2, T3, T4, T5, T6, T7, T8, T9, T10, T11, T12, T13, T14, T15, T16, T17, T18, T19, T20, T21, T22, T23, T24, T25, T26) {
        (self.0, self.1, self.2, self.3, self.4, self.5, self.6, self.7, self.8, self.9, self.10, self.11, self.12, self.13, self.14, self.15, self.16, self.17, self.18, self.19, value, self.21, self.22, self.23, self.24, self.25)
    }

    fn index_ref(&self) -> (r: &T21) {
        &self.20
    }

    fn index_mut(&mut self) -> (r: &mut T21) {
        &mut self.20
    }

    fn into_index(self) -> (r: T21) {
        self.20
    }

    proof fn lemma_index_in_range(&self) {
    }
}

impl<T1, T2, T3, T4, T5, T6, T7, T8, T9, T10, T11, T12, T13, T14, T15, T16, T17, T18, T19, T20, T21, T22, T23, T24, T25, T26> IndexableTuple<21> for (T1, T2, T3, T4, T5, T6, T7, T8, T9, T10, T11, T12, T13, T14, T15, T16, T17, T18, T19, T20, T21, T22, T23, T24, T25, T26) {
    type Value = T22;

    open spec fn spec_index(&self) -> T22 {
        self.21
    }

    open spec fn spec_with_index(self, value: T22) -> (T1, T2, T3, T4, T5, T6, T7, T8, T9, T10, T11, T12, T13, T14, T15, T16, T17, T18, T19, T20, T21, T22, T23, T24, T25, T26) {
        (self.0, self.1, self.2, self.3, self.4, self.5, self.6, self.7, self.8, self.9, self.10, self.11, self.12, self.13, self.14, self.15, self.16, self.17, self.18, self.19, self.20, value, self.22, self.23, self.24, self.25)
    }

    fn index_ref(&self) -> (r: &T22) {
        &self.21
    }

    fn index_mut(&mut self) -> (r: &mut T22) {
        &mut self.21
    }

    fn into_index(self) -> (r: T22) {
        self.21
    }

    proof fn lemma_index_in_range(&self) {
    }
}

impl<T1, T2, T3, T4, T5, T6, T7, T8, T9, T10, T11, T12, T13, T14, T15, T16, T17, T18, T19, T20, T21, T22, T23, T24, T25, T26> IndexableTuple<22> for (T1, T2, T3, T4, T5, T6, T7, T8, T9, T10, T11, T12, T13, T14, T15, T16, T17, T18, T19, T20, T21, T22, T23, T24, T25, T26) {
    type Value = T23;

    open spec fn spec_index(&self) -> T23 {
        self.22
    }

    open spec fn spec_with_index(self, value: T23) -> (T1, T2, T3, T4, T5, T6, T7, T8, T9, T10, T11, T12, T13, T14, T15, T16, T17, T18, T19, T20, T21, T22, T23, T24, T25, T26) {
        (self.0, self.1, self.2, self.3, self.4, self.5, self.6, self.7, self.8, self.9, self.10, self.11, self.12, self.13, self.14, self.15, self.16, self.17, self.18, self.19, self.20, self.21, value, self.23, self.24, self.25)
    }

    fn index_ref(&self) -> (r: &T23) {
        &self.22
    }

    fn index_mut(&mut self) -> (r: &mut T23) {
        &mut self.22
    }

    fn into_index(self) -> (r: T23) {
        self.22
    }

    proof fn lemma_index_in_range(&self) {
    }
}

impl<T1, T2, T3, T4, T5, T6, T7, T8, T9, T10, T11, T12, T13, T14, T15, T16, T17, T18, T19, T20, T21, T22, T23, T24, T25, T26> IndexableTuple<23> for (T1, T2, T3, T4, T5, T6, T7, T8, T9, T10, T11, T12, T13, T14, T15, T16, T17, T18, T19, T20, T21, T22, T23, T24, T25, T26) {
    type Value = T24;

    open spec fn spec_index(&self) -> T24 {
        self.23
    }

    open spec fn spec_with_index(self, value: T24) -> (T1, T2, T3, T4, T5, T6, T7, T8, T9, T10, T11, T12, T13, T14, T15, T16, T17, T18, T19, T20, T21, T22, T23, T24, T25, T26) {
        (self.0, self.1, self.2, self.3, self.4, self.5, self.6, self.7, self.8, self.9, self.10, self.11, self.12, self.13, self.14, self.15, self.16, self.17, self.18, self.19, self.20, self.21, self.22, value, self.24, self.25)
    }

    fn index_ref(&self) -> (r: &T24) {
        &self.23
    }

    fn index_mut(&mut self) -> (r: &mut T24) {
        &mut self.23
    }

    fn into_index(self) -> (r: T24) {
        self.23
    }

    proof fn lemma_index_in_range(&self) {
    }
}

impl<T1, T2, T3, T4, T5, T6, T7, T8, T9, T10, T11, T12, T13, T14, T15, T16, T17, T18, T19, T20, T21, T22, T23, T24, T25, T26> IndexableTuple<24> for (T1, T2, T3, T4, T5, T6, T7, T8, T9, T10, T11, T12, T13, T14, T15, T16, T17, T18, T19, T20, T21, T22, T23, T24, T25, T26) {
    type Value = T25;

    open spec fn spec_index(&self) -> T25 {
        self.24
    }

    open spec fn spec_with_index(self, value: T25) -> (T1, T2, T3, T4, T5, T6, T7, T8, T9, T10, T11, T12, T13, T14, T15, T16, T17, T18, T19, T20, T21, T22, T23, T24, T25, T26) {
        (self.0, self.1, self.2, self.3, self.4, self.5, self.6, self.7, self.8, self.9, self.10, self.11, self.12, self.13, self.14, self.15, self.16, self.17, self.18, self.19, self.20, self.21, self.22, self.23, value, self.25)
    }

    fn index_ref(&self) -> (r: &T25) {
        &self.24
    }

    fn index_mut(&mut self) -> (r: &mut T25) {
        &mut self.24
    }

    fn into_index(self) -> (r: T25) {
        self.24
    }

    proof fn lemma_index_in_range(&self) {
    }
}

impl<T1, T2, T3, T4, T5, T6, T7, T8, T9, T10, T11, T12, T13, T14, T15, T16, T17, T18, T19, T20, T21, T22, T23, T24, T25, T26> IndexableTuple<25> for (T1, T2, T3, T4, T5, T6, T7, T8, T9, T10, T11, T12, T13, T14, T15, T16, T17, T18, T19, T20, T21, T22, T23, T24, T25, T26) {
    type Value = T26;

    open spec fn spec_index(&self) -> T26 {
        self.25
    }

    open spec fn spec_with_index(self, value: T26) -> (T1, T2, T3, T4, T5, T6, T7, T8, T9, T10, T11, T12, T13, T14, T15, T16, T17, T18, T19, T20, T21, T22, T23, T24, T25, T26) {
        (self.0, self.1, self.2, self.3, self.4, self.5, self.6, self.7, self.8, self.9, self.10, self.11, self.12, self.13, self.14, self.15, self.16, self.17, self.18, self.19, self.20, self.21, self.22, self.23, self.24, value)
    }

    fn index_ref(&self) -> (r: &T26) {
        &self.25
    }

    fn index_mut(&mut self) -> (r: &mut T26) {
        &mut self.25
    }

    fn into_index(self) -> (r: T26) {
        self.25
    }

    proof fn lemma_index_in_range(&self) {
    }
}

impl<T1, T2, T3, T4, T5, T6, T7, T8, T9, T10, T11, T12, T13, T14, T15, T16, T17, T18, T19, T20, T21, T22, T23, T24, T25, T26> JoinableTuple<(T1, T2, T3, T4, T5, T6, T7, T8, T9, T10, T11, T12, T13, T14, T15, T16, T17, T18, T19, T20, T21, T22, T23, T24, T25, T26)> for () {
    type Join = (T1, T2, T3, T4, T5, T6, T7, T8, T9, T10, T11, T12, T13, T14, T15, T16, T17, T18, T19, T20, T21, T22, T23, T24, T25, T26);

    open spec fn spec_join(self, other: (T1, T2, T3, T4, T5, T6, T7, T8, T9, T10, T11, T12, T13, T14, T15, T16, T17, T18, T19, T20, T21, T22, T23, T24, T25, T26)) -> (T1, T2, T3, T4, T5, T6, T7, T8, T9, T10, T11, T12, T13, T14, T15, T16, T17, T18, T19, T20, T21, T22, T23, T24, T25, T26) {
        (other.0, other.1, other.2, other.3, other.4, other.5, other.6, other.7, other.8, other.9, other.10, other.11, other.12, other.13, other.14, other.15, other.16, other.17, other.18, other.19, other.20, other.21, other.22, other.23, other.24, other.25)
    }

    fn join(self, other: (T1, T2, T3, T4, T5, T6, T7, T8, T9, T10, T11, T12, T13, T14, T15, T16, T17, T18, T19, T20, T21, T22, T23, T24, T25, T26)) -> (r: (T1, T2, T3, T4, T5, T6, T7, T8, T9, T10, T11, T12, T13, T14, T15, T16, T17, T18, T19, T20, T21, T22, T23, T24, T25, T26)) {
        (other.0, other.1, other.2, other.3, other.4, other.5, other.6, other.7, other.8, other.9, other.10, other.11, other.12, other.13, other.14, other.15, other.16, other.17, other.18, other.19, other.20, other.21, other.22, other.23, other.24, other.25)
    }

    proof fn lemma_join_arity(self, other: (T1, T2, T3, T4, T5, T6, T7, T8, T9, T10, T11, T12, T13, T14, T15, T16, T17, T18, T19, T20, T21, T22, T23, T24, T25, T26)) {
    }
}

impl<T1, T2, T3, T4, T5, T6, T7, T8, T9, T10, T11, T12, T13, T14, T15, T16, T17, T18, T19, T20, T21, T22, T23, T24, T25, T26> JoinableTuple<(T2, T3, T4, T5, T6, T7, T8, T9, T10, T11, T12, T13, T14, T15, T16, T17, T18, T19, T20, T21, T22, T23, T24, T25, T26)> for (T1,) {
    type Join = (T1, T2, T3, T4, T5, T6, T7, T8, T9, T10, T11, T12, T13, T14, T15, T16, T17, T18, T19, T20, T21, T22, T23, T24, T25, T26);

    open spec fn spec_join(self, other: (T2, T3, T4, T5, T6, T7, T8, T9, T10, T11, T12, T13, T14, T15, T16, T17, T18, T19, T20, T21, T22, T23, T24, T25, T26)) -> (T1, T2, T3, T4, T5, T6, T7, T8, T9, T10, T11, T12, T13, T14, T15, T16, T17, T18, T19, T20, T21, T22, T23, T24, T25, T26) {
        (self.0, other.0, other.1, other.2, other.3, other.4, other.5, other.6, other.7, other.8, other.9, other.10, other.11, other.12, other.13, other.14, other.15, other.16, other.17, other.18, other.19, other.20, other.21, other.22, other.23, other.24)
    }

    fn join(self, other: (T2, T3, T4, T5, T6, T7, T8, T9, T10, T11, T12, T13, T14, T15, T16, T17, T18, T19, T20, T21, T22, T23, T24, T25, T26)) -> (r: (T1, T2, T3, T4, T5, T6, T7, T8, T9, T10, T11, T12, T13, T14, T15, T16, T17, T18, T19, T20, T21, T22, T23, T24, T25, T26)) {
        (self.0, other.0, other.1, other.2, other.3, other.4, other.5, other.6, other.7, other.8, other.9, other.10, other.11, other.12, other.13, other.14, other.15, other.16, other.17, other.18, other.19, other.20, other.21, other.22, other.23, other.24)
    }

    proof fn lemma_join_arity(self, other: (T2, T3, T4, T5, T6, T7, T8, T9, T10, T11, T12, T13, T14, T15, T16, T17, T18, T19, T20, T21, T22, T23, T24, T25, T26)) {
    }
}

impl<T1, T2, T3, T4, T5, T6, T7, T8, T9, T10, T11, T12, T13, T14, T15, T16, T17, T18, T19, T20, T21, T22, T23, T24, T25, T26> JoinableTuple<(T3, T4, T5, T6, T7, T8, T9, T10, T11, T12, T13, T14, T15, T16, T17, T18, T19, T20, T21, T22, T23, T24, T25, T26)> for (T1, T2) {
    type Join = (T1, T2, T3, T4, T5, T6, T7, T8, T9, T10, T11, T12, T13, T14, T15, T16, T17, T18, T19, T20, T21, T22, T23, T24, T25, T26);

    open spec fn spec_join(self, other: (T3, T4, T5, T6, T7, T8, T9, T10, T11, T12, T13, T14, T15, T16, T17, T18, T19, T20, T21, T22, T23, T24, T25, T26)) -> (T1, T2, T3, T4, T5, T6, T7, T8, T9, T10, T11, T12, T13, T14, T15, T16, T17, T18, T19, T20, T21, T22, T23, T24, T25, T26) {
        (self.0, self.1, other.0, other.1, other.2, other.3, other.4, other.5, other.6, other.7, other.8, other.9, other.10, other.11, other.12, other.13, other.14, other.15, other.16, other.17, other.18, other.19, other.20, other.21, other.22, other.23)
    }

    fn join(self, other: (T3, T4, T5, T6, T7, T8, T9, T10, T11, T12, T13, T14, T15, T16, T17, T18, T19, T20, T21, T22, T23, T24, T25, T26)) -> (r: (T1, T2, T3, T4, T5, T6, T7, T8, T9, T10, T11, T12, T13, T14, T15, T16, T17, T18, T19, T20, T21, T22, T23, T24, T25, T26)) {
        (self.0, self.1, other.0, other.1, other.2, other.3, other.4, other.5, other.6, other.7, other.8, other.9, other.10, other.11, other.12, other.13, other.14, other.15, other.16, other.17, other.18, other.19, other.20, other.21, other.22, other.23)
    }

    proof fn lemma_join_arity(self, other: (T3, T4, T5, T6, T7, T8, T9, T10, T11, T12, T13, T14, T15, T16, T17, T18, T19, T20, T21, T22, T23, T24, T25, T26)) {
    }
}

impl<T1, T2, T3, T4, T5, T6, T7, T8, T9, T10, T11, T12, T13, T14, T15, T16, T17, T18, T19, T20, T21, T22, T23, T24, T25, T26> JoinableTuple<(T4, T5, T6, T7, T8, T9, T10, T11, T12, T13, T14, T15, T16, T17, T18, T19, T20, T21, T22, T23, T24, T25, T26)> for (T1, T2, T3) {
    type Join = (T1, T2, T3, T4, T5, T6, T7, T8, T9, T10, T11, T12, T13, T14, T15, T16, T17, T18, T19, T20, T21, T22, T23, T24, T25, T26);

    open spec fn spec_join(self, other: (T4, T5, T6, T7, T8, T9, T10, T11, T12, T13, T14, T15, T16, T17, T18, T19, T20, T21, T22, T23, T24, T25, T26)) -> (T1, T2, T3, T4, T5, T6, T7, T8, T9, T10, T11, T12, T13, T14, T15, T16, T17, T18, T19, T20, T21, T22, T23, T24, T25, T26) {
        (self.0, self.1, self.2, other.0, other.1, other.2, other.3, other.4, other.5, other.6, other.7, other.8, other.9, other.10, other.11, other.12, other.13, other.14, other.15, other.16, other.17, other.18, other.19, other.20, other.21, other.22)
    }

    fn join(self, other: (T4, T5, T6, T7, T8, T9, T10, T11, T12, T13, T14, T15, T16, T17, T18, T19, T20, T21, T22, T23, T24, T25, T26)) -> (r: (T1, T2, T3, T4, T5, T6, T7, T8, T9, T10, T11, T12, T13, T14, T15, T16, T17, T18, T19, T20, T21, T22, T23, T24, T25, T26)) {
        (self.0, self.1, self.2, other.0, other.1, other.2, other.3, other.4, other.5, other.6, other.7, other.8, other.9, other.10, other.11, other.12, other.13, other.14, other.15, other.16, other.17, other.18, other.19, other.20, other.21, other.22)
    }

    proof fn lemma_join_arity(self, other: (T4, T5, T6, T7, T8, T9, T10, T11, T12, T13, T14, T15, T16, T17, T18, T19, T20, T21, T22, T23, T24, T25, T26)) {
    }
}

impl<T1, T2, T3, T4, T5, T6, T7, T8, T9, T10, T11, T12, T13, T14, T15, T16, T17, T18, T19, T20, T21, T22, T23, T24, T25, T26> JoinableTuple<(T5, T6, T7, T8, T9, T10, T11, T12, T13, T14, T15, T16, T17, T18, T19, T20, T21, T22, T23, T24, T25, T26)> for (T1, T2, T3, T4) {
    type Join = (T1, T2, T3, T4, T5, T6, T7, T8, T9, T10, T11, T12, T13, T14, T15, T16, T17, T18, T19, T20, T21, T22, T23, T24, T25, T26);

    open spec fn spec_join(self, other: (T5, T6, T7, T8, T9, T10, T11, T12, T13, T14, T15, T16, T17, T18, T19, T20, T21, T22, T23, T24, T25, T26)) -> (T1, T2, T3, T4, T5, T6, T7, T8, T9, T10, T11, T12, T13, T14, T15, T16, T17, T18, T19, T20, T21, T22, T23, T24, T25, T26) {
        (self.0, self.1, self.2, self.3, other.0, other.1, other.2, other.3, other.4, other.5, other.6, other.7, other.8, other.9, other.10, other.11, other.12, other.13, other.14, other.15, other.16, other.17, other.18, other.19, other.20, other.21)
    }

    fn join(self, other: (T5, T6, T7, T8, T9, T10, T11, T12, T13, T14, T15, T16, T17, T18, T19, T20, T21, T22, T23, T24, T25, T26)) -> (r: (T1, T2, T3, T4, T5, T6, T7, T8, T9, T10, T11, T12, T13, T14, T15, T16, T17, T18, T19, T20, T21, T22, T23, T24, T25, T26)) {
        (self.0, self.1, self.2, self.3, other.0, other.1, other.2, other.3, other.4, other.5, other.6, other.7, other.8, other.9, other.10, other.11, other.12, other.13, other.14, other.15, other.16, other.17, other.18, other.19, other.20, other.21)
    }

    proof fn lemma_join_arity(self, other: (T5, T6, T7, T8, T9, T10, T11, T12, T13, T14, T15, T16, T17, T18, T19, T20, T21, T22, T23, T24, T25, T26)) {
    }
}

impl<T1, T2, T3, T4, T5, T6, T7, T8, T9, T10, T11, T12, T13, T14, T15, T16, T17, T18, T19, T20, T21, T22, T23, T24, T25, T26> JoinableTuple<(T6, T7, T8, T9, T10, T11, T12, T13, T14, T15, T16, T17, T18, T19, T20, T21, T22, T23, T24, T25, T26)> for (T1, T2, T3, T4, T5) {
    type Join = (T1, T2, T3, T4, T5, T6, T7, T8, T9, T10, T11, T12, T13, T14, T15, T16, T17, T18, T19, T20, T21, T22, T23, T24, T25, T26);

    open spec fn spec_join(self, other: (T6, T7, T8, T9, T10, T11, T12, T13, T14, T15, T16, T17, T18, T19, T20, T21, T22, T23, T24, T25, T26)) -> (T1, T2, T3, T4, T5, T6, T7, T8, T9, T10, T11, T12, T13, T14, T15, T16, T17, T18, T19, T20, T21, T22, T23, T24, T25, T26) {
        (self.0, self.1, self.2, self.3, self.4, other.0, other.1, other.2, other.3, other.4, other.5, other.6, other.7, other.8, other.9, other.10, other.11, other.12, other.13, other.14, other.15, other.16, other.17, other.18, other.19, other.20)
    }

    fn join(self, other: (T6, T7, T8, T9, T10, T11, T12, T13, T14, T15, T16, T17, T18, T19, T20, T21, T22, T23, T24, T25, T26)) -> (r: (T1, T2, T3, T4, T5, T6, T7, T8, T9, T10, T11, T12, T13, T14, T15, T16, T17, T18, T19, T20, T21, T22, T23, T24, T25, T26)) {
        (self.0, self.1, self.2, self.3, self.4, other.0, other.1, other.2, other.3, other.4, other.5, other.6, other.7, other.8, other.9, other.10, other.11, other.12, other.13, other.14, other.15, other.16, other.17, other.18, other.19, other.20)
    }

    proof fn lemma_join_arity(self, other: (T6, T7, T8, T9, T10, T11, T12, T13, T14, T15, T16, T17, T18, T19, T20, T21, T22, T23, T24, T25, T26)) {
    }
}

impl<T1, T2, T3, T4, T5, T6, T7, T8, T9, T10, T11, T12, T13, T14, T15, T16, T17, T18, T19, T20, T21, T22, T23, T24, T25, T26> JoinableTuple<(T7, T8, T9, T10, T11, T12, T13, T14, T15, T16, T17, T18, T19, T20, T21, T22, T23, T24, T25, T26)> for (T1, T2, T3, T4, T5, T6) {
    type Join = (T1, T2, T3, T4, T5, T6, T7, T8, T9, T10, T11, T12, T13, T14, T15, T16, T17, T18, T19, T20, T21, T22, T23, T24, T25, T26);

    open spec fn spec_join(self, other: (T7, T8, T9, T10, T11, T12, T13, T14, T15, T16, T17, T18, T19, T20, T21, T22, T23, T24, T25, T26)) -> (T1, T2, T3, T4, T5, T6, T7, T8, T9, T10, T11, T12, T13, T14, T15, T16, T17, T18, T19, T20, T21, T22, T23, T24, T25, T26) {
        (self.0, self.1, self.2, self.3, self.4, self.5, other.0, other.1, other.2, other.3, other.4, other.5, other.6, other.7, other.8, other.9, other.10, other.11, other.12, other.13, other.14, other.15, other.16, other.17, other.18, other.19)
    }

    fn join(self, other: (T7, T8, T9, T10, T11, T12, T13, T14, T15, T16, T17, T18, T19, T20, T21, T22, T23, T24, T25, T26)) -> (r: (T1, T2, T3, T4, T5, T6, T7, T8, T9, T10, T11, T12, T13, T14, T15, T16, T17, T18, T19, T20, T21, T22, T23, T24, T25, T26)) {
        (self.0, self.1, self.2, self.3, self.4, self.5, other.0, other.1, other.2, other.3, other.4, other.5, other.6, other.7, other.8, other.9, other.10, other.11, other.12, other.13, other.14, other.15, other.16, other.17, other.18, other.19)
    }

    proof fn lemma_join_arity(self, other: (T7, T8, T9, T10, T11, T12, T13, T14, T15, T16, T17, T18, T19, T20, T21, T22, T23, T24, T25, T26)) {
    }
}

impl<T1, T2, T3, T4, T5, T6, T7, T8, T9, T10, T11, T12, T13, T14, T15, T16, T17, T18, T19, T20, T21, T22, T23, T24, T25, T26> JoinableTuple<(T8, T9, T10, T11, T12, T13, T14, T15, T16, T17, T18, T19, T20, T21, T22, T23, T24, T25, T26)> for (T1, T2, T3, T4, T5, T6, T7) {
    type Join = (T1, T2, T3, T4, T5, T6, T7, T8, T9, T10, T11, T12, T13, T14, T15, T16, T17, T18, T19, T20, T21, T22, T23, T24, T25, T26);

    open spec fn spec_join(self, other: (T8, T9, T10, T11, T12, T13, T14, T15, T16, T17, T18, T19, T20, T21, T22, T23, T24, T25, T26)) -> (T1, T2, T3, T4, T5, T6, T7, T8, T9, T10, T11, T12, T13, T14, T15, T16, T17, T18, T19, T20, T21, T22, T23, T24, T25, T26) {
        (self.0, self.1, self.2, self.3, self.4, self.5, self.6, other.0, other.1, other.2, other.3, other.4, other.5, other.6, other.7, other.8, other.9, other.10, other.11, other.12, other.13, other.14, other.15, other.16, other.17, other.18)
    }

    fn join(self, other: (T8, T9, T10, T11, T12, T13, T14, T15, T16, T17, T18, T19, T20, T21, T22, T23, T24, T25, T26)) -> (r: (T1, T2, T3, T4, T5, T6, T7, T8, T9, T10, T11, T12, T13, T14, T15, T16, T17, T18, T19, T20, T21, T22, T23, T24, T25, T26)) {
        (self.0, self.1, self.2, self.3, self.4, self.5, self.6, other.0, other.1, other.2, other.3, other.4, other.5, other.6, other.7, other.8, other.9, other.10, other.11, other.12, other.13, other.14, other.15, other.16, other.17, other.18)
    }

    proof fn lemma_join_arity(self, other: (T8, T9, T10, T11, T12, T13, T14, T15, T16, T17, T18, T19, T20, T21, T22, T23, T24, T25, T26)) {
    }
}

impl<T1, T2, T3, T4, T5, T6, T7, T8, T9, T10, T11, T12, T13, T14, T15, T16, T17, T18, T19, T20, T21, T22, T23, T24, T25, T26> JoinableTuple<(T9, T10, T11, T12, T13, T14, T15, T16, T17, T18, T19, T20, T21, T22, T23, T24, T25, T26)> for (T1, T2, T3, T4, T5, T6, T7, T8) {
    type Join = (T1, T2, T3, T4, T5, T6, T7, T8, T9, T10, T11, T12, T13, T14, T15, T16, T17, T18, T19, T20, T21, T22, T23, T24, T25, T26);

    open spec fn spec_join(self, other: (T9, T10, T11, T12, T13, T14, T15, T16, T17, T18, T19, T20, T21, T22, T23, T24, T25, T26)) -> (T1, T2, T3, T4, T5, T6, T7, T8, T9, T10, T11, T12, T13, T14, T15, T16, T17, T18, T19, T20, T21, T22, T23, T24, T25, T26) {
        (self.0, self.1, self.2, self.3, self.4, self.5, self.6, self.7, other.0, other.1, other.2, other.3, other.4, other.5, other.6, other.7, other.8, other.9, other.10, other.11, other.12, other.13, other.14, other.15, other.16, other.17)
    }

    fn join(self, other: (T9, T10, T11, T12, T13, T14, T15, T16, T17, T18, T19, T20, T21, T22, T23, T24, T25, T26)) -> (r: (T1, T2, T3, T4, T5, T6, T7, T8, T9, T10, T11, T12, T13, T14, T15, T16, T17, T18, T19, T20, T21, T22, T23, T24, T25, T26)) {
        (self.0, self.1, self.2, self.3, self.4, self.5, self.6, self.7, other.0, other.1, other.2, other.3, other.4, other.5, other.6, other.7, other.8, other.9, other.10, other.11, other.12, other.13, other.14, other.15, other.16, other.17)
    }

    proof fn lemma_join_arity(self, other: (T9, T10, T11, T12, T13, T14, T15, T16, T17, T18, T19, T20, T21, T22, T23, T24, T25, T26)) {
    }
}

impl<T1, T2, T3, T4, T5, T6, T7, T8, T9, T10, T11, T12, T13, T14, T15, T16, T17, T18, T19, T20, T21, T22, T23, T24, T25, T26> JoinableTuple<(T10, T11, T12, T13, T14, T15, T16, T17, T18, T19, T20, T21, T22, T23, T24, T25, T26)> for (T1, T2, T3, T4, T5, T6, T7, T8, T9) {
    type Join = (T1, T2, T3, T4, T5, T6, T7, T8, T9, T10, T11, T12, T13, T14, T15, T16, T17, T18, T19, T20, T21, T22, T23, T24, T25, T26);

    open spec fn spec_join(self, other: (T10, T11, T12, T13, T14, T15, T16, T17, T18, T19, T20, T21, T22, T23, T24, T25, T26)) -> (T1, T2, T3, T4, T5, T6, T7, T8, T9, T10, T11, T12, T13, T14, T15, T16, T17, T18, T19, T20, T21, T22, T23, T24, T25, T26) {
        (self.0, self.1, self.2, self.3, self.4, self.5, self.6, self.7, self.8, other.0, other.1, other.2, other.3, other.4, other.5, other.6, other.7, other.8, other.9, other.10, other.11, other.12, other.13, other.14, other.15, other.16)
    }

    fn join(self, other: (T10, T11, T12, T13, T14, T15, T16, T17, T18, T19, T20, T21, T22, T23, T24, T25, T26)) -> (r: (T1, T2, T3, T4, T5, T6, T7, T8, T9, T10, T11, T12, T13, T14, T15, T16, T17, T18, T19, T20, T21, T22, T23, T24, T25, T26)) {
        (self.0, self.1, self.2, self.3, self.4, self.5, self.6, self.7, self.8, other.0, other.1, other.2, other.3, other.4, other.5, other.6, other.7, other.8, other.9, other.10, other.11, other.12, other.13, other.14, other.15, other.16)
    }

    proof fn lemma_join_arity(self, other: (T10, T11, T12, T13, T14, T15, T16, T17, T18, T19, T20, T21, T22, T23, T24, T25, T26)) {
    }
}

impl<T1, T2, T3, T4, T5, T6, T7, T8, T9, T10, T11, T12, T13, T14, T15, T16, T17, T18, T19, T20, T21, T22, T23, T24, T25, T26> JoinableTuple<(T11, T12, T13, T14, T15, T16, T17, T18, T19, T20, T21, T22, T23, T24, T25, T26)> for (T1, T2, T3, T4, T5, T6, T7, T8, T9, T10) {
    type Join = (T1, T2, T3, T4, T5, T6, T7, T8, T9, T10, T11, T12, T13, T14, T15, T16, T17, T18, T19, T20, T21, T22, T23, T24, T25, T26);

    open spec fn spec_join(self, other: (T11, T12, T13, T14, T15, T16, T17, T18, T19, T20, T21, T22, T23, T24, T25, T26)) -> (T1, T2, T3, T4, T5, T6, T7, T8, T9, T10, T11, T12, T13, T14, T15, T16, T17, T18, T19, T20, T21, T22, T23, T24, T25, T26) {
        (self.0, self.1, self.2, self.3, self.4, self.5, self.6, self.7, self.8, self.9, other.0, other.1, other.2, other.3, other.4, other.5, other.6, other.7, other.8, other.9, other.10, other.11, other.12, other.13, other.14, other.15)
    }

    fn join(self, other: (T11, T12, T13, T14, T15, T16, T17, T18, T19, T20, T21, T22, T23, T24, T25, T26)) -> (r: (T1, T2, T3, T4, T5, T6, T7, T8, T9, T10, T11, T12, T13, T14, T15, T16, T17, T18, T19, T20, T21, T22, T23, T24, T25, T26)) {
        (self.0, self.1, self.2, self.3, self.4, self.5, self.6, self.7, self.8, self.9, other.0, other.1, other.2, other.3, other.4, other.5, other.6, other.7, other.8, other.9, other.10, other.11, other.12, other.13, other.14, other.15)
    }

    proof fn lemma_join_arity(self, other: (T11, T12, T13, T14, T15, T16, T17, T18, T19, T20, T21, T22, T23, T24, T25, T26)) {
    }
}

impl<T1, T2, T3, T4, T5, T6, T7, T8, T9, T10, T11, T12, T13, T14, T15, T16, T17, T18, T19, T20, T21, T22, T23, T24, T25, T26> JoinableTuple<(T12, T13, T14, T15, T16, T17, T18, T19, T20, T21, T22, T23, T24, T25, T26)> for (T1, T2, T3, T4, T5, T6, T7, T8, T9, T10, T11) {
    type Join = (T1, T2, T3, T4, T5, T6, T7, T8, T9, T10, T11, T12, T13, T14, T15, T16, T17, T18, T19, T20, T21, T22, T23, T24, T25, T26);

    open spec fn spec_join(self, other: (T12, T13, T14, T15, T16, T17, T18, T19, T20, T21, T22, T23, T24, T25, T26)) -> (T1, T2, T3, T4, T5, T6, T7, T8, T9, T10, T11, T12, T13, T14, T15, T16, T17, T18, T19, T20, T21, T22, T23, T24, T25, T26) {
        (self.0, self.1, self.2, self.3, self.4, self.5, self.6, self.7, self.8, self.9, self.10, other.0, other.1, other.2, other.3, other.4, other.5, other.6, other.7, other.8, other.9, other.10, other.11, other.12, other.13, other.14)
    }

    fn join(self, other: (T12, T13, T14, T15, T16, T17, T18, T19, T20, T21, T22, T23, T24, T25, T26)) -> (r: (T1, T2, T3, T4, T5, T6, T7, T8, T9, T10, T11, T12, T13, T14, T15, T16, T17, T18, T19, T20, T21, T22, T23, T24, T25, T26)) {
        (self.0, self.1, self.2, self.3, self.4, self.5, self.6, self.7, self.8, self.9, self.10, other.0, other.1, other.2, other.3, other.4, other.5, other.6, other.7, other.8, other.9, other.10, other.11, other.12, other.13, other.14)
    }

    proof fn lemma_join_arity(self, other: (T12, T13, T14, T15, T16, T17, T18, T19, T20, T21, T22, T23, T24, T25, T26)) {
    }
}

impl<T1, T2, T3, T4, T5, T6, T7, T8, T9, T10, T11, T12, T13, T14, T15, T16, T17, T18, T19, T20, T21, T22, T23, T24, T25, T26> JoinableTuple<(T13, T14, T15, T16, T17, T18, T19, T20, T21, T22, T23, T24, T25, T26)> for (T1, T2, T3, T4, T5, T6, T7, T8, T9, T10, T11, T12) {
    type Join = (T1, T2, T3, T4, T5, T6, T7, T8, T9, T10, T11, T12, T13, T14, T15, T16, T17, T18, T19, T20, T21, T22, T23, T24, T25, T26);

    open spec fn spec_join(self, other: (T13, T14, T15, T16, T17, T18, T19, T20, T21, T22, T23, T24, T25, T26)) -> (T1, T2, T3, T4, T5, T6, T7, T8, T9, T10, T11, T12, T13, T14, T15, T16, T17, T18, T19, T20, T21, T22, T23, T24, T25, T26) {
        (self.0, self.1, self.2, self.3, self.4, self.5, self.6, self.7, self.8, self.9, self.10, self.11, other.0, other.1, other.2, other.3, other.4, other.5, other.6, other.7, other.8, other.9, other.10, other.11, other.12, other.13)
    }

    fn join(self, other: (T13, T14, T15, T16, T17, T18, T19, T20, T21, T22, T23, T24, T25, T26)) -> (r: (T1, T2, T3, T4, T5, T6, T7, T8, T9, T10, T11, T12, T13, T14, T15, T16, T17, T18, T19, T20, T21, T22, T23, T24, T25, T26)) {
        (self.0, self.1, self.2, self.3, self.4, self.5, self.6, self.7, self.8, self.9, self.10, self.11, other.0, other.1, other.2, other.3, other.4, other.5, other.6, other.7, other.8, other.9, other.10, other.11, other.12, other.13)
    }

    proof fn lemma_join_arity(self, other: (T13, T14, T15, T16, T17, T18, T19, T20, T21, T22, T23, T24, T25, T26)) {
    }
}

impl<T1, T2, T3, T4, T5, T6, T7, T8, T9, T10, T11, T12, T13, T14, T15, T16, T17, T18, T19, T20, T21, T22, T23, T24, T25, T26> JoinableTuple<(T14, T15, T16, T17, T18, T19, T20, T21, T22, T23, T24, T25, T26)> for (T1, T2, T3, T4, T5, T6, T7, T8, T9, T10, T11, T12, T13) {
    type Join = (T1, T2, T3, T4, T5, T6, T7, T8, T9, T10, T11, T12, T13, T14, T15, T16, T17, T18, T19, T20, T21, T22, T23, T24, T25, T26);

    open spec fn spec_join(self, other: (T14, T15, T16, T17, T18, T19, T20, T21, T22, T23, T24, T25, T26)) -> (T1, T2, T3, T4, T5, T6, T7, T8, T9, T10, T11, T12, T13, T14, T15, T16, T17, T18, T19, T20, T21, T22, T23, T24, T25, T26) {
        (self.0, self.1, self.2, self.3, self.4, self.5, self.6, self.7, self.8, self.9, self.10, self.11, self.12, other.0, other.1, other.2, other.3, other.4, other.5, other.6, other.7, other.8, other.9, other.10, other.11, other.12)
    }

    fn join(self, other: (T14, T15, T16, T17, T18, T19, T20, T21, T22, T23, T24, T25, T26)) -> (r: (T1, T2, T3, T4, T5, T6, T7, T8, T9, T10, T11, T12, T13, T14, T15, T16, T17, T18, T19, T20, T21, T22, T23, T24, T25, T26)) {
        (self.0, self.1, self.2, self.3, self.4, self.5, self.6, self.7, self.8, self.9, self.10, self.11, self.12, other.0, other.1, other.2, other.3, other.4, other.5, other.6, other.7, other.8, other.9, other.10, other.11, other.12)
    }

    proof fn lemma_join_arity(self, other: (T14, T15, T16, T17, T18, T19, T20, T21, T22, T23, T24, T25, T26)) {
    }
}

impl<T1, T2, T3, T4, T5, T6, T7, T8, T9, T10, T11, T12, T13, T14, T15, T16, T17, T18, T19, T20, T21, T22, T23, T24, T25, T26> JoinableTuple<(T15, T16, T17, T18, T19, T20, T21, T22, T23, T24, T25, T26)> for (T1, T2, T3, T4, T5, T6, T7, T8, T9, T10, T11, T12, T13, T14) {
    type Join = (T1, T2, T3, T4, T5, T6, T7, T8, T9, T10, T11, T12, T13, T14, T15, T16, T17, T18, T19, T20, T21, T22, T23, T24, T25, T26);

    open spec fn spec_join(self, other: (T15, T16, T17, T18, T19, T20, T21, T22, T23, T24, T25, T26)) -> (T1, T2, T3, T4, T5, T6, T7, T8, T9, T10, T11, T12, T13, T14, T15, T16, T17, T18, T19, T20, T21, T22, T23, T24, T25, T26) {
        (self.0, self.1, self.2, self.3, self.4, self.5, self.6, self.7, self.8, self.9, self.10, self.11, self.12, self.13, other.0, other.1, other.2, other.3, other.4, other.5, other.6, other.7, other.8, other.9, other.10, other.11)
    }

    fn join(self, other: (T15, T16, T17, T18, T19, T20, T21, T22, T23, T24, T25, T26)) -> (r: (T1, T2, T3, T4, T5, T6, T7, T8, T9, T10, T11, T12, T13, T14, T15, T16, T17, T18, T19, T20, T21, T22, T23, T24, T25, T26)) {
        (self.0, self.1, self.2, self.3, self.4, self.5, self.6, self.7, self.8, self.9, self.10, self.11, self.12, self.13, other.0, other.1, other.2, other.3, other.4, other.5, other.6, other.7, other.8, other.9, other.10, other.11)
    }

    proof fn lemma_join_arity(self, other: (T15, T16, T17, T18, T19, T20, T21, T22, T23, T24, T25, T26)) {
    }
}

impl<T1, T2, T3, T4, T5, T6, T7, T8, T9, T10, T11, T12, T13, T14, T15, T16, T17, T18, T19, T20, T21, T22, T23, T24, T25, T26> JoinableTuple<(T16, T17, T18, T19, T20, T21, T22, T23, T24, T25, T26)> for (T1, T2, T3, T4, T5, T6, T7, T8, T9, T10, T11, T12, T13, T14, T15) {
    type Join = (T1, T2, T3, T4, T5, T6, T7, T8, T9, T10, T11, T12, T13, T14, T15, T16, T17, T18, T19, T20, T21, T22, T23, T24, T25, T26);

    open spec fn spec_join(self, other: (T16, T17, T18, T19, T20, T21, T22, T23, T24, T25, T26)) -> (T1, T2, T3, T4, T5, T6, T7, T8, T9, T10, T11, T12, T13, T14, T15, T16, T17, T18, T19, T20, T21, T22, T23, T24, T25, T26) {
        (self.0, self.1, self.2, self.3, self.4, self.5, self.6, self.7, self.8, self.9, self.10, self.11, self.12, self.13, self.14, other.0, other.1, other.2, other.3, other.4, other.5, other.6, other.7, other.8, other.9, other.10)
    }

    fn join(self, other: (T16, T17, T18, T19, T20, T21, T22, T23, T24, T25, T26)) -> (r: (T1, T2, T3, T4, T5, T6, T7, T8, T9, T10, T11, T12, T13, T14, T15, T16, T17, T18, T19, T20, T21, T22, T23, T24, T25, T26)) {
        (self.0, self.1, self.2, self.3, self.4, self.5, self.6, self.7, self.8, self.9, self.10, self.11, self.12, self.13, self.14, other.0, other.1, other.2, other.3, other.4, other.5, other.6, other.7, other.8, other.9, other.10)
    }

    proof fn lemma_join_arity(self, other: (T16, T17, T18, T19, T20, T21, T22, T23, T24, T25, T26)) {
    }
}

impl<T1, T2, T3, T4, T5, T6, T7, T8, T9, T10, T11, T12, T13, T14, T15, T16, T17, T18, T19, T20, T21, T22, T23, T24, T25, T26> JoinableTuple<(T17, T18, T19, T20, T21, T22, T23, T24, T25, T26)> for (T1, T2, T3, T4, T5, T6, T7, T8, T9, T10, T11, T12, T13, T14, T15, T16) {
    type Join = (T1, T2, T3, T4, T5, T6, T7, T8, T9, T10, T11, T12, T13, T14, T15, T16, T17, T18, T19, T20, T21, T22, T23, T24, T25, T26);

    open spec fn spec_join(self, other: (T17, T18, T19, T20, T21, T22, T23, T24, T25, T26)) -> (T1, T2, T3, T4, T5, T6, T7, T8, T9, T10, T11, T12, T13, T14, T15, T16, T17, T18, T19, T20, T21, T22, T23, T24, T25, T26) {
        (self.0, self.1, self.2, self.3, self.4, self.5, self.6, self.7, self.8, self.9, self.10, self.11, self.12, self.13, self.14, self.15, other.0, other.1, other.2, other.3, other.4, other.5, other.6, other.7, other.8, other.9)
    }

    fn join(self, other: (T17, T18, T19, T20, T21, T22, T23, T24, T25, T26)) -> (r: (T1, T2, T3, T4, T5, T6, T7, T8, T9, T10, T11, T12, T13, T14, T15, T16, T17, T18, T19, T20, T21, T22, T23, T24, T25, T26)) {
        (self.0, self.1, self.2, self.3, self.4, self.5, self.6, self.7, self.8, self.9, self.10, self.11, self.12, self.13, self.14, self.15, other.0, other.1, other.2, other.3, other.4, other.5, other.6, other.7, other.8, other.9)
    }

    proof fn lemma_join_arity(self, other: (T17, T18, T19, T20, T21, T22, T23, T24, T25, T26)) {
    }
}

impl<T1, T2, T3, T4, T5, T6, T7, T8, T9, T10, T11, T12, T13, T14, T15, T16, T17, T18, T19, T20, T21, T22, T23, T24, T25, T26> JoinableTuple<(T18, T19, T20, T21, T22, T23, T24, T25, T26)> for (T1, T2, T3, T4, T5, T6, T7, T8, T9, T10, T11, T12, T13, T14, T15, T16, T17) {
    type Join = (T1, T2, T3, T4, T5, T6, T7, T8, T9, T10, T11, T12, T13, T14, T15, T16, T17, T18, T19, T20, T21, T22, T23, T24, T25, T26);

    open spec fn spec_join(self, other: (T18, T19, T20, T21, T22, T23, T24, T25, T26)) -> (T1, T2, T3, T4, T5, T6, T7, T8, T9, T10, T11, T12, T13, T14, T15, T16, T17, T18, T19, T20, T21, T22, T23, T24, T25, T26) {
        (self.0, self.1, self.2, self.3, self.4, self.5, self.6, self.7, self.8, self.9, self.10, self.11, self.12, self.13, self.14, self.15, self.16, other.0, other.1, other.2, other.3, other.4, other.5, other.6, other.7, other.8)
    }

    fn join(self, other: (T18, T19, T20, T21, T22, T23, T24, T25, T26)) -> (r: (T1, T2, T3, T4, T5, T6, T7, T8, T9, T10, T11, T12, T13, T14, T15, T16, T17, T18, T19, T20, T21, T22, T23, T24, T25, T26)) {
        (self.0, self.1, self.2, self.3, self.4, self.5, self.6, self.7, self.8, self.9, self.10, self.11, self.12, self.13, self.14, self.15, self.16, other.0, other.1, other.2, other.3, other.4, other.5, other.6, other.7, other.8)
    }

    proof fn lemma_join_arity(self, other: (T18, T19, T20, T21, T22, T23, T24, T25, T26)) {
    }
}

impl<T1, T2, T3, T4, T5, T6, T7, T8, T9, T10, T11, T12, T13, T14, T15, T16, T17, T18, T19, T20, T21, T22, T23, T24, T25, T26> JoinableTuple<(T19, T20, T21, T22, T23, T24, T25, T26)> for (T1, T2, T3, T4, T5, T6, T7, T8, T9, T10, T11, T12, T13, T14, T15, T16, T17, T18) {
    type Join = (T1, T2, T3, T4, T5, T6, T7, T8, T9, T10, T11, T12, T13, T14, T15, T16, T17, T18, T19, T20, T21, T22, T23, T24, T25, T26);

    open spec fn spec_join(self, other: (T19, T20, T21, T22, T23, T24, T25, T26)) -> (T1, T2, T3, T4, T5, T6, T7, T8, T9, T10, T11, T12, T13, T14, T15, T16, T17, T18, T19, T20, T21, T22, T23, T24, T25, T26) {
        (self.0, self.1, self.2, self.3, self.4, self.5, self.6, self.7, self.8, self.9, self.10, self.11, self.12, self.13, self.14, self.15, self.16, self.17, other.0, other.1, other.2, other.3, other.4, other.5, other.6, other.7)
    }

    fn join(self, other: (T19, T20, T21, T22, T23, T24, T25, T26)) -> (r: (T1, T2, T3, T4, T5, T6, T7, T8, T9, T10, T11, T12, T13, T14, T15, T16, T17, T18, T19, T20, T21, T22, T23, T24, T25, T26)) {
        (self.0, self.1, self.2, self.3, self.4, self.5, self.6, self.7, self.8, self.9, self.10, self.11, self.12, self.13, self.14, self.15, self.16, self.17, other.0, other.1, other.2, other.3, other.4, other.5, other.6, other.7)
    }

    proof fn lemma_join_arity(self, other: (T19, T20, T21, T22, T23, T24, T25, T26)) {
    }
}

impl<T1, T2, T3, T4, T5, T6, T7, T8, T9, T10, T11, T12, T13, T14, T15, T16, T17, T18, T19, T20, T21, T22, T23, T24, T25, T26> JoinableTuple<(T20, T21, T22, T23, T24, T25, T26)> for (T1, T2, T3, T4, T5, T6, T7, T8, T9, T10, T11, T12, T13, T14, T15, T16, T17, T18, T19) {
    type Join = (T1, T2, T3, T4, T5, T6, T7, T8, T9, T10, T11, T12, T13, T14, T15, T16, T17, T18, T19, T20, T21, T22, T23, T24, T25, T26);

    open spec fn spec_join(self, other: (T20, T21, T22, T23, T24, T25, T26)) -> (T1, T2, T3, T4, T5, T6, T7, T8, T9, T10, T11, T12, T13, T14, T15, T16, T17, T18, T19, T20, T21, T22, T23, T24, T25, T26) {
        (self.0, self.1, self.2, self.3, self.4, self.5, self.6, self.7, self.8, self.9, self.10, self.11, self.12, self.13, self.14, self.15, self.16, self.17, self.18, other.0, other.1, other.2, other.3, other.4, other.5, other.6)
    }

    fn join(self, other: (T20, T21, T22, T23, T24, T25, T26)) -> (r: (T1, T2, T3, T4, T5, T6, T7, T8, T9, T10, T11, T12, T13, T14, T15, T16, T17, T18, T19, T20, T21, T22, T23, T24, T25, T26)) {
        (self.0, self.1, self.2, self.3, self.4, self.5, self.6, self.7, self.8, self.9, self.10, self.11, self.12, self.13, self.14, self.15, self.16, self.17, self.18, other.0, other.1, other.2, other.3, other.4, other.5, other.6)
    }

    proof fn lemma_join_arity(self, other: (T20, T21, T22, T23, T24, T25, T26)) {
    }
}

impl<T1, T2, T3, T4, T5, T6, T7, T8, T9, T10, T11, T12, T13, T14, T15, T16, T17, T18, T19, T20, T21, T22, T23, T24, T25, T26> JoinableTuple<(T21, T22, T23, T24, T25, T26)> for (T1, T2, T3, T4, T5, T6, T7, T8, T9, T10, T11, T12, T13, T14, T15, T16, T17, T18, T19, T20) {
    type Join = (T1, T2, T3, T4, T5, T6, T7, T8, T9, T10, T11, T12, T13, T14, T15, T16, T17, T18, T19, T20, T21, T22, T23, T24, T25, T26);

    open spec fn spec_join(self, other: (T21, T22, T23, T24, T25, T26)) -> (T1, T2, T3, T4, T5, T6, T7, T8, T9, T10, T11, T12, T13, T14, T15, T16, T17, T18, T19, T20, T21, T22, T23, T24, T25, T26) {
        (self.0, self.1, self.2, self.3, self.4, self.5, self.6, self.7, self.8, self.9, self.10, self.11, self.12, self.13, self.14, self.15, self.16, self.17, self.18, self.19, other.0, other.1, other.2, other.3, other.4, other.5)
    }

    fn join(self, other: (T21, T22, T23, T24, T25, T26)) -> (r: (T1, T2, T3, T4, T5, T6, T7, T8, T9, T10, T11, T12, T13, T14, T15, T16, T17, T18, T19, T20, T21, T22, T23, T24, T25, T26)) {
        (self.0, self.1, self.2, self.3, self.4, self.5, self.6, self.7, self.8, self.9, self.10, self.11, self.12, self.13, self.14, self.15, self.16, self.17, self.18, self.19, other.0, other.1, other.2, other.3, other.4, other.5)
    }

    proof fn lemma_join_arity(self, other: (T21, T22, T23, T24, T25, T26)) {
    }
}

impl<T1, T2, T3, T4, T5, T6, T7, T8, T9, T10, T11, T12, T13, T14, T15, T16, T17, T18, T19, T20, T21, T22, T23, T24, T25, T26> JoinableTuple<(T22, T23, T24, T25, T26)> for (T1, T2, T3, T4, T5, T6, T7, T8, T9, T10, T11, T12, T13, T14, T15, T16, T17, T18, T19, T20, T21) {
    type Join = (T1, T2, T3, T4, T5, T6, T7, T8, T9, T10, T11, T12, T13, T14, T15, T16, T17, T18, T19, T20, T21, T22, T23, T24, T25, T26);

    open spec fn spec_join(self, other: (T22, T23, T24, T25, T26)) -> (T1, T2, T3, T4, T5, T6, T7, T8, T9, T10, T11, T12, T13, T14, T15, T16, T17, T18, T19, T20, T21, T22, T23, T24, T25, T26) {
        (self.0, self.1, self.2, self.3, self.4, self.5, self.6, self.7, self.8, self.9, self.10, self.11, self.12, self.13, self.14, self.15, self.16, self.17, self.18, self.19, self.20, other.0, other.1, other.2, other.3, other.4)
    }

    fn join(self, other: (T22, T23, T24, T25, T26)) -> (r: (T1, T2, T3, T4, T5, T6, T7, T8, T9, T10, T11, T12, T13, T14, T15, T16, T17, T18, T19, T20, T21, T22, T23, T24, T25, T26)) {
        (self.0, self.1, self.2, self.3, self.4, self.5, self.6, self.7, self.8, self.9, self.10, self.11, self.12, self.13, self.14, self.15, self.16, self.17, self.18, self.19, self.20, other.0, other.1, other.2, other.3, other.4)
    }

    proof fn lemma_join_arity(self, other: (T22, T23, T24, T25, T26)) {
    }
}

impl<T1, T2, T3, T4, T5, T6, T7, T8, T9, T10, T11, T12, T13, T14, T15, T16, T17, T18, T19, T20, T21, T22, T23, T24, T25, T26> JoinableTuple<(T23, T24, T25, T26)> for (T1, T2, T3, T4, T5, T6, T7, T8, T9, T10, T11, T12, T13, T14, T15, T16, T17, T18, T19, T20, T21, T22) {
    type Join = (T1, T2, T3, T4, T5, T6, T7, T8, T9, T10, T11, T12, T13, T14, T15, T16, T17, T18, T19, T20, T21, T22, T23, T24, T25, T26);

    open spec fn spec_join(self, other: (T23, T24, T25, T26)) -> (T1, T2, T3, T4, T5, T6, T7, T8, T9, T10, T11, T12, T13, T14, T15, T16, T17, T18, T19, T20, T21, T22, T23, T24, T25, T26) {
        (self.0, self.1, self.2, self.3, self.4, self.5, self.6, self.7, self.8, self.9, self.10, self.11, self.12, self.13, self.14, self.15, self.16, self.17, self.18, self.19, self.20, self.21, other.0, other.1, other.2, other.3)
    }

    fn join(self, other: (T23, T24, T25, T26)) -> (r: (T1, T2, T3, T4, T5, T6, T7, T8, T9, T10, T11, T12, T13, T14, T15, T16, T17, T18, T19, T20, T21, T22, T23, T24, T25, T26)) {
        (self.0, self.1, self.2, self.3, self.4, self.5, self.6, self.7, self.8, self.9, self.10, self.11, self.12, self.13, self.14, self.15, self.16, self.17, self.18, self.19, self.20, self.21, other.0, other.1, other.2, other.3)
    }

    proof fn lemma_join_arity(self, other: (T23, T24, T25, T26)) {
    }
}

impl<T1, T2, T3, T4, T5, T6, T7, T8, T9, T10, T11, T12, T13, T14, T15, T16, T17, T18, T19, T20, T21, T22, T23, T24, T25, T26> JoinableTuple<(T24, T25, T26)> for (T1, T2, T3, T4, T5, T6, T7, T8, T9, T10, T11, T12, T13, T14, T15, T16, T17, T18, T19, T20, T21, T22, T23) {
    type Join = (T1, T2, T3, T4, T5, T6, T7, T8, T9, T10, T11, T12, T13, T14, T15, T16, T17, T18, T19, T20, T21, T22, T23, T24, T25, T26);

    open spec fn spec_join(self, other: (T24, T25, T26)) -> (T1, T2, T3, T4, T5, T6, T7, T8, T9, T10, T11, T12, T13, T14, T15, T16, T17, T18, T19, T20, T21, T22, T23, T24, T25, T26) {
        (self.0, self.1, self.2, self.3, self.4, self.5, self.6, self.7, self.8, self.9, self.10, self.11, self.12, self.13, self.14, self.15, self.16, self.17, self.18, self.19, self.20, self.21, self.22, other.0, other.1, other.2)
    }

    fn join(self, other: (T24, T25, T26)) -> (r: (T1, T2, T3, T4, T5, T6, T7, T8, T9, T10, T11, T12, T13, T14, T15, T16, T17, T18, T19, T20, T21, T22, T23, T24, T25, T26)) {
        (self.0, self.1, self.2, self.3, self.4, self.5, self.6, self.7, self.8, self.9, self.10, self.11, self.12, self.13, self.14, self.15, self.16, self.17, self.18, self.19, self.20, self.21, self.22, other.0, other.1, other.2)
    }

    proof fn lemma_join_arity(self, other: (T24, T25, T26)) {
    }
}

impl<T1, T2, T3, T4, T5, T6, T7, T8, T9, T10, T11, T12, T13, T14, T15, T16, T17, T18, T19, T20, T21, T22, T23, T24, T25, T26> JoinableTuple<(T25, T26)> for (T1, T2, T3, T4, T5, T6, T7, T8, T9, T10, T11, T12, T13, T14, T15, T16, T17, T18, T19, T20, T21, T22, T23, T24) {
    type Join = (T1, T2, T3, T4, T5, T6, T7, T8, T9, T10, T11, T12, T13, T14, T15, T16, T17, T18, T19, T20, T21, T22, T23, T24, T25, T26);

    open spec fn spec_join(self, other: (T25, T26)) -> (T1, T2, T3, T4, T5, T6, T7, T8, T9, T10, T11, T12, T13, T14, T15, T16, T17, T18, T19, T20, T21, T22, T23, T24, T25, T26) {
        (self.0, self.1, self.2, self.3, self.4, self.5, self.6, self.7, self.8, self.9, self.10, self.11, self.12, self.13, self.14, self.15, self.16, self.17, self.18, self.19, self.20, self.21, self.22, self.23, other.0, other.1)
    }

    fn join(self, other: (T25, T26)) -> (r: (T1, T2, T3, T4, T5, T6, T7, T8, T9, T10, T11, T12, T13, T14, T15, T16, T17, T18, T19, T20, T21, T22, T23, T24, T25, T26)) {
        (self.0, self.1, self.2, self.3, self.4, self.5, self.6, self.7, self.8, self.9, self.10, self.11, self.12, self.13, self.14, self.15, self.16, self.17, self.18, self.19, self.20, self.21, self.22, self.23, other.0, other.1)
    }

    proof fn lemma_join_arity(self, other: (T25, T26)) {
    }
}

impl<T1, T2, T3, T4, T5, T6, T7, T8, T9, T10, T11, T12, T13, T14, T15, T16, T17, T18, T19, T20, T21, T22, T23, T24, T25, T26> JoinableTuple<(T26,)> for (T1, T2, T3, T4, T5, T6, T7, T8, T9, T10, T11, T12, T13, T14, T15, T16, T17, T18, T19, T20, T21, T22, T23, T24, T25) {
    type Join = (T1, T2, T3, T4, T5, T6, T7, T8, T9, T10, T11, T12, T13, T14, T15, T16, T17, T18, T19, T20, T21, T22, T23, T24, T25, T26);

    open spec fn spec_join(self, other: (T26,)) -> (T1, T2, T3, T4, T5, T6, T7, T8, T9, T10, T11, T12, T13, T14, T15, T16, T17, T18, T19, T20, T21, T22, T23, T24, T25, T26) {
        (self.0, self.1, self.2, self.3, self.4, self.5, self.6, self.7, self.8, self.9, self.10, self.11, self.12, self.13, self.14, self.15, self.16, self.17, self.18, self.19, self.20, self.21, self.22, self.23, self.24, other.0)
    }

    fn join(self, other: (T26,)) -> (r: (T1, T2, T3, T4, T5, T6, T7, T8, T9, T10, T11, T12, T13, T14, T15, T16, T17, T18, T19, T20, T21, T22, T23, T24, T25, T26)) {
        (self.0, self.1, self.2, self.3, self.4, self.5, self.6, self.7, self.8, self.9, self.10, self.11, self.12, self.13, self.14, self.15, self.16, self.17, self.18, self.19, self.20, self.21, self.22, self.23, self.24, other.0)
    }

    proof fn lemma_join_arity(self, other: (T26,)) {
    }
}

impl<T1, T2, T3, T4, T5, T6, T7, T8, T9, T10, T11, T12, T13, T14, T15, T16, T17, T18, T19, T20, T21, T22, T23, T24, T25, T26> JoinableTuple<()> for (T1, T2, T3, T4, T5, T6, T7, T8, T9, T10, T11, T12, T13, T14, T15, T16, T17, T18, T19, T20, T21, T22, T23, T24, T25, T26) {
    type Join = (T1, T2, T3, T4, T5, T6, T7, T8, T9, T10, T11, T12, T13, T14, T15, T16, T17, T18, T19, T20, T21, T22, T23, T24, T25, T26);

    open spec fn spec_join(self, other: ()) -> (T1, T2, T3, T4, T5, T6, T7, T8, T9, T10, T11, T12, T13, T14, T15, T16, T17, T18, T19, T20, T21, T22, T23, T24, T25, T26) {
        (self.0, self.1, self.2, self.3, self.4, self.5, self.6, self.7, self.8, self.9, self.10, self.11, self.12, self.13, self.14, self.15, self.16, self.17, self.18, self.19, self.20, self.21, self.22, self.23, self.24, self.25)
    }

    fn join(self, other: ()) -> (r: (T1, T2, T3, T4, T5, T6, T7, T8, T9, T10, T11, T12, T13, T14, T15, T16, T17, T18, T19, T20, T21, T22, T23, T24, T25, T26)) {
        (self.0, self.1, self.2, self.3, self.4, self.5, self.6, self.7, self.8, self.9, self.10, self.11, self.12, self.13, self.14, self.15, self.16, self.17, self.18, self.19, self.20, self.21, self.22, self.23, self.24, self.25)
    }

    proof fn lemma_join_arity(self, other: ()) {
    }
}

impl<T1, T2, T3, T4, T5, T6, T7, T8, T9, T10, T11, T12, T13, T14, T15, T16, T17, T18, T19, T20, T21, T22, T23, T24, T25, T26, T27> Sealed for (T1, T2, T3, T4, T5, T6, T7, T8, T9, T10, T11, T12, T13, T14, T15, T16, T17, T18, T19, T20, T21, T22, T23, T24, T25, T26, T27) {}

impl<T1, T2, T3, T4, T5, T6, T7, T8, T9, T10, T11, T12, T13, T14, T15, T16, T17, T18, T19, T20, T21, T22, T23, T24, T25, T26, T27> DynTuple for (T1, T2, T3, T4, T5, T6, T7, T8, T9, T10, T11, T12, T13, T14, T15, T16, T17, T18, T19, T20, T21, T22, T23, T24, T25, T26, T27) {
    open spec fn spec_arity(&self) -> nat {
        27
    }

    fn arity(&self) -> (r: usize) {
        27
    }
}

impl<T1, T2, T3, T4, T5, T6, T7, T8, T9, T10, T11, T12, T13, T14, T15, T16, T17, T18, T19, T20, T21, T22, T23, T24, T25, T26, T27> Tuple for (T1, T2, T3, T4, T5, T6, T7, T8, T9, T10, T11, T12, T13, T14, T15, T16, T17, T18, T19, T20, T21, T22, T23, T24, T25, T26, T27) {
    const ARITY: usize = 27;

    open spec fn spec_type_arity() -> nat {
        27
    }

    proof fn lemma_arity(&self) {
    }

    proof fn lemma_type_arity() {
    }
}

impl<T1, T2, T3, T4, T5, T6, T7, T8, T9, T10, T11, T12, T13, T14, T15, T16, T17, T18, T19, T20, T21, T22, T23, T24, T25, T26, T27, T> GrowableTuple<T> for (T1, T2, T3, T4, T5, T6, T7, T8, T9, T10, T11, T12, T13, T14, T15, T16, T17, T18, T19, T20, T21, T22, T23, T24, T25, T26, T27) {
    type Append = (T1, T2, T3, T4, T5, T6, T7, T8, T9, T10, T11, T12, T13, T14, T15, T16, T17, T18, T19, T20, T21, T22, T23, T24, T25, T26, T27, T);

    type Prepend = (T, T1, T2, T3, T4, T5, T6, T7, T8, T9, T10, T11, T12, T13, T14, T15, T16, T17, T18, T19, T20, T21, T22, T23, T24, T25, T26, T27);

    open spec fn spec_append(self, value: T) -> (T1, T2, T3, T4, T5, T6, T7, T8, T9, T10, T11, T12, T13, T14, T15, T16, T17, T18, T19, T20, T21, T22, T23, T24, T25, T26, T27, T) {
        (self.0, self.1, self.2, self.3, self.4, self.5, self.6, self.7, self.8, self.9, self.10, self.11, self.12, self.13, self.14, self.15, self.16, self.17, self.18, self.19, self.20, self.21, self.22, self.23, self.24, self.25, self.26, value)
    }

    open spec fn spec_prepend(self, value: T) -> (T, T1, T2, T3, T4, T5, T6, T7, T8, T9, T10, T11, T12, T13, T14, T15, T16, T17, T18, T19, T20, T21, T22, T23, T24, T25, T26, T27) {
        (value, self.0, self.1, self.2, self.3, self.4, self.5, self.6, self.7, self.8, self.9, self.10, self.11, self.12, self.13, self.14, self.15, self.16, self.17, self.18, self.19, self.20, self.21, self.22, self.23, self.24, self.25, self.26)
    }

    fn append(self, value: T) -> (r: (T1, T2, T3, T4, T5, T6, T7, T8, T9, T10, T11, T12, T13, T14, T15, T16, T17, T18, T19, T20, T21, T22, T23, T24, T25, T26, T27, T)) {
        (self.0, self.1, self.2, self.3, self.4, self.5, self.6, self.7, self.8, self.9, self.10, self.11, self.12, self.13, self.14, self.15, self.16, self.17, self.18, self.19, self.20, self.21, self.22, self.23, self.24, self.25, self.26, value)
    }

    fn prepend(self, value: T) -> (r: (T, T1, T2, T3, T4, T5, T6, T7, T8, T9, T10, T11, T12, T13, T14, T15, T16, T17, T18, T19, T20, T21, T22, T23, T24, T25, T26, T27)) {
        (value, self.0, self.1, self.2, self.3, self.4, self.5, self.6, self.7, self.8, self.9, self.10, self.11, self.12, self.13, self.14, self.15, self.16, self.17, self.18, self.19, self.20, self.21, self.22, self.23, self.24, self.25, self.26)
    }

    proof fn lemma_grow_arity(self, value: T) {
    }
}

impl<T1, T2, T3, T4, T5, T6, T7, T8, T9, T10, T11, T12, T13, T14, T15, T16, T17, T18, T19, T20, T21, T22, T23, T24, T25, T26, T27> NonEmptyTuple for (T1, T2, T3, T4, T5, T6, T7, T8, T9, T10, T11, T12, T13, T14, T15, T16, T17, T18, T19, T20, T21, T22, T23, T24, T25, T26, T27) {
    type Head = T1;

    type Tail = T27;

    type TruncateHead = (T2, T3, T4, T5, T6, T7, T8, T9, T10, T11, T12, T13, T14, T15, T16, T17, T18, T19, T20, T21, T22, T23, T24, T25, T26, T27);

    type TruncateTail = (T1, T2, T3, T4, T5, T6, T7, T8, T9, T10, T11, T12, T13, T14, T15, T16, T17, T18, T19, T20, T21, T22, T23, T24, T25, T26);

    open spec fn spec_head(&self) -> T1 {
        self.0
    }

    open spec fn spec_tail(&self) -> T27 {
        self.26
    }

    open spec fn spec_with_head(self, value: T1) -> (T1, T2, T3, T4, T5, T6, T7, T8, T9, T10, T11, T12, T13, T14, T15, T16, T17, T18, T19, T20, T21, T22, T23, T24, T25, T26, T27) {
        (value, self.1, self.2, self.3, self.4, self.5, self.6, self.7, self.8, self.9, self.10, self.11, self.12, self.13, self.14, self.15, self.16, self.17, self.18, self.19, self.20, self.21, self.22, self.23, self.24, self.25, self.26)
    }

    open spec fn spec_with_tail(self, value: T27) -> (T1, T2, T3, T4, T5, T6, T7, T8, T9, T10, T11, T12, T13, T14, T15, T16, T17, T18, T19, T20, T21, T22, T23, T24, T25, T26, T27) {
        (self.0, self.1, self.2, self.3, self.4, self.5, self.6, self.7, self.8, self.9, self.10, self.11, self.12, self.13, self.14, self.15, self.16, self.17, self.18, self.19, self.20, self.21, self.22, self.23, self.24, self.25, value)
    }

    open spec fn spec_truncate_head(self) -> (T1, (T2, T3, T4, T5, T6, T7, T8, T9, T10, T11, T12, T13, T14, T15, T16, T17, T18, T19, T20, T21, T22, T23, T24, T25, T26, T27)) {
        (self.0, (self.1, self.2, self.3, self.4, self.5, self.6, self.7, self.8, self.9, self.10, self.11, self.12, self.13, self.14, self.15, self.16, self.17, self.18, self.19, self.20, self.21, self.22, self.23, self.24, self.25, self.26))
    }

    open spec fn spec_truncate_tail(self) -> ((T1, T2, T3, T4, T5, T6, T7, T8, T9, T10, T11, T12, T13, T14, T15, T16, T17, T18, T19, T20, T21, T22, T23, T24, T25, T26), T27) {
        ((self.0, self.1, self.2, self.3, self.4, self.5, self.6, self.7, self.8, self.9, self.10, self.11, self.12, self.13, self.14, self.15, self.16, self.17, self.18, self.19, self.20, self.21, self.22, self.23, self.24, self.25), self.26)
    }

    fn head(&self) -> (r: &T1) {
        &self.0
    }

    fn head_mut(&mut self) -> (r: &mut T1) {
        &mut self.0
    }

    fn tail(&self) -> (r: &T27) {
        &self.26
    }

    fn tail_mut(&mut self) -> (r: &mut T27) {
        &mut self.26
    }

    fn truncate_head(self) -> (r: (T1, (T2, T3, T4, T5, T6, T7, T8, T9, T10, T11, T12, T13, T14, T15, T16, T17, T18, T19, T20, T21, T22, T23, T24, T25, T26, T27))) {
        (self.0, (self.1, self.2, self.3, self.4, self.5, self.6, self.7, self.8, self.9, self.10, self.11, self.12, self.13, self.14, self.15, self.16, self.17, self.18, self.19, self.20, self.21, self.22, self.23, self.24, self.25, self.26))
    }

    fn truncate_tail(self) -> (r: ((T1, T2, T3, T4, T5, T6, T7, T8, T9, T10, T11, T12, T13, T14, T15, T16, T17, T18, T19, T20, T21, T22, T23, T24, T25, T26), T27)) {
        ((self.0, self.1, self.2, self.3, self.4, self.5, self.6, self.7, self.8, self.9, self.10, self.11, self.12, self.13, self.14, self.15, self.16, self.17, self.18, self.19, self.20, self.21, self.22, self.23, self.24, self.25), self.26)
    }

    proof fn lemma_truncate_head(self) {
    }

    proof fn lemma_truncate_tail(self) {
    }
}

impl<T1, T2, T3, T4, T5, T6, T7, T8, T9, T10, T11, T12, T13, T14, T15, T16, T17, T18, T19, T20, T21, T22, T23, T24, T25, T26, T27> NonUnaryTuple for (T1, T2, T3, T4, T5, T6, T7, T8, T9, T10, T11, T12, T13, T14, T15, T16, T17, T18, T19, T20, T21, T22, T23, T24, T25, T26, T27) {
    type TruncateHeadTail = (T2, T3, T4, T5, T6, T7, T8, T9, T10, T11, T12, T13, T14, T15, T16, T17, T18, T19, T20, T21, T22, T23, T24, T25, T26);

    open spec fn spec_truncate_head_tail(self) -> (T1, (T2, T3, T4, T5, T6, T7, T8, T9, T10, T11, T12, T13, T14, T15, T16, T17, T18, T19, T20, T21, T22, T23, T24, T25, T26), T27) {
        (self.0, (self.1, self.2, self.3, self.4, self.5, self.6, self.7, self.8, self.9, self.10, self.11, self.12, self.13, self.14, self.15, self.16, self.17, self.18, self.19, self.20, self.21, self.22, self.23, self.24, self.25), self.26)
    }

    fn head_tail(&self) -> (r: (&T1, &T27)) {
        (&self.0, &self.26)
    }

    fn head_tail_mut(&mut self) -> (r: (&mut T1, &mut T27)) {
        (&mut self.0, &mut self.26)
    }

    fn truncate_head_tail(self) -> (r: (T1, (T2, T3, T4, T5, T6, T7, T8, T9, T10, T11, T12, T13, T14, T15, T16, T17, T18, T19, T20, T21, T22, T23, T24, T25, T26), T27)) {
        (self.0, (self.1, self.2, self.3, self.4, self.5, self.6, self.7, self.8, self.9, self.10, self.11, self.12, self.13, self.14, self.15, self.16, self.17, self.18, self.19, self.20, self.21, self.22, self.23, self.24, self.25), self.26)
    }

    proof fn lemma_truncate_head_tail(self) {
    }
}

impl<T1, T2, T3, T4, T5, T6, T7, T8, T9, T10, T11, T12, T13, T14, T15, T16, T17, T18, T19, T20, T21, T22, T23, T24, T25, T26, T27> IndexableTuple<0> for (T1, T2, T3, T4, T5, T6, T7, T8, T9, T10, T11, T12, T13, T14, T15, T16, T17, T18, T19, T20, T21, T22, T23, T24, T25, T26, T27) {
    type Value = T1;

    open spec fn spec_index(&self) -> T1 {
        self.0
    }

    open spec fn spec_with_index(self, value: T1) -> (T1, T2, T3, T4, T5, T6, T7, T8, T9, T10, T11, T12, T13, T14, T15, T16, T17, T18, T19, T20, T21, T22, T23, T24, T25, T26, T27) {
        (value, self.1, self.2, self.3, self.4, self.5, self.6, self.7, self.8, self.9, self.10, self.11, self.12, self.13, self.14, self.15, self.16, self.17, self.18, self.19, self.20, self.21, self.22, self.23, self.24, self.25, self.26)
    }

    fn index_ref(&self) -> (r: &T1) {
        &self.0
    }

    fn index_mut(&mut self) -> (r: &mut T1) {
        &mut self.0
    }

    fn into_index(self) -> (r: T1) {
        self.0
    }

    proof fn lemma_index_in_range(&self) {
    }
}

impl<T1, T2, T3, T4, T5, T6, T7, T8, T9, T10, T11, T12, T13, T14, T15, T16, T17, T18, T19, T20, T21, T22, T23, T24, T25, T26, T27> IndexableTuple<1> for (T1, T2, T3, T4, T5, T6, T7, T8, T9, T10, T11, T12, T13, T14, T15, T16, T17, T18, T19, T20, T21, T22, T23, T24, T25, T26, T27) {
    type Value = T2;

    open spec fn spec_index(&self) -> T2 {
        self.1
    }

    open spec fn spec_with_index(self, value: T2) -> (T1, T2, T3, T4, T5, T6, T7, T8, T9, T10, T11, T12, T13, T14, T15, T16, T17, T18, T19, T20, T21, T22, T23, T24, T25, T26, T27) {
        (self.0, value, self.2, self.3, self.4, self.5, self.6, self.7, self.8, self.9, self.10, self.11, self.12, self.13, self.14, self.15, self.16, self.17, self.18, self.19, self.20, self.21, self.22, self.23, self.24, self.25, self.26)
    }

    fn index_ref(&self) -> (r: &T2) {
        &self.1
    }

    fn index_mut(&mut self) -> (r: &mut T2) {
        &mut self.1
    }

    fn into_index(self) -> (r: T2) {
        self.1
    }

    proof fn lemma_index_in_range(&self) {
    }
}

impl<T1, T2, T3, T4, T5, T6, T7, T8, T9, T10, T11, T12, T13, T14, T15, T16, T17, T18, T19, T20, T21, T22, T23, T24, T25, T26, T27> IndexableTuple<2> for (T1, T2, T3, T4, T5, T6, T7, T8, T9, T10, T11, T12, T13, T14, T15, T16, T17, T18, T19, T20, T21, T22, T23, T24, T25, T26, T27) {
    type Value = T3;

    open spec fn spec_index(&self) -> T3 {
        self.2
    }

    open spec fn spec_with_index(self, value: T3) -> (T1, T2, T3, T4, T5, T6, T7, T8, T9, T10, T11, T12, T13, T14, T15, T16, T17, T18, T19, T20, T21, T22, T23, T24, T25, T26, T27) {
        (self.0, self.1, value, self.3, self.4, self.5, self.6, self.7, self.8, self.9, self.10, self.11, self.12, self.13, self.14, self.15, self.16, self.17, self.18, self.19, self.20, self.21, self.22, self.23, self.24, self.25, self.26)
    }

    fn index_ref(&self) -> (r: &T3) {
        &self.2
    }

    fn index_mut(&mut self) -> (r: &mut T3) {
        &mut self.2
    }

    fn into_index(self) -> (r: T3) {
        self.2
    }

    proof fn lemma_index_in_range(&self) {
    }
}

impl<T1, T2, T3, T4, T5, T6, T7, T8, T9, T10, T11, T12, T13, T14, T15, T16, T17, T18, T19, T20, T21, T22, T23, T24, T25, T26, T27> IndexableTuple<3> for (T1, T2, T3, T4, T5, T6, T7, T8, T9, T10, T11, T12, T13, T14, T15, T16, T17, T18, T19, T20, T21, T22, T23, T24, T25, T26, T27) {
    type Value = T4;

    open spec fn spec_index(&self) -> T4 {
        self.3
    }

    open spec fn spec_with_index(self, value: T4) -> (T1, T2, T3, T4, T5, T6, T7, T8, T9, T10, T11, T12, T13, T14, T15, T16, T17, T18, T19, T20, T21, T22, T23, T24, T25, T26, T27) {
        (self.0, self.1, self.2, value, self.4, self.5, self.6, self.7, self.8, self.9, self.10, self.11, self.12, self.13, self.14, self.15, self.16, self.17, self.18, self.19, self.20, self.21, self.22, self.23, self.24, self.25, self.26)
    }

    fn index_ref(&self) -> (r: &T4) {
        &self.3
    }

    fn index_mut(&mut self) -> (r: &mut T4) {
        &mut self.3
    }

    fn into_index(self) -> (r: T4) {
        self.3
    }

    proof fn lemma_index_in_range(&self) {
    }
}

impl<T1, T2, T3, T4, T5, T6, T7, T8, T9, T10, T11, T12, T13, T14, T15, T16, T17, T18, T19, T20, T21, T22, T23, T24, T25, T26, T27> IndexableTuple<4> for (T1, T2, T3, T4, T5, T6, T7, T8, T9, T10, T11, T12, T13, T14, T15, T16, T17, T18, T19, T20, T21, T22, T23, T24, T25, T26, T27) {
    type Value = T5;

    open spec fn spec_index(&self) -> T5 {
        self.4
    }

    open spec fn spec_with_index(self, value: T5) -> (T1, T2, T3, T4, T5, T6, T7, T8, T9, T10, T11, T12, T13, T14, T15, T16, T17, T18, T19, T20, T21, T22, T23, T24, T25, T26, T27) {
        (self.0, self.1, self.2, self.3, value, self.5, self.6, self.7, self.8, self.9, self.10, self.11, self.12, self.13, self.14, self.15, self.16, self.17, self.18, self.19, self.20, self.21, self.22, self.23, self.24, self.25, self.26)
    }

    fn index_ref(&self) -> (r: &T5) {
        &self.4
    }

    fn index_mut(&mut self) -> (r: &mut T5) {
        &mut self.4
    }

    fn into_index(self) -> (r: T5) {
        self.4
    }

    proof fn lemma_index_in_range(&self) {
    }
}

impl<T1, T2, T3, T4, T5, T6, T7, T8, T9, T10, T11, T12, T13, T14, T15, T16, T17, T18, T19, T20, T21, T22, T23, T24, T25, T26, T27> IndexableTuple<5> for (T1, T2, T3, T4, T5, T6, T7, T8, T9, T10, T11, T12, T13, T14, T15, T16, T17, T18, T19, T20, T21, T22, T23, T24, T25, T26, T27) {
    type Value = T6;

    open spec fn spec_index(&self) -> T6 {
        self.5
    }

    open spec fn spec_with_index(self, value: T6) -> (T1, T2, T3, T4, T5, T6, T7, T8, T9, T10, T11, T12, T13, T14, T15, T16, T17, T18, T19, T20, T21, T22, T23, T24, T25, T26, T27) {
        (self.0, self.1, self.2, self.3, self.4, value, self.6, self.7, self.8, self.9, self.10, self.11, self.12, self.13, self.14, self.15, self.16, self.17, self.18, self.19, self.20, self.21, self.22, self.23, self.24, self.25, self.26)
    }

    fn index_ref(&self) -> (r: &T6) {
        &self.5
    }

    fn index_mut(&mut self) -> (r: &mut T6) {
        &mut self.5
    }

    fn into_index(self) -> (r: T6) {
        self.5
    }

    proof fn lemma_index_in_range(&self) {
    }
}

impl<T1, T2, T3, T4, T5, T6, T7, T8, T9, T10, T11, T12, T13, T14, T15, T16, T17, T18, T19, T20, T21, T22, T23, T24, T25, T26, T27> IndexableTuple<6> for (T1, T2, T3, T4, T5, T6, T7, T8, T9, T10, T11, T12, T13, T14, T15, T16, T17, T18, T19, T20, T21, T22, T23, T24, T25, T26, T27) {
    type Value = T7;

    open spec fn spec_index(&self) -> T7 {
        self.6
    }

    open spec fn spec_with_index(self, value: T7) -> (T1, T2, T3, T4, T5, T6, T7, T8, T9, T10, T11, T12, T13, T14, T15, T16, T17, T18, T19, T20, T21, T22, T23, T24, T25, T26, T27) {
        (self.0, self.1, self.2, self.3, self.4, self.5, value, self.7, self.8, self.9, self.10, self.11, self.12, self.13, self.14, self.15, self.16, self.17, self.18, self.19, self.20, self.21, self.22, self.23, self.24, self.25, self.26)
    }

    fn index_ref(&self) -> (r: &T7) {
        &self.6
    }

    fn index_mut(&mut self) -> (r: &mut T7) {
        &mut self.6
    }

    fn into_index(self) -> (r: T7) {
        self.6
    }

    proof fn lemma_index_in_range(&self) {
    }
}

impl<T1, T2, T3, T4, T5, T6, T7, T8, T9, T10, T11, T12, T13, T14, T15, T16, T17, T18, T19, T20, T21, T22, T23, T24, T25, T26, T27> IndexableTuple<7> for (T1, T2, T3, T4, T5, T6, T7, T8, T9, T10, T11, T12, T13, T14, T15, T16, T17, T18, T19, T20, T21, T22, T23, T24, T25, T26, T27) {
    type Value = T8;

    open spec fn spec_index(&self) -> T8 {
        self.7
    }

    open spec fn spec_with_index(self, value: T8) -> (T1, T2, T3, T4, T5, T6, T7, T8, T9, T10, T11, T12, T13, T14, T15, T16, T17, T18, T19, T20, T21, T22, T23, T24, T25, T26, T27) {
        (self.0, self.1, self.2, self.3, self.4, self.5, self.6, value, self.8, self.9, self.10, self.11, self.12, self.13, self.14, self.15, self.16, self.17, self.18, self.19, self.20, self.21, self.22, self.23, self.24, self.25, self.26)
    }

    fn index_ref(&self) -> (r: &T8) {
        &self.7
    }

    fn index_mut(&mut self) -> (r: &mut T8) {
        &mut self.7
    }

    fn into_index(self) -> (r: T8) {
        self.7
    }

    proof fn lemma_index_in_range(&self) {
    }
}

impl<T1, T2, T3, T4, T5, T6, T7, T8, T9, T10, T11, T12, T13, T14, T15, T16, T17, T18, T19, T20, T21, T22, T23, T24, T25, T26, T27> IndexableTuple<8> for (T1, T2, T3, T4, T5, T6, T7, T8, T9, T10, T11, T12, T13, T14, T15, T16, T17, T18, T19, T20, T21, T22, T23, T24, T25, T26, T27) {
    type Value = T9;

    open spec fn spec_index(&self) -> T9 {
        self.8
    }

    open spec fn spec_with_index(self, value: T9) -> (T1, T2, T3, T4, T5, T6, T7, T8, T9, T10, T11, T12, T13, T14, T15, T16, T17, T18, T19, T20, T21, T22, T23, T24, T25, T26, T27) {
        (self.0, self.1, self.2, self.3, self.4, self.5, self.6, self.7, value, self.9, self.10, self.11, self.12, self.13, self.14, self.15, self.16, self.17, self.18, self.19, self.20, self.21, self.22, self.23, self.24, self.25, self.26)
    }

    fn index_ref(&self) -> (r: &T9) {
        &self.8
    }

    fn index_mut(&mut self) -> (r: &mut T9) {
        &mut self.8
    }

    fn into_index(self) -> (r: T9) {
        self.8
    }

    proof fn lemma_index_in_range(&self) {
    }
}

impl<T1, T2, T3, T4, T5, T6, T7, T8, T9, T10, T11, T12, T13, T14, T15, T16, T17, T18, T19, T20, T21, T22, T23, T24, T25, T26, T27> IndexableTuple<9> for (T1, T2, T3, T4, T5, T6, T7, T8, T9, T10, T11, T12, T13, T14, T15, T16, T17, T18, T19, T20, T21, T22, T23, T24, T25, T26, T27) {
    type Value = T10;

    open spec fn spec_index(&self) -> T10 {
        self.9
    }

    open spec fn spec_with_index(self, value: T10) -> (T1, T2, T3, T4, T5, T6, T7, T8, T9, T10, T11, T12, T13, T14, T15, T16, T17, T18, T19, T20, T21, T22, T23, T24, T25, T26, T27) {
        (self.0, self.1, self.2, self.3, self.4, self.5, self.6, self.7, self.8, value, self.10, self.11, self.12, self.13, self.14, self.15, self.16, self.17, self.18, self.19, self.20, self.21, self.22, self.23, self.24, self.25, self.26)
    }

    fn index_ref(&self) -> (r: &T10) {
        &self.9
    }

    fn index_mut(&mut self) -> (r: &mut T10) {
        &mut self.9
    }

    fn into_index(self) -> (r: T10) {
        self.9
    }

    proof fn lemma_index_in_range(&self) {
    }
}

impl<T1, T2, T3, T4, T5, T6, T7, T8, T9, T10, T11, T12, T13, T14, T15, T16, T17, T18, T19, T20, T21, T22, T23, T24, T25, T26, T27> IndexableTuple<10> for (T1, T2, T3, T4, T5, T6, T7, T8, T9, T10, T11, T12, T13, T14, T15, T16, T17, T18, T19, T20, T21, T22, T23, T24, T25, T26, T27) {
    type Value = T11;

    open spec fn spec_index(&self) -> T11 {
        self.10
    }

    open spec fn spec_with_index(self, value: T11) -> (T1, T2, T3, T4, T5, T6, T7, T8, T9, T10, T11, T12, T13, T14, T15, T16, T17, T18, T19, T20, T21, T22, T23, T24, T25, T26, T27) {
        (self.0, self.1, self.2, self.3, self.4, self.5, self.6, self.7, self.8, self.9, value, self.11, self.12, self.13, self.14, self.15, self.16, self.17, self.18, self.19, self.20, self.21, self.22, self.23, self.24, self.25, self.26)
    }

    fn index_ref(&self) -> (r: &T11) {
        &self.10
    }

    fn index_mut(&mut self) -> (r: &mut T11) {
        &mut self.10
    }

    fn into_index(self) -> (r: T11) {
        self.10
    }

    proof fn lemma_index_in_range(&self) {
    }
}

impl<T1, T2, T3, T4, T5, T6, T7, T8, T9, T10, T11, T12, T13, T14, T15, T16, T17, T18, T19, T20, T21, T22, T23, T24, T25, T26, T27> IndexableTuple<11> for (T1, T2, T3, T4, T5, T6, T7, T8, T9, T10, T11, T12, T13, T14, T15, T16, T17, T18, T19, T20, T21, T22, T23, T24, T25, T26, T27) {
    type Value = T12;

    open spec fn spec_index(&self) -> T12 {
        self.11
    }

    open spec fn spec_with_index(self, value: T12) -> (T1, T2, T3, T4, T5, T6, T7, T8, T9, T10, T11, T12, T13, T14, T15, T16, T17, T18, T19, T20, T21, T22, T23, T24, T25, T26, T27) {
        (self.0, self.1, self.2, self.3, self.4, self.5, self.6, self.7, self.8, self.9, self.10, value, self.12, self.13, self.14, self.15, self.16, self.17, self.18, self.19, self.20, self.21, self.22, self.23, self.24, self.25, self.26)
    }

    fn index_ref(&self) -> (r: &T12) {
        &self.11
    }

    fn index_mut(&mut self) -> (r: &mut T12) {
        &mut self.11
    }

    fn into_index(self) -> (r: T12) {
        self.11
    }

    proof fn lemma_index_in_range(&self) {
    }
}

impl<T1, T2, T3, T4, T5, T6, T7, T8, T9, T10, T11, T12, T13, T14, T15, T16, T17, T18, T19, T20, T21, T22, T23, T24, T25, T26, T27> IndexableTuple<12> for (T1, T2, T3, T4, T5, T6, T7, T8, T9, T10, T11, T12, T13, T14, T15, T16, T17, T18, T19, T20, T21, T22, T23, T24, T25, T26, T27) {
    type Value = T13;

    open spec fn spec_index(&self) -> T13 {
        self.12
    }

    open spec fn spec_with_index(self, value: T13) -> (T1, T2, T3, T4, T5, T6, T7, T8, T9, T10, T11, T12, T13, T14, T15, T16, T17, T18, T19, T20, T21, T22, T23, T24, T25, T26, T27) {
        (self.0, self.1, self.2, self.3, self.4, self.5, self.6, self.7, self.8, self.9, self.10, self.11, value, self.13, self.14, self.15, self.16, self.17, self.18, self.19, self.20, self.21, self.22, self.23, self.24, self.25, self.26)
    }

    fn index_ref(&self) -> (r: &T13) {
        &self.12
    }

    fn index_mut(&mut self) -> (r: &mut T13) {
        &mut self.12
    }

    fn into_index(self) -> (r: T13) {
        self.12
    }

    proof fn lemma_index_in_range(&self) {
    }
}

impl<T1, T2, T3, T4, T5, T6, T7, T8, T9, T10, T11, T12, T13, T14, T15, T16, T17, T18, T19, T20, T21, T22, T23, T24, T25, T26, T27> IndexableTuple<13> for (T1, T2, T3, T4, T5, T6, T7, T8, T9, T10, T11, T12, T13, T14, T15, T16, T17, T18, T19, T20, T21, T22, T23, T24, T25, T26, T27) {
    type Value = T14;

    open spec fn spec_index(&self) -> T14 {
        self.13
    }

    open spec fn spec_with_index(self, value: T14) -> (T1, T2, T3, T4, T5, T6, T7, T8, T9, T10, T11, T12, T13, T14, T15, T16, T17, T18, T19, T20, T21, T22, T23, T24, T25, T26, T27) {
        (self.0, self.1, self.2, self.3, self.4, self.5, self.6, self.7, self.8, self.9, self.10, self.11, self.12, value, self.14, self.15, self.16, self.17, self.18, self.19, self.20, self.21, self.22, self.23, self.24, self.25, self.26)
    }

    fn index_ref(&self) -> (r: &T14) {
        &self.13
    }

    fn index_mut(&mut self) -> (r: &mut T14) {
        &mut self.13
    }

    fn into_index(self) -> (r: T14) {
        self.13
    }

    proof fn lemma_index_in_range(&self) {
    }
}

impl<T1, T2, T3, T4, T5, T6, T7, T8, T9, T10, T11, T12, T13, T14, T15, T16, T17, T18, T19, T20, T21, T22, T23, T24, T25, T26, T27> IndexableTuple<14> for (T1, T2, T3, T4, T5, T6, T7, T8, T9, T10, T11, T12, T13, T14, T15, T16, T17, T18, T19, T20, T21, T22, T23, T24, T25, T26, T27) {
    type Value = T15;

    open spec fn spec_index(&self) -> T15 {
        self.14
    }

    open spec fn spec_with_index(self, value: T15) -> (T1, T2, T3, T4, T5, T6, T7, T8, T9, T10, T11, T12, T13, T14, T15, T16, T17, T18, T19, T20, T21, T22, T23, T24, T25, T26, T27) {
        (self.0, self.1, self.2, self.3, self.4, self.5, self.6, self.7, self.8, self.9, self.10, self.11, self.12, self.13, value, self.15, self.16, self.17, self.18, self.19, self.20, self.21, self.22, self.23, self.24, self.25, self.26)
    }

    fn index_ref(&self) -> (r: &T15) {
        &self.14
    }

    fn index_mut(&mut self) -> (r: &mut T15) {
        &mut self.14
    }

    fn into_index(self) -> (r: T15) {
        self.14
    }

    proof fn lemma_index_in_range(&self) {
    }
}

impl<T1, T2, T3, T4, T5, T6, T7, T8, T9, T10, T11, T12, T13, T14, T15, T16, T17, T18, T19, T20, T21, T22, T23, T24, T25, T26, T27> IndexableTuple<15> for (T1, T2, T3, T4, T5, T6, T7, T8, T9, T10, T11, T12, T13, T14, T15, T16, T17, T18, T19, T20, T21, T22, T23, T24, T25, T26, T27) {
    type Value = T16;

    open spec fn spec_index(&self) -> T16 {
        self.15
    }

    open spec fn spec_with_index(self, value: T16) -> (T1, T2, T3, T4, T5, T6, T7, T8, T9, T10, T11, T12, T13, T14, T15, T16, T17, T18, T19, T20, T21, T22, T23, T24, T25, T26, T27) {
        (self.0, self.1, self.2, self.3, self.4, self.5, self.6, self.7, self.8, self.9, self.10, self.11, self.12, self.13, self.14, value, self.16, self.17, self.18, self.19, self.20, self.21, self.22, self.23, self.24, self.25, self.26)
    }

    fn index_ref(&self) -> (r: &T16) {
        &self.15
    }

    fn index_mut(&mut self) -> (r: &mut T16) {
        &mut self.15
    }

    fn into_index(self) -> (r: T16) {
        self.15
    }

    proof fn lemma_index_in_range(&self) {
    }
}

impl<T1, T2, T3, T4, T5, T6, T7, T8, T9, T10, T11, T12, T13, T14, T15, T16, T17, T18, T19, T20, T21, T22, T23, T24, T25, T26, T27> IndexableTuple<16> for (T1, T2, T3, T4, T5, T6, T7, T8, T9, T10, T11, T12, T13, T14, T15, T16, T17, T18, T19, T20, T21, T22, T23, T24, T25, T26, T27) {
    type Value = T17;

    open spec fn spec_index(&self) -> T17 {
        self.16
    }

    open spec fn spec_with_index(self, value: T17) -> (T1, T2, T3, T4, T5, T6, T7, T8, T9, T10, T11, T12, T13, T14, T15, T16, T17, T18, T19, T20, T21, T22, T23, T24, T25, T26, T27) {
        (self.0, self.1, self.2, self.3, self.4, self.5, self.6, self.7, self.8, self.9, self.10, self.11, self.12, self.13, self.14, self.15, value, self.17, self.18, self.19, self.20, self.21, self.22, self.23, self.24, self.25, self.26)
    }

    fn index_ref(&self) -> (r: &T17) {
        &self.16
    }

    fn index_mut(&mut self) -> (r: &mut T17) {
        &mut self.16
    }

    fn into_index(self) -> (r: T17) {
        self.16
    }

    proof fn lemma_index_in_range(&self) {
    }
}

impl<T1, T2, T3, T4, T5, T6, T7, T8, T9, T10, T11, T12, T13, T14, T15, T16, T17, T18, T19, T20, T21, T22, T23, T24, T25, T26, T27> IndexableTuple<17> for (T1, T2, T3, T4, T5, T6, T7, T8, T9, T10, T11, T12, T13, T14, T15, T16, T17, T18, T19, T20, T21, T22, T23, T24, T25, T26, T27) {
    type Value = T18;

    open spec fn spec_index(&self) -> T18 {
        self.17
    }

    open spec fn spec_with_index(self, value: T18) -> (T1, T2, T3, T4, T5, T6, T7, T8, T9, T10, T11, T12, T13, T14, T15, T16, T17, T18, T19, T20, T21, T22, T23, T24, T25, T26, T27) {
        (self.0, self.1, self.2, self.3, self.4, self.5, self.6, self.7, self.8, self.9, self.10, self.11, self.12, self.13, self.14, self.15, self.16, value, self.18, self.19, self.20, self.21, self.22, self.23, self.24, self.25, self.26)
    }

    fn index_ref(&self) -> (r: &T18) {
        &self.17
    }

    fn index_mut(&mut self) -> (r: &mut T18) {
        &mut self.17
    }

    fn into_index(self) -> (r: T18) {
        self.17
    }

    proof fn lemma_index_in_range(&self) {
    }
}

impl<T1, T2, T3, T4, T5, T6, T7, T8, T9, T10, T11, T12, T13, T14, T15, T16, T17, T18, T19, T20, T21, T22, T23, T24, T25, T26, T27> IndexableTuple<18> for (T1, T2, T3, T4, T5, T6, T7, T8, T9, T10, T11, T12, T13, T14, T15, T16, T17, T18, T19, T20, T21, T22, T23, T24, T25, T26, T27) {
    type Value = T19;

    open spec fn spec_index(&self) -> T19 {
        self.18
    }

    open spec fn spec_with_index(self, value: T19) -> (T1, T2, T3, T4, T5, T6, T7, T8, T9, T10, T11, T12, T13, T14, T15, T16, T17, T18, T19, T20, T21, T22, T23, T24, T25, T26, T27) {
        (self.0, self.1, self.2, self.3, self.4, self.5, self.6, self.7, self.8, self.9, self.10, self.11, self.12, self.13, self.14, self.15, self.16, self.17, value, self.19, self.20, self.21, self.22, self.23, self.24, self.25, self.26)
    }

    fn index_ref(&self) -> (r: &T19) {
        &self.18
    }

    fn index_mut(&mut self) -> (r: &mut T19) {
        &mut self.18
    }

    fn into_index(self) -> (r: T19) {
        self.18
    }

    proof fn lemma_index_in_range(&self) {
    }
}

impl<T1, T2, T3, T4, T5, T6, T7, T8, T9, T10, T11, T12, T13, T14, T15, T16, T17, T18, T19, T20, T21, T22, T23, T24, T25, T26, T27> IndexableTuple<19> for (T1, T2, T3, T4, T5, T6, T7, T8, T9, T10, T11, T12, T13, T14, T15, T16, T17, T18, T19, T20, T21, T22, T23, T24, T25, T26, T27) {
    type Value = T20;

    open spec fn spec_index(&self) -> T20 {
        self.19
    }

    open spec fn spec_with_index(self, value: T20) -> (T1, T2, T3, T4, T5, T6, T7, T8, T9, T10, T11, T12, T13, T14, T15, T16, T17, T18, T19, T20, T21, T22, T23, T24, T25, T26, T27) {
        (self.0, self.1, self.2, self.3, self.4, self.5, self.6, self.7, self.8, self.9, self.10, self.11, self.12, self.13, self.14, self.15, self.16, self.17, self.18, value, self.20, self.21, self.22, self.23, self.24, self.25, self.26)
    }

    fn index_ref(&self) -> (r: &T20) {
        &self.19
    }

    fn index_mut(&mut self) -> (r: &mut T20) {
        &mut self.19
    }

    fn into_index(self) -> (r: T20) {
        self.19
    }

    proof fn lemma_index_in_range(&self) {
    }
}

impl<T1, T2, T3, T4, T5, T6, T7, T8, T9, T10, T11, T12, T13, T14, T15, T16, T17, T18, T19, T20, T21, T22, T23, T24, T25, T26, T27> IndexableTuple<20> for (T1, T2, T3, T4, T5, T6, T7, T8, T9, T10, T11, T12, T13, T14, T15, T16, T17, T18, T19, T20, T21, T22, T23, T24, T25, T26, T27) {
    type Value = T21;

    open spec fn spec_index(&self) -> T21 {
        self.20
    }

    open spec fn spec_with_index(self, value: T21) -> (T1, T2, T3, T4, T5, T6, T7, T8, T9, T10, T11, T12, T13, T14, T15, T16, T17, T18, T19, T20, T21, T22, T23, T24, T25, T26, T27) {
        (self.0, self.1, self.2, self.3, self.4, self.5, self.6, self.7, self.8, self.9, self.10, self.11, self.12, self.13, self.14, self.15, self.16, self.17, self.18, self.19, value, self.21, self.22, self.23, self.24, self.25, self.26)
    }

    fn index_ref(&self) -> (r: &T21) {
        &self.20
    }

    fn index_mut(&mut self) -> (r: &mut T21) {
        &mut self.20
    }

    fn into_index(self) -> (r: T21) {
        self.20
    }

    proof fn lemma_index_in_range(&self) {
    }
}

impl<T1, T2, T3, T4, T5, T6, T7, T8, T9, T10, T11, T12, T13, T14, T15, T16, T17, T18, T19, T20, T21, T22, T23, T24, T25, T26, T27> IndexableTuple<21> for (T1, T2, T3, T4, T5, T6, T7, T8, T9, T10, T11, T12, T13, T14, T15, T16, T17, T18, T19, T20, T21, T22, T23, T24, T25, T26, T27) {
    type Value = T22;

    open spec fn spec_index(&self) -> T22 {
        self.21
    }

    open spec fn spec_with_index(self, value: T22) -> (T1, T2, T3, T4, T5, T6, T7, T8, T9, T10, T11, T12, T13, T14, T15, T16, T17, T18, T19, T20, T21, T22, T23, T24, T25, T26, T27) {
        (self.0, self.1, self.2, self.3, self.4, self.5, self.6, self.7, self.8, self.9, self.10, self.11, self.12, self.13, self.14, self.15, self.16, self.17, self.18, self.19, self.20, value, self.22, self.23, self.24, self.25, self.26)
    }

    fn index_ref(&self) -> (r: &T22) {
        &self.21
    }

    fn index_mut(&mut self) -> (r: &mut T22) {
        &mut self.21
    }

    fn into_index(self) -> (r: T22) {
        self.21
    }

    proof fn lemma_index_in_range(&self) {
    }
}

impl<T1, T2, T3, T4, T5, T6, T7, T8, T9, T10, T11, T12, T13, T14, T15, T16, T17, T18, T19, T20, T21, T22, T23, T24, T25, T26, T27> IndexableTuple<22> for (T1, T2, T3, T4, T5, T6, T7, T8, T9, T10, T11, T12, T13, T14, T15, T16, T17, T18, T19, T20, T21, T22, T23, T24, T25, T26, T27) {
    type Value = T23;

    open spec fn spec_index(&self) -> T23 {
        self.22
    }

    open spec fn spec_with_index(self, value: T23) -> (T1, T2, T3, T4, T5, T6, T7, T8, T9, T10, T11, T12, T13, T14, T15, T16, T17, T18, T19, T20, T21, T22, T23, T24, T25, T26, T27) {
        (self.0, self.1, self.2, self.3, self.4, self.5, self.6, self.7, self.8, self.9, self.10, self.11, self.12, self.13, self.14, self.15, self.16, self.17, self.18, self.19, self.20, self.21, value, self.23, self.24, self.25, self.26)
    }

    fn index_ref(&self) -> (r: &T23) {
        &self.22
    }

    fn index_mut(&mut self) -> (r: &mut T23) {
        &mut self.22
    }

    fn into_index(self) -> (r: T23) {
        self.22
    }

    proof fn lemma_index_in_range(&self) {
    }
}

impl<T1, T2, T3, T4, T5, T6, T7, T8, T9, T10, T11, T12, T13, T14, T15, T16, T17, T18, T19, T20, T21, T22, T23, T24, T25, T26, T27> IndexableTuple<23> for (T1, T2, T3, T4, T5, T6, T7, T8, T9, T10, T11, T12, T13, T14, T15, T16, T17, T18, T19, T20, T21, T22, T23, T24, T25, T26, T27) {
    type Value = T24;

    open spec fn spec_index(&self) -> T24 {
        self.23
    }

    open spec fn spec_with_index(self, value: T24) -> (T1, T2, T3, T4, T5, T6, T7, T8, T9, T10, T11, T12, T13, T14, T15, T16, T17, T18, T19, T20, T21, T22, T23, T24, T25, T26, T27) {
        (self.0, self.1, self.2, self.3, self.4, self.5, self.6, self.7, self.8, self.9, self.10, self.11, self.12, self.13, self.14, self.15, self.16, self.17, self.18, self.19, self.20, self.21, self.22, value, self.24, self.25, self.26)
    }

    fn index_ref(&self) -> (r: &T24) {
        &self.23
    }

    fn index_mut(&mut self) -> (r: &mut T24) {
        &mut self.23
    }

    fn into_index(self) -> (r: T24) {
        self.23
    }

    proof fn lemma_index_in_range(&self) {
    }
}

impl<T1, T2, T3, T4, T5, T6, T7, T8, T9, T10, T11, T12, T13, T14, T15, T16, T17, T18, T19, T20, T21, T22, T23, T24, T25, T26, T27> IndexableTuple<24> for (T1, T2, T3, T4, T5, T6, T7, T8, T9, T10, T11, T12, T13, T14, T15, T16, T17, T18, T19, T20, T21, T22, T23, T24, T25, T26, T27) {
    type Value = T25;

    open spec fn spec_index(&self) -> T25 {
        self.24
    }

    open spec fn spec_with_index(self, value: T25) -> (T1, T2, T3, T4, T5, T6, T7, T8, T9, T10, T11, T12, T13, T14, T15, T16, T17, T18, T19, T20, T21, T22, T23, T24, T25, T26, T27) {
        (self.0, self.1, self.2, self.3, self.4, self.5, self.6, self.7, self.8, self.9, self.10, self.11, self.12, self.13, self.14, self.15, self.16, self.17, self.18, self.19, self.20, self.21, self.22, self.23, value, self.25, self.26)
    }

    fn index_ref(&self) -> (r: &T25) {
        &self.24
    }

    fn index_mut(&mut self) -> (r: &mut T25) {
        &mut self.24
    }

    fn into_index(self) -> (r: T25) {
        self.24
    }

    proof fn lemma_index_in_range(&self) {
    }
}

impl<T1, T2, T3, T4, T5, T6, T7, T8, T9, T10, T11, T12, T13, T14, T15, T16, T17, T18, T19, T20, T21, T22, T23, T24, T25, T26, T27> IndexableTuple<25> for (T1, T2, T3, T4, T5, T6, T7, T8, T9, T10, T11, T12, T13, T14, T15, T16, T17, T18, T19, T20, T21, T22, T23, T24, T25, T26, T27) {
    type Value = T26;

    open spec fn spec_index(&self) -> T26 {
        self.25
    }

    open spec fn spec_with_index(self, value: T26) -> (T1, T2, T3, T4, T5, T6, T7, T8, T9, T10, T11, T12, T13, T14, T15, T16, T17, T18, T19, T20, T21, T22, T23, T24, T25, T26, T27) {
        (self.0, self.1, self.2, self.3, self.4, self.5, self.6, self.7, self.8, self.9, self.10, self.11, self.12, self.13, self.14, self.15, self.16, self.17, self.18, self.19, self.20, self.21, self.22, self.23, self.24, value, self.26)
    }

    fn index_ref(&self) -> (r: &T26) {
        &self.25
    }

    fn index_mut(&mut self) -> (r: &mut T26) {
        &mut self.25
    }

    fn into_index(self) -> (r: T26) {
        self.25
    }

    proof fn lemma_index_in_range(&self) {
    }
}

impl<T1, T2, T3, T4, T5, T6, T7, T8, T9, T10, T11, T12, T13, T14, T15, T16, T17, T18, T19, T20, T21, T22, T23, T24, T25, T26, T27> IndexableTuple<26> for (T1, T2, T3, T4, T5, T6, T7, T8, T9, T10, T11, T12, T13, T14, T15, T16, T17, T18, T19, T20, T21, T22, T23, T24, T25, T26, T27) {
    type Value = T27;

    open spec fn spec_index(&self) -> T27 {
        self.26
    }

    open spec fn spec_with_index(self, value: T27) -> (T1, T2, T3, T4, T5, T6, T7, T8, T9, T10, T11, T12, T13, T14, T15, T16, T17, T18, T19, T20, T21, T22, T23, T24, T25, T26, T27) {
        (self.0, self.1, self.2, self.3, self.4, self.5, self.6, self.7, self.8, self.9, self.10, self.11, self.12, self.13, self.14, self.15, self.16, self.17, self.18, self.19, self.20, self.21, self.22, self.23, self.24, self.25, value)
    }

    fn index_ref(&self) -> (r: &T27) {
        &self.26
    }

    fn index_mut(&mut self) -> (r: &mut T27) {
        &mut self.26
    }

    fn into_index(self) -> (r: T27) {
        self.26
    }

    proof fn lemma_index_in_range(&self) {
    }
}

impl<T1, T2, T3, T4, T5, T6, T7, T8, T9, T10, T11, T12, T13, T14, T15, T16, T17, T18, T19, T20, T21, T22, T23, T24, T25, T26, T27> JoinableTuple<(T1, T2, T3, T4, T5, T6, T7, T8, T9, T10, T11, T12, T13, T14, T15, T16, T17, T18, T19, T20, T21, T22, T23, T24, T25, T26, T27)> for () {
    type Join = (T1, T2, T3, T4, T5, T6, T7, T8, T9, T10, T11, T12, T13, T14, T15, T16, T17, T18, T19, T20, T21, T22, T23, T24, T25, T26, T27);

    open spec fn spec_join(self, other: (T1, T2, T3, T4, T5, T6, T7, T8, T9, T10, T11, T12, T13, T14, T15, T16, T17, T18, T19, T20, T21, T22, T23, T24, T25, T26, T27)) -> (T1, T2, T3, T4, T5, T6, T7, T8, T9, T10, T11, T12, T13, T14, T15, T16, T17, T18, T19, T20, T21, T22, T23, T24, T25, T26, T27) {
        (other.0, other.1, other.2, other.3, other.4, other.5, other.6, other.7, other.8, other.9, other.10, other.11, other.12, other.13, other.14, other.15, other.16, other.17, other.18, other.19, other.20, other.21, other.22, other.23, other.24, other.25, other.26)
    }

    fn join(self, other: (T1, T2, T3, T4, T5, T6, T7, T8, T9, T10, T11, T12, T13, T14, T15, T16, T17, T18, T19, T20, T21, T22, T23, T24, T25, T26, T27)) -> (r: (T1, T2, T3, T4, T5, T6, T7, T8, T9, T10, T11, T12, T13, T14, T15, T16, T17, T18, T19, T20, T21, T22, T23, T24, T25, T26, T27)) {
        (other.0, other.1, other.2, other.3, other.4, other.5, other.6, other.7, other.8, other.9, other.10, other.11, other.12, other.13, other.14, other.15, other.16, other.17, other.18, other.19, other.20, other.21, other.22, other.23, other.24, other.25, other.26)
    }

    proof fn lemma_join_arity(self, other: (T1, T2, T3, T4, T5, T6, T7, T8, T9, T10, T11, T12, T13, T14, T15, T16, T17, T18, T19, T20, T21, T22, T23, T24, T25, T26, T27)) {
    }
}

impl<T1, T2, T3, T4, T5, T6, T7, T8, T9, T10, T11, T12, T13, T14, T15, T16, T17, T18, T19, T20, T21, T22, T23, T24, T25, T26, T27> JoinableTuple<(T2, T3, T4, T5, T6, T7, T8, T9, T10, T11, T12, T13, T14, T15, T16, T17, T18, T19, T20, T21, T22, T23, T24, T25, T26, T27)> for (T1,) {
    type Join = (T1, T2, T3, T4, T5, T6, T7, T8, T9, T10, T11, T12, T13, T14, T15, T16, T17, T18, T19, T20, T21, T22, T23, T24, T25, T26, T27);

    open spec fn spec_join(self, other: (T2, T3, T4, T5, T6, T7, T8, T9, T10, T11, T12, T13, T14, T15, T16, T17, T18, T19, T20, T21, T22, T23, T24, T25, T26, T27)) -> (T1, T2, T3, T4, T5, T6, T7, T8, T9, T10, T11, T12, T13, T14, T15, T16, T17, T18, T19, T20, T21, T22, T23, T24, T25, T26, T27) {
        (self.0, other.0, other.1, other.2, other.3, other.4, other.5, other.6, other.7, other.8, other.9, other.10, other.11, other.12, other.13, other.14, other.15, other.16, other.17, other.18, other.19, other.20, other.21, other.22, other.23, other.24, other.25)
    }

    fn join(self, other: (T2, T3, T4, T5, T6, T7, T8, T9, T10, T11, T12, T13, T14, T15, T16, T17, T18, T19, T20, T21, T22, T23, T24, T25, T26, T27)) -> (r: (T1, T2, T3, T4, T5, T6, T7, T8, T9, T10, T11, T12, T13, T14, T15, T16, T17, T18, T19, T20, T21, T22, T23, T24, T25, T26, T27)) {
        (self.0, other.0, other.1, other.2, other.3, other.4, other.5, other.6, other.7, other.8, other.9, other.10, other.11, other.12, other.13, other.14, other.15, other.16, other.17, other.18, other.19, other.20, other.21, other.22, other.23, other.24, other.25)
    }

    proof fn lemma_join_arity(self, other: (T2, T3, T4, T5, T6, T7, T8, T9, T10, T11, T12, T13, T14, T15, T16, T17, T18, T19, T20, T21, T22, T23, T24, T25, T26, T27)) {
    }
}

impl<T1, T2, T3, T4, T5, T6, T7, T8, T9, T10, T11, T12, T13, T14, T15, T16, T17, T18, T19, T20, T21, T22, T23, T24, T25, T26, T27> JoinableTuple<(T3, T4, T5, T6, T7, T8, T9, T10, T11, T12, T13, T14, T15, T16, T17, T18, T19, T20, T21, T22, T23, T24, T25, T26, T27)> for (T1, T2) {
    type Join = (T1, T2, T3, T4, T5, T6, T7, T8, T9, T10, T11, T12, T13, T14, T15, T16, T17, T18, T19, T20, T21, T22, T23, T24, T25, T26, T27);

    open spec fn spec_join(self, other: (T3, T4, T5, T6, T7, T8, T9, T10, T11, T12, T13, T14, T15, T16, T17, T18, T19, T20, T21, T22, T23, T24, T25, T26, T27)) -> (T1, T2, T3, T4, T5, T6, T7, T8, T9, T10, T11, T12, T13, T14, T15, T16, T17, T18, T19, T20, T21, T22, T23, T24, T25, T26, T27) {
        (self.0, self.1, other.0, other.1, other.2, other.3, other.4, other.5, other.6, other.7, other.8, other.9, other.10, other.11, other.12, other.13, other.14, other.15, other.16, other.17, other.18, other.19, other.20, other.21, other.22, other.23, other.24)
    }

    fn join(self, other: (T3, T4, T5, T6, T7, T8, T9, T10, T11, T12, T13, T14, T15, T16, T17, T18, T19, T20, T21, T22, T23, T24, T25, T26, T27)) -> (r: (T1, T2, T3, T4, T5, T6, T7, T8, T9, T10, T11, T12, T13, T14, T15, T16, T17, T18, T19, T20, T21, T22, T23, T24, T25, T26, T27)) {
        (self.0, self.1, other.0, other.1, other.2, other.3, other.4, other.5, other.6, other.7, other.8, other.9, other.10, other.11, other.12, other.13, other.14, other.15, other.16, other.17, other.18, other.19, other.20, other.21, other.22, other.23, other.24)
    }

    proof fn lemma_join_arity(self, other: (T3, T4, T5, T6, T7, T8, T9, T10, T11, T12, T13, T14, T15, T16, T17, T18, T19, T20, T21, T22, T23, T24, T25, T26, T27)) {
    }
}

impl<T1, T2, T3, T4, T5, T6, T7, T8, T9, T10, T11, T12, T13, T14, T15, T16, T17, T18, T19, T20, T21, T22, T23, T24, T25, T26, T27> JoinableTuple<(T4, T5, T6, T7, T8, T9, T10, T11, T12, T13, T14, T15, T16, T17, T18, T19, T20, T21, T22, T23, T24, T25, T26, T27)> for (T1, T2, T3) {
    type Join = (T1, T2, T3, T4, T5, T6, T7, T8, T9, T10, T11, T12, T13, T14, T15, T16, T17, T18, T19, T20, T21, T22, T23, T24, T25, T26, T27);

    open spec fn spec_join(self, other: (T4, T5, T6, T7, T8, T9, T10, T11, T12, T13, T14, T15, T16, T17, T18, T19, T20, T21, T22, T23, T24, T25, T26, T27)) -> (T1, T2, T3, T4, T5, T6, T7, T8, T9, T10, T11, T12, T13, T14, T15, T16, T17, T18, T19, T20, T21, T22, T23, T24, T25, T26, T27) {
        (self.0, self.1, self.2, other.0, other.1, other.2, other.3, other.4, other.5, other.6, other.7, other.8, other.9, other.10, other.11, other.12, other.13, other.14, other.15, other.16, other.17, other.18, other.19, other.20, other.21, other.22, other.23)
    }

    fn join(self, other: (T4, T5, T6, T7, T8, T9, T10, T11, T12, T13, T14, T15, T16, T17, T18, T19, T20, T21, T22, T23, T24, T25, T26, T27)) -> (r: (T1, T2, T3, T4, T5, T6, T7, T8, T9, T10, T11, T12, T13, T14, T15, T16, T17, T18, T19, T20, T21, T22, T23, T24, T25, T26, T27)) {
        (self.0, self.1, self.2, other.0, other.1, other.2, other.3, other.4, other.5, other.6, other.7, other.8, other.9, other.10, other.11, other.12, other.13, other.14, other.15, other.16, other.17, other.18, other.19, other.20, other.21, other.22, other.23)
    }

    proof fn lemma_join_arity(self, other: (T4, T5, T6, T7, T8, T9, T10, T11, T12, T13, T14, T15, T16, T17, T18, T19, T20, T21, T22, T23, T24, T25, T26, T27)) {
    }
}

impl<T1, T2, T3, T4, T5, T6, T7, T8, T9, T10, T11, T12, T13, T14, T15, T16, T17, T18, T19, T20, T21, T22, T23, T24, T25, T26, T27> JoinableTuple<(T5, T6, T7, T8, T9, T10, T11, T12, T13, T14, T15, T16, T17, T18, T19, T20, T21, T22, T23, T24, T25, T26, T27)> for (T1, T2, T3, T4) {
    type Join = (T1, T2, T3, T4, T5, T6, T7, T8, T9, T10, T11, T12, T13, T14, T15, T16, T17, T18, T19, T20, T21, T22, T23, T24, T25, T26, T27);

    open spec fn spec_join(self, other: (T5, T6, T7, T8, T9, T10, T11, T12, T13, T14, T15, T16, T17, T18, T19, T20, T21, T22, T23, T24, T25, T26, T27)) -> (T1, T2, T3, T4, T5, T6, T7, T8, T9, T10, T11, T12, T13, T14, T15, T16, T17, T18, T19, T20, T21, T22, T23, T24, T25, T26, T27) {
        (self.0, self.1, self.2, self.3, other.0, other.1, other.2, other.3, other.4, other.5, other.6, other.7, other.8, other.9, other.10, other.11, other.12, other.13, other.14, other.15, other.16, other.17, other.18, other.19, other.20, other.21, other.22)
    }

    fn join(self, other: (T5, T6, T7, T8, T9, T10, T11, T12, T13, T14, T15, T16, T17, T18, T19, T20, T21, T22, T23, T24, T25, T26, T27)) -> (r: (T1, T2, T3, T4, T5, T6, T7, T8, T9, T10, T11, T12, T13, T14, T15, T16, T17, T18, T19, T20, T21, T22, T23, T24, T25, T26, T27)) {
        (self.0, self.1, self.2, self.3, other.0, other.1, other.2, other.3, other.4, other.5, other.6, other.7, other.8, other.9, other.10, other.11, other.12, other.13, other.14, other.15, other.16, other.17, other.18, other.19, other.20, other.21, other.22)
    }

    proof fn lemma_join_arity(self, other: (T5, T6, T7, T8, T9, T10, T11, T12, T13, T14, T15, T16, T17, T18, T19, T20, T21, T22, T23, T24, T25, T26, T27)) {
    }
}

impl<T1, T2, T3, T4, T5, T6, T7, T8, T9, T10, T11, T12, T13, T14, T15, T16, T17, T18, T19, T20, T21, T22, T23, T24, T25, T26, T27> JoinableTuple<(T6, T7, T8, T9, T10, T11, T12, T13, T14, T15, T16, T17, T18, T19, T20, T21, T22, T23, T24, T25, T26, T27)> for (T1, T2, T3, T4, T5) {
    type Join = (T1, T2, T3, T4, T5, T6, T7, T8, T9, T10, T11, T12, T13, T14, T15, T16, T17, T18, T19, T20, T21, T22, T23, T24, T25, T26, T27);

    open spec fn spec_join(self, other: (T6, T7, T8, T9, T10, T11, T12, T13, T14, T15, T16, T17, T18, T19, T20, T21, T22, T23, T24, T25, T26, T27)) -> (T1, T2, T3, T4, T5, T6, T7, T8, T9, T10, T11, T12, T13, T14, T15, T16, T17, T18, T19, T20, T21, T22, T23, T24, T25, T26, T27) {
        (self.0, self.1, self.2, self.3, self.4, other.0, other.1, other.2, other.3, other.4, other.5, other.6, other.7, other.8, other.9, other.10, other.11, other.12, other.13, other.14, other.15, other.16, other.17, other.18, other.19, other.20, other.21)
    }

    fn join(self, other: (T6, T7, T8, T9, T10, T11, T12, T13, T14, T15, T16, T17, T18, T19, T20, T21, T22, T23, T24, T25, T26, T27)) -> (r: (T1, T2, T3, T4, T5, T6, T7, T8, T9, T10, T11, T12, T13, T14, T15, T16, T17, T18, T19, T20, T21, T22, T23, T24, T25, T26, T27)) {
        (self.0, self.1, self.2, self.3, self.4, other.0, other.1, other.2, other.3, other.4, other.5, other.6, other.7, other.8, other.9, other.10, other.11, other.12, other.13, other.14, other.15, other.16, other.17, other.18, other.19, other.20, other.21)
    }

    proof fn lemma_join_arity(self, other: (T6, T7, T8, T9, T10, T11, T12, T13, T14, T15, T16, T17, T18, T19, T20, T21, T22, T23, T24, T25, T26, T27)) {
    }
}

impl<T1, T2, T3, T4, T5, T6, T7, T8, T9, T10, T11, T12, T13, T14, T15, T16, T17, T18, T19, T20, T21, T22, T23, T24, T25, T26, T27> JoinableTuple<(T7, T8, T9, T10, T11, T12, T13, T14, T15, T16, T17, T18, T19, T20, T21, T22, T23, T24, T25, T26, T27)> for (T1, T2, T3, T4, T5, T6) {
    type Join = (T1, T2, T3, T4, T5, T6, T7, T8, T9, T10, T11, T12, T13, T14, T15, T16, T17, T18, T19, T20, T21, T22, T23, T24, T25, T26, T27);

    open spec fn spec_join(self, other: (T7, T8, T9, T10, T11, T12, T13, T14, T15, T16, T17, T18, T19, T20, T21, T22, T23, T24, T25, T26, T27)) -> (T1, T2, T3, T4, T5, T6, T7, T8, T9, T10, T11, T12, T13, T14, T15, T16, T17, T18, T19, T20, T21, T22, T23, T24, T25, T26, T27) {
        (self.0, self.1, self.2, self.3, self.4, self.5, other.0, other.1, other.2, other.3, other.4, other.5, other.6, other.7, other.8, other.9, other.10, other.11, other.12, other.13, other.14, other.15, other.16, other.17, other.18, other.19, other.20)
    }

    fn join(self, other: (T7, T8, T9, T10, T11, T12, T13, T14, T15, T16, T17, T18, T19, T20, T21, T22, T23, T24, T25, T26, T27)) -> (r: (T1, T2, T3, T4, T5, T6, T7, T8, T9, T10, T11, T12, T13, T14, T15, T16, T17, T18, T19, T20, T21, T22, T23, T24, T25, T26, T27)) {
        (self.0, self.1, self.2, self.3, self.4, self.5, other.0, other.1, other.2, other.3, other.4, other.5, other.6, other.7, other.8, other.9, other.10, other.11, other.12, other.13, other.14, other.15, other.16, other.17, other.18, other.19, other.20)
    }

    proof fn lemma_join_arity(self, other: (T7, T8, T9, T10, T11, T12, T13, T14, T15, T16, T17, T18, T19, T20, T21, T22, T23, T24, T25, T26, T27)) {
    }
}

impl<T1, T2, T3, T4, T5, T6, T7, T8, T9, T10, T11, T12, T13, T14, T15, T16, T17, T18, T19, T20, T21, T22, T23, T24, T25, T26, T27> JoinableTuple<(T8, T9, T10, T11, T12, T13, T14, T15, T16, T17, T18, T19, T20, T21, T22, T23, T24, T25, T26, T27)> for (T1, T2, T3, T4, T5, T6, T7) {
    type Join = (T1, T2, T3, T4, T5, T6, T7, T8, T9, T10, T11, T12, T13, T14, T15, T16, T17, T18, T19, T20, T21, T22, T23, T24, T25, T26, T27);

    open spec fn spec_join(self, other: (T8, T9, T10, T11, T12, T13, T14, T15, T16, T17, T18, T19, T20, T21, T22, T23, T24, T25, T26, T27)) -> (T1, T2, T3, T4, T5, T6, T7, T8, T9, T10, T11, T12, T13, T14, T15, T16, T17, T18, T19, T20, T21, T22, T23, T24, T25, T26, T27) {
        (self.0, self.1, self.2, self.3, self.4, self.5, self.6, other.0, other.1, other.2, other.3, other.4, other.5, other.6, other.7, other.8, other.9, other.10, other.11, other.12, other.13, other.14, other.15, other.16, other.17, other.18, other.19)
    }

    fn join(self, other: (T8, T9, T10, T11, T12, T13, T14, T15, T16, T17, T18, T19, T20, T21, T22, T23, T24, T25, T26, T27)) -> (r: (T1, T2, T3, T4, T5, T6, T7, T8, T9, T10, T11, T12, T13, T14, T15, T16, T17, T18, T19, T20, T21, T22, T23, T24, T25, T26, T27)) {
        (self.0, self.1, self.2, self.3, self.4, self.5, self.6, other.0, other.1, other.2, other.3, other.4, other.5, other.6, other.7, other.8, other.9, other.10, other.11, other.12, other.13, other.14, other.15, other.16, other.17, other.18, other.19)
    }

    proof fn lemma_join_arity(self, other: (T8, T9, T10, T11, T12, T13, T14, T15, T16, T17, T18, T19, T20, T21, T22, T23, T24, T25, T26, T27)) {
    }
}

impl<T1, T2, T3, T4, T5, T6, T7, T8, T9, T10, T11, T12, T13, T14, T15, T16, T17, T18, T19, T20, T21, T22, T23, T24, T25, T26, T27> JoinableTuple<(T9, T10, T11, T12, T13, T14, T15, T16, T17, T18, T19, T20, T21, T22, T23, T24, T25, T26, T27)> for (T1, T2, T3, T4, T5, T6, T7, T8) {
    type Join = (T1, T2, T3, T4, T5, T6, T7, T8, T9, T10, T11, T12, T13, T14, T15, T16, T17, T18, T19, T20, T21, T22, T23, T24, T25, T26, T27);

    open spec fn spec_join(self, other: (T9, T10, T11, T12, T13, T14, T15, T16, T17, T18, T19, T20, T21, T22, T23, T24, T25, T26, T27)) -> (T1, T2, T3, T4, T5, T6, T7, T8, T9, T10, T11, T12, T13, T14, T15, T16, T17, T18, T19, T20, T21, T22, T23, T24, T25, T26, T27) {
        (self.0, self.1, self.2, self.3, self.4, self.5, self.6, self.7, other.0, other.1, other.2, other.3, other.4, other.5, other.6, other.7, other.8, other.9, other.10, other.11, other.12, other.13, other.14, other.15, other.16, other.17, other.18)
    }

    fn join(self, other: (T9, T10, T11, T12, T13, T14, T15, T16, T17, T18, T19, T20, T21, T22, T23, T24, T25, T26, T27)) -> (r: (T1, T2, T3, T4, T5, T6, T7, T8, T9, T10, T11, T12, T13, T14, T15, T16, T17, T18, T19, T20, T21, T22, T23, T24, T25, T26, T27)) {
        (self.0, self.1, self.2, self.3, self.4, self.5, self.6, self.7, other.0, other.1, other.2, other.3, other.4, other.5, other.6, other.7, other.8, other.9, other.10, other.11, other.12, other.13, other.14, other.15, other.16, other.17, other.18)
    }

    proof fn lemma_join_arity(self, other: (T9, T10, T11, T12, T13, T14, T15, T16, T17, T18, T19, T20, T21, T22, T23, T24, T25, T26, T27)) {
    }
}

impl<T1, T2, T3, T4, T5, T6, T7, T8, T9, T10, T11, T12, T13, T14, T15, T16, T17, T18, T19, T20, T21, T22, T23, T24, T25, T26, T27> JoinableTuple<(T10, T11, T12, T13, T14, T15, T16, T17, T18, T19, T20, T21, T22, T23, T24, T25, T26, T27)> for (T1, T2, T3, T4, T5, T6, T7, T8, T9) {
    type Join = (T1, T2, T3, T4, T5, T6, T7, T8, T9, T10, T11, T12, T13, T14, T15, T16, T17, T18, T19, T20, T21, T22, T23, T24, T25, T26, T27);

    open spec fn spec_join(self, other: (T10, T11, T12, T13, T14, T15, T16, T17, T18, T19, T20, T21, T22, T23, T24, T25, T26, T27)) -> (T1, T2, T3, T4, T5, T6, T7, T8, T9, T10, T11, T12, T13, T14, T15, T16, T17, T18, T19, T20, T21, T22, T23, T24, T25, T26, T27) {
        (self.0, self.1, self.2, self.3, self.4, self.5, self.6, self.7, self.8, other.0, other.1, other.2, other.3, other.4, other.5, other.6, other.7, other.8, other.9, other.10, other.11, other.12, other.13, other.14, other.15, other.16, other.17)
    }

    fn join(self, other: (T10, T11, T12, T13, T14, T15, T16, T17, T18, T19, T20, T21, T22, T23, T24, T25, T26, T27)) -> (r: (T1, T2, T3, T4, T5, T6, T7, T8, T9, T10, T11, T12, T13, T14, T15, T16, T17, T18, T19, T20, T21, T22, T23, T24, T25, T26, T27)) {
        (self.0, self.1, self.2, self.3, self.4, self.5, self.6, self.7, self.8, other.0, other.1, other.2, other.3, other.4, other.5, other.6, other.7, other.8, other.9, other.10, other.11, other.12, other.13, other.14, other.15, other.16, other.17)
    }

    proof fn lemma_join_arity(self, other: (T10, T11, T12, T13, T14, T15, T16, T17, T18, T19, T20, T21, T22, T23, T24, T25, T26, T27)) {
    }
}

impl<T1, T2, T3, T4, T5, T6, T7, T8, T9, T10, T11, T12, T13, T14, T15, T16, T17, T18, T19, T20, T21, T22, T23, T24, T25, T26, T27> JoinableTuple<(T11, T12, T13, T14, T15, T16, T17, T18, T19, T20, T21, T22, T23, T24, T25, T26, T27)> for (T1, T2, T3, T4, T5, T6, T7, T8, T9, T10) {
    type Join = (T1, T2, T3, T4, T5, T6, T7, T8, T9, T10, T11, T12, T13, T14, T15, T16, T17, T18, T19, T20, T21, T22, T23, T24, T25, T26, T27);

    open spec fn spec_join(self, other: (T11, T12, T13, T14, T15, T16, T17, T18, T19, T20, T21, T22, T23, T24, T25, T26, T27)) -> (T1, T2, T3, T4, T5, T6, T7, T8, T9, T10, T11, T12, T13, T14, T15, T16, T17, T18, T19, T20, T21, T22, T23, T24, T25, T26, T27) {
        (self.0, self.1, self.2, self.3, self.4, self.5, self.6, self.7, self.8, self.9, other.0, other.1, other.2, other.3, other.4, other.5, other.6, other.7, other.8, other.9, other.10, other.11, other.12, other.13, other.14, other.15, other.16)
    }

    fn join(self, other: (T11, T12, T13, T14, T15, T16, T17, T18, T19, T20, T21, T22, T23, T24, T25, T26, T27)) -> (r: (T1, T2, T3, T4, T5, T6, T7, T8, T9, T10, T11, T12, T13, T14, T15, T16, T17, T18, T19, T20, T21, T22, T23, T24, T25, T26, T27)) {
        (self.0, self.1, self.2, self.3, self.4, self.5, self.6, self.7, self.8, self.9, other.0, other.1, other.2, other.3, other.4, other.5, other.6, other.7, other.8, other.9, other.10, other.11, other.12, other.13, other.14, other.15, other.16)
    }

    proof fn lemma_join_arity(self, other: (T11, T12, T13, T14, T15, T16, T17, T18, T19, T20, T21, T22, T23, T24, T25, T26, T27)) {
    }
}

impl<T1, T2, T3, T4, T5, T6, T7, T8, T9, T10, T11, T12, T13, T14, T15, T16, T17, T18, T19, T20, T21, T22, T23, T24, T25, T26, T27> JoinableTuple<(T12, T13, T14, T15, T16, T17, T18, T19, T20, T21, T22, T23, T24, T25, T26, T27)> for (T1, T2, T3, T4, T5, T6, T7, T8, T9, T10, T11) {
    type Join = (T1, T2, T3, T4, T5, T6, T7, T8, T9, T10, T11, T12, T13, T14, T15, T16, T17, T18, T19, T20, T21, T22, T23, T24, T25, T26, T27);

    open spec fn spec_join(self, other: (T12, T13, T14, T15, T16, T17, T18, T19, T20, T21, T22, T23, T24, T25, T26, T27)) -> (T1, T2, T3, T4, T5, T6, T7, T8, T9, T10, T11, T12, T13, T14, T15, T16, T17, T18, T19, T20, T21, T22, T23, T24, T25, T26, T27) {
        (self.0, self.1, self.2, self.3, self.4, self.5, self.6, self.7, self.8, self.9, self.10, other.0, other.1, other.2, other.3, other.4, other.5, other.6, other.7, other.8, other.9, other.10, other.11, other.12, other.13, other.14, other.15)
    }

    fn join(self, other: (T12, T13, T14, T15, T16, T17, T18, T19, T20, T21, T22, T23, T24, T25, T26, T27)) -> (r: (T1, T2, T3, T4, T5, T6, T7, T8, T9, T10, T11, T12, T13, T14, T15, T16, T17, T18, T19, T20, T21, T22, T23, T24, T25, T26, T27)) {
        (self.0, self.1, self.2, self.3, self.4, self.5, self.6, self.7, self.8, self.9, self.10, other.0, other.1, other.2, other.3, other.4, other.5, other.6, other.7, other.8, other.9, other.10, other.11, other.12, other.13, other.14, other.15)
    }

    proof fn lemma_join_arity(self, other: (T12, T13, T14, T15, T16, T17, T18, T19, T20, T21, T22, T23, T24, T25, T26, T27)) {
    }
}

impl<T1, T2, T3, T4, T5, T6, T7, T8, T9, T10, T11, T12, T13, T14, T15, T16, T17, T18, T19, T20, T21, T22, T23, T24, T25, T26, T27> JoinableTuple<(T13, T14, T15, T16, T17, T18, T19, T20, T21, T22, T23, T24, T25, T26, T27)> for (T1, T2, T3, T4, T5, T6, T7, T8, T9, T10, T11, T12) {
    type Join = (T1, T2, T3, T4, T5, T6, T7, T8, T9, T10, T11, T12, T13, T14, T15, T16, T17, T18, T19, T20, T21, T22, T23, T24, T25, T26, T27);

    open spec fn spec_join(self, other: (T13, T14, T15, T16, T17, T18, T19, T20, T21, T22, T23, T24, T25, T26, T27)) -> (T1, T2, T3, T4, T5, T6, T7, T8, T9, T10, T11, T12, T13, T14, T15, T16, T17, T18, T19, T20, T21, T22, T23, T24, T25, T26, T27) {
        (self.0, self.1, self.2, self.3, self.4, self.5, self.6, self.7, self.8, self.9, self.10, self.11, other.0, other.1, other.2, other.3, other.4, other.5, other.6, other.7, other.8, other.9, other.10, other.11, other.12, other.13, other.14)
    }

    fn join(self, other: (T13, T14, T15, T16, T17, T18, T19, T20, T21, T22, T23, T24, T25, T26, T27)) -> (r: (T1, T2, T3, T4, T5, T6, T7, T8, T9, T10, T11, T12, T13, T14, T15, T16, T17, T18, T19, T20, T21, T22, T23, T24, T25, T26, T27)) {
        (self.0, self.1, self.2, self.3, self.4, self.5, self.6, self.7, self.8, self.9, self.10, self.11, other.0, other.1, other.2, other.3, other.4, other.5, other.6, other.7, other.8, other.9, other.10, other.11, other.12, other.13, other.14)
    }

    proof fn lemma_join_arity(self, other: (T13, T14, T15, T16, T17, T18, T19, T20, T21, T22, T23, T24, T25, T26, T27)) {
    }
}

impl<T1, T2, T3, T4, T5, T6, T7, T8, T9, T10, T11, T12, T13, T14, T15, T16, T17, T18, T19, T20, T21, T22, T23, T24, T25, T26, T27> JoinableTuple<(T14, T15, T16, T17, T18, T19, T20, T21, T22, T23, T24, T25, T26, T27)> for (T1, T2, T3, T4, T5, T6, T7, T8, T9, T10, T11, T12, T13) {
    type Join = (T1, T2, T3, T4, T5, T6, T7, T8, T9, T10, T11, T12, T13, T14, T15, T16, T17, T18, T19, T20, T21, T22, T23, T24, T25, T26, T27);

    open spec fn spec_join(self, other: (T14, T15, T16, T17, T18, T19, T20, T21, T22, T23, T24, T25, T26, T27)) -> (T1, T2, T3, T4, T5, T6, T7, T8, T9, T10, T11, T12, T13, T14, T15, T16, T17, T18, T19, T20, T21, T22, T23, T24, T25, T26, T27) {
        (self.0, self.1, self.2, self.3, self.4, self.5, self.6, self.7, self.8, self.9, self.10, self.11, self.12, other.0, other.1, other.2, other.3, other.4, other.5, other.6, other.7, other.8, other.9, other.10, other.11, other.12, other.13)
    }

    fn join(self, other: (T14, T15, T16, T17, T18, T19, T20, T21, T22, T23, T24, T25, T26, T27)) -> (r: (T1, T2, T3, T4, T5, T6, T7, T8, T9, T10, T11, T12, T13, T14, T15, T16, T17, T18, T19, T20, T21, T22, T23, T24, T25, T26, T27)) {
        (self.0, self.1, self.2, self.3, self.4, self.5, self.6, self.7, self.8, self.9, self.10, self.11, self.12, other.0, other.1, other.2, other.3, other.4, other.5, other.6, other.7, other.8, other.9, other.10, other.11, other.12, other.13)
    }

    proof fn lemma_join_arity(self, other: (T14, T15, T16, T17, T18, T19, T20, T21, T22, T23, T24, T25, T26, T27)) {
    }
}

impl<T1, T2, T3, T4, T5, T6, T7, T8, T9, T10, T11, T12, T13, T14, T15, T16, T17, T18, T19, T20, T21, T22, T23, T24, T25, T26, T27> JoinableTuple<(T15, T16, T17, T18, T19, T20, T21, T22, T23, T24, T25, T26, T27)> for (T1, T2, T3, T4, T5, T6, T7, T8, T9, T10, T11, T12, T13, T14) {
    type Join = (T1, T2, T3, T4, T5, T6, T7, T8, T9, T10, T11, T12, T13, T14, T15, T16, T17, T18, T19, T20, T21, T22, T23, T24, T25, T26, T27);

    open spec fn spec_join(self, other: (T15, T16, T17, T18, T19, T20, T21, T22, T23, T24, T25, T26, T27)) -> (T1, T2, T3, T4, T5, T6, T7, T8, T9, T10, T11, T12, T13, T14, T15, T16, T17, T18, T19, T20, T21, T22, T23, T24, T25, T26, T27) {
        (self.0, self.1, self.2, self.3, self.4, self.5, self.6, self.7, self.8, self.9, self.10, self.11, self.12, self.13, other.0, other.1, other.2, other.3, other.4, other.5, other.6, other.7, other.8, other.9, other.10, other.11, other.12)
    }

    fn join(self, other: (T15, T16, T17, T18, T19, T20, T21, T22, T23, T24, T25, T26, T27)) -> (r: (T1, T2, T3, T4, T5, T6, T7, T8, T9, T10, T11, T12, T13, T14, T15, T16, T17, T18, T19, T20, T21, T22, T23, T24, T25, T26, T27)) {
        (self.0, self.1, self.2, self.3, self.4, self.5, self.6, self.7, self.8, self.9, self.10, self.11, self.12, self.13, other.0, other.1, other.2, other.3, other.4, other.5, other.6, other.7, other.8, other.9, other.10, other.11, other.12)
    }

    proof fn lemma_join_arity(self, other: (T15, T16, T17, T18, T19, T20, T21, T22, T23, T24, T25, T26, T27)) {
    }
}

impl<T1, T2, T3, T4, T5, T6, T7, T8, T9, T10, T11, T12, T13, T14, T15, T16, T17, T18, T19, T20, T21, T22, T23, T24, T25, T26, T27> JoinableTuple<(T16, T17, T18, T19, T20, T21, T22, T23, T24, T25, T26, T27)> for (T1, T2, T3, T4, T5, T6, T7, T8, T9, T10, T11, T12, T13, T14, T15) {
    type Join = (T1, T2, T3, T4, T5, T6, T7, T8, T9, T10, T11, T12, T13, T14, T15, T16, T17, T18, T19, T20, T21, T22, T23, T24, T25, T26, T27);

    open spec fn spec_join(self, other: (T16, T17, T18, T19, T20, T21, T22, T23, T24, T25, T26, T27)) -> (T1, T2, T3, T4, T5, T6, T7, T8, T9, T10, T11, T12, T13, T14, T15, T16, T17, T18, T19, T20, T21, T22, T23, T24, T25, T26, T27) {
        (self.0, self.1, self.2, self.3, self.4, self.5, self.6, self.7, self.8, self.9, self.10, self.11, self.12, self.13, self.14, other.0, other.1, other.2, other.3, other.4, other.5, other.6, other.7, other.8, other.9, other.10, other.11)
    }

    fn join(self, other: (T16, T17, T18, T19, T20, T21, T22, T23, T24, T25, T26, T27)) -> (r: (T1, T2, T3, T4, T5, T6, T7, T8, T9, T10, T11, T12, T13, T14, T15, T16, T17, T18, T19, T20, T21, T22, T23, T24, T25, T26, T27)) {
        (self.0, self.1, self.2, self.3, self.4, self.5, self.6, self.7, self.8, self.9, self.10, self.11, self.12, self.13, self.14, other.0, other.1, other.2, other.3, other.4, other.5, other.6, other.7, other.8, other.9, other.10, other.11)
    }

    proof fn lemma_join_arity(self, other: (T16, T17, T18, T19, T20, T21, T22, T23, T24, T25, T26, T27)) {
    }
}

impl<T1, T2, T3, T4, T5, T6, T7, T8, T9, T10, T11, T12, T13, T14, T15, T16, T17, T18, T19, T20, T21, T22, T23, T24, T25, T26, T27> JoinableTuple<(T17, T18, T19, T20, T21, T22, T23, T24, T25, T26, T27)> for (T1, T2, T3, T4, T5, T6, T7, T8, T9, T10, T11, T12, T13, T14, T15, T16) {
    type Join = (T1, T2, T3, T4, T5, T6, T7, T8, T9, T10, T11, T12, T13, T14, T15, T16, T17, T18, T19, T20, T21, T22, T23, T24, T25, T26, T27);

    open spec fn spec_join(self, other: (T17, T18, T19, T20, T21, T22, T23, T24, T25, T26, T27)) -> (T1, T2, T3, T4, T5, T6, T7, T8, T9, T10, T11, T12, T13, T14, T15, T16, T17, T18, T19, T20, T21, T22, T23, T24, T25, T26, T27) {
        (self.0, self.1, self.2, self.3, self.4, self.5, self.6, self.7, self.8, self.9, self.10, self.11, self.12, self.13, self.14, self.15, other.0, other.1, other.2, other.3, other.4, other.5, other.6, other.7, other.8, other.9, other.10)
    }

    fn join(self, other: (T17, T18, T19, T20, T21, T22, T23, T24, T25, T26, T27)) -> (r: (T1, T2, T3, T4, T5, T6, T7, T8, T9, T10, T11, T12, T13, T14, T15, T16, T17, T18, T19, T20, T21, T22, T23, T24, T25, T26, T27)) {
        (self.0, self.1, self.2, self.3, self.4, self.5, self.6, self.7, self.8, self.9, self.10, self.11, self.12, self.13, self.14, self.15, other.0, other.1, other.2, other.3, other.4, other.5, other.6, other.7, other.8, other.9, other.10)
    }

    proof fn lemma_join_arity(self, other: (T17, T18, T19, T20, T21, T22, T23, T24, T25, T26, T27)) {
    }
}

impl<T1, T2, T3, T4, T5, T6, T7, T8, T9, T10, T11, T12, T13, T14, T15, T16, T17, T18, T19, T20, T21, T22, T23, T24, T25, T26, T27> JoinableTuple<(T18, T19, T20, T21, T22, T23, T24, T25, T26, T27)> for (T1, T2, T3, T4, T5, T6, T7, T8, T9, T10, T11, T12, T13, T14, T15, T16, T17) {
    type Join = (T1, T2, T3, T4, T5, T6, T7, T8, T9, T10, T11, T12, T13, T14, T15, T16, T17, T18, T19, T20, T21, T22, T23, T24, T25, T26, T27);

    open spec fn spec_join(self, other: (T18, T19, T20, T21, T22, T23, T24, T25, T26, T27)) -> (T1, T2, T3, T4, T5, T6, T7, T8, T9, T10, T11, T12, T13, T14, T15, T16, T17, T18, T19, T20, T21, T22, T23, T24, T25, T26, T27) {
        (self.0, self.1, self.2, self.3, self.4, self.5, self.6, self.7, self.8, self.9, self.10, self.11, self.12, self.13, self.14, self.15, self.16, other.0, other.1, other.2, other.3, other.4, other.5, other.6, other.7, other.8, other.9)
    }

    fn join(self, other: (T18, T19, T20, T21, T22, T23, T24, T25, T26, T27)) -> (r: (T1, T2, T3, T4, T5, T6, T7, T8, T9, T10, T11, T12, T13, T14, T15, T16, T17, T18, T19, T20, T21, T22, T23, T24, T25, T26, T27)) {
        (self.0, self.1, self.2, self.3, self.4, self.5, self.6, self.7, self.8, self.9, self.10, self.11, self.12, self.13, self.14, self.15, self.16, other.0, other.1, other.2, other.3, other.4, other.5, other.6, other.7, other.8, other.9)
    }

    proof fn lemma_join_arity(self, other: (T18, T19, T20, T21, T22, T23, T24, T25, T26, T27)) {
    }
}

impl<T1, T2, T3, T4, T5, T6, T7, T8, T9, T10, T11, T12, T13, T14, T15, T16, T17, T18, T19, T20, T21, T22, T23, T24, T25, T26, T27> JoinableTuple<(T19, T20, T21, T22, T23, T24, T25, T26, T27)> for (T1, T2, T3, T4, T5, T6, T7, T8, T9, T10, T11, T12, T13, T14, T15, T16, T17, T18) {
    type Join = (T1, T2, T3, T4, T5, T6, T7, T8, T9, T10, T11, T12, T13, T14, T15, T16, T17, T18, T19, T20, T21, T22, T23, T24, T25, T26, T27);

    open spec fn spec_join(self, other: (T19, T20, T21, T22, T23, T24, T25, T26, T27)) -> (T1, T2, T3, T4, T5, T6, T7, T8, T9, T10, T11, T12, T13, T14, T15, T16, T17, T18, T19, T20, T21, T22, T23, T24, T25, T26, T27) {
        (self.0, self.1, self.2, self.3, self.4, self.5, self.6, self.7, self.8, self.9, self.10, self.11, self.12, self.13, self.14, self.15, self.16, self.17, other.0, other.1, other.2, other.3, other.4, other.5, other.6, other.7, other.8)
    }

    fn join(self, other: (T19, T20, T21, T22, T23, T24, T25, T26, T27)) -> (r: (T1, T2, T3, T4, T5, T6, T7, T8, T9, T10, T11, T12, T13, T14, T15, T16, T17, T18, T19, T20, T21, T22, T23, T24, T25, T26, T27)) {
        (self.0, self.1, self.2, self.3, self.4, self.5, self.6, self.7, self.8, self.9, self.10, self.11, self.12, self.13, self.14, self.15, self.16, self.17, other.0, other.1, other.2, other.3, other.4, other.5, other.6, other.7, other.8)
    }

    proof fn lemma_join_arity(self, other: (T19, T20, T21, T22, T23, T24, T25, T26, T27)) {
    }
}

impl<T1, T2, T3, T4, T5, T6, T7, T8, T9, T10, T11, T12, T13, T14, T15, T16, T17, T18, T19, T20, T21, T22, T23, T24, T25, T26, T27> JoinableTuple<(T20, T21, T22, T23, T24, T25, T26, T27)> for (T1, T2, T3, T4, T5, T6, T7, T8, T9, T10, T11, T12, T13, T14, T15, T16, T17, T18, T19) {
    type Join = (T1, T2, T3, T4, T5, T6, T7, T8, T9, T10, T11, T12, T13, T14, T15, T16, T17, T18, T19, T20, T21, T22, T23, T24, T25, T26, T27);

    open spec fn spec_join(self, other: (T20, T21, T22, T23, T24, T25, T26, T27)) -> (T1, T2, T3, T4, T5, T6, T7, T8, T9, T10, T11, T12, T13, T14, T15, T16, T17, T18, T19, T20, T21, T22, T23, T24, T25, T26, T27) {
        (self.0, self.1, self.2, self.3, self.4, self.5, self.6, self.7, self.8, self.9, self.10, self.11, self.12, self.13, self.14, self.15, self.16, self.17, self.18, other.0, other.1, other.2, other.3, other.4, other.5, other.6, other.7)
    }

    fn join(self, other: (T20, T21, T22, T23, T24, T25, T26, T27)) -> (r: (T1, T2, T3, T4, T5, T6, T7, T8, T9, T10, T11, T12, T13, T14, T15, T16, T17, T18, T19, T20, T21, T22, T23, T24, T25, T26, T27)) {
        (self.0, self.1, self.2, self.3, self.4, self.5, self.6, self.7, self.8, self.9, self.10, self.11, self.12, self.13, self.14, self.15, self.16, self.17, self.18, other.0, other.1, other.2, other.3, other.4, other.5, other.6, other.7)
    }

    proof fn lemma_join_arity(self, other: (T20, T21, T22, T23, T24, T25, T26, T27)) {
    }
}

impl<T1, T2, T3, T4, T5, T6, T7, T8, T9, T10, T11, T12, T13, T14, T15, T16, T17, T18, T19, T20, T21, T22, T23, T24, T25, T26, T27> JoinableTuple<(T21, T22, T23, T24, T25, T26, T27)> for (T1, T2, T3, T4, T5, T6, T7, T8, T9, T10, T11, T12, T13, T14, T15, T16, T17, T18, T19, T20) {
    type Join = (T1, T2, T3, T4, T5, T6, T7, T8, T9, T10, T11, T12, T13, T14, T15, T16, T17, T18, T19, T20, T21, T22, T23, T24, T25, T26, T27);

    open spec fn spec_join(self, other: (T21, T22, T23, T24, T25, T26, T27)) -> (T1, T2, T3, T4, T5, T6, T7, T8, T9, T10, T11, T12, T13, T14, T15, T16, T17, T18, T19, T20, T21, T22, T23, T24, T25, T26, T27) {
        (self.0, self.1, self.2, self.3, self.4, self.5, self.6, self.7, self.8, self.9, self.10, self.11, self.12, self.13, self.14, self.15, self.16, self.17, self.18, self.19, other.0, other.1, other.2, other.3, other.4, other.5, other.6)
    }

    fn join(self, other: (T21, T22, T23, T24, T25, T26, T27)) -> (r: (T1, T2, T3, T4, T5, T6, T7, T8, T9, T10, T11, T12, T13, T14, T15, T16, T17, T18, T19, T20, T21, T22, T23, T24, T25, T26, T27)) {
        (self.0, self.1, self.2, self.3, self.4, self.5, self.6, self.7, self.8, self.9, self.10, self.11, self.12, self.13, self.14, self.15, self.16, self.17, self.18, self.19, other.0, other.1, other.2, other.3, other.4, other.5, other.6)
    }

    proof fn lemma_join_arity(self, other: (T21, T22, T23, T24, T25, T26, T27)) {
    }
}

impl<T1, T2, T3, T4, T5, T6, T7, T8, T9, T10, T11, T12, T13, T14, T15, T16, T17, T18, T19, T20, T21, T22, T23, T24, T25, T26, T27> JoinableTuple<(T22, T23, T24, T25, T26, T27)> for (T1, T2, T3, T4, T5, T6, T7, T8, T9, T10, T11, T12, T13, T14, T15, T16, T17, T18, T19, T20, T21) {
    type Join = (T1, T2, T3, T4, T5, T6, T7, T8, T9, T10, T11, T12, T13, T14, T15, T16, T17, T18, T19, T20, T21, T22, T23, T24, T25, T26, T27);

    open spec fn spec_join(self, other: (T22, T23, T24, T25, T26, T27)) -> (T1, T2, T3, T4, T5, T6, T7, T8, T9, T10, T11, T12, T13, T14, T15, T16, T17, T18, T19, T20, T21, T22, T23, T24, T25, T26, T27) {
        (self.0, self.1, self.2, self.3, self.4, self.5, self.6, self.7, self.8, self.9, self.10, self.11, self.12, self.13, self.14, self.15, self.16, self.17, self.18, self.19, self.20, other.0, other.1, other.2, other.3, other.4, other.5)
    }

    fn join(self, other: (T22, T23, T24, T25, T26, T27)) -> (r: (T1, T2, T3, T4, T5, T6, T7, T8, T9, T10, T11, T12, T13, T14, T15, T16, T17, T18, T19, T20, T21, T22, T23, T24, T25, T26, T27)) {
        (self.0, self.1, self.2, self.3, self.4, self.5, self.6, self.7, self.8, self.9, self.10, self.11, self.12, self.13, self.14, self.15, self.16, self.17, self.18, self.19, self.20, other.0, other.1, other.2, other.3, other.4, other.5)
    }

    proof fn lemma_join_arity(self, other: (T22, T23, T24, T25, T26, T27)) {
    }
}

impl<T1, T2, T3, T4, T5, T6, T7, T8, T9, T10, T11, T12, T13, T14, T15, T16, T17, T18, T19, T20, T21, T22, T23, T24, T25, T26, T27> JoinableTuple<(T23, T24, T25, T26, T27)> for (T1, T2, T3, T4, T5, T6, T7, T8, T9, T10, T11, T12, T13, T14, T15, T16, T17, T18, T19, T20, T21, T22) {
    type Join = (T1, T2, T3, T4, T5, T6, T7, T8, T9, T10, T11, T12, T13, T14, T15, T16, T17, T18, T19, T20, T21, T22, T23, T24, T25, T26, T27);

    open spec fn spec_join(self, other: (T23, T24, T25, T26, T27)) -> (T1, T2, T3, T4, T5, T6, T7, T8, T9, T10, T11, T12, T13, T14, T15, T16, T17, T18, T19, T20, T21, T22, T23, T24, T25, T26, T27) {
        (self.0, self.1, self.2, self.3, self.4, self.5, self.6, self.7, self.8, self.9, self.10, self.11, self.12, self.13, self.14, self.15, self.16, self.17, self.18, self.19, self.20, self.21, other.0, other.1, other.2, other.3, other.4)
    }

    fn join(self, other: (T23, T24, T25, T26, T27)) -> (r: (T1, T2, T3, T4, T5, T6, T7, T8, T9, T10, T11, T12, T13, T14, T15, T16, T17, T18, T19, T20, T21, T22, T23, T24, T25, T26, T27)) {
        (self.0, self.1, self.2, self.3, self.4, self.5, self.6, self.7, self.8, self.9, self.10, self.11, self.12, self.13, self.14, self.15, self.16, self.17, self.18, self.19, self.20, self.21, other.0, other.1, other.2, other.3, other.4)
    }

    proof fn lemma_join_arity(self, other: (T23, T24, T25, T26, T27)) {
    }
}

impl<T1, T2, T3, T4, T5, T6, T7, T8, T9, T10, T11, T12, T13, T14, T15, T16, T17, T18, T19, T20, T21, T22, T23, T24, T25, T26, T27> JoinableTuple<(T24, T25, T26, T27)> for (T1, T2, T3, T4, T5, T6, T7, T8, T9, T10, T11, T12, T13, T14, T15, T16, T17, T18, T19, T20, T21, T22, T23) {
    type Join = (T1, T2, T3, T4, T5, T6, T7, T8, T9, T10, T11, T12, T13, T14, T15, T16, T17, T18, T19, T20, T21, T22, T23, T24, T25, T26, T27);

    open spec fn spec_join(self, other: (T24, T25, T26, T27)) -> (T1, T2, T3, T4, T5, T6, T7, T8, T9, T10, T11, T12, T13, T14, T15, T16, T17, T18, T19, T20, T21, T22, T23, T24, T25, T26, T27) {
        (self.0, self.1, self.2, self.3, self.4, self.5, self.6, self.7, self.8, self.9, self.10, self.11, self.12, self.13, self.14, self.15, self.16, self.17, self.18, self.19, self.20, self.21, self.22, other.0, other.1, other.2, other.3)
    }

    fn join(self, other: (T24, T25, T26, T27)) -> (r: (T1, T2, T3, T4, T5, T6, T7, T8, T9, T10, T11, T12, T13, T14, T15, T16, T17, T18, T19, T20, T21, T22, T23, T24, T25, T26, T27)) {
        (self.0, self.1, self.2, self.3, self.4, self.5, self.6, self.7, self.8, self.9, self.10, self.11, self.12, self.13, self.14, self.15, self.16, self.17, self.18, self.19, self.20, self.21, self.22, other.0, other.1, other.2, other.3)
    }

    proof fn lemma_join_arity(self, other: (T24, T25, T26, T27)) {
    }
}

impl<T1, T2, T3, T4, T5, T6, T7, T8, T9, T10, T11, T12, T13, T14, T15, T16, T17, T18, T19, T20, T21, T22, T23, T24, T25, T26, T27> JoinableTuple<(T25, T26, T27)> for (T1, T2, T3, T4, T5, T6, T7, T8, T9, T10, T11, T12, T13, T14, T15, T16, T17, T18, T19, T20, T21, T22, T23, T24) {
    type Join = (T1, T2, T3, T4, T5, T6, T7, T8, T9, T10, T11, T12, T13, T14, T15, T16, T17, T18, T19, T20, T21, T22, T23, T24, T25, T26, T27);

    open spec fn spec_join(self, other: (T25, T26, T27)) -> (T1, T2, T3, T4, T5, T6, T7, T8, T9, T10, T11, T12, T13, T14, T15, T16, T17, T18, T19, T20, T21, T22, T23, T24, T25, T26, T27) {
        (self.0, self.1, self.2, self.3, self.4, self.5, self.6, self.7, self.8, self.9, self.10, self.11, self.12, self.13, self.14, self.15, self.16, self.17, self.18, self.19, self.20, self.21, self.22, self.23, other.0, other.1, other.2)
    }

    fn join(self, other: (T25, T26, T27)) -> (r: (T1, T2, T3, T4, T5, T6, T7, T8, T9, T10, T11, T12, T13, T14, T15, T16, T17, T18, T19, T20, T21, T22, T23, T24, T25, T26, T27)) {
        (self.0, self.1, self.2, self.3, self.4, self.5, self.6, self.7, self.8, self.9, self.10, self.11, self.12, self.13, self.14, self.15, self.16, self.17, self.18, self.19, self.20, self.21, self.22, self.23, other.0, other.1, other.2)
    }

    proof fn lemma_join_arity(self, other: (T25, T26, T27)) {
    }
}

impl<T1, T2, T3, T4, T5, T6, T7, T8, T9, T10, T11, T12, T13, T14, T15, T16, T17, T18, T19, T20, T21, T22, T23, T24, T25, T26, T27> JoinableTuple<(T26, T27)> for (T1, T2, T3, T4, T5, T6, T7, T8, T9, T10, T11, T12, T13, T14, T15, T16, T17, T18, T19, T20, T21, T22, T23, T24, T25) {
    type Join = (T1, T2, T3, T4, T5, T6, T7, T8, T9, T10, T11, T12, T13, T14, T15, T16, T17, T18, T19, T20, T21, T22, T23, T24, T25, T26, T27);

    open spec fn spec_join(self, other: (T26, T27)) -> (T1, T2, T3, T4, T5, T6, T7, T8, T9, T10, T11, T12, T13, T14, T15, T16, T17, T18, T19, T20, T21, T22, T23, T24, T25, T26, T27) {
        (self.0, self.1, self.2, self.3, self.4, self.5, self.6, self.7, self.8, self.9, self.10, self.11, self.12, self.13, self.14, self.15, self.16, self.17, self.18, self.19, self.20, self.21, self.22, self.23, self.24, other.0, other.1)
    }

    fn join(self, other: (T26, T27)) -> (r: (T1, T2, T3, T4, T5, T6, T7, T8, T9, T10, T11, T12, T13, T14, T15, T16, T17, T18, T19, T20, T21, T22, T23, T24, T25, T26, T27)) {
        (self.0, self.1, self.2, self.3, self.4, self.5, self.6, self.7, self.8, self.9, self.10, self.11, self.12, self.13, self.14, self.15, self.16, self.17, self.18, self.19, self.20, self.21, self.22, self.23, self.24, other.0, other.1)
    }

    proof fn lemma_join_arity(self, other: (T26, T27)) {
    }
}

impl<T1, T2, T3, T4, T5, T6, T7, T8, T9, T10, T11, T12, T13, T14, T15, T16, T17, T18, T19, T20, T21, T22, T23, T24, T25, T26, T27> JoinableTuple<(T27,)> for (T1, T2, T3, T4, T5, T6, T7, T8, T9, T10, T11, T12, T13, T14, T15, T16, T17, T18, T19, T20, T21, T22, T23, T24, T25, T26) {
    type Join = (T1, T2, T3, T4, T5, T6, T7, T8, T9, T10, T11, T12, T13, T14, T15, T16, T17, T18, T19, T20, T21, T22, T23, T24, T25, T26, T27);

    open spec fn spec_join(self, other: (T27,)) -> (T1, T2, T3, T4, T5, T6, T7, T8, T9, T10, T11, T12, T13, T14, T15, T16, T17, T18, T19, T20, T21, T22, T23, T24, T25, T26, T27) {
        (self.0, self.1, self.2, self.3, self.4, self.5, self.6, self.7, self.8, self.9, self.10, self.11, self.12, self.13, self.14, self.15, self.16, self.17, self.18, self.19, self.20, self.21, self.22, self.23, self.24, self.25, other.0)
    }

    fn join(self, other: (T27,)) -> (r: (T1, T2, T3, T4, T5, T6, T7, T8, T9, T10, T11, T12, T13, T14, T15, T16, T17, T18, T19, T20, T21, T22, T23, T24, T25, T26, T27)) {
        (self.0, self.1, self.2, self.3, self.4, self.5, self.6, self.7, self.8, self.9, self.10, self.11, self.12, self.13, self.14, self.15, self.16, self.17, self.18, self.19, self.20, self.21, self.22, self.23, self.24, self.25, other.0)
    }

    proof fn lemma_join_arity(self, other: (T27,)) {
    }
}

impl<T1, T2, T3, T4, T5, T6, T7, T8, T9, T10, T11, T12, T13, T14, T15, T16, T17, T18, T19, T20, T21, T22, T23, T24, T25, T26, T27> JoinableTuple<()> for (T1, T2, T3, T4, T5, T6, T7, T8, T9, T10, T11, T12, T13, T14, T15, T16, T17, T18, T19, T20, T21, T22, T23, T24, T25, T26, T27) {
    type Join = (T1, T2, T3, T4, T5, T6, T7, T8, T9, T10, T11, T12, T13, T14, T15, T16, T17, T18, T19, T20, T21, T22, T23, T24, T25, T26, T27);

    open spec fn spec_join(self, other: ()) -> (T1, T2, T3, T4, T5, T6, T7, T8, T9, T10, T11, T12, T13, T14, T15, T16, T17, T18, T19, T20, T21, T22, T23, T24, T25, T26, T27) {
        (self.0, self.1, self.2, self.3, self.4, self.5, self.6, self.7, self.8, self.9, self.10, self.11, self.12, self.13, self.14, self.15, self.16, self.17, self.18, self.19, self.20, self.21, self.22, self.23, self.24, self.25, self.26)
    }

    fn join(self, other: ()) -> (r: (T1, T2, T3, T4, T5, T6, T7, T8, T9, T10, T11, T12, T13, T14, T15, T16, T17, T18, T19, T20, T21, T22, T23, T24, T25, T26, T27)) {
        (self.0, self.1, self.2, self.3, self.4, self.5, self.6, self.7, self.8, self.9, self.10, self.11, self.12, self.13, self.14, self.15, self.16, self.17, self.18, self.19, self.20, self.21, self.22, self.23, self.24, self.25, self.26)
    }

    proof fn lemma_join_arity(self, other: ()) {
    }
}

impl<T1, T2, T3, T4, T5, T6, T7, T8, T9, T10, T11, T12, T13, T14, T15, T16, T17, T18, T19, T20, T21, T22, T23, T24, T25, T26, T27, T28> Sealed for (T1, T2, T3, T4, T5, T6, T7, T8, T9, T10, T11, T12, T13, T14, T15, T16, T17, T18, T19, T20, T21, T22, T23, T24, T25, T26, T27, T28) {}

impl<T1, T2, T3, T4, T5, T6, T7, T8, T9, T10, T11, T12, T13, T14, T15, T16, T17, T18, T19, T20, T21, T22, T23, T24, T25, T26, T27, T28> DynTuple for (T1, T2, T3, T4, T5, T6, T7, T8, T9, T10, T11, T12, T13, T14, T15, T16, T17, T18, T19, T20, T21, T22, T23, T24, T25, T26, T27, T28) {
    open spec fn spec_arity(&self) -> nat {
        28
    }

    fn arity(&self) -> (r: usize) {
        28
    }
}

impl<T1, T2, T3, T4, T5, T6, T7, T8, T9, T10, T11, T12, T13, T14, T15, T16, T17, T18, T19, T20, T21, T22, T23, T24, T25, T26, T27, T28> Tuple for (T1, T2, T3, T4, T5, T6, T7, T8, T9, T10, T11, T12, T13, T14, T15, T16, T17, T18, T19, T20, T21, T22, T23, T24, T25, T26, T27, T28) {
    const ARITY: usize = 28;

    open spec fn spec_type_arity() -> nat {
        28
    }

    proof fn lemma_arity(&self) {
    }

    proof fn lemma_type_arity() {
    }
}

impl<T1, T2, T3, T4, T5, T6, T7, T8, T9, T10, T11, T12, T13, T14, T15, T16, T17, T18, T19, T20, T21, T22, T23, T24, T25, T26, T27, T28, T> GrowableTuple<T> for (T1, T2, T3, T4, T5, T6, T7, T8, T9, T10, T11, T12, T13, T14, T15, T16, T17, T18, T19, T20, T21, T22, T23, T24, T25, T26, T27, T28) {
    type Append = (T1, T2, T3, T4, T5, T6, T7, T8, T9, T10, T11, T12, T13, T14, T15, T16, T17, T18, T19, T20, T21, T22, T23, T24, T25, T26, T27, T28, T);

    type Prepend = (T, T1, T2, T3, T4, T5, T6, T7, T8, T9, T10, T11, T12, T13, T14, T15, T16, T17, T18, T19, T20, T21, T22, T23, T24, T25, T26, T27, T28);

    open spec fn spec_append(self, value: T) -> (T1, T2, T3, T4, T5, T6, T7, T8, T9, T10, T11, T12, T13, T14, T15, T16, T17, T18, T19, T20, T21, T22, T23, T24, T25, T26, T27, T28, T) {
        (self.0, self.1, self.2, self.3, self.4, self.5, self.6, self.7, self.8, self.9, self.10, self.11, self.12, self.13, self.14, self.15, self.16, self.17, self.18, self.19, self.20, self.21, self.22, self.23, self.24, self.25, self.26, self.27, value)
    }

    open spec fn spec_prepend(self, value: T) -> (T, T1, T2, T3, T4, T5, T6, T7, T8, T9, T10, T11, T12, T13, T14, T15, T16, T17, T18, T19, T20, T21, T22, T23, T24, T25, T26, T27, T28) {
        (value, self.0, self.1, self.2, self.3, self.4, self.5, self.6, self.7, self.8, self.9, self.10, self.11, self.12, self.13, self.14, self.15, self.16, self.17, self.18, self.19, self.20, self.21, self.22, self.23, self.24, self.25, self.26, self.27)
    }

    fn append(self, value: T) -> (r: (T1, T2, T3, T4, T5, T6, T7, T8, T9, T10, T11, T12, T13, T14, T15, T16, T17, T18, T19, T20, T21, T22, T23, T24, T25, T26, T27, T28, T)) {
        (self.0, self.1, self.2, self.3, self.4, self.5, self.6, self.7, self.8, self.9, self.10, self.11, self.12, self.13, self.14, self.15, self.16, self.17, self.18, self.19, self.20, self.21, self.22, self.23, self.24, self.25, self.26, self.27, value)
    }

    fn prepend(self, value: T) -> (r: (T, T1, T2, T3, T4, T5, T6, T7, T8, T9, T10, T11, T12, T13, T14, T15, T16, T17, T18, T19, T20, T21, T22, T23, T24, T25, T26, T27, T28)) {
        (value, self.0, self.1, self.2, self.3, self.4, self.5, self.6, self.7, self.8, self.9, self.10, self.11, self.12, self.13, self.14, self.15, self.16, self.17, self.18, self.19, self.20, self.21, self.22, self.23, self.24, self.25, self.26, self.27)
    }

    proof fn lemma_grow_arity(self, value: T) {
    }
}

impl<T1, T2, T3, T4, T5, T6, T7, T8, T9, T10, T11, T12, T13, T14, T15, T16, T17, T18, T19, T20, T21, T22, T23, T24, T25, T26, T27, T28> NonEmptyTuple for (T1, T2, T3, T4, T5, T6, T7, T8, T9, T10, T11, T12, T13, T14, T15, T16, T17, T18, T19, T20, T21, T22, T23, T24, T25, T26, T27, T28) {
    type Head = T1;

    type Tail = T28;

    type TruncateHead = (T2, T3, T4, T5, T6, T7, T8, T9, T10, T11, T12, T13, T14, T15, T16, T17, T18, T19, T20, T21, T22, T23, T24, T25, T26, T27, T28);

    type TruncateTail = (T1, T2, T3, T4, T5, T6, T7, T8, T9, T10, T11, T12, T13, T14, T15, T16, T17, T18, T19, T20, T21, T22, T23, T24, T25, T26, T27);

    open spec fn spec_head(&self) -> T1 {
        self.0
    }

    open spec fn spec_tail(&self) -> T28 {
        self.27
    }

    open spec fn spec_with_head(self, value: T1) -> (T1, T2, T3, T4, T5, T6, T7, T8, T9, T10, T11, T12, T13, T14, T15, T16, T17, T18, T19, T20, T21, T22, T23, T24, T25, T26, T27, T28) {
        (value, self.1, self.2, self.3, self.4, self.5, self.6, self.7, self.8, self.9, self.10, self.11, self.12, self.13, self.14, self.15, self.16, self.17, self.18, self.19, self.20, self.21, self.22, self.23, self.24, self.25, self.26, self.27)
    }

    open spec fn spec_with_tail(self, value: T28) -> (T1, T2, T3, T4, T5, T6, T7, T8, T9, T10, T11, T12, T13, T14, T15, T16, T17, T18, T19, T20, T21, T22, T23, T24, T25, T26, T27, T28) {
        (self.0, self.1, self.2, self.3, self.4, self.5, self.6, self.7, self.8, self.9, self.10, self.11, self.12, self.13, self.14, self.15, self.16, self.17, self.18, self.19, self.20, self.21, self.22, self.23, self.24, self.25, self.26, value)
    }

    open spec fn spec_truncate_head(self) -> (T1, (T2, T3, T4, T5, T6, T7, T8, T9, T10, T11, T12, T13, T14, T15, T16, T17, T18, T19, T20, T21, T22, T23, T24, T25, T26, T27, T28)) {
        (self.0, (self.1, self.2, self.3, self.4, self.5, self.6, self.7, self.8, self.9, self.10, self.11, self.12, self.13, self.14, self.15, self.16, self.17, self.18, self.19, self.20, self.21, self.22, self.23, self.24, self.25, self.26, self.27))
    }

    open spec fn spec_truncate_tail(self) -> ((T1, T2, T3, T4, T5, T6, T7, T8, T9, T10, T11, T12, T13, T14, T15, T16, T17, T18, T19, T20, T21, T22, T23, T24, T25, T26, T27), T28) {
        ((self.0, self.1, self.2, self.3, self.4, self.5, self.6, self.7, self.8, self.9, self.10, self.11, self.12, self.13, self.14, self.15, self.16, self.17, self.18, self.19, self.20, self.21, self.22, self.23, self.24, self.25, self.26), self.27)
    }

    fn head(&self) -> (r: &T1) {
        &self.0
    }

    fn head_mut(&mut self) -> (r: &mut T1) {
        &mut self.0
    }

    fn tail(&self) -> (r: &T28) {
        &self.27
    }

    fn tail_mut(&mut self) -> (r: &mut T28) {
        &mut self.27
    }

    fn truncate_head(self) -> (r: (T1, (T2, T3, T4, T5, T6, T7, T8, T9, T10, T11, T12, T13, T14, T15, T16, T17, T18, T19, T20, T21, T22, T23, T24, T25, T26, T27, T28))) {
        (self.0, (self.1, self.2, self.3, self.4, self.5, self.6, self.7, self.8, self.9, self.10, self.11, self.12, self.13, self.14, self.15, self.16, self.17, self.18, self.19, self.20, self.21, self.22, self.23, self.24, self.25, self.26, self.27))
    }

    fn truncate_tail(self) -> (r: ((T1, T2, T3, T4, T5, T6, T7, T8, T9, T10, T11, T12, T13, T14, T15, T16, T17, T18, T19, T20, T21, T22, T23, T24, T25, T26, T27), T28)) {
        ((self.0, self.1, self.2, self.3, self.4, self.5, self.6, self.7, self.8, self.9, self.10, self.11, self.12, self.13, self.14, self.15, self.16, self.17, self.18, self.19, self.20, self.21, self.22, self.23, self.24, self.25, self.26), self.27)
    }

    proof fn lemma_truncate_head(self) {
    }

    proof fn lemma_truncate_tail(self) {
    }
}

impl<T1, T2, T3, T4, T5, T6, T7, T8, T9, T10, T11, T12, T13, T14, T15, T16, T17, T18, T19, T20, T21, T22, T23, T24, T25, T26, T27, T28> NonUnaryTuple for (T1, T2, T3, T4, T5, T6, T7, T8, T9, T10, T11, T12, T13, T14, T15, T16, T17, T18, T19, T20, T21, T22, T23, T24, T25, T26, T27, T28) {
    type TruncateHeadTail = (T2, T3, T4, T5, T6, T7, T8, T9, T10, T11, T12, T13, T14, T15, T16, T17, T18, T19, T20, T21, T22, T23, T24, T25, T26, T27);

    open spec fn spec_truncate_head_tail(self) -> (T1, (T2, T3, T4, T5, T6, T7, T8, T9, T10, T11, T12, T13, T14, T15, T16, T17, T18, T19, T20, T21, T22, T23, T24, T25, T26, T27), T28) {
        (self.0, (self.1, self.2, self.3, self.4, self.5, self.6, self.7, self.8, self.9, self.10, self.11, self.12, self.13, self.14, self.15, self.16, self.17, self.18, self.19, self.20, self.21, self.22, self.23, self.24, self.25, self.26), self.27)
    }

    fn head_tail(&self) -> (r: (&T1, &T28)) {
        (&self.0, &self.27)
    }

    fn head_tail_mut(&mut self) -> (r: (&mut T1, &mut T28)) {
        (&mut self.0, &mut self.27)
    }

    fn truncate_head_tail(self) -> (r: (T1, (T2, T3, T4, T5, T6, T7, T8, T9, T10, T11, T12, T13, T14, T15, T16, T17, T18, T19, T20, T21, T22, T23, T24, T25, T26, T27), T28)) {
        (self.0, (self.1, self.2, self.3, self.4, self.5, self.6, self.7, self.8, self.9, self.10, self.11, self.12, self.13, self.14, self.15, self.16, self.17, self.18, self.19, self.20, self.21, self.22, self.23, self.24, self.25, self.26), self.27)
    }

    proof fn lemma_truncate_head_tail(self) {
    }
}

impl<T1, T2, T3, T4, T5, T6, T7, T8, T9, T10, T11, T12, T13, T14, T15, T16, T17, T18, T19, T20, T21, T22, T23, T24, T25, T26, T27, T28> IndexableTuple<0> for (T1, T2, T3, T4, T5, T6, T7, T8, T9, T10, T11, T12, T13, T14, T15, T16, T17, T18, T19, T20, T21, T22, T23, T24, T25, T26, T27, T28) {
    type Value = T1;

    open spec fn spec_index(&self) -> T1 {
        self.0
    }

    open spec fn spec_with_index(self, value: T1) -> (T1, T2, T3, T4, T5, T6, T7, T8, T9, T10, T11, T12, T13, T14, T15, T16, T17, T18, T19, T20, T21, T22, T23, T24, T25, T26, T27, T28) {
        (value, self.1, self.2, self.3, self.4, self.5, self.6, self.7, self.8, self.9, self.10, self.11, self.12, self.13, self.14, self.15, self.16, self.17, self.18, self.19, self.20, self.21, self.22, self.23, self.24, self.25, self.26, self.27)
    }

    fn index_ref(&self) -> (r: &T1) {
        &self.0
    }

    fn index_mut(&mut self) -> (r: &mut T1) {
        &mut self.0
    }

    fn into_index(self) -> (r: T1) {
        self.0
    }

    proof fn lemma_index_in_range(&self) {
    }
}

impl<T1, T2, T3, T4, T5, T6, T7, T8, T9, T10, T11, T12, T13, T14, T15, T16, T17, T18, T19, T20, T21, T22, T23, T24, T25, T26, T27, T28> IndexableTuple<1> for (T1, T2, T3, T4, T5, T6, T7, T8, T9, T10, T11, T12, T13, T14, T15, T16, T17, T18, T19, T20, T21, T22, T23, T24, T25, T26, T27, T28) {
    type Value = T2;

    open spec fn spec_index(&self) -> T2 {
        self.1
    }

    open spec fn spec_with_index(self, value: T2) -> (T1, T2, T3, T4, T5, T6, T7, T8, T9, T10, T11, T12, T13, T14, T15, T16, T17, T18, T19, T20, T21, T22, T23, T24, T25, T26, T27, T28) {
        (self.0, value, self.2, self.3, self.4, self.5, self.6, self.7, self.8, self.9, self.10, self.11, self.12, self.13, self.14, self.15, self.16, self.17, self.18, self.19, self.20, self.21, self.22, self.23, self.24, self.25, self.26, self.27)
    }

    fn index_ref(&self) -> (r: &T2) {
        &self.1
    }

    fn index_mut(&mut self) -> (r: &mut T2) {
        &mut self.1
    }

    fn into_index(self) -> (r: T2) {
        self.1
    }

    proof fn lemma_index_in_range(&self) {
    }
}

impl<T1, T2, T3, T4, T5, T6, T7, T8, T9, T10, T11, T12, T13, T14, T15, T16, T17, T18, T19, T20, T21, T22, T23, T24, T25, T26, T27, T28> IndexableTuple<2> for (T1, T2, T3, T4, T5, T6, T7, T8, T9, T10, T11, T12, T13, T14, T15, T16, T17, T18, T19, T20, T21, T22, T23, T24, T25, T26, T27, T28) {
    type Value = T3;

    open spec fn spec_index(&self) -> T3 {
        self.2
    }

    open spec fn spec_with_index(self, value: T3) -> (T1, T2, T3, T4, T5, T6, T7, T8, T9, T10, T11, T12, T13, T14, T15, T16, T17, T18, T19, T20, T21, T22, T23, T24, T25, T26, T27, T28) {
        (self.0, self.1, value, self.3, self.4, self.5, self.6, self.7, self.8, self.9, self.10, self.11, self.12, self.13, self.14, self.15, self.16, self.17, self.18, self.19, self.20, self.21, self.22, self.23, self.24, self.25, self.26, self.27)
    }

    fn index_ref(&self) -> (r: &T3) {
        &self.2
    }

    fn index_mut(&mut self) -> (r: &mut T3) {
        &mut self.2
    }

    fn into_index(self) -> (r: T3) {
        self.2
    }

    proof fn lemma_index_in_range(&self) {
    }
}

impl<T1, T2, T3, T4, T5, T6, T7, T8, T9, T10, T11, T12, T13, T14, T15, T16, T17, T18, T19, T20, T21, T22, T23, T24, T25, T26, T27, T28> IndexableTuple<3> for (T1, T2, T3, T4, T5, T6, T7, T8, T9, T10, T11, T12, T13, T14, T15, T16, T17, T18, T19, T20, T21, T22, T23, T24, T25, T26, T27, T28) {
    type Value = T4;

    open spec fn spec_index(&self) -> T4 {
        self.3
    }

    open spec fn spec_with_index(self, value: T4) -> (T1, T2, T3, T4, T5, T6, T7, T8, T9, T10, T11, T12, T13, T14, T15, T16, T17, T18, T19, T20, T21, T22, T23, T24, T25, T26, T27, T28) {
        (self.0, self.1, self.2, value, self.4, self.5, self.6, self.7, self.8, self.9, self.10, self.11, self.12, self.13, self.14, self.15, self.16, self.17, self.18, self.19, self.20, self.21, self.22, self.23, self.24, self.25, self.26, self.27)
    }

    fn index_ref(&self) -> (r: &T4) {
        &self.3
    }

    fn index_mut(&mut self) -> (r: &mut T4) {
        &mut self.3
    }

    fn into_index(self) -> (r: T4) {
        self.3
    }

    proof fn lemma_index_in_range(&self) {
    }
}

impl<T1, T2, T3, T4, T5, T6, T7, T8, T9, T10, T11, T12, T13, T14, T15, T16, T17, T18, T19, T20, T21, T22, T23, T24, T25, T26, T27, T28> IndexableTuple<4> for (T1, T2, T3, T4, T5, T6, T7, T8, T9, T10, T11, T12, T13, T14, T15, T16, T17, T18, T19, T20, T21, T22, T23, T24, T25, T26, T27, T28) {
    type Value = T5;

    open spec fn spec_index(&self) -> T5 {
        self.4
    }

    open spec fn spec_with_index(self, value: T5) -> (T1, T2, T3, T4, T5, T6, T7, T8, T9, T10, T11, T12, T13, T14, T15, T16, T17, T18, T19, T20, T21, T22, T23, T24, T25, T26, T27, T28) {
        (self.0, self.1, self.2, self.3, value, self.5, self.6, self.7, self.8, self.9, self.10, self.11, self.12, self.13, self.14, self.15, self.16, self.17, self.18, self.19, self.20, self.21, self.22, self.23, self.24, self.25, self.26, self.27)
    }

    fn index_ref(&self) -> (r: &T5) {
        &self.4
    }

    fn index_mut(&mut self) -> (r: &mut T5) {
        &mut self.4
    }

    fn into_index(self) -> (r: T5) {
        self.4
    }

    proof fn lemma_index_in_range(&self) {
    }
}

impl<T1, T2, T3, T4, T5, T6, T7, T8, T9, T10, T11, T12, T13, T14, T15, T16, T17, T18, T19, T20, T21, T22, T23, T24, T25, T26, T27, T28> IndexableTuple<5> for (T1, T2, T3, T4, T5, T6, T7, T8, T9, T10, T11, T12, T13, T14, T15, T16, T17, T18, T19, T20, T21, T22, T23, T24, T25, T26, T27, T28) {
    type Value = T6;

    open spec fn spec_index(&self) -> T6 {
        self.5
    }

    open spec fn spec_with_index(self, value: T6) -> (T1, T2, T3, T4, T5, T6, T7, T8, T9, T10, T11, T12, T13, T14, T15, T16, T17, T18, T19, T20, T21, T22, T23, T24, T25, T26, T27, T28) {
        (self.0, self.1, self.2, self.3, self.4, value, self.6, self.7, self.8, self.9, self.10, self.11, self.12, self.13, self.14, self.15, self.16, self.17, self.18, self.19, self.20, self.21, self.22, self.23, self.24, self.25, self.26, self.27)
    }

    fn index_ref(&self) -> (r: &T6) {
        &self.5
    }

    fn index_mut(&mut self) -> (r: &mut T6) {
        &mut self.5
    }

    fn into_index(self) -> (r: T6) {
        self.5
    }

    proof fn lemma_index_in_range(&self) {
    }
}

impl<T1, T2, T3, T4, T5, T6, T7, T8, T9, T10, T11, T12, T13, T14, T15, T16, T17, T18, T19, T20, T21, T22, T23, T24, T25, T26, T27, T28> IndexableTuple<6> for (T1, T2, T3, T4, T5, T6, T7, T8, T9, T10, T11, T12, T13, T14, T15, T16, T17, T18, T19, T20, T21, T22, T23, T24, T25, T26, T27, T28) {
    type Value = T7;

    open spec fn spec_index(&self) -> T7 {
        self.6
    }

    open spec fn spec_with_index(self, value: T7) -> (T1, T2, T3, T4, T5, T6, T7, T8, T9, T10, T11, T12, T13, T14, T15, T16, T17, T18, T19, T20, T21, T22, T23, T24, T25, T26, T27, T28) {
        (self.0, self.1, self.2, self.3, self.4, self.5, value, self.7, self.8, self.9, self.10, self.11, self.12, self.13, self.14, self.15, self.16, self.17, self.18, self.19, self.20, self.21, self.22, self.23, self.24, self.25, self.26, self.27)
    }

    fn index_ref(&self) -> (r: &T7) {
        &self.6
    }

    fn index_mut(&mut self) -> (r: &mut T7) {
        &mut self.6
    }

    fn into_index(self) -> (r: T7) {
        self.6
    }

    proof fn lemma_index_in_range(&self) {
    }
}

impl<T1, T2, T3, T4, T5, T6, T7, T8, T9, T10, T11, T12, T13, T14, T15, T16, T17, T18, T19, T20, T21, T22, T23, T24, T25, T26, T27, T28> IndexableTuple<7> for (T1, T2, T3, T4, T5, T6, T7, T8, T9, T10, T11, T12, T13, T14, T15, T16, T17, T18, T19, T20, T21, T22, T23, T24, T25, T26, T27, T28) {
    type Value = T8;

    open spec fn spec_index(&self) -> T8 {
        self.7
    }

    open spec fn spec_with_index(self, value: T8) -> (T1, T2, T3, T4, T5, T6, T7, T8, T9, T10, T11, T12, T13, T14, T15, T16, T17, T18, T19, T20, T21, T22, T23, T24, T25, T26, T27, T28) {
        (self.0, self.1, self.2, self.3, self.4, self.5, self.6, value, self.8, self.9, self.10, self.11, self.12, self.13, self.14, self.15, self.16, self.17, self.18, self.19, self.20, self.21, self.22, self.23, self.24, self.25, self.26, self.27)
    }

    fn index_ref(&self) -> (r: &T8) {
        &self.7
    }

    fn index_mut(&mut self) -> (r: &mut T8) {
        &mut self.7
    }

    fn into_index(self) -> (r: T8) {
        self.7
    }

    proof fn lemma_index_in_range(&self) {
    }
}

impl<T1, T2, T3, T4, T5, T6, T7, T8, T9, T10, T11, T12, T13, T14, T15, T16, T17, T18, T19, T20, T21, T22, T23, T24, T25, T26, T27, T28> IndexableTuple<8> for (T1, T2, T3, T4, T5, T6, T7, T8, T9, T10, T11, T12, T13, T14, T15, T16, T17, T18, T19, T20, T21, T22, T23, T24, T25, T26, T27, T28) {
    type Value = T9;

    open spec fn spec_index(&self) -> T9 {
        self.8
    }

    open spec fn spec_with_index(self, value: T9) -> (T1, T2, T3, T4, T5, T6, T7, T8, T9, T10, T11, T12, T13, T14, T15, T16, T17, T18, T19, T20, T21, T22, T23, T24, T25, T26, T27, T28) {
        (self.0, self.1, self.2, self.3, self.4, self.5, self.6, self.7, value, self.9, self.10, self.11, self.12, self.13, self.14, self.15, self.16, self.17, self.18, self.19, self.20, self.21, self.22, self.23, self.24, self.25, self.26, self.27)
    }

    fn index_ref(&self) -> (r: &T9) {
        &self.8
    }

    fn index_mut(&mut self) -> (r: &mut T9) {
        &mut self.8
    }

    fn into_index(self) -> (r: T9) {
        self.8
    }

    proof fn lemma_index_in_range(&self) {
    }
}

impl<T1, T2, T3, T4, T5, T6, T7, T8, T9, T10, T11, T12, T13, T14, T15, T16, T17, T18, T19, T20, T21, T22, T23, T24, T25, T26, T27, T28> IndexableTuple<9> for (T1, T2, T3, T4, T5, T6, T7, T8, T9, T10, T11, T12, T13, T14, T15, T16, T17, T18, T19, T20, T21, T22, T23, T24, T25, T26, T27, T28) {
    type Value = T10;

    open spec fn spec_index(&self) -> T10 {
        self.9
    }

    open spec fn spec_with_index(self, value: T10) -> (T1, T2, T3, T4, T5, T6, T7, T8, T9, T10, T11, T12, T13, T14, T15, T16, T17, T18, T19, T20, T21, T22, T23, T24, T25, T26, T27, T28) {
        (self.0, self.1, self.2, self.3, self.4, self.5, self.6, self.7, self.8, value, self.10, self.11, self.12, self.13, self.14, self.15, self.16, self.17, self.18, self.19, self.20, self.21, self.22, self.23, self.24, self.25, self.26, self.27)
    }

    fn index_ref(&self) -> (r: &T10) {
        &self.9
    }

    fn index_mut(&mut self) -> (r: &mut T10) {
        &mut self.9
    }

    fn into_index(self) -> (r: T10) {
        self.9
    }

    proof fn lemma_index_in_range(&self) {
    }
}

impl<T1, T2, T3, T4, T5, T6, T7, T8, T9, T10, T11, T12, T13, T14, T15, T16, T17, T18, T19, T20, T21, T22, T23, T24, T25, T26, T27, T28> IndexableTuple<10> for (T1, T2, T3, T4, T5, T6, T7, T8, T9, T10, T11, T12, T13, T14, T15, T16, T17, T18, T19, T20, T21, T22, T23, T24, T25, T26, T27, T28) {
    type Value = T11;

    open spec fn spec_index(&self) -> T11 {
        self.10
    }

    open spec fn spec_with_index(self, value: T11) -> (T1, T2, T3, T4, T5, T6, T7, T8, T9, T10, T11, T12, T13, T14, T15, T16, T17, T18, T19, T20, T21, T22, T23, T24, T25, T26, T27, T28) {
        (self.0, self.1, self.2, self.3, self.4, self.5, self.6, self.7, self.8, self.9, value, self.11, self.12, self.13, self.14, self.15, self.16, self.17, self.18, self.19, self.20, self.21, self.22, self.23, self.24, self.25, self.26, self.27)
    }

    fn index_ref(&self) -> (r: &T11) {
        &self.10
    }

    fn index_mut(&mut self) -> (r: &mut T11) {
        &mut self.10
    }

    fn into_index(self) -> (r: T11) {
        self.10
    }

    proof fn lemma_index_in_range(&self) {
    }
}

impl<T1, T2, T3, T4, T5, T6, T7, T8, T9, T10, T11, T12, T13, T14, T15, T16, T17, T18, T19, T20, T21, T22, T23, T24, T25, T26, T27, T28> IndexableTuple<11> for (T1, T2, T3, T4, T5, T6, T7, T8, T9, T10, T11, T12, T13, T14, T15, T16, T17, T18, T19, T20, T21, T22, T23, T24, T25, T26, T27, T28) {
    type Value = T12;

    open spec fn spec_index(&self) -> T12 {
        self.11
    }

    open spec fn spec_with_index(self, value: T12) -> (T1, T2, T3, T4, T5, T6, T7, T8, T9, T10, T11, T12, T13, T14, T15, T16, T17, T18, T19, T20, T21, T22, T23, T24, T25, T26, T27, T28) {
        (self.0, self.1, self.2, self.3, self.4, self.5, self.6, self.7, self.8, self.9, self.10, value, self.12, self.13, self.14, self.15, self.16, self.17, self.18, self.19, self.20, self.21, self.22, self.23, self.24, self.25, self.26, self.27)
    }

    fn index_ref(&self) -> (r: &T12) {
        &self.11
    }

    fn index_mut(&mut self) -> (r: &mut T12) {
        &mut self.11
    }

    fn into_index(self) -> (r: T12) {
        self.11
    }

    proof fn lemma_index_in_range(&self) {
    }
}

impl<T1, T2, T3, T4, T5, T6, T7, T8, T9, T10, T11, T12, T13, T14, T15, T16, T17, T18, T19, T20, T21, T22, T23, T24, T25, T26, T27, T28> IndexableTuple<12> for (T1, T2, T3, T4, T5, T6, T7, T8, T9, T10, T11, T12, T13, T14, T15, T16, T17, T18, T19, T20, T21, T22, T23, T24, T25, T26, T27, T28) {
    type Value = T13;

    open spec fn spec_index(&self) -> T13 {
        self.12
    }

    open spec fn spec_with_index(self, value: T13) -> (T1, T2, T3, T4, T5, T6, T7, T8, T9, T10, T11, T12, T13, T14, T15, T16, T17, T18, T19, T20, T21, T22, T23, T24, T25, T26, T27, T28) {
        (self.0, self.1, self.2, self.3, self.4, self.5, self.6, self.7, self.8, self.9, self.10, self.11, value, self.13, self.14, self.15, self.16, self.17, self.18, self.19, self.20, self.21, self.22, self.23, self.24, self.25, self.26, self.27)
    }

    fn index_ref(&self) -> (r: &T13) {
        &self.12
    }

    fn index_mut(&mut self) -> (r: &mut T13) {
        &mut self.12
    }

    fn into_index(self) -> (r: T13) {
        self.12
    }

    proof fn lemma_index_in_range(&self) {
    }
}

impl<T1, T2, T3, T4, T5, T6, T7, T8, T9, T10, T11, T12, T13, T14, T15, T16, T17, T18, T19, T20, T21, T22, T23, T24, T25, T26, T27, T28> IndexableTuple<13> for (T1, T2, T3, T4, T5, T6, T7, T8, T9, T10, T11, T12, T13, T14, T15, T16, T17, T18, T19, T20, T21, T22, T23, T24, T25, T26, T27, T28) {
    type Value = T14;

    open spec fn spec_index(&self) -> T14 {
        self.13
    }

    open spec fn spec_with_index(self, value: T14) -> (T1, T2, T3, T4, T5, T6, T7, T8, T9, T10, T11, T12, T13, T14, T15, T16, T17, T18, T19, T20, T21, T22, T23, T24, T25, T26, T27, T28) {
        (self.0, self.1, self.2, self.3, self.4, self.5, self.6, self.7, self.8, self.9, self.10, self.11, self.12, value, self.14, self.15, self.16, self.17, self.18, self.19, self.20, self.21, self.22, self.23, self.24, self.25, self.26, self.27)
    }

    fn index_ref(&self) -> (r: &T14) {
        &self.13
    }

    fn index_mut(&mut self) -> (r: &mut T14) {
        &mut self.13
    }

    fn into_index(self) -> (r: T14) {
        self.13
    }

    proof fn lemma_index_in_range(&self) {
    }
}

impl<T1, T2, T3, T4, T5, T6, T7, T8, T9, T10, T11, T12, T13, T14, T15, T16, T17, T18, T19, T20, T21, T22, T23, T24, T25, T26, T27, T28> IndexableTuple<14> for (T1, T2, T3, T4, T5, T6, T7, T8, T9, T10, T11, T12, T13, T14, T15, T16, T17, T18, T19, T20, T21, T22, T23, T24, T25, T26, T27, T28) {
    type Value = T15;

    open spec fn spec_index(&self) -> T15 {
        self.14
    }

    open spec fn spec_with_index(self, value: T15) -> (T1, T2, T3, T4, T5, T6, T7, T8, T9, T10, T11, T12, T13, T14, T15, T16, T17, T18, T19, T20, T21, T22, T23, T24, T25, T26, T27, T28) {
        (self.0, self.1, self.2, self.3, self.4, self.5, self.6, self.7, self.8, self.9, self.10, self.11, self.12, self.13, value, self.15, self.16, self.17, self.18, self.19, self.20, self.21, self.22, self.23, self.24, self.25, self.26, self.27)
    }

    fn index_ref(&self) -> (r: &T15) {
        &self.14
    }

    fn index_mut(&mut self) -> (r: &mut T15) {
        &mut self.14
    }

    fn into_index(self) -> (r: T15) {
        self.14
    }

    proof fn lemma_index_in_range(&self) {
    }
}

impl<T1, T2, T3, T4, T5, T6, T7, T8, T9, T10, T11, T12, T13, T14, T15, T16, T17, T18, T19, T20, T21, T22, T23, T24, T25, T26, T27, T28> IndexableTuple<15> for (T1, T2, T3, T4, T5, T6, T7, T8, T9, T10, T11, T12, T13, T14, T15, T16, T17, T18, T19, T20, T21, T22, T23, T24, T25, T26, T27, T28) {
    type Value = T16;

    open spec fn spec_index(&self) -> T16 {
        self.15
    }

    open spec fn spec_with_index(self, value: T16) -> (T1, T2, T3, T4, T5, T6, T7, T8, T9, T10, T11, T12, T13, T14, T15, T16, T17, T18, T19, T20, T21, T22, T23, T24, T25, T26, T27, T28) {
        (self.0, self.1, self.2, self.3, self.4, self.5, self.6, self.7, self.8, self.9, self.10, self.11, self.12, self.13, self.14, value, self.16, self.17, self.18, self.19, self.20, self.21, self.22, self.23, self.24, self.25, self.26, self.27)
    }

    fn index_ref(&self) -> (r: &T16) {
        &self.15
    }

    fn index_mut(&mut self) -> (r: &mut T16) {
        &mut self.15
    }

    fn into_index(self) -> (r: T16) {
        self.15
    }

    proof fn lemma_index_in_range(&self) {
    }
}

impl<T1, T2, T3, T4, T5, T6, T7, T8, T9, T10, T11, T12, T13, T14, T15, T16, T17, T18, T19, T20, T21, T22, T23, T24, T25, T26, T27, T28> IndexableTuple<16> for (T1, T2, T3, T4, T5, T6, T7, T8, T9, T10, T11, T12, T13, T14, T15, T16, T17, T18, T19, T20, T21, T22, T23, T24, T25, T26, T27, T28) {
    type Value = T17;

    open spec fn spec_index(&self) -> T17 {
        self.16
    }

    open spec fn spec_with_index(self, value: T17) -> (T1, T2, T3, T4, T5, T6, T7, T8, T9, T10, T11, T12, T13, T14, T15, T16, T17, T18, T19, T20, T21, T22, T23, T24, T25, T26, T27, T28) {
        (self.0, self.1, self.2, self.3, self.4, self.5, self.6, self.7, self.8, self.9, self.10, self.11, self.12, self.13, self.14, self.15, value, self.17, self.18, self.19, self.20, self.21, self.22, self.23, self.24, self.25, self.26, self.27)
    }

    fn index_ref(&self) -> (r: &T17) {
        &self.16
    }

    fn index_mut(&mut self) -> (r: &mut T17) {
        &mut self.16
    }

    fn into_index(self) -> (r: T17) {
        self.16
    }

    proof fn lemma_index_in_range(&self) {
    }
}

impl<T1, T2, T3, T4, T5, T6, T7, T8, T9, T10, T11, T12, T13, T14, T15, T16, T17, T18, T19, T20, T21, T22, T23, T24, T25, T26, T27, T28> IndexableTuple<17> for (T1, T2, T3, T4, T5, T6, T7, T8, T9, T10, T11, T12, T13, T14, T15, T16, T17, T18, T19, T20, T21, T22, T23, T24, T25, T26, T27, T28) {
    type Value = T18;

    open spec fn spec_index(&self) -> T18 {
        self.17
    }

    open spec fn spec_with_index(self, value: T18) -> (T1, T2, T3, T4, T5, T6, T7, T8, T9, T10, T11, T12, T13, T14, T15, T16, T17, T18, T19, T20, T21, T22, T23, T24, T25, T26, T27, T28) {
        (self.0, self.1, self.2, self.3, self.4, self.5, self.6, self.7, self.8, self.9, self.10, self.11, self.12, self.13, self.14, self.15, self.16, value, self.18, self.19, self.20, self.21, self.22, self.23, self.24, self.25, self.26, self.27)
    }

    fn index_ref(&self) -> (r: &T18) {
        &self.17
    }

    fn index_mut(&mut self) -> (r: &mut T18) {
        &mut self.17
    }

    fn into_index(self) -> (r: T18) {
        self.17
    }

    proof fn lemma_index_in_range(&self) {
    }
}

impl<T1, T2, T3, T4, T5, T6, T7, T8, T9, T10, T11, T12, T13, T14, T15, T16, T17, T18, T19, T20, T21, T22, T23, T24, T25, T26, T27, T28> IndexableTuple<18> for (T1, T2, T3, T4, T5, T6, T7, T8, T9, T10, T11, T12, T13, T14, T15, T16, T17, T18, T19, T20, T21, T22, T23, T24, T25, T26, T27, T28) {
    type Value = T19;

    open spec fn spec_index(&self) -> T19 {
        self.18
    }

    open spec fn spec_with_index(self, value: T19) -> (T1, T2, T3, T4, T5, T6, T7, T8, T9, T10, T11, T12, T13, T14, T15, T16, T17, T18, T19, T20, T21, T22, T23, T24, T25, T26, T27, T28) {
        (self.0, self.1, self.2, self.3, self.4, self.5, self.6, self.7, self.8, self.9, self.10, self.11, self.12, self.13, self.14, self.15, self.16, self.17, value, self.19, self.20, self.21, self.22, self.23, self.24, self.25, self.26, self.27)
    }

    fn index_ref(&self) -> (r: &T19) {
        &self.18
    }

    fn index_mut(&mut self) -> (r: &mut T19) {
        &mut self.18
    }

    fn into_index(self) -> (r: T19) {
        self.18
    }

    proof fn lemma_index_in_range(&self) {
    }
}

impl<T1, T2, T3, T4, T5, T6, T7, T8, T9, T10, T11, T12, T13, T14, T15, T16, T17, T18, T19, T20, T21, T22, T23, T24, T25, T26, T27, T28> IndexableTuple<19> for (T1, T2, T3, T4, T5, T6, T7, T8, T9, T10, T11, T12, T13, T14, T15, T16, T17, T18, T19, T20, T21, T22, T23, T24, T25, T26, T27, T28) {
    type Value = T20;

    open spec fn spec_index(&self) -> T20 {
        self.19
    }

    open spec fn spec_with_index(self, value: T20) -> (T1, T2, T3, T4, T5, T6, T7, T8, T9, T10, T11, T12, T13, T14, T15, T16, T17, T18, T19, T20, T21, T22, T23, T24, T25, T26, T27, T28) {
        (self.0, self.1, self.2, self.3, self.4, self.5, self.6, self.7, self.8, self.9, self.10, self.11, self.12, self.13, self.14, self.15, self.16, self.17, self.18, value, self.20, self.21, self.22, self.23, self.24, self.25, self.26, self.27)
    }

    fn index_ref(&self) -> (r: &T20) {
        &self.19
    }

    fn index_mut(&mut self) -> (r: &mut T20) {
        &mut self.19
    }

    fn into_index(self) -> (r: T20) {
        self.19
    }

    proof fn lemma_index_in_range(&self) {
    }
}

impl<T1, T2, T3, T4, T5, T6, T7, T8, T9, T10, T11, T12, T13, T14, T15, T16, T17, T18, T19, T20, T21, T22, T23, T24, T25, T26, T27, T28> IndexableTuple<20> for (T1, T2, T3, T4, T5, T6, T7, T8, T9, T10, T11, T12, T13, T14, T15, T16, T17, T18, T19, T20, T21, T22, T23, T24, T25, T26, T27, T28) {
    type Value = T21;

    open spec fn spec_index(&self) -> T21 {
        self.20
    }

    open spec fn spec_with_index(self, value: T21) -> (T1, T2, T3, T4, T5, T6, T7, T8, T9, T10, T11, T12, T13, T14, T15, T16, T17, T18, T19, T20, T21, T22, T23, T24, T25, T26, T27, T28) {
        (self.0, self.1, self.2, self.3, self.4, self.5, self.6, self.7, self.8, self.9, self.10, self.11, self.12, self.13, self.14, self.15, self.16, self.17, self.18, self.19, value, self.21, self.22, self.23, self.24, self.25, self.26, self.27)
    }

    fn index_ref(&self) -> (r: &T21) {
        &self.20
    }

    fn index_mut(&mut self) -> (r: &mut T21) {
        &mut self.20
    }

    fn into_index(self) -> (r: T21) {
        self.20
    }

    proof fn lemma_index_in_range(&self) {
    }
}

impl<T1, T2, T3, T4, T5, T6, T7, T8, T9, T10, T11, T12, T13, T14, T15, T16, T17, T18, T19, T20, T21, T22, T23, T24, T25, T26, T27, T28> IndexableTuple<21> for (T1, T2, T3, T4, T5, T6, T7, T8, T9, T10, T11, T12, T13, T14, T15, T16, T17, T18, T19, T20, T21, T22, T23, T24, T25, T26, T27, T28) {
    type Value = T22;

    open spec fn spec_index(&self) -> T22 {
        self.21
    }

    open spec fn spec_with_index(self, value: T22) -> (T1, T2, T3, T4, T5, T6, T7, T8, T9, T10, T11, T12, T13, T14, T15, T16, T17, T18, T19, T20, T21, T22, T23, T24, T25, T26, T27, T28) {
        (self.0, self.1, self.2, self.3, self.4, self.5, self.6, self.7, self.8, self.9, self.10, self.11, self.12, self.13, self.14, self.15, self.16, self.17, self.18, self.19, self.20, value, self.22, self.23, self.24, self.25, self.26, self.27)
    }

    fn index_ref(&self) -> (r: &T22) {
        &self.21
    }

    fn index_mut(&mut self) -> (r: &mut T22) {
        &mut self.21
    }

    fn into_index(self) -> (r: T22) {
        self.21
    }

    proof fn lemma_index_in_range(&self) {
    }
}

impl<T1, T2, T3, T4, T5, T6, T7, T8, T9, T10, T11, T12, T13, T14, T15, T16, T17, T18, T19, T20, T21, T22, T23, T24, T25, T26, T27, T28> IndexableTuple<22> for (T1, T2, T3, T4, T5, T6, T7, T8, T9, T10, T11, T12, T13, T14, T15, T16, T17, T18, T19, T20, T21, T22, T23, T24, T25, T26, T27, T28) {
    type Value = T23;

    open spec fn spec_index(&self) -> T23 {
        self.22
    }

    open spec fn spec_with_index(self, value: T23) -> (T1, T2, T3, T4, T5, T6, T7, T8, T9, T10, T11, T12, T13, T14, T15, T16, T17, T18, T19, T20, T21, T22, T23, T24, T25, T26, T27, T28) {
        (self.0, self.1, self.2, self.3, self.4, self.5, self.6, self.7, self.8, self.9, self.10, self.11, self.12, self.13, self.14, self.15, self.16, self.17, self.18, self.19, self.20, self.21, value, self.23, self.24, self.25, self.26, self.27)
    }

    fn index_ref(&self) -> (r: &T23) {
        &self.22
    }

    fn index_mut(&mut self) -> (r: &mut T23) {
        &mut self.22
    }

    fn into_index(self) -> (r: T23) {
        self.22
    }

    proof fn lemma_index_in_range(&self) {
    }
}

impl<T1, T2, T3, T4, T5, T6, T7, T8, T9, T10, T11, T12, T13, T14, T15, T16, T17, T18, T19, T20, T21, T22, T23, T24, T25, T26, T27, T28> IndexableTuple<23> for (T1, T2, T3, T4, T5, T6, T7, T8, T9, T10, T11, T12, T13, T14, T15, T16, T17, T18, T19, T20, T21, T22, T23, T24, T25, T26, T27, T28) {
    type Value = T24;

    open spec fn spec_index(&self) -> T24 {
        self.23
    }

    open spec fn spec_with_index(self, value: T24) -> (T1, T2, T3, T4, T5, T6, T7, T8, T9, T10, T11, T12, T13, T14, T15, T16, T17, T18, T19, T20, T21, T22, T23, T24, T25, T26, T27, T28) {
        (self.0, self.1, self.2, self.3, self.4, self.5, self.6, self.7, self.8, self.9, self.10, self.11, self.12, self.13, self.14, self.15, self.16, self.17, self.18, self.19, self.20, self.21, self.22, value, self.24, self.25, self.26, self.27)
    }

    fn index_ref(&self) -> (r: &T24) {
        &self.23
    }

    fn index_mut(&mut self) -> (r: &mut T24) {
        &mut self.23
    }

    fn into_index(self) -> (r: T24) {
        self.23
    }

    proof fn lemma_index_in_range(&self) {
    }
}

impl<T1, T2, T3, T4, T5, T6, T7, T8, T9, T10, T11, T12, T13, T14, T15, T16, T17, T18, T19, T20, T21, T22, T23, T24, T25, T26, T27, T28> IndexableTuple<24> for (T1, T2, T3, T4, T5, T6, T7, T8, T9, T10, T11, T12, T13, T14, T15, T16, T17, T18, T19, T20, T21, T22, T23, T24, T25, T26, T27, T28) {
    type Value = T25;

    open spec fn spec_index(&self) -> T25 {
        self.24
    }

    open spec fn spec_with_index(self, value: T25) -> (T1, T2, T3, T4, T5, T6, T7, T8, T9, T10, T11, T12, T13, T14, T15, T16, T17, T18, T19, T20, T21, T22, T23, T24, T25, T26, T27, T28) {
        (self.0, self.1, self.2, self.3, self.4, self.5, self.6, self.7, self.8, self.9, self.10, self.11, self.12, self.13, self.14, self.15, self.16, self.17, self.18, self.19, self.20, self.21, self.22, self.23, value, self.25, self.26, self.27)
    }

    fn index_ref(&self) -> (r: &T25) {
        &self.24
    }

    fn index_mut(&mut self) -> (r: &mut T25) {
        &mut self.24
    }

    fn into_index(self) -> (r: T25) {
        self.24
    }

    proof fn lemma_index_in_range(&self) {
    }
}

impl<T1, T2, T3, T4, T5, T6, T7, T8, T9, T10, T11, T12, T13, T14, T15, T16, T17, T18, T19, T20, T21, T22, T23, T24, T25, T26, T27, T28> IndexableTuple<25> for (T1, T2, T3, T4, T5, T6, T7, T8, T9, T10, T11, T12, T13, T14, T15, T16, T17, T18, T19, T20, T21, T22, T23, T24, T25, T26, T27, T28) {
    type Value = T26;

    open spec fn spec_index(&self) -> T26 {
        self.25
    }

    open spec fn spec_with_index(self, value: T26) -> (T1, T2, T3, T4, T5, T6, T7, T8, T9, T10, T11, T12, T13, T14, T15, T16, T17, T18, T19, T20, T21, T22, T23, T24, T25, T26, T27, T28) {
        (self.0, self.1, self.2, self.3, self.4, self.5, self.6, self.7, self.8, self.9, self.10, self.11, self.12, self.13, self.14, self.15, self.16, self.17, self.18, self.19, self.20, self.21, self.22, self.23, self.24, value, self.26, self.27)
    }

    fn index_ref(&self) -> (r: &T26) {
        &self.25
    }

    fn index_mut(&mut self) -> (r: &mut T26) {
        &mut self.25
    }

    fn into_index(self) -> (r: T26) {
        self.25
    }

    proof fn lemma_index_in_range(&self) {
    }
}

impl<T1, T2, T3, T4, T5, T6, T7, T8, T9, T10, T11, T12, T13, T14, T15, T16, T17, T18, T19, T20, T21, T22, T23, T24, T25, T26, T27, T28> IndexableTuple<26> for (T1, T2, T3, T4, T5, T6, T7, T8, T9, T10, T11, T12, T13, T14, T15, T16, T17, T18, T19, T20, T21, T22, T23, T24, T25, T26, T27, T28) {
    type Value = T27;

    open spec fn spec_index(&self) -> T27 {
        self.26
    }

    open spec fn spec_with_index(self, value: T27) -> (T1, T2, T3, T4, T5, T6, T7, T8, T9, T10, T11, T12, T13, T14, T15, T16, T17, T18, T19, T20, T21, T22, T23, T24, T25, T26, T27, T28) {
        (self.0, self.1, self.2, self.3, self.4, self.5, self.6, self.7, self.8, self.9, self.10, self.11, self.12, self.13, self.14, self.15, self.16, self.17, self.18, self.19, self.20, self.21, self.22, self.23, self.24, self.25, value, self.27)
    }

    fn index_ref(&self) -> (r: &T27) {
        &self.26
    }

    fn index_mut(&mut self) -> (r: &mut T27) {
        &mut self.26
    }

    fn into_index(self) -> (r: T27) {
        self.26
    }

    proof fn lemma_index_in_range(&self) {
    }
}

impl<T1, T2, T3, T4, T5, T6, T7, T8, T9, T10, T11, T12, T13, T14, T15, T16, T17, T18, T19, T20, T21, T22, T23, T24, T25, T26, T27, T28> IndexableTuple<27> for (T1, T2, T3, T4, T5, T6, T7, T8, T9, T10, T11, T12, T13, T14, T15, T16, T17, T18, T19, T20, T21, T22, T23, T24, T25, T26, T27, T28) {
    type Value = T28;

    open spec fn spec_index(&self) -> T28 {
        self.27
    }

    open spec fn spec_with_index(self, value: T28) -> (T1, T2, T3, T4, T5, T6, T7, T8, T9, T10, T11, T12, T13, T14, T15, T16, T17, T18, T19, T20, T21, T22, T23, T24, T25, T26, T27, T28) {
        (self.0, self.1, self.2, self.3, self.4, self.5, self.6, self.7, self.8, self.9, self.10, self.11, self.12, self.13, self.14, self.15, self.16, self.17, self.18, self.19, self.20, self.21, self.22, self.23, self.24, self.25, self.26, value)
    }

    fn index_ref(&self) -> (r: &T28) {
        &self.27
    }

    fn index_mut(&mut self) -> (r: &mut T28) {
        &mut self.27
    }

    fn into_index(self) -> (r: T28) {
        self.27
    }

    proof fn lemma_index_in_range(&self) {
    }
}

impl<T1, T2, T3, T4, T5, T6, T7, T8, T9, T10, T11, T12, T13, T14, T15, T16, T17, T18, T19, T20, T21, T22, T23, T24, T25, T26, T27, T28> JoinableTuple<(T1, T2, T3, T4, T5, T6, T7, T8, T9, T10, T11, T12, T13, T14, T15, T16, T17, T18, T19, T20, T21, T22, T23, T24, T25, T26, T27, T28)> for () {
    type Join = (T1, T2, T3, T4, T5, T6, T7, T8, T9, T10, T11, T12, T13, T14, T15, T16, T17, T18, T19, T20, T21, T22, T23, T24, T25, T26, T27, T28);

    open spec fn spec_join(self, other: (T1, T2, T3, T4, T5, T6, T7, T8, T9, T10, T11, T12, T13, T14, T15, T16, T17, T18, T19, T20, T21, T22, T23, T24, T25, T26, T27, T28)) -> (T1, T2, T3, T4, T5, T6, T7, T8, T9, T10, T11, T12, T13, T14, T15, T16, T17, T18, T19, T20, T21, T22, T23, T24, T25, T26, T27, T28) {
        (other.0, other.1, other.2, other.3, other.4, other.5, other.6, other.7, other.8, other.9, other.10, other.11, other.12, other.13, other.14, other.15, other.16, other.17, other.18, other.19, other.20, other.21, other.22, other.23, other.24, other.25, other.26, other.27)
    }

    fn join(self, other: (T1, T2, T3, T4, T5, T6, T7, T8, T9, T10, T11, T12, T13, T14, T15, T16, T17, T18, T19, T20, T21, T22, T23, T24, T25, T26, T27, T28)) -> (r: (T1, T2, T3, T4, T5, T6, T7, T8, T9, T10, T11, T12, T13, T14, T15, T16, T17, T18, T19, T20, T21, T22, T23, T24, T25, T26, T27, T28)) {
        (other.0, other.1, other.2, other.3, other.4, other.5, other.6, other.7, other.8, other.9, other.10, other.11, other.12, other.13, other.14, other.15, other.16, other.17, other.18, other.19, other.20, other.21, other.22, other.23, other.24, other.25, other.26, other.27)
    }

    proof fn lemma_join_arity(self, other: (T1, T2, T3, T4, T5, T6, T7, T8, T9, T10, T11, T12, T13, T14, T15, T16, T17, T18, T19, T20, T21, T22, T23, T24, T25, T26, T27, T28)) {
    }
}

impl<T1, T2, T3, T4, T5, T6, T7, T8, T9, T10, T11, T12, T13, T14, T15, T16, T17, T18, T19, T20, T21, T22, T23, T24, T25, T26, T27, T28> JoinableTuple<(T2, T3, T4, T5, T6, T7, T8, T9, T10, T11, T12, T13, T14, T15, T16, T17, T18, T19, T20, T21, T22, T23, T24, T25, T26, T27, T28)> for (T1,) {
    type Join = (T1, T2, T3, T4, T5, T6, T7, T8, T9, T10, T11, T12, T13, T14, T15, T16, T17, T18, T19, T20, T21, T22, T23, T24, T25, T26, T27, T28);

    open spec fn spec_join(self, other: (T2, T3, T4, T5, T6, T7, T8, T9, T10, T11, T12, T13, T14, T15, T16, T17, T18, T19, T20, T21, T22, T23, T24, T25, T26, T27, T28)) -> (T1, T2, T3, T4, T5, T6, T7, T8, T9, T10, T11, T12, T13, T14, T15, T16, T17, T18, T19, T20, T21, T22, T23, T24, T25, T26, T27, T28) {
        (self.0, other.0, other.1, other.2, other.3, other.4, other.5, other.6, other.7, other.8, other.9, other.10, other.11, other.12, other.13, other.14, other.15, other.16, other.17, other.18, other.19, other.20, other.21, other.22, other.23, other.24, other.25, other.26)
    }

    fn join(self, other: (T2, T3, T4, T5, T6, T7, T8, T9, T10, T11, T12, T13, T14, T15, T16, T17, T18, T19, T20, T21, T22, T23, T24, T25, T26, T27, T28)) -> (r: (T1, T2, T3, T4, T5, T6, T7, T8, T9, T10, T11, T12, T13, T14, T15, T16, T17, T18, T19, T20, T21, T22, T23, T24, T25, T26, T27, T28)) {
        (self.0, other.0, other.1, other.2, other.3, other.4, other.5, other.6, other.7, other.8, other.9, other.10, other.11, other.12, other.13, other.14, other.15, other.16, other.17, other.18, other.19, other.20, other.21, other.22, other.23, other.24, other.25, other.26)
    }

    proof fn lemma_join_arity(self, other: (T2, T3, T4, T5, T6, T7, T8, T9, T10, T11, T12, T13, T14, T15, T16, T17, T18, T19, T20, T21, T22, T23, T24, T25, T26, T27, T28)) {
    }
}

impl<T1, T2, T3, T4, T5, T6, T7, T8, T9, T10, T11, T12, T13, T14, T15, T16, T17, T18, T19, T20, T21, T22, T23, T24, T25, T26, T27, T28> JoinableTuple<(T3, T4, T5, T6, T7, T8, T9, T10, T11, T12, T13, T14, T15, T16, T17, T18, T19, T20, T21, T22, T23, T24, T25, T26, T27, T28)> for (T1, T2) {
    type Join = (T1, T2, T3, T4, T5, T6, T7, T8, T9, T10, T11, T12, T13, T14, T15, T16, T17, T18, T19, T20, T21, T22, T23, T24, T25, T26, T27, T28);

    open spec fn spec_join(self, other: (T3, T4, T5, T6, T7, T8, T9, T10, T11, T12, T13, T14, T15, T16, T17, T18, T19, T20, T21, T22, T23, T24, T25, T26, T27, T28)) -> (T1, T2, T3, T4, T5, T6, T7, T8, T9, T10, T11, T12, T13, T14, T15, T16, T17, T18, T19, T20, T21, T22, T23, T24, T25, T26, T27, T28) {
        (self.0, self.1, other.0, other.1, other.2, other.3, other.4, other.5, other.6, other.7, other.8, other.9, other.10, other.11, other.12, other.13, other.14, other.15, other.16, other.17, other.18, other.19, other.20, other.21, other.22, other.23, other.24, other.25)
    }

    fn join(self, other: (T3, T4, T5, T6, T7, T8, T9, T10, T11, T12, T13, T14, T15, T16, T17, T18, T19, T20, T21, T22, T23, T24, T25, T26, T27, T28)) -> (r: (T1, T2, T3, T4, T5, T6, T7, T8, T9, T10, T11, T12, T13, T14, T15, T16, T17, T18, T19, T20, T21, T22, T23, T24, T25, T26, T27, T28)) {
        (self.0, self.1, other.0, other.1, other.2, other.3, other.4, other.5, other.6, other.7, other.8, other.9, other.10, other.11, other.12, other.13, other.14, other.15, other.16, other.17, other.18, other.19, other.20, other.21, other.22, other.23, other.24, other.25)
    }

    proof fn lemma_join_arity(self, other: (T3, T4, T5, T6, T7, T8, T9, T10, T11, T12, T13, T14, T15, T16, T17, T18, T19, T20, T21, T22, T23, T24, T25, T26, T27, T28)) {
    }
}

impl<T1, T2, T3, T4, T5, T6, T7, T8, T9, T10, T11, T12, T13, T14, T15, T16, T17, T18, T19, T20, T21, T22, T23, T24, T25, T26, T27, T28> JoinableTuple<(T4, T5, T6, T7, T8, T9, T10, T11, T12, T13, T14, T15, T16, T17, T18, T19, T20, T21, T22, T23, T24, T25, T26, T27, T28)> for (T1, T2, T3) {
    type Join = (T1, T2, T3, T4, T5, T6, T7, T8, T9, T10, T11, T12, T13, T14, T15, T16, T17, T18, T19, T20, T21, T22, T23, T24, T25, T26, T27, T28);

    open spec fn spec_join(self, other: (T4, T5, T6, T7, T8, T9, T10, T11, T12, T13, T14, T15, T16, T17, T18, T19, T20, T21, T22, T23, T24, T25, T26, T27, T28)) -> (T1, T2, T3, T4, T5, T6, T7, T8, T9, T10, T11, T12, T13, T14, T15, T16, T17, T18, T19, T20, T21, T22, T23, T24, T25, T26, T27, T28) {
        (self.0, self.1, self.2, other.0, other.1, other.2, other.3, other.4, other.5, other.6, other.7, other.8, other.9, other.10, other.11, other.12, other.13, other.14, other.15, other.16, other.17, other.18, other.19, other.20, other.21, other.22, other.23, other.24)
    }

    fn join(self, other: (T4, T5, T6, T7, T8, T9, T10, T11, T12, T13, T14, T15, T16, T17, T18, T19, T20, T21, T22, T23, T24, T25, T26, T27, T28)) -> (r: (T1, T2, T3, T4, T5, T6, T7, T8, T9, T10, T11, T12, T13, T14, T15, T16, T17, T18, T19, T20, T21, T22, T23, T24, T25, T26, T27, T28)) {
        (self.0, self.1, self.2, other.0, other.1, other.2, other.3, other.4, other.5, other.6, other.7, other.8, other.9, other.10, other.11, other.12, other.13, other.14, other.15, other.16, other.17, other.18, other.19, other.20, other.21, other.22, other.23, other.24)
    }

    proof fn lemma_join_arity(self, other: (T4, T5, T6, T7, T8, T9, T10, T11, T12, T13, T14, T15, T16, T17, T18, T19, T20, T21, T22, T23, T24, T25, T26, T27, T28)) {
    }
}

impl<T1, T2, T3, T4, T5, T6, T7, T8, T9, T10, T11, T12, T13, T14, T15, T16, T17, T18, T19, T20, T21, T22, T23, T24, T25, T26, T27, T28> JoinableTuple<(T5, T6, T7, T8, T9, T10, T11, T12, T13, T14, T15, T16, T17, T18, T19, T20, T21, T22, T23, T24, T25, T26, T27, T28)> for (T1, T2, T3, T4) {
    type Join = (T1, T2, T3, T4, T5, T6, T7, T8, T9, T10, T11, T12, T13, T14, T15, T16, T17, T18, T19, T20, T21, T22, T23, T24, T25, T26, T27, T28);

    open spec fn spec_join(self, other: (T5, T6, T7, T8, T9, T10, T11, T12, T13, T14, T15, T16, T17, T18, T19, T20, T21, T22, T23, T24, T25, T26, T27, T28)) -> (T1, T2, T3, T4, T5, T6, T7, T8, T9, T10, T11, T12, T13, T14, T15, T16, T17, T18, T19, T20, T21, T22, T23, T24, T25, T26, T27, T28) {
        (self.0, self.1, self.2, self.3, other.0, other.1, other.2, other.3, other.4, other.5, other.6, other.7, other.8, other.9, other.10, other.11, other.12, other.13, other.14, other.15, other.16, other.17, other.18, other.19, other.20, other.21, other.22, other.23)
    }

    fn join(self, other: (T5, T6, T7, T8, T9, T10, T11, T12, T13, T14, T15, T16, T17, T18, T19, T20, T21, T22, T23, T24, T25, T26, T27, T28)) -> (r: (T1, T2, T3, T4, T5, T6, T7, T8, T9, T10, T11, T12, T13, T14, T15, T16, T17, T18, T19, T20, T21, T22, T23, T24, T25, T26, T27, T28)) {
        (self.0, self.1, self.2, self.3, other.0, other.1, other.2, other.3, other.4, other.5, other.6, other.7, other.8, other.9, other.10, other.11, other.12, other.13, other.14, other.15, other.16, other.17, other.18, other.19, other.20, other.21, other.22, other.23)
    }

    proof fn lemma_join_arity(self, other: (T5, T6, T7, T8, T9, T10, T11, T12, T13, T14, T15, T16, T17, T18, T19, T20, T21, T22, T23, T24, T25, T26, T27, T28)) {
    }
}

impl<T1, T2, T3, T4, T5, T6, T7, T8, T9, T10, T11, T12, T13, T14, T15, T16, T17, T18, T19, T20, T21, T22, T23, T24, T25, T26, T27, T28> JoinableTuple<(T6, T7, T8, T9, T10, T11, T12, T13, T14, T15, T16, T17, T18, T19, T20, T21, T22, T23, T24, T25, T26, T27, T28)> for (T1, T2, T3, T4, T5) {
    type Join = (T1, T2, T3, T4, T5, T6, T7, T8, T9, T10, T11, T12, T13, T14, T15, T16, T17, T18, T19, T20, T21, T22, T23, T24, T25, T26, T27, T28);

    open spec fn spec_join(self, other: (T6, T7, T8, T9, T10, T11, T12, T13, T14, T15, T16, T17, T18, T19, T20, T21, T22, T23, T24, T25, T26, T27, T28)) -> (T1, T2, T3, T4, T5, T6, T7, T8, T9, T10, T11, T12, T13, T14, T15, T16, T17, T18, T19, T20, T21, T22, T23, T24, T25, T26, T27, T28) {
        (self.0, self.1, self.2, self.3, self.4, other.0, other.1, other.2, other.3, other.4, other.5, other.6, other.7, other.8, other.9, other.10, other.11, other.12, other.13, other.14, other.15, other.16, other.17, other.18, other.19, other.20, other.21, other.22)
    }

    fn join(self, other: (T6, T7, T8, T9, T10, T11, T12, T13, T14, T15, T16, T17, T18, T19, T20, T21, T22, T23, T24, T25, T26, T27, T28)) -> (r: (T1, T2, T3, T4, T5, T6, T7, T8, T9, T10, T11, T12, T13, T14, T15, T16, T17, T18, T19, T20, T21, T22, T23, T24, T25, T26, T27, T28)) {
        (self.0, self.1, self.2, self.3, self.4, other.0, other.1, other.2, other.3, other.4, other.5, other.6, other.7, other.8, other.9, other.10, other.11, other.12, other.13, other.14, other.15, other.16, other.17, other.18, other.19, other.20, other.21, other.22)
    }

    proof fn lemma_join_arity(self, other: (T6, T7, T8, T9, T10, T11, T12, T13, T14, T15, T16, T17, T18, T19, T20, T21, T22, T23, T24, T25, T26, T27, T28)) {
    }
}

impl<T1, T2, T3, T4, T5, T6, T7, T8, T9, T10, T11, T12, T13, T14, T15, T16, T17, T18, T19, T20, T21, T22, T23, T24, T25, T26, T27, T28> JoinableTuple<(T7, T8, T9, T10, T11, T12, T13, T14, T15, T16, T17, T18, T19, T20, T21, T22, T23, T24, T25, T26, T27, T28)> for (T1, T2, T3, T4, T5, T6) {
    type Join = (T1, T2, T3, T4, T5, T6, T7, T8, T9, T10, T11, T12, T13, T14, T15, T16, T17, T18, T19, T20, T21, T22, T23, T24, T25, T26, T27, T28);

    open spec fn spec_join(self, other: (T7, T8, T9, T10, T11, T12, T13, T14, T15, T16, T17, T18, T19, T20, T21, T22, T23, T24, T25, T26, T27, T28)) -> (T1, T2, T3, T4, T5, T6, T7, T8, T9, T10, T11, T12, T13, T14, T15, T16, T17, T18, T19, T20, T21, T22, T23, T24, T25, T26, T27, T28) {
        (self.0, self.1, self.2, self.3, self.4, self.5, other.0, other.1, other.2, other.3, other.4, other.5, other.6, other.7, other.8, other.9, other.10, other.11, other.12, other.13, other.14, other.15, other.16, other.17, other.18, other.19, other.20, other.21)
    }

    fn join(self, other: (T7, T8, T9, T10, T11, T12, T13, T14, T15, T16, T17, T18, T19, T20, T21, T22, T23, T24, T25, T26, T27, T28)) -> (r: (T1, T2, T3, T4, T5, T6, T7, T8, T9, T10, T11, T12, T13, T14, T15, T16, T17, T18, T19, T20, T21, T22, T23, T24, T25, T26, T27, T28)) {
        (self.0, self.1, self.2, self.3, self.4, self.5, other.0, other.1, other.2, other.3, other.4, other.5, other.6, other.7, other.8, other.9, other.10, other.11, other.12, other.13, other.14, other.15, other.16, other.17, other.18, other.19, other.20, other.21)
    }

    proof fn lemma_join_arity(self, other: (T7, T8, T9, T10, T11, T12, T13, T14, T15, T16, T17, T18, T19, T20, T21, T22, T23, T24, T25, T26, T27, T28)) {
    }
}

impl<T1, T2, T3, T4, T5, T6, T7, T8, T9, T10, T11, T12, T13, T14, T15, T16, T17, T18, T19, T20, T21, T22, T23, T24, T25, T26, T27, T28> JoinableTuple<(T8, T9, T10, T11, T12, T13, T14, T15, T16, T17, T18, T19, T20, T21, T22, T23, T24, T25, T26, T27, T28)> for (T1, T2, T3, T4, T5, T6, T7) {
    type Join = (T1, T2, T3, T4, T5, T6, T7, T8, T9, T10, T11, T12, T13, T14, T15, T16, T17, T18, T19, T20, T21, T22, T23, T24, T25, T26, T27, T28);

    open spec fn spec_join(self, other: (T8, T9, T10, T11, T12, T13, T14, T15, T16, T17, T18, T19, T20, T21, T22, T23, T24, T25, T26, T27, T28)) -> (T1, T2, T3, T4, T5, T6, T7, T8, T9, T10, T11, T12, T13, T14, T15, T16, T17, T18, T19, T20, T21, T22, T23, T24, T25, T26, T27, T28) {
        (self.0, self.1, self.2, self.3, self.4, self.5, self.6, other.0, other.1, other.2, other.3, other.4, other.5, other.6, other.7, other.8, other.9, other.10, other.11, other.12, other.13, other.14, other.15, other.16, other.17, other.18, other.19, other.20)
    }

    fn join(self, other: (T8, T9, T10, T11, T12, T13, T14, T15, T16, T17, T18, T19, T20, T21, T22, T23, T24, T25, T26, T27, T28)) -> (r: (T1, T2, T3, T4, T5, T6, T7, T8, T9, T10, T11, T12, T13, T14, T15, T16, T17, T18, T19, T20, T21, T22, T23, T24, T25, T26, T27, T28)) {
        (self.0, self.1, self.2, self.3, self.4, self.5, self.6, other.0, other.1, other.2, other.3, other.4, other.5, other.6, other.7, other.8, other.9, other.10, other.11, other.12, other.13, other.14, other.15, other.16, other.17, other.18, other.19, other.20)
    }

    proof fn lemma_join_arity(self, other: (T8, T9, T10, T11, T12, T13, T14, T15, T16, T17, T18, T19, T20, T21, T22, T23, T24, T25, T26, T27, T28)) {
    }
}

impl<T1, T2, T3, T4, T5, T6, T7, T8, T9, T10, T11, T12, T13, T14, T15, T16, T17, T18, T19, T20, T21, T22, T23, T24, T25, T26, T27, T28> JoinableTuple<(T9, T10, T11, T12, T13, T14, T15, T16, T17, T18, T19, T20, T21, T22, T23, T24, T25, T26, T27, T28)> for (T1, T2, T3, T4, T5, T6, T7, T8) {
    type Join = (T1, T2, T3, T4, T5, T6, T7, T8, T9, T10, T11, T12, T13, T14, T15, T16, T17, T18, T19, T20, T21, T22, T23, T24, T25, T26, T27, T28);

    open spec fn spec_join(self, other: (T9, T10, T11, T12, T13, T14, T15, T16, T17, T18, T19, T20, T21, T22, T23, T24, T25, T26, T27, T28)) -> (T1, T2, T3, T4, T5, T6, T7, T8, T9, T10, T11, T12, T13, T14, T15, T16, T17, T18, T19, T20, T21, T22, T23, T24, T25, T26, T27, T28) {
        (self.0, self.1, self.2, self.3, self.4, self.5, self.6, self.7, other.0, other.1, other.2, other.3, other.4, other.5, other.6, other.7, other.8, other.9, other.10, other.11, other.12, other.13, other.14, other.15, other.16, other.17, other.18, other.19)
    }

    fn join(self, other: (T9, T10, T11, T12, T13, T14, T15, T16, T17, T18, T19, T20, T21, T22, T23, T24, T25, T26, T27, T28)) -> (r: (T1, T2, T3, T4, T5, T6, T7, T8, T9, T10, T11, T12, T13, T14, T15, T16, T17, T18, T19, T20, T21, T22, T23, T24, T25, T26, T27, T28)) {
        (self.0, self.1, self.2, self.3, self.4, self.5, self.6, self.7, other.0, other.1, other.2, other.3, other.4, other.5, other.6, other.7, other.8, other.9, other.10, other.11, other.12, other.13, other.14, other.15, other.16, other.17, other.18, other.19)
    }

    proof fn lemma_join_arity(self, other: (T9, T10, T11, T12, T13, T14, T15, T16, T17, T18, T19, T20, T21, T22, T23, T24, T25, T26, T27, T28)) {
    }
}

impl<T1, T2, T3, T4, T5, T6, T7, T8, T9, T10, T11, T12, T13, T14, T15, T16, T17, T18, T19, T20, T21, T22, T23, T24, T25, T26, T27, T28> JoinableTuple<(T10, T11, T12, T13, T14, T15, T16, T17, T18, T19, T20, T21, T22, T23, T24, T25, T26, T27, T28)> for (T1, T2, T3, T4, T5, T6, T7, T8, T9) {
    type Join = (T1, T2, T3, T4, T5, T6, T7, T8, T9, T10, T11, T12, T13, T14, T15, T16, T17, T18, T19, T20, T21, T22, T23, T24, T25, T26, T27, T28);

    open spec fn spec_join(self, other: (T10, T11, T12, T13, T14, T15, T16, T17, T18, T19, T20, T21, T22, T23, T24, T25, T26, T27, T28)) -> (T1, T2, T3, T4, T5, T6, T7, T8, T9, T10, T11, T12, T13, T14, T15, T16, T17, T18, T19, T20, T21, T22, T23, T24, T25, T26, T27, T28) {
        (self.0, self.1, self.2, self.3, self.4, self.5, self.6, self.7, self.8, other.0, other.1, other.2, other.3, other.4, other.5, other.6, other.7, other.8, other.9, other.10, other.11, other.12, other.13, other.14, other.15, other.16, other.17, other.18)
    }

    fn join(self, other: (T10, T11, T12, T13, T14, T15, T16, T17, T18, T19, T20, T21, T22, T23, T24, T25, T26, T27, T28)) -> (r: (T1, T2, T3, T4, T5, T6, T7, T8, T9, T10, T11, T12, T13, T14, T15, T16, T17, T18, T19, T20, T21, T22, T23, T24, T25, T26, T27, T28)) {
        (self.0, self.1, self.2, self.3, self.4, self.5, self.6, self.7, self.8, other.0, other.1, other.2, other.3, other.4, other.5, other.6, other.7, other.8, other.9, other.10, other.11, other.12, other.13, other.14, other.15, other.16, other.17, other.18)
    }

    proof fn lemma_join_arity(self, other: (T10, T11, T12, T13, T14, T15, T16, T17, T18, T19, T20, T21, T22, T23, T24, T25, T26, T27, T28)) {
    }
}

impl<T1, T2, T3, T4, T5, T6, T7, T8, T9, T10, T11, T12, T13, T14, T15, T16, T17, T18, T19, T20, T21, T22, T23, T24, T25, T26, T27, T28> JoinableTuple<(T11, T12, T13, T14, T15, T16, T17, T18, T19, T20, T21, T22, T23, T24, T25, T26, T27, T28)> for (T1, T2, T3, T4, T5, T6, T7, T8, T9, T10) {
    type Join = (T1, T2, T3, T4, T5, T6, T7, T8, T9, T10, T11, T12, T13, T14, T15, T16, T17, T18, T19, T20, T21, T22, T23, T24, T25, T26, T27, T28);

    open spec fn spec_join(self, other: (T11, T12, T13, T14, T15, T16, T17, T18, T19, T20, T21, T22, T23, T24, T25, T26, T27, T28)) -> (T1, T2, T3, T4, T5, T6, T7, T8, T9, T10, T11, T12, T13, T14, T15, T16, T17, T18, T19, T20, T21, T22, T23, T24, T25, T26, T27, T28) {
        (self.0, self.1, self.2, self.3, self.4, self.5, self.6, self.7, self.8, self.9, other.0, other.1, other.2, other.3, other.4, other.5, other.6, other.7, other.8, other.9, other.10, other.11, other.12, other.13, other.14, other.15, other.16, other.17)
    }

    fn join(self, other: (T11, T12, T13, T14, T15, T16, T17, T18, T19, T20, T21, T22, T23, T24, T25, T26, T27, T28)) -> (r: (T1, T2, T3, T4, T5, T6, T7, T8, T9, T10, T11, T12, T13, T14, T15, T16, T17, T18, T19, T20, T21, T22, T23, T24, T25, T26, T27, T28)) {
        (self.0, self.1, self.2, self.3, self.4, self.5, self.6, self.7, self.8, self.9, other.0, other.1, other.2, other.3, other.4, other.5, other.6, other.7, other.8, other.9, other.10, other.11, other.12, other.13, other.14, other.15, other.16, other.17)
    }

    proof fn lemma_join_arity(self, other: (T11, T12, T13, T14, T15, T16, T17, T18, T19, T20, T21, T22, T23, T24, T25, T26, T27, T28)) {
    }
}

impl<T1, T2, T3, T4, T5, T6, T7, T8, T9, T10, T11, T12, T13, T14, T15, T16, T17, T18, T19, T20, T21, T22, T23, T24, T25, T26, T27, T28> JoinableTuple<(T12, T13, T14, T15, T16, T17, T18, T19, T20, T21, T22, T23, T24, T25, T26, T27, T28)> for (T1, T2, T3, T4, T5, T6, T7, T8, T9, T10, T11) {
    type Join = (T1, T2, T3, T4, T5, T6, T7, T8, T9, T10, T11, T12, T13, T14, T15, T16, T17, T18, T19, T20, T21, T22, T23, T24, T25, T26, T27, T28);

    open spec fn spec_join(self, other: (T12, T13, T14, T15, T16, T17, T18, T19, T20, T21, T22, T23, T24, T25, T26, T27, T28)) -> (T1, T2, T3, T4, T5, T6, T7, T8, T9, T10, T11, T12, T13, T14, T15, T16, T17, T18, T19, T20, T21, T22, T23, T24, T25, T26, T27, T28) {
        (self.0, self.1, self.2, self.3, self.4, self.5, self.6, self.7, self.8, self.9, self.10, other.0, other.1, other.2, other.3, other.4, other.5, other.6, other.7, other.8, other.9, other.10, other.11, other.12, other.13, other.14, other.15, other.16)
    }

    fn join(self, other: (T12, T13, T14, T15, T16, T17, T18, T19, T20, T21, T22, T23, T24, T25, T26, T27, T28)) -> (r: (T1, T2, T3, T4, T5, T6, T7, T8, T9, T10, T11, T12, T13, T14, T15, T16, T17, T18, T19, T20, T21, T22, T23, T24, T25, T26, T27, T28)) {
        (self.0, self.1, self.2, self.3, self.4, self.5, self.6, self.7, self.8, self.9, self.10, other.0, other.1, other.2, other.3, other.4, other.5, other.6, other.7, other.8, other.9, other.10, other.11, other.12, other.13, other.14, other.15, other.16)
    }

    proof fn lemma_join_arity(self, other: (T12, T13, T14, T15, T16, T17, T18, T19, T20, T21, T22, T23, T24, T25, T26, T27, T28)) {
    }
}

impl<T1, T2, T3, T4, T5, T6, T7, T8, T9, T10, T11, T12, T13, T14, T15, T16, T17, T18, T19, T20, T21, T22, T23, T24, T25, T26, T27, T28> JoinableTuple<(T13, T14, T15, T16, T17, T18, T19, T20, T21, T22, T23, T24, T25, T26, T27, T28)> for (T1, T2, T3, T4, T5, T6, T7, T8, T9, T10, T11, T12) {
    type Join = (T1, T2, T3, T4, T5, T6, T7, T8, T9, T10, T11, T12, T13, T14, T15, T16, T17, T18, T19, T20, T21, T22, T23, T24, T25, T26, T27, T28);

    open spec fn spec_join(self, other: (T13, T14, T15, T16, T17, T18, T19, T20, T21, T22, T23, T24, T25, T26, T27, T28)) -> (T1, T2, T3, T4, T5, T6, T7, T8, T9, T10, T11, T12, T13, T14, T15, T16, T17, T18, T19, T20, T21, T22, T23, T24, T25, T26, T27, T28) {
        (self.0, self.1, self.2, self.3, self.4, self.5, self.6, self.7, self.8, self.9, self.10, self.11, other.0, other.1, other.2, other.3, other.4, other.5, other.6, other.7, other.8, other.9, other.10, other.11, other.12, other.13, other.14, other.15)
    }

    fn join(self, other: (T13, T14, T15, T16, T17, T18, T19, T20, T21, T22, T23, T24, T25, T26, T27, T28)) -> (r: (T1, T2, T3, T4, T5, T6, T7, T8, T9, T10, T11, T12, T13, T14, T15, T16, T17, T18, T19, T20, T21, T22, T23, T24, T25, T26, T27, T28)) {
        (self.0, self.1, self.2, self.3, self.4, self.5, self.6, self.7, self.8, self.9, self.10, self.11, other.0, other.1, other.2, other.3, other.4, other.5, other.6, other.7, other.8, other.9, other.10, other.11, other.12, other.13, other.14, other.15)
    }

    proof fn lemma_join_arity(self, other: (T13, T14, T15, T16, T17, T18, T19, T20, T21, T22, T23, T24, T25, T26, T27, T28)) {
    }
}

impl<T1, T2, T3, T4, T5, T6, T7, T8, T9, T10, T11, T12, T13, T14, T15, T16, T17, T18, T19, T20, T21, T22, T23, T24, T25, T26, T27, T28> JoinableTuple<(T14, T15, T16, T17, T18, T19, T20, T21, T22, T23, T24, T25, T26, T27, T28)> for (T1, T2, T3, T4, T5, T6, T7, T8, T9, T10, T11, T12, T13) {
    type Join = (T1, T2, T3, T4, T5, T6, T7, T8, T9, T10, T11, T12, T13, T14, T15, T16, T17, T18, T19, T20, T21, T22, T23, T24, T25, T26, T27, T28);

    open spec fn spec_join(self, other: (T14, T15, T16, T17, T18, T19, T20, T21, T22, T23, T24, T25, T26, T27, T28)) -> (T1, T2, T3, T4, T5, T6, T7, T8, T9, T10, T11, T12, T13, T14, T15, T16, T17, T18, T19, T20, T21, T22, T23, T24, T25, T26, T27, T28) {
        (self.0, self.1, self.2, self.3, self.4, self.5, self.6, self.7, self.8, self.9, self.10, self.11, self.12, other.0, other.1, other.2, other.3, other.4, other.5, other.6, other.7, other.8, other.9, other.10, other.11, other.12, other.13, other.14)
    }

    fn join(self, other: (T14, T15, T16, T17, T18, T19, T20, T21, T22, T23, T24, T25, T26, T27, T28)) -> (r: (T1, T2, T3, T4, T5, T6, T7, T8, T9, T10, T11, T12, T13, T14, T15, T16, T17, T18, T19, T20, T21, T22, T23, T24, T25, T26, T27, T28)) {
        (self.0, self.1, self.2, self.3, self.4, self.5, self.6, self.7, self.8, self.9, self.10, self.11, self.12, other.0, other.1, other.2, other.3, other.4, other.5, other.6, other.7, other.8, other.9, other.10, other.11, other.12, other.13, other.14)
    }

    proof fn lemma_join_arity(self, other: (T14, T15, T16, T17, T18, T19, T20, T21, T22, T23, T24, T25, T26, T27, T28)) {
    }
}

impl<T1, T2, T3, T4, T5, T6, T7, T8, T9, T10, T11, T12, T13, T14, T15, T16, T17, T18, T19, T20, T21, T22, T23, T24, T25, T26, T27, T28> JoinableTuple<(T15, T16, T17, T18, T19, T20, T21, T22, T23, T24, T25, T26, T27, T28)> for (T1, T2, T3, T4, T5, T6, T7, T8, T9, T10, T11, T12, T13, T14) {
    type Join = (T1, T2, T3, T4, T5, T6, T7, T8, T9, T10, T11, T12, T13, T14, T15, T16, T17, T18, T19, T20, T21, T22, T23, T24, T25, T26, T27, T28);

    open spec fn spec_join(self, other: (T15, T16, T17, T18, T19, T20, T21, T22, T23, T24, T25, T26, T27, T28)) -> (T1, T2, T3, T4, T5, T6, T7, T8, T9, T10, T11, T12, T13, T14, T15, T16, T17, T18, T19, T20, T21, T22, T23, T24, T25, T26, T27, T28) {
        (self.0, self.1, self.2, self.3, self.4, self.5, self.6, self.7, self.8, self.9, self.10, self.11, self.12, self.13, other.0, other.1, other.2, other.3, other.4, other.5, other.6, other.7, other.8, other.9, other.10, other.11, other.12, other.13)
    }

    fn join(self, other: (T15, T16, T17, T18, T19, T20, T21, T22, T23, T24, T25, T26, T27, T28)) -> (r: (T1, T2, T3, T4, T5, T6, T7, T8, T9, T10, T11, T12, T13, T14, T15, T16, T17, T18, T19, T20, T21, T22, T23, T24, T25, T26, T27, T28)) {
        (self.0, self.1, self.2, self.3, self.4, self.5, self.6, self.7, self.8, self.9, self.10, self.11, self.12, self.13, other.0, other.1, other.2, other.3, other.4, other.5, other.6, other.7, other.8, other.9, other.10, other.11, other.12, other.13)
    }

    proof fn lemma_join_arity(self, other: (T15, T16, T17, T18, T19, T20, T21, T22, T23, T24, T25, T26, T27, T28)) {
    }
}

impl<T1, T2, T3, T4, T5, T6, T7, T8, T9, T10, T11, T12, T13, T14, T15, T16, T17, T18, T19, T20, T21, T22, T23, T24, T25, T26, T27, T28> JoinableTuple<(T16, T17, T18, T19, T20, T21, T22, T23, T24, T25, T26, T27, T28)> for (T1, T2, T3, T4, T5, T6, T7, T8, T9, T10, T11, T12, T13, T14, T15) {
    type Join = (T1, T2, T3, T4, T5, T6, T7, T8, T9, T10, T11, T12, T13, T14, T15, T16, T17, T18, T19, T20, T21, T22, T23, T24, T25, T26, T27, T28);

    open spec fn spec_join(self, other: (T16, T17, T18, T19, T20, T21, T22, T23, T24, T25, T26, T27, T28)) -> (T1, T2, T3, T4, T5, T6, T7, T8, T9, T10, T11, T12, T13, T14, T15, T16, T17, T18, T19, T20, T21, T22, T23, T24, T25, T26, T27, T28) {
        (self.0, self.1, self.2, self.3, self.4, self.5, self.6, self.7, self.8, self.9, self.10, self.11, self.12, self.13, self.14, other.0, other.1, other.2, other.3, other.4, other.5, other.6, other.7, other.8, other.9, other.10, other.11, other.12)
    }

    fn join(self, other: (T16, T17, T18, T19, T20, T21, T22, T23, T24, T25, T26, T27, T28)) -> (r: (T1, T2, T3, T4, T5, T6, T7, T8, T9, T10, T11, T12, T13, T14, T15, T16, T17, T18, T19, T20, T21, T22, T23, T24, T25, T26, T27, T28)) {
        (self.0, self.1, self.2, self.3, self.4, self.5, self.6, self.7, self.8, self.9, self.10, self.11, self.12, self.13, self.14, other.0, other.1, other.2, other.3, other.4, other.5, other.6, other.7, other.8, other.9, other.10, other.11, other.12)
    }

    proof fn lemma_join_arity(self, other: (T16, T17, T18, T19, T20, T21, T22, T23, T24, T25, T26, T27, T28)) {
    }
}

impl<T1, T2, T3, T4, T5, T6, T7, T8, T9, T10, T11, T12, T13, T14, T15, T16, T17, T18, T19, T20, T21, T22, T23, T24, T25, T26, T27, T28> JoinableTuple<(T17, T18, T19, T20, T21, T22, T23, T24, T25, T26, T27, T28)> for (T1, T2, T3, T4, T5, T6, T7, T8, T9, T10, T11, T12, T13, T14, T15, T16) {
    type Join = (T1, T2, T3, T4, T5, T6, T7, T8, T9, T10, T11, T12, T13, T14, T15, T16, T17, T18, T19, T20, T21, T22, T23, T24, T25, T26, T27, T28);

    open spec fn spec_join(self, other: (T17, T18, T19, T20, T21, T22, T23, T24, T25, T26, T27, T28)) -> (T1, T2, T3, T4, T5, T6, T7, T8, T9, T10, T11, T12, T13, T14, T15, T16, T17, T18, T19, T20, T21, T22, T23, T24, T25, T26, T27, T28) {
        (self.0, self.1, self.2, self.3, self.4, self.5, self.6, self.7, self.8, self.9, self.10, self.11, self.12, self.13, self.14, self.15, other.0, other.1, other.2, other.3, other.4, other.5, other.6, other.7, other.8, other.9, other.10, other.11)
    }

    fn join(self, other: (T17, T18, T19, T20, T21, T22, T23, T24, T25, T26, T27, T28)) -> (r: (T1, T2, T3, T4, T5, T6, T7, T8, T9, T10, T11, T12, T13, T14, T15, T16, T17, T18, T19, T20, T21, T22, T23, T24, T25, T26, T27, T28)) {
        (self.0, self.1, self.2, self.3, self.4, self.5, self.6, self.7, self.8, self.9, self.10, self.11, self.12, self.13, self.14, self.15, other.0, other.1, other.2, other.3, other.4, other.5, other.6, other.7, other.8, other.9, other.10, other.11)
    }

    proof fn lemma_join_arity(self, other: (T17, T18, T19, T20, T21, T22, T23, T24, T25, T26, T27, T28)) {
    }
}

impl<T1, T2, T3, T4, T5, T6, T7, T8, T9, T10, T11, T12, T13, T14, T15, T16, T17, T18, T19, T20, T21, T22, T23, T24, T25, T26, T27, T28> JoinableTuple<(T18, T19, T20, T21, T22, T23, T24, T25, T26, T27, T28)> for (T1, T2, T3, T4, T5, T6, T7, T8, T9, T10, T11, T12, T13, T14, T15, T16, T17) {
    type Join = (T1, T2, T3, T4, T5, T6, T7, T8, T9, T10, T11, T12, T13, T14, T15, T16, T17, T18, T19, T20, T21, T22, T23, T24, T25, T26, T27, T28);

    open spec fn spec_join(self, other: (T18, T19, T20, T21, T22, T23, T24, T25, T26, T27, T28)) -> (T1, T2, T3, T4, T5, T6, T7, T8, T9, T10, T11, T12, T13, T14, T15, T16, T17, T18, T19, T20, T21, T22, T23, T24, T25, T26, T27, T28) {
        (self.0, self.1, self.2, self.3, self.4, self.5, self.6, self.7, self.8, self.9, self.10, self.11, self.12, self.13, self.14, self.15, self.16, other.0, other.1, other.2, other.3, other.4, other.5, other.6, other.7, other.8, other.9, other.10)
    }

    fn join(self, other: (T18, T19, T20, T21, T22, T23, T24, T25, T26, T27, T28)) -> (r: (T1, T2, T3, T4, T5, T6, T7, T8, T9, T10, T11, T12, T13, T14, T15, T16, T17, T18, T19, T20, T21, T22, T23, T24, T25, T26, T27, T28)) {
        (self.0, self.1, self.2, self.3, self.4, self.5, self.6, self.7, self.8, self.9, self.10, self.11, self.12, self.13, self.14, self.15, self.16, other.0, other.1, other.2, other.3, other.4, other.5, other.6, other.7, other.8, other.9, other.10)
    }

    proof fn lemma_join_arity(self, other: (T18, T19, T20, T21, T22, T23, T24, T25, T26, T27, T28)) {
    }
}

impl<T1, T2, T3, T4, T5, T6, T7, T8, T9, T10, T11, T12, T13, T14, T15, T16, T17, T18, T19, T20, T21, T22, T23, T24, T25, T26, T27, T28> JoinableTuple<(T19, T20, T21, T22, T23, T24, T25, T26, T27, T28)> for (T1, T2, T3, T4, T5, T6, T7, T8, T9, T10, T11, T12, T13, T14, T15, T16, T17, T18) {
    type Join = (T1, T2, T3, T4, T5, T6, T7, T8, T9, T10, T11, T12, T13, T14, T15, T16, T17, T18, T19, T20, T21, T22, T23, T24, T25, T26, T27, T28);

    open spec fn spec_join(self, other: (T19, T20, T21, T22, T23, T24, T25, T26, T27, T28)) -> (T1, T2, T3, T4, T5, T6, T7, T8, T9, T10, T11, T12, T13, T14, T15, T16, T17, T18, T19, T20, T21, T22, T23, T24, T25, T26, T27, T28) {
        (self.0, self.1, self.2, self.3, self.4, self.5, self.6, self.7, self.8, self.9, self.10, self.11, self.12, self.13, self.14, self.15, self.16, self.17, other.0, other.1, other.2, other.3, other.4, other.5, other.6, other.7, other.8, other.9)
    }

    fn join(self, other: (T19, T20, T21, T22, T23, T24, T25, T26, T27, T28)) -> (r: (T1, T2, T3, T4, T5, T6, T7, T8, T9, T10, T11, T12, T13, T14, T15, T16, T17, T18, T19, T20, T21, T22, T23, T24, T25, T26, T27, T28)) {
        (self.0, self.1, self.2, self.3, self.4, self.5, self.6, self.7, self.8, self.9, self.10, self.11, self.12, self.13, self.14, self.15, self.16, self.17, other.0, other.1, other.2, other.3, other.4, other.5, other.6, other.7, other.8, other.9)
    }

    proof fn lemma_join_arity(self, other: (T19, T20, T21, T22, T23, T24, T25, T26, T27, T28)) {
    }
}

impl<T1, T2, T3, T4, T5, T6, T7, T8, T9, T10, T11, T12, T13, T14, T15, T16, T17, T18, T19, T20, T21, T22, T23, T24, T25, T26, T27, T28> JoinableTuple<(T20, T21, T22, T23, T24, T25, T26, T27, T28)> for (T1, T2, T3, T4, T5, T6, T7, T8, T9, T10, T11, T12, T13, T14, T15, T16, T17, T18, T19) {
    type Join = (T1, T2, T3, T4, T5, T6, T7, T8, T9, T10, T11, T12, T13, T14, T15, T16, T17, T18, T19, T20, T21, T22, T23, T24, T25, T26, T27, T28);

    open spec fn spec_join(self, other: (T20, T21, T22, T23, T24, T25, T26, T27, T28)) -> (T1, T2, T3, T4, T5, T6, T7, T8, T9, T10, T11, T12, T13, T14, T15, T16, T17, T18, T19, T20, T21, T22, T23, T24, T25, T26, T27, T28) {
        (self.0, self.1, self.2, self.3, self.4, self.5, self.6, self.7, self.8, self.9, self.10, self.11, self.12, self.13, self.14, self.15, self.16, self.17, self.18, other.0, other.1, other.2, other.3, other.4, other.5, other.6, other.7, other.8)
    }

    fn join(self, other: (T20, T21, T22, T23, T24, T25, T26, T27, T28)) -> (r: (T1, T2, T3, T4, T5, T6, T7, T8, T9, T10, T11, T12, T13, T14, T15, T16, T17, T18, T19, T20, T21, T22, T23, T24, T25, T26, T27, T28)) {
        (self.0, self.1, self.2, self.3, self.4, self.5, self.6, self.7, self.8, self.9, self.10, self.11, self.12, self.13, self.14, self.15, self.16, self.17, self.18, other.0, other.1, other.2, other.3, other.4, other.5, other.6, other.7, other.8)
    }

    proof fn lemma_join_arity(self, other: (T20, T21, T22, T23, T24, T25, T26, T27, T28)) {
    }
}

impl<T1, T2, T3, T4, T5, T6, T7, T8, T9, T10, T11, T12, T13, T14, T15, T16, T17, T18, T19, T20, T21, T22, T23, T24, T25, T26, T27, T28> JoinableTuple<(T21, T22, T23, T24, T25, T26, T27, T28)> for (T1, T2, T3, T4, T5, T6, T7, T8, T9, T10, T11, T12, T13, T14, T15, T16, T17, T18, T19, T20) {
    type Join = (T1, T2, T3, T4, T5, T6, T7, T8, T9, T10, T11, T12, T13, T14, T15, T16, T17, T18, T19, T20, T21, T22, T23, T24, T25, T26, T27, T28);

    open spec fn spec_join(self, other: (T21, T22, T23, T24, T25, T26, T27, T28)) -> (T1, T2, T3, T4, T5, T6, T7, T8, T9, T10, T11, T12, T13, T14, T15, T16, T17, T18, T19, T20, T21, T22, T23, T24, T25, T26, T27, T28) {
        (self.0, self.1, self.2, self.3, self.4, self.5, self.6, self.7, self.8, self.9, self.10, self.11, self.12, self.13, self.14, self.15, self.16, self.17, self.18, self.19, other.0, other.1, other.2, other.3, other.4, other.5, other.6, other.7)
    }

    fn join(self, other: (T21, T22, T23, T24, T25, T26, T27, T28)) -> (r: (T1, T2, T3, T4, T5, T6, T7, T8, T9, T10, T11, T12, T13, T14, T15, T16, T17, T18, T19, T20, T21, T22, T23, T24, T25, T26, T27, T28)) {
        (self.0, self.1, self.2, self.3, self.4, self.5, self.6, self.7, self.8, self.9, self.10, self.11, self.12, self.13, self.14, self.15, self.16, self.17, self.18, self.19, other.0, other.1, other.2, other.3, other.4, other.5, other.6, other.7)
    }

    proof fn lemma_join_arity(self, other: (T21, T22, T23, T24, T25, T26, T27, T28)) {
    }
}

impl<T1, T2, T3, T4, T5, T6, T7, T8, T9, T10, T11, T12, T13, T14, T15, T16, T17, T18, T19, T20, T21, T22, T23, T24, T25, T26, T27, T28> JoinableTuple<(T22, T23, T24, T25, T26, T27, T28)> for (T1, T2, T3, T4, T5, T6, T7, T8, T9, T10, T11, T12, T13, T14, T15, T16, T17, T18, T19, T20, T21) {
    type Join = (T1, T2, T3, T4, T5, T6, T7, T8, T9, T10, T11, T12, T13, T14, T15, T16, T17, T18, T19, T20, T21, T22, T23, T24, T25, T26, T27, T28);

    open spec fn spec_join(self, other: (T22, T23, T24, T25, T26, T27, T28)) -> (T1, T2, T3, T4, T5, T6, T7, T8, T9, T10, T11, T12, T13, T14, T15, T16, T17, T18, T19, T20, T21, T22, T23, T24, T25, T26, T27, T28) {
        (self.0, self.1, self.2, self.3, self.4, self.5, self.6, self.7, self.8, self.9, self.10, self.11, self.12, self.13, self.14, self.15, self.16, self.17, self.18, self.19, self.20, other.0, other.1, other.2, other.3, other.4, other.5, other.6)
    }

    fn join(self, other: (T22, T23, T24, T25, T26, T27, T28)) -> (r: (T1, T2, T3, T4, T5, T6, T7, T8, T9, T10, T11, T12, T13, T14, T15, T16, T17, T18, T19, T20, T21, T22, T23, T24, T25, T26, T27, T28)) {
        (self.0, self.1, self.2, self.3, self.4, self.5, self.6, self.7, self.8, self.9, self.10, self.11, self.12, self.13, self.14, self.15, self.16, self.17, self.18, self.19, self.20, other.0, other.1, other.2, other.3, other.4, other.5, other.6)
    }

    proof fn lemma_join_arity(self, other: (T22, T23, T24, T25, T26, T27, T28)) {
    }
}

impl<T1, T2, T3, T4, T5, T6, T7, T8, T9, T10, T11, T12, T13, T14, T15, T16, T17, T18, T19, T20, T21, T22, T23, T24, T25, T26, T27, T28> JoinableTuple<(T23, T24, T25, T26, T27, T28)> for (T1, T2, T3, T4, T5, T6, T7, T8, T9, T10, T11, T12, T13, T14, T15, T16, T17, T18, T19, T20, T21, T22) {
    type Join = (T1, T2, T3, T4, T5, T6, T7, T8, T9, T10, T11, T12, T13, T14, T15, T16, T17, T18, T19, T20, T21, T22, T23, T24, T25, T26, T27, T28);

    open spec fn spec_join(self, other: (T23, T24, T25, T26, T27, T28)) -> (T1, T2, T3, T4, T5, T6, T7, T8, T9, T10, T11, T12, T13, T14, T15, T16, T17, T18, T19, T20, T21, T22, T23, T24, T25, T26, T27, T28) {
        (self.0, self.1, self.2, self.3, self.4, self.5, self.6, self.7, self.8, self.9, self.10, self.11, self.12, self.13, self.14, self.15, self.16, self.17, self.18, self.19, self.20, self.21, other.0, other.1, other.2, other.3, other.4, other.5)
    }

    fn join(self, other: (T23, T24, T25, T26, T27, T28)) -> (r: (T1, T2, T3, T4, T5, T6, T7, T8, T9, T10, T11, T12, T13, T14, T15, T16, T17, T18, T19, T20, T21, T22, T23, T24, T25, T26, T27, T28)) {
        (self.0, self.1, self.2, self.3, self.4, self.5, self.6, self.7, self.8, self.9, self.10, self.11, self.12, self.13, self.14, self.15, self.16, self.17, self.18, self.19, self.20, self.21, other.0, other.1, other.2, other.3, other.4, other.5)
    }

    proof fn lemma_join_arity(self, other: (T23, T24, T25, T26, T27, T28)) {
    }
}

impl<T1, T2, T3, T4, T5, T6, T7, T8, T9, T10, T11, T12, T13, T14, T15, T16, T17, T18, T19, T20, T21, T22, T23, T24, T25, T26, T27, T28> JoinableTuple<(T24, T25, T26, T27, T28)> for (T1, T2, T3, T4, T5, T6, T7, T8, T9, T10, T11, T12, T13, T14, T15, T16, T17, T18, T19, T20, T21, T22, T23) {
    type Join = (T1, T2, T3, T4, T5, T6, T7, T8, T9, T10, T11, T12, T13, T14, T15, T16, T17, T18, T19, T20, T21, T22, T23, T24, T25, T26, T27, T28);

    open spec fn spec_join(self, other: (T24, T25, T26, T27, T28)) -> (T1, T2, T3, T4, T5, T6, T7, T8, T9, T10, T11, T12, T13, T14, T15, T16, T17, T18, T19, T20, T21, T22, T23, T24, T25, T26, T27, T28) {
        (self.0, self.1, self.2, self.3, self.4, self.5, self.6, self.7, self.8, self.9, self.10, self.11, self.12, self.13, self.14, self.15, self.16, self.17, self.18, self.19, self.20, self.21, self.22, other.0, other.1, other.2, other.3, other.4)
    }

    fn join(self, other: (T24, T25, T26, T27, T28)) -> (r: (T1, T2, T3, T4, T5, T6, T7, T8, T9, T10, T11, T12, T13, T14, T15, T16, T17, T18, T19, T20, T21, T22, T23, T24, T25, T26, T27, T28)) {
        (self.0, self.1, self.2, self.3, self.4, self.5, self.6, self.7, self.8, self.9, self.10, self.11, self.12, self.13, self.14, self.15, self.16, self.17, self.18, self.19, self.20, self.21, self.22, other.0, other.1, other.2, other.3, other.4)
    }

    proof fn lemma_join_arity(self, other: (T24, T25, T26, T27, T28)) {
    }
}

impl<T1, T2, T3, T4, T5, T6, T7, T8, T9, T10, T11, T12, T13, T14, T15, T16, T17, T18, T19, T20, T21, T22, T23, T24, T25, T26, T27, T28> JoinableTuple<(T25, T26, T27, T28)> for (T1, T2, T3, T4, T5, T6, T7, T8, T9, T10, T11, T12, T13, T14, T15, T16, T17, T18, T19, T20, T21, T22, T23, T24) {
    type Join = (T1, T2, T3, T4, T5, T6, T7, T8, T9, T10, T11, T12, T13, T14, T15, T16, T17, T18, T19, T20, T21, T22, T23, T24, T25, T26, T27, T28);

    open spec fn spec_join(self, other: (T25, T26, T27, T28)) -> (T1, T2, T3, T4, T5, T6, T7, T8, T9, T10, T11, T12, T13, T14, T15, T16, T17, T18, T19, T20, T21, T22, T23, T24, T25, T26, T27, T28) {
        (self.0, self.1, self.2, self.3, self.4, self.5, self.6, self.7, self.8, self.9, self.10, self.11, self.12, self.13, self.14, self.15, self.16, self.17, self.18, self.19, self.20, self.21, self.22, self.23, other.0, other.1, other.2, other.3)
    }

    fn join(self, other: (T25, T26, T27, T28)) -> (r: (T1, T2, T3, T4, T5, T6, T7, T8, T9, T10, T11, T12, T13, T14, T15, T16, T17, T18, T19, T20, T21, T22, T23, T24, T25, T26, T27, T28)) {
        (self.0, self.1, self.2, self.3, self.4, self.5, self.6, self.7, self.8, self.9, self.10, self.11, self.12, self.13, self.14, self.15, self.16, self.17, self.18, self.19, self.20, self.21, self.22, self.23, other.0, other.1, other.2, other.3)
    }

    proof fn lemma_join_arity(self, other: (T25, T26, T27, T28)) {
    }
}

impl<T1, T2, T3, T4, T5, T6, T7, T8, T9, T10, T11, T12, T13, T14, T15, T16, T17, T18, T19, T20, T21, T22, T23, T24, T25, T26, T27, T28> JoinableTuple<(T26, T27, T28)> for (T1, T2, T3, T4, T5, T6, T7, T8, T9, T10, T11, T12, T13, T14, T15, T16, T17, T18, T19, T20, T21, T22, T23, T24, T25) {
    type Join = (T1, T2, T3, T4, T5, T6, T7, T8, T9, T10, T11, T12, T13, T14, T15, T16, T17, T18, T19, T20, T21, T22, T23, T24, T25, T26, T27, T28);

    open spec fn spec_join(self, other: (T26, T27, T28)) -> (T1, T2, T3, T4, T5, T6, T7, T8, T9, T10, T11, T12, T13, T14, T15, T16, T17, T18, T19, T20, T21, T22, T23, T24, T25, T26, T27, T28) {
        (self.0, self.1, self.2, self.3, self.4, self.5, self.6, self.7, self.8, self.9, self.10, self.11, self.12, self.13, self.14, self.15, self.16, self.17, self.18, self.19, self.20, self.21, self.22, self.23, self.24, other.0, other.1, other.2)
    }

    fn join(self, other: (T26, T27, T28)) -> (r: (T1, T2, T3, T4, T5, T6, T7, T8, T9, T10, T11, T12, T13, T14, T15, T16, T17, T18, T19, T20, T21, T22, T23, T24, T25, T26, T27, T28)) {
        (self.0, self.1, self.2, self.3, self.4, self.5, self.6, self.7, self.8, self.9, self.10, self.11, self.12, self.13, self.14, self.15, self.16, self.17, self.18, self.19, self.20, self.21, self.22, self.23, self.24, other.0, other.1, other.2)
    }

    proof fn lemma_join_arity(self, other: (T26, T27, T28)) {
    }
}

impl<T1, T2, T3, T4, T5, T6, T7, T8, T9, T10, T11, T12, T13, T14, T15, T16, T17, T18, T19, T20, T21, T22, T23, T24, T25, T26, T27, T28> JoinableTuple<(T27, T28)> for (T1, T2, T3, T4, T5, T6, T7, T8, T9, T10, T11, T12, T13, T14, T15, T16, T17, T18, T19, T20, T21, T22, T23, T24, T25, T26) {
    type Join = (T1, T2, T3, T4, T5, T6, T7, T8, T9, T10, T11, T12, T13, T14, T15, T16, T17, T18, T19, T20, T21, T22, T23, T24, T25, T26, T27, T28);

    open spec fn spec_join(self, other: (T27, T28)) -> (T1, T2, T3, T4, T5, T6, T7, T8, T9, T10, T11, T12, T13, T14, T15, T16, T17, T18, T19, T20, T21, T22, T23, T24, T25, T26, T27, T28) {
        (self.0, self.1, self.2, self.3, self.4, self.5, self.6, self.7, self.8, self.9, self.10, self.11, self.12, self.13, self.14, self.15, self.16, self.17, self.18, self.19, self.20, self.21, self.22, self.23, self.24, self.25, other.0, other.1)
    }

    fn join(self, other: (T27, T28)) -> (r: (T1, T2, T3, T4, T5, T6, T7, T8, T9, T10, T11, T12, T13, T14, T15, T16, T17, T18, T19, T20, T21, T22, T23, T24, T25, T26, T27, T28)) {
        (self.0, self.1, self.2, self.3, self.4, self.5, self.6, self.7, self.8, self.9, self.10, self.11, self.12, self.13, self.14, self.15, self.16, self.17, self.18, self.19, self.20, self.21, self.22, self.23, self.24, self.25, other.0, other.1)
    }

    proof fn lemma_join_arity(self, other: (T27, T28)) {
    }
}

impl<T1, T2, T3, T4, T5, T6, T7, T8, T9, T10, T11, T12, T13, T14, T15, T16, T17, T18, T19, T20, T21, T22, T23, T24, T25, T26, T27, T28> JoinableTuple<(T28,)> for (T1, T2, T3, T4, T5, T6, T7, T8, T9, T10, T11, T12, T13, T14, T15, T16, T17, T18, T19, T20, T21, T22, T23, T24, T25, T26, T27) {
    type Join = (T1, T2, T3, T4, T5, T6, T7, T8, T9, T10, T11, T12, T13, T14, T15, T16, T17, T18, T19, T20, T21, T22, T23, T24, T25, T26, T27, T28);

    open spec fn spec_join(self, other: (T28,)) -> (T1, T2, T3, T4, T5, T6, T7, T8, T9, T10, T11, T12, T13, T14, T15, T16, T17, T18, T19, T20, T21, T22, T23, T24, T25, T26, T27, T28) {
        (self.0, self.1, self.2, self.3, self.4, self.5, self.6, self.7, self.8, self.9, self.10, self.11, self.12, self.13, self.14, self.15, self.16, self.17, self.18, self.19, self.20, self.21, self.22, self.23, self.24, self.25, self.26, other.0)
    }

    fn join(self, other: (T28,)) -> (r: (T1, T2, T3, T4, T5, T6, T7, T8, T9, T10, T11, T12, T13, T14, T15, T16, T17, T18, T19, T20, T21, T22, T23, T24, T25, T26, T27, T28)) {
        (self.0, self.1, self.2, self.3, self.4, self.5, self.6, self.7, self.8, self.9, self.10, self.11, self.12, self.13, self.14, self.15, self.16, self.17, self.18, self.19, self.20, self.21, self.22, self.23, self.24, self.25, self.26, other.0)
    }

    proof fn lemma_join_arity(self, other: (T28,)) {
    }
}

impl<T1, T2, T3, T4, T5, T6, T7, T8, T9, T10, T11, T12, T13, T14, T15, T16, T17, T18, T19, T20, T21, T22, T23, T24, T25, T26, T27, T28> JoinableTuple<()> for (T1, T2, T3, T4, T5, T6, T7, T8, T9, T10, T11, T12, T13, T14, T15, T16, T17, T18, T19, T20, T21, T22, T23, T24, T25, T26, T27, T28) {
    type Join = (T1, T2, T3, T4, T5, T6, T7, T8, T9, T10, T11, T12, T13, T14, T15, T16, T17, T18, T19, T20, T21, T22, T23, T24, T25, T26, T27, T28);

    open spec fn spec_join(self, other: ()) -> (T1, T2, T3, T4, T5, T6, T7, T8, T9, T10, T11, T12, T13, T14, T15, T16, T17, T18, T19, T20, T21, T22, T23, T24, T25, T26, T27, T28) {
        (self.0, self.1, self.2, self.3, self.4, self.5, self.6, self.7, self.8, self.9, self.10, self.11, self.12, self.13, self.14, self.15, self.16, self.17, self.18, self.19, self.20, self.21, self.22, self.23, self.24, self.25, self.26, self.27)
    }

    fn join(self, other: ()) -> (r: (T1, T2, T3, T4, T5, T6, T7, T8, T9, T10, T11, T12, T13, T14, T15, T16, T17, T18, T19, T20, T21, T22, T23, T24, T25, T26, T27, T28)) {
        (self.0, self.1, self.2, self.3, self.4, self.5, self.6, self.7, self.8, self.9, self.10, self.11, self.12, self.13, self.14, self.15, self.16, self.17, self.18, self.19, self.20, self.21, self.22, self.23, self.24, self.25, self.26, self.27)
    }

    proof fn lemma_join_arity(self, other: ()) {
    }
}

impl<T1, T2, T3, T4, T5, T6, T7, T8, T9, T10, T11, T12, T13, T14, T15, T16, T17, T18, T19, T20, T21, T22, T23, T24, T25, T26, T27, T28, T29> Sealed for (T1, T2, T3, T4, T5, T6, T7, T8, T9, T10, T11, T12, T13, T14, T15, T16, T17, T18, T19, T20, T21, T22, T23, T24, T25, T26, T27, T28, T29) {}

impl<T1, T2, T3, T4, T5, T6, T7, T8, T9, T10, T11, T12, T13, T14, T15, T16, T17, T18, T19, T20, T21, T22, T23, T24, T25, T26, T27, T28, T29> DynTuple for (T1, T2, T3, T4, T5, T6, T7, T8, T9, T10, T11, T12, T13, T14, T15, T16, T17, T18, T19, T20, T21, T22, T23, T24, T25, T26, T27, T28, T29) {
    open spec fn spec_arity(&self) -> nat {
        29
    }

    fn arity(&self) -> (r: usize) {
        29
    }
}

impl<T1, T2, T3, T4, T5, T6, T7, T8, T9, T10, T11, T12, T13, T14, T15, T16, T17, T18, T19, T20, T21, T22, T23, T24, T25, T26, T27, T28, T29> Tuple for (T1, T2, T3, T4, T5, T6, T7, T8, T9, T10, T11, T12, T13, T14, T15, T16, T17, T18, T19, T20, T21, T22, T23, T24, T25, T26, T27, T28, T29) {
    const ARITY: usize = 29;

    open spec fn spec_type_arity() -> nat {
        29
    }

    proof fn lemma_arity(&self) {
    }

    proof fn lemma_type_arity() {
    }
}

impl<T1, T2, T3, T4, T5, T6, T7, T8, T9, T10, T11, T12, T13, T14, T15, T16, T17, T18, T19, T20, T21, T22, T23, T24, T25, T26, T27, T28, T29, T> GrowableTuple<T> for (T1, T2, T3, T4, T5, T6, T7, T8, T9, T10, T11, T12, T13, T14, T15, T16, T17, T18, T19, T20, T21, T22, T23, T24, T25, T26, T27, T28, T29) {
    type Append = (T1, T2, T3, T4, T5, T6, T7, T8, T9, T10, T11, T12, T13, T14, T15, T16, T17, T18, T19, T20, T21, T22, T23, T24, T25, T26, T27, T28, T29, T);

    type Prepend = (T, T1, T2, T3, T4, T5, T6, T7, T8, T9, T10, T11, T12, T13, T14, T15, T16, T17, T18, T19, T20, T21, T22, T23, T24, T25, T26, T27, T28, T29);

    open spec fn spec_append(self, value: T) -> (T1, T2, T3, T4, T5, T6, T7, T8, T9, T10, T11, T12, T13, T14, T15, T16, T17, T18, T19, T20, T21, T22, T23, T24, T25, T26, T27, T28, T29, T) {
        (self.0, self.1, self.2, self.3, self.4, self.5, self.6, self.7, self.8, self.9, self.10, self.11, self.12, self.13, self.14, self.15, self.16, self.17, self.18, self.19, self.20, self.21, self.22, self.23, self.24, self.25, self.26, self.27, self.28, value)
    }

    open spec fn spec_prepend(self, value: T) -> (T, T1, T2, T3, T4, T5, T6, T7, T8, T9, T10, T11, T12, T13, T14, T15, T16, T17, T18, T19, T20, T21, T22, T23, T24, T25, T26, T27, T28, T29) {
        (value, self.0, self.1, self.2, self.3, self.4, self.5, self.6, self.7, self.8, self.9, self.10, self.11, self.12, self.13, self.14, self.15, self.16, self.17, self.18, self.19, self.20, self.21, self.22, self.23, self.24, self.25, self.26, self.27, self.28)
    }

    fn append(self, value: T) -> (r: (T1, T2, T3, T4, T5, T6, T7, T8, T9, T10, T11, T12, T13, T14, T15, T16, T17, T18, T19, T20, T21, T22, T23, T24, T25, T26, T27, T28, T29, T)) {
        (self.0, self.1, self.2, self.3, self.4, self.5, self.6, self.7, self.8, self.9, self.10, self.11, self.12, self.13, self.14, self.15, self.16, self.17, self.18, self.19, self.20, self.21, self.22, self.23, self.24, self.25, self.26, self.27, self.28, value)
    }

    fn prepend(self, value: T) -> (r: (T, T1, T2, T3, T4, T5, T6, T7, T8, T9, T10, T11, T12, T13, T14, T15, T16, T17, T18, T19, T20, T21, T22, T23, T24, T25, T26, T27, T28, T29)) {
        (value, self.0, self.1, self.2, self.3, self.4, self.5, self.6, self.7, self.8, self.9, self.10, self.11, self.12, self.13, self.14, self.15, self.16, self.17, self.18, self.19, self.20, self.21, self.22, self.23, self.24, self.25, self.26, self.27, self.28)
    }

    proof fn lemma_grow_arity(self, value: T) {
    }
}

impl<T1, T2, T3, T4, T5, T6, T7, T8, T9, T10, T11, T12, T13, T14, T15, T16, T17, T18, T19, T20, T21, T22, T23, T24, T25, T26, T27, T28, T29> NonEmptyTuple for (T1, T2, T3, T4, T5, T6, T7, T8, T9, T10, T11, T12, T13, T14, T15, T16, T17, T18, T19, T20, T21, T22, T23, T24, T25, T26, T27, T28, T29) {
    type Head = T1;

    type Tail = T29;

    type TruncateHead = (T2, T3, T4, T5, T6, T7, T8, T9, T10, T11, T12, T13, T14, T15, T16, T17, T18, T19, T20, T21, T22, T23, T24, T25, T26, T27, T28, T29);

    type TruncateTail = (T1, T2, T3, T4, T5, T6, T7, T8, T9, T10, T11, T12, T13, T14, T15, T16, T17, T18, T19, T20, T21, T22, T23, T24, T25, T26, T27, T28);

    open spec fn spec_head(&self) -> T1 {
        self.0
    }

    open spec fn spec_tail(&self) -> T29 {
        self.28
    }

    open spec fn spec_with_head(self, value: T1) -> (T1, T2, T3, T4, T5, T6, T7, T8, T9, T10, T11, T12, T13, T14, T15, T16, T17, T18, T19, T20, T21, T22, T23, T24, T25, T26, T27, T28, T29) {
        (value, self.1, self.2, self.3, self.4, self.5, self.6, self.7, self.8, self.9, self.10, self.11, self.12, self.13, self.14, self.15, self.16, self.17, self.18, self.19, self.20, self.21, self.22, self.23, self.24, self.25, self.26, self.27, self.28)
    }

    open spec fn spec_with_tail(self, value: T29) -> (T1, T2, T3, T4, T5, T6, T7, T8, T9, T10, T11, T12, T13, T14, T15, T16, T17, T18, T19, T20, T21, T22, T23, T24, T25, T26, T27, T28, T29) {
        (self.0, self.1, self.2, self.3, self.4, self.5, self.6, self.7, self.8, self.9, self.10, self.11, self.12, self.13, self.14, self.15, self.16, self.17, self.18, self.19, self.20, self.21, self.22, self.23, self.24, self.25, self.26, self.27, value)
    }

    open spec fn spec_truncate_head(self) -> (T1, (T2, T3, T4, T5, T6, T7, T8, T9, T10, T11, T12, T13, T14, T15, T16, T17, T18, T19, T20, T21, T22, T23, T24, T25, T26, T27, T28, T29)) {
        (self.0, (self.1, self.2, self.3, self.4, self.5, self.6, self.7, self.8, self.9, self.10, self.11, self.12, self.13, self.14, self.15, self.16, self.17, self.18, self.19, self.20, self.21, self.22, self.23, self.24, self.25, self.26, self.27, self.28))
    }

    open spec fn spec_truncate_tail(self) -> ((T1, T2, T3, T4, T5, T6, T7, T8, T9, T10, T11, T12, T13, T14, T15, T16, T17, T18, T19, T20, T21, T22, T23, T24, T25, T26, T27, T28), T29) {
        ((self.0, self.1, self.2, self.3, self.4, self.5, self.6, self.7, self.8, self.9, self.10, self.11, self.12, self.13, self.14, self.15, self.16, self.17, self.18, self.19, self.20, self.21, self.22, self.23, self.24, self.25, self.26, self.27), self.28)
    }

    fn head(&self) -> (r: &T1) {
        &self.0
    }

    fn head_mut(&mut self) -> (r: &mut T1) {
        &mut self.0
    }

    fn tail(&self) -> (r: &T29) {
        &self.28
    }

    fn tail_mut(&mut self) -> (r: &mut T29) {
        &mut self.28
    }

    fn truncate_head(self) -> (r: (T1, (T2, T3, T4, T5, T6, T7, T8, T9, T10, T11, T12, T13, T14, T15, T16, T17, T18, T19, T20, T21, T22, T23, T24, T25, T26, T27, T28, T29))) {
        (self.0, (self.1, self.2, self.3, self.4, self.5, self.6, self.7, self.8, self.9, self.10, self.11, self.12, self.13, self.14, self.15, self.16, self.17, self.18, self.19, self.20, self.21, self.22, self.23, self.24, self.25, self.26, self.27, self.28))
    }

    fn truncate_tail(self) -> (r: ((T1, T2, T3, T4, T5, T6, T7, T8, T9, T10, T11, T12, T13, T14, T15, T16, T17, T18, T19, T20, T21, T22, T23, T24, T25, T26, T27, T28), T29)) {
        ((self.0, self.1, self.2, self.3, self.4, self.5, self.6, self.7, self.8, self.9, self.10, self.11, self.12, self.13, self.14, self.15, self.16, self.17, self.18, self.19, self.20, self.21, self.22, self.23, self.24, self.25, self.26, self.27), self.28)
    }

    proof fn lemma_truncate_head(self) {
    }

    proof fn lemma_truncate_tail(self) {
    }
}

impl<T1, T2, T3, T4, T5, T6, T7, T8, T9, T10, T11, T12, T13, T14, T15, T16, T17, T18, T19, T20, T21, T22, T23, T24, T25, T26, T27, T28, T29> NonUnaryTuple for (T1, T2, T3, T4, T5, T6, T7, T8, T9, T10, T11, T12, T13, T14, T15, T16, T17, T18, T19, T20, T21, T22, T23, T24, T25, T26, T27, T28, T29) {
    type TruncateHeadTail = (T2, T3, T4, T5, T6, T7, T8, T9, T10, T11, T12, T13, T14, T15, T16, T17, T18, T19, T20, T21, T22, T23, T24, T25, T26, T27, T28);

    open spec fn spec_truncate_head_tail(self) -> (T1, (T2, T3, T4, T5, T6, T7, T8, T9, T10, T11, T12, T13, T14, T15, T16, T17, T18, T19, T20, T21, T22, T23, T24, T25, T26, T27, T28), T29) {
        (self.0, (self.1, self.2, self.3, self.4, self.5, self.6, self.7, self.8, self.9, self.10, self.11, self.12, self.13, self.14, self.15, self.16, self.17, self.18, self.19, self.20, self.21, self.22, self.23, self.24, self.25, self.26, self.27), self.28)
    }

    fn head_tail(&self) -> (r: (&T1, &T29)) {
        (&self.0, &self.28)
    }

    fn head_tail_mut(&mut self) -> (r: (&mut T1, &mut T29)) {
        (&mut self.0, &mut self.28)
    }

    fn truncate_head_tail(self) -> (r: (T1, (T2, T3, T4, T5, T6, T7, T8, T9, T10, T11, T12, T13, T14, T15, T16, T17, T18, T19, T20, T21, T22, T23, T24, T25, T26, T27, T28), T29)) {
        (self.0, (self.1, self.2, self.3, self.4, self.5, self.6, self.7, self.8, self.9, self.10, self.11, self.12, self.13, self.14, self.15, self.16, self.17, self.18, self.19, self.20, self.21, self.22, self.23, self.24, self.25, self.26, self.27), self.28)
    }

    proof fn lemma_truncate_head_tail(self) {
    }
}

impl<T1, T2, T3, T4, T5, T6, T7, T8, T9, T10, T11, T12, T13, T14, T15, T16, T17, T18, T19, T20, T21, T22, T23, T24, T25, T26, T27, T28, T29> IndexableTuple<0> for (T1, T2, T3, T4, T5, T6, T7, T8, T9, T10, T11, T12, T13, T14, T15, T16, T17, T18, T19, T20, T21, T22, T23, T24, T25, T26, T27, T28, T29) {
    type Value = T1;

    open spec fn spec_index(&self) -> T1 {
        self.0
    }

    open spec fn spec_with_index(self, value: T1) -> (T1, T2, T3, T4, T5, T6, T7, T8, T9, T10, T11, T12, T13, T14, T15, T16, T17, T18, T19, T20, T21, T22, T23, T24, T25, T26, T27, T28, T29) {
        (value, self.1, self.2, self.3, self.4, self.5, self.6, self.7, self.8, self.9, self.10, self.11, self.12, self.13, self.14, self.15, self.16, self.17, self.18, self.19, self.20, self.21, self.22, self.23, self.24, self.25, self.26, self.27, self.28)
    }

    fn index_ref(&self) -> (r: &T1) {
        &self.0
    }

    fn index_mut(&mut self) -> (r: &mut T1) {
        &mut self.0
    }

    fn into_index(self) -> (r: T1) {
        self.0
    }

    proof fn lemma_index_in_range(&self) {
    }
}

impl<T1, T2, T3, T4, T5, T6, T7, T8, T9, T10, T11, T12, T13, T14, T15, T16, T17, T18, T19, T20, T21, T22, T23, T24, T25, T26, T27, T28, T29> IndexableTuple<1> for (T1, T2, T3, T4, T5, T6, T7, T8, T9, T10, T11, T12, T13, T14, T15, T16, T17, T18, T19, T20, T21, T22, T23, T24, T25, T26, T27, T28, T29) {
    type Value = T2;

    open spec fn spec_index(&self) -> T2 {
        self.1
    }

    open spec fn spec_with_index(self, value: T2) -> (T1, T2, T3, T4, T5, T6, T7, T8, T9, T10, T11, T12, T13, T14, T15, T16, T17, T18, T19, T20, T21, T22, T23, T24, T25, T26, T27, T28, T29) {
        (self.0, value, self.2, self.3, self.4, self.5, self.6, self.7, self.8, self.9, self.10, self.11, self.12, self.13, self.14, self.15, self.16, self.17, self.18, self.19, self.20, self.21, self.22, self.23, self.24, self.25, self.26, self.27, self.28)
    }

    fn index_ref(&self) -> (r: &T2) {
        &self.1
    }

    fn index_mut(&mut self) -> (r: &mut T2) {
        &mut self.1
    }

    fn into_index(self) -> (r: T2) {
        self.1
    }

    proof fn lemma_index_in_range(&self) {
    }
}

impl<T1, T2, T3, T4, T5, T6, T7, T8, T9, T10, T11, T12, T13, T14, T15, T16, T17, T18, T19, T20, T21, T22, T23, T24, T25, T26, T27, T28, T29> IndexableTuple<2> for (T1, T2, T3, T4, T5, T6, T7, T8, T9, T10, T11, T12, T13, T14, T15, T16, T17, T18, T19, T20, T21, T22, T23, T24, T25, T26, T27, T28, T29) {
    type Value = T3;

    open spec fn spec_index(&self) -> T3 {
        self.2
    }

    open spec fn spec_with_index(self, value: T3) -> (T1, T2, T3, T4, T5, T6, T7, T8, T9, T10, T11, T12, T13, T14, T15, T16, T17, T18, T19, T20, T21, T22, T23, T24, T25, T26, T27, T28, T29) {
        (self.0, self.1, value, self.3, self.4, self.5, self.6, self.7, self.8, self.9, self.10, self.11, self.12, self.13, self.14, self.15, self.16, self.17, self.18, self.19, self.20, self.21, self.22, self.23, self.24, self.25, self.26, self.27, self.28)
    }

    fn index_ref(&self) -> (r: &T3) {
        &self.2
    }

    fn index_mut(&mut self) -> (r: &mut T3) {
        &mut self.2
    }

    fn into_index(self) -> (r: T3) {
        self.2
    }

    proof fn lemma_index_in_range(&self) {
    }
}

impl<T1, T2, T3, T4, T5, T6, T7, T8, T9, T10, T11, T12, T13, T14, T15, T16, T17, T18, T19, T20, T21, T22, T23, T24, T25, T26, T27, T28, T29> IndexableTuple<3> for (T1, T2, T3, T4, T5, T6, T7, T8, T9, T10, T11, T12, T13, T14, T15, T16, T17, T18, T19, T20, T21, T22, T23, T24, T25, T26, T27, T28, T29) {
    type Value = T4;

    open spec fn spec_index(&self) -> T4 {
        self.3
    }

    open spec fn spec_with_index(self, value: T4) -> (T1, T2, T3, T4, T5, T6, T7, T8, T9, T10, T11, T12, T13, T14, T15, T16, T17, T18, T19, T20, T21, T22, T23, T24, T25, T26, T27, T28, T29) {
        (self.0, self.1, self.2, value, self.4, self.5, self.6, self.7, self.8, self.9, self.10, self.11, self.12, self.13, self.14, self.15, self.16, self.17, self.18, self.19, self.20, self.21, self.22, self.23, self.24, self.25, self.26, self.27, self.28)
    }

    fn index_ref(&self) -> (r: &T4) {
        &self.3
    }

    fn index_mut(&mut self) -> (r: &mut T4) {
        &mut self.3
    }

    fn into_index(self) -> (r: T4) {
        self.3
    }

    proof fn lemma_index_in_range(&self) {
    }
}

impl<T1, T2, T3, T4, T5, T6, T7, T8, T9, T10, T11, T12, T13, T14, T15, T16, T17, T18, T19, T20, T21, T22, T23, T24, T25, T26, T27, T28, T29> IndexableTuple<4> for (T1, T2, T3, T4, T5, T6, T7, T8, T9, T10, T11, T12, T13, T14, T15, T16, T17, T18, T19, T20, T21, T22, T23, T24, T25, T26, T27, T28, T29) {
    type Value = T5;

    open spec fn spec_index(&self) -> T5 {
        self.4
    }

    open spec fn spec_with_index(self, value: T5) -> (T1, T2, T3, T4, T5, T6, T7, T8, T9, T10, T11, T12, T13, T14, T15, T16, T17, T18, T19, T20, T21, T22, T23, T24, T25, T26, T27, T28, T29) {
        (self.0, self.1, self.2, self.3, value, self.5, self.6, self.7, self.8, self.9, self.10, self.11, self.12, self.13, self.14, self.15, self.16, self.17, self.18, self.19, self.20, self.21, self.22, self.23, self.24, self.25, self.26, self.27, self.28)
    }

    fn index_ref(&self) -> (r: &T5) {
        &self.4
    }

    fn index_mut(&mut self) -> (r: &mut T5) {
        &mut self.4
    }

    fn into_index(self) -> (r: T5) {
        self.4
    }

    proof fn lemma_index_in_range(&self) {
    }
}

impl<T1, T2, T3, T4, T5, T6, T7, T8, T9, T10, T11, T12, T13, T14, T15, T16, T17, T18, T19, T20, T21, T22, T23, T24, T25, T26, T27, T28, T29> IndexableTuple<5> for (T1, T2, T3, T4, T5, T6, T7, T8, T9, T10, T11, T12, T13, T14, T15, T16, T17, T18, T19, T20, T21, T22, T23, T24, T25, T26, T27, T28, T29) {
    type Value = T6;

    open spec fn spec_index(&self) -> T6 {
        self.5
    }

    open spec fn spec_with_index(self, value: T6) -> (T1, T2, T3, T4, T5, T6, T7, T8, T9, T10, T11, T12, T13, T14, T15, T16, T17, T18, T19, T20, T21, T22, T23, T24, T25, T26, T27, T28, T29) {
        (self.0, self.1, self.2, self.3, self.4, value, self.6, self.7, self.8, self.9, self.10, self.11, self.12, self.13, self.14, self.15, self.16, self.17, self.18, self.19, self.20, self.21, self.22, self.23, self.24, self.25, self.26, self.27, self.28)
    }

    fn index_ref(&self) -> (r: &T6) {
        &self.5
    }

    fn index_mut(&mut self) -> (r: &mut T6) {
        &mut self.5
    }

    fn into_index(self) -> (r: T6) {
        self.5
    }

    proof fn lemma_index_in_range(&self) {
    }
}

impl<T1, T2, T3, T4, T5, T6, T7, T8, T9, T10, T11, T12, T13, T14, T15, T16, T17, T18, T19, T20, T21, T22, T23, T24, T25, T26, T27, T28, T29> IndexableTuple<6> for (T1, T2, T3, T4, T5, T6, T7, T8, T9, T10, T11, T12, T13, T14, T15, T16, T17, T18, T19, T20, T21, T22, T23, T24, T25, T26, T27, T28, T29) {
    type Value = T7;

    open spec fn spec_index(&self) -> T7 {
        self.6
    }

    open spec fn spec_with_index(self, value: T7) -> (T1, T2, T3, T4, T5, T6, T7, T8, T9, T10, T11, T12, T13, T14, T15, T16, T17, T18, T19, T20, T21, T22, T23, T24, T25, T26, T27, T28, T29) {
        (self.0, self.1, self.2, self.3, self.4, self.5, value, self.7, self.8, self.9, self.10, self.11, self.12, self.13, self.14, self.15, self.16, self.17, self.18, self.19, self.20, self.21, self.22, self.23, self.24, self.25, self.26, self.27, self.28)
    }

    fn index_ref(&self) -> (r: &T7) {
        &self.6
    }

    fn index_mut(&mut self) -> (r: &mut T7) {
        &mut self.6
    }

    fn into_index(self) -> (r: T7) {
        self.6
    }

    proof fn lemma_index_in_range(&self) {
    }
}

impl<T1, T2, T3, T4, T5, T6, T7, T8, T9, T10, T11, T12, T13, T14, T15, T16, T17, T18, T19, T20, T21, T22, T23, T24, T25, T26, T27, T28, T29> IndexableTuple<7> for (T1, T2, T3, T4, T5, T6, T7, T8, T9, T10, T11, T12, T13, T14, T15, T16, T17, T18, T19, T20, T21, T22, T23, T24, T25, T26, T27, T28, T29) {
    type Value = T8;

    open spec fn spec_index(&self) -> T8 {
        self.7
    }

    open spec fn spec_with_index(self, value: T8) -> (T1, T2, T3, T4, T5, T6, T7, T8, T9, T10, T11, T12, T13, T14, T15, T16, T17, T18, T19, T20, T21, T22, T23, T24, T25, T26, T27, T28, T29) {
        (self.0, self.1, self.2, self.3, self.4, self.5, self.6, value, self.8, self.9, self.10, self.11, self.12, self.13, self.14, self.15, self.16, self.17, self.18, self.19, self.20, self.21, self.22, self.23, self.24, self.25, self.26, self.27, self.28)
    }

    fn index_ref(&self) -> (r: &T8) {
        &self.7
    }

    fn index_mut(&mut self) -> (r: &mut T8) {
        &mut self.7
    }

    fn into_index(self) -> (r: T8) {
        self.7
    }

    proof fn lemma_index_in_range(&self) {
    }
}

impl<T1, T2, T3, T4, T5, T6, T7, T8, T9, T10, T11, T12, T13, T14, T15, T16, T17, T18, T19, T20, T21, T22, T23, T24, T25, T26, T27, T28, T29> IndexableTuple<8> for (T1, T2, T3, T4, T5, T6, T7, T8, T9, T10, T11, T12, T13, T14, T15, T16, T17, T18, T19, T20, T21, T22, T23, T24, T25, T26, T27, T28, T29) {
    type Value = T9;

    open spec fn spec_index(&self) -> T9 {
        self.8
    }

    open spec fn spec_with_index(self, value: T9) -> (T1, T2, T3, T4, T5, T6, T7, T8, T9, T10, T11, T12, T13, T14, T15, T16, T17, T18, T19, T20, T21, T22, T23, T24, T25, T26, T27, T28, T29) {
        (self.0, self.1, self.2, self.3, self.4, self.5, self.6, self.7, value, self.9, self.10, self.11, self.12, self.13, self.14, self.15, self.16, self.17, self.18, self.19, self.20, self.21, self.22, self.23, self.24, self.25, self.26, self.27, self.28)
    }

    fn index_ref(&self) -> (r: &T9) {
        &self.8
    }

    fn index_mut(&mut self) -> (r: &mut T9) {
        &mut self.8
    }

    fn into_index(self) -> (r: T9) {
        self.8
    }

    proof fn lemma_index_in_range(&self) {
    }
}

impl<T1, T2, T3, T4, T5, T6, T7, T8, T9, T10, T11, T12, T13, T14, T15, T16, T17, T18, T19, T20, T21, T22, T23, T24, T25, T26, T27, T28, T29> IndexableTuple<9> for (T1, T2, T3, T4, T5, T6, T7, T8, T9, T10, T11, T12, T13, T14, T15, T16, T17, T18, T19, T20, T21, T22, T23, T24, T25, T26, T27, T28, T29) {
    type Value = T10;

    open spec fn spec_index(&self) -> T10 {
        self.9
    }

    open spec fn spec_with_index(self, value: T10) -> (T1, T2, T3, T4, T5, T6, T7, T8, T9, T10, T11, T12, T13, T14, T15, T16, T17, T18, T19, T20, T21, T22, T23, T24, T25, T26, T27, T28, T29) {
        (self.0, self.1, self.2, self.3, self.4, self.5, self.6, self.7, self.8, value, self.10, self.11, self.12, self.13, self.14, self.15, self.16, self.17, self.18, self.19, self.20, self.21, self.22, self.23, self.24, self.25, self.26, self.27, self.28)
    }

    fn index_ref(&self) -> (r: &T10) {
        &self.9
    }

    fn index_mut(&mut self) -> (r: &mut T10) {
        &mut self.9
    }

    fn into_index(self) -> (r: T10) {
        self.9
    }

    proof fn lemma_index_in_range(&self) {
    }
}

impl<T1, T2, T3, T4, T5, T6, T7, T8, T9, T10, T11, T12, T13, T14, T15, T16, T17, T18, T19, T20, T21, T22, T23, T24, T25, T26, T27, T28, T29> IndexableTuple<10> for (T1, T2, T3, T4, T5, T6, T7, T8, T9, T10, T11, T12, T13, T14, T15, T16, T17, T18, T19, T20, T21, T22, T23, T24, T25, T26, T27, T28, T29) {
    type Value = T11;

    open spec fn spec_index(&self) -> T11 {
        self.10
    }

    open spec fn spec_with_index(self, value: T11) -> (T1, T2, T3, T4, T5, T6, T7, T8, T9, T10, T11, T12, T13, T14, T15, T16, T17, T18, T19, T20, T21, T22, T23, T24, T25, T26, T27, T28, T29) {
        (self.0, self.1, self.2, self.3, self.4, self.5, self.6, self.7, self.8, self.9, value, self.11, self.12, self.13, self.14, self.15, self.16, self.17, self.18, self.19, self.20, self.21, self.22, self.23, self.24, self.25, self.26, self.27, self.28)
    }

    fn index_ref(&self) -> (r: &T11) {
        &self.10
    }

    fn index_mut(&mut self) -> (r: &mut T11) {
        &mut self.10
    }

    fn into_index(self) -> (r: T11) {
        self.10
    }

    proof fn lemma_index_in_range(&self) {
    }
}

impl<T1, T2, T3, T4, T5, T6, T7, T8, T9, T10, T11, T12, T13, T14, T15, T16, T17, T18, T19, T20, T21, T22, T23, T24, T25, T26, T27, T28, T29> IndexableTuple<11> for (T1, T2, T3, T4, T5, T6, T7, T8, T9, T10, T11, T12, T13, T14, T15, T16, T17, T18, T19, T20, T21, T22, T23, T24, T25, T26, T27, T28, T29) {
    type Value = T12;

    open spec fn spec_index(&self) -> T12 {
        self.11
    }

    open spec fn spec_with_index(self, value: T12) -> (T1, T2, T3, T4, T5, T6, T7, T8, T9, T10, T11, T12, T13, T14, T15, T16, T17, T18, T19, T20, T21, T22, T23, T24, T25, T26, T27, T28, T29) {
        (self.0, self.1, self.2, self.3, self.4, self.5, self.6, self.7, self.8, self.9, self.10, value, self.12, self.13, self.14, self.15, self.16, self.17, self.18, self.19, self.20, self.21, self.22, self.23, self.24, self.25, self.26, self.27, self.28)
    }

    fn index_ref(&self) -> (r: &T12) {
        &self.11
    }

    fn index_mut(&mut self) -> (r: &mut T12) {
        &mut self.11
    }

    fn into_index(self) -> (r: T12) {
        self.11
    }

    proof fn lemma_index_in_range(&self) {
    }
}

impl<T1, T2, T3, T4, T5, T6, T7, T8, T9, T10, T11, T12, T13, T14, T15, T16, T17, T18, T19, T20, T21, T22, T23, T24, T25, T26, T27, T28, T29> IndexableTuple<12> for (T1, T2, T3, T4, T5, T6, T7, T8, T9, T10, T11, T12, T13, T14, T15, T16, T17, T18, T19, T20, T21, T22, T23, T24, T25, T26, T27, T28, T29) {
    type Value = T13;

    open spec fn spec_index(&self) -> T13 {
        self.12
    }

    open spec fn spec_with_index(self, value: T13) -> (T1, T2, T3, T4, T5, T6, T7, T8, T9, T10, T11, T12, T13, T14, T15, T16, T17, T18, T19, T20, T21, T22, T23, T24, T25, T26, T27, T28, T29) {
        (self.0, self.1, self.2, self.3, self.4, self.5, self.6, self.7, self.8, self.9, self.10, self.11, value, self.13, self.14, self.15, self.16, self.17, self.18, self.19, self.20, self.21, self.22, self.23, self.24, self.25, self.26, self.27, self.28)
    }

    fn index_ref(&self) -> (r: &T13) {
        &self.12
    }

    fn index_mut(&mut self) -> (r: &mut T13) {
        &mut self.12
    }

    fn into_index(self) -> (r: T13) {
        self.12
    }

    proof fn lemma_index_in_range(&self) {
    }
}

impl<T1, T2, T3, T4, T5, T6, T7, T8, T9, T10, T11, T12, T13, T14, T15, T16, T17, T18, T19, T20, T21, T22, T23, T24, T25, T26, T27, T28, T29> IndexableTuple<13> for (T1, T2, T3, T4, T5, T6, T7, T8, T9, T10, T11, T12, T13, T14, T15, T16, T17, T18, T19, T20, T21, T22, T23, T24, T25, T26, T27, T28, T29) {
    type Value = T14;

    open spec fn spec_index(&self) -> T14 {
        self.13
    }

    open spec fn spec_with_index(self, value: T14) -> (T1, T2, T3, T4, T5, T6, T7, T8, T9, T10, T11, T12, T13, T14, T15, T16, T17, T18, T19, T20, T21, T22, T23, T24, T25, T26, T27, T28, T29) {
        (self.0, self.1, self.2, self.3, self.4, self.5, self.6, self.7, self.8, self.9, self.10, self.11, self.12, value, self.14, self.15, self.16, self.17, self.18, self.19, self.20, self.21, self.22, self.23, self.24, self.25, self.26, self.27, self.28)
    }

    fn index_ref(&self) -> (r: &T14) {
        &self.13
    }

    fn index_mut(&mut self) -> (r: &mut T14) {
        &mut self.13
    }

    fn into_index(self) -> (r: T14) {
        self.13
    }

    proof fn lemma_index_in_range(&self) {
    }
}

impl<T1, T2, T3, T4, T5, T6, T7, T8, T9, T10, T11, T12, T13, T14, T15, T16, T17, T18, T19, T20, T21, T22, T23, T24, T25, T26, T27, T28, T29> IndexableTuple<14> for (T1, T2, T3, T4, T5, T6, T7, T8, T9, T10, T11, T12, T13, T14, T15, T16, T17, T18, T19, T20, T21, T22, T23, T24, T25, T26, T27, T28, T29) {
    type Value = T15;

    open spec fn spec_index(&self) -> T15 {
        self.14
    }

    open spec fn spec_with_index(self, value: T15) -> (T1, T2, T3, T4, T5, T6, T7, T8, T9, T10, T11, T12, T13, T14, T15, T16, T17, T18, T19, T20, T21, T22, T23, T24, T25, T26, T27, T28, T29) {
        (self.0, self.1, self.2, self.3, self.4, self.5, self.6, self.7, self.8, self.9, self.10, self.11, self.12, self.13, value, self.15, self.16, self.17, self.18, self.19, self.20, self.21, self.22, self.23, self.24, self.25, self.26, self.27, self.28)
    }

    fn index_ref(&self) -> (r: &T15) {
        &self.14
    }

    fn index_mut(&mut self) -> (r: &mut T15) {
        &mut self.14
    }

    fn into_index(self) -> (r: T15) {
        self.14
    }

    proof fn lemma_index_in_range(&self) {
    }
}

impl<T1, T2, T3, T4, T5, T6, T7, T8, T9, T10, T11, T12, T13, T14, T15, T16, T17, T18, T19, T20, T21, T22, T23, T24, T25, T26, T27, T28, T29> IndexableTuple<15> for (T1, T2, T3, T4, T5, T6, T7, T8, T9, T10, T11, T12, T13, T14, T15, T16, T17, T18, T19, T20, T21, T22, T23, T24, T25, T26, T27, T28, T29) {
    type Value = T16;

    open spec fn spec_index(&self) -> T16 {
        self.15
    }

    open spec fn spec_with_index(self, value: T16) -> (T1, T2, T3, T4, T5, T6, T7, T8, T9, T10, T11, T12, T13, T14, T15, T16, T17, T18, T19, T20, T21, T22, T23, T24, T25, T26, T27, T28, T29) {
        (self.0, self.1, self.2, self.3, self.4, self.5, self.6, self.7, self.8, self.9, self.10, self.11, self.12, self.13, self.14, value, self.16, self.17, self.18, self.19, self.20, self.21, self.22, self.23, self.24, self.25, self.26, self.27, self.28)
    }

    fn index_ref(&self) -> (r: &T16) {
        &self.15
    }

    fn index_mut(&mut self) -> (r: &mut T16) {
        &mut self.15
    }

    fn into_index(self) -> (r: T16) {
        self.15
    }

    proof fn lemma_index_in_range(&self) {
    }
}

impl<T1, T2, T3, T4, T5, T6, T7, T8, T9, T10, T11, T12, T13, T14, T15, T16, T17, T18, T19, T20, T21, T22, T23, T24, T25, T26, T27, T28, T29> IndexableTuple<16> for (T1, T2, T3, T4, T5, T6, T7, T8, T9, T10, T11, T12, T13, T14, T15, T16, T17, T18, T19, T20, T21, T22, T23, T24, T25, T26, T27, T28, T29) {
    type Value = T17;

    open spec fn spec_index(&self) -> T17 {
        self.16
    }

    open spec fn spec_with_index(self, value: T17) -> (T1, T2, T3, T4, T5, T6, T7, T8, T9, T10, T11, T12, T13, T14, T15, T16, T17, T18, T19, T20, T21, T22, T23, T24, T25, T26, T27, T28, T29) {
        (self.0, self.1, self.2, self.3, self.4, self.5, self.6, self.7, self.8, self.9, self.10, self.11, self.12, self.13, self.14, self.15, value, self.17, self.18, self.19, self.20, self.21, self.22, self.23, self.24, self.25, self.26, self.27, self.28)
    }

    fn index_ref(&self) -> (r: &T17) {
        &self.16
    }

    fn index_mut(&mut self) -> (r: &mut T17) {
        &mut self.16
    }

    fn into_index(self) -> (r: T17) {
        self.16
    }

    proof fn lemma_index_in_range(&self) {
    }
}

impl<T1, T2, T3, T4, T5, T6, T7, T8, T9, T10, T11, T12, T13, T14, T15, T16, T17, T18, T19, T20, T21, T22, T23, T24, T25, T26, T27, T28, T29> IndexableTuple<17> for (T1, T2, T3, T4, T5, T6, T7, T8, T9, T10, T11, T12, T13, T14, T15, T16, T17, T18, T19, T20, T21, T22, T23, T24, T25, T26, T27, T28, T29) {
    type Value = T18;

    open spec fn spec_index(&self) -> T18 {
        self.17
    }

    open spec fn spec_with_index(self, value: T18) -> (T1, T2, T3, T4, T5, T6, T7, T8, T9, T10, T11, T12, T13, T14, T15, T16, T17, T18, T19, T20, T21, T22, T23, T24, T25, T26, T27, T28, T29) {
        (self.0, self.1, self.2, self.3, self.4, self.5, self.6, self.7, self.8, self.9, self.10, self.11, self.12, self.13, self.14, self.15, self.16, value, self.18, self.19, self.20, self.21, self.22, self.23, self.24, self.25, self.26, self.27, self.28)
    }

    fn index_ref(&self) -> (r: &T18) {
        &self.17
    }

    fn index_mut(&mut self) -> (r: &mut T18) {
        &mut self.17
    }

    fn into_index(self) -> (r: T18) {
        self.17
    }

    proof fn lemma_index_in_range(&self) {
    }
}

impl<T1, T2, T3, T4, T5, T6, T7, T8, T9, T10, T11, T12, T13, T14, T15, T16, T17, T18, T19, T20, T21, T22, T23, T24, T25, T26, T27, T28, T29> IndexableTuple<18> for (T1, T2, T3, T4, T5, T6, T7, T8, T9, T10, T11, T12, T13, T14, T15, T16, T17, T18, T19, T20, T21, T22, T23, T24, T25, T26, T27, T28, T29) {
    type Value = T19;

    open spec fn spec_index(&self) -> T19 {
        self.18
    }

    open spec fn spec_with_index(self, value: T19) -> (T1, T2, T3, T4, T5, T6, T7, T8, T9, T10, T11, T12, T13, T14, T15, T16, T17, T18, T19, T20, T21, T22, T23, T24, T25, T26, T27, T28, T29) {
        (self.0, self.1, self.2, self.3, self.4, self.5, self.6, self.7, self.8, self.9, self.10, self.11, self.12, self.13, self.14, self.15, self.16, self.17, value, self.19, self.20, self.21, self.22, self.23, self.24, self.25, self.26, self.27, self.28)
    }

    fn index_ref(&self) -> (r: &T19) {
        &self.18
    }

    fn index_mut(&mut self) -> (r: &mut T19) {
        &mut self.18
    }

    fn into_index(self) -> (r: T19) {
        self.18
    }

    proof fn lemma_index_in_range(&self) {
    }
}

impl<T1, T2, T3, T4, T5, T6, T7, T8, T9, T10, T11, T12, T13, T14, T15, T16, T17, T18, T19, T20, T21, T22, T23, T24, T25, T26, T27, T28, T29> IndexableTuple<19> for (T1, T2, T3, T4, T5, T6, T7, T8, T9, T10, T11, T12, T13, T14, T15, T16, T17, T18, T19, T20, T21, T22, T23, T24, T25, T26, T27, T28, T29) {
    type Value = T20;

    open spec fn spec_index(&self) -> T20 {
        self.19
    }

    open spec fn spec_with_index(self, value: T20) -> (T1, T2, T3, T4, T5, T6, T7, T8, T9, T10, T11, T12, T13, T14, T15, T16, T17, T18, T19, T20, T21, T22, T23, T24, T25, T26, T27, T28, T29) {
        (self.0, self.1, self.2, self.3, self.4, self.5, self.6, self.7, self.8, self.9, self.10, self.11, self.12, self.13, self.14, self.15, self.16, self.17, self.18, value, self.20, self.21, self.22, self.23, self.24, self.25, self.26, self.27, self.28)
    }

    fn index_ref(&self) -> (r: &T20) {
        &self.19
    }

    fn index_mut(&mut self) -> (r: &mut T20) {
        &mut self.19
    }

    fn into_index(self) -> (r: T20) {
        self.19
    }

    proof fn lemma_index_in_range(&self) {
    }
}

impl<T1, T2, T3, T4, T5, T6, T7, T8, T9, T10, T11, T12, T13, T14, T15, T16, T17, T18, T19, T20, T21, T22, T23, T24, T25, T26, T27, T28, T29> IndexableTuple<20> for (T1, T2, T3, T4, T5, T6, T7, T8, T9, T10, T11, T12, T13, T14, T15, T16, T17, T18, T19, T20, T21, T22, T23, T24, T25, T26, T27, T28, T29) {
    type Value = T21;

    open spec fn spec_index(&self) -> T21 {
        self.20
    }

    open spec fn spec_with_index(self, value: T21) -> (T1, T2, T3, T4, T5, T6, T7, T8, T9, T10, T11, T12, T13, T14, T15, T16, T17, T18, T19, T20, T21, T22, T23, T24, T25, T26, T27, T28, T29) {
        (self.0, self.1, self.2, self.3, self.4, self.5, self.6, self.7, self.8, self.9, self.10, self.11, self.12, self.13, self.14, self.15, self.16, self.17, self.18, self.19, value, self.21, self.22, self.23, self.24, self.25, self.26, self.27, self.28)
    }

    fn index_ref(&self) -> (r: &T21) {
        &self.20
    }

    fn index_mut(&mut self) -> (r: &mut T21) {
        &mut self.20
    }

    fn into_index(self) -> (r: T21) {
        self.20
    }

    proof fn lemma_index_in_range(&self) {
    }
}

impl<T1, T2, T3, T4, T5, T6, T7, T8, T9, T10, T11, T12, T13, T14, T15, T16, T17, T18, T19, T20, T21, T22, T23, T24, T25, T26, T27, T28, T29> IndexableTuple<21> for (T1, T2, T3, T4, T5, T6, T7, T8, T9, T10, T11, T12, T13, T14, T15, T16, T17, T18, T19, T20, T21, T22, T23, T24, T25, T26, T27, T28, T29) {
    type Value = T22;

    open spec fn spec_index(&self) -> T22 {
        self.21
    }

    open spec fn spec_with_index(self, value: T22) -> (T1, T2, T3, T4, T5, T6, T7, T8, T9, T10, T11, T12, T13, T14, T15, T16, T17, T18, T19, T20, T21, T22, T23, T24, T25, T26, T27, T28, T29) {
        (self.0, self.1, self.2, self.3, self.4, self.5, self.6, self.7, self.8, self.9, self.10, self.11, self.12, self.13, self.14, self.15, self.16, self.17, self.18, self.19, self.20, value, self.22, self.23, self.24, self.25, self.26, self.27, self.28)
    }

    fn index_ref(&self) -> (r: &T22) {
        &self.21
    }

    fn index_mut(&mut self) -> (r: &mut T22) {
        &mut self.21
    }

    fn into_index(self) -> (r: T22) {
        self.21
    }

    proof fn lemma_index_in_range(&self) {
    }
}

impl<T1, T2, T3, T4, T5, T6, T7, T8, T9, T10, T11, T12, T13, T14, T15, T16, T17, T18, T19, T20, T21, T22, T23, T24, T25, T26, T27, T28, T29> IndexableTuple<22> for (T1, T2, T3, T4, T5, T6, T7, T8, T9, T10, T11, T12, T13, T14, T15, T16, T17, T18, T19, T20, T21, T22, T23, T24, T25, T26, T27, T28, T29) {
    type Value = T23;

    open spec fn spec_index(&self) -> T23 {
        self.22
    }

    open spec fn spec_with_index(self, value: T23) -> (T1, T2, T3, T4, T5, T6, T7, T8, T9, T10, T11, T12, T13, T14, T15, T16, T17, T18, T19, T20, T21, T22, T23, T24, T25, T26, T27, T28, T29) {
        (self.0, self.1, self.2, self.3, self.4, self.5, self.6, self.7, self.8, self.9, self.10, self.11, self.12, self.13, self.14, self.15, self.16, self.17, self.18, self.19, self.20, self.21, value, self.23, self.24, self.25, self.26, self.27, self.28)
    }

    fn index_ref(&self) -> (r: &T23) {
        &self.22
    }

    fn index_mut(&mut self) -> (r: &mut T23) {
        &mut self.22
    }

    fn into_index(self) -> (r: T23) {
        self.22
    }

    proof fn lemma_index_in_range(&self) {
    }
}

impl<T1, T2, T3, T4, T5, T6, T7, T8, T9, T10, T11, T12, T13, T14, T15, T16, T17, T18, T19, T20, T21, T22, T23, T24, T25, T26, T27, T28, T29> IndexableTuple<23> for (T1, T2, T3, T4, T5, T6, T7, T8, T9, T10, T11, T12, T13, T14, T15, T16, T17, T18, T19, T20, T21, T22, T23, T24, T25, T26, T27, T28, T29) {
    type Value = T24;

    open spec fn spec_index(&self) -> T24 {
        self.23
    }

    open spec fn spec_with_index(self, value: T24) -> (T1, T2, T3, T4, T5, T6, T7, T8, T9, T10, T11, T12, T13, T14, T15, T16, T17, T18, T19, T20, T21, T22, T23, T24, T25, T26, T27, T28, T29) {
        (self.0, self.1, self.2, self.3, self.4, self.5, self.6, self.7, self.8, self.9, self.10, self.11, self.12, self.13, self.14, self.15, self.16, self.17, self.18, self.19, self.20, self.21, self.22, value, self.24, self.25, self.26, self.27, self.28)
    }

    fn index_ref(&self) -> (r: &T24) {
        &self.23
    }

    fn index_mut(&mut self) -> (r: &mut T24) {
        &mut self.23
    }

    fn into_index(self) -> (r: T24) {
        self.23
    }

    proof fn lemma_index_in_range(&self) {
    }
}

impl<T1, T2, T3, T4, T5, T6, T7, T8, T9, T10, T11, T12, T13, T14, T15, T16, T17, T18, T19, T20, T21, T22, T23, T24, T25, T26, T27, T28, T29> IndexableTuple<24> for (T1, T2, T3, T4, T5, T6, T7, T8, T9, T10, T11, T12, T13, T14, T15, T16, T17, T18, T19, T20, T21, T22, T23, T24, T25, T26, T27, T28, T29) {
    type Value = T25;

    open spec fn spec_index(&self) -> T25 {
        self.24
    }

    open spec fn spec_with_index(self, value: T25) -> (T1, T2, T3, T4, T5, T6, T7, T8, T9, T10, T11, T12, T13, T14, T15, T16, T17, T18, T19, T20, T21, T22, T23, T24, T25, T26, T27, T28, T29) {
        (self.0, self.1, self.2, self.3, self.4, self.5, self.6, self.7, self.8, self.9, self.10, self.11, self.12, self.13, self.14, self.15, self.16, self.17, self.18, self.19, self.20, self.21, self.22, self.23, value, self.25, self.26, self.27, self.28)
    }

    fn index_ref(&self) -> (r: &T25) {
        &self.24
    }

    fn index_mut(&mut self) -> (r: &mut T25) {
        &mut self.24
    }

    fn into_index(self) -> (r: T25) {
        self.24
    }

    proof fn lemma_index_in_range(&self) {
    }
}

impl<T1, T2, T3, T4, T5, T6, T7, T8, T9, T10, T11, T12, T13, T14, T15, T16, T17, T18, T19, T20, T21, T22, T23, T24, T25, T26, T27, T28, T29> IndexableTuple<25> for (T1, T2, T3, T4, T5, T6, T7, T8, T9, T10, T11, T12, T13, T14, T15, T16, T17, T18, T19, T20, T21, T22, T23, T24, T25, T26, T27, T28, T29) {
    type Value = T26;

    open spec fn spec_index(&self) -> T26 {
        self.25
    }

    open spec fn spec_with_index(self, value: T26) -> (T1, T2, T3, T4, T5, T6, T7, T8, T9, T10, T11, T12, T13, T14, T15, T16, T17, T18, T19, T20, T21, T22, T23, T24, T25, T26, T27, T28, T29) {
        (self.0, self.1, self.2, self.3, self.4, self.5, self.6, self.7, self.8, self.9, self.10, self.11, self.12, self.13, self.14, self.15, self.16, self.17, self.18, self.19, self.20, self.21, self.22, self.23, self.24, value, self.26, self.27, self.28)
    }

    fn index_ref(&self) -> (r: &T26) {
        &self.25
    }

    fn index_mut(&mut self) -> (r: &mut T26) {
        &mut self.25
    }

    fn into_index(self) -> (r: T26) {
        self.25
    }

    proof fn lemma_index_in_range(&self) {
    }
}

impl<T1, T2, T3, T4, T5, T6, T7, T8, T9, T10, T11, T12, T13, T14, T15, T16, T17, T18, T19, T20, T21, T22, T23, T24, T25, T26, T27, T28, T29> IndexableTuple<26> for (T1, T2, T3, T4, T5, T6, T7, T8, T9, T10, T11, T12, T13, T14, T15, T16, T17, T18, T19, T20, T21, T22, T23, T24, T25, T26, T27, T28, T29) {
    type Value = T27;

    open spec fn spec_index(&self) -> T27 {
        self.26
    }

    open spec fn spec_with_index(self, value: T27) -> (T1, T2, T3, T4, T5, T6, T7, T8, T9, T10, T11, T12, T13, T14, T15, T16, T17, T18, T19, T20, T21, T22, T23, T24, T25, T26, T27, T28, T29) {
        (self.0, self.1, self.2, self.3, self.4, self.5, self.6, self.7, self.8, self.9, self.10, self.11, self.12, self.13, self.14, self.15, self.16, self.17, self.18, self.19, self.20, self.21, self.22, self.23, self.24, self.25, value, self.27, self.28)
    }

    fn index_ref(&self) -> (r: &T27) {
        &self.26
    }

    fn index_mut(&mut self) -> (r: &mut T27) {
        &mut self.26
    }

    fn into_index(self) -> (r: T27) {
        self.26
    }

    proof fn lemma_index_in_range(&self) {
    }
}

impl<T1, T2, T3, T4, T5, T6, T7, T8, T9, T10, T11, T12, T13, T14, T15, T16, T17, T18, T19, T20, T21, T22, T23, T24, T25, T26, T27, T28, T29> IndexableTuple<27> for (T1, T2, T3, T4, T5, T6, T7, T8, T9, T10, T11, T12, T13, T14, T15, T16, T17, T18, T19, T20, T21, T22, T23, T24, T25, T26, T27, T28, T29) {
    type Value = T28;

    open spec fn spec_index(&self) -> T28 {
        self.27
    }

    open spec fn spec_with_index(self, value: T28) -> (T1, T2, T3, T4, T5, T6, T7, T8, T9, T10, T11, T12, T13, T14, T15, T16, T17, T18, T19, T20, T21, T22, T23, T24, T25, T26, T27, T28, T29) {
        (self.0, self.1, self.2, self.3, self.4, self.5, self.6, self.7, self.8, self.9, self.10, self.11, self.12, self.13, self.14, self.15, self.16, self.17, self.18, self.19, self.20, self.21, self.22, self.23, self.24, self.25, self.26, value, self.28)
    }

    fn index_ref(&self) -> (r: &T28) {
        &self.27
    }

    fn index_mut(&mut self) -> (r: &mut T28) {
        &mut self.27
    }

    fn into_index(self) -> (r: T28) {
        self.27
    }

    proof fn lemma_index_in_range(&self) {
    }
}

impl<T1, T2, T3, T4, T5, T6, T7, T8, T9, T10, T11, T12, T13, T14, T15, T16, T17, T18, T19, T20, T21, T22, T23, T24, T25, T26, T27, T28, T29> IndexableTuple<28> for (T1, T2, T3, T4, T5, T6, T7, T8, T9, T10, T11, T12, T13, T14, T15, T16, T17, T18, T19, T20, T21, T22, T23, T24, T25, T26, T27, T28, T29) {
    type Value = T29;

    open spec fn spec_index(&self) -> T29 {
        self.28
    }

    open spec fn spec_with_index(self, value: T29) -> (T1, T2, T3, T4, T5, T6, T7, T8, T9, T10, T11, T12, T13, T14, T15, T16, T17, T18, T19, T20, T21, T22, T23, T24, T25, T26, T27, T28, T29) {
        (self.0, self.1, self.2, self.3, self.4, self.5, self.6, self.7, self.8, self.9, self.10, self.11, self.12, self.13, self.14, self.15, self.16, self.17, self.18, self.19, self.20, self.21, self.22, self.23, self.24, self.25, self.26, self.27, value)
    }

    fn index_ref(&self) -> (r: &T29) {
        &self.28
    }

    fn index_mut(&mut self) -> (r: &mut T29) {
        &mut self.28
    }

    fn into_index(self) -> (r: T29) {
        self.28
    }

    proof fn lemma_index_in_range(&self) {
    }
}

impl<T1, T2, T3, T4, T5, T6, T7, T8, T9, T10, T11, T12, T13, T14, T15, T16, T17, T18, T19, T20, T21, T22, T23, T24, T25, T26, T27, T28, T29> JoinableTuple<(T1, T2, T3, T4, T5, T6, T7, T8, T9, T10, T11, T12, T13, T14, T15, T16, T17, T18, T19, T20, T21, T22, T23, T24, T25, T26, T27, T28, T29)> for () {
    type Join = (T1, T2, T3, T4, T5, T6, T7, T8, T9, T10, T11, T12, T13, T14, T15, T16, T17, T18, T19, T20, T21, T22, T23, T24, T25, T26, T27, T28, T29);

    open spec fn spec_join(self, other: (T1, T2, T3, T4, T5, T6, T7, T8, T9, T10, T11, T12, T13, T14, T15, T16, T17, T18, T19, T20, T21, T22, T23, T24, T25, T26, T27, T28, T29)) -> (T1, T2, T3, T4, T5, T6, T7, T8, T9, T10, T11, T12, T13, T14, T15, T16, T17, T18, T19, T20, T21, T22, T23, T24, T25, T26, T27, T28, T29) {
        (other.0, other.1, other.2, other.3, other.4, other.5, other.6, other.7, other.8, other.9, other.10, other.11, other.12, other.13, other.14, other.15, other.16, other.17, other.18, other.19, other.20, other.21, other.22, other.23, other.24, other.25, other.26, other.27, other.28)
    }

    fn join(self, other: (T1, T2, T3, T4, T5, T6, T7, T8, T9, T10, T11, T12, T13, T14, T15, T16, T17, T18, T19, T20, T21, T22, T23, T24, T25, T26, T27, T28, T29)) -> (r: (T1, T2, T3, T4, T5, T6, T7, T8, T9, T10, T11, T12, T13, T14, T15, T16, T17, T18, T19, T20, T21, T22, T23, T24, T25, T26, T27, T28, T29)) {
        (other.0, other.1, other.2, other.3, other.4, other.5, other.6, other.7, other.8, other.9, other.10, other.11, other.12, other.13, other.14, other.15, other.16, other.17, other.18, other.19, other.20, other.21, other.22, other.23, other.24, other.25, other.26, other.27, other.28)
    }

    proof fn lemma_join_arity(self, other: (T1, T2, T3, T4, T5, T6, T7, T8, T9, T10, T11, T12, T13, T14, T15, T16, T17, T18, T19, T20, T21, T22, T23, T24, T25, T26, T27, T28, T29)) {
    }
}

impl<T1, T2, T3, T4, T5, T6, T7, T8, T9, T10, T11, T12, T13, T14, T15, T16, T17, T18, T19, T20, T21, T22, T23, T24, T25, T26, T27, T28, T29> JoinableTuple<(T2, T3, T4, T5, T6, T7, T8, T9, T10, T11, T12, T13, T14, T15, T16, T17, T18, T19, T20, T21, T22, T23, T24, T25, T26, T27, T28, T29)> for (T1,) {
    type Join = (T1, T2, T3, T4, T5, T6, T7, T8, T9, T10, T11, T12, T13, T14, T15, T16, T17, T18, T19, T20, T21, T22, T23, T24, T25, T26, T27, T28, T29);

    open spec fn spec_join(self, other: (T2, T3, T4, T5, T6, T7, T8, T9, T10, T11, T12, T13, T14, T15, T16, T17, T18, T19, T20, T21, T22, T23, T24, T25, T26, T27, T28, T29)) -> (T1, T2, T3, T4, T5, T6, T7, T8, T9, T10, T11, T12, T13, T14, T15, T16, T17, T18, T19, T20, T21, T22, T23, T24, T25, T26, T27, T28, T29) {
        (self.0, other.0, other.1, other.2, other.3, other.4, other.5, other.6, other.7, other.8, other.9, other.10, other.11, other.12, other.13, other.14, other.15, other.16, other.17, other.18, other.19, other.20, other.21, other.22, other.23, other.24, other.25, other.26, other.27)
    }

    fn join(self, other: (T2, T3, T4, T5, T6, T7, T8, T9, T10, T11, T12, T13, T14, T15, T16, T17, T18, T19, T20, T21, T22, T23, T24, T25, T26, T27, T28, T29)) -> (r: (T1, T2, T3, T4, T5, T6, T7, T8, T9, T10, T11, T12, T13, T14, T15, T16, T17, T18, T19, T20, T21, T22, T23, T24, T25, T26, T27, T28, T29)) {
        (self.0, other.0, other.1, other.2, other.3, other.4, other.5, other.6, other.7, other.8, other.9, other.10, other.11, other.12, other.13, other.14, other.15, other.16, other.17, other.18, other.19, other.20, other.21, other.22, other.23, other.24, other.25, other.26, other.27)
    }

    proof fn lemma_join_arity(self, other: (T2, T3, T4, T5, T6, T7, T8, T9, T10, T11, T12, T13, T14, T15, T16, T17, T18, T19, T20, T21, T22, T23, T24, T25, T26, T27, T28, T29)) {
    }
}

impl<T1, T2, T3, T4, T5, T6, T7, T8, T9, T10, T11, T12, T13, T14, T15, T16, T17, T18, T19, T20, T21, T22, T23, T24, T25, T26, T27, T28, T29> JoinableTuple<(T3, T4, T5, T6, T7, T8, T9, T10, T11, T12, T13, T14, T15, T16, T17, T18, T19, T20, T21, T22, T23, T24, T25, T26, T27, T28, T29)> for (T1, T2) {
    type Join = (T1, T2, T3, T4, T5, T6, T7, T8, T9, T10, T11, T12, T13, T14, T15, T16, T17, T18, T19, T20, T21, T22, T23, T24, T25, T26, T27, T28, T29);

    open spec fn spec_join(self, other: (T3, T4, T5, T6, T7, T8, T9, T10, T11, T12, T13, T14, T15, T16, T17, T18, T19, T20, T21, T22, T23, T24, T25, T26, T27, T28, T29)) -> (T1, T2, T3, T4, T5, T6, T7, T8, T9, T10, T11, T12, T13, T14, T15, T16, T17, T18, T19, T20, T21, T22, T23, T24, T25, T26, T27, T28, T29) {
        (self.0, self.1, other.0, other.1, other.2, other.3, other.4, other.5, other.6, other.7, other.8, other.9, other.10, other.11, other.12, other.13, other.14, other.15, other.16, other.17, other.18, other.19, other.20, other.21, other.22, other.23, other.24, other.25, other.26)
    }

    fn join(self, other: (T3, T4, T5, T6, T7, T8, T9, T10, T11, T12, T13, T14, T15, T16, T17, T18, T19, T20, T21, T22, T23, T24, T25, T26, T27, T28, T29)) -> (r: (T1, T2, T3, T4, T5, T6, T7, T8, T9, T10, T11, T12, T13, T14, T15, T16, T17, T18, T19, T20, T21, T22, T23, T24, T25, T26, T27, T28, T29)) {
        (self.0, self.1, other.0, other.1, other.2, other.3, other.4, other.5, other.6, other.7, other.8, other.9, other.10, other.11, other.12, other.13, other.14, other.15, other.16, other.17, other.18, other.19, other.20, other.21, other.22, other.23, other.24, other.25, other.26)
    }

    proof fn lemma_join_arity(self, other: (T3, T4, T5, T6, T7, T8, T9, T10, T11, T12, T13, T14, T15, T16, T17, T18, T19, T20, T21, T22, T23, T24, T25, T26, T27, T28, T29)) {
    }
}

impl<T1, T2, T3, T4, T5, T6, T7, T8, T9, T10, T11, T12, T13, T14, T15, T16, T17, T18, T19, T20, T21, T22, T23, T24, T25, T26, T27, T28, T29> JoinableTuple<(T4, T5, T6, T7, T8, T9, T10, T11, T12, T13, T14, T15, T16, T17, T18, T19, T20, T21, T22, T23, T24, T25, T26, T27, T28, T29)> for (T1, T2, T3) {
    type Join = (T1, T2, T3, T4, T5, T6, T7, T8, T9, T10, T11, T12, T13, T14, T15, T16, T17, T18, T19, T20, T21, T22, T23, T24, T25, T26, T27, T28, T29);

    open spec fn spec_join(self, other: (T4, T5, T6, T7, T8, T9, T10, T11, T12, T13, T14, T15, T16, T17, T18, T19, T20, T21, T22, T23, T24, T25, T26, T27, T28, T29)) -> (T1, T2, T3, T4, T5, T6, T7, T8, T9, T10, T11, T12, T13, T14, T15, T16, T17, T18, T19, T20, T21, T22, T23, T24, T25, T26, T27, T28, T29) {
        (self.0, self.1, self.2, other.0, other.1, other.2, other.3, other.4, other.5, other.6, other.7, other.8, other.9, other.10, other.11, other.12, other.13, other.14, other.15, other.16, other.17, other.18, other.19, other.20, other.21, other.22, other.23, other.24, other.25)
    }

    fn join(self, other: (T4, T5, T6, T7, T8, T9, T10, T11, T12, T13, T14, T15, T16, T17, T18, T19, T20, T21, T22, T23, T24, T25, T26, T27, T28, T29)) -> (r: (T1, T2, T3, T4, T5, T6, T7, T8, T9, T10, T11, T12, T13, T14, T15, T16, T17, T18, T19, T20, T21, T22, T23, T24, T25, T26, T27, T28, T29)) {
        (self.0, self.1, self.2, other.0, other.1, other.2, other.3, other.4, other.5, other.6, other.7, other.8, other.9, other.10, other.11, other.12, other.13, other.14, other.15, other.16, other.17, other.18, other.19, other.20, other.21, other.22, other.23, other.24, other.25)
    }

    proof fn lemma_join_arity(self, other: (T4, T5, T6, T7, T8, T9, T10, T11, T12, T13, T14, T15, T16, T17, T18, T19, T20, T21, T22, T23, T24, T25, T26, T27, T28, T29)) {
    }
}

impl<T1, T2, T3, T4, T5, T6, T7, T8, T9, T10, T11, T12, T13, T14, T15, T16, T17, T18, T19, T20, T21, T22, T23, T24, T25, T26, T27, T28, T29> JoinableTuple<(T5, T6, T7, T8, T9, T10, T11, T12, T13, T14, T15, T16, T17, T18, T19, T20, T21, T22, T23, T24, T25, T26, T27, T28, T29)> for (T1, T2, T3, T4) {
    type Join = (T1, T2, T3, T4, T5, T6, T7, T8, T9, T10, T11, T12, T13, T14, T15, T16, T17, T18, T19, T20, T21, T22, T23, T24, T25, T26, T27, T28, T29);

    open spec fn spec_join(self, other: (T5, T6, T7, T8, T9, T10, T11, T12, T13, T14, T15, T16, T17, T18, T19, T20, T21, T22, T23, T24, T25, T26, T27, T28, T29)) -> (T1, T2, T3, T4, T5, T6, T7, T8, T9, T10, T11, T12, T13, T14, T15, T16, T17, T18, T19, T20, T21, T22, T23, T24, T25, T26, T27, T28, T29) {
        (self.0, self.1, self.2, self.3, other.0, other.1, other.2, other.3, other.4, other.5, other.6, other.7, other.8, other.9, other.10, other.11, other.12, other.13, other.14, other.15, other.16, other.17, other.18, other.19, other.20, other.21, other.22, other.23, other.24)
    }

    fn join(self, other: (T5, T6, T7, T8, T9, T10, T11, T12, T13, T14, T15, T16, T17, T18, T19, T20, T21, T22, T23, T24, T25, T26, T27, T28, T29)) -> (r: (T1, T2, T3, T4, T5, T6, T7, T8, T9, T10, T11, T12, T13, T14, T15, T16, T17, T18, T19, T20, T21, T22, T23, T24, T25, T26, T27, T28, T29)) {
        (self.0, self.1, self.2, self.3, other.0, other.1, other.2, other.3, other.4, other.5, other.6, other.7, other.8, other.9, other.10, other.11, other.12, other.13, other.14, other.15, other.16, other.17, other.18, other.19, other.20, other.21, other.22, other.23, other.24)
    }

    proof fn lemma_join_arity(self, other: (T5, T6, T7, T8, T9, T10, T11, T12, T13, T14, T15, T16, T17, T18, T19, T20, T21, T22, T23, T24, T25, T26, T27, T28, T29)) {
    }
}

impl<T1, T2, T3, T4, T5, T6, T7, T8, T9, T10, T11, T12, T13, T14, T15, T16, T17, T18, T19, T20, T21, T22, T23, T24, T25, T26, T27, T28, T29> JoinableTuple<(T6, T7, T8, T9, T10, T11, T12, T13, T14, T15, T16, T17, T18, T19, T20, T21, T22, T23, T24, T25, T26, T27, T28, T29)> for (T1, T2, T3, T4, T5) {
    type Join = (T1, T2, T3, T4, T5, T6, T7, T8, T9, T10, T11, T12, T13, T14, T15, T16, T17, T18, T19, T20, T21, T22, T23, T24, T25, T26, T27, T28, T29);

    open spec fn spec_join(self, other: (T6, T7, T8, T9, T10, T11, T12, T13, T14, T15, T16, T17, T18, T19, T20, T21, T22, T23, T24, T25, T26, T27, T28, T29)) -> (T1, T2, T3, T4, T5, T6, T7, T8, T9, T10, T11, T12, T13, T14, T15, T16, T17, T18, T19, T20, T21, T22, T23, T24, T25, T26, T27, T28, T29) {
        (self.0, self.1, self.2, self.3, self.4, other.0, other.1, other.2, other.3, other.4, other.5, other.6, other.7, other.8, other.9, other.10, other.11, other.12, other.13, other.14, other.15, other.16, other.17, other.18, other.19, other.20, other.21, other.22, other.23)
    }

    fn join(self, other: (T6, T7, T8, T9, T10, T11, T12, T13, T14, T15, T16, T17, T18, T19, T20, T21, T22, T23, T24, T25, T26, T27, T28, T29)) -> (r: (T1, T2, T3, T4, T5, T6, T7, T8, T9, T10, T11, T12, T13, T14, T15, T16, T17, T18, T19, T20, T21, T22, T23, T24, T25, T26, T27, T28, T29)) {
        (self.0, self.1, self.2, self.3, self.4, other.0, other.1, other.2, other.3, other.4, other.5, other.6, other.7, other.8, other.9, other.10, other.11, other.12, other.13, other.14, other.15, other.16, other.17, other.18, other.19, other.20, other.21, other.22, other.23)
    }

    proof fn lemma_join_arity(self, other: (T6, T7, T8, T9, T10, T11, T12, T13, T14, T15, T16, T17, T18, T19, T20, T21, T22, T23, T24, T25, T26, T27, T28, T29)) {
    }
}

impl<T1, T2, T3, T4, T5, T6, T7, T8, T9, T10, T11, T12, T13, T14, T15, T16, T17, T18, T19, T20, T21, T22, T23, T24, T25, T26, T27, T28, T29> JoinableTuple<(T7, T8, T9, T10, T11, T12, T13, T14, T15, T16, T17, T18, T19, T20, T21, T22, T23, T24, T25, T26, T27, T28, T29)> for (T1, T2, T3, T4, T5, T6) {
    type Join = (T1, T2, T3, T4, T5, T6, T7, T8, T9, T10, T11, T12, T13, T14, T15, T16, T17, T18, T19, T20, T21, T22, T23, T24, T25, T26, T27, T28, T29);

    open spec fn spec_join(self, other: (T7, T8, T9, T10, T11, T12, T13, T14, T15, T16, T17, T18, T19, T20, T21, T22, T23, T24, T25, T26, T27, T28, T29)) -> (T1, T2, T3, T4, T5, T6, T7, T8, T9, T10, T11, T12, T13, T14, T15, T16, T17, T18, T19, T20, T21, T22, T23, T24, T25, T26, T27, T28, T29) {
        (self.0, self.1, self.2, self.3, self.4, self.5, other.0, other.1, other.2, other.3, other.4, other.5, other.6, other.7, other.8, other.9, other.10, other.11, other.12, other.13, other.14, other.15, other.16, other.17, other.18, other.19, other.20, other.21, other.22)
    }

    fn join(self, other: (T7, T8, T9, T10, T11, T12, T13, T14, T15, T16, T17, T18, T19, T20, T21, T22, T23, T24, T25, T26, T27, T28, T29)) -> (r: (T1, T2, T3, T4, T5, T6, T7, T8, T9, T10, T11, T12, T13, T14, T15, T16, T17, T18, T19, T20, T21, T22, T23, T24, T25, T26, T27, T28, T29)) {
        (self.0, self.1, self.2, self.3, self.4, self.5, other.0, other.1, other.2, other.3, other.4, other.5, other.6, other.7, other.8, other.9, other.10, other.11, other.12, other.13, other.14, other.15, other.16, other.17, other.18, other.19, other.20, other.21, other.22)
    }

    proof fn lemma_join_arity(self, other: (T7, T8, T9, T10, T11, T12, T13, T14, T15, T16, T17, T18, T19, T20, T21, T22, T23, T24, T25, T26, T27, T28, T29)) {
    }
}

impl<T1, T2, T3, T4, T5, T6, T7, T8, T9, T10, T11, T12, T13, T14, T15, T16, T17, T18, T19, T20, T21, T22, T23, T24, T25, T26, T27, T28, T29> JoinableTuple<(T8, T9, T10, T11, T12, T13, T14, T15, T16, T17, T18, T19, T20, T21, T22, T23, T24, T25, T26, T27, T28, T29)> for (T1, T2, T3, T4, T5, T6, T7) {
    type Join = (T1, T2, T3, T4, T5, T6, T7, T8, T9, T10, T11, T12, T13, T14, T15, T16, T17, T18, T19, T20, T21, T22, T23, T24, T25, T26, T27, T28, T29);

    open spec fn spec_join(self, other: (T8, T9, T10, T11, T12, T13, T14, T15, T16, T17, T18, T19, T20, T21, T22, T23, T24, T25, T26, T27, T28, T29)) -> (T1, T2, T3, T4, T5, T6, T7, T8, T9, T10, T11, T12, T13, T14, T15, T16, T17, T18, T19, T20, T21, T22, T23, T24, T25, T26, T27, T28, T29) {
        (self.0, self.1, self.2, self.3, self.4, self.5, self.6, other.0, other.1, other.2, other.3, other.4, other.5, other.6, other.7, other.8, other.9, other.10, other.11, other.12, other.13, other.14, other.15, other.16, other.17, other.18, other.19, other.20, other.21)
    }

    fn join(self, other: (T8, T9, T10, T11, T12, T13, T14, T15, T16, T17, T18, T19, T20, T21, T22, T23, T24, T25, T26, T27, T28, T29)) -> (r: (T1, T2, T3, T4, T5, T6, T7, T8, T9, T10, T11, T12, T13, T14, T15, T16, T17, T18, T19, T20, T21, T22, T23, T24, T25, T26, T27, T28, T29)) {
        (self.0, self.1, self.2, self.3, self.4, self.5, self.6, other.0, other.1, other.2, other.3, other.4, other.5, other.6, other.7, other.8, other.9, other.10, other.11, other.12, other.13, other.14, other.15, other.16, other.17, other.18, other.19, other.20, other.21)
    }

    proof fn lemma_join_arity(self, other: (T8, T9, T10, T11, T12, T13, T14, T15, T16, T17, T18, T19, T20, T21, T22, T23, T24, T25, T26, T27, T28, T29)) {
    }
}

impl<T1, T2, T3, T4, T5, T6, T7, T8, T9, T10, T11, T12, T13, T14, T15, T16, T17, T18, T19, T20, T21, T22, T23, T24, T25, T26, T27, T28, T29> JoinableTuple<(T9, T10, T11, T12, T13, T14, T15, T16, T17, T18, T19, T20, T21, T22, T23, T24, T25, T26, T27, T28, T29)> for (T1, T2, T3, T4, T5, T6, T7, T8) {
    type Join = (T1, T2, T3, T4, T5, T6, T7, T8, T9, T10, T11, T12, T13, T14, T15, T16, T17, T18, T19, T20, T21, T22, T23, T24, T25, T26, T27, T28, T29);

    open spec fn spec_join(self, other: (T9, T10, T11, T12, T13, T14, T15, T16, T17, T18, T19, T20, T21, T22, T23, T24, T25, T26, T27, T28, T29)) -> (T1, T2, T3, T4, T5, T6, T7, T8, T9, T10, T11, T12, T13, T14, T15, T16, T17, T18, T19, T20, T21, T22, T23, T24, T25, T26, T27, T28, T29) {
        (self.0, self.1, self.2, self.3, self.4, self.5, self.6, self.7, other.0, other.1, other.2, other.3, other.4, other.5, other.6, other.7, other.8, other.9, other.10, other.11, other.12, other.13, other.14, other.15, other.16, other.17, other.18, other.19, other.20)
    }

    fn join(self, other: (T9, T10, T11, T12, T13, T14, T15, T16, T17, T18, T19, T20, T21, T22, T23, T24, T25, T26, T27, T28, T29)) -> (r: (T1, T2, T3, T4, T5, T6, T7, T8, T9, T10, T11, T12, T13, T14, T15, T16, T17, T18, T19, T20, T21, T22, T23, T24, T25, T26, T27, T28, T29)) {
        (self.0, self.1, self.2, self.3, self.4, self.5, self.6, self.7, other.0, other.1, other.2, other.3, other.4, other.5, other.6, other.7, other.8, other.9, other.10, other.11, other.12, other.13, other.14, other.15, other.16, other.17, other.18, other.19, other.20)
    }

    proof fn lemma_join_arity(self, other: (T9, T10, T11, T12, T13, T14, T15, T16, T17, T18, T19, T20, T21, T22, T23, T24, T25, T26, T27, T28, T29)) {
    }
}

impl<T1, T2, T3, T4, T5, T6, T7, T8, T9, T10, T11, T12, T13, T14, T15, T16, T17, T18, T19, T20, T21, T22, T23, T24, T25, T26, T27, T28, T29> JoinableTuple<(T10, T11, T12, T13, T14, T15, T16, T17, T18, T19, T20, T21, T22, T23, T24, T25, T26, T27, T28, T29)> for (T1, T2, T3, T4, T5, T6, T7, T8, T9) {
    type Join = (T1, T2, T3, T4, T5, T6, T7, T8, T9, T10, T11, T12, T13, T14, T15, T16, T17, T18, T19, T20, T21, T22, T23, T24, T25, T26, T27, T28, T29);

    open spec fn spec_join(self, other: (T10, T11, T12, T13, T14, T15, T16, T17, T18, T19, T20, T21, T22, T23, T24, T25, T26, T27, T28, T29)) -> (T1, T2, T3, T4, T5, T6, T7, T8, T9, T10, T11, T12, T13, T14, T15, T16, T17, T18, T19, T20, T21, T22, T23, T24, T25, T26, T27, T28, T29) {
        (self.0, self.1, self.2, self.3, self.4, self.5, self.6, self.7, self.8, other.0, other.1, other.2, other.3, other.4, other.5, other.6, other.7, other.8, other.9, other.10, other.11, other.12, other.13, other.14, other.15, other.16, other.17, other.18, other.19)
    }

    fn join(self, other: (T10, T11, T12, T13, T14, T15, T16, T17, T18, T19, T20, T21, T22, T23, T24, T25, T26, T27, T28, T29)) -> (r: (T1, T2, T3, T4, T5, T6, T7, T8, T9, T10, T11, T12, T13, T14, T15, T16, T17, T18, T19, T20, T21, T22, T23, T24, T25, T26, T27, T28, T29)) {
        (self.0, self.1, self.2, self.3, self.4, self.5, self.6, self.7, self.8, other.0, other.1, other.2, other.3, other.4, other.5, other.6, other.7, other.8, other.9, other.10, other.11, other.12, other.13, other.14, other.15, other.16, other.17, other.18, other.19)
    }

    proof fn lemma_join_arity(self, other: (T10, T11, T12, T13, T14, T15, T16, T17, T18, T19, T20, T21, T22, T23, T24, T25, T26, T27, T28, T29)) {
    }
}

impl<T1, T2, T3, T4, T5, T6, T7, T8, T9, T10, T11, T12, T13, T14, T15, T16, T17, T18, T19, T20, T21, T22, T23, T24, T25, T26, T27, T28, T29> JoinableTuple<(T11, T12, T13, T14, T15, T16, T17, T18, T19, T20, T21, T22, T23, T24, T25, T26, T27, T28, T29)> for (T1, T2, T3, T4, T5, T6, T7, T8, T9, T10) {
    type Join = (T1, T2, T3, T4, T5, T6, T7, T8, T9, T10, T11, T12, T13, T14, T15, T16, T17, T18, T19, T20, T21, T22, T23, T24, T25, T26, T27, T28, T29);

    open spec fn spec_join(self, other: (T11, T12, T13, T14, T15, T16, T17, T18, T19, T20, T21, T22, T23, T24, T25, T26, T27, T28, T29)) -> (T1, T2, T3, T4, T5, T6, T7, T8, T9, T10, T11, T12, T13, T14, T15, T16, T17, T18, T19, T20, T21, T22, T23, T24, T25, T26, T27, T28, T29) {
        (self.0, self.1, self.2, self.3, self.4, self.5, self.6, self.7, self.8, self.9, other.0, other.1, other.2, other.3, other.4, other.5, other.6, other.7, other.8, other.9, other.10, other.11, other.12, other.13, other.14, other.15, other.16, other.17, other.18)
    }

    fn join(self, other: (T11, T12, T13, T14, T15, T16, T17, T18, T19, T20, T21, T22, T23, T24, T25, T26, T27, T28, T29)) -> (r: (T1, T2, T3, T4, T5, T6, T7, T8, T9, T10, T11, T12, T13, T14, T15, T16, T17, T18, T19, T20, T21, T22, T23, T24, T25, T26, T27, T28, T29)) {
        (self.0, self.1, self.2, self.3, self.4, self.5, self.6, self.7, self.8, self.9, other.0, other.1, other.2, other.3, other.4, other.5, other.6, other.7, other.8, other.9, other.10, other.11, other.12, other.13, other.14, other.15, other.16, other.17, other.18)
    }

    proof fn lemma_join_arity(self, other: (T11, T12, T13, T14, T15, T16, T17, T18, T19, T20, T21, T22, T23, T24, T25, T26, T27, T28, T29)) {
    }
}

impl<T1, T2, T3, T4, T5, T6, T7, T8, T9, T10, T11, T12, T13, T14, T15, T16, T17, T18, T19, T20, T21, T22, T23, T24, T25, T26, T27, T28, T29> JoinableTuple<(T12, T13, T14, T15, T16, T17, T18, T19, T20, T21, T22, T23, T24, T25, T26, T27, T28, T29)> for (T1, T2, T3, T4, T5, T6, T7, T8, T9, T10, T11) {
    type Join = (T1, T2, T3, T4, T5, T6, T7, T8, T9, T10, T11, T12, T13, T14, T15, T16, T17, T18, T19, T20, T21, T22, T23, T24, T25, T26, T27, T28, T29);

    open spec fn spec_join(self, other: (T12, T13, T14, T15, T16, T17, T18, T19, T20, T21, T22, T23, T24, T25, T26, T27, T28, T29)) -> (T1, T2, T3, T4, T5, T6, T7, T8, T9, T10, T11, T12, T13, T14, T15, T16, T17, T18, T19, T20, T21, T22, T23, T24, T25, T26, T27, T28, T29) {
        (self.0, self.1, self.2, self.3, self.4, self.5, self.6, self.7, self.8, self.9, self.10, other.0, other.1, other.2, other.3, other.4, other.5, other.6, other.7, other.8, other.9, other.10, other.11, other.12, other.13, other.14, other.15, other.16, other.17)
    }

    fn join(self, other: (T12, T13, T14, T15, T16, T17, T18, T19, T20, T21, T22, T23, T24, T25, T26, T27, T28, T29)) -> (r: (T1, T2, T3, T4, T5, T6, T7, T8, T9, T10, T11, T12, T13, T14, T15, T16, T17, T18, T19, T20, T21, T22, T23, T24, T25, T26, T27, T28, T29)) {
        (self.0, self.1, self.2, self.3, self.4, self.5, self.6, self.7, self.8, self.9, self.10, other.0, other.1, other.2, other.3, other.4, other.5, other.6, other.7, other.8, other.9, other.10, other.11, other.12, other.13, other.14, other.15, other.16, other.17)
    }

    proof fn lemma_join_arity(self, other: (T12, T13, T14, T15, T16, T17, T18, T19, T20, T21, T22, T23, T24, T25, T26, T27, T28, T29)) {
    }
}

impl<T1, T2, T3, T4, T5, T6, T7, T8, T9, T10, T11, T12, T13, T14, T15, T16, T17, T18, T19, T20, T21, T22, T23, T24, T25, T26, T27, T28, T29> JoinableTuple<(T13, T14, T15, T16, T17, T18, T19, T20, T21, T22, T23, T24, T25, T26, T27, T28, T29)> for (T1, T2, T3, T4, T5, T6, T7, T8, T9, T10, T11, T12) {
    type Join = (T1, T2, T3, T4, T5, T6, T7, T8, T9, T10, T11, T12, T13, T14, T15, T16, T17, T18, T19, T20, T21, T22, T23, T24, T25, T26, T27, T28, T29);

    open spec fn spec_join(self, other: (T13, T14, T15, T16, T17, T18, T19, T20, T21, T22, T23, T24, T25, T26, T27, T28, T29)) -> (T1, T2, T3, T4, T5, T6, T7, T8, T9, T10, T11, T12, T13, T14, T15, T16, T17, T18, T19, T20, T21, T22, T23, T24, T25, T26, T27, T28, T29) {
        (self.0, self.1, self.2, self.3, self.4, self.5, self.6, self.7, self.8, self.9, self.10, self.11, other.0, other.1, other.2, other.3, other.4, other.5, other.6, other.7, other.8, other.9, other.10, other.11, other.12, other.13, other.14, other.15, other.16)
    }

    fn join(self, other: (T13, T14, T15, T16, T17, T18, T19, T20, T21, T22, T23, T24, T25, T26, T27, T28, T29)) -> (r: (T1, T2, T3, T4, T5, T6, T7, T8, T9, T10, T11, T12, T13, T14, T15, T16, T17, T18, T19, T20, T21, T22, T23, T24, T25, T26, T27, T28, T29)) {
        (self.0, self.1, self.2, self.3, self.4, self.5, self.6, self.7, self.8, self.9, self.10, self.11, other.0, other.1, other.2, other.3, other.4, other.5, other.6, other.7, other.8, other.9, other.10, other.11, other.12, other.13, other.14, other.15, other.16)
    }

    proof fn lemma_join_arity(self, other: (T13, T14, T15, T16, T17, T18, T19, T20, T21, T22, T23, T24, T25, T26, T27, T28, T29)) {
    }
}

impl<T1, T2, T3, T4, T5, T6, T7, T8, T9, T10, T11, T12, T13, T14, T15, T16, T17, T18, T19, T20, T21, T22, T23, T24, T25, T26, T27, T28, T29> JoinableTuple<(T14, T15, T16, T17, T18, T19, T20, T21, T22, T23, T24, T25, T26, T27, T28, T29)> for (T1, T2, T3, T4, T5, T6, T7, T8, T9, T10, T11, T12, T13) {
    type Join = (T1, T2, T3, T4, T5, T6, T7, T8, T9, T10, T11, T12, T13, T14, T15, T16, T17, T18, T19, T20, T21, T22, T23, T24, T25, T26, T27, T28, T29);

    open spec fn spec_join(self, other: (T14, T15, T16, T17, T18, T19, T20, T21, T22, T23, T24, T25, T26, T27, T28, T29)) -> (T1, T2, T3, T4, T5, T6, T7, T8, T9, T10, T11, T12, T13, T14, T15, T16, T17, T18, T19, T20, T21, T22, T23, T24, T25, T26, T27, T28, T29) {
        (self.0, self.1, self.2, self.3, self.4, self.5, self.6, self.7, self.8, self.9, self.10, self.11, self.12, other.0, other.1, other.2, other.3, other.4, other.5, other.6, other.7, other.8, other.9, other.10, other.11, other.12, other.13, other.14, other.15)
    }

    fn join(self, other: (T14, T15, T16, T17, T18, T19, T20, T21, T22, T23, T24, T25, T26, T27, T28, T29)) -> (r: (T1, T2, T3, T4, T5, T6, T7, T8, T9, T10, T11, T12, T13, T14, T15, T16, T17, T18, T19, T20, T21, T22, T23, T24, T25, T26, T27, T28, T29)) {
        (self.0, self.1, self.2, self.3, self.4, self.5, self.6, self.7, self.8, self.9, self.10, self.11, self.12, other.0, other.1, other.2, other.3, other.4, other.5, other.6, other.7, other.8, other.9, other.10, other.11, other.12, other.13, other.14, other.15)
    }

    proof fn lemma_join_arity(self, other: (T14, T15, T16, T17, T18, T19, T20, T21, T22, T23, T24, T25, T26, T27, T28, T29)) {
    }
}

impl<T1, T2, T3, T4, T5, T6, T7, T8, T9, T10, T11, T12, T13, T14, T15, T16, T17, T18, T19, T20, T21, T22, T23, T24, T25, T26, T27, T28, T29> JoinableTuple<(T15, T16, T17, T18, T19, T20, T21, T22, T23, T24, T25, T26, T27, T28, T29)> for (T1, T2, T3, T4, T5, T6, T7, T8, T9, T10, T11, T12, T13, T14) {
    type Join = (T1, T2, T3, T4, T5, T6, T7, T8, T9, T10, T11, T12, T13, T14, T15, T16, T17, T18, T19, T20, T21, T22, T23, T24, T25, T26, T27, T28, T29);

    open spec fn spec_join(self, other: (T15, T16, T17, T18, T19, T20, T21, T22, T23, T24, T25, T26, T27, T28, T29)) -> (T1, T2, T3, T4, T5, T6, T7, T8, T9, T10, T11, T12, T13, T14, T15, T16, T17, T18, T19, T20, T21, T22, T23, T24, T25, T26, T27, T28, T29) {
        (self.0, self.1, self.2, self.3, self.4, self.5, self.6, self.7, self.8, self.9, self.10, self.11, self.12, self.13, other.0, other.1, other.2, other.3, other.4, other.5, other.6, other.7, other.8, other.9, other.10, other.11, other.12, other.13, other.14)
    }

    fn join(self, other: (T15, T16, T17, T18, T19, T20, T21, T22, T23, T24, T25, T26, T27, T28, T29)) -> (r: (T1, T2, T3, T4, T5, T6, T7, T8, T9, T10, T11, T12, T13, T14, T15, T16, T17, T18, T19, T20, T21, T22, T23, T24, T25, T26, T27, T28, T29)) {
        (self.0, self.1, self.2, self.3, self.4, self.5, self.6, self.7, self.8, self.9, self.10, self.11, self.12, self.13, other.0, other.1, other.2, other.3, other.4, other.5, other.6, other.7, other.8, other.9, other.10, other.11, other.12, other.13, other.14)
    }

    proof fn lemma_join_arity(self, other: (T15, T16, T17, T18, T19, T20, T21, T22, T23, T24, T25, T26, T27, T28, T29)) {
    }
}

impl<T1, T2, T3, T4, T5, T6, T7, T8, T9, T10, T11, T12, T13, T14, T15, T16, T17, T18, T19, T20, T21, T22, T23, T24, T25, T26, T27, T28, T29> JoinableTuple<(T16, T17, T18, T19, T20, T21, T22, T23, T24, T25, T26, T27, T28, T29)> for (T1, T2, T3, T4, T5, T6, T7, T8, T9, T10, T11, T12, T13, T14, T15) {
    type Join = (T1, T2, T3, T4, T5, T6, T7, T8, T9, T10, T11, T12, T13, T14, T15, T16, T17, T18, T19, T20, T21, T22, T23, T24, T25, T26, T27, T28, T29);

    open spec fn spec_join(self, other: (T16, T17, T18, T19, T20, T21, T22, T23, T24, T25, T26, T27, T28, T29)) -> (T1, T2, T3, T4, T5, T6, T7, T8, T9, T10, T11, T12, T13, T14, T15, T16, T17, T18, T19, T20, T21, T22, T23, T24, T25, T26, T27, T28, T29) {
        (self.0, self.1, self.2, self.3, self.4, self.5, self.6, self.7, self.8, self.9, self.10, self.11, self.12, self.13, self.14, other.0, other.1, other.2, other.3, other.4, other.5, other.6, other.7, other.8, other.9, other.10, other.11, other.12, other.13)
    }

    fn join(self, other: (T16, T17, T18, T19, T20, T21, T22, T23, T24, T25, T26, T27, T28, T29)) -> (r: (T1, T2, T3, T4, T5, T6, T7, T8, T9, T10, T11, T12, T13, T14, T15, T16, T17, T18, T19, T20, T21, T22, T23, T24, T25, T26, T27, T28, T29)) {
        (self.0, self.1, self.2, self.3, self.4, self.5, self.6, self.7, self.8, self.9, self.10, self.11, self.12, self.13, self.14, other.0, other.1, other.2, other.3, other.4, other.5, other.6, other.7, other.8, other.9, other.10, other.11, other.12, other.13)
    }

    proof fn lemma_join_arity(self, other: (T16, T17, T18, T19, T20, T21, T22, T23, T24, T25, T26, T27, T28, T29)) {
    }
}

impl<T1, T2, T3, T4, T5, T6, T7, T8, T9, T10, T11, T12, T13, T14, T15, T16, T17, T18, T19, T20, T21, T22, T23, T24, T25, T26, T27, T28, T29> JoinableTuple<(T17, T18, T19, T20, T21, T22, T23, T24, T25, T26, T27, T28, T29)> for (T1, T2, T3, T4, T5, T6, T7, T8, T9, T10, T11, T12, T13, T14, T15, T16) {
    type Join = (T1, T2, T3, T4, T5, T6, T7, T8, T9, T10, T11, T12, T13, T14, T15, T16, T17, T18, T19, T20, T21, T22, T23, T24, T25, T26, T27, T28, T29);

    open spec fn spec_join(self, other: (T17, T18, T19, T20, T21, T22, T23, T24, T25, T26, T27, T28, T29)) -> (T1, T2, T3, T4, T5, T6, T7, T8, T9, T10, T11, T12, T13, T14, T15, T16, T17, T18, T19, T20, T21, T22, T23, T24, T25, T26, T27, T28, T29) {
        (self.0, self.1, self.2, self.3, self.4, self.5, self.6, self.7, self.8, self.9, self.10, self.11, self.12, self.13, self.14, self.15, other.0, other.1, other.2, other.3, other.4, other.5, other.6, other.7, other.8, other.9, other.10, other.11, other.12)
    }

    fn join(self, other: (T17, T18, T19, T20, T21, T22, T23, T24, T25, T26, T27, T28, T29)) -> (r: (T1, T2, T3, T4, T5, T6, T7, T8, T9, T10, T11, T12, T13, T14, T15, T16, T17, T18, T19, T20, T21, T22, T23, T24, T25, T26, T27, T28, T29)) {
        (self.0, self.1, self.2, self.3, self.4, self.5, self.6, self.7, self.8, self.9, self.10, self.11, self.12, self.13, self.14, self.15, other.0, other.1, other.2, other.3, other.4, other.5, other.6, other.7, other.8, other.9, other.10, other.11, other.12)
    }

    proof fn lemma_join_arity(self, other: (T17, T18, T19, T20, T21, T22, T23, T24, T25, T26, T27, T28, T29)) {
    }
}

impl<T1, T2, T3, T4, T5, T6, T7, T8, T9, T10, T11, T12, T13, T14, T15, T16, T17, T18, T19, T20, T21, T22, T23, T24, T25, T26, T27, T28, T29> JoinableTuple<(T18, T19, T20, T21, T22, T23, T24, T25, T26, T27, T28, T29)> for (T1, T2, T3, T4, T5, T6, T7, T8, T9, T10, T11, T12, T13, T14, T15, T16, T17) {
    type Join = (T1, T2, T3, T4, T5, T6, T7, T8, T9, T10, T11, T12, T13, T14, T15, T16, T17, T18, T19, T20, T21, T22, T23, T24, T25, T26, T27, T28, T29);

    open spec fn spec_join(self, other: (T18, T19, T20, T21, T22, T23, T24, T25, T26, T27, T28, T29)) -> (T1, T2, T3, T4, T5, T6, T7, T8, T9, T10, T11, T12, T13, T14, T15, T16, T17, T18, T19, T20, T21, T22, T23, T24, T25, T26, T27, T28, T29) {
        (self.0, self.1, self.2, self.3, self.4, self.5, self.6, self.7, self.8, self.9, self.10, self.11, self.12, self.13, self.14, self.15, self.16, other.0, other.1, other.2, other.3, other.4, other.5, other.6, other.7, other.8, other.9, other.10, other.11)
    }

    fn join(self, other: (T18, T19, T20, T21, T22, T23, T24, T25, T26, T27, T28, T29)) -> (r: (T1, T2, T3, T4, T5, T6, T7, T8, T9, T10, T11, T12, T13, T14, T15, T16, T17, T18, T19, T20, T21, T22, T23, T24, T25, T26, T27, T28, T29)) {
        (self.0, self.1, self.2, self.3, self.4, self.5, self.6, self.7, self.8, self.9, self.10, self.11, self.12, self.13, self.14, self.15, self.16, other.0, other.1, other.2, other.3, other.4, other.5, other.6, other.7, other.8, other.9, other.10, other.11)
    }

    proof fn lemma_join_arity(self, other: (T18, T19, T20, T21, T22, T23, T24, T25, T26, T27, T28, T29)) {
    }
}

impl<T1, T2, T3, T4, T5, T6, T7, T8, T9, T10, T11, T12, T13, T14, T15, T16, T17, T18, T19, T20, T21, T22, T23, T24, T25, T26, T27, T28, T29> JoinableTuple<(T19, T20, T21, T22, T23, T24, T25, T26, T27, T28, T29)> for (T1, T2, T3, T4, T5, T6, T7, T8, T9, T10, T11, T12, T13, T14, T15, T16, T17, T18) {
    type Join = (T1, T2, T3, T4, T5, T6, T7, T8, T9, T10, T11, T12, T13, T14, T15, T16, T17, T18, T19, T20, T21, T22, T23, T24, T25, T26, T27, T28, T29);

    open spec fn spec_join(self, other: (T19, T20, T21, T22, T23, T24, T25, T26, T27, T28, T29)) -> (T1, T2, T3, T4, T5, T6, T7, T8, T9, T10, T11, T12, T13, T14, T15, T16, T17, T18, T19, T20, T21, T22, T23, T24, T25, T26, T27, T28, T29) {
        (self.0, self.1, self.2, self.3, self.4, self.5, self.6, self.7, self.8, self.9, self.10, self.11, self.12, self.13, self.14, self.15, self.16, self.17, other.0, other.1, other.2, other.3, other.4, other.5, other.6, other.7, other.8, other.9, other.10)
    }

    fn join(self, other: (T19, T20, T21, T22, T23, T24, T25, T26, T27, T28, T29)) -> (r: (T1, T2, T3, T4, T5, T6, T7, T8, T9, T10, T11, T12, T13, T14, T15, T16, T17, T18, T19, T20, T21, T22, T23, T24, T25, T26, T27, T28, T29)) {
        (self.0, self.1, self.2, self.3, self.4, self.5, self.6, self.7, self.8, self.9, self.10, self.11, self.12, self.13, self.14, self.15, self.16, self.17, other.0, other.1, other.2, other.3, other.4, other.5, other.6, other.7, other.8, other.9, other.10)
    }

    proof fn lemma_join_arity(self, other: (T19, T20, T21, T22, T23, T24, T25, T26, T27, T28, T29)) {
    }
}

impl<T1, T2, T3, T4, T5, T6, T7, T8, T9, T10, T11, T12, T13, T14, T15, T16, T17, T18, T19, T20, T21, T22, T23, T24, T25, T26, T27, T28, T29> JoinableTuple<(T20, T21, T22, T23, T24, T25, T26, T27, T28, T29)> for (T1, T2, T3, T4, T5, T6, T7, T8, T9, T10, T11, T12, T13, T14, T15, T16, T17, T18, T19) {
    type Join = (T1, T2, T3, T4, T5, T6, T7, T8, T9, T10, T11, T12, T13, T14, T15, T16, T17, T18, T19, T20, T21, T22, T23, T24, T25, T26, T27, T28, T29);

    open spec fn spec_join(self, other: (T20, T21, T22, T23, T24, T25, T26, T27, T28, T29)) -> (T1, T2, T3, T4, T5, T6, T7, T8, T9, T10, T11, T12, T13, T14, T15, T16, T17, T18, T19, T20, T21, T22, T23, T24, T25, T26, T27, T28, T29) {
        (self.0, self.1, self.2, self.3, self.4, self.5, self.6, self.7, self.8, self.9, self.10, self.11, self.12, self.13, self.14, self.15, self.16, self.17, self.18, other.0, other.1, other.2, other.3, other.4, other.5, other.6, other.7, other.8, other.9)
    }

    fn join(self, other: (T20, T21, T22, T23, T24, T25, T26, T27, T28, T29)) -> (r: (T1, T2, T3, T4, T5, T6, T7, T8, T9, T10, T11, T12, T13, T14, T15, T16, T17, T18, T19, T20, T21, T22, T23, T24, T25, T26, T27, T28, T29)) {
        (self.0, self.1, self.2, self.3, self.4, self.5, self.6, self.7, self.8, self.9, self.10, self.11, self.12, self.13, self.14, self.15, self.16, self.17, self.18, other.0, other.1, other.2, other.3, other.4, other.5, other.6, other.7, other.8, other.9)
    }

    proof fn lemma_join_arity(self, other: (T20, T21, T22, T23, T24, T25, T26, T27, T28, T29)) {
    }
}

impl<T1, T2, T3, T4, T5, T6, T7, T8, T9, T10, T11, T12, T13, T14, T15, T16, T17, T18, T19, T20, T21, T22, T23, T24, T25, T26, T27, T28, T29> JoinableTuple<(T21, T22, T23, T24, T25, T26, T27, T28, T29)> for (T1, T2, T3, T4, T5, T6, T7, T8, T9, T10, T11, T12, T13, T14, T15, T16, T17, T18, T19, T20) {
    type Join = (T1, T2, T3, T4, T5, T6, T7, T8, T9, T10, T11, T12, T13, T14, T15, T16, T17, T18, T19, T20, T21, T22, T23, T24, T25, T26, T27, T28, T29);

    open spec fn spec_join(self, other: (T21, T22, T23, T24, T25, T26, T27, T28, T29)) -> (T1, T2, T3, T4, T5, T6, T7, T8, T9, T10, T11, T12, T13, T14, T15, T16, T17, T18, T19, T20, T21, T22, T23, T24, T25, T26, T27, T28, T29) {
        (self.0, self.1, self.2, self.3, self.4, self.5, self.6, self.7, self.8, self.9, self.10, self.11, self.12, self.13, self.14, self.15, self.16, self.17, self.18, self.19, other.0, other.1, other.2, other.3, other.4, other.5, other.6, other.7, other.8)
    }

    fn join(self, other: (T21, T22, T23, T24, T25, T26, T27, T28, T29)) -> (r: (T1, T2, T3, T4, T5, T6, T7, T8, T9, T10, T11, T12, T13, T14, T15, T16, T17, T18, T19, T20, T21, T22, T23, T24, T25, T26, T27, T28, T29)) {
        (self.0, self.1, self.2, self.3, self.4, self.5, self.6, self.7, self.8, self.9, self.10, self.11, self.12, self.13, self.14, self.15, self.16, self.17, self.18, self.19, other.0, other.1, other.2, other.3, other.4, other.5, other.6, other.7, other.8)
    }

    proof fn lemma_join_arity(self, other: (T21, T22, T23, T24, T25, T26, T27, T28, T29)) {
    }
}

impl<T1, T2, T3, T4, T5, T6, T7, T8, T9, T10, T11, T12, T13, T14, T15, T16, T17, T18, T19, T20, T21, T22, T23, T24, T25, T26, T27, T28, T29> JoinableTuple<(T22, T23, T24, T25, T26, T27, T28, T29)> for (T1, T2, T3, T4, T5, T6, T7, T8, T9, T10, T11, T12, T13, T14, T15, T16, T17, T18, T19, T20, T21) {
    type Join = (T1, T2, T3, T4, T5, T6, T7, T8, T9, T10, T11, T12, T13, T14, T15, T16, T17, T18, T19, T20, T21, T22, T23, T24, T25, T26, T27, T28, T29);

    open spec fn spec_join(self, other: (T22, T23, T24, T25, T26, T27, T28, T29)) -> (T1, T2, T3, T4, T5, T6, T7, T8, T9, T10, T11, T12, T13, T14, T15, T16, T17, T18, T19, T20, T21, T22, T23, T24, T25, T26, T27, T28, T29) {
        (self.0, self.1, self.2, self.3, self.4, self.5, self.6, self.7, self.8, self.9, self.10, self.11, self.12, self.13, self.14, self.15, self.16, self.17, self.18, self.19, self.20, other.0, other.1, other.2, other.3, other.4, other.5, other.6, other.7)
    }

    fn join(self, other: (T22, T23, T24, T25, T26, T27, T28, T29)) -> (r: (T1, T2, T3, T4, T5, T6, T7, T8, T9, T10, T11, T12, T13, T14, T15, T16, T17, T18, T19, T20, T21, T22, T23, T24, T25, T26, T27, T28, T29)) {
        (self.0, self.1, self.2, self.3, self.4, self.5, self.6, self.7, self.8, self.9, self.10, self.11, self.12, self.13, self.14, self.15, self.16, self.17, self.18, self.19, self.20, other.0, other.1, other.2, other.3, other.4, other.5, other.6, other.7)
    }

    proof fn lemma_join_arity(self, other: (T22, T23, T24, T25, T26, T27, T28, T29)) {
    }
}

impl<T1, T2, T3, T4, T5, T6, T7, T8, T9, T10, T11, T12, T13, T14, T15, T16, T17, T18, T19, T20, T21, T22, T23, T24, T25, T26, T27, T28, T29> JoinableTuple<(T23, T24, T25, T26, T27, T28, T29)> for (T1, T2, T3, T4, T5, T6, T7, T8, T9, T10, T11, T12, T13, T14, T15, T16, T17, T18, T19, T20, T21, T22) {
    type Join = (T1, T2, T3, T4, T5, T6, T7, T8, T9, T10, T11, T12, T13, T14, T15, T16, T17, T18, T19, T20, T21, T22, T23, T24, T25, T26, T27, T28, T29);

    open spec fn spec_join(self, other: (T23, T24, T25, T26, T27, T28, T29)) -> (T1, T2, T3, T4, T5, T6, T7, T8, T9, T10, T11, T12, T13, T14, T15, T16, T17, T18, T19, T20, T21, T22, T23, T24, T25, T26, T27, T28, T29) {
        (self.0, self.1, self.2, self.3, self.4, self.5, self.6, self.7, self.8, self.9, self.10, self.11, self.12, self.13, self.14, self.15, self.16, self.17, self.18, self.19, self.20, self.21, other.0, other.1, other.2, other.3, other.4, other.5, other.6)
    }

    fn join(self, other: (T23, T24, T25, T26, T27, T28, T29)) -> (r: (T1, T2, T3, T4, T5, T6, T7, T8, T9, T10, T11, T12, T13, T14, T15, T16, T17, T18, T19, T20, T21, T22, T23, T24, T25, T26, T27, T28, T29)) {
        (self.0, self.1, self.2, self.3, self.4, self.5, self.6, self.7, self.8, self.9, self.10, self.11, self.12, self.13, self.14, self.15, self.16, self.17, self.18, self.19, self.20, self.21, other.0, other.1, other.2, other.3, other.4, other.5, other.6)
    }

    proof fn lemma_join_arity(self, other: (T23, T24, T25, T26, T27, T28, T29)) {
    }
}

impl<T1, T2, T3, T4, T5, T6, T7, T8, T9, T10, T11, T12, T13, T14, T15, T16, T17, T18, T19, T20, T21, T22, T23, T24, T25, T26, T27, T28, T29> JoinableTuple<(T24, T25, T26, T27, T28, T29)> for (T1, T2, T3, T4, T5, T6, T7, T8, T9, T10, T11, T12, T13, T14, T15, T16, T17, T18, T19, T20, T21, T22, T23) {
    type Join = (T1, T2, T3, T4, T5, T6, T7, T8, T9, T10, T11, T12, T13, T14, T15, T16, T17, T18, T19, T20, T21, T22, T23, T24, T25, T26, T27, T28, T29);

    open spec fn spec_join(self, other: (T24, T25, T26, T27, T28, T29)) -> (T1, T2, T3, T4, T5, T6, T7, T8, T9, T10, T11, T12, T13, T14, T15, T16, T17, T18, T19, T20, T21, T22, T23, T24, T25, T26, T27, T28, T29) {
        (self.0, self.1, self.2, self.3, self.4, self.5, self.6, self.7, self.8, self.9, self.10, self.11, self.12, self.13, self.14, self.15, self.16, self.17, self.18, self.19, self.20, self.21, self.22, other.0, other.1, other.2, other.3, other.4, other.5)
    }

    fn join(self, other: (T24, T25, T26, T27, T28, T29)) -> (r: (T1, T2, T3, T4, T5, T6, T7, T8, T9, T10, T11, T12, T13, T14, T15, T16, T17, T18, T19, T20, T21, T22, T23, T24, T25, T26, T27, T28, T29)) {
        (self.0, self.1, self.2, self.3, self.4, self.5, self.6, self.7, self.8, self.9, self.10, self.11, self.12, self.13, self.14, self.15, self.16, self.17, self.18, self.19, self.20, self.21, self.22, other.0, other.1, other.2, other.3, other.4, other.5)
    }

    proof fn lemma_join_arity(self, other: (T24, T25, T26, T27, T28, T29)) {
    }
}

impl<T1, T2, T3, T4, T5, T6, T7, T8, T9, T10, T11, T12, T13, T14, T15, T16, T17, T18, T19, T20, T21, T22, T23, T24, T25, T26, T27, T28, T29> JoinableTuple<(T25, T26, T27, T28, T29)> for (T1, T2, T3, T4, T5, T6, T7, T8, T9, T10, T11, T12, T13, T14, T15, T16, T17, T18, T19, T20, T21, T22, T23, T24) {
    type Join = (T1, T2, T3, T4, T5, T6, T7, T8, T9, T10, T11, T12, T13, T14, T15, T16, T17, T18, T19, T20, T21, T22, T23, T24, T25, T26, T27, T28, T29);

    open spec fn spec_join(self, other: (T25, T26, T27, T28, T29)) -> (T1, T2, T3, T4, T5, T6, T7, T8, T9, T10, T11, T12, T13, T14, T15, T16, T17, T18, T19, T20, T21, T22, T23, T24, T25, T26, T27, T28, T29) {
        (self.0, self.1, self.2, self.3, self.4, self.5, self.6, self.7, self.8, self.9, self.10, self.11, self.12, self.13, self.14, self.15, self.16, self.17, self.18, self.19, self.20, self.21, self.22, self.23, other.0, other.1, other.2, other.3, other.4)
    }

    fn join(self, other: (T25, T26, T27, T28, T29)) -> (r: (T1, T2, T3, T4, T5, T6, T7, T8, T9, T10, T11, T12, T13, T14, T15, T16, T17, T18, T19, T20, T21, T22, T23, T24, T25, T26, T27, T28, T29)) {
        (self.0, self.1, self.2, self.3, self.4, self.5, self.6, self.7, self.8, self.9, self.10, self.11, self.12, self.13, self.14, self.15, self.16, self.17, self.18, self.19, self.20, self.21, self.22, self.23, other.0, other.1, other.2, other.3, other.4)
    }

    proof fn lemma_join_arity(self, other: (T25, T26, T27, T28, T29)) {
    }
}

impl<T1, T2, T3, T4, T5, T6, T7, T8, T9, T10, T11, T12, T13, T14, T15, T16, T17, T18, T19, T20, T21, T22, T23, T24, T25, T26, T27, T28, T29> JoinableTuple<(T26, T27, T28, T29)> for (T1, T2, T3, T4, T5, T6, T7, T8, T9, T10, T11, T12, T13, T14, T15, T16, T17, T18, T19, T20, T21, T22, T23, T24, T25) {
    type Join = (T1, T2, T3, T4, T5, T6, T7, T8, T9, T10, T11, T12, T13, T14, T15, T16, T17, T18, T19, T20, T21, T22, T23, T24, T25, T26, T27, T28, T29);

    open spec fn spec_join(self, other: (T26, T27, T28, T29)) -> (T1, T2, T3, T4, T5, T6, T7, T8, T9, T10, T11, T12, T13, T14, T15, T16, T17, T18, T19, T20, T21, T22, T23, T24, T25, T26, T27, T28, T29) {
        (self.0, self.1, self.2, self.3, self.4, self.5, self.6, self.7, self.8, self.9, self.10, self.11, self.12, self.13, self.14, self.15, self.16, self.17, self.18, self.19, self.20, self.21, self.22, self.23, self.24, other.0, other.1, other.2, other.3)
    }

    fn join(self, other: (T26, T27, T28, T29)) -> (r: (T1, T2, T3, T4, T5, T6, T7, T8, T9, T10, T11, T12, T13, T14, T15, T16, T17, T18, T19, T20, T21, T22, T23, T24, T25, T26, T27, T28, T29)) {
        (self.0, self.1, self.2, self.3, self.4, self.5, self.6, self.7, self.8, self.9, self.10, self.11, self.12, self.13, self.14, self.15, self.16, self.17, self.18, self.19, self.20, self.21, self.22, self.23, self.24, other.0, other.1, other.2, other.3)
    }

    proof fn lemma_join_arity(self, other: (T26, T27, T28, T29)) {
    }
}

impl<T1, T2, T3, T4, T5, T6, T7, T8, T9, T10, T11, T12, T13, T14, T15, T16, T17, T18, T19, T20, T21, T22, T23, T24, T25, T26, T27, T28, T29> JoinableTuple<(T27, T28, T29)> for (T1, T2, T3, T4, T5, T6, T7, T8, T9, T10, T11, T12, T13, T14, T15, T16, T17, T18, T19, T20, T21, T22, T23, T24, T25, T26) {
    type Join = (T1, T2, T3, T4, T5, T6, T7, T8, T9, T10, T11, T12, T13, T14, T15, T16, T17, T18, T19, T20, T21, T22, T23, T24, T25, T26, T27, T28, T29);

    open spec fn spec_join(self, other: (T27, T28, T29)) -> (T1, T2, T3, T4, T5, T6, T7, T8, T9, T10, T11, T12, T13, T14, T15, T16, T17, T18, T19, T20, T21, T22, T23, T24, T25, T26, T27, T28, T29) {
        (self.0, self.1, self.2, self.3, self.4, self.5, self.6, self.7, self.8, self.9, self.10, self.11, self.12, self.13, self.14, self.15, self.16, self.17, self.18, self.19, self.20, self.21, self.22, self.23, self.24, self.25, other.0, other.1, other.2)
    }

    fn join(self, other: (T27, T28, T29)) -> (r: (T1, T2, T3, T4, T5, T6, T7, T8, T9, T10, T11, T12, T13, T14, T15, T16, T17, T18, T19, T20, T21, T22, T23, T24, T25, T26, T27, T28, T29)) {
        (self.0, self.1, self.2, self.3, self.4, self.5, self.6, self.7, self.8, self.9, self.10, self.11, self.12, self.13, self.14, self.15, self.16, self.17, self.18, self.19, self.20, self.21, self.22, self.23, self.24, self.25, other.0, other.1, other.2)
    }

    proof fn lemma_join_arity(self, other: (T27, T28, T29)) {
    }
}

impl<T1, T2, T3, T4, T5, T6, T7, T8, T9, T10, T11, T12, T13, T14, T15, T16, T17, T18, T19, T20, T21, T22, T23, T24, T25, T26, T27, T28, T29> JoinableTuple<(T28, T29)> for (T1, T2, T3, T4, T5, T6, T7, T8, T9, T10, T11, T12, T13, T14, T15, T16, T17, T18, T19, T20, T21, T22, T23, T24, T25, T26, T27) {
    type Join = (T1, T2, T3, T4, T5, T6, T7, T8, T9, T10, T11, T12, T13, T14, T15, T16, T17, T18, T19, T20, T21, T22, T23, T24, T25, T26, T27, T28, T29);

    open spec fn spec_join(self, other: (T28, T29)) -> (T1, T2, T3, T4, T5, T6, T7, T8, T9, T10, T11, T12, T13, T14, T15, T16, T17, T18, T19, T20, T21, T22, T23, T24, T25, T26, T27, T28, T29) {
        (self.0, self.1, self.2, self.3, self.4, self.5, self.6, self.7, self.8, self.9, self.10, self.11, self.12, self.13, self.14, self.15, self.16, self.17, self.18, self.19, self.20, self.21, self.22, self.23, self.24, self.25, self.26, other.0, other.1)
    }

    fn join(self, other: (T28, T29)) -> (r: (T1, T2, T3, T4, T5, T6, T7, T8, T9, T10, T11, T12, T13, T14, T15, T16, T17, T18, T19, T20, T21, T22, T23, T24, T25, T26, T27, T28, T29)) {
        (self.0, self.1, self.2, self.3, self.4, self.5, self.6, self.7, self.8, self.9, self.10, self.11, self.12, self.13, self.14, self.15, self.16, self.17, self.18, self.19, self.20, self.21, self.22, self.23, self.24, self.25, self.26, other.0, other.1)
    }

    proof fn lemma_join_arity(self, other: (T28, T29)) {
    }
}

impl<T1, T2, T3, T4, T5, T6, T7, T8, T9, T10, T11, T12, T13, T14, T15, T16, T17, T18, T19, T20, T21, T22, T23, T24, T25, T26, T27, T28, T29> JoinableTuple<(T29,)> for (T1, T2, T3, T4, T5, T6, T7, T8, T9, T10, T11, T12, T13, T14, T15, T16, T17, T18, T19, T20, T21, T22, T23, T24, T25, T26, T27, T28) {
    type Join = (T1, T2, T3, T4, T5, T6, T7, T8, T9, T10, T11, T12, T13, T14, T15, T16, T17, T18, T19, T20, T21, T22, T23, T24, T25, T26, T27, T28, T29);

    open spec fn spec_join(self, other: (T29,)) -> (T1, T2, T3, T4, T5, T6, T7, T8, T9, T10, T11, T12, T13, T14, T15, T16, T17, T18, T19, T20, T21, T22, T23, T24, T25, T26, T27, T28, T29) {
        (self.0, self.1, self.2, self.3, self.4, self.5, self.6, self.7, self.8, self.9, self.10, self.11, self.12, self.13, self.14, self.15, self.16, self.17, self.18, self.19, self.20, self.21, self.22, self.23, self.24, self.25, self.26, self.27, other.0)
    }

    fn join(self, other: (T29,)) -> (r: (T1, T2, T3, T4, T5, T6, T7, T8, T9, T10, T11, T12, T13, T14, T15, T16, T17, T18, T19, T20, T21, T22, T23, T24, T25, T26, T27, T28, T29)) {
        (self.0, self.1, self.2, self.3, self.4, self.5, self.6, self.7, self.8, self.9, self.10, self.11, self.12, self.13, self.14, self.15, self.16, self.17, self.18, self.19, self.20, self.21, self.22, self.23, self.24, self.25, self.26, self.27, other.0)
    }

    proof fn lemma_join_arity(self, other: (T29,)) {
    }
}

impl<T1, T2, T3, T4, T5, T6, T7, T8, T9, T10, T11, T12, T13, T14, T15, T16, T17, T18, T19, T20, T21, T22, T23, T24, T25, T26, T27, T28, T29> JoinableTuple<()> for (T1, T2, T3, T4, T5, T6, T7, T8, T9, T10, T11, T12, T13, T14, T15, T16, T17, T18, T19, T20, T21, T22, T23, T24, T25, T26, T27, T28, T29) {
    type Join = (T1, T2, T3, T4, T5, T6, T7, T8, T9, T10, T11, T12, T13, T14, T15, T16, T17, T18, T19, T20, T21, T22, T23, T24, T25, T26, T27, T28, T29);

    open spec fn spec_join(self, other: ()) -> (T1, T2, T3, T4, T5, T6, T7, T8, T9, T10, T11, T12, T13, T14, T15, T16, T17, T18, T19, T20, T21, T22, T23, T24, T25, T26, T27, T28, T29) {
        (self.0, self.1, self.2, self.3, self.4, self.5, self.6, self.7, self.8, self.9, self.10, self.11, self.12, self.13, self.14, self.15, self.16, self.17, self.18, self.19, self.20, self.21, self.22, self.23, self.24, self.25, self.26, self.27, self.28)
    }

    fn join(self, other: ()) -> (r: (T1, T2, T3, T4, T5, T6, T7, T8, T9, T10, T11, T12, T13, T14, T15, T16, T17, T18, T19, T20, T21, T22, T23, T24, T25, T26, T27, T28, T29)) {
        (self.0, self.1, self.2, self.3, self.4, self.5, self.6, self.7, self.8, self.9, self.10, self.11, self.12, self.13, self.14, self.15, self.16, self.17, self.18, self.19, self.20, self.21, self.22, self.23, self.24, self.25, self.26, self.27, self.28)
    }

    proof fn lemma_join_arity(self, other: ()) {
    }
}

impl<T1, T2, T3, T4, T5, T6, T7, T8, T9, T10, T11, T12, T13, T14, T15, T16, T17, T18, T19, T20, T21, T22, T23, T24, T25, T26, T27, T28, T29, T30> Sealed for (T1, T2, T3, T4, T5, T6, T7, T8, T9, T10, T11, T12, T13, T14, T15, T16, T17, T18, T19, T20, T21, T22, T23, T24, T25, T26, T27, T28, T29, T30) {}

impl<T1, T2, T3, T4, T5, T6, T7, T8, T9, T10, T11, T12, T13, T14, T15, T16, T17, T18, T19, T20, T21, T22, T23, T24, T25, T26, T27, T28, T29, T30> DynTuple for (T1, T2, T3, T4, T5, T6, T7, T8, T9, T10, T11, T12, T13, T14, T15, T16, T17, T18, T19, T20, T21, T22, T23, T24, T25, T26, T27, T28, T29, T30) {
    open spec fn spec_arity(&self) -> nat {
        30
    }

    fn arity(&self) -> (r: usize) {
        30
    }
}

impl<T1, T2, T3, T4, T5, T6, T7, T8, T9, T10, T11, T12, T13, T14, T15, T16, T17, T18, T19, T20, T21, T22, T23, T24, T25, T26, T27, T28, T29, T30> Tuple for (T1, T2, T3, T4, T5, T6, T7, T8, T9, T10, T11, T12, T13, T14, T15, T16, T17, T18, T19, T20, T21, T22, T23, T24, T25, T26, T27, T28, T29, T30) {
    const ARITY: usize = 30;

    open spec fn spec_type_arity() -> nat {
        30
    }

    proof fn lemma_arity(&self) {
    }

    proof fn lemma_type_arity() {
    }
}

impl<T1, T2, T3, T4, T5, T6, T7, T8, T9, T10, T11, T12, T13, T14, T15, T16, T17, T18, T19, T20, T21, T22, T23, T24, T25, T26, T27, T28, T29, T30, T> GrowableTuple<T> for (T1, T2, T3, T4, T5, T6, T7, T8, T9, T10, T11, T12, T13, T14, T15, T16, T17, T18, T19, T20, T21, T22, T23, T24, T25, T26, T27, T28, T29, T30) {
    type Append = (T1, T2, T3, T4, T5, T6, T7, T8, T9, T10, T11, T12, T13, T14, T15, T16, T17, T18, T19, T20, T21, T22, T23, T24, T25, T26, T27, T28, T29, T30, T);

    type Prepend = (T, T1, T2, T3, T4, T5, T6, T7, T8, T9, T10, T11, T12, T13, T14, T15, T16, T17, T18, T19, T20, T21, T22, T23, T24, T25, T26, T27, T28, T29, T30);

    open spec fn spec_append(self, value: T) -> (T1, T2, T3, T4, T5, T6, T7, T8, T9, T10, T11, T12, T13, T14, T15, T16, T17, T18, T19, T20, T21, T22, T23, T24, T25, T26, T27, T28, T29, T30, T) {
        (self.0, self.1, self.2, self.3, self.4, self.5, self.6, self.7, self.8, self.9, self.10, self.11, self.12, self.13, self.14, self.15, self.16, self.17, self.18, self.19, self.20, self.21, self.22, self.23, self.24, self.25, self.26, self.27, self.28, self.29, value)
    }

    open spec fn spec_prepend(self, value: T) -> (T, T1, T2, T3, T4, T5, T6, T7, T8, T9, T10, T11, T12, T13, T14, T15, T16, T17, T18, T19, T20, T21, T22, T23, T24, T25, T26, T27, T28, T29, T30) {
        (value, self.0, self.1, self.2, self.3, self.4, self.5, self.6, self.7, self.8, self.9, self.10, self.11, self.12, self.13, self.14, self.15, self.16, self.17, self.18, self.19, self.20, self.21, self.22, self.23, self.24, self.25, self.26, self.27, self.28, self.29)
    }

    fn append(self, value: T) -> (r: (T1, T2, T3, T4, T5, T6, T7, T8, T9, T10, T11, T12, T13, T14, T15, T16, T17, T18, T19, T20, T21, T22, T23, T24, T25, T26, T27, T28, T29, T30, T)) {
        (self.0, self.1, self.2, self.3, self.4, self.5, self.6, self.7, self.8, self.9, self.10, self.11, self.12, self.13, self.14, self.15, self.16, self.17, self.18, self.19, self.20, self.21, self.22, self.23, self.24, self.25, self.26, self.27, self.28, self.29, value)
    }

    fn prepend(self, value: T) -> (r: (T, T1, T2, T3, T4, T5, T6, T7, T8, T9, T10, T11, T12, T13, T14, T15, T16, T17, T18, T19, T20, T21, T22, T23, T24, T25, T26, T27, T28, T29, T30)) {
        (value, self.0, self.1, self.2, self.3, self.4, self.5, self.6, self.7, self.8, self.9, self.10, self.11, self.12, self.13, self.14, self.15, self.16, self.17, self.18, self.19, self.20, self.21, self.22, self.23, self.24, self.25, self.26, self.27, self.28, self.29)
    }

    proof fn lemma_grow_arity(self, value: T) {
    }
}

impl<T1, T2, T3, T4, T5, T6, T7, T8, T9, T10, T11, T12, T13, T14, T15, T16, T17, T18, T19, T20, T21, T22, T23, T24, T25, T26, T27, T28, T29, T30> NonEmptyTuple for (T1, T2, T3, T4, T5, T6, T7, T8, T9, T10, T11, T12, T13, T14, T15, T16, T17, T18, T19, T20, T21, T22, T23, T24, T25, T26, T27, T28, T29, T30) {
    type Head = T1;

    type Tail = T30;

    type TruncateHead = (T2, T3, T4, T5, T6, T7, T8, T9, T10, T11, T12, T13, T14, T15, T16, T17, T18, T19, T20, T21, T22, T23, T24, T25, T26, T27, T28, T29, T30);

    type TruncateTail = (T1, T2, T3, T4, T5, T6, T7, T8, T9, T10, T11, T12, T13, T14, T15, T16, T17, T18, T19, T20, T21, T22, T23, T24, T25, T26, T27, T28, T29);

    open spec fn spec_head(&self) -> T1 {
        self.0
    }

    open spec fn spec_tail(&self) -> T30 {
        self.29
    }

    open spec fn spec_with_head(self, value: T1) -> (T1, T2, T3, T4, T5, T6, T7, T8, T9, T10, T11, T12, T13, T14, T15, T16, T17, T18, T19, T20, T21, T22, T23, T24, T25, T26, T27, T28, T29, T30) {
        (value, self.1, self.2, self.3, self.4, self.5, self.6, self.7, self.8, self.9, self.10, self.11, self.12, self.13, self.14, self.15, self.16, self.17, self.18, self.19, self.20, self.21, self.22, self.23, self.24, self.25, self.26, self.27, self.28, self.29)
    }

    open spec fn spec_with_tail(self, value: T30) -> (T1, T2, T3, T4, T5, T6, T7, T8, T9, T10, T11, T12, T13, T14, T15, T16, T17, T18, T19, T20, T21, T22, T23, T24, T25, T26, T27, T28, T29, T30) {
        (self.0, self.1, self.2, self.3, self.4, self.5, self.6, self.7, self.8, self.9, self.10, self.11, self.12, self.13, self.14, self.15, self.16, self.17, self.18, self.19, self.20, self.21, self.22, self.23, self.24, self.25, self.26, self.27, self.28, value)
    }

    open spec fn spec_truncate_head(self) -> (T1, (T2, T3, T4, T5, T6, T7, T8, T9, T10, T11, T12, T13, T14, T15, T16, T17, T18, T19, T20, T21, T22, T23, T24, T25, T26, T27, T28, T29, T30)) {
        (self.0, (self.1, self.2, self.3, self.4, self.5, self.6, self.7, self.8, self.9, self.10, self.11, self.12, self.13, self.14, self.15, self.16, self.17, self.18, self.19, self.20, self.21, self.22, self.23, self.24, self.25, self.26, self.27, self.28, self.29))
    }

    open spec fn spec_truncate_tail(self) -> ((T1, T2, T3, T4, T5, T6, T7, T8, T9, T10, T11, T12, T13, T14, T15, T16, T17, T18, T19, T20, T21, T22, T23, T24, T25, T26, T27, T28, T29), T30) {
        ((self.0, self.1, self.2, self.3, self.4, self.5, self.6, self.7, self.8, self.9, self.10, self.11, self.12, self.13, self.14, self.15, self.16, self.17, self.18, self.19, self.20, self.21, self.22, self.23, self.24, self.25, self.26, self.27, self.28), self.29)
    }

    fn head(&self) -> (r: &T1) {
        &self.0
    }

    fn head_mut(&mut self) -> (r: &mut T1) {
        &mut self.0
    }

    fn tail(&self) -> (r: &T30) {
        &self.29
    }

    fn tail_mut(&mut self) -> (r: &mut T30) {
        &mut self.29
    }

    fn truncate_head(self) -> (r: (T1, (T2, T3, T4, T5, T6, T7, T8, T9, T10, T11, T12, T13, T14, T15, T16, T17, T18, T19, T20, T21, T22, T23, T24, T25, T26, T27, T28, T29, T30))) {
        (self.0, (self.1, self.2, self.3, self.4, self.5, self.6, self.7, self.8, self.9, self.10, self.11, self.12, self.13, self.14, self.15, self.16, self.17, self.18, self.19, self.20, self.21, self.22, self.23, self.24, self.25, self.26, self.27, self.28, self.29))
    }

    fn truncate_tail(self) -> (r: ((T1, T2, T3, T4, T5, T6, T7, T8, T9, T10, T11, T12, T13, T14, T15, T16, T17, T18, T19, T20, T21, T22, T23, T24, T25, T26, T27, T28, T29), T30)) {
        ((self.0, self.1, self.2, self.3, self.4, self.5, self.6, self.7, self.8, self.9, self.10, self.11, self.12, self.13, self.14, self.15, self.16, self.17, self.18, self.19, self.20, self.21, self.22, self.23, self.24, self.25, self.26, self.27, self.28), self.29)
    }

    proof fn lemma_truncate_head(self) {
    }

    proof fn lemma_truncate_tail(self) {
    }
}

impl<T1, T2, T3, T4, T5, T6, T7, T8, T9, T10, T11, T12, T13, T14, T15, T16, T17, T18, T19, T20, T21, T22, T23, T24, T25, T26, T27, T28, T29, T30> NonUnaryTuple for (T1, T2, T3, T4, T5, T6, T7, T8, T9, T10, T11, T12, T13, T14, T15, T16, T17, T18, T19, T20, T21, T22, T23, T24, T25, T26, T27, T28, T29, T30) {
    type TruncateHeadTail = (T2, T3, T4, T5, T6, T7, T8, T9, T10, T11, T12, T13, T14, T15, T16, T17, T18, T19, T20, T21, T22, T23, T24, T25, T26, T27, T28, T29);

    open spec fn spec_truncate_head_tail(self) -> (T1, (T2, T3, T4, T5, T6, T7, T8, T9, T10, T11, T12, T13, T14, T15, T16, T17, T18, T19, T20, T21, T22, T23, T24, T25, T26, T27, T28, T29), T30) {
        (self.0, (self.1, self.2, self.3, self.4, self.5, self.6, self.7, self.8, self.9, self.10, self.11, self.12, self.13, self.14, self.15, self.16, self.17, self.18, self.19, self.20, self.21, self.22, self.23, self.24, self.25, self.26, self.27, self.28), self.29)
    }

    fn head_tail(&self) -> (r: (&T1, &T30)) {
        (&self.0, &self.29)
    }

    fn head_tail_mut(&mut self) -> (r: (&mut T1, &mut T30)) {
        (&mut self.0, &mut self.29)
    }

    fn truncate_head_tail(self) -> (r: (T1, (T2, T3, T4, T5, T6, T7, T8, T9, T10, T11, T12, T13, T14, T15, T16, T17, T18, T19, T20, T21, T22, T23, T24, T25, T26, T27, T28, T29), T30)) {
        (self.0, (self.1, self.2, self.3, self.4, self.5, self.6, self.7, self.8, self.9, self.10, self.11, self.12, self.13, self.14, self.15, self.16, self.17, self.18, self.19, self.20, self.21, self.22, self.23, self.24, self.25, self.26, self.27, self.28), self.29)
    }

    proof fn lemma_truncate_head_tail(self) {
    }
}

impl<T1, T2, T3, T4, T5, T6, T7, T8, T9, T10, T11, T12, T13, T14, T15, T16, T17, T18, T19, T20, T21, T22, T23, T24, T25, T26, T27, T28, T29, T30> IndexableTuple<0> for (T1, T2, T3, T4, T5, T6, T7, T8, T9, T10, T11, T12, T13, T14, T15, T16, T17, T18, T19, T20, T21, T22, T23, T24, T25, T26, T27, T28, T29, T30) {
    type Value = T1;

    open spec fn spec_index(&self) -> T1 {
        self.0
    }

    open spec fn spec_with_index(self, value: T1) -> (T1, T2, T3, T4, T5, T6, T7, T8, T9, T10, T11, T12, T13, T14, T15, T16, T17, T18, T19, T20, T21, T22, T23, T24, T25, T26, T27, T28, T29, T30) {
        (value, self.1, self.2, self.3, self.4, self.5, self.6, self.7, self.8, self.9, self.10, self.11, self.12, self.13, self.14, self.15, self.16, self.17, self.18, self.19, self.20, self.21, self.22, self.23, self.24, self.25, self.26, self.27, self.28, self.29)
    }

    fn index_ref(&self) -> (r: &T1) {
        &self.0
    }

    fn index_mut(&mut self) -> (r: &mut T1) {
        &mut self.0
    }

    fn into_index(self) -> (r: T1) {
        self.0
    }

    proof fn lemma_index_in_range(&self) {
    }
}

impl<T1, T2, T3, T4, T5, T6, T7, T8, T9, T10, T11, T12, T13, T14, T15, T16, T17, T18, T19, T20, T21, T22, T23, T24, T25, T26, T27, T28, T29, T30> IndexableTuple<1> for (T1, T2, T3, T4, T5, T6, T7, T8, T9, T10, T11, T12, T13, T14, T15, T16, T17, T18, T19, T20, T21, T22, T23, T24, T25, T26, T27, T28, T29, T30) {
    type Value = T2;

    open spec fn spec_index(&self) -> T2 {
        self.1
    }

    open spec fn spec_with_index(self, value: T2) -> (T1, T2, T3, T4, T5, T6, T7, T8, T9, T10, T11, T12, T13, T14, T15, T16, T17, T18, T19, T20, T21, T22, T23, T24, T25, T26, T27, T28, T29, T30) {
        (self.0, value, self.2, self.3, self.4, self.5, self.6, self.7, self.8, self.9, self.10, self.11, self.12, self.13, self.14, self.15, self.16, self.17, self.18, self.19, self.20, self.21, self.22, self.23, self.24, self.25, self.26, self.27, self.28, self.29)
    }

    fn index_ref(&self) -> (r: &T2) {
        &self.1
    }

    fn index_mut(&mut self) -> (r: &mut T2) {
        &mut self.1
    }

    fn into_index(self) -> (r: T2) {
        self.1
    }

    proof fn lemma_index_in_range(&self) {
    }
}

impl<T1, T2, T3, T4, T5, T6, T7, T8, T9, T10, T11, T12, T13, T14, T15, T16, T17, T18, T19, T20, T21, T22, T23, T24, T25, T26, T27, T28, T29, T30> IndexableTuple<2> for (T1, T2, T3, T4, T5, T6, T7, T8, T9, T10, T11, T12, T13, T14, T15, T16, T17, T18, T19, T20, T21, T22, T23, T24, T25, T26, T27, T28, T29, T30) {
    type Value = T3;

    open spec fn spec_index(&self) -> T3 {
        self.2
    }

    open spec fn spec_with_index(self, value: T3) -> (T1, T2, T3, T4, T5, T6, T7, T8, T9, T10, T11, T12, T13, T14, T15, T16, T17, T18, T19, T20, T21, T22, T23, T24, T25, T26, T27, T28, T29, T30) {
        (self.0, self.1, value, self.3, self.4, self.5, self.6, self.7, self.8, self.9, self.10, self.11, self.12, self.13, self.14, self.15, self.16, self.17, self.18, self.19, self.20, self.21, self.22, self.23, self.24, self.25, self.26, self.27, self.28, self.29)
    }

    fn index_ref(&self) -> (r: &T3) {
        &self.2
    }

    fn index_mut(&mut self) -> (r: &mut T3) {
        &mut self.2
    }

    fn into_index(self) -> (r: T3) {
        self.2
    }

    proof fn lemma_index_in_range(&self) {
    }
}

impl<T1, T2, T3, T4, T5, T6, T7, T8, T9, T10, T11, T12, T13, T14, T15, T16, T17, T18, T19, T20, T21, T22, T23, T24, T25, T26, T27, T28, T29, T30> IndexableTuple<3> for (T1, T2, T3, T4, T5, T6, T7, T8, T9, T10, T11, T12, T13, T14, T15, T16, T17, T18, T19, T20, T21, T22, T23, T24, T25, T26, T27, T28, T29, T30) {
    type Value = T4;

    open spec fn spec_index(&self) -> T4 {
        self.3
    }

    open spec fn spec_with_index(self, value: T4) -> (T1, T2, T3, T4, T5, T6, T7, T8, T9, T10, T11, T12, T13, T14, T15, T16, T17, T18, T19, T20, T21, T22, T23, T24, T25, T26, T27, T28, T29, T30) {
        (self.0, self.1, self.2, value, self.4, self.5, self.6, self.7, self.8, self.9, self.10, self.11, self.12, self.13, self.14, self.15, self.16, self.17, self.18, self.19, self.20, self.21, self.22, self.23, self.24, self.25, self.26, self.27, self.28, self.29)
    }

    fn index_ref(&self) -> (r: &T4) {
        &self.3
    }

    fn index_mut(&mut self) -> (r: &mut T4) {
        &mut self.3
    }

    fn into_index(self) -> (r: T4) {
        self.3
    }

    proof fn lemma_index_in_range(&self) {
    }
}

impl<T1, T2, T3, T4, T5, T6, T7, T8, T9, T10, T11, T12, T13, T14, T15, T16, T17, T18, T19, T20, T21, T22, T23, T24, T25, T26, T27, T28, T29, T30> IndexableTuple<4> for (T1, T2, T3, T4, T5, T6, T7, T8, T9, T10, T11, T12, T13, T14, T15, T16, T17, T18, T19, T20, T21, T22, T23, T24, T25, T26, T27, T28, T29, T30) {
    type Value = T5;

    open spec fn spec_index(&self) -> T5 {
        self.4
    }

    open spec fn spec_with_index(self, value: T5) -> (T1, T2, T3, T4, T5, T6, T7, T8, T9, T10, T11, T12, T13, T14, T15, T16, T17, T18, T19, T20, T21, T22, T23, T24, T25, T26, T27, T28, T29, T30) {
        (self.0, self.1, self.2, self.3, value, self.5, self.6, self.7, self.8, self.9, self.10, self.11, self.12, self.13, self.14, self.15, self.16, self.17, self.18, self.19, self.20, self.21, self.22, self.23, self.24, self.25, self.26, self.27, self.28, self.29)
    }

    fn index_ref(&self) -> (r: &T5) {
        &self.4
    }

    fn index_mut(&mut self) -> (r: &mut T5) {
        &mut self.4
    }

    fn into_index(self) -> (r: T5) {
        self.4
    }

    proof fn lemma_index_in_range(&self) {
    }
}

impl<T1, T2, T3, T4, T5, T6, T7, T8, T9, T10, T11, T12, T13, T14, T15, T16, T17, T18, T19, T20, T21, T22, T23, T24, T25, T26, T27, T28, T29, T30> IndexableTuple<5> for (T1, T2, T3, T4, T5, T6, T7, T8, T9, T10, T11, T12, T13, T14, T15, T16, T17, T18, T19, T20, T21, T22, T23, T24, T25, T26, T27, T28, T29, T30) {
    type Value = T6;

    open spec fn spec_index(&self) -> T6 {
        self.5
    }

    open spec fn spec_with_index(self, value: T6) -> (T1, T2, T3, T4, T5, T6, T7, T8, T9, T10, T11, T12, T13, T14, T15, T16, T17, T18, T19, T20, T21, T22, T23, T24, T25, T26, T27, T28, T29, T30) {
        (self.0, self.1, self.2, self.3, self.4, value, self.6, self.7, self.8, self.9, self.10, self.11, self.12, self.13, self.14, self.15, self.16, self.17, self.18, self.19, self.20, self.21, self.22, self.23, self.24, self.25, self.26, self.27, self.28, self.29)
    }

    fn index_ref(&self) -> (r: &T6) {
        &self.5
    }

    fn index_mut(&mut self) -> (r: &mut T6) {
        &mut self.5
    }

    fn into_index(self) -> (r: T6) {
        self.5
    }

    proof fn lemma_index_in_range(&self) {
    }
}

impl<T1, T2, T3, T4, T5, T6, T7, T8, T9, T10, T11, T12, T13, T14, T15, T16, T17, T18, T19, T20, T21, T22, T23, T24, T25, T26, T27, T28, T29, T30> IndexableTuple<6> for (T1, T2, T3, T4, T5, T6, T7, T8, T9, T10, T11, T12, T13, T14, T15, T16, T17, T18, T19, T20, T21, T22, T23, T24, T25, T26, T27, T28, T29, T30) {
    type Value = T7;

    open spec fn spec_index(&self) -> T7 {
        self.6
    }

    open spec fn spec_with_index(self, value: T7) -> (T1, T2, T3, T4, T5, T6, T7, T8, T9, T10, T11, T12, T13, T14, T15, T16, T17, T18, T19, T20, T21, T22, T23, T24, T25, T26, T27, T28, T29, T30) {
        (self.0, self.1, self.2, self.3, self.4, self.5, value, self.7, self.8, self.9, self.10, self.11, self.12, self.13, self.14, self.15, self.16, self.17, self.18, self.19, self.20, self.21, self.22, self.23, self.24, self.25, self.26, self.27, self.28, self.29)
    }

    fn index_ref(&self) -> (r: &T7) {
        &self.6
    }

    fn index_mut(&mut self) -> (r: &mut T7) {
        &mut self.6
    }

    fn into_index(self) -> (r: T7) {
        self.6
    }

    proof fn lemma_index_in_range(&self) {
    }
}

impl<T1, T2, T3, T4, T5, T6, T7, T8, T9, T10, T11, T12, T13, T14, T15, T16, T17, T18, T19, T20, T21, T22, T23, T24, T25, T26, T27, T28, T29, T30> IndexableTuple<7> for (T1, T2, T3, T4, T5, T6, T7, T8, T9, T10, T11, T12, T13, T14, T15, T16, T17, T18, T19, T20, T21, T22, T23, T24, T25, T26, T27, T28, T29, T30) {
    type Value = T8;

    open spec fn spec_index(&self) -> T8 {
        self.7
    }

    open spec fn spec_with_index(self, value: T8) -> (T1, T2, T3, T4, T5, T6, T7, T8, T9, T10, T11, T12, T13, T14, T15, T16, T17, T18, T19, T20, T21, T22, T23, T24, T25, T26, T27, T28, T29, T30) {
        (self.0, self.1, self.2, self.3, self.4, self.5, self.6, value, self.8, self.9, self.10, self.11, self.12, self.13, self.14, self.15, self.16, self.17, self.18, self.19, self.20, self.21, self.22, self.23, self.24, self.25, self.26, self.27, self.28, self.29)
    }

    fn index_ref(&self) -> (r: &T8) {
        &self.7
    }

    fn index_mut(&mut self) -> (r: &mut T8) {
        &mut self.7
    }

    fn into_index(self) -> (r: T8) {
        self.7
    }

    proof fn lemma_index_in_range(&self) {
    }
}

impl<T1, T2, T3, T4, T5, T6, T7, T8, T9, T10, T11, T12, T13, T14, T15, T16, T17, T18, T19, T20, T21, T22, T23, T24, T25, T26, T27, T28, T29, T30> IndexableTuple<8> for (T1, T2, T3, T4, T5, T6, T7, T8, T9, T10, T11, T12, T13, T14, T15, T16, T17, T18, T19, T20, T21, T22, T23, T24, T25, T26, T27, T28, T29, T30) {
    type Value = T9;

    open spec fn spec_index(&self) -> T9 {
        self.8
    }

    open spec fn spec_with_index(self, value: T9) -> (T1, T2, T3, T4, T5, T6, T7, T8, T9, T10, T11, T12, T13, T14, T15, T16, T17, T18, T19, T20, T21, T22, T23, T24, T25, T26, T27, T28, T29, T30) {
        (self.0, self.1, self.2, self.3, self.4, self.5, self.6, self.7, value, self.9, self.10, self.11, self.12, self.13, self.14, self.15, self.16, self.17, self.18, self.19, self.20, self.21, self.22, self.23, self.24, self.25, self.26, self.27, self.28, self.29)
    }

    fn index_ref(&self) -> (r: &T9) {
        &self.8
    }

    fn index_mut(&mut self) -> (r: &mut T9) {
        &mut self.8
    }

    fn into_index(self) -> (r: T9) {
        self.8
    }

    proof fn lemma_index_in_range(&self) {
    }
}

impl<T1, T2, T3, T4, T5, T6, T7, T8, T9, T10, T11, T12, T13, T14, T15, T16, T17, T18, T19, T20, T21, T22, T23, T24, T25, T26, T27, T28, T29, T30> IndexableTuple<9> for (T1, T2, T3, T4, T5, T6, T7, T8, T9, T10, T11, T12, T13, T14, T15, T16, T17, T18, T19, T20, T21, T22, T23, T24, T25, T26, T27, T28, T29, T30) {
    type Value = T10;

    open spec fn spec_index(&self) -> T10 {
        self.9
    }

    open spec fn spec_with_index(self, value: T10) -> (T1, T2, T3, T4, T5, T6, T7, T8, T9, T10, T11, T12, T13, T14, T15, T16, T17, T18, T19, T20, T21, T22, T23, T24, T25, T26, T27, T28, T29, T30) {
        (self.0, self.1, self.2, self.3, self.4, self.5, self.6, self.7, self.8, value, self.10, self.11, self.12, self.13, self.14, self.15, self.16, self.17, self.18, self.19, self.20, self.21, self.22, self.23, self.24, self.25, self.26, self.27, self.28, self.29)
    }

    fn index_ref(&self) -> (r: &T10) {
        &self.9
    }

    fn index_mut(&mut self) -> (r: &mut T10) {
        &mut self.9
    }

    fn into_index(self) -> (r: T10) {
        self.9
    }

    proof fn lemma_index_in_range(&self) {
    }
}

impl<T1, T2, T3, T4, T5, T6, T7, T8, T9, T10, T11, T12, T13, T14, T15, T16, T17, T18, T19, T20, T21, T22, T23, T24, T25, T26, T27, T28, T29, T30> IndexableTuple<10> for (T1, T2, T3, T4, T5, T6, T7, T8, T9, T10, T11, T12, T13, T14, T15, T16, T17, T18, T19, T20, T21, T22, T23, T24, T25, T26, T27, T28, T29, T30) {
    type Value = T11;

    open spec fn spec_index(&self) -> T11 {
        self.10
    }

    open spec fn spec_with_index(self, value: T11) -> (T1, T2, T3, T4, T5, T6, T7, T8, T9, T10, T11, T12, T13, T14, T15, T16, T17, T18, T19, T20, T21, T22, T23, T24, T25, T26, T27, T28, T29, T30) {
        (self.0, self.1, self.2, self.3, self.4, self.5, self.6, self.7, self.8, self.9, value, self.11, self.12, self.13, self.14, self.15, self.16, self.17, self.18, self.19, self.20, self.21, self.22, self.23, self.24, self.25, self.26, self.27, self.28, self.29)
    }

    fn index_ref(&self) -> (r: &T11) {
        &self.10
    }

    fn index_mut(&mut self) -> (r: &mut T11) {
        &mut self.10
    }

    fn into_index(self) -> (r: T11) {
        self.10
    }

    proof fn lemma_index_in_range(&self) {
    }
}

impl<T1, T2, T3, T4, T5, T6, T7, T8, T9, T10, T11, T12, T13, T14, T15, T16, T17, T18, T19, T20, T21, T22, T23, T24, T25, T26, T27, T28, T29, T30> IndexableTuple<11> for (T1, T2, T3, T4, T5, T6, T7, T8, T9, T10, T11, T12, T13, T14, T15, T16, T17, T18, T19, T20, T21, T22, T23, T24, T25, T26, T27, T28, T29, T30) {
    type Value = T12;

    open spec fn spec_index(&self) -> T12 {
        self.11
    }

    open spec fn spec_with_index(self, value: T12) -> (T1, T2, T3, T4, T5, T6, T7, T8, T9, T10, T11, T12, T13, T14, T15, T16, T17, T18, T19, T20, T21, T22, T23, T24, T25, T26, T27, T28, T29, T30) {
        (self.0, self.1, self.2, self.3, self.4, self.5, self.6, self.7, self.8, self.9, self.10, value, self.12, self.13, self.14, self.15, self.16, self.17, self.18, self.19, self.20, self.21, self.22, self.23, self.24, self.25, self.26, self.27, self.28, self.29)
    }

    fn index_ref(&self) -> (r: &T12) {
        &self.11
    }

    fn index_mut(&mut self) -> (r: &mut T12) {
        &mut self.11
    }

    fn into_index(self) -> (r: T12) {
        self.11
    }

    proof fn lemma_index_in_range(&self) {
    }
}

impl<T1, T2, T3, T4, T5, T6, T7, T8, T9, T10, T11, T12, T13, T14, T15, T16, T17, T18, T19, T20, T21, T22, T23, T24, T25, T26, T27, T28, T29, T30> IndexableTuple<12> for (T1, T2, T3, T4, T5, T6, T7, T8, T9, T10, T11, T12, T13, T14, T15, T16, T17, T18, T19, T20, T21, T22, T23, T24, T25, T26, T27, T28, T29, T30) {
    type Value = T13;

    open spec fn spec_index(&self) -> T13 {
        self.12
    }

    open spec fn spec_with_index(self, value: T13) -> (T1, T2, T3, T4, T5, T6, T7, T8, T9, T10, T11, T12, T13, T14, T15, T16, T17, T18, T19, T20, T21, T22, T23, T24, T25, T26, T27, T28, T29, T30) {
        (self.0, self.1, self.2, self.3, self.4, self.5, self.6, self.7, self.8, self.9, self.10, self.11, value, self.13, self.14, self.15, self.16, self.17, self.18, self.19, self.20, self.21, self.22, self.23, self.24, self.25, self.26, self.27, self.28, self.29)
    }

    fn index_ref(&self) -> (r: &T13) {
        &self.12
    }

    fn index_mut(&mut self) -> (r: &mut T13) {
        &mut self.12
    }

    fn into_index(self) -> (r: T13) {
        self.12
    }

    proof fn lemma_index_in_range(&self) {
    }
}

impl<T1, T2, T3, T4, T5, T6, T7, T8, T9, T10, T11, T12, T13, T14, T15, T16, T17, T18, T19, T20, T21, T22, T23, T24, T25, T26, T27, T28, T29, T30> IndexableTuple<13> for (T1, T2, T3, T4, T5, T6, T7, T8, T9, T10, T11, T12, T13, T14, T15, T16, T17, T18, T19, T20, T21, T22, T23, T24, T25, T26, T27, T28, T29, T30) {
    type Value = T14;

    open spec fn spec_index(&self) -> T14 {
        self.13
    }

    open spec fn spec_with_index(self, value: T14) -> (T1, T2, T3, T4, T5, T6, T7, T8, T9, T10, T11, T12, T13, T14, T15, T16, T17, T18, T19, T20, T21, T22, T23, T24, T25, T26, T27, T28, T29, T30) {
        (self.0, self.1, self.2, self.3, self.4, self.5, self.6, self.7, self.8, self.9, self.10, self.11, self.12, value, self.14, self.15, self.16, self.17, self.18, self.19, self.20, self.21, self.22, self.23, self.24, self.25, self.26, self.27, self.28, self.29)
    }

    fn index_ref(&self) -> (r: &T14) {
        &self.13
    }

    fn index_mut(&mut self) -> (r: &mut T14) {
        &mut self.13
    }

    fn into_index(self) -> (r: T14) {
        self.13
    }

    proof fn lemma_index_in_range(&self) {
    }
}

impl<T1, T2, T3, T4, T5, T6, T7, T8, T9, T10, T11, T12, T13, T14, T15, T16, T17, T18, T19, T20, T21, T22, T23, T24, T25, T26, T27, T28, T29, T30> IndexableTuple<14> for (T1, T2, T3, T4, T5, T6, T7, T8, T9, T10, T11, T12, T13, T14, T15, T16, T17, T18, T19, T20, T21, T22, T23, T24, T25, T26, T27, T28, T29, T30) {
    type Value = T15;

    open spec fn spec_index(&self) -> T15 {
        self.14
    }

    open spec fn spec_with_index(self, value: T15) -> (T1, T2, T3, T4, T5, T6, T7, T8, T9, T10, T11, T12, T13, T14, T15, T16, T17, T18, T19, T20, T21, T22, T23, T24, T25, T26, T27, T28, T29, T30) {
        (self.0, self.1, self.2, self.3, self.4, self.5, self.6, self.7, self.8, self.9, self.10, self.11, self.12, self.13, value, self.15, self.16, self.17, self.18, self.19, self.20, self.21, self.22, self.23, self.24, self.25, self.26, self.27, self.28, self.29)
    }

    fn index_ref(&self) -> (r: &T15) {
        &self.14
    }

    fn index_mut(&mut self) -> (r: &mut T15) {
        &mut self.14
    }

    fn into_index(self) -> (r: T15) {
        self.14
    }

    proof fn lemma_index_in_range(&self) {
    }
}

impl<T1, T2, T3, T4, T5, T6, T7, T8, T9, T10, T11, T12, T13, T14, T15, T16, T17, T18, T19, T20, T21, T22, T23, T24, T25, T26, T27, T28, T29, T30> IndexableTuple<15> for (T1, T2, T3, T4, T5, T6, T7, T8, T9, T10, T11, T12, T13, T14, T15, T16, T17, T18, T19, T20, T21, T22, T23, T24, T25, T26, T27, T28, T29, T30) {
    type Value = T16;

    open spec fn spec_index(&self) -> T16 {
        self.15
    }

    open spec fn spec_with_index(self, value: T16) -> (T1, T2, T3, T4, T5, T6, T7, T8, T9, T10, T11, T12, T13, T14, T15, T16, T17, T18, T19, T20, T21, T22, T23, T24, T25, T26, T27, T28, T29, T30) {
        (self.0, self.1, self.2, self.3, self.4, self.5, self.6, self.7, self.8, self.9, self.10, self.11, self.12, self.13, self.14, value, self.16, self.17, self.18, self.19, self.20, self.21, self.22, self.23, self.24, self.25, self.26, self.27, self.28, self.29)
    }

    fn index_ref(&self) -> (r: &T16) {
        &self.15
    }

    fn index_mut(&mut self) -> (r: &mut T16) {
        &mut self.15
    }

    fn into_index(self) -> (r: T16) {
        self.15
    }

    proof fn lemma_index_in_range(&self) {
    }
}

impl<T1, T2, T3, T4, T5, T6, T7, T8, T9, T10, T11, T12, T13, T14, T15, T16, T17, T18, T19, T20, T21, T22, T23, T24, T25, T26, T27, T28, T29, T30> IndexableTuple<16> for (T1, T2, T3, T4, T5, T6, T7, T8, T9, T10, T11, T12, T13, T14, T15, T16, T17, T18, T19, T20, T21, T22, T23, T24, T25, T26, T27, T28, T29, T30) {
    type Value = T17;

    open spec fn spec_index(&self) -> T17 {
        self.16
    }

    open spec fn spec_with_index(self, value: T17) -> (T1, T2, T3, T4, T5, T6, T7, T8, T9, T10, T11, T12, T13, T14, T15, T16, T17, T18, T19, T20, T21, T22, T23, T24, T25, T26, T27, T28, T29, T30) {
        (self.0, self.1, self.2, self.3, self.4, self.5, self.6, self.7, self.8, self.9, self.10, self.11, self.12, self.13, self.14, self.15, value, self.17, self.18, self.19, self.20, self.21, self.22, self.23, self.24, self.25, self.26, self.27, self.28, self.29)
    }

    fn index_ref(&self) -> (r: &T17) {
        &self.16
    }

    fn index_mut(&mut self) -> (r: &mut T17) {
        &mut self.16
    }

    fn into_index(self) -> (r: T17) {
        self.16
    }

    proof fn lemma_index_in_range(&self) {
    }
}

impl<T1, T2, T3, T4, T5, T6, T7, T8, T9, T10, T11, T12, T13, T14, T15, T16, T17, T18, T19, T20, T21, T22, T23, T24, T25, T26, T27, T28, T29, T30> IndexableTuple<17> for (T1, T2, T3, T4, T5, T6, T7, T8, T9, T10, T11, T12, T13, T14, T15, T16, T17, T18, T19, T20, T21, T22, T23, T24, T25, T26, T27, T28, T29, T30) {
    type Value = T18;

    open spec fn spec_index(&self) -> T18 {
        self.17
    }

    open spec fn spec_with_index(self, value: T18) -> (T1, T2, T3, T4, T5, T6, T7, T8, T9, T10, T11, T12, T13, T14, T15, T16, T17, T18, T19, T20, T21, T22, T23, T24, T25, T26, T27, T28, T29, T30) {
        (self.0, self.1, self.2, self.3, self.4, self.5, self.6, self.7, self.8, self.9, self.10, self.11, self.12, self.13, self.14, self.15, self.16, value, self.18, self.19, self.20, self.21, self.22, self.23, self.24, self.25, self.26, self.27, self.28, self.29)
    }

    fn index_ref(&self) -> (r: &T18) {
        &self.17
    }

    fn index_mut(&mut self) -> (r: &mut T18) {
        &mut self.17
    }

    fn into_index(self) -> (r: T18) {
        self.17
    }

    proof fn lemma_index_in_range(&self) {
    }
}

impl<T1, T2, T3, T4, T5, T6, T7, T8, T9, T10, T11, T12, T13, T14, T15, T16, T17, T18, T19, T20, T21, T22, T23, T24, T25, T26, T27, T28, T29, T30> IndexableTuple<18> for (T1, T2, T3, T4, T5, T6, T7, T8, T9, T10, T11, T12, T13, T14, T15, T16, T17, T18, T19, T20, T21, T22, T23, T24, T25, T26, T27, T28, T29, T30) {
    type Value = T19;

    open spec fn spec_index(&self) -> T19 {
        self.18
    }

    open spec fn spec_with_index(self, value: T19) -> (T1, T2, T3, T4, T5, T6, T7, T8, T9, T10, T11, T12, T13, T14, T15, T16, T17, T18, T19, T20, T21, T22, T23, T24, T25, T26, T27, T28, T29, T30) {
        (self.0, self.1, self.2, self.3, self.4, self.5, self.6, self.7, self.8, self.9, self.10, self.11, self.12, self.13, self.14, self.15, self.16, self.17, value, self.19, self.20, self.21, self.22, self.23, self.24, self.25, self.26, self.27, self.28, self.29)
    }

    fn index_ref(&self) -> (r: &T19) {
        &self.18
    }

    fn index_mut(&mut self) -> (r: &mut T19) {
        &mut self.18
    }

    fn into_index(self) -> (r: T19) {
        self.18
    }

    proof fn lemma_index_in_range(&self) {
    }
}

impl<T1, T2, T3, T4, T5, T6, T7, T8, T9, T10, T11, T12, T13, T14, T15, T16, T17, T18, T19, T20, T21, T22, T23, T24, T25, T26, T27, T28, T29, T30> IndexableTuple<19> for (T1, T2, T3, T4, T5, T6, T7, T8, T9, T10, T11, T12, T13, T14, T15, T16, T17, T18, T19, T20, T21, T22, T23, T24, T25, T26, T27, T28, T29, T30) {
    type Value = T20;

    open spec fn spec_index(&self) -> T20 {
        self.19
    }

    open spec fn spec_with_index(self, value: T20) -> (T1, T2, T3, T4, T5, T6, T7, T8, T9, T10, T11, T12, T13, T14, T15, T16, T17, T18, T19, T20, T21, T22, T23, T24, T25, T26, T27, T28, T29, T30) {
        (self.0, self.1, self.2, self.3, self.4, self.5, self.6, self.7, self.8, self.9, self.10, self.11, self.12, self.13, self.14, self.15, self.16, self.17, self.18, value, self.20, self.21, self.22, self.23, self.24, self.25, self.26, self.27, self.28, self.29)
    }

    fn index_ref(&self) -> (r: &T20) {
        &self.19
    }

    fn index_mut(&mut self) -> (r: &mut T20) {
        &mut self.19
    }

    fn into_index(self) -> (r: T20) {
        self.19
    }

    proof fn lemma_index_in_range(&self) {
    }
}

impl<T1, T2, T3, T4, T5, T6, T7, T8, T9, T10, T11, T12, T13, T14, T15, T16, T17, T18, T19, T20, T21, T22, T23, T24, T25, T26, T27, T28, T29, T30> IndexableTuple<20> for (T1, T2, T3, T4, T5, T6, T7, T8, T9, T10, T11, T12, T13, T14, T15, T16, T17, T18, T19, T20, T21, T22, T23, T24, T25, T26, T27, T28, T29, T30) {
    type Value = T21;

    open spec fn spec_index(&self) -> T21 {
        self.20
    }

    open spec fn spec_with_index(self, value: T21) -> (T1, T2, T3, T4, T5, T6, T7, T8, T9, T10, T11, T12, T13, T14, T15, T16, T17, T18, T19, T20, T21, T22, T23, T24, T25, T26, T27, T28, T29, T30) {
        (self.0, self.1, self.2, self.3, self.4, self.5, self.6, self.7, self.8, self.9, self.10, self.11, self.12, self.13, self.14, self.15, self.16, self.17, self.18, self.19, value, self.21, self.22, self.23, self.24, self.25, self.26, self.27, self.28, self.29)
    }

    fn index_ref(&self) -> (r: &T21) {
        &self.20
    }

    fn index_mut(&mut self) -> (r: &mut T21) {
        &mut self.20
    }

    fn into_index(self) -> (r: T21) {
        self.20
    }

    proof fn lemma_index_in_range(&self) {
    }
}

impl<T1, T2, T3, T4, T5, T6, T7, T8, T9, T10, T11, T12, T13, T14, T15, T16, T17, T18, T19, T20, T21, T22, T23, T24, T25, T26, T27, T28, T29, T30> IndexableTuple<21> for (T1, T2, T3, T4, T5, T6, T7, T8, T9, T10, T11, T12, T13, T14, T15, T16, T17, T18, T19, T20, T21, T22, T23, T24, T25, T26, T27, T28, T29, T30) {
    type Value = T22;

    open spec fn spec_index(&self) -> T22 {
        self.21
    }

    open spec fn spec_with_index(self, value: T22) -> (T1, T2, T3, T4, T5, T6, T7, T8, T9, T10, T11, T12, T13, T14, T15, T16, T17, T18, T19, T20, T21, T22, T23, T24, T25, T26, T27, T28, T29, T30) {
        (self.0, self.1, self.2, self.3, self.4, self.5, self.6, self.7, self.8, self.9, self.10, self.11, self.12, self.13, self.14, self.15, self.16, self.17, self.18, self.19, self.20, value, self.22, self.23, self.24, self.25, self.26, self.27, self.28, self.29)
    }

    fn index_ref(&self) -> (r: &T22) {
        &self.21
    }

    fn index_mut(&mut self) -> (r: &mut T22) {
        &mut self.21
    }

    fn into_index(self) -> (r: T22) {
        self.21
    }

    proof fn lemma_index_in_range(&self) {
    }
}

impl<T1, T2, T3, T4, T5, T6, T7, T8, T9, T10, T11, T12, T13, T14, T15, T16, T17, T18, T19, T20, T21, T22, T23, T24, T25, T26, T27, T28, T29, T30> IndexableTuple<22> for (T1, T2, T3, T4, T5, T6, T7, T8, T9, T10, T11, T12, T13, T14, T15, T16, T17, T18, T19, T20, T21, T22, T23, T24, T25, T26, T27, T28, T29, T30) {
    type Value = T23;

    open spec fn spec_index(&self) -> T23 {
        self.22
    }

    open spec fn spec_with_index(self, value: T23) -> (T1, T2, T3, T4, T5, T6, T7, T8, T9, T10, T11, T12, T13, T14, T15, T16, T17, T18, T19, T20, T21, T22, T23, T24, T25, T26, T27, T28, T29, T30) {
        (self.0, self.1, self.2, self.3, self.4, self.5, self.6, self.7, self.8, self.9, self.10, self.11, self.12, self.13, self.14, self.15, self.16, self.17, self.18, self.19, self.20, self.21, value, self.23, self.24, self.25, self.26, self.27, self.28, self.29)
    }

    fn index_ref(&self) -> (r: &T23) {
        &self.22
    }

    fn index_mut(&mut self) -> (r: &mut T23) {
        &mut self.22
    }

    fn into_index(self) -> (r: T23) {
        self.22
    }

    proof fn lemma_index_in_range(&self) {
    }
}

impl<T1, T2, T3, T4, T5, T6, T7, T8, T9, T10, T11, T12, T13, T14, T15, T16, T17, T18, T19, T20, T21, T22, T23, T24, T25, T26, T27, T28, T29, T30> IndexableTuple<23> for (T1, T2, T3, T4, T5, T6, T7, T8, T9, T10, T11, T12, T13, T14, T15, T16, T17, T18, T19, T20, T21, T22, T23, T24, T25, T26, T27, T28, T29, T30) {
    type Value = T24;

    open spec fn spec_index(&self) -> T24 {
        self.23
    }

    open spec fn spec_with_index(self, value: T24) -> (T1, T2, T3, T4, T5, T6, T7, T8, T9, T10, T11, T12, T13, T14, T15, T16, T17, T18, T19, T20, T21, T22, T23, T24, T25, T26, T27, T28, T29, T30) {
        (self.0, self.1, self.2, self.3, self.4, self.5, self.6, self.7, self.8, self.9, self.10, self.11, self.12, self.13, self.14, self.15, self.16, self.17, self.18, self.19, self.20, self.21, self.22, value, self.24, self.25, self.26, self.27, self.28, self.29)
    }

    fn index_ref(&self) -> (r: &T24) {
        &self.23
    }

    fn index_mut(&mut self) -> (r: &mut T24) {
        &mut self.23
    }

    fn into_index(self) -> (r: T24) {
        self.23
    }

    proof fn lemma_index_in_range(&self) {
    }
}

impl<T1, T2, T3, T4, T5, T6, T7, T8, T9, T10, T11, T12, T13, T14, T15, T16, T17, T18, T19, T20, T21, T22, T23, T24, T25, T26, T27, T28, T29, T30> IndexableTuple<24> for (T1, T2, T3, T4, T5, T6, T7, T8, T9, T10, T11, T12, T13, T14, T15, T16, T17, T18, T19, T20, T21, T22, T23, T24, T25, T26, T27, T28, T29, T30) {
    type Value = T25;

    open spec fn spec_index(&self) -> T25 {
        self.24
    }

    open spec fn spec_with_index(self, value: T25) -> (T1, T2, T3, T4, T5, T6, T7, T8, T9, T10, T11, T12, T13, T14, T15, T16, T17, T18, T19, T20, T21, T22, T23, T24, T25, T26, T27, T28, T29, T30) {
        (self.0, self.1, self.2, self.3, self.4, self.5, self.6, self.7, self.8, self.9, self.10, self.11, self.12, self.13, self.14, self.15, self.16, self.17, self.18, self.19, self.20, self.21, self.22, self.23, value, self.25, self.26, self.27, self.28, self.29)
    }

    fn index_ref(&self) -> (r: &T25) {
        &self.24
    }

    fn index_mut(&mut self) -> (r: &mut T25) {
        &mut self.24
    }

    fn into_index(self) -> (r: T25) {
        self.24
    }

    proof fn lemma_index_in_range(&self) {
    }
}

impl<T1, T2, T3, T4, T5, T6, T7, T8, T9, T10, T11, T12, T13, T14, T15, T16, T17, T18, T19, T20, T21, T22, T23, T24, T25, T26, T27, T28, T29, T30> IndexableTuple<25> for (T1, T2, T3, T4, T5, T6, T7, T8, T9, T10, T11, T12, T13, T14, T15, T16, T17, T18, T19, T20, T21, T22, T23, T24, T25, T26, T27, T28, T29, T30) {
    type Value = T26;

    open spec fn spec_index(&self) -> T26 {
        self.25
    }

    open spec fn spec_with_index(self, value: T26) -> (T1, T2, T3, T4, T5, T6, T7, T8, T9, T10, T11, T12, T13, T14, T15, T16, T17, T18, T19, T20, T21, T22, T23, T24, T25, T26, T27, T28, T29, T30) {
        (self.0, self.1, self.2, self.3, self.4, self.5, self.6, self.7, self.8, self.9, self.10, self.11, self.12, self.13, self.14, self.15, self.16, self.17, self.18, self.19, self.20, self.21, self.22, self.23, self.24, value, self.26, self.27, self.28, self.29)
    }

    fn index_ref(&self) -> (r: &T26) {
        &self.25
    }

    fn index_mut(&mut self) -> (r: &mut T26) {
        &mut self.25
    }

    fn into_index(self) -> (r: T26) {
        self.25
    }

    proof fn lemma_index_in_range(&self) {
    }
}

impl<T1, T2, T3, T4, T5, T6, T7, T8, T9, T10, T11, T12, T13, T14, T15, T16, T17, T18, T19, T20, T21, T22, T23, T24, T25, T26, T27, T28, T29, T30> IndexableTuple<26> for (T1, T2, T3, T4, T5, T6, T7, T8, T9, T10, T11, T12, T13, T14, T15, T16, T17, T18, T19, T20, T21, T22, T23, T24, T25, T26, T27, T28, T29, T30) {
    type Value = T27;

    open spec fn spec_index(&self) -> T27 {
        self.26
    }

    open spec fn spec_with_index(self, value: T27) -> (T1, T2, T3, T4, T5, T6, T7, T8, T9, T10, T11, T12, T13, T14, T15, T16, T17, T18, T19, T20, T21, T22, T23, T24, T25, T26, T27, T28, T29, T30) {
        (self.0, self.1, self.2, self.3, self.4, self.5, self.6, self.7, self.8, self.9, self.10, self.11, self.12, self.13, self.14, self.15, self.16, self.17, self.18, self.19, self.20, self.21, self.22, self.23, self.24, self.25, value, self.27, self.28, self.29)
    }

    fn index_ref(&self) -> (r: &T27) {
        &self.26
    }

    fn index_mut(&mut self) -> (r: &mut T27) {
        &mut self.26
    }

    fn into_index(self) -> (r: T27) {
        self.26
    }

    proof fn lemma_index_in_range(&self) {
    }
}

impl<T1, T2, T3, T4, T5, T6, T7, T8, T9, T10, T11, T12, T13, T14, T15, T16, T17, T18, T19, T20, T21, T22, T23, T24, T25, T26, T27, T28, T29, T30> IndexableTuple<27> for (T1, T2, T3, T4, T5, T6, T7, T8, T9, T10, T11, T12, T13, T14, T15, T16, T17, T18, T19, T20, T21, T22, T23, T24, T25, T26, T27, T28, T29, T30) {
    type Value = T28;

    open spec fn spec_index(&self) -> T28 {
        self.27
    }

    open spec fn spec_with_index(self, value: T28) -> (T1, T2, T3, T4, T5, T6, T7, T8, T9, T10, T11, T12, T13, T14, T15, T16, T17, T18, T19, T20, T21, T22, T23, T24, T25, T26, T27, T28, T29, T30) {
        (self.0, self.1, self.2, self.3, self.4, self.5, self.6, self.7, self.8, self.9, self.10, self.11, self.12, self.13, self.14, self.15, self.16, self.17, self.18, self.19, self.20, self.21, self.22, self.23, self.24, self.25, self.26, value, self.28, self.29)
    }

    fn index_ref(&self) -> (r: &T28) {
        &self.27
    }

    fn index_mut(&mut self) -> (r: &mut T28) {
        &mut self.27
    }

    fn into_index(self) -> (r: T28) {
        self.27
    }

    proof fn lemma_index_in_range(&self) {
    }
}

impl<T1, T2, T3, T4, T5, T6, T7, T8, T9, T10, T11, T12, T13, T14, T15, T16, T17, T18, T19, T20, T21, T22, T23, T24, T25, T26, T27, T28, T29, T30> IndexableTuple<28> for (T1, T2, T3, T4, T5, T6, T7, T8, T9, T10, T11, T12, T13, T14, T15, T16, T17, T18, T19, T20, T21, T22, T23, T24, T25, T26, T27, T28, T29, T30) {
    type Value = T29;

    open spec fn spec_index(&self) -> T29 {
        self.28
    }

    open spec fn spec_with_index(self, value: T29) -> (T1, T2, T3, T4, T5, T6, T7, T8, T9, T10, T11, T12, T13, T14, T15, T16, T17, T18, T19, T20, T21, T22, T23, T24, T25, T26, T27, T28, T29, T30) {
        (self.0, self.1, self.2, self.3, self.4, self.5, self.6, self.7, self.8, self.9, self.10, self.11, self.12, self.13, self.14, self.15, self.16, self.17, self.18, self.19, self.20, self.21, self.22, self.23, self.24, self.25, self.26, self.27, value, self.29)
    }

    fn index_ref(&self) -> (r: &T29) {
        &self.28
    }

    fn index_mut(&mut self) -> (r: &mut T29) {
        &mut self.28
    }

    fn into_index(self) -> (r: T29) {
        self.28
    }

    proof fn lemma_index_in_range(&self) {
    }
}

impl<T1, T2, T3, T4, T5, T6, T7, T8, T9, T10, T11, T12, T13, T14, T15, T16, T17, T18, T19, T20, T21, T22, T23, T24, T25, T26, T27, T28, T29, T30> IndexableTuple<29> for (T1, T2, T3, T4, T5, T6, T7, T8, T9, T10, T11, T12, T13, T14, T15, T16, T17, T18, T19, T20, T21, T22, T23, T24, T25, T26, T27, T28, T29, T30) {
    type Value = T30;

    open spec fn spec_index(&self) -> T30 {
        self.29
    }

    open spec fn spec_with_index(self, value: T30) -> (T1, T2, T3, T4, T5, T6, T7, T8, T9, T10, T11, T12, T13, T14, T15, T16, T17, T18, T19, T20, T21, T22, T23, T24, T25, T26, T27, T28, T29, T30) {
        (self.0, self.1, self.2, self.3, self.4, self.5, self.6, self.7, self.8, self.9, self.10, self.11, self.12, self.13, self.14, self.15, self.16, self.17, self.18, self.19, self.20, self.21, self.22, self.23, self.24, self.25, self.26, self.27, self.28, value)
    }

    fn index_ref(&self) -> (r: &T30) {
        &self.29
    }

    fn index_mut(&mut self) -> (r: &mut T30) {
        &mut self.29
    }

    fn into_index(self) -> (r: T30) {
        self.29
    }

    proof fn lemma_index_in_range(&self) {
    }
}

impl<T1, T2, T3, T4, T5, T6, T7, T8, T9, T10, T11, T12, T13, T14, T15, T16, T17, T18, T19, T20, T21, T22, T23, T24, T25, T26, T27, T28, T29, T30> JoinableTuple<(T1, T2, T3, T4, T5, T6, T7, T8, T9, T10, T11, T12, T13, T14, T15, T16, T17, T18, T19, T20, T21, T22, T23, T24, T25, T26, T27, T28, T29, T30)> for () {
    type Join = (T1, T2, T3, T4, T5, T6, T7, T8, T9, T10, T11, T12, T13, T14, T15, T16, T17, T18, T19, T20, T21, T22, T23, T24, T25, T26, T27, T28, T29, T30);

    open spec fn spec_join(self, other: (T1, T2, T3, T4, T5, T6, T7, T8, T9, T10, T11, T12, T13, T14, T15, T16, T17, T18, T19, T20, T21, T22, T23, T24, T25, T26, T27, T28, T29, T30)) -> (T1, T2, T3, T4, T5, T6, T7, T8, T9, T10, T11, T12, T13, T14, T15, T16, T17, T18, T19, T20, T21, T22, T23, T24, T25, T26, T27, T28, T29, T30) {
        (other.0, other.1, other.2, other.3, other.4, other.5, other.6, other.7, other.8, other.9, other.10, other.11, other.12, other.13, other.14, other.15, other.16, other.17, other.18, other.19, other.20, other.21, other.22, other.23, other.24, other.25, other.26, other.27, other.28, other.29)
    }

    fn join(self, other: (T1, T2, T3, T4, T5, T6, T7, T8, T9, T10, T11, T12, T13, T14, T15, T16, T17, T18, T19, T20, T21, T22, T23, T24, T25, T26, T27, T28, T29, T30)) -> (r: (T1, T2, T3, T4, T5, T6, T7, T8, T9, T10, T11, T12, T13, T14, T15, T16, T17, T18, T19, T20, T21, T22, T23, T24, T25, T26, T27, T28, T29, T30)) {
        (other.0, other.1, other.2, other.3, other.4, other.5, other.6, other.7, other.8, other.9, other.10, other.11, other.12, other.13, other.14, other.15, other.16, other.17, other.18, other.19, other.20, other.21, other.22, other.23, other.24, other.25, other.26, other.27, other.28, other.29)
    }

    proof fn lemma_join_arity(self, other: (T1, T2, T3, T4, T5, T6, T7, T8, T9, T10, T11, T12, T13, T14, T15, T16, T17, T18, T19, T20, T21, T22, T23, T24, T25, T26, T27, T28, T29, T30)) {
    }
}

impl<T1, T2, T3, T4, T5, T6, T7, T8, T9, T10, T11, T12, T13, T14, T15, T16, T17, T18, T19, T20, T21, T22, T23, T24, T25, T26, T27, T28, T29, T30> JoinableTuple<(T2, T3, T4, T5, T6, T7, T8, T9, T10, T11, T12, T13, T14, T15, T16, T17, T18, T19, T20, T21, T22, T23, T24, T25, T26, T27, T28, T29, T30)> for (T1,) {
    type Join = (T1, T2, T3, T4, T5, T6, T7, T8, T9, T10, T11, T12, T13, T14, T15, T16, T17, T18, T19, T20, T21, T22, T23, T24, T25, T26, T27, T28, T29, T30);

    open spec fn spec_join(self, other: (T2, T3, T4, T5, T6, T7, T8, T9, T10, T11, T12, T13, T14, T15, T16, T17, T18, T19, T20, T21, T22, T23, T24, T25, T26, T27, T28, T29, T30)) -> (T1, T2, T3, T4, T5, T6, T7, T8, T9, T10, T11, T12, T13, T14, T15, T16, T17, T18, T19, T20, T21, T22, T23, T24, T25, T26, T27, T28, T29, T30) {
        (self.0, other.0, other.1, other.2, other.3, other.4, other.5, other.6, other.7, other.8, other.9, other.10, other.11, other.12, other.13, other.14, other.15, other.16, other.17, other.18, other.19, other.20, other.21, other.22, other.23, other.24, other.25, other.26, other.27, other.28)
    }

    fn join(self, other: (T2, T3, T4, T5, T6, T7, T8, T9, T10, T11, T12, T13, T14, T15, T16, T17, T18, T19, T20, T21, T22, T23, T24, T25, T26, T27, T28, T29, T30)) -> (r: (T1, T2, T3, T4, T5, T6, T7, T8, T9, T10, T11, T12, T13, T14, T15, T16, T17, T18, T19, T20, T21, T22, T23, T24, T25, T26, T27, T28, T29, T30)) {
        (self.0, other.0, other.1, other.2, other.3, other.4, other.5, other.6, other.7, other.8, other.9, other.10, other.11, other.12, other.13, other.14, other.15, other.16, other.17, other.18, other.19, other.20, other.21, other.22, other.23, other.24, other.25, other.26, other.27, other.28)
    }

    proof fn lemma_join_arity(self, other: (T2, T3, T4, T5, T6, T7, T8, T9, T10, T11, T12, T13, T14, T15, T16, T17, T18, T19, T20, T21, T22, T23, T24, T25, T26, T27, T28, T29, T30)) {
    }
}

impl<T1, T2, T3, T4, T5, T6, T7, T8, T9, T10, T11, T12, T13, T14, T15, T16, T17, T18, T19, T20, T21, T22, T23, T24, T25, T26, T27, T28, T29, T30> JoinableTuple<(T3, T4, T5, T6, T7, T8, T9, T10, T11, T12, T13, T14, T15, T16, T17, T18, T19, T20, T21, T22, T23, T24, T25, T26, T27, T28, T29, T30)> for (T1, T2) {
    type Join = (T1, T2, T3, T4, T5, T6, T7, T8, T9, T10, T11, T12, T13, T14, T15, T16, T17, T18, T19, T20, T21, T22, T23, T24, T25, T26, T27, T28, T29, T30);

    open spec fn spec_join(self, other: (T3, T4, T5, T6, T7, T8, T9, T10, T11, T12, T13, T14, T15, T16, T17, T18, T19, T20, T21, T22, T23, T24, T25, T26, T27, T28, T29, T30)) -> (T1, T2, T3, T4, T5, T6, T7, T8, T9, T10, T11, T12, T13, T14, T15, T16, T17, T18, T19, T20, T21, T22, T23, T24, T25, T26, T27, T28, T29, T30) {
        (self.0, self.1, other.0, other.1, other.2, other.3, other.4, other.5, other.6, other.7, other.8, other.9, other.10, other.11, other.12, other.13, other.14, other.15, other.16, other.17, other.18, other.19, other.20, other.21, other.22, other.23, other.24, other.25, other.26, other.27)
    }

    fn join(self, other: (T3, T4, T5, T6, T7, T8, T9, T10, T11, T12, T13, T14, T15, T16, T17, T18, T19, T20, T21, T22, T23, T24, T25, T26, T27, T28, T29, T30)) -> (r: (T1, T2, T3, T4, T5, T6, T7, T8, T9, T10, T11, T12, T13, T14, T15, T16, T17, T18, T19, T20, T21, T22, T23, T24, T25, T26, T27, T28, T29, T30)) {
        (self.0, self.1, other.0, other.1, other.2, other.3, other.4, other.5, other.6, other.7, other.8, other.9, other.10, other.11, other.12, other.13, other.14, other.15, other.16, other.17, other.18, other.19, other.20, other.21, other.22, other.23, other.24, other.25, other.26, other.27)
    }

    proof fn lemma_join_arity(self, other: (T3, T4, T5, T6, T7, T8, T9, T10, T11, T12, T13, T14, T15, T16, T17, T18, T19, T20, T21, T22, T23, T24, T25, T26, T27, T28, T29, T30)) {
    }
}

impl<T1, T2, T3, T4, T5, T6, T7, T8, T9, T10, T11, T12, T13, T14, T15, T16, T17, T18, T19, T20, T21, T22, T23, T24, T25, T26, T27, T28, T29, T30> JoinableTuple<(T4, T5, T6, T7, T8, T9, T10, T11, T12, T13, T14, T15, T16, T17, T18, T19, T20, T21, T22, T23, T24, T25, T26, T27, T28, T29, T30)> for (T1, T2, T3) {
    type Join = (T1, T2, T3, T4, T5, T6, T7, T8, T9, T10, T11, T12, T13, T14, T15, T16, T17, T18, T19, T20, T21, T22, T23, T24, T25, T26, T27, T28, T29, T30);

    open spec fn spec_join(self, other: (T4, T5, T6, T7, T8, T9, T10, T11, T12, T13, T14, T15, T16, T17, T18, T19, T20, T21, T22, T23, T24, T25, T26, T27, T28, T29, T30)) -> (T1, T2, T3, T4, T5, T6, T7, T8, T9, T10, T11, T12, T13, T14, T15, T16, T17, T18, T19, T20, T21, T22, T23, T24, T25, T26, T27, T28, T29, T30) {
        (self.0, self.1, self.2, other.0, other.1, other.2, other.3, other.4, other.5, other.6, other.7, other.8, other.9, other.10, other.11, other.12, other.13, other.14, other.15, other.16, other.17, other.18, other.19, other.20, other.21, other.22, other.23, other.24, other.25, other.26)
    }

    fn join(self, other: (T4, T5, T6, T7, T8, T9, T10, T11, T12, T13, T14, T15, T16, T17, T18, T19, T20, T21, T22, T23, T24, T25, T26, T27, T28, T29, T30)) -> (r: (T1, T2, T3, T4, T5, T6, T7, T8, T9, T10, T11, T12, T13, T14, T15, T16, T17, T18, T19, T20, T21, T22, T23, T24, T25, T26, T27, T28, T29, T30)) {
        (self.0, self.1, self.2, other.0, other.1, other.2, other.3, other.4, other.5, other.6, other.7, other.8, other.9, other.10, other.11, other.12, other.13, other.14, other.15, other.16, other.17, other.18, other.19, other.20, other.21, other.22, other.23, other.24, other.25, other.26)
    }

    proof fn lemma_join_arity(self, other: (T4, T5, T6, T7, T8, T9, T10, T11, T12, T13, T14, T15, T16, T17, T18, T19, T20, T21, T22, T23, T24, T25, T26, T27, T28, T29, T30)) {
    }
}

impl<T1, T2, T3, T4, T5, T6, T7, T8, T9, T10, T11, T12, T13, T14, T15, T16, T17, T18, T19, T20, T21, T22, T23, T24, T25, T26, T27, T28, T29, T30> JoinableTuple<(T5, T6, T7, T8, T9, T10, T11, T12, T13, T14, T15, T16, T17, T18, T19, T20, T21, T22, T23, T24, T25, T26, T27, T28, T29, T30)> for (T1, T2, T3, T4) {
    type Join = (T1, T2, T3, T4, T5, T6, T7, T8, T9, T10, T11, T12, T13, T14, T15, T16, T17, T18, T19, T20, T21, T22, T23, T24, T25, T26, T27, T28, T29, T30);

    open spec fn spec_join(self, other: (T5, T6, T7, T8, T9, T10, T11, T12, T13, T14, T15, T16, T17, T18, T19, T20, T21, T22, T23, T24, T25, T26, T27, T28, T29, T30)) -> (T1, T2, T3, T4, T5, T6, T7, T8, T9, T10, T11, T12, T13, T14, T15, T16, T17, T18, T19, T20, T21, T22, T23, T24, T25, T26, T27, T28, T29, T30) {
        (self.0, self.1, self.2, self.3, other.0, other.1, other.2, other.3, other.4, other.5, other.6, other.7, other.8, other.9, other.10, other.11, other.12, other.13, other.14, other.15, other.16, other.17, other.18, other.19, other.20, other.21, other.22, other.23, other.24, other.25)
    }

    fn join(self, other: (T5, T6, T7, T8, T9, T10, T11, T12, T13, T14, T15, T16, T17, T18, T19, T20, T21, T22, T23, T24, T25, T26, T27, T28, T29, T30)) -> (r: (T1, T2, T3, T4, T5, T6, T7, T8, T9, T10, T11, T12, T13, T14, T15, T16, T17, T18, T19, T20, T21, T22, T23, T24, T25, T26, T27, T28, T29, T30)) {
        (self.0, self.1, self.2, self.3, other.0, other.1, other.2, other.3, other.4, other.5, other.6, other.7, other.8, other.9, other.10, other.11, other.12, other.13, other.14, other.15, other.16, other.17, other.18, other.19, other.20, other.21, other.22, other.23, other.24, other.25)
    }

    proof fn lemma_join_arity(self, other: (T5, T6, T7, T8, T9, T10, T11, T12, T13, T14, T15, T16, T17, T18, T19, T20, T21, T22, T23, T24, T25, T26, T27, T28, T29, T30)) {
    }
}

impl<T1, T2, T3, T4, T5, T6, T7, T8, T9, T10, T11, T12, T13, T14, T15, T16, T17, T18, T19, T20, T21, T22, T23, T24, T25, T26, T27, T28, T29, T30> JoinableTuple<(T6, T7, T8, T9, T10, T11, T12, T13, T14, T15, T16, T17, T18, T19, T20, T21, T22, T23, T24, T25, T26, T27, T28, T29, T30)> for (T1, T2, T3, T4, T5) {
    type Join = (T1, T2, T3, T4, T5, T6, T7, T8, T9, T10, T11, T12, T13, T14, T15, T16, T17, T18, T19, T20, T21, T22, T23, T24, T25, T26, T27, T28, T29, T30);

    open spec fn spec_join(self, other: (T6, T7, T8, T9, T10, T11, T12, T13, T14, T15, T16, T17, T18, T19, T20, T21, T22, T23, T24, T25, T26, T27, T28, T29, T30)) -> (T1, T2, T3, T4, T5, T6, T7, T8, T9, T10, T11, T12, T13, T14, T15, T16, T17, T18, T19, T20, T21, T22, T23, T24, T25, T26, T27, T28, T29, T30) {
        (self.0, self.1, self.2, self.3, self.4, other.0, other.1, other.2, other.3, other.4, other.5, other.6, other.7, other.8, other.9, other.10, other.11, other.12, other.13, other.14, other.15, other.16, other.17, other.18, other.19, other.20, other.21, other.22, other.23, other.24)
    }

    fn join(self, other: (T6, T7, T8, T9, T10, T11, T12, T13, T14, T15, T16, T17, T18, T19, T20, T21, T22, T23, T24, T25, T26, T27, T28, T29, T30)) -> (r: (T1, T2, T3, T4, T5, T6, T7, T8, T9, T10, T11, T12, T13, T14, T15, T16, T17, T18, T19, T20, T21, T22, T23, T24, T25, T26, T27, T28, T29, T30)) {
        (self.0, self.1, self.2, self.3, self.4, other.0, other.1, other.2, other.3, other.4, other.5, other.6, other.7, other.8, other.9, other.10, other.11, other.12, other.13, other.14, other.15, other.16, other.17, other.18, other.19, other.20, other.21, other.22, other.23, other.24)
    }

    proof fn lemma_join_arity(self, other: (T6, T7, T8, T9, T10, T11, T12, T13, T14, T15, T16, T17, T18, T19, T20, T21, T22, T23, T24, T25, T26, T27, T28, T29, T30)) {
    }
}

impl<T1, T2, T3, T4, T5, T6, T7, T8, T9, T10, T11, T12, T13, T14, T15, T16, T17, T18, T19, T20, T21, T22, T23, T24, T25, T26, T27, T28, T29, T30> JoinableTuple<(T7, T8, T9, T10, T11, T12, T13, T14, T15, T16, T17, T18, T19, T20, T21, T22, T23, T24, T25, T26, T27, T28, T29, T30)> for (T1, T2, T3, T4, T5, T6) {
    type Join = (T1, T2, T3, T4, T5, T6, T7, T8, T9, T10, T11, T12, T13, T14, T15, T16, T17, T18, T19, T20, T21, T22, T23, T24, T25, T26, T27, T28, T29, T30);

    open spec fn spec_join(self, other: (T7, T8, T9, T10, T11, T12, T13, T14, T15, T16, T17, T18, T19, T20, T21, T22, T23, T24, T25, T26, T27, T28, T29, T30)) -> (T1, T2, T3, T4, T5, T6, T7, T8, T9, T10, T11, T12, T13, T14, T15, T16, T17, T18, T19, T20, T21, T22, T23, T24, T25, T26, T27, T28, T29, T30) {
        (self.0, self.1, self.2, self.3, self.4, self.5, other.0, other.1, other.2, other.3, other.4, other.5, other.6, other.7, other.8, other.9, other.10, other.11, other.12, other.13, other.14, other.15, other.16, other.17, other.18, other.19, other.20, other.21, other.22, other.23)
    }

    fn join(self, other: (T7, T8, T9, T10, T11, T12, T13, T14, T15, T16, T17, T18, T19, T20, T21, T22, T23, T24, T25, T26, T27, T28, T29, T30)) -> (r: (T1, T2, T3, T4, T5, T6, T7, T8, T9, T10, T11, T12, T13, T14, T15, T16, T17, T18, T19, T20, T21, T22, T23, T24, T25, T26, T27, T28, T29, T30)) {
        (self.0, self.1, self.2, self.3, self.4, self.5, other.0, other.1, other.2, other.3, other.4, other.5, other.6, other.7, other.8, other.9, other.10, other.11, other.12, other.13, other.14, other.15, other.16, other.17, other.18, other.19, other.20, other.21, other.22, other.23)
    }

    proof fn lemma_join_arity(self, other: (T7, T8, T9, T10, T11, T12, T13, T14, T15, T16, T17, T18, T19, T20, T21, T22, T23, T24, T25, T26, T27, T28, T29, T30)) {
    }
}

impl<T1, T2, T3, T4, T5, T6, T7, T8, T9, T10, T11, T12, T13, T14, T15, T16, T17, T18, T19, T20, T21, T22, T23, T24, T25, T26, T27, T28, T29, T30> JoinableTuple<(T8, T9, T10, T11, T12, T13, T14, T15, T16, T17, T18, T19, T20, T21, T22, T23, T24, T25, T26, T27, T28, T29, T30)> for (T1, T2, T3, T4, T5, T6, T7) {
    type Join = (T1, T2, T3, T4, T5, T6, T7, T8, T9, T10, T11, T12, T13, T14, T15, T16, T17, T18, T19, T20, T21, T22, T23, T24, T25, T26, T27, T28, T29, T30);

    open spec fn spec_join(self, other: (T8, T9, T10, T11, T12, T13, T14, T15, T16, T17, T18, T19, T20, T21, T22, T23, T24, T25, T26, T27, T28, T29, T30)) -> (T1, T2, T3, T4, T5, T6, T7, T8, T9, T10, T11, T12, T13, T14, T15, T16, T17, T18, T19, T20, T21, T22, T23, T24, T25, T26, T27, T28, T29, T30) {
        (self.0, self.1, self.2, self.3, self.4, self.5, self.6, other.0, other.1, other.2, other.3, other.4, other.5, other.6, other.7, other.8, other.9, other.10, other.11, other.12, other.13, other.14, other.15, other.16, other.17, other.18, other.19, other.20, other.21, other.22)
    }

    fn join(self, other: (T8, T9, T10, T11, T12, T13, T14, T15, T16, T17, T18, T19, T20, T21, T22, T23, T24, T25, T26, T27, T28, T29, T30)) -> (r: (T1, T2, T3, T4, T5, T6, T7, T8, T9, T10, T11, T12, T13, T14, T15, T16, T17, T18, T19, T20, T21, T22, T23, T24, T25, T26, T27, T28, T29, T30)) {
        (self.0, self.1, self.2, self.3, self.4, self.5, self.6, other.0, other.1, other.2, other.3, other.4, other.5, other.6, other.7, other.8, other.9, other.10, other.11, other.12, other.13, other.14, other.15, other.16, other.17, other.18, other.19, other.20, other.21, other.22)
    }

    proof fn lemma_join_arity(self, other: (T8, T9, T10, T11, T12, T13, T14, T15, T16, T17, T18, T19, T20, T21, T22, T23, T24, T25, T26, T27, T28, T29, T30)) {
    }
}

impl<T1, T2, T3, T4, T5, T6, T7, T8, T9, T10, T11, T12, T13, T14, T15, T16, T17, T18, T19, T20, T21, T22, T23, T24, T25, T26, T27, T28, T29, T30> JoinableTuple<(T9, T10, T11, T12, T13, T14, T15, T16, T17, T18, T19, T20, T21, T22, T23, T24, T25, T26, T27, T28, T29, T30)> for (T1, T2, T3, T4, T5, T6, T7, T8) {
    type Join = (T1, T2, T3, T4, T5, T6, T7, T8, T9, T10, T11, T12, T13, T14, T15, T16, T17, T18, T19, T20, T21, T22, T23, T24, T25, T26, T27, T28, T29, T30);

    open spec fn spec_join(self, other: (T9, T10, T11, T12, T13, T14, T15, T16, T17, T18, T19, T20, T21, T22, T23, T24, T25, T26, T27, T28, T29, T30)) -> (T1, T2, T3, T4, T5, T6, T7, T8, T9, T10, T11, T12, T13, T14, T15, T16, T17, T18, T19, T20, T21, T22, T23, T24, T25, T26, T27, T28, T29, T30) {
        (self.0, self.1, self.2, self.3, self.4, self.5, self.6, self.7, other.0, other.1, other.2, other.3, other.4, other.5, other.6, other.7, other.8, other.9, other.10, other.11, other.12, other.13, other.14, other.15, other.16, other.17, other.18, other.19, other.20, other.21)
    }

    fn join(self, other: (T9, T10, T11, T12, T13, T14, T15, T16, T17, T18, T19, T20, T21, T22, T23, T24, T25, T26, T27, T28, T29, T30)) -> (r: (T1, T2, T3, T4, T5, T6, T7, T8, T9, T10, T11, T12, T13, T14, T15, T16, T17, T18, T19, T20, T21, T22, T23, T24, T25, T26, T27, T28, T29, T30)) {
        (self.0, self.1, self.2, self.3, self.4, self.5, self.6, self.7, other.0, other.1, other.2, other.3, other.4, other.5, other.6, other.7, other.8, other.9, other.10, other.11, other.12, other.13, other.14, other.15, other.16, other.17, other.18, other.19, other.20, other.21)
    }

    proof fn lemma_join_arity(self, other: (T9, T10, T11, T12, T13, T14, T15, T16, T17, T18, T19, T20, T21, T22, T23, T24, T25, T26, T27, T28, T29, T30)) {
    }
}

impl<T1, T2, T3, T4, T5, T6, T7, T8, T9, T10, T11, T12, T13, T14, T15, T16, T17, T18, T19, T20, T21, T22, T23, T24, T25, T26, T27, T28, T29, T30> JoinableTuple<(T10, T11, T12, T13, T14, T15, T16, T17, T18, T19, T20, T21, T22, T23, T24, T25, T26, T27, T28, T29, T30)> for (T1, T2, T3, T4, T5, T6, T7, T8, T9) {
    type Join = (T1, T2, T3, T4, T5, T6, T7, T8, T9, T10, T11, T12, T13, T14, T15, T16, T17, T18, T19, T20, T21, T22, T23, T24, T25, T26, T27, T28, T29, T30);

    open spec fn spec_join(self, other: (T10, T11, T12, T13, T14, T15, T16, T17, T18, T19, T20, T21, T22, T23, T24, T25, T26, T27, T28, T29, T30)) -> (T1, T2, T3, T4, T5, T6, T7, T8, T9, T10, T11, T12, T13, T14, T15, T16, T17, T18, T19, T20, T21, T22, T23, T24, T25, T26, T27, T28, T29, T30) {
        (self.0, self.1, self.2, self.3, self.4, self.5, self.6, self.7, self.8, other.0, other.1, other.2, other.3, other.4, other.5, other.6, other.7, other.8, other.9, other.10, other.11, other.12, other.13, other.14, other.15, other.16, other.17, other.18, other.19, other.20)
    }

    fn join(self, other: (T10, T11, T12, T13, T14, T15, T16, T17, T18, T19, T20, T21, T22, T23, T24, T25, T26, T27, T28, T29, T30)) -> (r: (T1, T2, T3, T4, T5, T6, T7, T8, T9, T10, T11, T12, T13, T14, T15, T16, T17, T18, T19, T20, T21, T22, T23, T24, T25, T26, T27, T28, T29, T30)) {
        (self.0, self.1, self.2, self.3, self.4, self.5, self.6, self.7, self.8, other.0, other.1, other.2, other.3, other.4, other.5, other.6, other.7, other.8, other.9, other.10, other.11, other.12, other.13, other.14, other.15, other.16, other.17, other.18, other.19, other.20)
    }

    proof fn lemma_join_arity(self, other: (T10, T11, T12, T13, T14, T15, T16, T17, T18, T19, T20, T21, T22, T23, T24, T25, T26, T27, T28, T29, T30)) {
    }
}

impl<T1, T2, T3, T4, T5, T6, T7, T8, T9, T10, T11, T12, T13, T14, T15, T16, T17, T18, T19, T20, T21, T22, T23, T24, T25, T26, T27, T28, T29, T30> JoinableTuple<(T11, T12, T13, T14, T15, T16, T17, T18, T19, T20, T21, T22, T23, T24, T25, T26, T27, T28, T29, T30)> for (T1, T2, T3, T4, T5, T6, T7, T8, T9, T10) {
    type Join = (T1, T2, T3, T4, T5, T6, T7, T8, T9, T10, T11, T12, T13, T14, T15, T16, T17, T18, T19, T20, T21, T22, T23, T24, T25, T26, T27, T28, T29, T30);

    open spec fn spec_join(self, other: (T11, T12, T13, T14, T15, T16, T17, T18, T19, T20, T21, T22, T23, T24, T25, T26, T27, T28, T29, T30)) -> (T1, T2, T3, T4, T5, T6, T7, T8, T9, T10, T11, T12, T13, T14, T15, T16, T17, T18, T19, T20, T21, T22, T23, T24, T25, T26, T27, T28, T29, T30) {
        (self.0, self.1, self.2, self.3, self.4, self.5, self.6, self.7, self.8, self.9, other.0, other.1, other.2, other.3, other.4, other.5, other.6, other.7, other.8, other.9, other.10, other.11, other.12, other.13, other.14, other.15, other.16, other.17, other.18, other.19)
    }

    fn join(self, other: (T11, T12, T13, T14, T15, T16, T17, T18, T19, T20, T21, T22, T23, T24, T25, T26, T27, T28, T29, T30)) -> (r: (T1, T2, T3, T4, T5, T6, T7, T8, T9, T10, T11, T12, T13, T14, T15, T16, T17, T18, T19, T20, T21, T22, T23, T24, T25, T26, T27, T28, T29, T30)) {
        (self.0, self.1, self.2, self.3, self.4, self.5, self.6, self.7, self.8, self.9, other.0, other.1, other.2, other.3, other.4, other.5, other.6, other.7, other.8, other.9, other.10, other.11, other.12, other.13, other.14, other.15, other.16, other.17, other.18, other.19)
    }

    proof fn lemma_join_arity(self, other: (T11, T12, T13, T14, T15, T16, T17, T18, T19, T20, T21, T22, T23, T24, T25, T26, T27, T28, T29, T30)) {
    }
}

impl<T1, T2, T3, T4, T5, T6, T7, T8, T9, T10, T11, T12, T13, T14, T15, T16, T17, T18, T19, T20, T21, T22, T23, T24, T25, T26, T27, T28, T29, T30> JoinableTuple<(T12, T13, T14, T15, T16, T17, T18, T19, T20, T21, T22, T23, T24, T25, T26, T27, T28, T29, T30)> for (T1, T2, T3, T4, T5, T6, T7, T8, T9, T10, T11) {
    type Join = (T1, T2, T3, T4, T5, T6, T7, T8, T9, T10, T11, T12, T13, T14, T15, T16, T17, T18, T19, T20, T21, T22, T23, T24, T25, T26, T27, T28, T29, T30);

    open spec fn spec_join(self, other: (T12, T13, T14, T15, T16, T17, T18, T19, T20, T21, T22, T23, T24, T25, T26, T27, T28, T29, T30)) -> (T1, T2, T3, T4, T5, T6, T7, T8, T9, T10, T11, T12, T13, T14, T15, T16, T17, T18, T19, T20, T21, T22, T23, T24, T25, T26, T27, T28, T29, T30) {
        (self.0, self.1, self.2, self.3, self.4, self.5, self.6, self.7, self.8, self.9, self.10, other.0, other.1, other.2, other.3, other.4, other.5, other.6, other.7, other.8, other.9, other.10, other.11, other.12, other.13, other.14, other.15, other.16, other.17, other.18)
    }

    fn join(self, other: (T12, T13, T14, T15, T16, T17, T18, T19, T20, T21, T22, T23, T24, T25, T26, T27, T28, T29, T30)) -> (r: (T1, T2, T3, T4, T5, T6, T7, T8, T9, T10, T11, T12, T13, T14, T15, T16, T17, T18, T19, T20, T21, T22, T23, T24, T25, T26, T27, T28, T29, T30)) {
        (self.0, self.1, self.2, self.3, self.4, self.5, self.6, self.7, self.8, self.9, self.10, other.0, other.1, other.2, other.3, other.4, other.5, other.6, other.7, other.8, other.9, other.10, other.11, other.12, other.13, other.14, other.15, other.16, other.17, other.18)
    }

    proof fn lemma_join_arity(self, other: (T12, T13, T14, T15, T16, T17, T18, T19, T20, T21, T22, T23, T24, T25, T26, T27, T28, T29, T30)) {
    }
}

impl<T1, T2, T3, T4, T5, T6, T7, T8, T9, T10, T11, T12, T13, T14, T15, T16, T17, T18, T19, T20, T21, T22, T23, T24, T25, T26, T27, T28, T29, T30> JoinableTuple<(T13, T14, T15, T16, T17, T18, T19, T20, T21, T22, T23, T24, T25, T26, T27, T28, T29, T30)> for (T1, T2, T3, T4, T5, T6, T7, T8, T9, T10, T11, T12) {
    type Join = (T1, T2, T3, T4, T5, T6, T7, T8, T9, T10, T11, T12, T13, T14, T15, T16, T17, T18, T19, T20, T21, T22, T23, T24, T25, T26, T27, T28, T29, T30);

    open spec fn spec_join(self, other: (T13, T14, T15, T16, T17, T18, T19, T20, T21, T22, T23, T24, T25, T26, T27, T28, T29, T30)) -> (T1, T2, T3, T4, T5, T6, T7, T8, T9, T10, T11, T12, T13, T14, T15, T16, T17, T18, T19, T20, T21, T22, T23, T24, T25, T26, T27, T28, T29, T30) {
        (self.0, self.1, self.2, self.3, self.4, self.5, self.6, self.7, self.8, self.9, self.10, self.11, other.0, other.1, other.2, other.3, other.4, other.5, other.6, other.7, other.8, other.9, other.10, other.11, other.12, other.13, other.14, other.15, other.16, other.17)
    }

    fn join(self, other: (T13, T14, T15, T16, T17, T18, T19, T20, T21, T22, T23, T24, T25, T26, T27, T28, T29, T30)) -> (r: (T1, T2, T3, T4, T5, T6, T7, T8, T9, T10, T11, T12, T13, T14, T15, T16, T17, T18, T19, T20, T21, T22, T23, T24, T25, T26, T27, T28, T29, T30)) {
        (self.0, self.1, self.2, self.3, self.4, self.5, self.6, self.7, self.8, self.9, self.10, self.11, other.0, other.1, other.2, other.3, other.4, other.5, other.6, other.7, other.8, other.9, other.10, other.11, other.12, other.13, other.14, other.15, other.16, other.17)
    }

    proof fn lemma_join_arity(self, other: (T13, T14, T15, T16, T17, T18, T19, T20, T21, T22, T23, T24, T25, T26, T27, T28, T29, T30)) {
    }
}

impl<T1, T2, T3, T4, T5, T6, T7, T8, T9, T10, T11, T12, T13, T14, T15, T16, T17, T18, T19, T20, T21, T22, T23, T24, T25, T26, T27, T28, T29, T30> JoinableTuple<(T14, T15, T16, T17, T18, T19, T20, T21, T22, T23, T24, T25, T26, T27, T28, T29, T30)> for (T1, T2, T3, T4, T5, T6, T7, T8, T9, T10, T11, T12, T13) {
    type Join = (T1, T2, T3, T4, T5, T6, T7, T8, T9, T10, T11, T12, T13, T14, T15, T16, T17, T18, T19, T20, T21, T22, T23, T24, T25, T26, T27, T28, T29, T30);

    open spec fn spec_join(self, other: (T14, T15, T16, T17, T18, T19, T20, T21, T22, T23, T24, T25, T26, T27, T28, T29, T30)) -> (T1, T2, T3, T4, T5, T6, T7, T8, T9, T10, T11, T12, T13, T14, T15, T16, T17, T18, T19, T20, T21, T22, T23, T24, T25, T26, T27, T28, T29, T30) {
        (self.0, self.1, self.2, self.3, self.4, self.5, self.6, self.7, self.8, self.9, self.10, self.11, self.12, other.0, other.1, other.2, other.3, other.4, other.5, other.6, other.7, other.8, other.9, other.10, other.11, other.12, other.13, other.14, other.15, other.16)
    }

    fn join(self, other: (T14, T15, T16, T17, T18, T19, T20, T21, T22, T23, T24, T25, T26, T27, T28, T29, T30)) -> (r: (T1, T2, T3, T4, T5, T6, T7, T8, T9, T10, T11, T12, T13, T14, T15, T16, T17, T18, T19, T20, T21, T22, T23, T24, T25, T26, T27, T28, T29, T30)) {
        (self.0, self.1, self.2, self.3, self.4, self.5, self.6, self.7, self.8, self.9, self.10, self.11, self.12, other.0, other.1, other.2, other.3, other.4, other.5, other.6, other.7, other.8, other.9, other.10, other.11, other.12, other.13, other.14, other.15, other.16)
    }

    proof fn lemma_join_arity(self, other: (T14, T15, T16, T17, T18, T19, T20, T21, T22, T23, T24, T25, T26, T27, T28, T29, T30)) {
    }
}

impl<T1, T2, T3, T4, T5, T6, T7, T8, T9, T10, T11, T12, T13, T14, T15, T16, T17, T18, T19, T20, T21, T22, T23, T24, T25, T26, T27, T28, T29, T30> JoinableTuple<(T15, T16, T17, T18, T19, T20, T21, T22, T23, T24, T25, T26, T27, T28, T29, T30)> for (T1, T2, T3, T4, T5, T6, T7, T8, T9, T10, T11, T12, T13, T14) {
    type Join = (T1, T2, T3, T4, T5, T6, T7, T8, T9, T10, T11, T12, T13, T14, T15, T16, T17, T18, T19, T20, T21, T22, T23, T24, T25, T26, T27, T28, T29, T30);

    open spec fn spec_join(self, other: (T15, T16, T17, T18, T19, T20, T21, T22, T23, T24, T25, T26, T27, T28, T29, T30)) -> (T1, T2, T3, T4, T5, T6, T7, T8, T9, T10, T11, T12, T13, T14, T15, T16, T17, T18, T19, T20, T21, T22, T23, T24, T25, T26, T27, T28, T29, T30) {
        (self.0, self.1, self.2, self.3, self.4, self.5, self.6, self.7, self.8, self.9, self.10, self.11, self.12, self.13, other.0, other.1, other.2, other.3, other.4, other.5, other.6, other.7, other.8, other.9, other.10, other.11, other.12, other.13, other.14, other.15)
    }

    fn join(self, other: (T15, T16, T17, T18, T19, T20, T21, T22, T23, T24, T25, T26, T27, T28, T29, T30)) -> (r: (T1, T2, T3, T4, T5, T6, T7, T8, T9, T10, T11, T12, T13, T14, T15, T16, T17, T18, T19, T20, T21, T22, T23, T24, T25, T26, T27, T28, T29, T30)) {
        (self.0, self.1, self.2, self.3, self.4, self.5, self.6, self.7, self.8, self.9, self.10, self.11, self.12, self.13, other.0, other.1, other.2, other.3, other.4, other.5, other.6, other.7, other.8, other.9, other.10, other.11, other.12, other.13, other.14, other.15)
    }

    proof fn lemma_join_arity(self, other: (T15, T16, T17, T18, T19, T20, T21, T22, T23, T24, T25, T26, T27, T28, T29, T30)) {
    }
}

impl<T1, T2, T3, T4, T5, T6, T7, T8, T9, T10, T11, T12, T13, T14, T15, T16, T17, T18, T19, T20, T21, T22, T23, T24, T25, T26, T27, T28, T29, T30> JoinableTuple<(T16, T17, T18, T19, T20, T21, T22, T23, T24, T25, T26, T27, T28, T29, T30)> for (T1, T2, T3, T4, T5, T6, T7, T8, T9, T10, T11, T12, T13, T14, T15) {
    type Join = (T1, T2, T3, T4, T5, T6, T7, T8, T9, T10, T11, T12, T13, T14, T15, T16, T17, T18, T19, T20, T21, T22, T23, T24, T25, T26, T27, T28, T29, T30);

    open spec fn spec_join(self, other: (T16, T17, T18, T19, T20, T21, T22, T23, T24, T25, T26, T27, T28, T29, T30)) -> (T1, T2, T3, T4, T5, T6, T7, T8, T9, T10, T11, T12, T13, T14, T15, T16, T17, T18, T19, T20, T21, T22, T23, T24, T25, T26, T27, T28, T29, T30) {
        (self.0, self.1, self.2, self.3, self.4, self.5, self.6, self.7, self.8, self.9, self.10, self.11, self.12, self.13, self.14, other.0, other.1, other.2, other.3, other.4, other.5, other.6, other.7, other.8, other.9, other.10, other.11, other.12, other.13, other.14)
    }

    fn join(self, other: (T16, T17, T18, T19, T20, T21, T22, T23, T24, T25, T26, T27, T28, T29, T30)) -> (r: (T1, T2, T3, T4, T5, T6, T7, T8, T9, T10, T11, T12, T13, T14, T15, T16, T17, T18, T19, T20, T21, T22, T23, T24, T25, T26, T27, T28, T29, T30)) {
        (self.0, self.1, self.2, self.3, self.4, self.5, self.6, self.7, self.8, self.9, self.10, self.11, self.12, self.13, self.14, other.0, other.1, other.2, other.3, other.4, other.5, other.6, other.7, other.8, other.9, other.10, other.11, other.12, other.13, other.14)
    }

    proof fn lemma_join_arity(self, other: (T16, T17, T18, T19, T20, T21, T22, T23, T24, T25, T26, T27, T28, T29, T30)) {
    }
}

impl<T1, T2, T3, T4, T5, T6, T7, T8, T9, T10, T11, T12, T13, T14, T15, T16, T17, T18, T19, T20, T21, T22, T23, T24, T25, T26, T27, T28, T29, T30> JoinableTuple<(T17, T18, T19, T20, T21, T22, T23, T24, T25, T26, T27, T28, T29, T30)> for (T1, T2, T3, T4, T5, T6, T7, T8, T9, T10, T11, T12, T13, T14, T15, T16) {
    type Join = (T1, T2, T3, T4, T5, T6, T7, T8, T9, T10, T11, T12, T13, T14, T15, T16, T17, T18, T19, T20, T21, T22, T23, T24, T25, T26, T27, T28, T29, T30);

    open spec fn spec_join(self, other: (T17, T18, T19, T20, T21, T22, T23, T24, T25, T26, T27, T28, T29, T30)) -> (T1, T2, T3, T4, T5, T6, T7, T8, T9, T10, T11, T12, T13, T14, T15, T16, T17, T18, T19, T20, T21, T22, T23, T24, T25, T26, T27, T28, T29, T30) {
        (self.0, self.1, self.2, self.3, self.4, self.5, self.6, self.7, self.8, self.9, self.10, self.11, self.12, self.13, self.14, self.15, other.0, other.1, other.2, other.3, other.4, other.5, other.6, other.7, other.8, other.9, other.10, other.11, other.12, other.13)
    }

    fn join(self, other: (T17, T18, T19, T20, T21, T22, T23, T24, T25, T26, T27, T28, T29, T30)) -> (r: (T1, T2, T3, T4, T5, T6, T7, T8, T9, T10, T11, T12, T13, T14, T15, T16, T17, T18, T19, T20, T21, T22, T23, T24, T25, T26, T27, T28, T29, T30)) {
        (self.0, self.1, self.2, self.3, self.4, self.5, self.6, self.7, self.8, self.9, self.10, self.11, self.12, self.13, self.14, self.15, other.0, other.1, other.2, other.3, other.4, other.5, other.6, other.7, other.8, other.9, other.10, other.11, other.12, other.13)
    }

    proof fn lemma_join_arity(self, other: (T17, T18, T19, T20, T21, T22, T23, T24, T25, T26, T27, T28, T29, T30)) {
    }
}

impl<T1, T2, T3, T4, T5, T6, T7, T8, T9, T10, T11, T12, T13, T14, T15, T16, T17, T18, T19, T20, T21, T22, T23, T24, T25, T26, T27, T28, T29, T30> JoinableTuple<(T18, T19, T20, T21, T22, T23, T24, T25, T26, T27, T28, T29, T30)> for (T1, T2, T3, T4, T5, T6, T7, T8, T9, T10, T11, T12, T13, T14, T15, T16, T17) {
    type Join = (T1, T2, T3, T4, T5, T6, T7, T8, T9, T10, T11, T12, T13, T14, T15, T16, T17, T18, T19, T20, T21, T22, T23, T24, T25, T26, T27, T28, T29, T30);

    open spec fn spec_join(self, other: (T18, T19, T20, T21, T22, T23, T24, T25, T26, T27, T28, T29, T30)) -> (T1, T2, T3, T4, T5, T6, T7, T8, T9, T10, T11, T12, T13, T14, T15, T16, T17, T18, T19, T20, T21, T22, T23, T24, T25, T26, T27, T28, T29, T30) {
        (self.0, self.1, self.2, self.3, self.4, self.5, self.6, self.7, self.8, self.9, self.10, self.11, self.12, self.13, self.14, self.15, self.16, other.0, other.1, other.2, other.3, other.4, other.5, other.6, other.7, other.8, other.9, other.10, other.11, other.12)
    }

    fn join(self, other: (T18, T19, T20, T21, T22, T23, T24, T25, T26, T27, T28, T29, T30)) -> (r: (T1, T2, T3, T4, T5, T6, T7, T8, T9, T10, T11, T12, T13, T14, T15, T16, T17, T18, T19, T20, T21, T22, T23, T24, T25, T26, T27, T28, T29, T30)) {
        (self.0, self.1, self.2, self.3, self.4, self.5, self.6, self.7, self.8, self.9, self.10, self.11, self.12, self.13, self.14, self.15, self.16, other.0, other.1, other.2, other.3, other.4, other.5, other.6, other.7, other.8, other.9, other.10, other.11, other.12)
    }

    proof fn lemma_join_arity(self, other: (T18, T19, T20, T21, T22, T23, T24, T25, T26, T27, T28, T29, T30)) {
    }
}

impl<T1, T2, T3, T4, T5, T6, T7, T8, T9, T10, T11, T12, T13, T14, T15, T16, T17, T18, T19, T20, T21, T22, T23, T24, T25, T26, T27, T28, T29, T30> JoinableTuple<(T19, T20, T21, T22, T23, T24, T25, T26, T27, T28, T29, T30)> for (T1, T2, T3, T4, T5, T6, T7, T8, T9, T10, T11, T12, T13, T14, T15, T16, T17, T18) {
    type Join = (T1, T2, T3, T4, T5, T6, T7, T8, T9, T10, T11, T12, T13, T14, T15, T16, T17, T18, T19, T20, T21, T22, T23, T24, T25, T26, T27, T28, T29, T30);

    open spec fn spec_join(self, other: (T19, T20, T21, T22, T23, T24, T25, T26, T27, T28, T29, T30)) -> (T1, T2, T3, T4, T5, T6, T7, T8, T9, T10, T11, T12, T13, T14, T15, T16, T17, T18, T19, T20, T21, T22, T23, T24, T25, T26, T27, T28, T29, T30) {
        (self.0, self.1, self.2, self.3, self.4, self.5, self.6, self.7, self.8, self.9, self.10, self.11, self.12, self.13, self.14, self.15, self.16, self.17, other.0, other.1, other.2, other.3, other.4, other.5, other.6, other.7, other.8, other.9, other.10, other.11)
    }

    fn join(self, other: (T19, T20, T21, T22, T23, T24, T25, T26, T27, T28, T29, T30)) -> (r: (T1, T2, T3, T4, T5, T6, T7, T8, T9, T10, T11, T12, T13, T14, T15, T16, T17, T18, T19, T20, T21, T22, T23, T24, T25, T26, T27, T28, T29, T30)) {
        (self.0, self.1, self.2, self.3, self.4, self.5, self.6, self.7, self.8, self.9, self.10, self.11, self.12, self.13, self.14, self.15, self.16, self.17, other.0, other.1, other.2, other.3, other.4, other.5, other.6, other.7, other.8, other.9, other.10, other.11)
    }

    proof fn lemma_join_arity(self, other: (T19, T20, T21, T22, T23, T24, T25, T26, T27, T28, T29, T30)) {
    }
}

impl<T1, T2, T3, T4, T5, T6, T7, T8, T9, T10, T11, T12, T13, T14, T15, T16, T17, T18, T19, T20, T21, T22, T23, T24, T25, T26, T27, T28, T29, T30> JoinableTuple<(T20, T21, T22, T23, T24, T25, T26, T27, T28, T29, T30)> for (T1, T2, T3, T4, T5, T6, T7, T8, T9, T10, T11, T12, T13, T14, T15, T16, T17, T18, T19) {
    type Join = (T1, T2, T3, T4, T5, T6, T7, T8, T9, T10, T11, T12, T13, T14, T15, T16, T17, T18, T19, T20, T21, T22, T23, T24, T25, T26, T27, T28, T29, T30);

    open spec fn spec_join(self, other: (T20, T21, T22, T23, T24, T25, T26, T27, T28, T29, T30)) -> (T1, T2, T3, T4, T5, T6, T7, T8, T9, T10, T11, T12, T13, T14, T15, T16, T17, T18, T19, T20, T21, T22, T23, T24, T25, T26, T27, T28, T29, T30) {
        (self.0, self.1, self.2, self.3, self.4, self.5, self.6, self.7, self.8, self.9, self.10, self.11, self.12, self.13, self.14, self.15, self.16, self.17, self.18, other.0, other.1, other.2, other.3, other.4, other.5, other.6, other.7, other.8, other.9, other.10)
    }

    fn join(self, other: (T20, T21, T22, T23, T24, T25, T26, T27, T28, T29, T30)) -> (r: (T1, T2, T3, T4, T5, T6, T7, T8, T9, T10, T11, T12, T13, T14, T15, T16, T17, T18, T19, T20, T21, T22, T23, T24, T25, T26, T27, T28, T29, T30)) {
        (self.0, self.1, self.2, self.3, self.4, self.5, self.6, self.7, self.8, self.9, self.10, self.11, self.12, self.13, self.14, self.15, self.16, self.17, self.18, other.0, other.1, other.2, other.3, other.4, other.5, other.6, other.7, other.8, other.9, other.10)
    }

    proof fn lemma_join_arity(self, other: (T20, T21, T22, T23, T24, T25, T26, T27, T28, T29, T30)) {
    }
}

impl<T1, T2, T3, T4, T5, T6, T7, T8, T9, T10, T11, T12, T13, T14, T15, T16, T17, T18, T19, T20, T21, T22, T23, T24, T25, T26, T27, T28, T29, T30> JoinableTuple<(T21, T22, T23, T24, T25, T26, T27, T28, T29, T30)> for (T1, T2, T3, T4, T5, T6, T7, T8, T9, T10, T11, T12, T13, T14, T15, T16, T17, T18, T19, T20) {
    type Join = (T1, T2, T3, T4, T5, T6, T7, T8, T9, T10, T11, T12, T13, T14, T15, T16, T17, T18, T19, T20, T21, T22, T23, T24, T25, T26, T27, T28, T29, T30);

    open spec fn spec_join(self, other: (T21, T22, T23, T24, T25, T26, T27, T28, T29, T30)) -> (T1, T2, T3, T4, T5, T6, T7, T8, T9, T10, T11, T12, T13, T14, T15, T16, T17, T18, T19, T20, T21, T22, T23, T24, T25, T26, T27, T28, T29, T30) {
        (self.0, self.1, self.2, self.3, self.4, self.5, self.6, self.7, self.8, self.9, self.10, self.11, self.12, self.13, self.14, self.15, self.16, self.17, self.18, self.19, other.0, other.1, other.2, other.3, other.4, other.5, other.6, other.7, other.8, other.9)
    }

    fn join(self, other: (T21, T22, T23, T24, T25, T26, T27, T28, T29, T30)) -> (r: (T1, T2, T3, T4, T5, T6, T7, T8, T9, T10, T11, T12, T13, T14, T15, T16, T17, T18, T19, T20, T21, T22, T23, T24, T25, T26, T27, T28, T29, T30)) {
        (self.0, self.1, self.2, self.3, self.4, self.5, self.6, self.7, self.8, self.9, self.10, self.11, self.12, self.13, self.14, self.15, self.16, self.17, self.18, self.19, other.0, other.1, other.2, other.3, other.4, other.5, other.6, other.7, other.8, other.9)
    }

    proof fn lemma_join_arity(self, other: (T21, T22, T23, T24, T25, T26, T27, T28, T29, T30)) {
    }
}

impl<T1, T2, T3, T4, T5, T6, T7, T8, T9, T10, T11, T12, T13, T14, T15, T16, T17, T18, T19, T20, T21, T22, T23, T24, T25, T26, T27, T28, T29, T30> JoinableTuple<(T22, T23, T24, T25, T26, T27, T28, T29, T30)> for (T1, T2, T3, T4, T5, T6, T7, T8, T9, T10, T11, T12, T13, T14, T15, T16, T17, T18, T19, T20, T21) {
    type Join = (T1, T2, T3, T4, T5, T6, T7, T8, T9, T10, T11, T12, T13, T14, T15, T16, T17, T18, T19, T20, T21, T22, T23, T24, T25, T26, T27, T28, T29, T30);

    open spec fn spec_join(self, other: (T22, T23, T24, T25, T26, T27, T28, T29, T30)) -> (T1, T2, T3, T4, T5, T6, T7, T8, T9, T10, T11, T12, T13, T14, T15, T16, T17, T18, T19, T20, T21, T22, T23, T24, T25, T26, T27, T28, T29, T30) {
        (self.0, self.1, self.2, self.3, self.4, self.5, self.6, self.7, self.8, self.9, self.10, self.11, self.12, self.13, self.14, self.15, self.16, self.17, self.18, self.19, self.20, other.0, other.1, other.2, other.3, other.4, other.5, other.6, other.7, other.8)
    }

    fn join(self, other: (T22, T23, T24, T25, T26, T27, T28, T29, T30)) -> (r: (T1, T2, T3, T4, T5, T6, T7, T8, T9, T10, T11, T12, T13, T14, T15, T16, T17, T18, T19, T20, T21, T22, T23, T24, T25, T26, T27, T28, T29, T30)) {
        (self.0, self.1, self.2, self.3, self.4, self.5, self.6, self.7, self.8, self.9, self.10, self.11, self.12, self.13, self.14, self.15, self.16, self.17, self.18, self.19, self.20, other.0, other.1, other.2, other.3, other.4, other.5, other.6, other.7, other.8)
    }

    proof fn lemma_join_arity(self, other: (T22, T23, T24, T25, T26, T27, T28, T29, T30)) {
    }
}

impl<T1, T2, T3, T4, T5, T6, T7, T8, T9, T10, T11, T12, T13, T14, T15, T16, T17, T18, T19, T20, T21, T22, T23, T24, T25, T26, T27, T28, T29, T30> JoinableTuple<(T23, T24, T25, T26, T27, T28, T29, T30)> for (T1, T2, T3, T4, T5, T6, T7, T8, T9, T10, T11, T12, T13, T14, T15, T16, T17, T18, T19, T20, T21, T22) {
    type Join = (T1, T2, T3, T4, T5, T6, T7, T8, T9, T10, T11, T12, T13, T14, T15, T16, T17, T18, T19, T20, T21, T22, T23, T24, T25, T26, T27, T28, T29, T30);

    open spec fn spec_join(self, other: (T23, T24, T25, T26, T27, T28, T29, T30)) -> (T1, T2, T3, T4, T5, T6, T7, T8, T9, T10, T11, T12, T13, T14, T15, T16, T17, T18, T19, T20, T21, T22, T23, T24, T25, T26, T27, T28, T29, T30) {
        (self.0, self.1, self.2, self.3, self.4, self.5, self.6, self.7, self.8, self.9, self.10, self.11, self.12, self.13, self.14, self.15, self.16, self.17, self.18, self.19, self.20, self.21, other.0, other.1, other.2, other.3, other.4, other.5, other.6, other.7)
    }

    fn join(self, other: (T23, T24, T25, T26, T27, T28, T29, T30)) -> (r: (T1, T2, T3, T4, T5, T6, T7, T8, T9, T10, T11, T12, T13, T14, T15, T16, T17, T18, T19, T20, T21, T22, T23, T24, T25, T26, T27, T28, T29, T30)) {
        (self.0, self.1, self.2, self.3, self.4, self.5, self.6, self.7, self.8, self.9, self.10, self.11, self.12, self.13, self.14, self.15, self.16, self.17, self.18, self.19, self.20, self.21, other.0, other.1, other.2, other.3, other.4, other.5, other.6, other.7)
    }

    proof fn lemma_join_arity(self, other: (T23, T24, T25, T26, T27, T28, T29, T30)) {
    }
}

impl<T1, T2, T3, T4, T5, T6, T7, T8, T9, T10, T11, T12, T13, T14, T15, T16, T17, T18, T19, T20, T21, T22, T23, T24, T25, T26, T27, T28, T29, T30> JoinableTuple<(T24, T25, T26, T27, T28, T29, T30)> for (T1, T2, T3, T4, T5, T6, T7, T8, T9, T10, T11, T12, T13, T14, T15, T16, T17, T18, T19, T20, T21, T22, T23) {
    type Join = (T1, T2, T3, T4, T5, T6, T7, T8, T9, T10, T11, T12, T13, T14, T15, T16, T17, T18, T19, T20, T21, T22, T23, T24, T25, T26, T27, T28, T29, T30);

    open spec fn spec_join(self, other: (T24, T25, T26, T27, T28, T29, T30)) -> (T1, T2, T3, T4, T5, T6, T7, T8, T9, T10, T11, T12, T13, T14, T15, T16, T17, T18, T19, T20, T21, T22, T23, T24, T25, T26, T27, T28, T29, T30) {
        (self.0, self.1, self.2, self.3, self.4, self.5, self.6, self.7, self.8, self.9, self.10, self.11, self.12, self.13, self.14, self.15, self.16, self.17, self.18, self.19, self.20, self.21, self.22, other.0, other.1, other.2, other.3, other.4, other.5, other.6)
    }

    fn join(self, other: (T24, T25, T26, T27, T28, T29, T30)) -> (r: (T1, T2, T3, T4, T5, T6, T7, T8, T9, T10, T11, T12, T13, T14, T15, T16, T17, T18, T19, T20, T21, T22, T23, T24, T25, T26, T27, T28, T29, T30)) {
        (self.0, self.1, self.2, self.3, self.4, self.5, self.6, self.7, self.8, self.9, self.10, self.11, self.12, self.13, self.14, self.15, self.16, self.17, self.18, self.19, self.20, self.21, self.22, other.0, other.1, other.2, other.3, other.4, other.5, other.6)
    }

    proof fn lemma_join_arity(self, other: (T24, T25, T26, T27, T28, T29, T30)) {
    }
}

impl<T1, T2, T3, T4, T5, T6, T7, T8, T9, T10, T11, T12, T13, T14, T15, T16, T17, T18, T19, T20, T21, T22, T23, T24, T25, T26, T27, T28, T29, T30> JoinableTuple<(T25, T26, T27, T28, T29, T30)> for (T1, T2, T3, T4, T5, T6, T7, T8, T9, T10, T11, T12, T13, T14, T15, T16, T17, T18, T19, T20, T21, T22, T23, T24) {
    type Join = (T1, T2, T3, T4, T5, T6, T7, T8, T9, T10, T11, T12, T13, T14, T15, T16, T17, T18, T19, T20, T21, T22, T23, T24, T25, T26, T27, T28, T29, T30);

    open spec fn spec_join(self, other: (T25, T26, T27, T28, T29, T30)) -> (T1, T2, T3, T4, T5, T6, T7, T8, T9, T10, T11, T12, T13, T14, T15, T16, T17, T18, T19, T20, T21, T22, T23, T24, T25, T26, T27, T28, T29, T30) {
        (self.0, self.1, self.2, self.3, self.4, self.5, self.6, self.7, self.8, self.9, self.10, self.11, self.12, self.13, self.14, self.15, self.16, self.17, self.18, self.19, self.20, self.21, self.22, self.23, other.0, other.1, other.2, other.3, other.4, other.5)
    }

    fn join(self, other: (T25, T26, T27, T28, T29, T30)) -> (r: (T1, T2, T3, T4, T5, T6, T7, T8, T9, T10, T11, T12, T13, T14, T15, T16, T17, T18, T19, T20, T21, T22, T23, T24, T25, T26, T27, T28, T29, T30)) {
        (self.0, self.1, self.2, self.3, self.4, self.5, self.6, self.7, self.8, self.9, self.10, self.11, self.12, self.13, self.14, self.15, self.16, self.17, self.18, self.19, self.20, self.21, self.22, self.23, other.0, other.1, other.2, other.3, other.4, other.5)
    }

    proof fn lemma_join_arity(self, other: (T25, T26, T27, T28, T29, T30)) {
    }
}

impl<T1, T2, T3, T4, T5, T6, T7, T8, T9, T10, T11, T12, T13, T14, T15, T16, T17, T18, T19, T20, T21, T22, T23, T24, T25, T26, T27, T28, T29, T30> JoinableTuple<(T26, T27, T28, T29, T30)> for (T1, T2, T3, T4, T5, T6, T7, T8, T9, T10, T11, T12, T13, T14, T15, T16, T17, T18, T19, T20, T21, T22, T23, T24, T25) {
    type Join = (T1, T2, T3, T4, T5, T6, T7, T8, T9, T10, T11, T12, T13, T14, T15, T16, T17, T18, T19, T20, T21, T22, T23, T24, T25, T26, T27, T28, T29, T30);

    open spec fn spec_join(self, other: (T26, T27, T28, T29, T30)) -> (T1, T2, T3, T4, T5, T6, T7, T8, T9, T10, T11, T12, T13, T14, T15, T16, T17, T18, T19, T20, T21, T22, T23, T24, T25, T26, T27, T28, T29, T30) {
        (self.0, self.1, self.2, self.3, self.4, self.5, self.6, self.7, self.8, self.9, self.10, self.11, self.12, self.13, self.14, self.15, self.16, self.17, self.18, self.19, self.20, self.21, self.22, self.23, self.24, other.0, other.1, other.2, other.3, other.4)
    }

    fn join(self, other: (T26, T27, T28, T29, T30)) -> (r: (T1, T2, T3, T4, T5, T6, T7, T8, T9, T10, T11, T12, T13, T14, T15, T16, T17, T18, T19, T20, T21, T22, T23, T24, T25, T26, T27, T28, T29, T30)) {
        (self.0, self.1, self.2, self.3, self.4, self.5, self.6, self.7, self.8, self.9, self.10, self.11, self.12, self.13, self.14, self.15, self.16, self.17, self.18, self.19, self.20, self.21, self.22, self.23, self.24, other.0, other.1, other.2, other.3, other.4)
    }

    proof fn lemma_join_arity(self, other: (T26, T27, T28, T29, T30)) {
    }
}

impl<T1, T2, T3, T4, T5, T6, T7, T8, T9, T10, T11, T12, T13, T14, T15, T16, T17, T18, T19, T20, T21, T22, T23, T24, T25, T26, T27, T28, T29, T30> JoinableTuple<(T27, T28, T29, T30)> for (T1, T2, T3, T4, T5, T6, T7, T8, T9, T10, T11, T12, T13, T14, T15, T16, T17, T18, T19, T20, T21, T22, T23, T24, T25, T26) {
    type Join = (T1, T2, T3, T4, T5, T6, T7, T8, T9, T10, T11, T12, T13, T14, T15, T16, T17, T18, T19, T20, T21, T22, T23, T24, T25, T26, T27, T28, T29, T30);

    open spec fn spec_join(self, other: (T27, T28, T29, T30)) -> (T1, T2, T3, T4, T5, T6, T7, T8, T9, T10, T11, T12, T13, T14, T15, T16, T17, T18, T19, T20, T21, T22, T23, T24, T25, T26, T27, T28, T29, T30) {
        (self.0, self.1, self.2, self.3, self.4, self.5, self.6, self.7, self.8, self.9, self.10, self.11, self.12, self.13, self.14, self.15, self.16, self.17, self.18, self.19, self.20, self.21, self.22, self.23, self.24, self.25, other.0, other.1, other.2, other.3)
    }

    fn join(self, other: (T27, T28, T29, T30)) -> (r: (T1, T2, T3, T4, T5, T6, T7, T8, T9, T10, T11, T12, T13, T14, T15, T16, T17, T18, T19, T20, T21, T22, T23, T24, T25, T26, T27, T28, T29, T30)) {
        (self.0, self.1, self.2, self.3, self.4, self.5, self.6, self.7, self.8, self.9, self.10, self.11, self.12, self.13, self.14, self.15, self.16, self.17, self.18, self.19, self.20, self.21, self.22, self.23, self.24, self.25, other.0, other.1, other.2, other.3)
    }

    proof fn lemma_join_arity(self, other: (T27, T28, T29, T30)) {
    }
}

impl<T1, T2, T3, T4, T5, T6, T7, T8, T9, T10, T11, T12, T13, T14, T15, T16, T17, T18, T19, T20, T21, T22, T23, T24, T25, T26, T27, T28, T29, T30> JoinableTuple<(T28, T29, T30)> for (T1, T2, T3, T4, T5, T6, T7, T8, T9, T10, T11, T12, T13, T14, T15, T16, T17, T18, T19, T20, T21, T22, T23, T24, T25, T26, T27) {
    type Join = (T1, T2, T3, T4, T5, T6, T7, T8, T9, T10, T11, T12, T13, T14, T15, T16, T17, T18, T19, T20, T21, T22, T23, T24, T25, T26, T27, T28, T29, T30);

    open spec fn spec_join(self, other: (T28, T29, T30)) -> (T1, T2, T3, T4, T5, T6, T7, T8, T9, T10, T11, T12, T13, T14, T15, T16, T17, T18, T19, T20, T21, T22, T23, T24, T25, T26, T27, T28, T29, T30) {
        (self.0, self.1, self.2, self.3, self.4, self.5, self.6, self.7, self.8, self.9, self.10, self.11, self.12, self.13, self.14, self.15, self.16, self.17, self.18, self.19, self.20, self.21, self.22, self.23, self.24, self.25, self.26, other.0, other.1, other.2)
    }

    fn join(self, other: (T28, T29, T30)) -> (r: (T1, T2, T3, T4, T5, T6, T7, T8, T9, T10, T11, T12, T13, T14, T15, T16, T17, T18, T19, T20, T21, T22, T23, T24, T25, T26, T27, T28, T29, T30)) {
        (self.0, self.1, self.2, self.3, self.4, self.5, self.6, self.7, self.8, self.9, self.10, self.11, self.12, self.13, self.14, self.15, self.16, self.17, self.18, self.19, self.20, self.21, self.22, self.23, self.24, self.25, self.26, other.0, other.1, other.2)
    }

    proof fn lemma_join_arity(self, other: (T28, T29, T30)) {
    }
}

impl<T1, T2, T3, T4, T5, T6, T7, T8, T9, T10, T11, T12, T13, T14, T15, T16, T17, T18, T19, T20, T21, T22, T23, T24, T25, T26, T27, T28, T29, T30> JoinableTuple<(T29, T30)> for (T1, T2, T3, T4, T5, T6, T7, T8, T9, T10, T11, T12, T13, T14, T15, T16, T17, T18, T19, T20, T21, T22, T23, T24, T25, T26, T27, T28) {
    type Join = (T1, T2, T3, T4, T5, T6, T7, T8, T9, T10, T11, T12, T13, T14, T15, T16, T17, T18, T19, T20, T21, T22, T23, T24, T25, T26, T27, T28, T29, T30);

    open spec fn spec_join(self, other: (T29, T30)) -> (T1, T2, T3, T4, T5, T6, T7, T8, T9, T10, T11, T12, T13, T14, T15, T16, T17, T18, T19, T20, T21, T22, T23, T24, T25, T26, T27, T28, T29, T30) {
        (self.0, self.1, self.2, self.3, self.4, self.5, self.6, self.7, self.8, self.9, self.10, self.11, self.12, self.13, self.14, self.15, self.16, self.17, self.18, self.19, self.20, self.21, self.22, self.23, self.24, self.25, self.26, self.27, other.0, other.1)
    }

    fn join(self, other: (T29, T30)) -> (r: (T1, T2, T3, T4, T5, T6, T7, T8, T9, T10, T11, T12, T13, T14, T15, T16, T17, T18, T19, T20, T21, T22, T23, T24, T25, T26, T27, T28, T29, T30)) {
        (self.0, self.1, self.2, self.3, self.4, self.5, self.6, self.7, self.8, self.9, self.10, self.11, self.12, self.13, self.14, self.15, self.16, self.17, self.18, self.19, self.20, self.21, self.22, self.23, self.24, self.25, self.26, self.27, other.0, other.1)
    }

    proof fn lemma_join_arity(self, other: (T29, T30)) {
    }
}

impl<T1, T2, T3, T4, T5, T6, T7, T8, T9, T10, T11, T12, T13, T14, T15, T16, T17, T18, T19, T20, T21, T22, T23, T24, T25, T26, T27, T28, T29, T30> JoinableTuple<(T30,)> for (T1, T2, T3, T4, T5, T6, T7, T8, T9, T10, T11, T12, T13, T14, T15, T16, T17, T18, T19, T20, T21, T22, T23, T24, T25, T26, T27, T28, T29) {
    type Join = (T1, T2, T3, T4, T5, T6, T7, T8, T9, T10, T11, T12, T13, T14, T15, T16, T17, T18, T19, T20, T21, T22, T23, T24, T25, T26, T27, T28, T29, T30);

    open spec fn spec_join(self, other: (T30,)) -> (T1, T2, T3, T4, T5, T6, T7, T8, T9, T10, T11, T12, T13, T14, T15, T16, T17, T18, T19, T20, T21, T22, T23, T24, T25, T26, T27, T28, T29, T30) {
        (self.0, self.1, self.2, self.3, self.4, self.5, self.6, self.7, self.8, self.9, self.10, self.11, self.12, self.13, self.14, self.15, self.16, self.17, self.18, self.19, self.20, self.21, self.22, self.23, self.24, self.25, self.26, self.27, self.28, other.0)
    }

    fn join(self, other: (T30,)) -> (r: (T1, T2, T3, T4, T5, T6, T7, T8, T9, T10, T11, T12, T13, T14, T15, T16, T17, T18, T19, T20, T21, T22, T23, T24, T25, T26, T27, T28, T29, T30)) {
        (self.0, self.1, self.2, self.3, self.4, self.5, self.6, self.7, self.8, self.9, self.10, self.11, self.12, self.13, self.14, self.15, self.16, self.17, self.18, self.19, self.20, self.21, self.22, self.23, self.24, self.25, self.26, self.27, self.28, other.0)
    }

    proof fn lemma_join_arity(self, other: (T30,)) {
    }
}

impl<T1, T2, T3, T4, T5, T6, T7, T8, T9, T10, T11, T12, T13, T14, T15, T16, T17, T18, T19, T20, T21, T22, T23, T24, T25, T26, T27, T28, T29, T30> JoinableTuple<()> for (T1, T2, T3, T4, T5, T6, T7, T8, T9, T10, T11, T12, T13, T14, T15, T16, T17, T18, T19, T20, T21, T22, T23, T24, T25, T26, T27, T28, T29, T30) {
    type Join = (T1, T2, T3, T4, T5, T6, T7, T8, T9, T10, T11, T12, T13, T14, T15, T16, T17, T18, T19, T20, T21, T22, T23, T24, T25, T26, T27, T28, T29, T30);

    open spec fn spec_join(self, other: ()) -> (T1, T2, T3, T4, T5, T6, T7, T8, T9, T10, T11, T12, T13, T14, T15, T16, T17, T18, T19, T20, T21, T22, T23, T24, T25, T26, T27, T28, T29, T30) {
        (self.0, self.1, self.2, self.3, self.4, self.5, self.6, self.7, self.8, self.9, self.10, self.11, self.12, self.13, self.14, self.15, self.16, self.17, self.18, self.19, self.20, self.21, self.22, self.23, self.24, self.25, self.26, self.27, self.28, self.29)
    }

    fn join(self, other: ()) -> (r: (T1, T2, T3, T4, T5, T6, T7, T8, T9, T10, T11, T12, T13, T14, T15, T16, T17, T18, T19, T20, T21, T22, T23, T24, T25, T26, T27, T28, T29, T30)) {
        (self.0, self.1, self.2, self.3, self.4, self.5, self.6, self.7, self.8, self.9, self.10, self.11, self.12, self.13, self.14, self.15, self.16, self.17, self.18, self.19, self.20, self.21, self.22, self.23, self.24, self.25, self.26, self.27, self.28, self.29)
    }

    proof fn lemma_join_arity(self, other: ()) {
    }
}

impl<T1, T2, T3, T4, T5, T6, T7, T8, T9, T10, T11, T12, T13, T14, T15, T16, T17, T18, T19, T20, T21, T22, T23, T24, T25, T26, T27, T28, T29, T30, T31> Sealed for (T1, T2, T3, T4, T5, T6, T7, T8, T9, T10, T11, T12, T13, T14, T15, T16, T17, T18, T19, T20, T21, T22, T23, T24, T25, T26, T27, T28, T29, T30, T31) {}

impl<T1, T2, T3, T4, T5, T6, T7, T8, T9, T10, T11, T12, T13, T14, T15, T16, T17, T18, T19, T20, T21, T22, T23, T24, T25, T26, T27, T28, T29, T30, T31> DynTuple for (T1, T2, T3, T4, T5, T6, T7, T8, T9, T10, T11, T12, T13, T14, T15, T16, T17, T18, T19, T20, T21, T22, T23, T24, T25, T26, T27, T28, T29, T30, T31) {
    open spec fn spec_arity(&self) -> nat {
        31
    }

    fn arity(&self) -> (r: usize) {
        31
    }
}

impl<T1, T2, T3, T4, T5, T6, T7, T8, T9, T10, T11, T12, T13, T14, T15, T16, T17, T18, T19, T20, T21, T22, T23, T24, T25, T26, T27, T28, T29, T30, T31> Tuple for (T1, T2, T3, T4, T5, T6, T7, T8, T9, T10, T11, T12, T13, T14, T15, T16, T17, T18, T19, T20, T21, T22, T23, T24, T25, T26, T27, T28, T29, T30, T31) {
    const ARITY: usize = 31;

    open spec fn spec_type_arity() -> nat {
        31
    }

    proof fn lemma_arity(&self) {
    }

    proof fn lemma_type_arity() {
    }
}

impl<T1, T2, T3, T4, T5, T6, T7, T8, T9, T10, T11, T12, T13, T14, T15, T16, T17, T18, T19, T20, T21, T22, T23, T24, T25, T26, T27, T28, T29, T30, T31, T> GrowableTuple<T> for (T1, T2, T3, T4, T5, T6, T7, T8, T9, T10, T11, T12, T13, T14, T15, T16, T17, T18, T19, T20, T21, T22, T23, T24, T25, T26, T27, T28, T29, T30, T31) {
    type Append = (T1, T2, T3, T4, T5, T6, T7, T8, T9, T10, T11, T12, T13, T14, T15, T16, T17, T18, T19, T20, T21, T22, T23, T24, T25, T26, T27, T28, T29, T30, T31, T);

    type Prepend = (T, T1, T2, T3, T4, T5, T6, T7, T8, T9, T10, T11, T12, T13, T14, T15, T16, T17, T18, T19, T20, T21, T22, T23, T24, T25, T26, T27, T28, T29, T30, T31);

    open spec fn spec_append(self, value: T) -> (T1, T2, T3, T4, T5, T6, T7, T8, T9, T10, T11, T12, T13, T14, T15, T16, T17, T18, T19, T20, T21, T22, T23, T24, T25, T26, T27, T28, T29, T30, T31, T) {
        (self.0, self.1, self.2, self.3, self.4, self.5, self.6, self.7, self.8, self.9, self.10, self.11, self.12, self.13, self.14, self.15, self.16, self.17, self.18, self.19, self.20, self.21, self.22, self.23, self.24, self.25, self.26, self.27, self.28, self.29, self.30, value)
    }

    open spec fn spec_prepend(self, value: T) -> (T, T1, T2, T3, T4, T5, T6, T7, T8, T9, T10, T11, T12, T13, T14, T15, T16, T17, T18, T19, T20, T21, T22, T23, T24, T25, T26, T27, T28, T29, T30, T31) {
        (value, self.0, self.1, self.2, self.3, self.4, self.5, self.6, self.7, self.8, self.9, self.10, self.11, self.12, self.13, self.14, self.15, self.16, self.17, self.18, self.19, self.20, self.21, self.22, self.23, self.24, self.25, self.26, self.27, self.28, self.29, self.30)
    }

    fn append(self, value: T) -> (r: (T1, T2, T3, T4, T5, T6, T7, T8, T9, T10, T11, T12, T13, T14, T15, T16, T17, T18, T19, T20, T21, T22, T23, T24, T25, T26, T27, T28, T29, T30, T31, T)) {
        (self.0, self.1, self.2, self.3, self.4, self.5, self.6, self.7, self.8, self.9, self.10, self.11, self.12, self.13, self.14, self.15, self.16, self.17, self.18, self.19, self.20, self.21, self.22, self.23, self.24, self.25, self.26, self.27, self.28, self.29, self.30, value)
    }

    fn prepend(self, value: T) -> (r: (T, T1, T2, T3, T4, T5, T6, T7, T8, T9, T10, T11, T12, T13, T14, T15, T16, T17, T18, T19, T20, T21, T22, T23, T24, T25, T26, T27, T28, T29, T30, T31)) {
        (value, self.0, self.1, self.2, self.3, self.4, self.5, self.6, self.7, self.8, self.9, self.10, self.11, self.12, self.13, self.14, self.15, self.16, self.17, self.18, self.19, self.20, self.21, self.22, self.23, self.24, self.25, self.26, self.27, self.28, self.29, self.30)
    }

    proof fn lemma_grow_arity(self, value: T) {
    }
}

impl<T1, T2, T3, T4, T5, T6, T7, T8, T9, T10, T11, T12, T13, T14, T15, T16, T17, T18, T19, T20, T21, T22, T23, T24, T25, T26, T27, T28, T29, T30, T31> NonEmptyTuple for (T1, T2, T3, T4, T5, T6, T7, T8, T9, T10, T11, T12, T13, T14, T15, T16, T17, T18, T19, T20, T21, T22, T23, T24, T25, T26, T27, T28, T29, T30, T31) {
    type Head = T1;

    type Tail = T31;

    type TruncateHead = (T2, T3, T4, T5, T6, T7, T8, T9, T10, T11, T12, T13, T14, T15, T16, T17, T18, T19, T20, T21, T22, T23, T24, T25, T26, T27, T28, T29, T30, T31);

    type TruncateTail = (T1, T2, T3, T4, T5, T6, T7, T8, T9, T10, T11, T12, T13, T14, T15, T16, T17, T18, T19, T20, T21, T22, T23, T24, T25, T26, T27, T28, T29, T30);

    open spec fn spec_head(&self) -> T1 {
        self.0
    }

    open spec fn spec_tail(&self) -> T31 {
        self.30
    }

    open spec fn spec_with_head(self, value: T1) -> (T1, T2, T3, T4, T5, T6, T7, T8, T9, T10, T11, T12, T13, T14, T15, T16, T17, T18, T19, T20, T21, T22, T23, T24, T25, T26, T27, T28, T29, T30, T31) {
        (value, self.1, self.2, self.3, self.4, self.5, self.6, self.7, self.8, self.9, self.10, self.11, self.12, self.13, self.14, self.15, self.16, self.17, self.18, self.19, self.20, self.21, self.22, self.23, self.24, self.25, self.26, self.27, self.28, self.29, self.30)
    }

    open spec fn spec_with_tail(self, value: T31) -> (T1, T2, T3, T4, T5, T6, T7, T8, T9, T10, T11, T12, T13, T14, T15, T16, T17, T18, T19, T20, T21, T22, T23, T24, T25, T26, T27, T28, T29, T30, T31) {
        (self.0, self.1, self.2, self.3, self.4, self.5, self.6, self.7, self.8, self.9, self.10, self.11, self.12, self.13, self.14, self.15, self.16, self.17, self.18, self.19, self.20, self.21, self.22, self.23, self.24, self.25, self.26, self.27, self.28, self.29, value)
    }

    open spec fn spec_truncate_head(self) -> (T1, (T2, T3, T4, T5, T6, T7, T8, T9, T10, T11, T12, T13, T14, T15, T16, T17, T18, T19, T20, T21, T22, T23, T24, T25, T26, T27, T28, T29, T30, T31)) {
        (self.0, (self.1, self.2, self.3, self.4, self.5, self.6, self.7, self.8, self.9, self.10, self.11, self.12, self.13, self.14, self.15, self.16, self.17, self.18, self.19, self.20, self.21, self.22, self.23, self.24, self.25, self.26, self.27, self.28, self.29, self.30))
    }

    open spec fn spec_truncate_tail(self) -> ((T1, T2, T3, T4, T5, T6, T7, T8, T9, T10, T11, T12, T13, T14, T15, T16, T17, T18, T19, T20, T21, T22, T23, T24, T25, T26, T27, T28, T29, T30), T31) {
        ((self.0, self.1, self.2, self.3, self.4, self.5, self.6, self.7, self.8, self.9, self.10, self.11, self.12, self.13, self.14, self.15, self.16, self.17, self.18, self.19, self.20, self.21, self.22, self.23, self.24, self.25, self.26, self.27, self.28, self.29), self.30)
    }

    fn head(&self) -> (r: &T1) {
        &self.0
    }

    fn head_mut(&mut self) -> (r: &mut T1) {
        &mut self.0
    }

    fn tail(&self) -> (r: &T31) {
        &self.30
    }

    fn tail_mut(&mut self) -> (r: &mut T31) {
        &mut self.30
    }

    fn truncate_head(self) -> (r: (T1, (T2, T3, T4, T5, T6, T7, T8, T9, T10, T11, T12, T13, T14, T15, T16, T17, T18, T19, T20, T21, T22, T23, T24, T25, T26, T27, T28, T29, T30, T31))) {
        (self.0, (self.1, self.2, self.3, self.4, self.5, self.6, self.7, self.8, self.9, self.10, self.11, self.12, self.13, self.14, self.15, self.16, self.17, self.18, self.19, self.20, self.21, self.22, self.23, self.24, self.25, self.26, self.27, self.28, self.29, self.30))
    }

    fn truncate_tail(self) -> (r: ((T1, T2, T3, T4, T5, T6, T7, T8, T9, T10, T11, T12, T13, T14, T15, T16, T17, T18, T19, T20, T21, T22, T23, T24, T25, T26, T27, T28, T29, T30), T31)) {
        ((self.0, self.1, self.2, self.3, self.4, self.5, self.6, self.7, self.8, self.9, self.10, self.11, self.12, self.13, self.14, self.15, self.16, self.17, self.18, self.19, self.20, self.21, self.22, self.23, self.24, self.25, self.26, self.27, self.28, self.29), self.30)
    }

    proof fn lemma_truncate_head(self) {
    }

    proof fn lemma_truncate_tail(self) {
    }
}

impl<T1, T2, T3, T4, T5, T6, T7, T8, T9, T10, T11, T12, T13, T14, T15, T16, T17, T18, T19, T20, T21, T22, T23, T24, T25, T26, T27, T28, T29, T30, T31> NonUnaryTuple for (T1, T2, T3, T4, T5, T6, T7, T8, T9, T10, T11, T12, T13, T14, T15, T16, T17, T18, T19, T20, T21, T22, T23, T24, T25, T26, T27, T28, T29, T30, T31) {
    type TruncateHeadTail = (T2, T3, T4, T5, T6, T7, T8, T9, T10, T11, T12, T13, T14, T15, T16, T17, T18, T19, T20, T21, T22, T23, T24, T25, T26, T27, T28, T29, T30);

    open spec fn spec_truncate_head_tail(self) -> (T1, (T2, T3, T4, T5, T6, T7, T8, T9, T10, T11, T12, T13, T14, T15, T16, T17, T18, T19, T20, T21, T22, T23, T24, T25, T26, T27, T28, T29, T30), T31) {
        (self.0, (self.1, self.2, self.3, self.4, self.5, self.6, self.7, self.8, self.9, self.10, self.11, self.12, self.13, self.14, self.15, self.16, self.17, self.18, self.19, self.20, self.21, self.22, self.23, self.24, self.25, self.26, self.27, self.28, self.29), self.30)
    }

    fn head_tail(&self) -> (r: (&T1, &T31)) {
        (&self.0, &self.30)
    }

    fn head_tail_mut(&mut self) -> (r: (&mut T1, &mut T31)) {
        (&mut self.0, &mut self.30)
    }

    fn truncate_head_tail(self) -> (r: (T1, (T2, T3, T4, T5, T6, T7, T8, T9, T10, T11, T12, T13, T14, T15, T16, T17, T18, T19, T20, T21, T22, T23, T24, T25, T26, T27, T28, T29, T30), T31)) {
        (self.0, (self.1, self.2, self.3, self.4, self.5, self.6, self.7, self.8, self.9, self.10, self.11, self.12, self.13, self.14, self.15, self.16, self.17, self.18, self.19, self.20, self.21, self.22, self.23, self.24, self.25, self.26, self.27, self.28, self.29), self.30)
    }

    proof fn lemma_truncate_head_tail(self) {
    }
}

impl<T1, T2, T3, T4, T5, T6, T7, T8, T9, T10, T11, T12, T13, T14, T15, T16, T17, T18, T19, T20, T21, T22, T23, T24, T25, T26, T27, T28, T29, T30, T31> IndexableTuple<0> for (T1, T2, T3, T4, T5, T6, T7, T8, T9, T10, T11, T12, T13, T14, T15, T16, T17, T18, T19, T20, T21, T22, T23, T24, T25, T26, T27, T28, T29, T30, T31) {
    type Value = T1;

    open spec fn spec_index(&self) -> T1 {
        self.0
    }

    open spec fn spec_with_index(self, value: T1) -> (T1, T2, T3, T4, T5, T6, T7, T8, T9, T10, T11, T12, T13, T14, T15, T16, T17, T18, T19, T20, T21, T22, T23, T24, T25, T26, T27, T28, T29, T30, T31) {
        (value, self.1, self.2, self.3, self.4, self.5, self.6, self.7, self.8, self.9, self.10, self.11, self.12, self.13, self.14, self.15, self.16, self.17, self.18, self.19, self.20, self.21, self.22, self.23, self.24, self.25, self.26, self.27, self.28, self.29, self.30)
    }

    fn index_ref(&self) -> (r: &T1) {
        &self.0
    }

    fn index_mut(&mut self) -> (r: &mut T1) {
        &mut self.0
    }

    fn into_index(self) -> (r: T1) {
        self.0
    }

    proof fn lemma_index_in_range(&self) {
    }
}

impl<T1, T2, T3, T4, T5, T6, T7, T8, T9, T10, T11, T12, T13, T14, T15, T16, T17, T18, T19, T20, T21, T22, T23, T24, T25, T26, T27, T28, T29, T30, T31> IndexableTuple<1> for (T1, T2, T3, T4, T5, T6, T7, T8, T9, T10, T11, T12, T13, T14, T15, T16, T17, T18, T19, T20, T21, T22, T23, T24, T25, T26, T27, T28, T29, T30, T31) {
    type Value = T2;

    open spec fn spec_index(&self) -> T2 {
        self.1
    }

    open spec fn spec_with_index(self, value: T2) -> (T1, T2, T3, T4, T5, T6, T7, T8, T9, T10, T11, T12, T13, T14, T15, T16, T17, T18, T19, T20, T21, T22, T23, T24, T25, T26, T27, T28, T29, T30, T31) {
        (self.0, value, self.2, self.3, self.4, self.5, self.6, self.7, self.8, self.9, self.10, self.11, self.12, self.13, self.14, self.15, self.16, self.17, self.18, self.19, self.20, self.21, self.22, self.23, self.24, self.25, self.26, self.27, self.28, self.29, self.30)
    }

    fn index_ref(&self) -> (r: &T2) {
        &self.1
    }

    fn index_mut(&mut self) -> (r: &mut T2) {
        &mut self.1
    }

    fn into_index(self) -> (r: T2) {
        self.1
    }

    proof fn lemma_index_in_range(&self) {
    }
}

impl<T1, T2, T3, T4, T5, T6, T7, T8, T9, T10, T11, T12, T13, T14, T15, T16, T17, T18, T19, T20, T21, T22, T23, T24, T25, T26, T27, T28, T29, T30, T31> IndexableTuple<2> for (T1, T2, T3, T4, T5, T6, T7, T8, T9, T10, T11, T12, T13, T14, T15, T16, T17, T18, T19, T20, T21, T22, T23, T24, T25, T26, T27, T28, T29, T30, T31) {
    type Value = T3;

    open spec fn spec_index(&self) -> T3 {
        self.2
    }

    open spec fn spec_with_index(self, value: T3) -> (T1, T2, T3, T4, T5, T6, T7, T8, T9, T10, T11, T12, T13, T14, T15, T16, T17, T18, T19, T20, T21, T22, T23, T24, T25, T26, T27, T28, T29, T30, T31) {
        (self.0, self.1, value, self.3, self.4, self.5, self.6, self.7, self.8, self.9, self.10, self.11, self.12, self.13, self.14, self.15, self.16, self.17, self.18, self.19, self.20, self.21, self.22, self.23, self.24, self.25, self.26, self.27, self.28, self.29, self.30)
    }

    fn index_ref(&self) -> (r: &T3) {
        &self.2
    }

    fn index_mut(&mut self) -> (r: &mut T3) {
        &mut self.2
    }

    fn into_index(self) -> (r: T3) {
        self.2
    }

    proof fn lemma_index_in_range(&self) {
    }
}

impl<T1, T2, T3, T4, T5, T6, T7, T8, T9, T10, T11, T12, T13, T14, T15, T16, T17, T18, T19, T20, T21, T22, T23, T24, T25, T26, T27, T28, T29, T30, T31> IndexableTuple<3> for (T1, T2, T3, T4, T5, T6, T7, T8, T9, T10, T11, T12, T13, T14, T15, T16, T17, T18, T19, T20, T21, T22, T23, T24, T25, T26, T27, T28, T29, T30, T31) {
    type Value = T4;

    open spec fn spec_index(&self) -> T4 {
        self.3
    }

    open spec fn spec_with_index(self, value: T4) -> (T1, T2, T3, T4, T5, T6, T7, T8, T9, T10, T11, T12, T13, T14, T15, T16, T17, T18, T19, T20, T21, T22, T23, T24, T25, T26, T27, T28, T29, T30, T31) {
        (self.0, self.1, self.2, value, self.4, self.5, self.6, self.7, self.8, self.9, self.10, self.11, self.12, self.13, self.14, self.15, self.16, self.17, self.18, self.19, self.20, self.21, self.22, self.23, self.24, self.25, self.26, self.27, self.28, self.29, self.30)
    }

    fn index_ref(&self) -> (r: &T4) {
        &self.3
    }

    fn index_mut(&mut self) -> (r: &mut T4) {
        &mut self.3
    }

    fn into_index(self) -> (r: T4) {
        self.3
    }

    proof fn lemma_index_in_range(&self) {
    }
}

impl<T1, T2, T3, T4, T5, T6, T7, T8, T9, T10, T11, T12, T13, T14, T15, T16, T17, T18, T19, T20, T21, T22, T23, T24, T25, T26, T27, T28, T29, T30, T31> IndexableTuple<4> for (T1, T2, T3, T4, T5, T6, T7, T8, T9, T10, T11, T12, T13, T14, T15, T16, T17, T18, T19, T20, T21, T22, T23, T24, T25, T26, T27, T28, T29, T30, T31) {
    type Value = T5;

    open spec fn spec_index(&self) -> T5 {
        self.4
    }

    open spec fn spec_with_index(self, value: T5) -> (T1, T2, T3, T4, T5, T6, T7, T8, T9, T10, T11, T12, T13, T14, T15, T16, T17, T18, T19, T20, T21, T22, T23, T24, T25, T26, T27, T28, T29, T30, T31) {
        (self.0, self.1, self.2, self.3, value, self.5, self.6, self.7, self.8, self.9, self.10, self.11, self.12, self.13, self.14, self.15, self.16, self.17, self.18, self.19, self.20, self.21, self.22, self.23, self.24, self.25, self.26, self.27, self.28, self.29, self.30)
    }

    fn index_ref(&self) -> (r: &T5) {
        &self.4
    }

    fn index_mut(&mut self) -> (r: &mut T5) {
        &mut self.4
    }

    fn into_index(self) -> (r: T5) {
        self.4
    }

    proof fn lemma_index_in_range(&self) {
    }
}

impl<T1, T2, T3, T4, T5, T6, T7, T8, T9, T10, T11, T12, T13, T14, T15, T16, T17, T18, T19, T20, T21, T22, T23, T24, T25, T26, T27, T28, T29, T30, T31> IndexableTuple<5> for (T1, T2, T3, T4, T5, T6, T7, T8, T9, T10, T11, T12, T13, T14, T15, T16, T17, T18, T19, T20, T21, T22, T23, T24, T25, T26, T27, T28, T29, T30, T31) {
    type Value = T6;

    open spec fn spec_index(&self) -> T6 {
        self.5
    }

    open spec fn spec_with_index(self, value: T6) -> (T1, T2, T3, T4, T5, T6, T7, T8, T9, T10, T11, T12, T13, T14, T15, T16, T17, T18, T19, T20, T21, T22, T23, T24, T25, T26, T27, T28, T29, T30, T31) {
        (self.0, self.1, self.2, self.3, self.4, value, self.6, self.7, self.8, self.9, self.10, self.11, self.12, self.13, self.14, self.15, self.16, self.17, self.18, self.19, self.20, self.21, self.22, self.23, self.24, self.25, self.26, self.27, self.28, self.29, self.30)
    }

    fn index_ref(&self) -> (r: &T6) {
        &self.5
    }

    fn index_mut(&mut self) -> (r: &mut T6) {
        &mut self.5
    }

    fn into_index(self) -> (r: T6) {
        self.5
    }

    proof fn lemma_index_in_range(&self) {
    }
}

impl<T1, T2, T3, T4, T5, T6, T7, T8, T9, T10, T11, T12, T13, T14, T15, T16, T17, T18, T19, T20, T21, T22, T23, T24, T25, T26, T27, T28, T29, T30, T31> IndexableTuple<6> for (T1, T2, T3, T4, T5, T6, T7, T8, T9, T10, T11, T12, T13, T14, T15, T16, T17, T18, T19, T20, T21, T22, T23, T24, T25, T26, T27, T28, T29, T30, T31) {
    type Value = T7;

    open spec fn spec_index(&self) -> T7 {
        self.6
    }

    open spec fn spec_with_index(self, value: T7) -> (T1, T2, T3, T4, T5, T6, T7, T8, T9, T10, T11, T12, T13, T14, T15, T16, T17, T18, T19, T20, T21, T22, T23, T24, T25, T26, T27, T28, T29, T30, T31) {
        (self.0, self.1, self.2, self.3, self.4, self.5, value, self.7, self.8, self.9, self.10, self.11, self.12, self.13, self.14, self.15, self.16, self.17, self.18, self.19, self.20, self.21, self.22, self.23, self.24, self.25, self.26, self.27, self.28, self.29, self.30)
    }

    fn index_ref(&self) -> (r: &T7) {
        &self.6
    }

    fn index_mut(&mut self) -> (r: &mut T7) {
        &mut self.6
    }

    fn into_index(self) -> (r: T7) {
        self.6
    }

    proof fn lemma_index_in_range(&self) {
    }
}

impl<T1, T2, T3, T4, T5, T6, T7, T8, T9, T10, T11, T12, T13, T14, T15, T16, T17, T18, T19, T20, T21, T22, T23, T24, T25, T26, T27, T28, T29, T30, T31> IndexableTuple<7> for (T1, T2, T3, T4, T5, T6, T7, T8, T9, T10, T11, T12, T13, T14, T15, T16, T17, T18, T19, T20, T21, T22, T23, T24, T25, T26, T27, T28, T29, T30, T31) {
    type Value = T8;

    open spec fn spec_index(&self) -> T8 {
        self.7
    }

    open spec fn spec_with_index(self, value: T8) -> (T1, T2, T3, T4, T5, T6, T7, T8, T9, T10, T11, T12, T13, T14, T15, T16, T17, T18, T19, T20, T21, T22, T23, T24, T25, T26, T27, T28, T29, T30, T31) {
        (self.0, self.1, self.2, self.3, self.4, self.5, self.6, value, self.8, self.9, self.10, self.11, self.12, self.13, self.14, self.15, self.16, self.17, self.18, self.19, self.20, self.21, self.22, self.23, self.24, self.25, self.26, self.27, self.28, self.29, self.30)
    }

    fn index_ref(&self) -> (r: &T8) {
        &self.7
    }

    fn index_mut(&mut self) -> (r: &mut T8) {
        &mut self.7
    }

    fn into_index(self) -> (r: T8) {
        self.7
    }

    proof fn lemma_index_in_range(&self) {
    }
}

impl<T1, T2, T3, T4, T5, T6, T7, T8, T9, T10, T11, T12, T13, T14, T15, T16, T17, T18, T19, T20, T21, T22, T23, T24, T25, T26, T27, T28, T29, T30, T31> IndexableTuple<8> for (T1, T2, T3, T4, T5, T6, T7, T8, T9, T10, T11, T12, T13, T14, T15, T16, T17, T18, T19, T20, T21, T22, T23, T24, T25, T26, T27, T28, T29, T30, T31) {
    type Value = T9;

    open spec fn spec_index(&self) -> T9 {
        self.8
    }

    open spec fn spec_with_index(self, value: T9) -> (T1, T2, T3, T4, T5, T6, T7, T8, T9, T10, T11, T12, T13, T14, T15, T16, T17, T18, T19, T20, T21, T22, T23, T24, T25, T26, T27, T28, T29, T30, T31) {
        (self.0, self.1, self.2, self.3, self.4, self.5, self.6, self.7, value, self.9, self.10, self.11, self.12, self.13, self.14, self.15, self.16, self.17, self.18, self.19, self.20, self.21, self.22, self.23, self.24, self.25, self.26, self.27, self.28, self.29, self.30)
    }

    fn index_ref(&self) -> (r: &T9) {
        &self.8
    }

    fn index_mut(&mut self) -> (r: &mut T9) {
        &mut self.8
    }

    fn into_index(self) -> (r: T9) {
        self.8
    }

    proof fn lemma_index_in_range(&self) {
    }
}

impl<T1, T2, T3, T4, T5, T6, T7, T8, T9, T10, T11, T12, T13, T14, T15, T16, T17, T18, T19, T20, T21, T22, T23, T24, T25, T26, T27, T28, T29, T30, T31> IndexableTuple<9> for (T1, T2, T3, T4, T5, T6, T7, T8, T9, T10, T11, T12, T13, T14, T15, T16, T17, T18, T19, T20, T21, T22, T23, T24, T25, T26, T27, T28, T29, T30, T31) {
    type Value = T10;

    open spec fn spec_index(&self) -> T10 {
        self.9
    }

    open spec fn spec_with_index(self, value: T10) -> (T1, T2, T3, T4, T5, T6, T7, T8, T9, T10, T11, T12, T13, T14, T15, T16, T17, T18, T19, T20, T21, T22, T23, T24, T25, T26, T27, T28, T29, T30, T31) {
        (self.0, self.1, self.2, self.3, self.4, self.5, self.6, self.7, self.8, value, self.10, self.11, self.12, self.13, self.14, self.15, self.16, self.17, self.18, self.19, self.20, self.21, self.22, self.23, self.24, self.25, self.26, self.27, self.28, self.29, self.30)
    }

    fn index_ref(&self) -> (r: &T10) {
        &self.9
    }

    fn index_mut(&mut self) -> (r: &mut T10) {
        &mut self.9
    }

    fn into_index(self) -> (r: T10) {
        self.9
    }

    proof fn lemma_index_in_range(&self) {
    }
}

impl<T1, T2, T3, T4, T5, T6, T7, T8, T9, T10, T11, T12, T13, T14, T15, T16, T17, T18, T19, T20, T21, T22, T23, T24, T25, T26, T27, T28, T29, T30, T31> IndexableTuple<10> for (T1, T2, T3, T4, T5, T6, T7, T8, T9, T10, T11, T12, T13, T14, T15, T16, T17, T18, T19, T20, T21, T22, T23, T24, T25, T26, T27, T28, T29, T30, T31) {
    type Value = T11;

    open spec fn spec_index(&self) -> T11 {
        self.10
    }

    open spec fn spec_with_index(self, value: T11) -> (T1, T2, T3, T4, T5, T6, T7, T8, T9, T10, T11, T12, T13, T14, T15, T16, T17, T18, T19, T20, T21, T22, T23, T24, T25, T26, T27, T28, T29, T30, T31) {
        (self.0, self.1, self.2, self.3, self.4, self.5, self.6, self.7, self.8, self.9, value, self.11, self.12, self.13, self.14, self.15, self.16, self.17, self.18, self.19, self.20, self.21, self.22, self.23, self.24, self.25, self.26, self.27, self.28, self.29, self.30)
    }

    fn index_ref(&self) -> (r: &T11) {
        &self.10
    }

    fn index_mut(&mut self) -> (r: &mut T11) {
        &mut self.10
    }

    fn into_index(self) -> (r: T11) {
        self.10
    }

    proof fn lemma_index_in_range(&self) {
    }
}

impl<T1, T2, T3, T4, T5, T6, T7, T8, T9, T10, T11, T12, T13, T14, T15, T16, T17, T18, T19, T20, T21, T22, T23, T24, T25, T26, T27, T28, T29, T30, T31> IndexableTuple<11> for (T1, T2, T3, T4, T5, T6, T7, T8, T9, T10, T11, T12, T13, T14, T15, T16, T17, T18, T19, T20, T21, T22, T23, T24, T25, T26, T27, T28, T29, T30, T31) {
    type Value = T12;

    open spec fn spec_index(&self) -> T12 {
        self.11
    }

    open spec fn spec_with_index(self, value: T12) -> (T1, T2, T3, T4, T5, T6, T7, T8, T9, T10, T11, T12, T13, T14, T15, T16, T17, T18, T19, T20, T21, T22, T23, T24, T25, T26, T27, T28, T29, T30, T31) {
        (self.0, self.1, self.2, self.3, self.4, self.5, self.6, self.7, self.8, self.9, self.10, value, self.12, self.13, self.14, self.15, self.16, self.17, self.18, self.19, self.20, self.21, self.22, self.23, self.24, self.25, self.26, self.27, self.28, self.29, self.30)
    }

    fn index_ref(&self) -> (r: &T12) {
        &self.11
    }

    fn index_mut(&mut self) -> (r: &mut T12) {
        &mut self.11
    }

    fn into_index(self) -> (r: T12) {
        self.11
    }

    proof fn lemma_index_in_range(&self) {
    }
}

impl<T1, T2, T3, T4, T5, T6, T7, T8, T9, T10, T11, T12, T13, T14, T15, T16, T17, T18, T19, T20, T21, T22, T23, T24, T25, T26, T27, T28, T29, T30, T31> IndexableTuple<12> for (T1, T2, T3, T4, T5, T6, T7, T8, T9, T10, T11, T12, T13, T14, T15, T16, T17, T18, T19, T20, T21, T22, T23, T24, T25, T26, T27, T28, T29, T30, T31) {
    type Value = T13;

    open spec fn spec_index(&self) -> T13 {
        self.12
    }

    open spec fn spec_with_index(self, value: T13) -> (T1, T2, T3, T4, T5, T6, T7, T8, T9, T10, T11, T12, T13, T14, T15, T16, T17, T18, T19, T20, T21, T22, T23, T24, T25, T26, T27, T28, T29, T30, T31) {
        (self.0, self.1, self.2, self.3, self.4, self.5, self.6, self.7, self.8, self.9, self.10, self.11, value, self.13, self.14, self.15, self.16, self.17, self.18, self.19, self.20, self.21, self.22, self.23, self.24, self.25, self.26, self.27, self.28, self.29, self.30)
    }

    fn index_ref(&self) -> (r: &T13) {
        &self.12
    }

    fn index_mut(&mut self) -> (r: &mut T13) {
        &mut self.12
    }

    fn into_index(self) -> (r: T13) {
        self.12
    }

    proof fn lemma_index_in_range(&self) {
    }
}

impl<T1, T2, T3, T4, T5, T6, T7, T8, T9, T10, T11, T12, T13, T14, T15, T16, T17, T18, T19, T20, T21, T22, T23, T24, T25, T26, T27, T28, T29, T30, T31> IndexableTuple<13> for (T1, T2, T3, T4, T5, T6, T7, T8, T9, T10, T11, T12, T13, T14, T15, T16, T17, T18, T19, T20, T21, T22, T23, T24, T25, T26, T27, T28, T29, T30, T31) {
    type Value = T14;

    open spec fn spec_index(&self) -> T14 {
        self.13
    }

    open spec fn spec_with_index(self, value: T14) -> (T1, T2, T3, T4, T5, T6, T7, T8, T9, T10, T11, T12, T13, T14, T15, T16, T17, T18, T19, T20, T21, T22, T23, T24, T25, T26, T27, T28, T29, T30, T31) {
        (self.0, self.1, self.2, self.3, self.4, self.5, self.6, self.7, self.8, self.9, self.10, self.11, self.12, value, self.14, self.15, self.16, self.17, self.18, self.19, self.20, self.21, self.22, self.23, self.24, self.25, self.26, self.27, self.28, self.29, self.30)
    }

    fn index_ref(&self) -> (r: &T14) {
        &self.13
    }

    fn index_mut(&mut self) -> (r: &mut T14) {
        &mut self.13
    }

    fn into_index(self) -> (r: T14) {
        self.13
    }

    proof fn lemma_index_in_range(&self) {
    }
}

impl<T1, T2, T3, T4, T5, T6, T7, T8, T9, T10, T11, T12, T13, T14, T15, T16, T17, T18, T19, T20, T21, T22, T23, T24, T25, T26, T27, T28, T29, T30, T31> IndexableTuple<14> for (T1, T2, T3, T4, T5, T6, T7, T8, T9, T10, T11, T12, T13, T14, T15, T16, T17, T18, T19, T20, T21, T22, T23, T24, T25, T26, T27, T28, T29, T30, T31) {
    type Value = T15;

    open spec fn spec_index(&self) -> T15 {
        self.14
    }

    open spec fn spec_with_index(self, value: T15) -> (T1, T2, T3, T4, T5, T6, T7, T8, T9, T10, T11, T12, T13, T14, T15, T16, T17, T18, T19, T20, T21, T22, T23, T24, T25, T26, T27, T28, T29, T30, T31) {
        (self.0, self.1, self.2, self.3, self.4, self.5, self.6, self.7, self.8, self.9, self.10, self.11, self.12, self.13, value, self.15, self.16, self.17, self.18, self.19, self.20, self.21, self.22, self.23, self.24, self.25, self.26, self.27, self.28, self.29, self.30)
    }

    fn index_ref(&self) -> (r: &T15) {
        &self.14
    }

    fn index_mut(&mut self) -> (r: &mut T15) {
        &mut self.14
    }

    fn into_index(self) -> (r: T15) {
        self.14
    }

    proof fn lemma_index_in_range(&self) {
    }
}

impl<T1, T2, T3, T4, T5, T6, T7, T8, T9, T10, T11, T12, T13, T14, T15, T16, T17, T18, T19, T20, T21, T22, T23, T24, T25, T26, T27, T28, T29, T30, T31> IndexableTuple<15> for (T1, T2, T3, T4, T5, T6, T7, T8, T9, T10, T11, T12, T13, T14, T15, T16, T17, T18, T19, T20, T21, T22, T23, T24, T25, T26, T27, T28, T29, T30, T31) {
    type Value = T16;

    open spec fn spec_index(&self) -> T16 {
        self.15
    }

    open spec fn spec_with_index(self, value: T16) -> (T1, T2, T3, T4, T5, T6, T7, T8, T9, T10, T11, T12, T13, T14, T15, T16, T17, T18, T19, T20, T21, T22, T23, T24, T25, T26, T27, T28, T29, T30, T31) {
        (self.0, self.1, self.2, self.3, self.4, self.5, self.6, self.7, self.8, self.9, self.10, self.11, self.12, self.13, self.14, value, self.16, self.17, self.18, self.19, self.20, self.21, self.22, self.23, self.24, self.25, self.26, self.27, self.28, self.29, self.30)
    }

    fn index_ref(&self) -> (r: &T16) {
        &self.15
    }

    fn index_mut(&mut self) -> (r: &mut T16) {
        &mut self.15
    }

    fn into_index(self) -> (r: T16) {
        self.15
    }

    proof fn lemma_index_in_range(&self) {
    }
}

impl<T1, T2, T3, T4, T5, T6, T7, T8, T9, T10, T11, T12, T13, T14, T15, T16, T17, T18, T19, T20, T21, T22, T23, T24, T25, T26, T27, T28, T29, T30, T31> IndexableTuple<16> for (T1, T2, T3, T4, T5, T6, T7, T8, T9, T10, T11, T12, T13, T14, T15, T16, T17, T18, T19, T20, T21, T22, T23, T24, T25, T26, T27, T28, T29, T30, T31) {
    type Value = T17;

    open spec fn spec_index(&self) -> T17 {
        self.16
    }

    open spec fn spec_with_index(self, value: T17) -> (T1, T2, T3, T4, T5, T6, T7, T8, T9, T10, T11, T12, T13, T14, T15, T16, T17, T18, T19, T20, T21, T22, T23, T24, T25, T26, T27, T28, T29, T30, T31) {
        (self.0, self.1, self.2, self.3, self.4, self.5, self.6, self.7, self.8, self.9, self.10, self.11, self.12, self.13, self.14, self.15, value, self.17, self.18, self.19, self.20, self.21, self.22, self.23, self.24, self.25, self.26, self.27, self.28, self.29, self.30)
    }

    fn index_ref(&self) -> (r: &T17) {
        &self.16
    }

    fn index_mut(&mut self) -> (r: &mut T17) {
        &mut self.16
    }

    fn into_index(self) -> (r: T17) {
        self.16
    }

    proof fn lemma_index_in_range(&self) {
    }
}

impl<T1, T2, T3, T4, T5, T6, T7, T8, T9, T10, T11, T12, T13, T14, T15, T16, T17, T18, T19, T20, T21, T22, T23, T24, T25, T26, T27, T28, T29, T30, T31> IndexableTuple<17> for (T1, T2, T3, T4, T5, T6, T7, T8, T9, T10, T11, T12, T13, T14, T15, T16, T17, T18, T19, T20, T21, T22, T23, T24, T25, T26, T27, T28, T29, T30, T31) {
    type Value = T18;

    open spec fn spec_index(&self) -> T18 {
        self.17
    }

    open spec fn spec_with_index(self, value: T18) -> (T1, T2, T3, T4, T5, T6, T7, T8, T9, T10, T11, T12, T13, T14, T15, T16, T17, T18, T19, T20, T21, T22, T23, T24, T25, T26, T27, T28, T29, T30, T31) {
        (self.0, self.1, self.2, self.3, self.4, self.5, self.6, self.7, self.8, self.9, self.10, self.11, self.12, self.13, self.14, self.15, self.16, value, self.18, self.19, self.20, self.21, self.22, self.23, self.24, self.25, self.26, self.27, self.28, self.29, self.30)
    }

    fn index_ref(&self) -> (r: &T18) {
        &self.17
    }

    fn index_mut(&mut self) -> (r: &mut T18) {
        &mut self.17
    }

    fn into_index(self) -> (r: T18) {
        self.17
    }

    proof fn lemma_index_in_range(&self) {
    }
}

impl<T1, T2, T3, T4, T5, T6, T7, T8, T9, T10, T11, T12, T13, T14, T15, T16, T17, T18, T19, T20, T21, T22, T23, T24, T25, T26, T27, T28, T29, T30, T31> IndexableTuple<18> for (T1, T2, T3, T4, T5, T6, T7, T8, T9, T10, T11, T12, T13, T14, T15, T16, T17, T18, T19, T20, T21, T22, T23, T24, T25, T26, T27, T28, T29, T30, T31) {
    type Value = T19;

    open spec fn spec_index(&self) -> T19 {
        self.18
    }

    open spec fn spec_with_index(self, value: T19) -> (T1, T2, T3, T4, T5, T6, T7, T8, T9, T10, T11, T12, T13, T14, T15, T16, T17, T18, T19, T20, T21, T22, T23, T24, T25, T26, T27, T28, T29, T30, T31) {
        (self.0, self.1, self.2, self.3, self.4, self.5, self.6, self.7, self.8, self.9, self.10, self.11, self.12, self.13, self.14, self.15, self.16, self.17, value, self.19, self.20, self.21, self.22, self.23, self.24, self.25, self.26, self.27, self.28, self.29, self.30)
    }

    fn index_ref(&self) -> (r: &T19) {
        &self.18
    }

    fn index_mut(&mut self) -> (r: &mut T19) {
        &mut self.18
    }

    fn into_index(self) -> (r: T19) {
        self.18
    }

    proof fn lemma_index_in_range(&self) {
    }
}

impl<T1, T2, T3, T4, T5, T6, T7, T8, T9, T10, T11, T12, T13, T14, T15, T16, T17, T18, T19, T20, T21, T22, T23, T24, T25, T26, T27, T28, T29, T30, T31> IndexableTuple<19> for (T1, T2, T3, T4, T5, T6, T7, T8, T9, T10, T11, T12, T13, T14, T15, T16, T17, T18, T19, T20, T21, T22, T23, T24, T25, T26, T27, T28, T29, T30, T31) {
    type Value = T20;

    open spec fn spec_index(&self) -> T20 {
        self.19
    }

    open spec fn spec_with_index(self, value: T20) -> (T1, T2, T3, T4, T5, T6, T7, T8, T9, T10, T11, T12, T13, T14, T15, T16, T17, T18, T19, T20, T21, T22, T23, T24, T25, T26, T27, T28, T29, T30, T31) {
        (self.0, self.1, self.2, self.3, self.4, self.5, self.6, self.7, self.8, self.9, self.10, self.11, self.12, self.13, self.14, self.15, self.16, self.17, self.18, value, self.20, self.21, self.22, self.23, self.24, self.25, self.26, self.27, self.28, self.29, self.30)
    }

    fn index_ref(&self) -> (r: &T20) {
        &self.19
    }

    fn index_mut(&mut self) -> (r: &mut T20) {
        &mut self.19
    }

    fn into_index(self) -> (r: T20) {
        self.19
    }

    proof fn lemma_index_in_range(&self) {
    }
}

impl<T1, T2, T3, T4, T5, T6, T7, T8, T9, T10, T11, T12, T13, T14, T15, T16, T17, T18, T19, T20, T21, T22, T23, T24, T25, T26, T27, T28, T29, T30, T31> IndexableTuple<20> for (T1, T2, T3, T4, T5, T6, T7, T8, T9, T10, T11, T12, T13, T14, T15, T16, T17, T18, T19, T20, T21, T22, T23, T24, T25, T26, T27, T28, T29, T30, T31) {
    type Value = T21;

    open spec fn spec_index(&self) -> T21 {
        self.20
    }

    open spec fn spec_with_index(self, value: T21) -> (T1, T2, T3, T4, T5, T6, T7, T8, T9, T10, T11, T12, T13, T14, T15, T16, T17, T18, T19, T20, T21, T22, T23, T24, T25, T26, T27, T28, T29, T30, T31) {
        (self.0, self.1, self.2, self.3, self.4, self.5, self.6, self.7, self.8, self.9, self.10, self.11, self.12, self.13, self.14, self.15, self.16, self.17, self.18, self.19, value, self.21, self.22, self.23, self.24, self.25, self.26, self.27, self.28, self.29, self.30)
    }

    fn index_ref(&self) -> (r: &T21) {
        &self.20
    }

    fn index_mut(&mut self) -> (r: &mut T21) {
        &mut self.20
    }

    fn into_index(self) -> (r: T21) {
        self.20
    }

    proof fn lemma_index_in_range(&self) {
    }
}

impl<T1, T2, T3, T4, T5, T6, T7, T8, T9, T10, T11, T12, T13, T14, T15, T16, T17, T18, T19, T20, T21, T22, T23, T24, T25, T26, T27, T28, T29, T30, T31> IndexableTuple<21> for (T1, T2, T3, T4, T5, T6, T7, T8, T9, T10, T11, T12, T13, T14, T15, T16, T17, T18, T19, T20, T21, T22, T23, T24, T25, T26, T27, T28, T29, T30, T31) {
    type Value = T22;

    open spec fn spec_index(&self) -> T22 {
        self.21
    }

    open spec fn spec_with_index(self, value: T22) -> (T1, T2, T3, T4, T5, T6, T7, T8, T9, T10, T11, T12, T13, T14, T15, T16, T17, T18, T19, T20, T21, T22, T23, T24, T25, T26, T27, T28, T29, T30, T31) {
        (self.0, self.1, self.2, self.3, self.4, self.5, self.6, self.7, self.8, self.9, self.10, self.11, self.12, self.13, self.14, self.15, self.16, self.17, self.18, self.19, self.20, value, self.22, self.23, self.24, self.25, self.26, self.27, self.28, self.29, self.30)
    }

    fn index_ref(&self) -> (r: &T22) {
        &self.21
    }

    fn index_mut(&mut self) -> (r: &mut T22) {
        &mut self.21
    }

    fn into_index(self) -> (r: T22) {
        self.21
    }

    proof fn lemma_index_in_range(&self) {
    }
}

impl<T1, T2, T3, T4, T5, T6, T7, T8, T9, T10, T11, T12, T13, T14, T15, T16, T17, T18, T19, T20, T21, T22, T23, T24, T25, T26, T27, T28, T29, T30, T31> IndexableTuple<22> for (T1, T2, T3, T4, T5, T6, T7, T8, T9, T10, T11, T12, T13, T14, T15, T16, T17, T18, T19, T20, T21, T22, T23, T24, T25, T26, T27, T28, T29, T30, T31) {
    type Value = T23;

    open spec fn spec_index(&self) -> T23 {
        self.22
    }

    open spec fn spec_with_index(self, value: T23) -> (T1, T2, T3, T4, T5, T6, T7, T8, T9, T10, T11, T12, T13, T14, T15, T16, T17, T18, T19, T20, T21, T22, T23, T24, T25, T26, T27, T28, T29, T30, T31) {
        (self.0, self.1, self.2, self.3, self.4, self.5, self.6, self.7, self.8, self.9, self.10, self.11, self.12, self.13, self.14, self.15, self.16, self.17, self.18, self.19, self.20, self.21, value, self.23, self.24, self.25, self.26, self.27, self.28, self.29, self.30)
    }

    fn index_ref(&self) -> (r: &T23) {
        &self.22
    }

    fn index_mut(&mut self) -> (r: &mut T23) {
        &mut self.22
    }

    fn into_index(self) -> (r: T23) {
        self.22
    }

    proof fn lemma_index_in_range(&self) {
    }
}

impl<T1, T2, T3, T4, T5, T6, T7, T8, T9, T10, T11, T12, T13, T14, T15, T16, T17, T18, T19, T20, T21, T22, T23, T24, T25, T26, T27, T28, T29, T30, T31> IndexableTuple<23> for (T1, T2, T3, T4, T5, T6, T7, T8, T9, T10, T11, T12, T13, T14, T15, T16, T17, T18, T19, T20, T21, T22, T23, T24, T25, T26, T27, T28, T29, T30, T31) {
    type Value = T24;

    open spec fn spec_index(&self) -> T24 {
        self.23
    }

    open spec fn spec_with_index(self, value: T24) -> (T1, T2, T3, T4, T5, T6, T7, T8, T9, T10, T11, T12, T13, T14, T15, T16, T17, T18, T19, T20, T21, T22, T23, T24, T25, T26, T27, T28, T29, T30, T31) {
        (self.0, self.1, self.2, self.3, self.4, self.5, self.6, self.7, self.8, self.9, self.10, self.11, self.12, self.13, self.14, self.15, self.16, self.17, self.18, self.19, self.20, self.21, self.22, value, self.24, self.25, self.26, self.27, self.28, self.29, self.30)
    }

    fn index_ref(&self) -> (r: &T24) {
        &self.23
    }

    fn index_mut(&mut self) -> (r: &mut T24) {
        &mut self.23
    }

    fn into_index(self) -> (r: T24) {
        self.23
    }

    proof fn lemma_index_in_range(&self) {
    }
}

impl<T1, T2, T3, T4, T5, T6, T7, T8, T9, T10, T11, T12, T13, T14, T15, T16, T17, T18, T19, T20, T21, T22, T23, T24, T25, T26, T27, T28, T29, T30, T31> IndexableTuple<24> for (T1, T2, T3, T4, T5, T6, T7, T8, T9, T10, T11, T12, T13, T14, T15, T16, T17, T18, T19, T20, T21, T22, T23, T24, T25, T26, T27, T28, T29, T30, T31) {
    type Value = T25;

    open spec fn spec_index(&self) -> T25 {
        self.24
    }

    open spec fn spec_with_index(self, value: T25) -> (T1, T2, T3, T4, T5, T6, T7, T8, T9, T10, T11, T12, T13, T14, T15, T16, T17, T18, T19, T20, T21, T22, T23, T24, T25, T26, T27, T28, T29, T30, T31) {
        (self.0, self.1, self.2, self.3, self.4, self.5, self.6, self.7, self.8, self.9, self.10, self.11, self.12, self.13, self.14, self.15, self.16, self.17, self.18, self.19, self.20, self.21, self.22, self.23, value, self.25, self.26, self.27, self.28, self.29, self.30)
    }

    fn index_ref(&self) -> (r: &T25) {
        &self.24
    }

    fn index_mut(&mut self) -> (r: &mut T25) {
        &mut self.24
    }

    fn into_index(self) -> (r: T25) {
        self.24
    }

    proof fn lemma_index_in_range(&self) {
    }
}

impl<T1, T2, T3, T4, T5, T6, T7, T8, T9, T10, T11, T12, T13, T14, T15, T16, T17, T18, T19, T20, T21, T22, T23, T24, T25, T26, T27, T28, T29, T30, T31> IndexableTuple<25> for (T1, T2, T3, T4, T5, T6, T7, T8, T9, T10, T11, T12, T13, T14, T15, T16, T17, T18, T19, T20, T21, T22, T23, T24, T25, T26, T27, T28, T29, T30, T31) {
    type Value = T26;

    open spec fn spec_index(&self) -> T26 {
        self.25
    }

    open spec fn spec_with_index(self, value: T26) -> (T1, T2, T3, T4, T5, T6, T7, T8, T9, T10, T11, T12, T13, T14, T15, T16, T17, T18, T19, T20, T21, T22, T23, T24, T25, T26, T27, T28, T29, T30, T31) {
        (self.0, self.1, self.2, self.3, self.4, self.5, self.6, self.7, self.8, self.9, self.10, self.11, self.12, self.13, self.14, self.15, self.16, self.17, self.18, self.19, self.20, self.21, self.22, self.23, self.24, value, self.26, self.27, self.28, self.29, self.30)
    }

    fn index_ref(&self) -> (r: &T26) {
        &self.25
    }

    fn index_mut(&mut self) -> (r: &mut T26) {
        &mut self.25
    }

    fn into_index(self) -> (r: T26) {
        self.25
    }

    proof fn lemma_index_in_range(&self) {
    }
}

impl<T1, T2, T3, T4, T5, T6, T7, T8, T9, T10, T11, T12, T13, T14, T15, T16, T17, T18, T19, T20, T21, T22, T23, T24, T25, T26, T27, T28, T29, T30, T31> IndexableTuple<26> for (T1, T2, T3, T4, T5, T6, T7, T8, T9, T10, T11, T12, T13, T14, T15, T16, T17, T18, T19, T20, T21, T22, T23, T24, T25, T26, T27, T28, T29, T30, T31) {
    type Value = T27;

    open spec fn spec_index(&self) -> T27 {
        self.26
    }

    open spec fn spec_with_index(self, value: T27) -> (T1, T2, T3, T4, T5, T6, T7, T8, T9, T10, T11, T12, T13, T14, T15, T16, T17, T18, T19, T20, T21, T22, T23, T24, T25, T26, T27, T28, T29, T30, T31) {
        (self.0, self.1, self.2, self.3, self.4, self.5, self.6, self.7, self.8, self.9, self.10, self.11, self.12, self.13, self.14, self.15, self.16, self.17, self.18, self.19, self.20, self.21, self.22, self.23, self.24, self.25, value, self.27, self.28, self.29, self.30)
    }

    fn index_ref(&self) -> (r: &T27) {
        &self.26
    }

    fn index_mut(&mut self) -> (r: &mut T27) {
        &mut self.26
    }

    fn into_index(self) -> (r: T27) {
        self.26
    }

    proof fn lemma_index_in_range(&self) {
    }
}

impl<T1, T2, T3, T4, T5, T6, T7, T8, T9, T10, T11, T12, T13, T14, T15, T16, T17, T18, T19, T20, T21, T22, T23, T24, T25, T26, T27, T28, T29, T30, T31> IndexableTuple<27> for (T1, T2, T3, T4, T5, T6, T7, T8, T9, T10, T11, T12, T13, T14, T15, T16, T17, T18, T19, T20, T21, T22, T23, T24, T25, T26, T27, T28, T29, T30, T31) {
    type Value = T28;

    open spec fn spec_index(&self) -> T28 {
        self.27
    }

    open spec fn spec_with_index(self, value: T28) -> (T1, T2, T3, T4, T5, T6, T7, T8, T9, T10, T11, T12, T13, T14, T15, T16, T17, T18, T19, T20, T21, T22, T23, T24, T25, T26, T27, T28, T29, T30, T31) {
        (self.0, self.1, self.2, self.3, self.4, self.5, self.6, self.7, self.8, self.9, self.10, self.11, self.12, self.13, self.14, self.15, self.16, self.17, self.18, self.19, self.20, self.21, self.22, self.23, self.24, self.25, self.26, value, self.28, self.29, self.30)
    }

    fn index_ref(&self) -> (r: &T28) {
        &self.27
    }

    fn index_mut(&mut self) -> (r: &mut T28) {
        &mut self.27
    }

    fn into_index(self) -> (r: T28) {
        self.27
    }

    proof fn lemma_index_in_range(&self) {
    }
}

impl<T1, T2, T3, T4, T5, T6, T7, T8, T9, T10, T11, T12, T13, T14, T15, T16, T17, T18, T19, T20, T21, T22, T23, T24, T25, T26, T27, T28, T29, T30, T31> IndexableTuple<28> for (T1, T2, T3, T4, T5, T6, T7, T8, T9, T10, T11, T12, T13, T14, T15, T16, T17, T18, T19, T20, T21, T22, T23, T24, T25, T26, T27, T28, T29, T30, T31) {
    type Value = T29;

    open spec fn spec_index(&self) -> T29 {
        self.28
    }

    open spec fn spec_with_index(self, value: T29) -> (T1, T2, T3, T4, T5, T6, T7, T8, T9, T10, T11, T12, T13, T14, T15, T16, T17, T18, T19, T20, T21, T22, T23, T24, T25, T26, T27, T28, T29, T30, T31) {
        (self.0, self.1, self.2, self.3, self.4, self.5, self.6, self.7, self.8, self.9, self.10, self.11, self.12, self.13, self.14, self.15, self.16, self.17, self.18, self.19, self.20, self.21, self.22, self.23, self.24, self.25, self.26, self.27, value, self.29, self.30)
    }

    fn index_ref(&self) -> (r: &T29) {
        &self.28
    }

    fn index_mut(&mut self) -> (r: &mut T29) {
        &mut self.28
    }

    fn into_index(self) -> (r: T29) {
        self.28
    }

    proof fn lemma_index_in_range(&self) {
    }
}

impl<T1, T2, T3, T4, T5, T6, T7, T8, T9, T10, T11, T12, T13, T14, T15, T16, T17, T18, T19, T20, T21, T22, T23, T24, T25, T26, T27, T28, T29, T30, T31> IndexableTuple<29> for (T1, T2, T3, T4, T5, T6, T7, T8, T9, T10, T11, T12, T13, T14, T15, T16, T17, T18, T19, T20, T21, T22, T23, T24, T25, T26, T27, T28, T29, T30, T31) {
    type Value = T30;

    open spec fn spec_index(&self) -> T30 {
        self.29
    }

    open spec fn spec_with_index(self, value: T30) -> (T1, T2, T3, T4, T5, T6, T7, T8, T9, T10, T11, T12, T13, T14, T15, T16, T17, T18, T19, T20, T21, T22, T23, T24, T25, T26, T27, T28, T29, T30, T31) {
        (self.0, self.1, self.2, self.3, self.4, self.5, self.6, self.7, self.8, self.9, self.10, self.11, self.12, self.13, self.14, self.15, self.16, self.17, self.18, self.19, self.20, self.21, self.22, self.23, self.24, self.25, self.26, self.27, self.28, value, self.30)
    }

    fn index_ref(&self) -> (r: &T30) {
        &self.29
    }

    fn index_mut(&mut self) -> (r: &mut T30) {
        &mut self.29
    }

    fn into_index(self) -> (r: T30) {
        self.29
    }

    proof fn lemma_index_in_range(&self) {
    }
}

impl<T1, T2, T3, T4, T5, T6, T7, T8, T9, T10, T11, T12, T13, T14, T15, T16, T17, T18, T19, T20, T21, T22, T23, T24, T25, T26, T27, T28, T29, T30, T31> IndexableTuple<30> for (T1, T2, T3, T4, T5, T6, T7, T8, T9, T10, T11, T12, T13, T14, T15, T16, T17, T18, T19, T20, T21, T22, T23, T24, T25, T26, T27, T28, T29, T30, T31) {
    type Value = T31;

    open spec fn spec_index(&self) -> T31 {
        self.30
    }

    open spec fn spec_with_index(self, value: T31) -> (T1, T2, T3, T4, T5, T6, T7, T8, T9, T10, T11, T12, T13, T14, T15, T16, T17, T18, T19, T20, T21, T22, T23, T24, T25, T26, T27, T28, T29, T30, T31) {
        (self.0, self.1, self.2, self.3, self.4, self.5, self.6, self.7, self.8, self.9, self.10, self.11, self.12, self.13, self.14, self.15, self.16, self.17, self.18, self.19, self.20, self.21, self.22, self.23, self.24, self.25, self.26, self.27, self.28, self.29, value)
    }

    fn index_ref(&self) -> (r: &T31) {
        &self.30
    }

    fn index_mut(&mut self) -> (r: &mut T31) {
        &mut self.30
    }

    fn into_index(self) -> (r: T31) {
        self.30
    }

    proof fn lemma_index_in_range(&self) {
    }
}

impl<T1, T2, T3, T4, T5, T6, T7, T8, T9, T10, T11, T12, T13, T14, T15, T16, T17, T18, T19, T20, T21, T22, T23, T24, T25, T26, T27, T28, T29, T30, T31> JoinableTuple<(T1, T2, T3, T4, T5, T6, T7, T8, T9, T10, T11, T12, T13, T14, T15, T16, T17, T18, T19, T20, T21, T22, T23, T24, T25, T26, T27, T28, T29, T30, T31)> for () {
    type Join = (T1, T2, T3, T4, T5, T6, T7, T8, T9, T10, T11, T12, T13, T14, T15, T16, T17, T18, T19, T20, T21, T22, T23, T24, T25, T26, T27, T28, T29, T30, T31);

    open spec fn spec_join(self, other: (T1, T2, T3, T4, T5, T6, T7, T8, T9, T10, T11, T12, T13, T14, T15, T16, T17, T18, T19, T20, T21, T22, T23, T24, T25, T26, T27, T28, T29, T30, T31)) -> (T1, T2, T3, T4, T5, T6, T7, T8, T9, T10, T11, T12, T13, T14, T15, T16, T17, T18, T19, T20, T21, T22, T23, T24, T25, T26, T27, T28, T29, T30, T31) {
        (other.0, other.1, other.2, other.3, other.4, other.5, other.6, other.7, other.8, other.9, other.10, other.11, other.12, other.13, other.14, other.15, other.16, other.17, other.18, other.19, other.20, other.21, other.22, other.23, other.24, other.25, other.26, other.27, other.28, other.29, other.30)
    }

    fn join(self, other: (T1, T2, T3, T4, T5, T6, T7, T8, T9, T10, T11, T12, T13, T14, T15, T16, T17, T18, T19, T20, T21, T22, T23, T24, T25, T26, T27, T28, T29, T30, T31)) -> (r: (T1, T2, T3, T4, T5, T6, T7, T8, T9, T10, T11, T12, T13, T14, T15, T16, T17, T18, T19, T20, T21, T22, T23, T24, T25, T26, T27, T28, T29, T30, T31)) {
        (other.0, other.1, other.2, other.3, other.4, other.5, other.6, other.7, other.8, other.9, other.10, other.11, other.12, other.13, other.14, other.15, other.16, other.17, other.18, other.19, other.20, other.21, other.22, other.23, other.24, other.25, other.26, other.27, other.28, other.29, other.30)
    }

    proof fn lemma_join_arity(self, other: (T1, T2, T3, T4, T5, T6, T7, T8, T9, T10, T11, T12, T13, T14, T15, T16, T17, T18, T19, T20, T21, T22, T23, T24, T25, T26, T27, T28, T29, T30, T31)) {
    }
}

impl<T1, T2, T3, T4, T5, T6, T7, T8, T9, T10, T11, T12, T13, T14, T15, T16, T17, T18, T19, T20, T21, T22, T23, T24, T25, T26, T27, T28, T29, T30, T31> JoinableTuple<(T2, T3, T4, T5, T6, T7, T8, T9, T10, T11, T12, T13, T14, T15, T16, T17, T18, T19, T20, T21, T22, T23, T24, T25, T26, T27, T28, T29, T30, T31)> for (T1,) {
    type Join = (T1, T2, T3, T4, T5, T6, T7, T8, T9, T10, T11, T12, T13, T14, T15, T16, T17, T18, T19, T20, T21, T22, T23, T24, T25, T26, T27, T28, T29, T30, T31);

    open spec fn spec_join(self, other: (T2, T3, T4, T5, T6, T7, T8, T9, T10, T11, T12, T13, T14, T15, T16, T17, T18, T19, T20, T21, T22, T23, T24, T25, T26, T27, T28, T29, T30, T31)) -> (T1, T2, T3, T4, T5, T6, T7, T8, T9, T10, T11, T12, T13, T14, T15, T16, T17, T18, T19, T20, T21, T22, T23, T24, T25, T26, T27, T28, T29, T30, T31) {
        (self.0, other.0, other.1, other.2, other.3, other.4, other.5, other.6, other.7, other.8, other.9, other.10, other.11, other.12, other.13, other.14, other.15, other.16, other.17, other.18, other.19, other.20, other.21, other.22, other.23, other.24, other.25, other.26, other.27, other.28, other.29)
    }

    fn join(self, other: (T2, T3, T4, T5, T6, T7, T8, T9, T10, T11, T12, T13, T14, T15, T16, T17, T18, T19, T20, T21, T22, T23, T24, T25, T26, T27, T28, T29, T30, T31)) -> (r: (T1, T2, T3, T4, T5, T6, T7, T8, T9, T10, T11, T12, T13, T14, T15, T16, T17, T18, T19, T20, T21, T22, T23, T24, T25, T26, T27, T28, T29, T30, T31)) {
        (self.0, other.0, other.1, other.2, other.3, other.4, other.5, other.6, other.7, other.8, other.9, other.10, other.11, other.12, other.13, other.14, other.15, other.16, other.17, other.18, other.19, other.20, other.21, other.22, other.23, other.24, other.25, other.26, other.27, other.28, other.29)
    }

    proof fn lemma_join_arity(self, other: (T2, T3, T4, T5, T6, T7, T8, T9, T10, T11, T12, T13, T14, T15, T16, T17, T18, T19, T20, T21, T22, T23, T24, T25, T26, T27, T28, T29, T30, T31)) {
    }
}

impl<T1, T2, T3, T4, T5, T6, T7, T8, T9, T10, T11, T12, T13, T14, T15, T16, T17, T18, T19, T20, T21, T22, T23, T24, T25, T26, T27, T28, T29, T30, T31> JoinableTuple<(T3, T4, T5, T6, T7, T8, T9, T10, T11, T12, T13, T14, T15, T16, T17, T18, T19, T20, T21, T22, T23, T24, T25, T26, T27, T28, T29, T30, T31)> for (T1, T2) {
    type Join = (T1, T2, T3, T4, T5, T6, T7, T8, T9, T10, T11, T12, T13, T14, T15, T16, T17, T18, T19, T20, T21, T22, T23, T24, T25, T26, T27, T28, T29, T30, T31);

    open spec fn spec_join(self, other: (T3, T4, T5, T6, T7, T8, T9, T10, T11, T12, T13, T14, T15, T16, T17, T18, T19, T20, T21, T22, T23, T24, T25, T26, T27, T28, T29, T30, T31)) -> (T1, T2, T3, T4, T5, T6, T7, T8, T9, T10, T11, T12, T13, T14, T15, T16, T17, T18, T19, T20, T21, T22, T23, T24, T25, T26, T27, T28, T29, T30, T31) {
        (self.0, self.1, other.0, other.1, other.2, other.3, other.4, other.5, other.6, other.7, other.8, other.9, other.10, other.11, other.12, other.13, other.14, other.15, other.16, other.17, other.18, other.19, other.20, other.21, other.22, other.23, other.24, other.25, other.26, other.27, other.28)
    }

    fn join(self, other: (T3, T4, T5, T6, T7, T8, T9, T10, T11, T12, T13, T14, T15, T16, T17, T18, T19, T20, T21, T22, T23, T24, T25, T26, T27, T28, T29, T30, T31)) -> (r: (T1, T2, T3, T4, T5, T6, T7, T8, T9, T10, T11, T12, T13, T14, T15, T16, T17, T18, T19, T20, T21, T22, T23, T24, T25, T26, T27, T28, T29, T30, T31)) {
        (self.0, self.1, other.0, other.1, other.2, other.3, other.4, other.5, other.6, other.7, other.8, other.9, other.10, other.11, other.12, other.13, other.14, other.15, other.16, other.17, other.18, other.19, other.20, other.21, other.22, other.23, other.24, other.25, other.26, other.27, other.28)
    }

    proof fn lemma_join_arity(self, other: (T3, T4, T5, T6, T7, T8, T9, T10, T11, T12, T13, T14, T15, T16, T17, T18, T19, T20, T21, T22, T23, T24, T25, T26, T27, T28, T29, T30, T31)) {
    }
}

impl<T1, T2, T3, T4, T5, T6, T7, T8, T9, T10, T11, T12, T13, T14, T15, T16, T17, T18, T19, T20, T21, T22, T23, T24, T25, T26, T27, T28, T29, T30, T31> JoinableTuple<(T4, T5, T6, T7, T8, T9, T10, T11, T12, T13, T14, T15, T16, T17, T18, T19, T20, T21, T22, T23, T24, T25, T26, T27, T28, T29, T30, T31)> for (T1, T2, T3) {
    type Join = (T1, T2, T3, T4, T5, T6, T7, T8, T9, T10, T11, T12, T13, T14, T15, T16, T17, T18, T19, T20, T21, T22, T23, T24, T25, T26, T27, T28, T29, T30, T31);

    open spec fn spec_join(self, other: (T4, T5, T6, T7, T8, T9, T10, T11, T12, T13, T14, T15, T16, T17, T18, T19, T20, T21, T22, T23, T24, T25, T26, T27, T28, T29, T30, T31)) -> (T1, T2, T3, T4, T5, T6, T7, T8, T9, T10, T11, T12, T13, T14, T15, T16, T17, T18, T19, T20, T21, T22, T23, T24, T25, T26, T27, T28, T29, T30, T31) {
        (self.0, self.1, self.2, other.0, other.1, other.2, other.3, other.4, other.5, other.6, other.7, other.8, other.9, other.10, other.11, other.12, other.13, other.14, other.15, other.16, other.17, other.18, other.19, other.20, other.21, other.22, other.23, other.24, other.25, other.26, other.27)
    }

    fn join(self, other: (T4, T5, T6, T7, T8, T9, T10, T11, T12, T13, T14, T15, T16, T17, T18, T19, T20, T21, T22, T23, T24, T25, T26, T27, T28, T29, T30, T31)) -> (r: (T1, T2, T3, T4, T5, T6, T7, T8, T9, T10, T11, T12, T13, T14, T15, T16, T17, T18, T19, T20, T21, T22, T23, T24, T25, T26, T27, T28, T29, T30, T31)) {
        (self.0, self.1, self.2, other.0, other.1, other.2, other.3, other.4, other.5, other.6, other.7, other.8, other.9, other.10, other.11, other.12, other.13, other.14, other.15, other.16, other.17, other.18, other.19, other.20, other.21, other.22, other.23, other.24, other.25, other.26, other.27)
    }

    proof fn lemma_join_arity(self, other: (T4, T5, T6, T7, T8, T9, T10, T11, T12, T13, T14, T15, T16, T17, T18, T19, T20, T21, T22, T23, T24, T25, T26, T27, T28, T29, T30, T31)) {
    }
}

impl<T1, T2, T3, T4, T5, T6, T7, T8, T9, T10, T11, T12, T13, T14, T15, T16, T17, T18, T19, T20, T21, T22, T23, T24, T25, T26, T27, T28, T29, T30, T31> JoinableTuple<(T5, T6, T7, T8, T9, T10, T11, T12, T13, T14, T15, T16, T17, T18, T19, T20, T21, T22, T23, T24, T25, T26, T27, T28, T29, T30, T31)> for (T1, T2, T3, T4) {
    type Join = (T1, T2, T3, T4, T5, T6, T7, T8, T9, T10, T11, T12, T13, T14, T15, T16, T17, T18, T19, T20, T21, T22, T23, T24, T25, T26, T27, T28, T29, T30, T31);

    open spec fn spec_join(self, other: (T5, T6, T7, T8, T9, T10, T11, T12, T13, T14, T15, T16, T17, T18, T19, T20, T21, T22, T23, T24, T25, T26, T27, T28, T29, T30, T31)) -> (T1, T2, T3, T4, T5, T6, T7, T8, T9, T10, T11, T12, T13, T14, T15, T16, T17, T18, T19, T20, T21, T22, T23, T24, T25, T26, T27, T28, T29, T30, T31) {
        (self.0, self.1, self.2, self.3, other.0, other.1, other.2, other.3, other.4, other.5, other.6, other.7, other.8, other.9, other.10, other.11, other.12, other.13, other.14, other.15, other.16, other.17, other.18, other.19, other.20, other.21, other.22, other.23, other.24, other.25, other.26)
    }

    fn join(self, other: (T5, T6, T7, T8, T9, T10, T11, T12, T13, T14, T15, T16, T17, T18, T19, T20, T21, T22, T23, T24, T25, T26, T27, T28, T29, T30, T31)) -> (r: (T1, T2, T3, T4, T5, T6, T7, T8, T9, T10, T11, T12, T13, T14, T15, T16, T17, T18, T19, T20, T21, T22, T23, T24, T25, T26, T27, T28, T29, T30, T31)) {
        (self.0, self.1, self.2, self.3, other.0, other.1, other.2, other.3, other.4, other.5, other.6, other.7, other.8, other.9, other.10, other.11, other.12, other.13, other.14, other.15, other.16, other.17, other.18, other.19, other.20, other.21, other.22, other.23, other.24, other.25, other.26)
    }

    proof fn lemma_join_arity(self, other: (T5, T6, T7, T8, T9, T10, T11, T12, T13, T14, T15, T16, T17, T18, T19, T20, T21, T22, T23, T24, T25, T26, T27, T28, T29, T30, T31)) {
    }
}

impl<T1, T2, T3, T4, T5, T6, T7, T8, T9, T10, T11, T12, T13, T14, T15, T16, T17, T18, T19, T20, T21, T22, T23, T24, T25, T26, T27, T28, T29, T30, T31> JoinableTuple<(T6, T7, T8, T9, T10, T11, T12, T13, T14, T15, T16, T17, T18, T19, T20, T21, T22, T23, T24, T25, T26, T27, T28, T29, T30, T31)> for (T1, T2, T3, T4, T5) {
    type Join = (T1, T2, T3, T4, T5, T6, T7, T8, T9, T10, T11, T12, T13, T14, T15, T16, T17, T18, T19, T20, T21, T22, T23, T24, T25, T26, T27, T28, T29, T30, T31);

    open spec fn spec_join(self, other: (T6, T7, T8, T9, T10, T11, T12, T13, T14, T15, T16, T17, T18, T19, T20, T21, T22, T23, T24, T25, T26, T27, T28, T29, T30, T31)) -> (T1, T2, T3, T4, T5, T6, T7, T8, T9, T10, T11, T12, T13, T14, T15, T16, T17, T18, T19, T20, T21, T22, T23, T24, T25, T26, T27, T28, T29, T30, T31) {
        (self.0, self.1, self.2, self.3, self.4, other.0, other.1, other.2, other.3, other.4, other.5, other.6, other.7, other.8, other.9, other.10, other.11, other.12, other.13, other.14, other.15, other.16, other.17, other.18, other.19, other.20, other.21, other.22, other.23, other.24, other.25)
    }

    fn join(self, other: (T6, T7, T8, T9, T10, T11, T12, T13, T14, T15, T16, T17, T18, T19, T20, T21, T22, T23, T24, T25, T26, T27, T28, T29, T30, T31)) -> (r: (T1, T2, T3, T4, T5, T6, T7, T8, T9, T10, T11, T12, T13, T14, T15, T16, T17, T18, T19, T20, T21, T22, T23, T24, T25, T26, T27, T28, T29, T30, T31)) {
        (self.0, self.1, self.2, self.3, self.4, other.0, other.1, other.2, other.3, other.4, other.5, other.6, other.7, other.8, other.9, other.10, other.11, other.12, other.13, other.14, other.15, other.16, other.17, other.18, other.19, other.20, other.21, other.22, other.23, other.24, other.25)
    }

    proof fn lemma_join_arity(self, other: (T6, T7, T8, T9, T10, T11, T12, T13, T14, T15, T16, T17, T18, T19, T20, T21, T22, T23, T24, T25, T26, T27, T28, T29, T30, T31)) {
    }
}

impl<T1, T2, T3, T4, T5, T6, T7, T8, T9, T10, T11, T12, T13, T14, T15, T16, T17, T18, T19, T20, T21, T22, T23, T24, T25, T26, T27, T28, T29, T30, T31> JoinableTuple<(T7, T8, T9, T10, T11, T12, T13, T14, T15, T16, T17, T18, T19, T20, T21, T22, T23, T24, T25, T26, T27, T28, T29, T30, T31)> for (T1, T2, T3, T4, T5, T6) {
    type Join = (T1, T2, T3, T4, T5, T6, T7, T8, T9, T10, T11, T12, T13, T14, T15, T16, T17, T18, T19, T20, T21, T22, T23, T24, T25, T26, T27, T28, T29, T30, T31);

    open spec fn spec_join(self, other: (T7, T8, T9, T10, T11, T12, T13, T14, T15, T16, T17, T18, T19, T20, T21, T22, T23, T24, T25, T26, T27, T28, T29, T30, T31)) -> (T1, T2, T3, T4, T5, T6, T7, T8, T9, T10, T11, T12, T13, T14, T15, T16, T17, T18, T19, T20, T21, T22, T23, T24, T25, T26, T27, T28, T29, T30, T31) {
        (self.0, self.1, self.2, self.3, self.4, self.5, other.0, other.1, other.2, other.3, other.4, other.5, other.6, other.7, other.8, other.9, other.10, other.11, other.12, other.13, other.14, other.15, other.16, other.17, other.18, other.19, other.20, other.21, other.22, other.23, other.24)
    }

    fn join(self, other: (T7, T8, T9, T10, T11, T12, T13, T14, T15, T16, T17, T18, T19, T20, T21, T22, T23, T24, T25, T26, T27, T28, T29, T30, T31)) -> (r: (T1, T2, T3, T4, T5, T6, T7, T8, T9, T10, T11, T12, T13, T14, T15, T16, T17, T18, T19, T20, T21, T22, T23, T24, T25, T26, T27, T28, T29, T30, T31)) {
        (self.0, self.1, self.2, self.3, self.4, self.5, other.0, other.1, other.2, other.3, other.4, other.5, other.6, other.7, other.8, other.9, other.10, other.11, other.12, other.13, other.14, other.15, other.16, other.17, other.18, other.19, other.20, other.21, other.22, other.23, other.24)
    }

    proof fn lemma_join_arity(self, other: (T7, T8, T9, T10, T11, T12, T13, T14, T15, T16, T17, T18, T19, T20, T21, T22, T23, T24, T25, T26, T27, T28, T29, T30, T31)) {
    }
}

impl<T1, T2, T3, T4, T5, T6, T7, T8, T9, T10, T11, T12, T13, T14, T15, T16, T17, T18, T19, T20, T21, T22, T23, T24, T25, T26, T27, T28, T29, T30, T31> JoinableTuple<(T8, T9, T10, T11, T12, T13, T14, T15, T16, T17, T18, T19, T20, T21, T22, T23, T24, T25, T26, T27, T28, T29, T30, T31)> for (T1, T2, T3, T4, T5, T6, T7) {
    type Join = (T1, T2, T3, T4, T5, T6, T7, T8, T9, T10, T11, T12, T13, T14, T15, T16, T17, T18, T19, T20, T21, T22, T23, T24, T25, T26, T27, T28, T29, T30, T31);

    open spec fn spec_join(self, other: (T8, T9, T10, T11, T12, T13, T14, T15, T16, T17, T18, T19, T20, T21, T22, T23, T24, T25, T26, T27, T28, T29, T30, T31)) -> (T1, T2, T3, T4, T5, T6, T7, T8, T9, T10, T11, T12, T13, T14, T15, T16, T17, T18, T19, T20, T21, T22, T23, T24, T25, T26, T27, T28, T29, T30, T31) {
        (self.0, self.1, self.2, self.3, self.4, self.5, self.6, other.0, other.1, other.2, other.3, other.4, other.5, other.6, other.7, other.8, other.9, other.10, other.11, other.12, other.13, other.14, other.15, other.16, other.17, other.18, other.19, other.20, other.21, other.22, other.23)
    }

    fn join(self, other: (T8, T9, T10, T11, T12, T13, T14, T15, T16, T17, T18, T19, T20, T21, T22, T23, T24, T25, T26, T27, T28, T29, T30, T31)) -> (r: (T1, T2, T3, T4, T5, T6, T7, T8, T9, T10, T11, T12, T13, T14, T15, T16, T17, T18, T19, T20, T21, T22, T23, T24, T25, T26, T27, T28, T29, T30, T31)) {
        (self.0, self.1, self.2, self.3, self.4, self.5, self.6, other.0, other.1, other.2, other.3, other.4, other.5, other.6, other.7, other.8, other.9, other.10, other.11, other.12, other.13, other.14, other.15, other.16, other.17, other.18, other.19, other.20, other.21, other.22, other.23)
    }

    proof fn lemma_join_arity(self, other: (T8, T9, T10, T11, T12, T13, T14, T15, T16, T17, T18, T19, T20, T21, T22, T23, T24, T25, T26, T27, T28, T29, T30, T31)) {
    }
}

impl<T1, T2, T3, T4, T5, T6, T7, T8, T9, T10, T11, T12, T13, T14, T15, T16, T17, T18, T19, T20, T21, T22, T23, T24, T25, T26, T27, T28, T29, T30, T31> JoinableTuple<(T9, T10, T11, T12, T13, T14, T15, T16, T17, T18, T19, T20, T21, T22, T23, T24, T25, T26, T27, T28, T29, T30, T31)> for (T1, T2, T3, T4, T5, T6, T7, T8) {
    type Join = (T1, T2, T3, T4, T5, T6, T7, T8, T9, T10, T11, T12, T13, T14, T15, T16, T17, T18, T19, T20, T21, T22, T23, T24, T25, T26, T27, T28, T29, T30, T31);

    open spec fn spec_join(self, other: (T9, T10, T11, T12, T13, T14, T15, T16, T17, T18, T19, T20, T21, T22, T23, T24, T25, T26, T27, T28, T29, T30, T31)) -> (T1, T2, T3, T4, T5, T6, T7, T8, T9, T10, T11, T12, T13, T14, T15, T16, T17, T18, T19, T20, T21, T22, T23, T24, T25, T26, T27, T28, T29, T30, T31) {
        (self.0, self.1, self.2, self.3, self.4, self.5, self.6, self.7, other.0, other.1, other.2, other.3, other.4, other.5, other.6, other.7, other.8, other.9, other.10, other.11, other.12, other.13, other.14, other.15, other.16, other.17, other.18, other.19, other.20, other.21, other.22)
    }

    fn join(self, other: (T9, T10, T11, T12, T13, T14, T15, T16, T17, T18, T19, T20, T21, T22, T23, T24, T25, T26, T27, T28, T29, T30, T31)) -> (r: (T1, T2, T3, T4, T5, T6, T7, T8, T9, T10, T11, T12, T13, T14, T15, T16, T17, T18, T19, T20, T21, T22, T23, T24, T25, T26, T27, T28, T29, T30, T31)) {
        (self.0, self.1, self.2, self.3, self.4, self.5, self.6, self.7, other.0, other.1, other.2, other.3, other.4, other.5, other.6, other.7, other.8, other.9, other.10, other.11, other.12, other.13, other.14, other.15, other.16, other.17, other.18, other.19, other.20, other.21, other.22)
    }

    proof fn lemma_join_arity(self, other: (T9, T10, T11, T12, T13, T14, T15, T16, T17, T18, T19, T20, T21, T22, T23, T24, T25, T26, T27, T28, T29, T30, T31)) {
    }
}

impl<T1, T2, T3, T4, T5, T6, T7, T8, T9, T10, T11, T12, T13, T14, T15, T16, T17, T18, T19, T20, T21, T22, T23, T24, T25, T26, T27, T28, T29, T30, T31> JoinableTuple<(T10, T11, T12, T13, T14, T15, T16, T17, T18, T19, T20, T21, T22, T23, T24, T25, T26, T27, T28, T29, T30, T31)> for (T1, T2, T3, T4, T5, T6, T7, T8, T9) {
    type Join = (T1, T2, T3, T4, T5, T6, T7, T8, T9, T10, T11, T12, T13, T14, T15, T16, T17, T18, T19, T20, T21, T22, T23, T24, T25, T26, T27, T28, T29, T30, T31);

    open spec fn spec_join(self, other: (T10, T11, T12, T13, T14, T15, T16, T17, T18, T19, T20, T21, T22, T23, T24, T25, T26, T27, T28, T29, T30, T31)) -> (T1, T2, T3, T4, T5, T6, T7, T8, T9, T10, T11, T12, T13, T14, T15, T16, T17, T18, T19, T20, T21, T22, T23, T24, T25, T26, T27, T28, T29, T30, T31) {
        (self.0, self.1, self.2, self.3, self.4, self.5, self.6, self.7, self.8, other.0, other.1, other.2, other.3, other.4, other.5, other.6, other.7, other.8, other.9, other.10, other.11, other.12, other.13, other.14, other.15, other.16, other.17, other.18, other.19, other.20, other.21)
    }

    fn join(self, other: (T10, T11, T12, T13, T14, T15, T16, T17, T18, T19, T20, T21, T22, T23, T24, T25, T26, T27, T28, T29, T30, T31)) -> (r: (T1, T2, T3, T4, T5, T6, T7, T8, T9, T10, T11, T12, T13, T14, T15, T16, T17, T18, T19, T20, T21, T22, T23, T24, T25, T26, T27, T28, T29, T30, T31)) {
        (self.0, self.1, self.2, self.3, self.4, self.5, self.6, self.7, self.8, other.0, other.1, other.2, other.3, other.4, other.5, other.6, other.7, other.8, other.9, other.10, other.11, other.12, other.13, other.14, other.15, other.16, other.17, other.18, other.19, other.20, other.21)
    }

    proof fn lemma_join_arity(self, other: (T10, T11, T12, T13, T14, T15, T16, T17, T18, T19, T20, T21, T22, T23, T24, T25, T26, T27, T28, T29, T30, T31)) {
    }
}

impl<T1, T2, T3, T4, T5, T6, T7, T8, T9, T10, T11, T12, T13, T14, T15, T16, T17, T18, T19, T20, T21, T22, T23, T24, T25, T26, T27, T28, T29, T30, T31> JoinableTuple<(T11, T12, T13, T14, T15, T16, T17, T18, T19, T20, T21, T22, T23, T24, T25, T26, T27, T28, T29, T30, T31)> for (T1, T2, T3, T4, T5, T6, T7, T8, T9, T10) {
    type Join = (T1, T2, T3, T4, T5, T6, T7, T8, T9, T10, T11, T12, T13, T14, T15, T16, T17, T18, T19, T20, T21, T22, T23, T24, T25, T26, T27, T28, T29, T30, T31);

    open spec fn spec_join(self, other: (T11, T12, T13, T14, T15, T16, T17, T18, T19, T20, T21, T22, T23, T24, T25, T26, T27, T28, T29, T30, T31)) -> (T1, T2, T3, T4, T5, T6, T7, T8, T9, T10, T11, T12, T13, T14, T15, T16, T17, T18, T19, T20, T21, T22, T23, T24, T25, T26, T27, T28, T29, T30, T31) {
        (self.0, self.1, self.2, self.3, self.4, self.5, self.6, self.7, self.8, self.9, other.0, other.1, other.2, other.3, other.4, other.5, other.6, other.7, other.8, other.9, other.10, other.11, other.12, other.13, other.14, other.15, other.16, other.17, other.18, other.19, other.20)
    }

    fn join(self, other: (T11, T12, T13, T14, T15, T16, T17, T18, T19, T20, T21, T22, T23, T24, T25, T26, T27, T28, T29, T30, T31)) -> (r: (T1, T2, T3, T4, T5, T6, T7, T8, T9, T10, T11, T12, T13, T14, T15, T16, T17, T18, T19, T20, T21, T22, T23, T24, T25, T26, T27, T28, T29, T30, T31)) {
        (self.0, self.1, self.2, self.3, self.4, self.5, self.6, self.7, self.8, self.9, other.0, other.1, other.2, other.3, other.4, other.5, other.6, other.7, other.8, other.9, other.10, other.11, other.12, other.13, other.14, other.15, other.16, other.17, other.18, other.19, other.20)
    }

    proof fn lemma_join_arity(self, other: (T11, T12, T13, T14, T15, T16, T17, T18, T19, T20, T21, T22, T23, T24, T25, T26, T27, T28, T29, T30, T31)) {
    }
}

impl<T1, T2, T3, T4, T5, T6, T7, T8, T9, T10, T11, T12, T13, T14, T15, T16, T17, T18, T19, T20, T21, T22, T23, T24, T25, T26, T27, T28, T29, T30, T31> JoinableTuple<(T12, T13, T14, T15, T16, T17, T18, T19, T20, T21, T22, T23, T24, T25, T26, T27, T28, T29, T30, T31)> for (T1, T2, T3, T4, T5, T6, T7, T8, T9, T10, T11) {
    type Join = (T1, T2, T3, T4, T5, T6, T7, T8, T9, T10, T11, T12, T13, T14, T15, T16, T17, T18, T19, T20, T21, T22, T23, T24, T25, T26, T27, T28, T29, T30, T31);

    open spec fn spec_join(self, other: (T12, T13, T14, T15, T16, T17, T18, T19, T20, T21, T22, T23, T24, T25, T26, T27, T28, T29, T30, T31)) -> (T1, T2, T3, T4, T5, T6, T7, T8, T9, T10, T11, T12, T13, T14, T15, T16, T17, T18, T19, T20, T21, T22, T23, T24, T25, T26, T27, T28, T29, T30, T31) {
        (self.0, self.1, self.2, self.3, self.4, self.5, self.6, self.7, self.8, self.9, self.10, other.0, other.1, other.2, other.3, other.4, other.5, other.6, other.7, other.8, other.9, other.10, other.11, other.12, other.13, other.14, other.15, other.16, other.17, other.18, other.19)
    }

    fn join(self, other: (T12, T13, T14, T15, T16, T17, T18, T19, T20, T21, T22, T23, T24, T25, T26, T27, T28, T29, T30, T31)) -> (r: (T1, T2, T3, T4, T5, T6, T7, T8, T9, T10, T11, T12, T13, T14, T15, T16, T17, T18, T19, T20, T21, T22, T23, T24, T25, T26, T27, T28, T29, T30, T31)) {
        (self.0, self.1, self.2, self.3, self.4, self.5, self.6, self.7, self.8, self.9, self.10, other.0, other.1, other.2, other.3, other.4, other.5, other.6, other.7, other.8, other.9, other.10, other.11, other.12, other.13, other.14, other.15, other.16, other.17, other.18, other.19)
    }

    proof fn lemma_join_arity(self, other: (T12, T13, T14, T15, T16, T17, T18, T19, T20, T21, T22, T23, T24, T25, T26, T27, T28, T29, T30, T31)) {
    }
}

impl<T1, T2, T3, T4, T5, T6, T7, T8, T9, T10, T11, T12, T13, T14, T15, T16, T17, T18, T19, T20, T21, T22, T23, T24, T25, T26, T27, T28, T29, T30, T31> JoinableTuple<(T13, T14, T15, T16, T17, T18, T19, T20, T21, T22, T23, T24, T25, T26, T27, T28, T29, T30, T31)> for (T1, T2, T3, T4, T5, T6, T7, T8, T9, T10, T11, T12) {
    type Join = (T1, T2, T3, T4, T5, T6, T7, T8, T9, T10, T11, T12, T13, T14, T15, T16, T17, T18, T19, T20, T21, T22, T23, T24, T25, T26, T27, T28, T29, T30, T31);

    open spec fn spec_join(self, other: (T13, T14, T15, T16, T17, T18, T19, T20, T21, T22, T23, T24, T25, T26, T27, T28, T29, T30, T31)) -> (T1, T2, T3, T4, T5, T6, T7, T8, T9, T10, T11, T12, T13, T14, T15, T16, T17, T18, T19, T20, T21, T22, T23, T24, T25, T26, T27, T28, T29, T30, T31) {
        (self.0, self.1, self.2, self.3, self.4, self.5, self.6, self.7, self.8, self.9, self.10, self.11, other.0, other.1, other.2, other.3, other.4, other.5, other.6, other.7, other.8, other.9, other.10, other.11, other.12, other.13, other.14, other.15, other.16, other.17, other.18)
    }

    fn join(self, other: (T13, T14, T15, T16, T17, T18, T19, T20, T21, T22, T23, T24, T25, T26, T27, T28, T29, T30, T31)) -> (r: (T1, T2, T3, T4, T5, T6, T7, T8, T9, T10, T11, T12, T13, T14, T15, T16, T17, T18, T19, T20, T21, T22, T23, T24, T25, T26, T27, T28, T29, T30, T31)) {
        (self.0, self.1, self.2, self.3, self.4, self.5, self.6, self.7, self.8, self.9, self.10, self.11, other.0, other.1, other.2, other.3, other.4, other.5, other.6, other.7, other.8, other.9, other.10, other.11, other.12, other.13, other.14, other.15, other.16, other.17, other.18)
    }

    proof fn lemma_join_arity(self, other: (T13, T14, T15, T16, T17, T18, T19, T20, T21, T22, T23, T24, T25, T26, T27, T28, T29, T30, T31)) {
    }
}

impl<T1, T2, T3, T4, T5, T6, T7, T8, T9, T10, T11, T12, T13, T14, T15, T16, T17, T18, T19, T20, T21, T22, T23, T24, T25, T26, T27, T28, T29, T30, T31> JoinableTuple<(T14, T15, T16, T17, T18, T19, T20, T21, T22, T23, T24, T25, T26, T27, T28, T29, T30, T31)> for (T1, T2, T3, T4, T5, T6, T7, T8, T9, T10, T11, T12, T13) {
    type Join = (T1, T2, T3, T4, T5, T6, T7, T8, T9, T10, T11, T12, T13, T14, T15, T16, T17, T18, T19, T20, T21, T22, T23, T24, T25, T26, T27, T28, T29, T30, T31);

    open spec fn spec_join(self, other: (T14, T15, T16, T17, T18, T19, T20, T21, T22, T23, T24, T25, T26, T27, T28, T29, T30, T31)) -> (T1, T2, T3, T4, T5, T6, T7, T8, T9, T10, T11, T12, T13, T14, T15, T16, T17, T18, T19, T20, T21, T22, T23, T24, T25, T26, T27, T28, T29, T30, T31) {
        (self.0, self.1, self.2, self.3, self.4, self.5, self.6, self.7, self.8, self.9, self.10, self.11, self.12, other.0, other.1, other.2, other.3, other.4, other.5, other.6, other.7, other.8, other.9, other.10, other.11, other.12, other.13, other.14, other.15, other.16, other.17)
    }

    fn join(self, other: (T14, T15, T16, T17, T18, T19, T20, T21, T22, T23, T24, T25, T26, T27, T28, T29, T30, T31)) -> (r: (T1, T2, T3, T4, T5, T6, T7, T8, T9, T10, T11, T12, T13, T14, T15, T16, T17, T18, T19, T20, T21, T22, T23, T24, T25, T26, T27, T28, T29, T30, T31)) {
        (self.0, self.1, self.2, self.3, self.4, self.5, self.6, self.7, self.8, self.9, self.10, self.11, self.12, other.0, other.1, other.2, other.3, other.4, other.5, other.6, other.7, other.8, other.9, other.10, other.11, other.12, other.13, other.14, other.15, other.16, other.17)
    }

    proof fn lemma_join_arity(self, other: (T14, T15, T16, T17, T18, T19, T20, T21, T22, T23, T24, T25, T26, T27, T28, T29, T30, T31)) {
    }
}

impl<T1, T2, T3, T4, T5, T6, T7, T8, T9, T10, T11, T12, T13, T14, T15, T16, T17, T18, T19, T20, T21, T22, T23, T24, T25, T26, T27, T28, T29, T30, T31> JoinableTuple<(T15, T16, T17, T18, T19, T20, T21, T22, T23, T24, T25, T26, T27, T28, T29, T30, T31)> for (T1, T2, T3, T4, T5, T6, T7, T8, T9, T10, T11, T12, T13, T14) {
    type Join = (T1, T2, T3, T4, T5, T6, T7, T8, T9, T10, T11, T12, T13, T14, T15, T16, T17, T18, T19, T20, T21, T22, T23, T24, T25, T26, T27, T28, T29, T30, T31);

    open spec fn spec_join(self, other: (T15, T16, T17, T18, T19, T20, T21, T22, T23, T24, T25, T26, T27, T28, T29, T30, T31)) -> (T1, T2, T3, T4, T5, T6, T7, T8, T9, T10, T11, T12, T13, T14, T15, T16, T17, T18, T19, T20, T21, T22, T23, T24, T25, T26, T27, T28, T29, T30, T31) {
        (self.0, self.1, self.2, self.3, self.4, self.5, self.6, self.7, self.8, self.9, self.10, self.11, self.12, self.13, other.0, other.1, other.2, other.3, other.4, other.5, other.6, other.7, other.8, other.9, other.10, other.11, other.12, other.13, other.14, other.15, other.16)
    }

    fn join(self, other: (T15, T16, T17, T18, T19, T20, T21, T22, T23, T24, T25, T26, T27, T28, T29, T30, T31)) -> (r: (T1, T2, T3, T4, T5, T6, T7, T8, T9, T10, T11, T12, T13, T14, T15, T16, T17, T18, T19, T20, T21, T22, T23, T24, T25, T26, T27, T28, T29, T30, T31)) {
        (self.0, self.1, self.2, self.3, self.4, self.5, self.6, self.7, self.8, self.9, self.10, self.11, self.12, self.13, other.0, other.1, other.2, other.3, other.4, other.5, other.6, other.7, other.8, other.9, other.10, other.11, other.12, other.13, other.14, other.15, other.16)
    }

    proof fn lemma_join_arity(self, other: (T15, T16, T17, T18, T19, T20, T21, T22, T23, T24, T25, T26, T27, T28, T29, T30, T31)) {
    }
}

impl<T1, T2, T3, T4, T5, T6, T7, T8, T9, T10, T11, T12, T13, T14, T15, T16, T17, T18, T19, T20, T21, T22, T23, T24, T25, T26, T27, T28, T29, T30, T31> JoinableTuple<(T16, T17, T18, T19, T20, T21, T22, T23, T24, T25, T26, T27, T28, T29, T30, T31)> for (T1, T2, T3, T4, T5, T6, T7, T8, T9, T10, T11, T12, T13, T14, T15) {
    type Join = (T1, T2, T3, T4, T5, T6, T7, T8, T9, T10, T11, T12, T13, T14, T15, T16, T17, T18, T19, T20, T21, T22, T23, T24, T25, T26, T27, T28, T29, T30, T31);

    open spec fn spec_join(self, other: (T16, T17, T18, T19, T20, T21, T22, T23, T24, T25, T26, T27, T28, T29, T30, T31)) -> (T1, T2, T3, T4, T5, T6, T7, T8, T9, T10, T11, T12, T13, T14, T15, T16, T17, T18, T19, T20, T21, T22, T23, T24, T25, T26, T27, T28, T29, T30, T31) {
        (self.0, self.1, self.2, self.3, self.4, self.5, self.6, self.7, self.8, self.9, self.10, self.11, self.12, self.13, self.14, other.0, other.1, other.2, other.3, other.4, other.5, other.6, other.7, other.8, other.9, other.10, other.11, other.12, other.13, other.14, other.15)
    }

    fn join(self, other: (T16, T17, T18, T19, T20, T21, T22, T23, T24, T25, T26, T27, T28, T29, T30, T31)) -> (r: (T1, T2, T3, T4, T5, T6, T7, T8, T9, T10, T11, T12, T13, T14, T15, T16, T17, T18, T19, T20, T21, T22, T23, T24, T25, T26, T27, T28, T29, T30, T31)) {
        (self.0, self.1, self.2, self.3, self.4, self.5, self.6, self.7, self.8, self.9, self.10, self.11, self.12, self.13, self.14, other.0, other.1, other.2, other.3, other.4, other.5, other.6, other.7, other.8, other.9, other.10, other.11, other.12, other.13, other.14, other.15)
    }

    proof fn lemma_join_arity(self, other: (T16, T17, T18, T19, T20, T21, T22, T23, T24, T25, T26, T27, T28, T29, T30, T31)) {
    }
}

impl<T1, T2, T3, T4, T5, T6, T7, T8, T9, T10, T11, T12, T13, T14, T15, T16, T17, T18, T19, T20, T21, T22, T23, T24, T25, T26, T27, T28, T29, T30, T31> JoinableTuple<(T17, T18, T19, T20, T21, T22, T23, T24, T25, T26, T27, T28, T29, T30, T31)> for (T1, T2, T3, T4, T5, T6, T7, T8, T9, T10, T11, T12, T13, T14, T15, T16) {
    type Join = (T1, T2, T3, T4, T5, T6, T7, T8, T9, T10, T11, T12, T13, T14, T15, T16, T17, T18, T19, T20, T21, T22, T23, T24, T25, T26, T27, T28, T29, T30, T31);

    open spec fn spec_join(self, other: (T17, T18, T19, T20, T21, T22, T23, T24, T25, T26, T27, T28, T29, T30, T31)) -> (T1, T2, T3, T4, T5, T6, T7, T8, T9, T10, T11, T12, T13, T14, T15, T16, T17, T18, T19, T20, T21, T22, T23, T24, T25, T26, T27, T28, T29, T30, T31) {
        (self.0, self.1, self.2, self.3, self.4, self.5, self.6, self.7, self.8, self.9, self.10, self.11, self.12, self.13, self.14, self.15, other.0, other.1, other.2, other.3, other.4, other.5, other.6, other.7, other.8, other.9, other.10, other.11, other.12, other.13, other.14)
    }

    fn join(self, other: (T17, T18, T19, T20, T21, T22, T23, T24, T25, T26, T27, T28, T29, T30, T31)) -> (r: (T1, T2, T3, T4, T5, T6, T7, T8, T9, T10, T11, T12, T13, T14, T15, T16, T17, T18, T19, T20, T21, T22, T23, T24, T25, T26, T27, T28, T29, T30, T31)) {
        (self.0, self.1, self.2, self.3, self.4, self.5, self.6, self.7, self.8, self.9, self.10, self.11, self.12, self.13, self.14, self.15, other.0, other.1, other.2, other.3, other.4, other.5, other.6, other.7, other.8, other.9, other.10, other.11, other.12, other.13, other.14)
    }

    proof fn lemma_join_arity(self, other: (T17, T18, T19, T20, T21, T22, T23, T24, T25, T26, T27, T28, T29, T30, T31)) {
    }
}

impl<T1, T2, T3, T4, T5, T6, T7, T8, T9, T10, T11, T12, T13, T14, T15, T16, T17, T18, T19, T20, T21, T22, T23, T24, T25, T26, T27, T28, T29, T30, T31> JoinableTuple<(T18, T19, T20, T21, T22, T23, T24, T25, T26, T27, T28, T29, T30, T31)> for (T1, T2, T3, T4, T5, T6, T7, T8, T9, T10, T11, T12, T13, T14, T15, T16, T17) {
    type Join = (T1, T2, T3, T4, T5, T6, T7, T8, T9, T10, T11, T12, T13, T14, T15, T16, T17, T18, T19, T20, T21, T22, T23, T24, T25, T26, T27, T28, T29, T30, T31);

    open spec fn spec_join(self, other: (T18, T19, T20, T21, T22, T23, T24, T25, T26, T27, T28, T29, T30, T31)) -> (T1, T2, T3, T4, T5, T6, T7, T8, T9, T10, T11, T12, T13, T14, T15, T16, T17, T18, T19, T20, T21, T22, T23, T24, T25, T26, T27, T28, T29, T30, T31) {
        (self.0, self.1, self.2, self.3, self.4, self.5, self.6, self.7, self.8, self.9, self.10, self.11, self.12, self.13, self.14, self.15, self.16, other.0, other.1, other.2, other.3, other.4, other.5, other.6, other.7, other.8, other.9, other.10, other.11, other.12, other.13)
    }

    fn join(self, other: (T18, T19, T20, T21, T22, T23, T24, T25, T26, T27, T28, T29, T30, T31)) -> (r: (T1, T2, T3, T4, T5, T6, T7, T8, T9, T10, T11, T12, T13, T14, T15, T16, T17, T18, T19, T20, T21, T22, T23, T24, T25, T26, T27, T28, T29, T30, T31)) {
        (self.0, self.1, self.2, self.3, self.4, self.5, self.6, self.7, self.8, self.9, self.10, self.11, self.12, self.13, self.14, self.15, self.16, other.0, other.1, other.2, other.3, other.4, other.5, other.6, other.7, other.8, other.9, other.10, other.11, other.12, other.13)
    }

    proof fn lemma_join_arity(self, other: (T18, T19, T20, T21, T22, T23, T24, T25, T26, T27, T28, T29, T30, T31)) {
    }
}

impl<T1, T2, T3, T4, T5, T6, T7, T8, T9, T10, T11, T12, T13, T14, T15, T16, T17, T18, T19, T20, T21, T22, T23, T24, T25, T26, T27, T28, T29, T30, T31> JoinableTuple<(T19, T20, T21, T22, T23, T24, T25, T26, T27, T28, T29, T30, T31)> for (T1, T2, T3, T4, T5, T6, T7, T8, T9, T10, T11, T12, T13, T14, T15, T16, T17, T18) {
    type Join = (T1, T2, T3, T4, T5, T6, T7, T8, T9, T10, T11, T12, T13, T14, T15, T16, T17, T18, T19, T20, T21, T22, T23, T24, T25, T26, T27, T28, T29, T30, T31);

    open spec fn spec_join(self, other: (T19, T20, T21, T22, T23, T24, T25, T26, T27, T28, T29, T30, T31)) -> (T1, T2, T3, T4, T5, T6, T7, T8, T9, T10, T11, T12, T13, T14, T15, T16, T17, T18, T19, T20, T21, T22, T23, T24, T25, T26, T27, T28, T29, T30, T31) {
        (self.0, self.1, self.2, self.3, self.4, self.5, self.6, self.7, self.8, self.9, self.10, self.11, self.12, self.13, self.14, self.15, self.16, self.17, other.0, other.1, other.2, other.3, other.4, other.5, other.6, other.7, other.8, other.9, other.10, other.11, other.12)
    }

    fn join(self, other: (T19, T20, T21, T22, T23, T24, T25, T26, T27, T28, T29, T30, T31)) -> (r: (T1, T2, T3, T4, T5, T6, T7, T8, T9, T10, T11, T12, T13, T14, T15, T16, T17, T18, T19, T20, T21, T22, T23, T24, T25, T26, T27, T28, T29, T30, T31)) {
        (self.0, self.1, self.2, self.3, self.4, self.5, self.6, self.7, self.8, self.9, self.10, self.11, self.12, self.13, self.14, self.15, self.16, self.17, other.0, other.1, other.2, other.3, other.4, other.5, other.6, other.7, other.8, other.9, other.10, other.11, other.12)
    }

    proof fn lemma_join_arity(self, other: (T19, T20, T21, T22, T23, T24, T25, T26, T27, T28, T29, T30, T31)) {
    }
}

impl<T1, T2, T3, T4, T5, T6, T7, T8, T9, T10, T11, T12, T13, T14, T15, T16, T17, T18, T19, T20, T21, T22, T23, T24, T25, T26, T27, T28, T29, T30, T31> JoinableTuple<(T20, T21, T22, T23, T24, T25, T26, T27, T28, T29, T30, T31)> for (T1, T2, T3, T4, T5, T6, T7, T8, T9, T10, T11, T12, T13, T14, T15, T16, T17, T18, T19) {
    type Join = (T1, T2, T3, T4, T5, T6, T7, T8, T9, T10, T11, T12, T13, T14, T15, T16, T17, T18, T19, T20, T21, T22, T23, T24, T25, T26, T27, T28, T29, T30, T31);

    open spec fn spec_join(self, other: (T20, T21, T22, T23, T24, T25, T26, T27, T28, T29, T30, T31)) -> (T1, T2, T3, T4, T5, T6, T7, T8, T9, T10, T11, T12, T13, T14, T15, T16, T17, T18, T19, T20, T21, T22, T23, T24, T25, T26, T27, T28, T29, T30, T31) {
        (self.0, self.1, self.2, self.3, self.4, self.5, self.6, self.7, self.8, self.9, self.10, self.11, self.12, self.13, self.14, self.15, self.16, self.17, self.18, other.0, other.1, other.2, other.3, other.4, other.5, other.6, other.7, other.8, other.9, other.10, other.11)
    }

    fn join(self, other: (T20, T21, T22, T23, T24, T25, T26, T27, T28, T29, T30, T31)) -> (r: (T1, T2, T3, T4, T5, T6, T7, T8, T9, T10, T11, T12, T13, T14, T15, T16, T17, T18, T19, T20, T21, T22, T23, T24, T25, T26, T27, T28, T29, T30, T31)) {
        (self.0, self.1, self.2, self.3, self.4, self.5, self.6, self.7, self.8, self.9, self.10, self.11, self.12, self.13, self.14, self.15, self.16, self.17, self.18, other.0, other.1, other.2, other.3, other.4, other.5, other.6, other.7, other.8, other.9, other.10, other.11)
    }

    proof fn lemma_join_arity(self, other: (T20, T21, T22, T23, T24, T25, T26, T27, T28, T29, T30, T31)) {
    }
}

impl<T1, T2, T3, T4, T5, T6, T7, T8, T9, T10, T11, T12, T13, T14, T15, T16, T17, T18, T19, T20, T21, T22, T23, T24, T25, T26, T27, T28, T29, T30, T31> JoinableTuple<(T21, T22, T23, T24, T25, T26, T27, T28, T29, T30, T31)> for (T1, T2, T3, T4, T5, T6, T7, T8, T9, T10, T11, T12, T13, T14, T15, T16, T17, T18, T19, T20) {
    type Join = (T1, T2, T3, T4, T5, T6, T7, T8, T9, T10, T11, T12, T13, T14, T15, T16, T17, T18, T19, T20, T21, T22, T23, T24, T25, T26, T27, T28, T29, T30, T31);

    open spec fn spec_join(self, other: (T21, T22, T23, T24, T25, T26, T27, T28, T29, T30, T31)) -> (T1, T2, T3, T4, T5, T6, T7, T8, T9, T10, T11, T12, T13, T14, T15, T16, T17, T18, T19, T20, T21, T22, T23, T24, T25, T26, T27, T28, T29, T30, T31) {
        (self.0, self.1, self.2, self.3, self.4, self.5, self.6, self.7, self.8, self.9, self.10, self.11, self.12, self.13, self.14, self.15, self.16, self.17, self.18, self.19, other.0, other.1, other.2, other.3, other.4, other.5, other.6, other.7, other.8, other.9, other.10)
    }

    fn join(self, other: (T21, T22, T23, T24, T25, T26, T27, T28, T29, T30, T31)) -> (r: (T1, T2, T3, T4, T5, T6, T7, T8, T9, T10, T11, T12, T13, T14, T15, T16, T17, T18, T19, T20, T21, T22, T23, T24, T25, T26, T27, T28, T29, T30, T31)) {
        (self.0, self.1, self.2, self.3, self.4, self.5, self.6, self.7, self.8, self.9, self.10, self.11, self.12, self.13, self.14, self.15, self.16, self.17, self.18, self.19, other.0, other.1, other.2, other.3, other.4, other.5, other.6, other.7, other.8, other.9, other.10)
    }

    proof fn lemma_join_arity(self, other: (T21, T22, T23, T24, T25, T26, T27, T28, T29, T30, T31)) {
    }
}

impl<T1, T2, T3, T4, T5, T6, T7, T8, T9, T10, T11, T12, T13, T14, T15, T16, T17, T18, T19, T20, T21, T22, T23, T24, T25, T26, T27, T28, T29, T30, T31> JoinableTuple<(T22, T23, T24, T25, T26, T27, T28, T29, T30, T31)> for (T1, T2, T3, T4, T5, T6, T7, T8, T9, T10, T11, T12, T13, T14, T15, T16, T17, T18, T19, T20, T21) {
    type Join = (T1, T2, T3, T4, T5, T6, T7, T8, T9, T10, T11, T12, T13, T14, T15, T16, T17, T18, T19, T20, T21, T22, T23, T24, T25, T26, T27, T28, T29, T30, T31);

    open spec fn spec_join(self, other: (T22, T23, T24, T25, T26, T27, T28, T29, T30, T31)) -> (T1, T2, T3, T4, T5, T6, T7, T8, T9, T10, T11, T12, T13, T14, T15, T16, T17, T18, T19, T20, T21, T22, T23, T24, T25, T26, T27, T28, T29, T30, T31) {
        (self.0, self.1, self.2, self.3, self.4, self.5, self.6, self.7, self.8, self.9, self.10, self.11, self.12, self.13, self.14, self.15, self.16, self.17, self.18, self.19, self.20, other.0, other.1, other.2, other.3, other.4, other.5, other.6, other.7, other.8, other.9)
    }

    fn join(self, other: (T22, T23, T24, T25, T26, T27, T28, T29, T30, T31)) -> (r: (T1, T2, T3, T4, T5, T6, T7, T8, T9, T10, T11, T12, T13, T14, T15, T16, T17, T18, T19, T20, T21, T22, T23, T24, T25, T26, T27, T28, T29, T30, T31)) {
        (self.0, self.1, self.2, self.3, self.4, self.5, self.6, self.7, self.8, self.9, self.10, self.11, self.12, self.13, self.14, self.15, self.16, self.17, self.18, self.19, self.20, other.0, other.1, other.2, other.3, other.4, other.5, other.6, other.7, other.8, other.9)
    }

    proof fn lemma_join_arity(self, other: (T22, T23, T24, T25, T26, T27, T28, T29, T30, T31)) {
    }
}

impl<T1, T2, T3, T4, T5, T6, T7, T8, T9, T10, T11, T12, T13, T14, T15, T16, T17, T18, T19, T20, T21, T22, T23, T24, T25, T26, T27, T28, T29, T30, T31> JoinableTuple<(T23, T24, T25, T26, T27, T28, T29, T30, T31)> for (T1, T2, T3, T4, T5, T6, T7, T8, T9, T10, T11, T12, T13, T14, T15, T16, T17, T18, T19, T20, T21, T22) {
    type Join = (T1, T2, T3, T4, T5, T6, T7, T8, T9, T10, T11, T12, T13, T14, T15, T16, T17, T18, T19, T20, T21, T22, T23, T24, T25, T26, T27, T28, T29, T30, T31);

    open spec fn spec_join(self, other: (T23, T24, T25, T26, T27, T28, T29, T30, T31)) -> (T1, T2, T3, T4, T5, T6, T7, T8, T9, T10, T11, T12, T13, T14, T15, T16, T17, T18, T19, T20, T21, T22, T23, T24, T25, T26, T27, T28, T29, T30, T31) {
        (self.0, self.1, self.2, self.3, self.4, self.5, self.6, self.7, self.8, self.9, self.10, self.11, self.12, self.13, self.14, self.15, self.16, self.17, self.18, self.19, self.20, self.21, other.0, other.1, other.2, other.3, other.4, other.5, other.6, other.7, other.8)
    }

    fn join(self, other: (T23, T24, T25, T26, T27, T28, T29, T30, T31)) -> (r: (T1, T2, T3, T4, T5, T6, T7, T8, T9, T10, T11, T12, T13, T14, T15, T16, T17, T18, T19, T20, T21, T22, T23, T24, T25, T26, T27, T28, T29, T30, T31)) {
        (self.0, self.1, self.2, self.3, self.4, self.5, self.6, self.7, self.8, self.9, self.10, self.11, self.12, self.13, self.14, self.15, self.16, self.17, self.18, self.19, self.20, self.21, other.0, other.1, other.2, other.3, other.4, other.5, other.6, other.7, other.8)
    }

    proof fn lemma_join_arity(self, other: (T23, T24, T25, T26, T27, T28, T29, T30, T31)) {
    }
}

impl<T1, T2, T3, T4, T5, T6, T7, T8, T9, T10, T11, T12, T13, T14, T15, T16, T17, T18, T19, T20, T21, T22, T23, T24, T25, T26, T27, T28, T29, T30, T31> JoinableTuple<(T24, T25, T26, T27, T28, T29, T30, T31)> for (T1, T2, T3, T4, T5, T6, T7, T8, T9, T10, T11, T12, T13, T14, T15, T16, T17, T18, T19, T20, T21, T22, T23) {
    type Join = (T1, T2, T3, T4, T5, T6, T7, T8, T9, T10, T11, T12, T13, T14, T15, T16, T17, T18, T19, T20, T21, T22, T23, T24, T25, T26, T27, T28, T29, T30, T31);

    open spec fn spec_join(self, other: (T24, T25, T26, T27, T28, T29, T30, T31)) -> (T1, T2, T3, T4, T5, T6, T7, T8, T9, T10, T11, T12, T13, T14, T15, T16, T17, T18, T19, T20, T21, T22, T23, T24, T25, T26, T27, T28, T29, T30, T31) {
        (self.0, self.1, self.2, self.3, self.4, self.5, self.6, self.7, self.8, self.9, self.10, self.11, self.12, self.13, self.14, self.15, self.16, self.17, self.18, self.19, self.20, self.21, self.22, other.0, other.1, other.2, other.3, other.4, other.5, other.6, other.7)
    }

    fn join(self, other: (T24, T25, T26, T27, T28, T29, T30, T31)) -> (r: (T1, T2, T3, T4, T5, T6, T7, T8, T9, T10, T11, T12, T13, T14, T15, T16, T17, T18, T19, T20, T21, T22, T23, T24, T25, T26, T27, T28, T29, T30, T31)) {
        (self.0, self.1, self.2, self.3, self.4, self.5, self.6, self.7, self.8, self.9, self.10, self.11, self.12, self.13, self.14, self.15, self.16, self.17, self.18, self.19, self.20, self.21, self.22, other.0, other.1, other.2, other.3, other.4, other.5, other.6, other.7)
    }

    proof fn lemma_join_arity(self, other: (T24, T25, T26, T27, T28, T29, T30, T31)) {
    }
}

impl<T1, T2, T3, T4, T5, T6, T7, T8, T9, T10, T11, T12, T13, T14, T15, T16, T17, T18, T19, T20, T21, T22, T23, T24, T25, T26, T27, T28, T29, T30, T31> JoinableTuple<(T25, T26, T27, T28, T29, T30, T31)> for (T1, T2, T3, T4, T5, T6, T7, T8, T9, T10, T11, T12, T13, T14, T15, T16, T17, T18, T19, T20, T21, T22, T23, T24) {
    type Join = (T1, T2, T3, T4, T5, T6, T7, T8, T9, T10, T11, T12, T13, T14, T15, T16, T17, T18, T19, T20, T21, T22, T23, T24, T25, T26, T27, T28, T29, T30, T31);

    open spec fn spec_join(self, other: (T25, T26, T27, T28, T29, T30, T31)) -> (T1, T2, T3, T4, T5, T6, T7, T8, T9, T10, T11, T12, T13, T14, T15, T16, T17, T18, T19, T20, T21, T22, T23, T24, T25, T26, T27, T28, T29, T30, T31) {
        (self.0, self.1, self.2, self.3, self.4, self.5, self.6, self.7, self.8, self.9, self.10, self.11, self.12, self.13, self.14, self.15, self.16, self.17, self.18, self.19, self.20, self.21, self.22, self.23, other.0, other.1, other.2, other.3, other.4, other.5, other.6)
    }

    fn join(self, other: (T25, T26, T27, T28, T29, T30, T31)) -> (r: (T1, T2, T3, T4, T5, T6, T7, T8, T9, T10, T11, T12, T13, T14, T15, T16, T17, T18, T19, T20, T21, T22, T23, T24, T25, T26, T27, T28, T29, T30, T31)) {
        (self.0, self.1, self.2, self.3, self.4, self.5, self.6, self.7, self.8, self.9, self.10, self.11, self.12, self.13, self.14, self.15, self.16, self.17, self.18, self.19, self.20, self.21, self.22, self.23, other.0, other.1, other.2, other.3, other.4, other.5, other.6)
    }

    proof fn lemma_join_arity(self, other: (T25, T26, T27, T28, T29, T30, T31)) {
    }
}

impl<T1, T2, T3, T4, T5, T6, T7, T8, T9, T10, T11, T12, T13, T14, T15, T16, T17, T18, T19, T20, T21, T22, T23, T24, T25, T26, T27, T28, T29, T30, T31> JoinableTuple<(T26, T27, T28, T29, T30, T31)> for (T1, T2, T3, T4, T5, T6, T7, T8, T9, T10, T11, T12, T13, T14, T15, T16, T17, T18, T19, T20, T21, T22, T23, T24, T25) {
    type Join = (T1, T2, T3, T4, T5, T6, T7, T8, T9, T10, T11, T12, T13, T14, T15, T16, T17, T18, T19, T20, T21, T22, T23, T24, T25, T26, T27, T28, T29, T30, T31);

    open spec fn spec_join(self, other: (T26, T27, T28, T29, T30, T31)) -> (T1, T2, T3, T4, T5, T6, T7, T8, T9, T10, T11, T12, T13, T14, T15, T16, T17, T18, T19, T20, T21, T22, T23, T24, T25, T26, T27, T28, T29, T30, T31) {
        (self.0, self.1, self.2, self.3, self.4, self.5, self.6, self.7, self.8, self.9, self.10, self.11, self.12, self.13, self.14, self.15, self.16, self.17, self.18, self.19, self.20, self.21, self.22, self.23, self.24, other.0, other.1, other.2, other.3, other.4, other.5)
    }

    fn join(self, other: (T26, T27, T28, T29, T30, T31)) -> (r: (T1, T2, T3, T4, T5, T6, T7, T8, T9, T10, T11, T12, T13, T14, T15, T16, T17, T18, T19, T20, T21, T22, T23, T24, T25, T26, T27, T28, T29, T30, T31)) {
        (self.0, self.1, self.2, self.3, self.4, self.5, self.6, self.7, self.8, self.9, self.10, self.11, self.12, self.13, self.14, self.15, self.16, self.17, self.18, self.19, self.20, self.21, self.22, self.23, self.24, other.0, other.1, other.2, other.3, other.4, other.5)
    }

    proof fn lemma_join_arity(self, other: (T26, T27, T28, T29, T30, T31)) {
    }
}

impl<T1, T2, T3, T4, T5, T6, T7, T8, T9, T10, T11, T12, T13, T14, T15, T16, T17, T18, T19, T20, T21, T22, T23, T24, T25, T26, T27, T28, T29, T30, T31> JoinableTuple<(T27, T28, T29, T30, T31)> for (T1, T2, T3, T4, T5, T6, T7, T8, T9, T10, T11, T12, T13, T14, T15, T16, T17, T18, T19, T20, T21, T22, T23, T24, T25, T26) {
    type Join = (T1, T2, T3, T4, T5, T6, T7, T8, T9, T10, T11, T12, T13, T14, T15, T16, T17, T18, T19, T20, T21, T22, T23, T24, T25, T26, T27, T28, T29, T30, T31);

    open spec fn spec_join(self, other: (T27, T28, T29, T30, T31)) -> (T1, T2, T3, T4, T5, T6, T7, T8, T9, T10, T11, T12, T13, T14, T15, T16, T17, T18, T19, T20, T21, T22, T23, T24, T25, T26, T27, T28, T29, T30, T31) {
        (self.0, self.1, self.2, self.3, self.4, self.5, self.6, self.7, self.8, self.9, self.10, self.11, self.12, self.13, self.14, self.15, self.16, self.17, self.18, self.19, self.20, self.21, self.22, self.23, self.24, self.25, other.0, other.1, other.2, other.3, other.4)
    }

    fn join(self, other: (T27, T28, T29, T30, T31)) -> (r: (T1, T2, T3, T4, T5, T6, T7, T8, T9, T10, T11, T12, T13, T14, T15, T16, T17, T18, T19, T20, T21, T22, T23, T24, T25, T26, T27, T28, T29, T30, T31)) {
        (self.0, self.1, self.2, self.3, self.4, self.5, self.6, self.7, self.8, self.9, self.10, self.11, self.12, self.13, self.14, self.15, self.16, self.17, self.18, self.19, self.20, self.21, self.22, self.23, self.24, self.25, other.0, other.1, other.2, other.3, other.4)
    }

    proof fn lemma_join_arity(self, other: (T27, T28, T29, T30, T31)) {
    }
}

impl<T1, T2, T3, T4, T5, T6, T7, T8, T9, T10, T11, T12, T13, T14, T15, T16, T17, T18, T19, T20, T21, T22, T23, T24, T25, T26, T27, T28, T29, T30, T31> JoinableTuple<(T28, T29, T30, T31)> for (T1, T2, T3, T4, T5, T6, T7, T8, T9, T10, T11, T12, T13, T14, T15, T16, T17, T18, T19, T20, T21, T22, T23, T24, T25, T26, T27) {
    type Join = (T1, T2, T3, T4, T5, T6, T7, T8, T9, T10, T11, T12, T13, T14, T15, T16, T17, T18, T19, T20, T21, T22, T23, T24, T25, T26, T27, T28, T29, T30, T31);

    open spec fn spec_join(self, other: (T28, T29, T30, T31)) -> (T1, T2, T3, T4, T5, T6, T7, T8, T9, T10, T11, T12, T13, T14, T15, T16, T17, T18, T19, T20, T21, T22, T23, T24, T25, T26, T27, T28, T29, T30, T31) {
        (self.0, self.1, self.2, self.3, self.4, self.5, self.6, self.7, self.8, self.9, self.10, self.11, self.12, self.13, self.14, self.15, self.16, self.17, self.18, self.19, self.20, self.21, self.22, self.23, self.24, self.25, self.26, other.0, other.1, other.2, other.3)
    }

    fn join(self, other: (T28, T29, T30, T31)) -> (r: (T1, T2, T3, T4, T5, T6, T7, T8, T9, T10, T11, T12, T13, T14, T15, T16, T17, T18, T19, T20, T21, T22, T23, T24, T25, T26, T27, T28, T29, T30, T31)) {
        (self.0, self.1, self.2, self.3, self.4, self.5, self.6, self.7, self.8, self.9, self.10, self.11, self.12, self.13, self.14, self.15, self.16, self.17, self.18, self.19, self.20, self.21, self.22, self.23, self.24, self.25, self.26, other.0, other.1, other.2, other.3)
    }

    proof fn lemma_join_arity(self, other: (T28, T29, T30, T31)) {
    }
}

impl<T1, T2, T3, T4, T5, T6, T7, T8, T9, T10, T11, T12, T13, T14, T15, T16, T17, T18, T19, T20, T21, T22, T23, T24, T25, T26, T27, T28, T29, T30, T31> JoinableTuple<(T29, T30, T31)> for (T1, T2, T3, T4, T5, T6, T7, T8, T9, T10, T11, T12, T13, T14, T15, T16, T17, T18, T19, T20, T21, T22, T23, T24, T25, T26, T27, T28) {
    type Join = (T1, T2, T3, T4, T5, T6, T7, T8, T9, T10, T11, T12, T13, T14, T15, T16, T17, T18, T19, T20, T21, T22, T23, T24, T25, T26, T27, T28, T29, T30, T31);

    open spec fn spec_join(self, other: (T29, T30, T31)) -> (T1, T2, T3, T4, T5, T6, T7, T8, T9, T10, T11, T12, T13, T14, T15, T16, T17, T18, T19, T20, T21, T22, T23, T24, T25, T26, T27, T28, T29, T30, T31) {
        (self.0, self.1, self.2, self.3, self.4, self.5, self.6, self.7, self.8, self.9, self.10, self.11, self.12, self.13, self.14, self.15, self.16, self.17, self.18, self.19, self.20, self.21, self.22, self.23, self.24, self.25, self.26, self.27, other.0, other.1, other.2)
    }

    fn join(self, other: (T29, T30, T31)) -> (r: (T1, T2, T3, T4, T5, T6, T7, T8, T9, T10, T11, T12, T13, T14, T15, T16, T17, T18, T19, T20, T21, T22, T23, T24, T25, T26, T27, T28, T29, T30, T31)) {
        (self.0, self.1, self.2, self.3, self.4, self.5, self.6, self.7, self.8, self.9, self.10, self.11, self.12, self.13, self.14, self.15, self.16, self.17, self.18, self.19, self.20, self.21, self.22, self.23, self.24, self.25, self.26, self.27, other.0, other.1, other.2)
    }

    proof fn lemma_join_arity(self, other: (T29, T30, T31)) {
    }
}

impl<T1, T2, T3, T4, T5, T6, T7, T8, T9, T10, T11, T12, T13, T14, T15, T16, T17, T18, T19, T20, T21, T22, T23, T24, T25, T26, T27, T28, T29, T30, T31> JoinableTuple<(T30, T31)> for (T1, T2, T3, T4, T5, T6, T7, T8, T9, T10, T11, T12, T13, T14, T15, T16, T17, T18, T19, T20, T21, T22, T23, T24, T25, T26, T27, T28, T29) {
    type Join = (T1, T2, T3, T4, T5, T6, T7, T8, T9, T10, T11, T12, T13, T14, T15, T16, T17, T18, T19, T20, T21, T22, T23, T24, T25, T26, T27, T28, T29, T30, T31);

    open spec fn spec_join(self, other: (T30, T31)) -> (T1, T2, T3, T4, T5, T6, T7, T8, T9, T10, T11, T12, T13, T14, T15, T16, T17, T18, T19, T20, T21, T22, T23, T24, T25, T26, T27, T28, T29, T30, T31) {
        (self.0, self.1, self.2, self.3, self.4, self.5, self.6, self.7, self.8, self.9, self.10, self.11, self.12, self.13, self.14, self.15, self.16, self.17, self.18, self.19, self.20, self.21, self.22, self.23, self.24, self.25, self.26, self.27, self.28, other.0, other.1)
    }

    fn join(self, other: (T30, T31)) -> (r: (T1, T2, T3, T4, T5, T6, T7, T8, T9, T10, T11, T12, T13, T14, T15, T16, T17, T18, T19, T20, T21, T22, T23, T24, T25, T26, T27, T28, T29, T30, T31)) {
        (self.0, self.1, self.2, self.3, self.4, self.5, self.6, self.7, self.8, self.9, self.10, self.11, self.12, self.13, self.14, self.15, self.16, self.17, self.18, self.19, self.20, self.21, self.22, self.23, self.24, self.25, self.26, self.27, self.28, other.0, other.1)
    }

    proof fn lemma_join_arity(self, other: (T30, T31)) {
    }
}

impl<T1, T2, T3, T4, T5, T6, T7, T8, T9, T10, T11, T12, T13, T14, T15, T16, T17, T18, T19, T20, T21, T22, T23, T24, T25, T26, T27, T28, T29, T30, T31> JoinableTuple<(T31,)> for (T1, T2, T3, T4, T5, T6, T7, T8, T9, T10, T11, T12, T13, T14, T15, T16, T17, T18, T19, T20, T21, T22, T23, T24, T25, T26, T27, T28, T29, T30) {
    type Join = (T1, T2, T3, T4, T5, T6, T7, T8, T9, T10, T11, T12, T13, T14, T15, T16, T17, T18, T19, T20, T21, T22, T23, T24, T25, T26, T27, T28, T29, T30, T31);

    open spec fn spec_join(self, other: (T31,)) -> (T1, T2, T3, T4, T5, T6, T7, T8, T9, T10, T11, T12, T13, T14, T15, T16, T17, T18, T19, T20, T21, T22, T23, T24, T25, T26, T27, T28, T29, T30, T31) {
        (self.0, self.1, self.2, self.3, self.4, self.5, self.6, self.7, self.8, self.9, self.10, self.11, self.12, self.13, self.14, self.15, self.16, self.17, self.18, self.19, self.20, self.21, self.22, self.23, self.24, self.25, self.26, self.27, self.28, self.29, other.0)
    }

    fn join(self, other: (T31,)) -> (r: (T1, T2, T3, T4, T5, T6, T7, T8, T9, T10, T11, T12, T13, T14, T15, T16, T17, T18, T19, T20, T21, T22, T23, T24, T25, T26, T27, T28, T29, T30, T31)) {
        (self.0, self.1, self.2, self.3, self.4, self.5, self.6, self.7, self.8, self.9, self.10, self.11, self.12, self.13, self.14, self.15, self.16, self.17, self.18, self.19, self.20, self.21, self.22, self.23, self.24, self.25, self.26, self.27, self.28, self.29, other.0)
    }

    proof fn lemma_join_arity(self, other: (T31,)) {
    }
}

impl<T1, T2, T3, T4, T5, T6, T7, T8, T9, T10, T11, T12, T13, T14, T15, T16, T17, T18, T19, T20, T21, T22, T23, T24, T25, T26, T27, T28, T29, T30, T31> JoinableTuple<()> for (T1, T2, T3, T4, T5, T6, T7, T8, T9, T10, T11, T12, T13, T14, T15, T16, T17, T18, T19, T20, T21, T22, T23, T24, T25, T26, T27, T28, T29, T30, T31) {
    type Join = (T1, T2, T3, T4, T5, T6, T7, T8, T9, T10, T11, T12, T13, T14, T15, T16, T17, T18, T19, T20, T21, T22, T23, T24, T25, T26, T27, T28, T29, T30, T31);

    open spec fn spec_join(self, other: ()) -> (T1, T2, T3, T4, T5, T6, T7, T8, T9, T10, T11, T12, T13, T14, T15, T16, T17, T18, T19, T20, T21, T22, T23, T24, T25, T26, T27, T28, T29, T30, T31) {
        (self.0, self.1, self.2, self.3, self.4, self.5, self.6, self.7, self.8, self.9, self.10, self.11, self.12, self.13, self.14, self.15, self.16, self.17, self.18, self.19, self.20, self.21, self.22, self.23, self.24, self.25, self.26, self.27, self.28, self.29, self.30)
    }

    fn join(self, other: ()) -> (r: (T1, T2, T3, T4, T5, T6, T7, T8, T9, T10, T11, T12, T13, T14, T15, T16, T17, T18, T19, T20, T21, T22, T23, T24, T25, T26, T27, T28, T29, T30, T31)) {
        (self.0, self.1, self.2, self.3, self.4, self.5, self.6, self.7, self.8, self.9, self.10, self.11, self.12, self.13, self.14, self.15, self.16, self.17, self.18, self.19, self.20, self.21, self.22, self.23, self.24, self.25, self.26, self.27, self.28, self.29, self.30)
    }

    proof fn lemma_join_arity(self, other: ()) {
    }
}

impl<T1, T2, T3, T4, T5, T6, T7, T8, T9, T10, T11, T12, T13, T14, T15, T16, T17, T18, T19, T20, T21, T22, T23, T24, T25, T26, T27, T28, T29, T30, T31, T32> Sealed for (T1, T2, T3, T4, T5, T6, T7, T8, T9, T10, T11, T12, T13, T14, T15, T16, T17, T18, T19, T20, T21, T22, T23, T24, T25, T26, T27, T28, T29, T30, T31, T32) {}

impl<T1, T2, T3, T4, T5, T6, T7, T8, T9, T10, T11, T12, T13, T14, T15, T16, T17, T18, T19, T20, T21, T22, T23, T24, T25, T26, T27, T28, T29, T30, T31, T32> DynTuple for (T1, T2, T3, T4, T5, T6, T7, T8, T9, T10, T11, T12, T13, T14, T15, T16, T17, T18, T19, T20, T21, T22, T23, T24, T25, T26, T27, T28, T29, T30, T31, T32) {
    open spec fn spec_arity(&self) -> nat {
        32
    }

    fn arity(&self) -> (r: usize) {
        32
    }
}

impl<T1, T2, T3, T4, T5, T6, T7, T8, T9, T10, T11, T12, T13, T14, T15, T16, T17, T18, T19, T20, T21, T22, T23, T24, T25, T26, T27, T28, T29, T30, T31, T32> Tuple for (T1, T2, T3, T4, T5, T6, T7, T8, T9, T10, T11, T12, T13, T14, T15, T16, T17, T18, T19, T20, T21, T22, T23, T24, T25, T26, T27, T28, T29, T30, T31, T32) {
    const ARITY: usize = 32;

    open spec fn spec_type_arity() -> nat {
        32
    }

    proof fn lemma_arity(&self) {
    }

    proof fn lemma_type_arity() {
    }
}

impl<T1, T2, T3, T4, T5, T6, T7, T8, T9, T10, T11, T12, T13, T14, T15, T16, T17, T18, T19, T20, T21, T22, T23, T24, T25, T26, T27, T28, T29, T30, T31, T32> NonEmptyTuple for (T1, T2, T3, T4, T5, T6, T7, T8, T9, T10, T11, T12, T13, T14, T15, T16, T17, T18, T19, T20, T21, T22, T23, T24, T25, T26, T27, T28, T29, T30, T31, T32) {
    type Head = T1;

    type Tail = T32;

    type TruncateHead = (T2, T3, T4, T5, T6, T7, T8, T9, T10, T11, T12, T13, T14, T15, T16, T17, T18, T19, T20, T21, T22, T23, T24, T25, T26, T27, T28, T29, T30, T31, T32);

    type TruncateTail = (T1, T2, T3, T4, T5, T6, T7, T8, T9, T10, T11, T12, T13, T14, T15, T16, T17, T18, T19, T20, T21, T22, T23, T24, T25, T26, T27, T28, T29, T30, T31);

    open spec fn spec_head(&self) -> T1 {
        self.0
    }

    open spec fn spec_tail(&self) -> T32 {
        self.31
    }

    open spec fn spec_with_head(self, value: T1) -> (T1, T2, T3, T4, T5, T6, T7, T8, T9, T10, T11, T12, T13, T14, T15, T16, T17, T18, T19, T20, T21, T22, T23, T24, T25, T26, T27, T28, T29, T30, T31, T32) {
        (value, self.1, self.2, self.3, self.4, self.5, self.6, self.7, self.8, self.9, self.10, self.11, self.12, self.13, self.14, self.15, self.16, self.17, self.18, self.19, self.20, self.21, self.22, self.23, self.24, self.25, self.26, self.27, self.28, self.29, self.30, self.31)
    }

    open spec fn spec_with_tail(self, value: T32) -> (T1, T2, T3, T4, T5, T6, T7, T8, T9, T10, T11, T12, T13, T14, T15, T16, T17, T18, T19, T20, T21, T22, T23, T24, T25, T26, T27, T28, T29, T30, T31, T32) {
        (self.0, self.1, self.2, self.3, self.4, self.5, self.6, self.7, self.8, self.9, self.10, self.11, self.12, self.13, self.14, self.15, self.16, self.17, self.18, self.19, self.20, self.21, self.22, self.23, self.24, self.25, self.26, self.27, self.28, self.29, self.30, value)
    }

    open spec fn spec_truncate_head(self) -> (T1, (T2, T3, T4, T5, T6, T7, T8, T9, T10, T11, T12, T13, T14, T15, T16, T17, T18, T19, T20, T21, T22, T23, T24, T25, T26, T27, T28, T29, T30, T31, T32)) {
        (self.0, (self.1, self.2, self.3, self.4, self.5, self.6, self.7, self.8, self.9, self.10, self.11, self.12, self.13, self.14, self.15, self.16, self.17, self.18, self.19, self.20, self.21, self.22, self.23, self.24, self.25, self.26, self.27, self.28, self.29, self.30, self.31))
    }

    open spec fn spec_truncate_tail(self) -> ((T1, T2, T3, T4, T5, T6, T7, T8, T9, T10, T11, T12, T13, T14, T15, T16, T17, T18, T19, T20, T21, T22, T23, T24, T25, T26, T27, T28, T29, T30, T31), T32) {
        ((self.0, self.1, self.2, self.3, self.4, self.5, self.6, self.7, self.8, self.9, self.10, self.11, self.12, self.13, self.14, self.15, self.16, self.17, self.18, self.19, self.20, self.21, self.22, self.23, self.24, self.25, self.26, self.27, self.28, self.29, self.30), self.31)
    }

    fn head(&self) -> (r: &T1) {
        &self.0
    }

    fn head_mut(&mut self) -> (r: &mut T1) {
        &mut self.0
    }

    fn tail(&self) -> (r: &T32) {
        &self.31
    }

    fn tail_mut(&mut self) -> (r: &mut T32) {
        &mut self.31
    }

    fn truncate_head(self) -> (r: (T1, (T2, T3, T4, T5, T6, T7, T8, T9, T10, T11, T12, T13, T14, T15, T16, T17, T18, T19, T20, T21, T22, T23, T24, T25, T26, T27, T28, T29, T30, T31, T32))) {
        (self.0, (self.1, self.2, self.3, self.4, self.5, self.6, self.7, self.8, self.9, self.10, self.11, self.12, self.13, self.14, self.15, self.16, self.17, self.18, self.19, self.20, self.21, self.22, self.23, self.24, self.25, self.26, self.27, self.28, self.29, self.30, self.31))
    }

    fn truncate_tail(self) -> (r: ((T1, T2, T3, T4, T5, T6, T7, T8, T9, T10, T11, T12, T13, T14, T15, T16, T17, T18, T19, T20, T21, T22, T23, T24, T25, T26, T27, T28, T29, T30, T31), T32)) {
        ((self.0, self.1, self.2, self.3, self.4, self.5, self.6, self.7, self.8, self.9, self.10, self.11, self.12, self.13, self.14, self.15, self.16, self.17, self.18, self.19, self.20, self.21, self.22, self.23, self.24, self.25, self.26, self.27, self.28, self.29, self.30), self.31)
    }

    proof fn lemma_truncate_head(self) {
    }

    proof fn lemma_truncate_tail(self) {
    }
}

impl<T1, T2, T3, T4, T5, T6, T7, T8, T9, T10, T11, T12, T13, T14, T15, T16, T17, T18, T19, T20, T21, T22, T23, T24, T25, T26, T27, T28, T29, T30, T31, T32> NonUnaryTuple for (T1, T2, T3, T4, T5, T6, T7, T8, T9, T10, T11, T12, T13, T14, T15, T16, T17, T18, T19, T20, T21, T22, T23, T24, T25, T26, T27, T28, T29, T30, T31, T32) {
    type TruncateHeadTail = (T2, T3, T4, T5, T6, T7, T8, T9, T10, T11, T12, T13, T14, T15, T16, T17, T18, T19, T20, T21, T22, T23, T24, T25, T26, T27, T28, T29, T30, T31);

    open spec fn spec_truncate_head_tail(self) -> (T1, (T2, T3, T4, T5, T6, T7, T8, T9, T10, T11, T12, T13, T14, T15, T16, T17, T18, T19, T20, T21, T22, T23, T24, T25, T26, T27, T28, T29, T30, T31), T32) {
        (self.0, (self.1, self.2, self.3, self.4, self.5, self.6, self.7, self.8, self.9, self.10, self.11, self.12, self.13, self.14, self.15, self.16, self.17, self.18, self.19, self.20, self.21, self.22, self.23, self.24, self.25, self.26, self.27, self.28, self.29, self.30), self.31)
    }

    fn head_tail(&self) -> (r: (&T1, &T32)) {
        (&self.0, &self.31)
    }

    fn head_tail_mut(&mut self) -> (r: (&mut T1, &mut T32)) {
        (&mut self.0, &mut self.31)
    }

    fn truncate_head_tail(self) -> (r: (T1, (T2, T3, T4, T5, T6, T7, T8, T9, T10, T11, T12, T13, T14, T15, T16, T17, T18, T19, T20, T21, T22, T23, T24, T25, T26, T27, T28, T29, T30, T31), T32)) {
        (self.0, (self.1, self.2, self.3, self.4, self.5, self.6, self.7, self.8, self.9, self.10, self.11, self.12, self.13, self.14, self.15, self.16, self.17, self.18, self.19, self.20, self.21, self.22, self.23, self.24, self.25, self.26, self.27, self.28, self.29, self.30), self.31)
    }

    proof fn lemma_truncate_head_tail(self) {
    }
}

impl<T1, T2, T3, T4, T5, T6, T7, T8, T9, T10, T11, T12, T13, T14, T15, T16, T17, T18, T19, T20, T21, T22, T23, T24, T25, T26, T27, T28, T29, T30, T31, T32> IndexableTuple<0> for (T1, T2, T3, T4, T5, T6, T7, T8, T9, T10, T11, T12, T13, T14, T15, T16, T17, T18, T19, T20, T21, T22, T23, T24, T25, T26, T27, T28, T29, T30, T31, T32) {
    type Value = T1;

    open spec fn spec_index(&self) -> T1 {
        self.0
    }

    open spec fn spec_with_index(self, value: T1) -> (T1, T2, T3, T4, T5, T6, T7, T8, T9, T10, T11, T12, T13, T14, T15, T16, T17, T18, T19, T20, T21, T22, T23, T24, T25, T26, T27, T28, T29, T30, T31, T32) {
        (value, self.1, self.2, self.3, self.4, self.5, self.6, self.7, self.8, self.9, self.10, self.11, self.12, self.13, self.14, self.15, self.16, self.17, self.18, self.19, self.20, self.21, self.22, self.23, self.24, self.25, self.26, self.27, self.28, self.29, self.30, self.31)
    }

    fn index_ref(&self) -> (r: &T1) {
        &self.0
    }

    fn index_mut(&mut self) -> (r: &mut T1) {
        &mut self.0
    }

    fn into_index(self) -> (r: T1) {
        self.0
    }

    proof fn lemma_index_in_range(&self) {
    }
}

impl<T1, T2, T3, T4, T5, T6, T7, T8, T9, T10, T11, T12, T13, T14, T15, T16, T17, T18, T19, T20, T21, T22, T23, T24, T25, T26, T27, T28, T29, T30, T31, T32> IndexableTuple<1> for (T1, T2, T3, T4, T5, T6, T7, T8, T9, T10, T11, T12, T13, T14, T15, T16, T17, T18, T19, T20, T21, T22, T23, T24, T25, T26, T27, T28, T29, T30, T31, T32) {
    type Value = T2;

    open spec fn spec_index(&self) -> T2 {
        self.1
    }

    open spec fn spec_with_index(self, value: T2) -> (T1, T2, T3, T4, T5, T6, T7, T8, T9, T10, T11, T12, T13, T14, T15, T16, T17, T18, T19, T20, T21, T22, T23, T24, T25, T26, T27, T28, T29, T30, T31, T32) {
        (self.0, value, self.2, self.3, self.4, self.5, self.6, self.7, self.8, self.9, self.10, self.11, self.12, self.13, self.14, self.15, self.16, self.17, self.18, self.19, self.20, self.21, self.22, self.23, self.24, self.25, self.26, self.27, self.28, self.29, self.30, self.31)
    }

    fn index_ref(&self) -> (r: &T2) {
        &self.1
    }

    fn index_mut(&mut self) -> (r: &mut T2) {
        &mut self.1
    }

    fn into_index(self) -> (r: T2) {
        self.1
    }

    proof fn lemma_index_in_range(&self) {
    }
}

impl<T1, T2, T3, T4, T5, T6, T7, T8, T9, T10, T11, T12, T13, T14, T15, T16, T17, T18, T19, T20, T21, T22, T23, T24, T25, T26, T27, T28, T29, T30, T31, T32> IndexableTuple<2> for (T1, T2, T3, T4, T5, T6, T7, T8, T9, T10, T11, T12, T13, T14, T15, T16, T17, T18, T19, T20, T21, T22, T23, T24, T25, T26, T27, T28, T29, T30, T31, T32) {
    type Value = T3;

    open spec fn spec_index(&self) -> T3 {
        self.2
    }

    open spec fn spec_with_index(self, value: T3) -> (T1, T2, T3, T4, T5, T6, T7, T8, T9, T10, T11, T12, T13, T14, T15, T16, T17, T18, T19, T20, T21, T22, T23, T24, T25, T26, T27, T28, T29, T30, T31, T32) {
        (self.0, self.1, value, self.3, self.4, self.5, self.6, self.7, self.8, self.9, self.10, self.11, self.12, self.13, self.14, self.15, self.16, self.17, self.18, self.19, self.20, self.21, self.22, self.23, self.24, self.25, self.26, self.27, self.28, self.29, self.30, self.31)
    }

    fn index_ref(&self) -> (r: &T3) {
        &self.2
    }

    fn index_mut(&mut self) -> (r: &mut T3) {
        &mut self.2
    }

    fn into_index(self) -> (r: T3) {
        self.2
    }

    proof fn lemma_index_in_range(&self) {
    }
}

impl<T1, T2, T3, T4, T5, T6, T7, T8, T9, T10, T11, T12, T13, T14, T15, T16, T17, T18, T19, T20, T21, T22, T23, T24, T25, T26, T27, T28, T29, T30, T31, T32> IndexableTuple<3> for (T1, T2, T3, T4, T5, T6, T7, T8, T9, T10, T11, T12, T13, T14, T15, T16, T17, T18, T19, T20, T21, T22, T23, T24, T25, T26, T27, T28, T29, T30, T31, T32) {
    type Value = T4;

    open spec fn spec_index(&self) -> T4 {
        self.3
    }

    open spec fn spec_with_index(self, value: T4) -> (T1, T2, T3, T4, T5, T6, T7, T8, T9, T10, T11, T12, T13, T14, T15, T16, T17, T18, T19, T20, T21, T22, T23, T24, T25, T26, T27, T28, T29, T30, T31, T32) {
        (self.0, self.1, self.2, value, self.4, self.5, self.6, self.7, self.8, self.9, self.10, self.11, self.12, self.13, self.14, self.15, self.16, self.17, self.18, self.19, self.20, self.21, self.22, self.23, self.24, self.25, self.26, self.27, self.28, self.29, self.30, self.31)
    }

    fn index_ref(&self) -> (r: &T4) {
        &self.3
    }

    fn index_mut(&mut self) -> (r: &mut T4) {
        &mut self.3
    }

    fn into_index(self) -> (r: T4) {
        self.3
    }

    proof fn lemma_index_in_range(&self) {
    }
}

impl<T1, T2, T3, T4, T5, T6, T7, T8, T9, T10, T11, T12, T13, T14, T15, T16, T17, T18, T19, T20, T21, T22, T23, T24, T25, T26, T27, T28, T29, T30, T31, T32> IndexableTuple<4> for (T1, T2, T3, T4, T5, T6, T7, T8, T9, T10, T11, T12, T13, T14, T15, T16, T17, T18, T19, T20, T21, T22, T23, T24, T25, T26, T27, T28, T29, T30, T31, T32) {
    type Value = T5;

    open spec fn spec_index(&self) -> T5 {
        self.4
    }

    open spec fn spec_with_index(self, value: T5) -> (T1, T2, T3, T4, T5, T6, T7, T8, T9, T10, T11, T12, T13, T14, T15, T16, T17, T18, T19, T20, T21, T22, T23, T24, T25, T26, T27, T28, T29, T30, T31, T32) {
        (self.0, self.1, self.2, self.3, value, self.5, self.6, self.7, self.8, self.9, self.10, self.11, self.12, self.13, self.14, self.15, self.16, self.17, self.18, self.19, self.20, self.21, self.22, self.23, self.24, self.25, self.26, self.27, self.28, self.29, self.30, self.31)
    }

    fn index_ref(&self) -> (r: &T5) {
        &self.4
    }

    fn index_mut(&mut self) -> (r: &mut T5) {
        &mut self.4
    }

    fn into_index(self) -> (r: T5) {
        self.4
    }

    proof fn lemma_index_in_range(&self) {
    }
}

impl<T1, T2, T3, T4, T5, T6, T7, T8, T9, T10, T11, T12, T13, T14, T15, T16, T17, T18, T19, T20, T21, T22, T23, T24, T25, T26, T27, T28, T29, T30, T31, T32> IndexableTuple<5> for (T1, T2, T3, T4, T5, T6, T7, T8, T9, T10, T11, T12, T13, T14, T15, T16, T17, T18, T19, T20, T21, T22, T23, T24, T25, T26, T27, T28, T29, T30, T31, T32) {
    type Value = T6;

    open spec fn spec_index(&self) -> T6 {
        self.5
    }

    open spec fn spec_with_index(self, value: T6) -> (T1, T2, T3, T4, T5, T6, T7, T8, T9, T10, T11, T12, T13, T14, T15, T16, T17, T18, T19, T20, T21, T22, T23, T24, T25, T26, T27, T28, T29, T30, T31, T32) {
        (self.0, self.1, self.2, self.3, self.4, value, self.6, self.7, self.8, self.9, self.10, self.11, self.12, self.13, self.14, self.15, self.16, self.17, self.18, self.19, self.20, self.21, self.22, self.23, self.24, self.25, self.26, self.27, self.28, self.29, self.30, self.31)
    }

    fn index_ref(&self) -> (r: &T6) {
        &self.5
    }

    fn index_mut(&mut self) -> (r: &mut T6) {
        &mut self.5
    }

    fn into_index(self) -> (r: T6) {
        self.5
    }

    proof fn lemma_index_in_range(&self) {
    }
}

impl<T1, T2, T3, T4, T5, T6, T7, T8, T9, T10, T11, T12, T13, T14, T15, T16, T17, T18, T19, T20, T21, T22, T23, T24, T25, T26, T27, T28, T29, T30, T31, T32> IndexableTuple<6> for (T1, T2, T3, T4, T5, T6, T7, T8, T9, T10, T11, T12, T13, T14, T15, T16, T17, T18, T19, T20, T21, T22, T23, T24, T25, T26, T27, T28, T29, T30, T31, T32) {
    type Value = T7;

    open spec fn spec_index(&self) -> T7 {
        self.6
    }

    open spec fn spec_with_index(self, value: T7) -> (T1, T2, T3, T4, T5, T6, T7, T8, T9, T10, T11, T12, T13, T14, T15, T16, T17, T18, T19, T20, T21, T22, T23, T24, T25, T26, T27, T28, T29, T30, T31, T32) {
        (self.0, self.1, self.2, self.3, self.4, self.5, value, self.7, self.8, self.9, self.10, self.11, self.12, self.13, self.14, self.15, self.16, self.17, self.18, self.19, self.20, self.21, self.22, self.23, self.24, self.25, self.26, self.27, self.28, self.29, self.30, self.31)
    }

    fn index_ref(&self) -> (r: &T7) {
        &self.6
    }

    fn index_mut(&mut self) -> (r: &mut T7) {
        &mut self.6
    }

    fn into_index(self) -> (r: T7) {
        self.6
    }

    proof fn lemma_index_in_range(&self) {
    }
}

impl<T1, T2, T3, T4, T5, T6, T7, T8, T9, T10, T11, T12, T13, T14, T15, T16, T17, T18, T19, T20, T21, T22, T23, T24, T25, T26, T27, T28, T29, T30, T31, T32> IndexableTuple<7> for (T1, T2, T3, T4, T5, T6, T7, T8, T9, T10, T11, T12, T13, T14, T15, T16, T17, T18, T19, T20, T21, T22, T23, T24, T25, T26, T27, T28, T29, T30, T31, T32) {
    type Value = T8;

    open spec fn spec_index(&self) -> T8 {
        self.7
    }

    open spec fn spec_with_index(self, value: T8) -> (T1, T2, T3, T4, T5, T6, T7, T8, T9, T10, T11, T12, T13, T14, T15, T16, T17, T18, T19, T20, T21, T22, T23, T24, T25, T26, T27, T28, T29, T30, T31, T32) {
        (self.0, self.1, self.2, self.3, self.4, self.5, self.6, value, self.8, self.9, self.10, self.11, self.12, self.13, self.14, self.15, self.16, self.17, self.18, self.19, self.20, self.21, self.22, self.23, self.24, self.25, self.26, self.27, self.28, self.29, self.30, self.31)
    }

    fn index_ref(&self) -> (r: &T8) {
        &self.7
    }

    fn index_mut(&mut self) -> (r: &mut T8) {
        &mut self.7
    }

    fn into_index(self) -> (r: T8) {
        self.7
    }

    proof fn lemma_index_in_range(&self) {
    }
}

impl<T1, T2, T3, T4, T5, T6, T7, T8, T9, T10, T11, T12, T13, T14, T15, T16, T17, T18, T19, T20, T21, T22, T23, T24, T25, T26, T27, T28, T29, T30, T31, T32> IndexableTuple<8> for (T1, T2, T3, T4, T5, T6, T7, T8, T9, T10, T11, T12, T13, T14, T15, T16, T17, T18, T19, T20, T21, T22, T23, T24, T25, T26, T27, T28, T29, T30, T31, T32) {
    type Value = T9;

    open spec fn spec_index(&self) -> T9 {
        self.8
    }

    open spec fn spec_with_index(self, value: T9) -> (T1, T2, T3, T4, T5, T6, T7, T8, T9, T10, T11, T12, T13, T14, T15, T16, T17, T18, T19, T20, T21, T22, T23, T24, T25, T26, T27, T28, T29, T30, T31, T32) {
        (self.0, self.1, self.2, self.3, self.4, self.5, self.6, self.7, value, self.9, self.10, self.11, self.12, self.13, self.14, self.15, self.16, self.17, self.18, self.19, self.20, self.21, self.22, self.23, self.24, self.25, self.26, self.27, self.28, self.29, self.30, self.31)
    }

    fn index_ref(&self) -> (r: &T9) {
        &self.8
    }

    fn index_mut(&mut self) -> (r: &mut T9) {
        &mut self.8
    }

    fn into_index(self) -> (r: T9) {
        self.8
    }

    proof fn lemma_index_in_range(&self) {
    }
}

impl<T1, T2, T3, T4, T5, T6, T7, T8, T9, T10, T11, T12, T13, T14, T15, T16, T17, T18, T19, T20, T21, T22, T23, T24, T25, T26, T27, T28, T29, T30, T31, T32> IndexableTuple<9> for (T1, T2, T3, T4, T5, T6, T7, T8, T9, T10, T11, T12, T13, T14, T15, T16, T17, T18, T19, T20, T21, T22, T23, T24, T25, T26, T27, T28, T29, T30, T31, T32) {
    type Value = T10;

    open spec fn spec_index(&self) -> T10 {
        self.9
    }

    open spec fn spec_with_index(self, value: T10) -> (T1, T2, T3, T4, T5, T6, T7, T8, T9, T10, T11, T12, T13, T14, T15, T16, T17, T18, T19, T20, T21, T22, T23, T24, T25, T26, T27, T28, T29, T30, T31, T32) {
        (self.0, self.1, self.2, self.3, self.4, self.5, self.6, self.7, self.8, value, self.10, self.11, self.12, self.13, self.14, self.15, self.16, self.17, self.18, self.19, self.20, self.21, self.22, self.23, self.24, self.25, self.26, self.27, self.28, self.29, self.30, self.31)
    }

    fn index_ref(&self) -> (r: &T10) {
        &self.9
    }

    fn index_mut(&mut self) -> (r: &mut T10) {
        &mut self.9
    }

    fn into_index(self) -> (r: T10) {
        self.9
    }

    proof fn lemma_index_in_range(&self) {
    }
}

impl<T1, T2, T3, T4, T5, T6, T7, T8, T9, T10, T11, T12, T13, T14, T15, T16, T17, T18, T19, T20, T21, T22, T23, T24, T25, T26, T27, T28, T29, T30, T31, T32> IndexableTuple<10> for (T1, T2, T3, T4, T5, T6, T7, T8, T9, T10, T11, T12, T13, T14, T15, T16, T17, T18, T19, T20, T21, T22, T23, T24, T25, T26, T27, T28, T29, T30, T31, T32) {
    type Value = T11;

    open spec fn spec_index(&self) -> T11 {
        self.10
    }

    open spec fn spec_with_index(self, value: T11) -> (T1, T2, T3, T4, T5, T6, T7, T8, T9, T10, T11, T12, T13, T14, T15, T16, T17, T18, T19, T20, T21, T22, T23, T24, T25, T26, T27, T28, T29, T30, T31, T32) {
        (self.0, self.1, self.2, self.3, self.4, self.5, self.6, self.7, self.8, self.9, value, self.11, self.12, self.13, self.14, self.15, self.16, self.17, self.18, self.19, self.20, self.21, self.22, self.23, self.24, self.25, self.26, self.27, self.28, self.29, self.30, self.31)
    }

    fn index_ref(&self) -> (r: &T11) {
        &self.10
    }

    fn index_mut(&mut self) -> (r: &mut T11) {
        &mut self.10
    }

    fn into_index(self) -> (r: T11) {
        self.10
    }

    proof fn lemma_index_in_range(&self) {
    }
}

impl<T1, T2, T3, T4, T5, T6, T7, T8, T9, T10, T11, T12, T13, T14, T15, T16, T17, T18, T19, T20, T21, T22, T23, T24, T25, T26, T27, T28, T29, T30, T31, T32> IndexableTuple<11> for (T1, T2, T3, T4, T5, T6, T7, T8, T9, T10, T11, T12, T13, T14, T15, T16, T17, T18, T19, T20, T21, T22, T23, T24, T25, T26, T27, T28, T29, T30, T31, T32) {
    type Value = T12;

    open spec fn spec_index(&self) -> T12 {
        self.11
    }

    open spec fn spec_with_index(self, value: T12) -> (T1, T2, T3, T4, T5, T6, T7, T8, T9, T10, T11, T12, T13, T14, T15, T16, T17, T18, T19, T20, T21, T22, T23, T24, T25, T26, T27, T28, T29, T30, T31, T32) {
        (self.0, self.1, self.2, self.3, self.4, self.5, self.6, self.7, self.8, self.9, self.10, value, self.12, self.13, self.14, self.15, self.16, self.17, self.18, self.19, self.20, self.21, self.22, self.23, self.24, self.25, self.26, self.27, self.28, self.29, self.30, self.31)
    }

    fn index_ref(&self) -> (r: &T12) {
        &self.11
    }

    fn index_mut(&mut self) -> (r: &mut T12) {
        &mut self.11
    }

    fn into_index(self) -> (r: T12) {
        self.11
    }

    proof fn lemma_index_in_range(&self) {
    }
}

impl<T1, T2, T3, T4, T5, T6, T7, T8, T9, T10, T11, T12, T13, T14, T15, T16, T17, T18, T19, T20, T21, T22, T23, T24, T25, T26, T27, T28, T29, T30, T31, T32> IndexableTuple<12> for (T1, T2, T3, T4, T5, T6, T7, T8, T9, T10, T11, T12, T13, T14, T15, T16, T17, T18, T19, T20, T21, T22, T23, T24, T25, T26, T27, T28, T29, T30, T31, T32) {
    type Value = T13;

    open spec fn spec_index(&self) -> T13 {
        self.12
    }

    open spec fn spec_with_index(self, value: T13) -> (T1, T2, T3, T4, T5, T6, T7, T8, T9, T10, T11, T12, T13, T14, T15, T16, T17, T18, T19, T20, T21, T22, T23, T24, T25, T26, T27, T28, T29, T30, T31, T32) {
        (self.0, self.1, self.2, self.3, self.4, self.5, self.6, self.7, self.8, self.9, self.10, self.11, value, self.13, self.14, self.15, self.16, self.17, self.18, self.19, self.20, self.21, self.22, self.23, self.24, self.25, self.26, self.27, self.28, self.29, self.30, self.31)
    }

    fn index_ref(&self) -> (r: &T13) {
        &self.12
    }

    fn index_mut(&mut self) -> (r: &mut T13) {
        &mut self.12
    }

    fn into_index(self) -> (r: T13) {
        self.12
    }

    proof fn lemma_index_in_range(&self) {
    }
}

impl<T1, T2, T3, T4, T5, T6, T7, T8, T9, T10, T11, T12, T13, T14, T15, T16, T17, T18, T19, T20, T21, T22, T23, T24, T25, T26, T27, T28, T29, T30, T31, T32> IndexableTuple<13> for (T1, T2, T3, T4, T5, T6, T7, T8, T9, T10, T11, T12, T13, T14, T15, T16, T17, T18, T19, T20, T21, T22, T23, T24, T25, T26, T27, T28, T29, T30, T31, T32) {
    type Value = T14;

    open spec fn spec_index(&self) -> T14 {
        self.13
    }

    open spec fn spec_with_index(self, value: T14) -> (T1, T2, T3, T4, T5, T6, T7, T8, T9, T10, T11, T12, T13, T14, T15, T16, T17, T18, T19, T20, T21, T22, T23, T24, T25, T26, T27, T28, T29, T30, T31, T32) {
        (self.0, self.1, self.2, self.3, self.4, self.5, self.6, self.7, self.8, self.9, self.10, self.11, self.12, value, self.14, self.15, self.16, self.17, self.18, self.19, self.20, self.21, self.22, self.23, self.24, self.25, self.26, self.27, self.28, self.29, self.30, self.31)
    }

    fn index_ref(&self) -> (r: &T14) {
        &self.13
    }

    fn index_mut(&mut self) -> (r: &mut T14) {
        &mut self.13
    }

    fn into_index(self) -> (r: T14) {
        self.13
    }

    proof fn lemma_index_in_range(&self) {
    }
}

impl<T1, T2, T3, T4, T5, T6, T7, T8, T9, T10, T11, T12, T13, T14, T15, T16, T17, T18, T19, T20, T21, T22, T23, T24, T25, T26, T27, T28, T29, T30, T31, T32> IndexableTuple<14> for (T1, T2, T3, T4, T5, T6, T7, T8, T9, T10, T11, T12, T13, T14, T15, T16, T17, T18, T19, T20, T21, T22, T23, T24, T25, T26, T27, T28, T29, T30, T31, T32) {
    type Value = T15;

    open spec fn spec_index(&self) -> T15 {
        self.14
    }

    open spec fn spec_with_index(self, value: T15) -> (T1, T2, T3, T4, T5, T6, T7, T8, T9, T10, T11, T12, T13, T14, T15, T16, T17, T18, T19, T20, T21, T22, T23, T24, T25, T26, T27, T28, T29, T30, T31, T32) {
        (self.0, self.1, self.2, self.3, self.4, self.5, self.6, self.7, self.8, self.9, self.10, self.11, self.12, self.13, value, self.15, self.16, self.17, self.18, self.19, self.20, self.21, self.22, self.23, self.24, self.25, self.26, self.27, self.28, self.29, self.30, self.31)
    }

    fn index_ref(&self) -> (r: &T15) {
        &self.14
    }

    fn index_mut(&mut self) -> (r: &mut T15) {
        &mut self.14
    }

    fn into_index(self) -> (r: T15) {
        self.14
    }

    proof fn lemma_index_in_range(&self) {
    }
}

impl<T1, T2, T3, T4, T5, T6, T7, T8, T9, T10, T11, T12, T13, T14, T15, T16, T17, T18, T19, T20, T21, T22, T23, T24, T25, T26, T27, T28, T29, T30, T31, T32> IndexableTuple<15> for (T1, T2, T3, T4, T5, T6, T7, T8, T9, T10, T11, T12, T13, T14, T15, T16, T17, T18, T19, T20, T21, T22, T23, T24, T25, T26, T27, T28, T29, T30, T31, T32) {
    type Value = T16;

    open spec fn spec_index(&self) -> T16 {
        self.15
    }

    open spec fn spec_with_index(self, value: T16) -> (T1, T2, T3, T4, T5, T6, T7, T8, T9, T10, T11, T12, T13, T14, T15, T16, T17, T18, T19, T20, T21, T22, T23, T24, T25, T26, T27, T28, T29, T30, T31, T32) {
        (self.0, self.1, self.2, self.3, self.4, self.5, self.6, self.7, self.8, self.9, self.10, self.11, self.12, self.13, self.14, value, self.16, self.17, self.18, self.19, self.20, self.21, self.22, self.23, self.24, self.25, self.26, self.27, self.28, self.29, self.30, self.31)
    }

    fn index_ref(&self) -> (r: &T16) {
        &self.15
    }

    fn index_mut(&mut self) -> (r: &mut T16) {
        &mut self.15
    }

    fn into_index(self) -> (r: T16) {
        self.15
    }

    proof fn lemma_index_in_range(&self) {
    }
}

impl<T1, T2, T3, T4, T5, T6, T7, T8, T9, T10, T11, T12, T13, T14, T15, T16, T17, T18, T19, T20, T21, T22, T23, T24, T25, T26, T27, T28, T29, T30, T31, T32> IndexableTuple<16> for (T1, T2, T3, T4, T5, T6, T7, T8, T9, T10, T11, T12, T13, T14, T15, T16, T17, T18, T19, T20, T21, T22, T23, T24, T25, T26, T27, T28, T29, T30, T31, T32) {
    type Value = T17;

    open spec fn spec_index(&self) -> T17 {
        self.16
    }

    open spec fn spec_with_index(self, value: T17) -> (T1, T2, T3, T4, T5, T6, T7, T8, T9, T10, T11, T12, T13, T14, T15, T16, T17, T18, T19, T20, T21, T22, T23, T24, T25, T26, T27, T28, T29, T30, T31, T32) {
        (self.0, self.1, self.2, self.3, self.4, self.5, self.6, self.7, self.8, self.9, self.10, self.11, self.12, self.13, self.14, self.15, value, self.17, self.18, self.19, self.20, self.21, self.22, self.23, self.24, self.25, self.26, self.27, self.28, self.29, self.30, self.31)
    }

    fn index_ref(&self) -> (r: &T17) {
        &self.16
    }

    fn index_mut(&mut self) -> (r: &mut T17) {
        &mut self.16
    }

    fn into_index(self) -> (r: T17) {
        self.16
    }

    proof fn lemma_index_in_range(&self) {
    }
}

impl<T1, T2, T3, T4, T5, T6, T7, T8, T9, T10, T11, T12, T13, T14, T15, T16, T17, T18, T19, T20, T21, T22, T23, T24, T25, T26, T27, T28, T29, T30, T31, T32> IndexableTuple<17> for (T1, T2, T3, T4, T5, T6, T7, T8, T9, T10, T11, T12, T13, T14, T15, T16, T17, T18, T19, T20, T21, T22, T23, T24, T25, T26, T27, T28, T29, T30, T31, T32) {
    type Value = T18;

    open spec fn spec_index(&self) -> T18 {
        self.17
    }

    open spec fn spec_with_index(self, value: T18) -> (T1, T2, T3, T4, T5, T6, T7, T8, T9, T10, T11, T12, T13, T14, T15, T16, T17, T18, T19, T20, T21, T22, T23, T24, T25, T26, T27, T28, T29, T30, T31, T32) {
        (self.0, self.1, self.2, self.3, self.4, self.5, self.6, self.7, self.8, self.9, self.10, self.11, self.12, self.13, self.14, self.15, self.16, value, self.18, self.19, self.20, self.21, self.22, self.23, self.24, self.25, self.26, self.27, self.28, self.29, self.30, self.31)
    }

    fn index_ref(&self) -> (r: &T18) {
        &self.17
    }

    fn index_mut(&mut self) -> (r: &mut T18) {
        &mut self.17
    }

    fn into_index(self) -> (r: T18) {
        self.17
    }

    proof fn lemma_index_in_range(&self) {
    }
}

impl<T1, T2, T3, T4, T5, T6, T7, T8, T9, T10, T11, T12, T13, T14, T15, T16, T17, T18, T19, T20, T21, T22, T23, T24, T25, T26, T27, T28, T29, T30, T31, T32> IndexableTuple<18> for (T1, T2, T3, T4, T5, T6, T7, T8, T9, T10, T11, T12, T13, T14, T15, T16, T17, T18, T19, T20, T21, T22, T23, T24, T25, T26, T27, T28, T29, T30, T31, T32) {
    type Value = T19;

    open spec fn spec_index(&self) -> T19 {
        self.18
    }

    open spec fn spec_with_index(self, value: T19) -> (T1, T2, T3, T4, T5, T6, T7, T8, T9, T10, T11, T12, T13, T14, T15, T16, T17, T18, T19, T20, T21, T22, T23, T24, T25, T26, T27, T28, T29, T30, T31, T32) {
        (self.0, self.1, self.2, self.3, self.4, self.5, self.6, self.7, self.8, self.9, self.10, self.11, self.12, self.13, self.14, self.15, self.16, self.17, value, self.19, self.20, self.21, self.22, self.23, self.24, self.25, self.26, self.27, self.28, self.29, self.30, self.31)
    }

    fn index_ref(&self) -> (r: &T19) {
        &self.18
    }

    fn index_mut(&mut self) -> (r: &mut T19) {
        &mut self.18
    }

    fn into_index(self) -> (r: T19) {
        self.18
    }

    proof fn lemma_index_in_range(&self) {
    }
}

impl<T1, T2, T3, T4, T5, T6, T7, T8, T9, T10, T11, T12, T13, T14, T15, T16, T17, T18, T19, T20, T21, T22, T23, T24, T25, T26, T27, T28, T29, T30, T31, T32> IndexableTuple<19> for (T1, T2, T3, T4, T5, T6, T7, T8, T9, T10, T11, T12, T13, T14, T15, T16, T17, T18, T19, T20, T21, T22, T23, T24, T25, T26, T27, T28, T29, T30, T31, T32) {
    type Value = T20;

    open spec fn spec_index(&self) -> T20 {
        self.19
    }

    open spec fn spec_with_index(self, value: T20) -> (T1, T2, T3, T4, T5, T6, T7, T8, T9, T10, T11, T12, T13, T14, T15, T16, T17, T18, T19, T20, T21, T22, T23, T24, T25, T26, T27, T28, T29, T30, T31, T32) {
        (self.0, self.1, self.2, self.3, self.4, self.5, self.6, self.7, self.8, self.9, self.10, self.11, self.12, self.13, self.14, self.15, self.16, self.17, self.18, value, self.20, self.21, self.22, self.23, self.24, self.25, self.26, self.27, self.28, self.29, self.30, self.31)
    }

    fn index_ref(&self) -> (r: &T20) {
        &self.19
    }

    fn index_mut(&mut self) -> (r: &mut T20) {
        &mut self.19
    }

    fn into_index(self) -> (r: T20) {
        self.19
    }

    proof fn lemma_index_in_range(&self) {
    }
}

impl<T1, T2, T3, T4, T5, T6, T7, T8, T9, T10, T11, T12, T13, T14, T15, T16, T17, T18, T19, T20, T21, T22, T23, T24, T25, T26, T27, T28, T29, T30, T31, T32> IndexableTuple<20> for (T1, T2, T3, T4, T5, T6, T7, T8, T9, T10, T11, T12, T13, T14, T15, T16, T17, T18, T19, T20, T21, T22, T23, T24, T25, T26, T27, T28, T29, T30, T31, T32) {
    type Value = T21;

    open spec fn spec_index(&self) -> T21 {
        self.20
    }

    open spec fn spec_with_index(self, value: T21) -> (T1, T2, T3, T4, T5, T6, T7, T8, T9, T10, T11, T12, T13, T14, T15, T16, T17, T18, T19, T20, T21, T22, T23, T24, T25, T26, T27, T28, T29, T30, T31, T32) {
        (self.0, self.1, self.2, self.3, self.4, self.5, self.6, self.7, self.8, self.9, self.10, self.11, self.12, self.13, self.14, self.15, self.16, self.17, self.18, self.19, value, self.21, self.22, self.23, self.24, self.25, self.26, self.27, self.28, self.29, self.30, self.31)
    }

    fn index_ref(&self) -> (r: &T21) {
        &self.20
    }

    fn index_mut(&mut self) -> (r: &mut T21) {
        &mut self.20
    }

    fn into_index(self) -> (r: T21) {
        self.20
    }

    proof fn lemma_index_in_range(&self) {
    }
}

impl<T1, T2, T3, T4, T5, T6, T7, T8, T9, T10, T11, T12, T13, T14, T15, T16, T17, T18, T19, T20, T21, T22, T23, T24, T25, T26, T27, T28, T29, T30, T31, T32> IndexableTuple<21> for (T1, T2, T3, T4, T5, T6, T7, T8, T9, T10, T11, T12, T13, T14, T15, T16, T17, T18, T19, T20, T21, T22, T23, T24, T25, T26, T27, T28, T29, T30, T31, T32) {
    type Value = T22;

    open spec fn spec_index(&self) -> T22 {
        self.21
    }

    open spec fn spec_with_index(self, value: T22) -> (T1, T2, T3, T4, T5, T6, T7, T8, T9, T10, T11, T12, T13, T14, T15, T16, T17, T18, T19, T20, T21, T22, T23, T24, T25, T26, T27, T28, T29, T30, T31, T32) {
        (self.0, self.1, self.2, self.3, self.4, self.5, self.6, self.7, self.8, self.9, self.10, self.11, self.12, self.13, self.14, self.15, self.16, self.17, self.18, self.19, self.20, value, self.22, self.23, self.24, self.25, self.26, self.27, self.28, self.29, self.30, self.31)
    }

    fn index_ref(&self) -> (r: &T22) {
        &self.21
    }

    fn index_mut(&mut self) -> (r: &mut T22) {
        &mut self.21
    }

    fn into_index(self) -> (r: T22) {
        self.21
    }

    proof fn lemma_index_in_range(&self) {
    }
}

impl<T1, T2, T3, T4, T5, T6, T7, T8, T9, T10, T11, T12, T13, T14, T15, T16, T17, T18, T19, T20, T21, T22, T23, T24, T25, T26, T27, T28, T29, T30, T31, T32> IndexableTuple<22> for (T1, T2, T3, T4, T5, T6, T7, T8, T9, T10, T11, T12, T13, T14, T15, T16, T17, T18, T19, T20, T21, T22, T23, T24, T25, T26, T27, T28, T29, T30, T31, T32) {
    type Value = T23;

    open spec fn spec_index(&self) -> T23 {
        self.22
    }

    open spec fn spec_with_index(self, value: T23) -> (T1, T2, T3, T4, T5, T6, T7, T8, T9, T10, T11, T12, T13, T14, T15, T16, T17, T18, T19, T20, T21, T22, T23, T24, T25, T26, T27, T28, T29, T30, T31, T32) {
        (self.0, self.1, self.2, self.3, self.4, self.5, self.6, self.7, self.8, self.9, self.10, self.11, self.12, self.13, self.14, self.15, self.16, self.17, self.18, self.19, self.20, self.21, value, self.23, self.24, self.25, self.26, self.27, self.28, self.29, self.30, self.31)
    }

    fn index_ref(&self) -> (r: &T23) {
        &self.22
    }

    fn index_mut(&mut self) -> (r: &mut T23) {
        &mut self.22
    }

    fn into_index(self) -> (r: T23) {
        self.22
    }

    proof fn lemma_index_in_range(&self) {
    }
}

impl<T1, T2, T3, T4, T5, T6, T7, T8, T9, T10, T11, T12, T13, T14, T15, T16, T17, T18, T19, T20, T21, T22, T23, T24, T25, T26, T27, T28, T29, T30, T31, T32> IndexableTuple<23> for (T1, T2, T3, T4, T5, T6, T7, T8, T9, T10, T11, T12, T13, T14, T15, T16, T17, T18, T19, T20, T21, T22, T23, T24, T25, T26, T27, T28, T29, T30, T31, T32) {
    type Value = T24;

    open spec fn spec_index(&self) -> T24 {
        self.23
    }

    open spec fn spec_with_index(self, value: T24) -> (T1, T2, T3, T4, T5, T6, T7, T8, T9, T10, T11, T12, T13, T14, T15, T16, T17, T18, T19, T20, T21, T22, T23, T24, T25, T26, T27, T28, T29, T30, T31, T32) {
        (self.0, self.1, self.2, self.3, self.4, self.5, self.6, self.7, self.8, self.9, self.10, self.11, self.12, self.13, self.14, self.15, self.16, self.17, self.18, self.19, self.20, self.21, self.22, value, self.24, self.25, self.26, self.27, self.28, self.29, self.30, self.31)
    }

    fn index_ref(&self) -> (r: &T24) {
        &self.23
    }

    fn index_mut(&mut self) -> (r: &mut T24) {
        &mut self.23
    }

    fn into_index(self) -> (r: T24) {
        self.23
    }

    proof fn lemma_index_in_range(&self) {
    }
}

impl<T1, T2, T3, T4, T5, T6, T7, T8, T9, T10, T11, T12, T13, T14, T15, T16, T17, T18, T19, T20, T21, T22, T23, T24, T25, T26, T27, T28, T29, T30, T31, T32> IndexableTuple<24> for (T1, T2, T3, T4, T5, T6, T7, T8, T9, T10, T11, T12, T13, T14, T15, T16, T17, T18, T19, T20, T21, T22, T23, T24, T25, T26, T27, T28, T29, T30, T31, T32) {
    type Value = T25;

    open spec fn spec_index(&self) -> T25 {
        self.24
    }

    open spec fn spec_with_index(self, value: T25) -> (T1, T2, T3, T4, T5, T6, T7, T8, T9, T10, T11, T12, T13, T14, T15, T16, T17, T18, T19, T20, T21, T22, T23, T24, T25, T26, T27, T28, T29, T30, T31, T32) {
        (self.0, self.1, self.2, self.3, self.4, self.5, self.6, self.7, self.8, self.9, self.10, self.11, self.12, self.13, self.14, self.15, self.16, self.17, self.18, self.19, self.20, self.21, self.22, self.23, value, self.25, self.26, self.27, self.28, self.29, self.30, self.31)
    }

    fn index_ref(&self) -> (r: &T25) {
        &self.24
    }

    fn index_mut(&mut self) -> (r: &mut T25) {
        &mut self.24
    }

    fn into_index(self) -> (r: T25) {
        self.24
    }

    proof fn lemma_index_in_range(&self) {
    }
}

impl<T1, T2, T3, T4, T5, T6, T7, T8, T9, T10, T11, T12, T13, T14, T15, T16, T17, T18, T19, T20, T21, T22, T23, T24, T25, T26, T27, T28, T29, T30, T31, T32> IndexableTuple<25> for (T1, T2, T3, T4, T5, T6, T7, T8, T9, T10, T11, T12, T13, T14, T15, T16, T17, T18, T19, T20, T21, T22, T23, T24, T25, T26, T27, T28, T29, T30, T31, T32) {
    type Value = T26;

    open spec fn spec_index(&self) -> T26 {
        self.25
    }

    open spec fn spec_with_index(self, value: T26) -> (T1, T2, T3, T4, T5, T6, T7, T8, T9, T10, T11, T12, T13, T14, T15, T16, T17, T18, T19, T20, T21, T22, T23, T24, T25, T26, T27, T28, T29, T30, T31, T32) {
        (self.0, self.1, self.2, self.3, self.4, self.5, self.6, self.7, self.8, self.9, self.10, self.11, self.12, self.13, self.14, self.15, self.16, self.17, self.18, self.19, self.20, self.21, self.22, self.23, self.24, value, self.26, self.27, self.28, self.29, self.30, self.31)
    }

    fn index_ref(&self) -> (r: &T26) {
        &self.25
    }

    fn index_mut(&mut self) -> (r: &mut T26) {
        &mut self.25
    }

    fn into_index(self) -> (r: T26) {
        self.25
    }

    proof fn lemma_index_in_range(&self) {
    }
}

impl<T1, T2, T3, T4, T5, T6, T7, T8, T9, T10, T11, T12, T13, T14, T15, T16, T17, T18, T19, T20, T21, T22, T23, T24, T25, T26, T27, T28, T29, T30, T31, T32> IndexableTuple<26> for (T1, T2, T3, T4, T5, T6, T7, T8, T9, T10, T11, T12, T13, T14, T15, T16, T17, T18, T19, T20, T21, T22, T23, T24, T25, T26, T27, T28, T29, T30, T31, T32) {
    type Value = T27;

    open spec fn spec_index(&self) -> T27 {
        self.26
    }

    open spec fn spec_with_index(self, value: T27) -> (T1, T2, T3, T4, T5, T6, T7, T8, T9, T10, T11, T12, T13, T14, T15, T16, T17, T18, T19, T20, T21, T22, T23, T24, T25, T26, T27, T28, T29, T30, T31, T32) {
        (self.0, self.1, self.2, self.3, self.4, self.5, self.6, self.7, self.8, self.9, self.10, self.11, self.12, self.13, self.14, self.15, self.16, self.17, self.18, self.19, self.20, self.21, self.22, self.23, self.24, self.25, value, self.27, self.28, self.29, self.30, self.31)
    }

    fn index_ref(&self) -> (r: &T27) {
        &self.26
    }

    fn index_mut(&mut self) -> (r: &mut T27) {
        &mut self.26
    }

    fn into_index(self) -> (r: T27) {
        self.26
    }

    proof fn lemma_index_in_range(&self) {
    }
}

impl<T1, T2, T3, T4, T5, T6, T7, T8, T9, T10, T11, T12, T13, T14, T15, T16, T17, T18, T19, T20, T21, T22, T23, T24, T25, T26, T27, T28, T29, T30, T31, T32> IndexableTuple<27> for (T1, T2, T3, T4, T5, T6, T7, T8, T9, T10, T11, T12, T13, T14, T15, T16, T17, T18, T19, T20, T21, T22, T23, T24, T25, T26, T27, T28, T29, T30, T31, T32) {
    type Value = T28;

    open spec fn spec_index(&self) -> T28 {
        self.27
    }

    open spec fn spec_with_index(self, value: T28) -> (T1, T2, T3, T4, T5, T6, T7, T8, T9, T10, T11, T12, T13, T14, T15, T16, T17, T18, T19, T20, T21, T22, T23, T24, T25, T26, T27, T28, T29, T30, T31, T32) {
        (self.0, self.1, self.2, self.3, self.4, self.5, self.6, self.7, self.8, self.9, self.10, self.11, self.12, self.13, self.14, self.15, self.16, self.17, self.18, self.19, self.20, self.21, self.22, self.23, self.24, self.25, self.26, value, self.28, self.29, self.30, self.31)
    }

    fn index_ref(&self) -> (r: &T28) {
        &self.27
    }

    fn index_mut(&mut self) -> (r: &mut T28) {
        &mut self.27
    }

    fn into_index(self) -> (r: T28) {
        self.27
    }

    proof fn lemma_index_in_range(&self) {
    }
}

impl<T1, T2, T3, T4, T5, T6, T7, T8, T9, T10, T11, T12, T13, T14, T15, T16, T17, T18, T19, T20, T21, T22, T23, T24, T25, T26, T27, T28, T29, T30, T31, T32> IndexableTuple<28> for (T1, T2, T3, T4, T5, T6, T7, T8, T9, T10, T11, T12, T13, T14, T15, T16, T17, T18, T19, T20, T21, T22, T23, T24, T25, T26, T27, T28, T29, T30, T31, T32) {
    type Value = T29;

    open spec fn spec_index(&self) -> T29 {
        self.28
    }

    open spec fn spec_with_index(self, value: T29) -> (T1, T2, T3, T4, T5, T6, T7, T8, T9, T10, T11, T12, T13, T14, T15, T16, T17, T18, T19, T20, T21, T22, T23, T24, T25, T26, T27, T28, T29, T30, T31, T32) {
        (self.0, self.1, self.2, self.3, self.4, self.5, self.6, self.7, self.8, self.9, self.10, self.11, self.12, self.13, self.14, self.15, self.16, self.17, self.18, self.19, self.20, self.21, self.22, self.23, self.24, self.25, self.26, self.27, value, self.29, self.30, self.31)
    }

    fn index_ref(&self) -> (r: &T29) {
        &self.28
    }

    fn index_mut(&mut self) -> (r: &mut T29) {
        &mut self.28
    }

    fn into_index(self) -> (r: T29) {
        self.28
    }

    proof fn lemma_index_in_range(&self) {
    }
}

impl<T1, T2, T3, T4, T5, T6, T7, T8, T9, T10, T11, T12, T13, T14, T15, T16, T17, T18, T19, T20, T21, T22, T23, T24, T25, T26, T27, T28, T29, T30, T31, T32> IndexableTuple<29> for (T1, T2, T3, T4, T5, T6, T7, T8, T9, T10, T11, T12, T13, T14, T15, T16, T17, T18, T19, T20, T21, T22, T23, T24, T25, T26, T27, T28, T29, T30, T31, T32) {
    type Value = T30;

    open spec fn spec_index(&self) -> T30 {
        self.29
    }

    open spec fn spec_with_index(self, value: T30) -> (T1, T2, T3, T4, T5, T6, T7, T8, T9, T10, T11, T12, T13, T14, T15, T16, T17, T18, T19, T20, T21, T22, T23, T24, T25, T26, T27, T28, T29, T30, T31, T32) {
        (self.0, self.1, self.2, self.3, self.4, self.5, self.6, self.7, self.8, self.9, self.10, self.11, self.12, self.13, self.14, self.15, self.16, self.17, self.18, self.19, self.20, self.21, self.22, self.23, self.24, self.25, self.26, self.27, self.28, value, self.30, self.31)
    }

    fn index_ref(&self) -> (r: &T30) {
        &self.29
    }

    fn index_mut(&mut self) -> (r: &mut T30) {
        &mut self.29
    }

    fn into_index(self) -> (r: T30) {
        self.29
    }

    proof fn lemma_index_in_range(&self) {
    }
}

impl<T1, T2, T3, T4, T5, T6, T7, T8, T9, T10, T11, T12, T13, T14, T15, T16, T17, T18, T19, T20, T21, T22, T23, T24, T25, T26, T27, T28, T29, T30, T31, T32> IndexableTuple<30> for (T1, T2, T3, T4, T5, T6, T7, T8, T9, T10, T11, T12, T13, T14, T15, T16, T17, T18, T19, T20, T21, T22, T23, T24, T25, T26, T27, T28, T29, T30, T31, T32) {
    type Value = T31;

    open spec fn spec_index(&self) -> T31 {
        self.30
    }

    open spec fn spec_with_index(self, value: T31) -> (T1, T2, T3, T4, T5, T6, T7, T8, T9, T10, T11, T12, T13, T14, T15, T16, T17, T18, T19, T20, T21, T22, T23, T24, T25, T26, T27, T28, T29, T30, T31, T32) {
        (self.0, self.1, self.2, self.3, self.4, self.5, self.6, self.7, self.8, self.9, self.10, self.11, self.12, self.13, self.14, self.15, self.16, self.17, self.18, self.19, self.20, self.21, self.22, self.23, self.24, self.25, self.26, self.27, self.28, self.29, value, self.31)
    }

    fn index_ref(&self) -> (r: &T31) {
        &self.30
    }

    fn index_mut(&mut self) -> (r: &mut T31) {
        &mut self.30
    }

    fn into_index(self) -> (r: T31) {
        self.30
    }

    proof fn lemma_index_in_range(&self) {
    }
}

impl<T1, T2, T3, T4, T5, T6, T7, T8, T9, T10, T11, T12, T13, T14, T15, T16, T17, T18, T19, T20, T21, T22, T23, T24, T25, T26, T27, T28, T29, T30, T31, T32> IndexableTuple<31> for (T1, T2, T3, T4, T5, T6, T7, T8, T9, T10, T11, T12, T13, T14, T15, T16, T17, T18, T19, T20, T21, T22, T23, T24, T25, T26, T27, T28, T29, T30, T31, T32) {
    type Value = T32;

    open spec fn spec_index(&self) -> T32 {
        self.31
    }

    open spec fn spec_with_index(self, value: T32) -> (T1, T2, T3, T4, T5, T6, T7, T8, T9, T10, T11, T12, T13, T14, T15, T16, T17, T18, T19, T20, T21, T22, T23, T24, T25, T26, T27, T28, T29, T30, T31, T32) {
        (self.0, self.1, self.2, self.3, self.4, self.5, self.6, self.7, self.8, self.9, self.10, self.11, self.12, self.13, self.14, self.15, self.16, self.17, self.18, self.19, self.20, self.21, self.22, self.23, self.24, self.25, self.26, self.27, self.28, self.29, self.30, value)
    }

    fn index_ref(&self) -> (r: &T32) {
        &self.31
    }

    fn index_mut(&mut self) -> (r: &mut T32) {
        &mut self.31
    }

    fn into_index(self) -> (r: T32) {
        self.31
    }

    proof fn lemma_index_in_range(&self) {
    }
}

impl<T1, T2, T3, T4, T5, T6, T7, T8, T9, T10, T11, T12, T13, T14, T15, T16, T17, T18, T19, T20, T21, T22, T23, T24, T25, T26, T27, T28, T29, T30, T31, T32> JoinableTuple<(T1, T2, T3, T4, T5, T6, T7, T8, T9, T10, T11, T12, T13, T14, T15, T16, T17, T18, T19, T20, T21, T22, T23, T24, T25, T26, T27, T28, T29, T30, T31, T32)> for () {
    type Join = (T1, T2, T3, T4, T5, T6, T7, T8, T9, T10, T11, T12, T13, T14, T15, T16, T17, T18, T19, T20, T21, T22, T23, T24, T25, T26, T27, T28, T29, T30, T31, T32);

    open spec fn spec_join(self, other: (T1, T2, T3, T4, T5, T6, T7, T8, T9, T10, T11, T12, T13, T14, T15, T16, T17, T18, T19, T20, T21, T22, T23, T24, T25, T26, T27, T28, T29, T30, T31, T32)) -> (T1, T2, T3, T4, T5, T6, T7, T8, T9, T10, T11, T12, T13, T14, T15, T16, T17, T18, T19, T20, T21, T22, T23, T24, T25, T26, T27, T28, T29, T30, T31, T32) {
        (other.0, other.1, other.2, other.3, other.4, other.5, other.6, other.7, other.8, other.9, other.10, other.11, other.12, other.13, other.14, other.15, other.16, other.17, other.18, other.19, other.20, other.21, other.22, other.23, other.24, other.25, other.26, other.27, other.28, other.29, other.30, other.31)
    }

    fn join(self, other: (T1, T2, T3, T4, T5, T6, T7, T8, T9, T10, T11, T12, T13, T14, T15, T16, T17, T18, T19, T20, T21, T22, T23, T24, T25, T26, T27, T28, T29, T30, T31, T32)) -> (r: (T1, T2, T3, T4, T5, T6, T7, T8, T9, T10, T11, T12, T13, T14, T15, T16, T17, T18, T19, T20, T21, T22, T23, T24, T25, T26, T27, T28, T29, T30, T31, T32)) {
        (other.0, other.1, other.2, other.3, other.4, other.5, other.6, other.7, other.8, other.9, other.10, other.11, other.12, other.13, other.14, other.15, other.16, other.17, other.18, other.19, other.20, other.21, other.22, other.23, other.24, other.25, other.26, other.27, other.28, other.29, other.30, other.31)
    }

    proof fn lemma_join_arity(self, other: (T1, T2, T3, T4, T5, T6, T7, T8, T9, T10, T11, T12, T13, T14, T15, T16, T17, T18, T19, T20, T21, T22, T23, T24, T25, T26, T27, T28, T29, T30, T31, T32)) {
    }
}

impl<T1, T2, T3, T4, T5, T6, T7, T8, T9, T10, T11, T12, T13, T14, T15, T16, T17, T18, T19, T20, T21, T22, T23, T24, T25, T26, T27, T28, T29, T30, T31, T32> JoinableTuple<(T2, T3, T4, T5, T6, T7, T8, T9, T10, T11, T12, T13, T14, T15, T16, T17, T18, T19, T20, T21, T22, T23, T24, T25, T26, T27, T28, T29, T30, T31, T32)> for (T1,) {
    type Join = (T1, T2, T3, T4, T5, T6, T7, T8, T9, T10, T11, T12, T13, T14, T15, T16, T17, T18, T19, T20, T21, T22, T23, T24, T25, T26, T27, T28, T29, T30, T31, T32);

    open spec fn spec_join(self, other: (T2, T3, T4, T5, T6, T7, T8, T9, T10, T11, T12, T13, T14, T15, T16, T17, T18, T19, T20, T21, T22, T23, T24, T25, T26, T27, T28, T29, T30, T31, T32)) -> (T1, T2, T3, T4, T5, T6, T7, T8, T9, T10, T11, T12, T13, T14, T15, T16, T17, T18, T19, T20, T21, T22, T23, T24, T25, T26, T27, T28, T29, T30, T31, T32) {
        (self.0, other.0, other.1, other.2, other.3, other.4, other.5, other.6, other.7, other.8, other.9, other.10, other.11, other.12, other.13, other.14, other.15, other.16, other.17, other.18, other.19, other.20, other.21, other.22, other.23, other.24, other.25, other.26, other.27, other.28, other.29, other.30)
    }

    fn join(self, other: (T2, T3, T4, T5, T6, T7, T8, T9, T10, T11, T12, T13, T14, T15, T16, T17, T18, T19, T20, T21, T22, T23, T24, T25, T26, T27, T28, T29, T30, T31, T32)) -> (r: (T1, T2, T3, T4, T5, T6, T7, T8, T9, T10, T11, T12, T13, T14, T15, T16, T17, T18, T19, T20, T21, T22, T23, T24, T25, T26, T27, T28, T29, T30, T31, T32)) {
        (self.0, other.0, other.1, other.2, other.3, other.4, other.5, other.6, other.7, other.8, other.9, other.10, other.11, other.12, other.13, other.14, other.15, other.16, other.17, other.18, other.19, other.20, other.21, other.22, other.23, other.24, other.25, other.26, other.27, other.28, other.29, other.30)
    }

    proof fn lemma_join_arity(self, other: (T2, T3, T4, T5, T6, T7, T8, T9, T10, T11, T12, T13, T14, T15, T16, T17, T18, T19, T20, T21, T22, T23, T24, T25, T26, T27, T28, T29, T30, T31, T32)) {
    }
}

impl<T1, T2, T3, T4, T5, T6, T7, T8, T9, T10, T11, T12, T13, T14, T15, T16, T17, T18, T19, T20, T21, T22, T23, T24, T25, T26, T27, T28, T29, T30, T31, T32> JoinableTuple<(T3, T4, T5, T6, T7, T8, T9, T10, T11, T12, T13, T14, T15, T16, T17, T18, T19, T20, T21, T22, T23, T24, T25, T26, T27, T28, T29, T30, T31, T32)> for (T1, T2) {
    type Join = (T1, T2, T3, T4, T5, T6, T7, T8, T9, T10, T11, T12, T13, T14, T15, T16, T17, T18, T19, T20, T21, T22, T23, T24, T25, T26, T27, T28, T29, T30, T31, T32);

    open spec fn spec_join(self, other: (T3, T4, T5, T6, T7, T8, T9, T10, T11, T12, T13, T14, T15, T16, T17, T18, T19, T20, T21, T22, T23, T24, T25, T26, T27, T28, T29, T30, T31, T32)) -> (T1, T2, T3, T4, T5, T6, T7, T8, T9, T10, T11, T12, T13, T14, T15, T16, T17, T18, T19, T20, T21, T22, T23, T24, T25, T26, T27, T28, T29, T30, T31, T32) {
        (self.0, self.1, other.0, other.1, other.2, other.3, other.4, other.5, other.6, other.7, other.8, other.9, other.10, other.11, other.12, other.13, other.14, other.15, other.16, other.17, other.18, other.19, other.20, other.21, other.22, other.23, other.24, other.25, other.26, other.27, other.28, other.29)
    }

    fn join(self, other: (T3, T4, T5, T6, T7, T8, T9, T10, T11, T12, T13, T14, T15, T16, T17, T18, T19, T20, T21, T22, T23, T24, T25, T26, T27, T28, T29, T30, T31, T32)) -> (r: (T1, T2, T3, T4, T5, T6, T7, T8, T9, T10, T11, T12, T13, T14, T15, T16, T17, T18, T19, T20, T21, T22, T23, T24, T25, T26, T27, T28, T29, T30, T31, T32)) {
        (self.0, self.1, other.0, other.1, other.2, other.3, other.4, other.5, other.6, other.7, other.8, other.9, other.10, other.11, other.12, other.13, other.14, other.15, other.16, other.17, other.18, other.19, other.20, other.21, other.22, other.23, other.24, other.25, other.26, other.27, other.28, other.29)
    }

    proof fn lemma_join_arity(self, other: (T3, T4, T5, T6, T7, T8, T9, T10, T11, T12, T13, T14, T15, T16, T17, T18, T19, T20, T21, T22, T23, T24, T25, T26, T27, T28, T29, T30, T31, T32)) {
    }
}

impl<T1, T2, T3, T4, T5, T6, T7, T8, T9, T10, T11, T12, T13, T14, T15, T16, T17, T18, T19, T20, T21, T22, T23, T24, T25, T26, T27, T28, T29, T30, T31, T32> JoinableTuple<(T4, T5, T6, T7, T8, T9, T10, T11, T12, T13, T14, T15, T16, T17, T18, T19, T20, T21, T22, T23, T24, T25, T26, T27, T28, T29, T30, T31, T32)> for (T1, T2, T3) {
    type Join = (T1, T2, T3, T4, T5, T6, T7, T8, T9, T10, T11, T12, T13, T14, T15, T16, T17, T18, T19, T20, T21, T22, T23, T24, T25, T26, T27, T28, T29, T30, T31, T32);

    open spec fn spec_join(self, other: (T4, T5, T6, T7, T8, T9, T10, T11, T12, T13, T14, T15, T16, T17, T18, T19, T20, T21, T22, T23, T24, T25, T26, T27, T28, T29, T30, T31, T32)) -> (T1, T2, T3, T4, T5, T6, T7, T8, T9, T10, T11, T12, T13, T14, T15, T16, T17, T18, T19, T20, T21, T22, T23, T24, T25, T26, T27, T28, T29, T30, T31, T32) {
        (self.0, self.1, self.2, other.0, other.1, other.2, other.3, other.4, other.5, other.6, other.7, other.8, other.9, other.10, other.11, other.12, other.13, other.14, other.15, other.16, other.17, other.18, other.19, other.20, other.21, other.22, other.23, other.24, other.25, other.26, other.27, other.28)
    }

    fn join(self, other: (T4, T5, T6, T7, T8, T9, T10, T11, T12, T13, T14, T15, T16, T17, T18, T19, T20, T21, T22, T23, T24, T25, T26, T27, T28, T29, T30, T31, T32)) -> (r: (T1, T2, T3, T4, T5, T6, T7, T8, T9, T10, T11, T12, T13, T14, T15, T16, T17, T18, T19, T20, T21, T22, T23, T24, T25, T26, T27, T28, T29, T30, T31, T32)) {
        (self.0, self.1, self.2, other.0, other.1, other.2, other.3, other.4, other.5, other.6, other.7, other.8, other.9, other.10, other.11, other.12, other.13, other.14, other.15, other.16, other.17, other.18, other.19, other.20, other.21, other.22, other.23, other.24, other.25, other.26, other.27, other.28)
    }

    proof fn lemma_join_arity(self, other: (T4, T5, T6, T7, T8, T9, T10, T11, T12, T13, T14, T15, T16, T17, T18, T19, T20, T21, T22, T23, T24, T25, T26, T27, T28, T29, T30, T31, T32)) {
    }
}

impl<T1, T2, T3, T4, T5, T6, T7, T8, T9, T10, T11, T12, T13, T14, T15, T16, T17, T18, T19, T20, T21, T22, T23, T24, T25, T26, T27, T28, T29, T30, T31, T32> JoinableTuple<(T5, T6, T7, T8, T9, T10, T11, T12, T13, T14, T15, T16, T17, T18, T19, T20, T21, T22, T23, T24, T25, T26, T27, T28, T29, T30, T31, T32)> for (T1, T2, T3, T4) {
    type Join = (T1, T2, T3, T4, T5, T6, T7, T8, T9, T10, T11, T12, T13, T14, T15, T16, T17, T18, T19, T20, T21, T22, T23, T24, T25, T26, T27, T28, T29, T30, T31, T32);

    open spec fn spec_join(self, other: (T5, T6, T7, T8, T9, T10, T11, T12, T13, T14, T15, T16, T17, T18, T19, T20, T21, T22, T23, T24, T25, T26, T27, T28, T29, T30, T31, T32)) -> (T1, T2, T3, T4, T5, T6, T7, T8, T9, T10, T11, T12, T13, T14, T15, T16, T17, T18, T19, T20, T21, T22, T23, T24, T25, T26, T27, T28, T29, T30, T31, T32) {
        (self.0, self.1, self.2, self.3, other.0, other.1, other.2, other.3, other.4, other.5, other.6, other.7, other.8, other.9, other.10, other.11, other.12, other.13, other.14, other.15, other.16, other.17, other.18, other.19, other.20, other.21, other.22, other.23, other.24, other.25, other.26, other.27)
    }

    fn join(self, other: (T5, T6, T7, T8, T9, T10, T11, T12, T13, T14, T15, T16, T17, T18, T19, T20, T21, T22, T23, T24, T25, T26, T27, T28, T29, T30, T31, T32)) -> (r: (T1, T2, T3, T4, T5, T6, T7, T8, T9, T10, T11, T12, T13, T14, T15, T16, T17, T18, T19, T20, T21, T22, T23, T24, T25, T26, T27, T28, T29, T30, T31, T32)) {
        (self.0, self.1, self.2, self.3, other.0, other.1, other.2, other.3, other.4, other.5, other.6, other.7, other.8, other.9, other.10, other.11, other.12, other.13, other.14, other.15, other.16, other.17, other.18, other.19, other.20, other.21, other.22, other.23, other.24, other.25, other.26, other.27)
    }

    proof fn lemma_join_arity(self, other: (T5, T6, T7, T8, T9, T10, T11, T12, T13, T14, T15, T16, T17, T18, T19, T20, T21, T22, T23, T24, T25, T26, T27, T28, T29, T30, T31, T32)) {
    }
}

impl<T1, T2, T3, T4, T5, T6, T7, T8, T9, T10, T11, T12, T13, T14, T15, T16, T17, T18, T19, T20, T21, T22, T23, T24, T25, T26, T27, T28, T29, T30, T31, T32> JoinableTuple<(T6, T7, T8, T9, T10, T11, T12, T13, T14, T15, T16, T17, T18, T19, T20, T21, T22, T23, T24, T25, T26, T27, T28, T29, T30, T31, T32)> for (T1, T2, T3, T4, T5) {
    type Join = (T1, T2, T3, T4, T5, T6, T7, T8, T9, T10, T11, T12, T13, T14, T15, T16, T17, T18, T19, T20, T21, T22, T23, T24, T25, T26, T27, T28, T29, T30, T31, T32);

    open spec fn spec_join(self, other: (T6, T7, T8, T9, T10, T11, T12, T13, T14, T15, T16, T17, T18, T19, T20, T21, T22, T23, T24, T25, T26, T27, T28, T29, T30, T31, T32)) -> (T1, T2, T3, T4, T5, T6, T7, T8, T9, T10, T11, T12, T13, T14, T15, T16, T17, T18, T19, T20, T21, T22, T23, T24, T25, T26, T27, T28, T29, T30, T31, T32) {
        (self.0, self.1, self.2, self.3, self.4, other.0, other.1, other.2, other.3, other.4, other.5, other.6, other.7, other.8, other.9, other.10, other.11, other.12, other.13, other.14, other.15, other.16, other.17, other.18, other.19, other.20, other.21, other.22, other.23, other.24, other.25, other.26)
    }

    fn join(self, other: (T6, T7, T8, T9, T10, T11, T12, T13, T14, T15, T16, T17, T18, T19, T20, T21, T22, T23, T24, T25, T26, T27, T28, T29, T30, T31, T32)) -> (r: (T1, T2, T3, T4, T5, T6, T7, T8, T9, T10, T11, T12, T13, T14, T15, T16, T17, T18, T19, T20, T21, T22, T23, T24, T25, T26, T27, T28, T29, T30, T31, T32)) {
        (self.0, self.1, self.2, self.3, self.4, other.0, other.1, other.2, other.3, other.4, other.5, other.6, other.7, other.8, other.9, other.10, other.11, other.12, other.13, other.14, other.15, other.16, other.17, other.18, other.19, other.20, other.21, other.22, other.23, other.24, other.25, other.26)
    }

    proof fn lemma_join_arity(self, other: (T6, T7, T8, T9, T10, T11, T12, T13, T14, T15, T16, T17, T18, T19, T20, T21, T22, T23, T24, T25, T26, T27, T28, T29, T30, T31, T32)) {
    }
}

impl<T1, T2, T3, T4, T5, T6, T7, T8, T9, T10, T11, T12, T13, T14, T15, T16, T17, T18, T19, T20, T21, T22, T23, T24, T25, T26, T27, T28, T29, T30, T31, T32> JoinableTuple<(T7, T8, T9, T10, T11, T12, T13, T14, T15, T16, T17, T18, T19, T20, T21, T22, T23, T24, T25, T26, T27, T28, T29, T30, T31, T32)> for (T1, T2, T3, T4, T5, T6) {
    type Join = (T1, T2, T3, T4, T5, T6, T7, T8, T9, T10, T11, T12, T13, T14, T15, T16, T17, T18, T19, T20, T21, T22, T23, T24, T25, T26, T27, T28, T29, T30, T31, T32);

    open spec fn spec_join(self, other: (T7, T8, T9, T10, T11, T12, T13, T14, T15, T16, T17, T18, T19, T20, T21, T22, T23, T24, T25, T26, T27, T28, T29, T30, T31, T32)) -> (T1, T2, T3, T4, T5, T6, T7, T8, T9, T10, T11, T12, T13, T14, T15, T16, T17, T18, T19, T20, T21, T22, T23, T24, T25, T26, T27, T28, T29, T30, T31, T32) {
        (self.0, self.1, self.2, self.3, self.4, self.5, other.0, other.1, other.2, other.3, other.4, other.5, other.6, other.7, other.8, other.9, other.10, other.11, other.12, other.13, other.14, other.15, other.16, other.17, other.18, other.19, other.20, other.21, other.22, other.23, other.24, other.25)
    }

    fn join(self, other: (T7, T8, T9, T10, T11, T12, T13, T14, T15, T16, T17, T18, T19, T20, T21, T22, T23, T24, T25, T26, T27, T28, T29, T30, T31, T32)) -> (r: (T1, T2, T3, T4, T5, T6, T7, T8, T9, T10, T11, T12, T13, T14, T15, T16, T17, T18, T19, T20, T21, T22, T23, T24, T25, T26, T27, T28, T29, T30, T31, T32)) {
        (self.0, self.1, self.2, self.3, self.4, self.5, other.0, other.1, other.2, other.3, other.4, other.5, other.6, other.7, other.8, other.9, other.10, other.11, other.12, other.13, other.14, other.15, other.16, other.17, other.18, other.19, other.20, other.21, other.22, other.23, other.24, other.25)
    }

    proof fn lemma_join_arity(self, other: (T7, T8, T9, T10, T11, T12, T13, T14, T15, T16, T17, T18, T19, T20, T21, T22, T23, T24, T25, T26, T27, T28, T29, T30, T31, T32)) {
    }
}

impl<T1, T2, T3, T4, T5, T6, T7, T8, T9, T10, T11, T12, T13, T14, T15, T16, T17, T18, T19, T20, T21, T22, T23, T24, T25, T26, T27, T28, T29, T30, T31, T32> JoinableTuple<(T8, T9, T10, T11, T12, T13, T14, T15, T16, T17, T18, T19, T20, T21, T22, T23, T24, T25, T26, T27, T28, T29, T30, T31, T32)> for (T1, T2, T3, T4, T5, T6, T7) {
    type Join = (T1, T2, T3, T4, T5, T6, T7, T8, T9, T10, T11, T12, T13, T14, T15, T16, T17, T18, T19, T20, T21, T22, T23, T24, T25, T26, T27, T28, T29, T30, T31, T32);

    open spec fn spec_join(self, other: (T8, T9, T10, T11, T12, T13, T14, T15, T16, T17, T18, T19, T20, T21, T22, T23, T24, T25, T26, T27, T28, T29, T30, T31, T32)) -> (T1, T2, T3, T4, T5, T6, T7, T8, T9, T10, T11, T12, T13, T14, T15, T16, T17, T18, T19, T20, T21, T22, T23, T24, T25, T26, T27, T28, T29, T30, T31, T32) {
        (self.0, self.1, self.2, self.3, self.4, self.5, self.6, other.0, other.1, other.2, other.3, other.4, other.5, other.6, other.7, other.8, other.9, other.10, other.11, other.12, other.13, other.14, other.15, other.16, other.17, other.18, other.19, other.20, other.21, other.22, other.23, other.24)
    }

    fn join(self, other: (T8, T9, T10, T11, T12, T13, T14, T15, T16, T17, T18, T19, T20, T21, T22, T23, T24, T25, T26, T27, T28, T29, T30, T31, T32)) -> (r: (T1, T2, T3, T4, T5, T6, T7, T8, T9, T10, T11, T12, T13, T14, T15, T16, T17, T18, T19, T20, T21, T22, T23, T24, T25, T26, T27, T28, T29, T30, T31, T32)) {
        (self.0, self.1, self.2, self.3, self.4, self.5, self.6, other.0, other.1, other.2, other.3, other.4, other.5, other.6, other.7, other.8, other.9, other.10, other.11, other.12, other.13, other.14, other.15, other.16, other.17, other.18, other.19, other.20, other.21, other.22, other.23, other.24)
    }

    proof fn lemma_join_arity(self, other: (T8, T9, T10, T11, T12, T13, T14, T15, T16, T17, T18, T19, T20, T21, T22, T23, T24, T25, T26, T27, T28, T29, T30, T31, T32)) {
    }
}

impl<T1, T2, T3, T4, T5, T6, T7, T8, T9, T10, T11, T12, T13, T14, T15, T16, T17, T18, T19, T20, T21, T22, T23, T24, T25, T26, T27, T28, T29, T30, T31, T32> JoinableTuple<(T9, T10, T11, T12, T13, T14, T15, T16, T17, T18, T19, T20, T21, T22, T23, T24, T25, T26, T27, T28, T29, T30, T31, T32)> for (T1, T2, T3, T4, T5, T6, T7, T8) {
    type Join = (T1, T2, T3, T4, T5, T6, T7, T8, T9, T10, T11, T12, T13, T14, T15, T16, T17, T18, T19, T20, T21, T22, T23, T24, T25, T26, T27, T28, T29, T30, T31, T32);

    open spec fn spec_join(self, other: (T9, T10, T11, T12, T13, T14, T15, T16, T17, T18, T19, T20, T21, T22, T23, T24, T25, T26, T27, T28, T29, T30, T31, T32)) -> (T1, T2, T3, T4, T5, T6, T7, T8, T9, T10, T11, T12, T13, T14, T15, T16, T17, T18, T19, T20, T21, T22, T23, T24, T25, T26, T27, T28, T29, T30, T31, T32) {
        (self.0, self.1, self.2, self.3, self.4, self.5, self.6, self.7, other.0, other.1, other.2, other.3, other.4, other.5, other.6, other.7, other.8, other.9, other.10, other.11, other.12, other.13, other.14, other.15, other.16, other.17, other.18, other.19, other.20, other.21, other.22, other.23)
    }

    fn join(self, other: (T9, T10, T11, T12, T13, T14, T15, T16, T17, T18, T19, T20, T21, T22, T23, T24, T25, T26, T27, T28, T29, T30, T31, T32)) -> (r: (T1, T2, T3, T4, T5, T6, T7, T8, T9, T10, T11, T12, T13, T14, T15, T16, T17, T18, T19, T20, T21, T22, T23, T24, T25, T26, T27, T28, T29, T30, T31, T32)) {
        (self.0, self.1, self.2, self.3, self.4, self.5, self.6, self.7, other.0, other.1, other.2, other.3, other.4, other.5, other.6, other.7, other.8, other.9, other.10, other.11, other.12, other.13, other.14, other.15, other.16, other.17, other.18, other.19, other.20, other.21, other.22, other.23)
    }

    proof fn lemma_join_arity(self, other: (T9, T10, T11, T12, T13, T14, T15, T16, T17, T18, T19, T20, T21, T22, T23, T24, T25, T26, T27, T28, T29, T30, T31, T32)) {
    }
}

impl<T1, T2, T3, T4, T5, T6, T7, T8, T9, T10, T11, T12, T13, T14, T15, T16, T17, T18, T19, T20, T21, T22, T23, T24, T25, T26, T27, T28, T29, T30, T31, T32> JoinableTuple<(T10, T11, T12, T13, T14, T15, T16, T17, T18, T19, T20, T21, T22, T23, T24, T25, T26, T27, T28, T29, T30, T31, T32)> for (T1, T2, T3, T4, T5, T6, T7, T8, T9) {
    type Join = (T1, T2, T3, T4, T5, T6, T7, T8, T9, T10, T11, T12, T13, T14, T15, T16, T17, T18, T19, T20, T21, T22, T23, T24, T25, T26, T27, T28, T29, T30, T31, T32);

    open spec fn spec_join(self, other: (T10, T11, T12, T13, T14, T15, T16, T17, T18, T19, T20, T21, T22, T23, T24, T25, T26, T27, T28, T29, T30, T31, T32)) -> (T1, T2, T3, T4, T5, T6, T7, T8, T9, T10, T11, T12, T13, T14, T15, T16, T17, T18, T19, T20, T21, T22, T23, T24, T25, T26, T27, T28, T29, T30, T31, T32) {
        (self.0, self.1, self.2, self.3, self.4, self.5, self.6, self.7, self.8, other.0, other.1, other.2, other.3, other.4, other.5, other.6, other.7, other.8, other.9, other.10, other.11, other.12, other.13, other.14, other.15, other.16, other.17, other.18, other.19, other.20, other.21, other.22)
    }

    fn join(self, other: (T10, T11, T12, T13, T14, T15, T16, T17, T18, T19, T20, T21, T22, T23, T24, T25, T26, T27, T28, T29, T30, T31, T32)) -> (r: (T1, T2, T3, T4, T5, T6, T7, T8, T9, T10, T11, T12, T13, T14, T15, T16, T17, T18, T19, T20, T21, T22, T23, T24, T25, T26, T27, T28, T29, T30, T31, T32)) {
        (self.0, self.1, self.2, self.3, self.4, self.5, self.6, self.7, self.8, other.0, other.1, other.2, other.3, other.4, other.5, other.6, other.7, other.8, other.9, other.10, other.11, other.12, other.13, other.14, other.15, other.16, other.17, other.18, other.19, other.20, other.21, other.22)
    }

    proof fn lemma_join_arity(self, other: (T10, T11, T12, T13, T14, T15, T16, T17, T18, T19, T20, T21, T22, T23, T24, T25, T26, T27, T28, T29, T30, T31, T32)) {
    }
}

impl<T1, T2, T3, T4, T5, T6, T7, T8, T9, T10, T11, T12, T13, T14, T15, T16, T17, T18, T19, T20, T21, T22, T23, T24, T25, T26, T27, T28, T29, T30, T31, T32> JoinableTuple<(T11, T12, T13, T14, T15, T16, T17, T18, T19, T20, T21, T22, T23, T24, T25, T26, T27, T28, T29, T30, T31, T32)> for (T1, T2, T3, T4, T5, T6, T7, T8, T9, T10) {
    type Join = (T1, T2, T3, T4, T5, T6, T7, T8, T9, T10, T11, T12, T13, T14, T15, T16, T17, T18, T19, T20, T21, T22, T23, T24, T25, T26, T27, T28, T29, T30, T31, T32);

    open spec fn spec_join(self, other: (T11, T12, T13, T14, T15, T16, T17, T18, T19, T20, T21, T22, T23, T24, T25, T26, T27, T28, T29, T30, T31, T32)) -> (T1, T2, T3, T4, T5, T6, T7, T8, T9, T10, T11, T12, T13, T14, T15, T16, T17, T18, T19, T20, T21, T22, T23, T24, T25, T26, T27, T28, T29, T30, T31, T32) {
        (self.0, self.1, self.2, self.3, self.4, self.5, self.6, self.7, self.8, self.9, other.0, other.1, other.2, other.3, other.4, other.5, other.6, other.7, other.8, other.9, other.10, other.11, other.12, other.13, other.14, other.15, other.16, other.17, other.18, other.19, other.20, other.21)
    }

    fn join(self, other: (T11, T12, T13, T14, T15, T16, T17, T18, T19, T20, T21, T22, T23, T24, T25, T26, T27, T28, T29, T30, T31, T32)) -> (r: (T1, T2, T3, T4, T5, T6, T7, T8, T9, T10, T11, T12, T13, T14, T15, T16, T17, T18, T19, T20, T21, T22, T23, T24, T25, T26, T27, T28, T29, T30, T31, T32)) {
        (self.0, self.1, self.2, self.3, self.4, self.5, self.6, self.7, self.8, self.9, other.0, other.1, other.2, other.3, other.4, other.5, other.6, other.7, other.8, other.9, other.10, other.11, other.12, other.13, other.14, other.15, other.16, other.17, other.18, other.19, other.20, other.21)
    }

    proof fn lemma_join_arity(self, other: (T11, T12, T13, T14, T15, T16, T17, T18, T19, T20, T21, T22, T23, T24, T25, T26, T27, T28, T29, T30, T31, T32)) {
    }
}

impl<T1, T2, T3, T4, T5, T6, T7, T8, T9, T10, T11, T12, T13, T14, T15, T16, T17, T18, T19, T20, T21, T22, T23, T24, T25, T26, T27, T28, T29, T30, T31, T32> JoinableTuple<(T12, T13, T14, T15, T16, T17, T18, T19, T20, T21, T22, T23, T24, T25, T26, T27, T28, T29, T30, T31, T32)> for (T1, T2, T3, T4, T5, T6, T7, T8, T9, T10, T11) {
    type Join = (T1, T2, T3, T4, T5, T6, T7, T8, T9, T10, T11, T12, T13, T14, T15, T16, T17, T18, T19, T20, T21, T22, T23, T24, T25, T26, T27, T28, T29, T30, T31, T32);

    open spec fn spec_join(self, other: (T12, T13, T14, T15, T16, T17, T18, T19, T20, T21, T22, T23, T24, T25, T26, T27, T28, T29, T30, T31, T32)) -> (T1, T2, T3, T4, T5, T6, T7, T8, T9, T10, T11, T12, T13, T14, T15, T16, T17, T18, T19, T20, T21, T22, T23, T24, T25, T26, T27, T28, T29, T30, T31, T32) {
        (self.0, self.1, self.2, self.3, self.4, self.5, self.6, self.7, self.8, self.9, self.10, other.0, other.1, other.2, other.3, other.4, other.5, other.6, other.7, other.8, other.9, other.10, other.11, other.12, other.13, other.14, other.15, other.16, other.17, other.18, other.19, other.20)
    }

    fn join(self, other: (T12, T13, T14, T15, T16, T17, T18, T19, T20, T21, T22, T23, T24, T25, T26, T27, T28, T29, T30, T31, T32)) -> (r: (T1, T2, T3, T4, T5, T6, T7, T8, T9, T10, T11, T12, T13, T14, T15, T16, T17, T18, T19, T20, T21, T22, T23, T24, T25, T26, T27, T28, T29, T30, T31, T32)) {
        (self.0, self.1, self.2, self.3, self.4, self.5, self.6, self.7, self.8, self.9, self.10, other.0, other.1, other.2, other.3, other.4, other.5, other.6, other.7, other.8, other.9, other.10, other.11, other.12, other.13, other.14, other.15, other.16, other.17, other.18, other.19, other.20)
    }

    proof fn lemma_join_arity(self, other: (T12, T13, T14, T15, T16, T17, T18, T19, T20, T21, T22, T23, T24, T25, T26, T27, T28, T29, T30, T31, T32)) {
    }
}

impl<T1, T2, T3, T4, T5, T6, T7, T8, T9, T10, T11, T12, T13, T14, T15, T16, T17, T18, T19, T20, T21, T22, T23, T24, T25, T26, T27, T28, T29, T30, T31, T32> JoinableTuple<(T13, T14, T15, T16, T17, T18, T19, T20, T21, T22, T23, T24, T25, T26, T27, T28, T29, T30, T31, T32)> for (T1, T2, T3, T4, T5, T6, T7, T8, T9, T10, T11, T12) {
    type Join = (T1, T2, T3, T4, T5, T6, T7, T8, T9, T10, T11, T12, T13, T14, T15, T16, T17, T18, T19, T20, T21, T22, T23, T24, T25, T26, T27, T28, T29, T30, T31, T32);

    open spec fn spec_join(self, other: (T13, T14, T15, T16, T17, T18, T19, T20, T21, T22, T23, T24, T25, T26, T27, T28, T29, T30, T31, T32)) -> (T1, T2, T3, T4, T5, T6, T7, T8, T9, T10, T11, T12, T13, T14, T15, T16, T17, T18, T19, T20, T21, T22, T23, T24, T25, T26, T27, T28, T29, T30, T31, T32) {
        (self.0, self.1, self.2, self.3, self.4, self.5, self.6, self.7, self.8, self.9, self.10, self.11, other.0, other.1, other.2, other.3, other.4, other.5, other.6, other.7, other.8, other.9, other.10, other.11, other.12, other.13, other.14, other.15, other.16, other.17, other.18, other.19)
    }

    fn join(self, other: (T13, T14, T15, T16, T17, T18, T19, T20, T21, T22, T23, T24, T25, T26, T27, T28, T29, T30, T31, T32)) -> (r: (T1, T2, T3, T4, T5, T6, T7, T8, T9, T10, T11, T12, T13, T14, T15, T16, T17, T18, T19, T20, T21, T22, T23, T24, T25, T26, T27, T28, T29, T30, T31, T32)) {
        (self.0, self.1, self.2, self.3, self.4, self.5, self.6, self.7, self.8, self.9, self.10, self.11, other.0, other.1, other.2, other.3, other.4, other.5, other.6, other.7, other.8, other.9, other.10, other.11, other.12, other.13, other.14, other.15, other.16, other.17, other.18, other.19)
    }

    proof fn lemma_join_arity(self, other: (T13, T14, T15, T16, T17, T18, T19, T20, T21, T22, T23, T24, T25, T26, T27, T28, T29, T30, T31, T32)) {
    }
}

impl<T1, T2, T3, T4, T5, T6, T7, T8, T9, T10, T11, T12, T13, T14, T15, T16, T17, T18, T19, T20, T21, T22, T23, T24, T25, T26, T27, T28, T29, T30, T31, T32> JoinableTuple<(T14, T15, T16, T17, T18, T19, T20, T21, T22, T23, T24, T25, T26, T27, T28, T29, T30, T31, T32)> for (T1, T2, T3, T4, T5, T6, T7, T8, T9, T10, T11, T12, T13) {
    type Join = (T1, T2, T3, T4, T5, T6, T7, T8, T9, T10, T11, T12, T13, T14, T15, T16, T17, T18, T19, T20, T21, T22, T23, T24, T25, T26, T27, T28, T29, T30, T31, T32);

    open spec fn spec_join(self, other: (T14, T15, T16, T17, T18, T19, T20, T21, T22, T23, T24, T25, T26, T27, T28, T29, T30, T31, T32)) -> (T1, T2, T3, T4, T5, T6, T7, T8, T9, T10, T11, T12, T13, T14, T15, T16, T17, T18, T19, T20, T21, T22, T23, T24, T25, T26, T27, T28, T29, T30, T31, T32) {
        (self.0, self.1, self.2, self.3, self.4, self.5, self.6, self.7, self.8, self.9, self.10, self.11, self.12, other.0, other.1, other.2, other.3, other.4, other.5, other.6, other.7, other.8, other.9, other.10, other.11, other.12, other.13, other.14, other.15, other.16, other.17, other.18)
    }

    fn join(self, other: (T14, T15, T16, T17, T18, T19, T20, T21, T22, T23, T24, T25, T26, T27, T28, T29, T30, T31, T32)) -> (r: (T1, T2, T3, T4, T5, T6, T7, T8, T9, T10, T11, T12, T13, T14, T15, T16, T17, T18, T19, T20, T21, T22, T23, T24, T25, T26, T27, T28, T29, T30, T31, T32)) {
        (self.0, self.1, self.2, self.3, self.4, self.5, self.6, self.7, self.8, self.9, self.10, self.11, self.12, other.0, other.1, other.2, other.3, other.4, other.5, other.6, other.7, other.8, other.9, other.10, other.11, other.12, other.13, other.14, other.15, other.16, other.17, other.18)
    }

    proof fn lemma_join_arity(self, other: (T14, T15, T16, T17, T18, T19, T20, T21, T22, T23, T24, T25, T26, T27, T28, T29, T30, T31, T32)) {
    }
}

impl<T1, T2, T3, T4, T5, T6, T7, T8, T9, T10, T11, T12, T13, T14, T15, T16, T17, T18, T19, T20, T21, T22, T23, T24, T25, T26, T27, T28, T29, T30, T31, T32> JoinableTuple<(T15, T16, T17, T18, T19, T20, T21, T22, T23, T24, T25, T26, T27, T28, T29, T30, T31, T32)> for (T1, T2, T3, T4, T5, T6, T7, T8, T9, T10, T11, T12, T13, T14) {
    type Join = (T1, T2, T3, T4, T5, T6, T7, T8, T9, T10, T11, T12, T13, T14, T15, T16, T17, T18, T19, T20, T21, T22, T23, T24, T25, T26, T27, T28, T29, T30, T31, T32);

    open spec fn spec_join(self, other: (T15, T16, T17, T18, T19, T20, T21, T22, T23, T24, T25, T26, T27, T28, T29, T30, T31, T32)) -> (T1, T2, T3, T4, T5, T6, T7, T8, T9, T10, T11, T12, T13, T14, T15, T16, T17, T18, T19, T20, T21, T22, T23, T24, T25, T26, T27, T28, T29, T30, T31, T32) {
        (self.0, self.1, self.2, self.3, self.4, self.5, self.6, self.7, self.8, self.9, self.10, self.11, self.12, self.13, other.0, other.1, other.2, other.3, other.4, other.5, other.6, other.7, other.8, other.9, other.10, other.11, other.12, other.13, other.14, other.15, other.16, other.17)
    }

    fn join(self, other: (T15, T16, T17, T18, T19, T20, T21, T22, T23, T24, T25, T26, T27, T28, T29, T30, T31, T32)) -> (r: (T1, T2, T3, T4, T5, T6, T7, T8, T9, T10, T11, T12, T13, T14, T15, T16, T17, T18, T19, T20, T21, T22, T23, T24, T25, T26, T27, T28, T29, T30, T31, T32)) {
        (self.0, self.1, self.2, self.3, self.4, self.5, self.6, self.7, self.8, self.9, self.10, self.11, self.12, self.13, other.0, other.1, other.2, other.3, other.4, other.5, other.6, other.7, other.8, other.9, other.10, other.11, other.12, other.13, other.14, other.15, other.16, other.17)
    }

    proof fn lemma_join_arity(self, other: (T15, T16, T17, T18, T19, T20, T21, T22, T23, T24, T25, T26, T27, T28, T29, T30, T31, T32)) {
    }
}

impl<T1, T2, T3, T4, T5, T6, T7, T8, T9, T10, T11, T12, T13, T14, T15, T16, T17, T18, T19, T20, T21, T22, T23, T24, T25, T26, T27, T28, T29, T30, T31, T32> JoinableTuple<(T16, T17, T18, T19, T20, T21, T22, T23, T24, T25, T26, T27, T28, T29, T30, T31, T32)> for (T1, T2, T3, T4, T5, T6, T7, T8, T9, T10, T11, T12, T13, T14, T15) {
    type Join = (T1, T2, T3, T4, T5, T6, T7, T8, T9, T10, T11, T12, T13, T14, T15, T16, T17, T18, T19, T20, T21, T22, T23, T24, T25, T26, T27, T28, T29, T30, T31, T32);

    open spec fn spec_join(self, other: (T16, T17, T18, T19, T20, T21, T22, T23, T24, T25, T26, T27, T28, T29, T30, T31, T32)) -> (T1, T2, T3, T4, T5, T6, T7, T8, T9, T10, T11, T12, T13, T14, T15, T16, T17, T18, T19, T20, T21, T22, T23, T24, T25, T26, T27, T28, T29, T30, T31, T32) {
        (self.0, self.1, self.2, self.3, self.4, self.5, self.6, self.7, self.8, self.9, self.10, self.11, self.12, self.13, self.14, other.0, other.1, other.2, other.3, other.4, other.5, other.6, other.7, other.8, other.9, other.10, other.11, other.12, other.13, other.14, other.15, other.16)
    }

    fn join(self, other: (T16, T17, T18, T19, T20, T21, T22, T23, T24, T25, T26, T27, T28, T29, T30, T31, T32)) -> (r: (T1, T2, T3, T4, T5, T6, T7, T8, T9, T10, T11, T12, T13, T14, T15, T16, T17, T18, T19, T20, T21, T22, T23, T24, T25, T26, T27, T28, T29, T30, T31, T32)) {
        (self.0, self.1, self.2, self.3, self.4, self.5, self.6, self.7, self.8, self.9, self.10, self.11, self.12, self.13, self.14, other.0, other.1, other.2, other.3, other.4, other.5, other.6, other.7, other.8, other.9, other.10, other.11, other.12, other.13, other.14, other.15, other.16)
    }

    proof fn lemma_join_arity(self, other: (T16, T17, T18, T19, T20, T21, T22, T23, T24, T25, T26, T27, T28, T29, T30, T31, T32)) {
    }
}

impl<T1, T2, T3, T4, T5, T6, T7, T8, T9, T10, T11, T12, T13, T14, T15, T16, T17, T18, T19, T20, T21, T22, T23, T24, T25, T26, T27, T28, T29, T30, T31, T32> JoinableTuple<(T17, T18, T19, T20, T21, T22, T23, T24, T25, T26, T27, T28, T29, T30, T31, T32)> for (T1, T2, T3, T4, T5, T6, T7, T8, T9, T10, T11, T12, T13, T14, T15, T16) {
    type Join = (T1, T2, T3, T4, T5, T6, T7, T8, T9, T10, T11, T12, T13, T14, T15, T16, T17, T18, T19, T20, T21, T22, T23, T24, T25, T26, T27, T28, T29, T30, T31, T32);

    open spec fn spec_join(self, other: (T17, T18, T19, T20, T21, T22, T23, T24, T25, T26, T27, T28, T29, T30, T31, T32)) -> (T1, T2, T3, T4, T5, T6, T7, T8, T9, T10, T11, T12, T13, T14, T15, T16, T17, T18, T19, T20, T21, T22, T23, T24, T25, T26, T27, T28, T29, T30, T31, T32) {
        (self.0, self.1, self.2, self.3, self.4, self.5, self.6, self.7, self.8, self.9, self.10, self.11, self.12, self.13, self.14, self.15, other.0, other.1, other.2, other.3, other.4, other.5, other.6, other.7, other.8, other.9, other.10, other.11, other.12, other.13, other.14, other.15)
    }

    fn join(self, other: (T17, T18, T19, T20, T21, T22, T23, T24, T25, T26, T27, T28, T29, T30, T31, T32)) -> (r: (T1, T2, T3, T4, T5, T6, T7, T8, T9, T10, T11, T12, T13, T14, T15, T16, T17, T18, T19, T20, T21, T22, T23, T24, T25, T26, T27, T28, T29, T30, T31, T32)) {
        (self.0, self.1, self.2, self.3, self.4, self.5, self.6, self.7, self.8, self.9, self.10, self.11, self.12, self.13, self.14, self.15, other.0, other.1, other.2, other.3, other.4, other.5, other.6, other.7, other.8, other.9, other.10, other.11, other.12, other.13, other.14, other.15)
    }

    proof fn lemma_join_arity(self, other: (T17, T18, T19, T20, T21, T22, T23, T24, T25, T26, T27, T28, T29, T30, T31, T32)) {
    }
}

impl<T1, T2, T3, T4, T5, T6, T7, T8, T9, T10, T11, T12, T13, T14, T15, T16, T17, T18, T19, T20, T21, T22, T23, T24, T25, T26, T27, T28, T29, T30, T31, T32> JoinableTuple<(T18, T19, T20, T21, T22, T23, T24, T25, T26, T27, T28, T29, T30, T31, T32)> for (T1, T2, T3, T4, T5, T6, T7, T8, T9, T10, T11, T12, T13, T14, T15, T16, T17) {
    type Join = (T1, T2, T3, T4, T5, T6, T7, T8, T9, T10, T11, T12, T13, T14, T15, T16, T17, T18, T19, T20, T21, T22, T23, T24, T25, T26, T27, T28, T29, T30, T31, T32);

    open spec fn spec_join(self, other: (T18, T19, T20, T21, T22, T23, T24, T25, T26, T27, T28, T29, T30, T31, T32)) -> (T1, T2, T3, T4, T5, T6, T7, T8, T9, T10, T11, T12, T13, T14, T15, T16, T17, T18, T19, T20, T21, T22, T23, T24, T25, T26, T27, T28, T29, T30, T31, T32) {
        (self.0, self.1, self.2, self.3, self.4, self.5, self.6, self.7, self.8, self.9, self.10, self.11, self.12, self.13, self.14, self.15, self.16, other.0, other.1, other.2, other.3, other.4, other.5, other.6, other.7, other.8, other.9, other.10, other.11, other.12, other.13, other.14)
    }

    fn join(self, other: (T18, T19, T20, T21, T22, T23, T24, T25, T26, T27, T28, T29, T30, T31, T32)) -> (r: (T1, T2, T3, T4, T5, T6, T7, T8, T9, T10, T11, T12, T13, T14, T15, T16, T17, T18, T19, T20, T21, T22, T23, T24, T25, T26, T27, T28, T29, T30, T31, T32)) {
        (self.0, self.1, self.2, self.3, self.4, self.5, self.6, self.7, self.8, self.9, self.10, self.11, self.12, self.13, self.14, self.15, self.16, other.0, other.1, other.2, other.3, other.4, other.5, other.6, other.7, other.8, other.9, other.10, other.11, other.12, other.13, other.14)
    }

    proof fn lemma_join_arity(self, other: (T18, T19, T20, T21, T22, T23, T24, T25, T26, T27, T28, T29, T30, T31, T32)) {
    }
}

impl<T1, T2, T3, T4, T5, T6, T7, T8, T9, T10, T11, T12, T13, T14, T15, T16, T17, T18, T19, T20, T21, T22, T23, T24, T25, T26, T27, T28, T29, T30, T31, T32> JoinableTuple<(T19, T20, T21, T22, T23, T24, T25, T26, T27, T28, T29, T30, T31, T32)> for (T1, T2, T3, T4, T5, T6, T7, T8, T9, T10, T11, T12, T13, T14, T15, T16, T17, T18) {
    type Join = (T1, T2, T3, T4, T5, T6, T7, T8, T9, T10, T11, T12, T13, T14, T15, T16, T17, T18, T19, T20, T21, T22, T23, T24, T25, T26, T27, T28, T29, T30, T31, T32);

    open spec fn spec_join(self, other: (T19, T20, T21, T22, T23, T24, T25, T26, T27, T28, T29, T30, T31, T32)) -> (T1, T2, T3, T4, T5, T6, T7, T8, T9, T10, T11, T12, T13, T14, T15, T16, T17, T18, T19, T20, T21, T22, T23, T24, T25, T26, T27, T28, T29, T30, T31, T32) {
        (self.0, self.1, self.2, self.3, self.4, self.5, self.6, self.7, self.8, self.9, self.10, self.11, self.12, self.13, self.14, self.15, self.16, self.17, other.0, other.1, other.2, other.3, other.4, other.5, other.6, other.7, other.8, other.9, other.10, other.11, other.12, other.13)
    }

    fn join(self, other: (T19, T20, T21, T22, T23, T24, T25, T26, T27, T28, T29, T30, T31, T32)) -> (r: (T1, T2, T3, T4, T5, T6, T7, T8, T9, T10, T11, T12, T13, T14, T15, T16, T17, T18, T19, T20, T21, T22, T23, T24, T25, T26, T27, T28, T29, T30, T31, T32)) {
        (self.0, self.1, self.2, self.3, self.4, self.5, self.6, self.7, self.8, self.9, self.10, self.11, self.12, self.13, self.14, self.15, self.16, self.17, other.0, other.1, other.2, other.3, other.4, other.5, other.6, other.7, other.8, other.9, other.10, other.11, other.12, other.13)
    }

    proof fn lemma_join_arity(self, other: (T19, T20, T21, T22, T23, T24, T25, T26, T27, T28, T29, T30, T31, T32)) {
    }
}

impl<T1, T2, T3, T4, T5, T6, T7, T8, T9, T10, T11, T12, T13, T14, T15, T16, T17, T18, T19, T20, T21, T22, T23, T24, T25, T26, T27, T28, T29, T30, T31, T32> JoinableTuple<(T20, T21, T22, T23, T24, T25, T26, T27, T28, T29, T30, T31, T32)> for (T1, T2, T3, T4, T5, T6, T7, T8, T9, T10, T11, T12, T13, T14, T15, T16, T17, T18, T19) {
    type Join = (T1, T2, T3, T4, T5, T6, T7, T8, T9, T10, T11, T12, T13, T14, T15, T16, T17, T18, T19, T20, T21, T22, T23, T24, T25, T26, T27, T28, T29, T30, T31, T32);

    open spec fn spec_join(self, other: (T20, T21, T22, T23, T24, T25, T26, T27, T28, T29, T30, T31, T32)) -> (T1, T2, T3, T4, T5, T6, T7, T8, T9, T10, T11, T12, T13, T14, T15, T16, T17, T18, T19, T20, T21, T22, T23, T24, T25, T26, T27, T28, T29, T30, T31, T32) {
        (self.0, self.1, self.2, self.3, self.4, self.5, self.6, self.7, self.8, self.9, self.10, self.11, self.12, self.13, self.14, self.15, self.16, self.17, self.18, other.0, other.1, other.2, other.3, other.4, other.5, other.6, other.7, other.8, other.9, other.10, other.11, other.12)
    }

    fn join(self, other: (T20, T21, T22, T23, T24, T25, T26, T27, T28, T29, T30, T31, T32)) -> (r: (T1, T2, T3, T4, T5, T6, T7, T8, T9, T10, T11, T12, T13, T14, T15, T16, T17, T18, T19, T20, T21, T22, T23, T24, T25, T26, T27, T28, T29, T30, T31, T32)) {
        (self.0, self.1, self.2, self.3, self.4, self.5, self.6, self.7, self.8, self.9, self.10, self.11, self.12, self.13, self.14, self.15, self.16, self.17, self.18, other.0, other.1, other.2, other.3, other.4, other.5, other.6, other.7, other.8, other.9, other.10, other.11, other.12)
    }

    proof fn lemma_join_arity(self, other: (T20, T21, T22, T23, T24, T25, T26, T27, T28, T29, T30, T31, T32)) {
    }
}

impl<T1, T2, T3, T4, T5, T6, T7, T8, T9, T10, T11, T12, T13, T14, T15, T16, T17, T18, T19, T20, T21, T22, T23, T24, T25, T26, T27, T28, T29, T30, T31, T32> JoinableTuple<(T21, T22, T23, T24, T25, T26, T27, T28, T29, T30, T31, T32)> for (T1, T2, T3, T4, T5, T6, T7, T8, T9, T10, T11, T12, T13, T14, T15, T16, T17, T18, T19, T20) {
    type Join = (T1, T2, T3, T4, T5, T6, T7, T8, T9, T10, T11, T12, T13, T14, T15, T16, T17, T18, T19, T20, T21, T22, T23, T24, T25, T26, T27, T28, T29, T30, T31, T32);

    open spec fn spec_join(self, other: (T21, T22, T23, T24, T25, T26, T27, T28, T29, T30, T31, T32)) -> (T1, T2, T3, T4, T5, T6, T7, T8, T9, T10, T11, T12, T13, T14, T15, T16, T17, T18, T19, T20, T21, T22, T23, T24, T25, T26, T27, T28, T29, T30, T31, T32) {
        (self.0, self.1, self.2, self.3, self.4, self.5, self.6, self.7, self.8, self.9, self.10, self.11, self.12, self.13, self.14, self.15, self.16, self.17, self.18, self.19, other.0, other.1, other.2, other.3, other.4, other.5, other.6, other.7, other.8, other.9, other.10, other.11)
    }

    fn join(self, other: (T21, T22, T23, T24, T25, T26, T27, T28, T29, T30, T31, T32)) -> (r: (T1, T2, T3, T4, T5, T6, T7, T8, T9, T10, T11, T12, T13, T14, T15, T16, T17, T18, T19, T20, T21, T22, T23, T24, T25, T26, T27, T28, T29, T30, T31, T32)) {
        (self.0, self.1, self.2, self.3, self.4, self.5, self.6, self.7, self.8, self.9, self.10, self.11, self.12, self.13, self.14, self.15, self.16, self.17, self.18, self.19, other.0, other.1, other.2, other.3, other.4, other.5, other.6, other.7, other.8, other.9, other.10, other.11)
    }

    proof fn lemma_join_arity(self, other: (T21, T22, T23, T24, T25, T26, T27, T28, T29, T30, T31, T32)) {
    }
}

impl<T1, T2, T3, T4, T5, T6, T7, T8, T9, T10, T11, T12, T13, T14, T15, T16, T17, T18, T19, T20, T21, T22, T23, T24, T25, T26, T27, T28, T29, T30, T31, T32> JoinableTuple<(T22, T23, T24, T25, T26, T27, T28, T29, T30, T31, T32)> for (T1, T2, T3, T4, T5, T6, T7, T8, T9, T10, T11, T12, T13, T14, T15, T16, T17, T18, T19, T20, T21) {
    type Join = (T1, T2, T3, T4, T5, T6, T7, T8, T9, T10, T11, T12, T13, T14, T15, T16, T17, T18, T19, T20, T21, T22, T23, T24, T25, T26, T27, T28, T29, T30, T31, T32);

    open spec fn spec_join(self, other: (T22, T23, T24, T25, T26, T27, T28, T29, T30, T31, T32)) -> (T1, T2, T3, T4, T5, T6, T7, T8, T9, T10, T11, T12, T13, T14, T15, T16, T17, T18, T19, T20, T21, T22, T23, T24, T25, T26, T27, T28, T29, T30, T31, T32) {
        (self.0, self.1, self.2, self.3, self.4, self.5, self.6, self.7, self.8, self.9, self.10, self.11, self.12, self.13, self.14, self.15, self.16, self.17, self.18, self.19, self.20, other.0, other.1, other.2, other.3, other.4, other.5, other.6, other.7, other.8, other.9, other.10)
    }

    fn join(self, other: (T22, T23, T24, T25, T26, T27, T28, T29, T30, T31, T32)) -> (r: (T1, T2, T3, T4, T5, T6, T7, T8, T9, T10, T11, T12, T13, T14, T15, T16, T17, T18, T19, T20, T21, T22, T23, T24, T25, T26, T27, T28, T29, T30, T31, T32)) {
        (self.0, self.1, self.2, self.3, self.4, self.5, self.6, self.7, self.8, self.9, self.10, self.11, self.12, self.13, self.14, self.15, self.16, self.17, self.18, self.19, self.20, other.0, other.1, other.2, other.3, other.4, other.5, other.6, other.7, other.8, other.9, other.10)
    }

    proof fn lemma_join_arity(self, other: (T22, T23, T24, T25, T26, T27, T28, T29, T30, T31, T32)) {
    }
}

impl<T1, T2, T3, T4, T5, T6, T7, T8, T9, T10, T11, T12, T13, T14, T15, T16, T17, T18, T19, T20, T21, T22, T23, T24, T25, T26, T27, T28, T29, T30, T31, T32> JoinableTuple<(T23, T24, T25, T26, T27, T28, T29, T30, T31, T32)> for (T1, T2, T3, T4, T5, T6, T7, T8, T9, T10, T11, T12, T13, T14, T15, T16, T17, T18, T19, T20, T21, T22) {
    type Join = (T1, T2, T3, T4, T5, T6, T7, T8, T9, T10, T11, T12, T13, T14, T15, T16, T17, T18, T19, T20, T21, T22, T23, T24, T25, T26, T27, T28, T29, T30, T31, T32);

    open spec fn spec_join(self, other: (T23, T24, T25, T26, T27, T28, T29, T30, T31, T32)) -> (T1, T2, T3, T4, T5, T6, T7, T8, T9, T10, T11, T12, T13, T14, T15, T16, T17, T18, T19, T20, T21, T22, T23, T24, T25, T26, T27, T28, T29, T30, T31, T32) {
        (self.0, self.1, self.2, self.3, self.4, self.5, self.6, self.7, self.8, self.9, self.10, self.11, self.12, self.13, self.14, self.15, self.16, self.17, self.18, self.19, self.20, self.21, other.0, other.1, other.2, other.3, other.4, other.5, other.6, other.7, other.8, other.9)
    }

    fn join(self, other: (T23, T24, T25, T26, T27, T28, T29, T30, T31, T32)) -> (r: (T1, T2, T3, T4, T5, T6, T7, T8, T9, T10, T11, T12, T13, T14, T15, T16, T17, T18, T19, T20, T21, T22, T23, T24, T25, T26, T27, T28, T29, T30, T31, T32)) {
        (self.0, self.1, self.2, self.3, self.4, self.5, self.6, self.7, self.8, self.9, self.10, self.11, self.12, self.13, self.14, self.15, self.16, self.17, self.18, self.19, self.20, self.21, other.0, other.1, other.2, other.3, other.4, other.5, other.6, other.7, other.8, other.9)
    }

    proof fn lemma_join_arity(self, other: (T23, T24, T25, T26, T27, T28, T29, T30, T31, T32)) {
    }
}

impl<T1, T2, T3, T4, T5, T6, T7, T8, T9, T10, T11, T12, T13, T14, T15, T16, T17, T18, T19, T20, T21, T22, T23, T24, T25, T26, T27, T28, T29, T30, T31, T32> JoinableTuple<(T24, T25, T26, T27, T28, T29, T30, T31, T32)> for (T1, T2, T3, T4, T5, T6, T7, T8, T9, T10, T11, T12, T13, T14, T15, T16, T17, T18, T19, T20, T21, T22, T23) {
    type Join = (T1, T2, T3, T4, T5, T6, T7, T8, T9, T10, T11, T12, T13, T14, T15, T16, T17, T18, T19, T20, T21, T22, T23, T24, T25, T26, T27, T28, T29, T30, T31, T32);

    open spec fn spec_join(self, other: (T24, T25, T26, T27, T28, T29, T30, T31, T32)) -> (T1, T2, T3, T4, T5, T6, T7, T8, T9, T10, T11, T12, T13, T14, T15, T16, T17, T18, T19, T20, T21, T22, T23, T24, T25, T26, T27, T28, T29, T30, T31, T32) {
        (self.0, self.1, self.2, self.3, self.4, self.5, self.6, self.7, self.8, self.9, self.10, self.11, self.12, self.13, self.14, self.15, self.16, self.17, self.18, self.19, self.20, self.21, self.22, other.0, other.1, other.2, other.3, other.4, other.5, other.6, other.7, other.8)
    }

    fn join(self, other: (T24, T25, T26, T27, T28, T29, T30, T31, T32)) -> (r: (T1, T2, T3, T4, T5, T6, T7, T8, T9, T10, T11, T12, T13, T14, T15, T16, T17, T18, T19, T20, T21, T22, T23, T24, T25, T26, T27, T28, T29, T30, T31, T32)) {
        (self.0, self.1, self.2, self.3, self.4, self.5, self.6, self.7, self.8, self.9, self.10, self.11, self.12, self.13, self.14, self.15, self.16, self.17, self.18, self.19, self.20, self.21, self.22, other.0, other.1, other.2, other.3, other.4, other.5, other.6, other.7, other.8)
    }

    proof fn lemma_join_arity(self, other: (T24, T25, T26, T27, T28, T29, T30, T31, T32)) {
    }
}

impl<T1, T2, T3, T4, T5, T6, T7, T8, T9, T10, T11, T12, T13, T14, T15, T16, T17, T18, T19, T20, T21, T22, T23, T24, T25, T26, T27, T28, T29, T30, T31, T32> JoinableTuple<(T25, T26, T27, T28, T29, T30, T31, T32)> for (T1, T2, T3, T4, T5, T6, T7, T8, T9, T10, T11, T12, T13, T14, T15, T16, T17, T18, T19, T20, T21, T22, T23, T24) {
    type Join = (T1, T2, T3, T4, T5, T6, T7, T8, T9, T10, T11, T12, T13, T14, T15, T16, T17, T18, T19, T20, T21, T22, T23, T24, T25, T26, T27, T28, T29, T30, T31, T32);

    open spec fn spec_join(self, other: (T25, T26, T27, T28, T29, T30, T31, T32)) -> (T1, T2, T3, T4, T5, T6, T7, T8, T9, T10, T11, T12, T13, T14, T15, T16, T17, T18, T19, T20, T21, T22, T23, T24, T25, T26, T27, T28, T29, T30, T31, T32) {
        (self.0, self.1, self.2, self.3, self.4, self.5, self.6, self.7, self.8, self.9, self.10, self.11, self.12, self.13, self.14, self.15, self.16, self.17, self.18, self.19, self.20, self.21, self.22, self.23, other.0, other.1, other.2, other.3, other.4, other.5, other.6, other.7)
    }

    fn join(self, other: (T25, T26, T27, T28, T29, T30, T31, T32)) -> (r: (T1, T2, T3, T4, T5, T6, T7, T8, T9, T10, T11, T12, T13, T14, T15, T16, T17, T18, T19, T20, T21, T22, T23, T24, T25, T26, T27, T28, T29, T30, T31, T32)) {
        (self.0, self.1, self.2, self.3, self.4, self.5, self.6, self.7, self.8, self.9, self.10, self.11, self.12, self.13, self.14, self.15, self.16, self.17, self.18, self.19, self.20, self.21, self.22, self.23, other.0, other.1, other.2, other.3, other.4, other.5, other.6, other.7)
    }

    proof fn lemma_join_arity(self, other: (T25, T26, T27, T28, T29, T30, T31, T32)) {
    }
}

impl<T1, T2, T3, T4, T5, T6, T7, T8, T9, T10, T11, T12, T13, T14, T15, T16, T17, T18, T19, T20, T21, T22, T23, T24, T25, T26, T27, T28, T29, T30, T31, T32> JoinableTuple<(T26, T27, T28, T29, T30, T31, T32)> for (T1, T2, T3, T4, T5, T6, T7, T8, T9, T10, T11, T12, T13, T14, T15, T16, T17, T18, T19, T20, T21, T22, T23, T24, T25) {
    type Join = (T1, T2, T3, T4, T5, T6, T7, T8, T9, T10, T11, T12, T13, T14, T15, T16, T17, T18, T19, T20, T21, T22, T23, T24, T25, T26, T27, T28, T29, T30, T31, T32);

    open spec fn spec_join(self, other: (T26, T27, T28, T29, T30, T31, T32)) -> (T1, T2, T3, T4, T5, T6, T7, T8, T9, T10, T11, T12, T13, T14, T15, T16, T17, T18, T19, T20, T21, T22, T23, T24, T25, T26, T27, T28, T29, T30, T31, T32) {
        (self.0, self.1, self.2, self.3, self.4, self.5, self.6, self.7, self.8, self.9, self.10, self.11, self.12, self.13, self.14, self.15, self.16, self.17, self.18, self.19, self.20, self.21, self.22, self.23, self.24, other.0, other.1, other.2, other.3, other.4, other.5, other.6)
    }

    fn join(self, other: (T26, T27, T28, T29, T30, T31, T32)) -> (r: (T1, T2, T3, T4, T5, T6, T7, T8, T9, T10, T11, T12, T13, T14, T15, T16, T17, T18, T19, T20, T21, T22, T23, T24, T25, T26, T27, T28, T29, T30, T31, T32)) {
        (self.0, self.1, self.2, self.3, self.4, self.5, self.6, self.7, self.8, self.9, self.10, self.11, self.12, self.13, self.14, self.15, self.16, self.17, self.18, self.19, self.20, self.21, self.22, self.23, self.24, other.0, other.1, other.2, other.3, other.4, other.5, other.6)
    }

    proof fn lemma_join_arity(self, other: (T26, T27, T28, T29, T30, T31, T32)) {
    }
}

impl<T1, T2, T3, T4, T5, T6, T7, T8, T9, T10, T11, T12, T13, T14, T15, T16, T17, T18, T19, T20, T21, T22, T23, T24, T25, T26, T27, T28, T29, T30, T31, T32> JoinableTuple<(T27, T28, T29, T30, T31, T32)> for (T1, T2, T3, T4, T5, T6, T7, T8, T9, T10, T11, T12, T13, T14, T15, T16, T17, T18, T19, T20, T21, T22, T23, T24, T25, T26) {
    type Join = (T1, T2, T3, T4, T5, T6, T7, T8, T9, T10, T11, T12, T13, T14, T15, T16, T17, T18, T19, T20, T21, T22, T23, T24, T25, T26, T27, T28, T29, T30, T31, T32);

    open spec fn spec_join(self, other: (T27, T28, T29, T30, T31, T32)) -> (T1, T2, T3, T4, T5, T6, T7, T8, T9, T10, T11, T12, T13, T14, T15, T16, T17, T18, T19, T20, T21, T22, T23, T24, T25, T26, T27, T28, T29, T30, T31, T32) {
        (self.0, self.1, self.2, self.3, self.4, self.5, self.6, self.7, self.8, self.9, self.10, self.11, self.12, self.13, self.14, self.15, self.16, self.17, self.18, self.19, self.20, self.21, self.22, self.23, self.24, self.25, other.0, other.1, other.2, other.3, other.4, other.5)
    }

    fn join(self, other: (T27, T28, T29, T30, T31, T32)) -> (r: (T1, T2, T3, T4, T5, T6, T7, T8, T9, T10, T11, T12, T13, T14, T15, T16, T17, T18, T19, T20, T21, T22, T23, T24, T25, T26, T27, T28, T29, T30, T31, T32)) {
        (self.0, self.1, self.2, self.3, self.4, self.5, self.6, self.7, self.8, self.9, self.10, self.11, self.12, self.13, self.14, self.15, self.16, self.17, self.18, self.19, self.20, self.21, self.22, self.23, self.24, self.25, other.0, other.1, other.2, other.3, other.4, other.5)
    }

    proof fn lemma_join_arity(self, other: (T27, T28, T29, T30, T31, T32)) {
    }
}

impl<T1, T2, T3, T4, T5, T6, T7, T8, T9, T10, T11, T12, T13, T14, T15, T16, T17, T18, T19, T20, T21, T22, T23, T24, T25, T26, T27, T28, T29, T30, T31, T32> JoinableTuple<(T28, T29, T30, T31, T32)> for (T1, T2, T3, T4, T5, T6, T7, T8, T9, T10, T11, T12, T13, T14, T15, T16, T17, T18, T19, T20, T21, T22, T23, T24, T25, T26, T27) {
    type Join = (T1, T2, T3, T4, T5, T6, T7, T8, T9, T10, T11, T12, T13, T14, T15, T16, T17, T18, T19, T20, T21, T22, T23, T24, T25, T26, T27, T28, T29, T30, T31, T32);

    open spec fn spec_join(self, other: (T28, T29, T30, T31, T32)) -> (T1, T2, T3, T4, T5, T6, T7, T8, T9, T10, T11, T12, T13, T14, T15, T16, T17, T18, T19, T20, T21, T22, T23, T24, T25, T26, T27, T28, T29, T30, T31, T32) {
        (self.0, self.1, self.2, self.3, self.4, self.5, self.6, self.7, self.8, self.9, self.10, self.11, self.12, self.13, self.14, self.15, self.16, self.17, self.18, self.19, self.20, self.21, self.22, self.23, self.24, self.25, self.26, other.0, other.1, other.2, other.3, other.4)
    }

    fn join(self, other: (T28, T29, T30, T31, T32)) -> (r: (T1, T2, T3, T4, T5, T6, T7, T8, T9, T10, T11, T12, T13, T14, T15, T16, T17, T18, T19, T20, T21, T22, T23, T24, T25, T26, T27, T28, T29, T30, T31, T32)) {
        (self.0, self.1, self.2, self.3, self.4, self.5, self.6, self.7, self.8, self.9, self.10, self.11, self.12, self.13, self.14, self.15, self.16, self.17, self.18, self.19, self.20, self.21, self.22, self.23, self.24, self.25, self.26, other.0, other.1, other.2, other.3, other.4)
    }

    proof fn lemma_join_arity(self, other: (T28, T29, T30, T31, T32)) {
    }
}

impl<T1, T2, T3, T4, T5, T6, T7, T8, T9, T10, T11, T12, T13, T14, T15, T16, T17, T18, T19, T20, T21, T22, T23, T24, T25, T26, T27, T28, T29, T30, T31, T32> JoinableTuple<(T29, T30, T31, T32)> for (T1, T2, T3, T4, T5, T6, T7, T8, T9, T10, T11, T12, T13, T14, T15, T16, T17, T18, T19, T20, T21, T22, T23, T24, T25, T26, T27, T28) {
    type Join = (T1, T2, T3, T4, T5, T6, T7, T8, T9, T10, T11, T12, T13, T14, T15, T16, T17, T18, T19, T20, T21, T22, T23, T24, T25, T26, T27, T28, T29, T30, T31, T32);

    open spec fn spec_join(self, other: (T29, T30, T31, T32)) -> (T1, T2, T3, T4, T5, T6, T7, T8, T9, T10, T11, T12, T13, T14, T15, T16, T17, T18, T19, T20, T21, T22, T23, T24, T25, T26, T27, T28, T29, T30, T31, T32) {
        (self.0, self.1, self.2, self.3, self.4, self.5, self.6, self.7, self.8, self.9, self.10, self.11, self.12, self.13, self.14, self.15, self.16, self.17, self.18, self.19, self.20, self.21, self.22, self.23, self.24, self.25, self.26, self.27, other.0, other.1, other.2, other.3)
    }

    fn join(self, other: (T29, T30, T31, T32)) -> (r: (T1, T2, T3, T4, T5, T6, T7, T8, T9, T10, T11, T12, T13, T14, T15, T16, T17, T18, T19, T20, T21, T22, T23, T24, T25, T26, T27, T28, T29, T30, T31, T32)) {
        (self.0, self.1, self.2, self.3, self.4, self.5, self.6, self.7, self.8, self.9, self.10, self.11, self.12, self.13, self.14, self.15, self.16, self.17, self.18, self.19, self.20, self.21, self.22, self.23, self.24, self.25, self.26, self.27, other.0, other.1, other.2, other.3)
    }

    proof fn lemma_join_arity(self, other: (T29, T30, T31, T32)) {
    }
}

impl<T1, T2, T3, T4, T5, T6, T7, T8, T9, T10, T11, T12, T13, T14, T15, T16, T17, T18, T19, T20, T21, T22, T23, T24, T25, T26, T27, T28, T29, T30, T31, T32> JoinableTuple<(T30, T31, T32)> for (T1, T2, T3, T4, T5, T6, T7, T8, T9, T10, T11, T12, T13, T14, T15, T16, T17, T18, T19, T20, T21, T22, T23, T24, T25, T26, T27, T28, T29) {
    type Join = (T1, T2, T3, T4, T5, T6, T7, T8, T9, T10, T11, T12, T13, T14, T15, T16, T17, T18, T19, T20, T21, T22, T23, T24, T25, T26, T27, T28, T29, T30, T31, T32);

    open spec fn spec_join(self, other: (T30, T31, T32)) -> (T1, T2, T3, T4, T5, T6, T7, T8, T9, T10, T11, T12, T13, T14, T15, T16, T17, T18, T19, T20, T21, T22, T23, T24, T25, T26, T27, T28, T29, T30, T31, T32) {
        (self.0, self.1, self.2, self.3, self.4, self.5, self.6, self.7, self.8, self.9, self.10, self.11, self.12, self.13, self.14, self.15, self.16, self.17, self.18, self.19, self.20, self.21, self.22, self.23, self.24, self.25, self.26, self.27, self.28, other.0, other.1, other.2)
    }

    fn join(self, other: (T30, T31, T32)) -> (r: (T1, T2, T3, T4, T5, T6, T7, T8, T9, T10, T11, T12, T13, T14, T15, T16, T17, T18, T19, T20, T21, T22, T23, T24, T25, T26, T27, T28, T29, T30, T31, T32)) {
        (self.0, self.1, self.2, self.3, self.4, self.5, self.6, self.7, self.8, self.9, self.10, self.11, self.12, self.13, self.14, self.15, self.16, self.17, self.18, self.19, self.20, self.21, self.22, self.23, self.24, self.25, self.26, self.27, self.28, other.0, other.1, other.2)
    }

    proof fn lemma_join_arity(self, other: (T30, T31, T32)) {
    }
}

impl<T1, T2, T3, T4, T5, T6, T7, T8, T9, T10, T11, T12, T13, T14, T15, T16, T17, T18, T19, T20, T21, T22, T23, T24, T25, T26, T27, T28, T29, T30, T31, T32> JoinableTuple<(T31, T32)> for (T1, T2, T3, T4, T5, T6, T7, T8, T9, T10, T11, T12, T13, T14, T15, T16, T17, T18, T19, T20, T21, T22, T23, T24, T25, T26, T27, T28, T29, T30) {
    type Join = (T1, T2, T3, T4, T5, T6, T7, T8, T9, T10, T11, T12, T13, T14, T15, T16, T17, T18, T19, T20, T21, T22, T23, T24, T25, T26, T27, T28, T29, T30, T31, T32);

    open spec fn spec_join(self, other: (T31, T32)) -> (T1, T2, T3, T4, T5, T6, T7, T8, T9, T10, T11, T12, T13, T14, T15, T16, T17, T18, T19, T20, T21, T22, T23, T24, T25, T26, T27, T28, T29, T30, T31, T32) {
        (self.0, self.1, self.2, self.3, self.4, self.5, self.6, self.7, self.8, self.9, self.10, self.11, self.12, self.13, self.14, self.15, self.16, self.17, self.18, self.19, self.20, self.21, self.22, self.23, self.24, self.25, self.26, self.27, self.28, self.29, other.0, other.1)
    }

    fn join(self, other: (T31, T32)) -> (r: (T1, T2, T3, T4, T5, T6, T7, T8, T9, T10, T11, T12, T13, T14, T15, T16, T17, T18, T19, T20, T21, T22, T23, T24, T25, T26, T27, T28, T29, T30, T31, T32)) {
        (self.0, self.1, self.2, self.3, self.4, self.5, self.6, self.7, self.8, self.9, self.10, self.11, self.12, self.13, self.14, self.15, self.16, self.17, self.18, self.19, self.20, self.21, self.22, self.23, self.24, self.25, self.26, self.27, self.28, self.29, other.0, other.1)
    }

    proof fn lemma_join_arity(self, other: (T31, T32)) {
    }
}

impl<T1, T2, T3, T4, T5, T6, T7, T8, T9, T10, T11, T12, T13, T14, T15, T16, T17, T18, T19, T20, T21, T22, T23, T24, T25, T26, T27, T28, T29, T30, T31, T32> JoinableTuple<(T32,)> for (T1, T2, T3, T4, T5, T6, T7, T8, T9, T10, T11, T12, T13, T14, T15, T16, T17, T18, T19, T20, T21, T22, T23, T24, T25, T26, T27, T28, T29, T30, T31) {
    type Join = (T1, T2, T3, T4, T5, T6, T7, T8, T9, T10, T11, T12, T13, T14, T15, T16, T17, T18, T19, T20, T21, T22, T23, T24, T25, T26, T27, T28, T29, T30, T31, T32);

    open spec fn spec_join(self, other: (T32,)) -> (T1, T2, T3, T4, T5, T6, T7, T8, T9, T10, T11, T12, T13, T14, T15, T16, T17, T18, T19, T20, T21, T22, T23, T24, T25, T26, T27, T28, T29, T30, T31, T32) {
        (self.0, self.1, self.2, self.3, self.4, self.5, self.6, self.7, self.8, self.9, self.10, self.11, self.12, self.13, self.14, self.15, self.16, self.17, self.18, self.19, self.20, self.21, self.22, self.23, self.24, self.25, self.26, self.27, self.28, self.29, self.30, other.0)
    }

    fn join(self, other: (T32,)) -> (r: (T1, T2, T3, T4, T5, T6, T7, T8, T9, T10, T11, T12, T13, T14, T15, T16, T17, T18, T19, T20, T21, T22, T23, T24, T25, T26, T27, T28, T29, T30, T31, T32)) {
        (self.0, self.1, self.2, self.3, self.4, self.5, self.6, self.7, self.8, self.9, self.10, self.11, self.12, self.13, self.14, self.15, self.16, self.17, self.18, self.19, self.20, self.21, self.22, self.23, self.24, self.25, self.26, self.27, self.28, self.29, self.30, other.0)
    }

    proof fn lemma_join_arity(self, other: (T32,)) {
    }
}

impl<T1, T2, T3, T4, T5, T6, T7, T8, T9, T10, T11, T12, T13, T14, T15, T16, T17, T18, T19, T20, T21, T22, T23, T24, T25, T26, T27, T28, T29, T30, T31, T32> JoinableTuple<()> for (T1, T2, T3, T4, T5, T6, T7, T8, T9, T10, T11, T12, T13, T14, T15, T16, T17, T18, T19, T20, T21, T22, T23, T24, T25, T26, T27, T28, T29, T30, T31, T32) {
    type Join = (T1, T2, T3, T4, T5, T6, T7, T8, T9, T10, T11, T12, T13, T14, T15, T16, T17, T18, T19, T20, T21, T22, T23, T24, T25, T26, T27, T28, T29, T30, T31, T32);

    open spec fn spec_join(self, other: ()) -> (T1, T2, T3, T4, T5, T6, T7, T8, T9, T10, T11, T12, T13, T14, T15, T16, T17, T18, T19, T20, T21, T22, T23, T24, T25, T26, T27, T28, T29, T30, T31, T32) {
        (self.0, self.1, self.2, self.3, self.4, self.5, self.6, self.7, self.8, self.9, self.10, self.11, self.12, self.13, self.14, self.15, self.16, self.17, self.18, self.19, self.20, self.21, self.22, self.23, self.24, self.25, self.26, self.27, self.28, self.29, self.30, self.31)
    }

    fn join(self, other: ()) -> (r: (T1, T2, T3, T4, T5, T6, T7, T8, T9, T10, T11, T12, T13, T14, T15, T16, T17, T18, T19, T20, T21, T22, T23, T24, T25, T26, T27, T28, T29, T30, T31, T32)) {
        (self.0, self.1, self.2, self.3, self.4, self.5, self.6, self.7, self.8, self.9, self.10, self.11, self.12, self.13, self.14, self.15, self.16, self.17, self.18, self.19, self.20, self.21, self.22, self.23, self.24, self.25, self.26, self.27, self.28, self.29, self.30, self.31)
    }

    proof fn lemma_join_arity(self, other: ()) {
    }
}
} // verus!
