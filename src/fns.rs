//! Tuples as argument lists: calling a function with the components of a
//! tuple, and naming what such a function returns.
use vstd::prelude::*;
use crate::tuple::Tuple;

verus! {

/// Functions that are called by value with the components of a `T`.
pub trait FnOnce<T: Tuple> {
    /// The return type of this function.
    type Output;

    /// What a call with `args` requires.
    spec fn spec_requires(&self, args: T) -> bool;

    /// What a call with `args` that returned `output` ensures.
    spec fn spec_ensures(&self, args: T, output: Self::Output) -> bool;

    /// Calls the function by value.
    fn call_once(self, args: T) -> (r: Self::Output)
        requires
            self.spec_requires(args),
        ensures
            self.spec_ensures(args, r),
    ;
}

/// Functions that can be called by mutable reference.
pub trait FnMut<T: Tuple>: FnOnce<T> {
    /// Calls the function by mutable reference.
    fn call_mut(&mut self, args: T) -> (r: Self::Output)
        requires
            old(self).spec_requires(args),
        ensures
            old(self).spec_ensures(args, r),
    ;
}

/// Functions that can be called by reference.
pub trait Fn<T: Tuple>: FnMut<T> {
    /// Calls the function by reference.
    fn call(&self, args: T) -> (r: Self::Output)
        requires
            self.spec_requires(args),
        ensures
            self.spec_ensures(args, r),
    ;
}

/// Functions that are called by value and return an `Option`.
pub trait FnOptionOnce<T: Tuple>: FnOnce<T, Output = Option<Self::Some>> {
    /// The `Some` variant of the returned `Option`.
    type Some;
}

impl<T: Tuple, F: FnOnce<T, Output = Option<S>>, S> FnOptionOnce<T> for F {
    type Some = S;
}

/// Functions that can be called by mutable reference and return an `Option`.
pub trait FnOptionMut<T: Tuple>: FnMut<T> + FnOptionOnce<T> {}

impl<T: Tuple, F: FnMut<T> + FnOptionOnce<T>> FnOptionMut<T> for F {}

/// Functions that can be called by reference and return an `Option`.
pub trait FnOption<T: Tuple>: Fn<T> + FnOptionMut<T> {}

impl<T: Tuple, F: Fn<T> + FnOptionMut<T>> FnOption<T> for F {}

/// Functions that are called by value and return a `Result`.
pub trait FnResultOnce<T: Tuple>: FnOnce<T, Output = Result<Self::Ok, Self::Err>> {
    /// The `Ok` variant of the returned `Result`.
    type Ok;

    /// The `Err` variant of the returned `Result`.
    type Err;
}

impl<T: Tuple, F: FnOnce<T, Output = Result<O, E>>, O, E> FnResultOnce<T> for F {
    type Ok = O;
    type Err = E;
}

/// Functions that can be called by mutable reference and return a `Result`.
pub trait FnResultMut<T: Tuple>: FnMut<T> + FnResultOnce<T> {}

impl<T: Tuple, F: FnMut<T> + FnResultOnce<T>> FnResultMut<T> for F {}

/// Functions that can be called by reference and return a `Result`.
pub trait FnResult<T: Tuple>: Fn<T> + FnResultMut<T> {}

impl<T: Tuple, F: Fn<T> + FnResultMut<T>> FnResult<T> for F {}

/// Functions that are called by value and return an `Iterator`.
pub trait FnIteratorOnce<T: Tuple>: FnOnce<T, Output: Iterator<Item = Self::Item>> {
    /// The item that the returned `Iterator` yields.
    type Item;
}

impl<T: Tuple, F: FnOnce<T, Output: Iterator>> FnIteratorOnce<T> for F {
    type Item = <F::Output as Iterator>::Item;
}

/// Functions that can be called by mutable reference and return an `Iterator`.
/// The bound on the output is spelled out again, as Verus does not carry it
/// over from `FnIteratorOnce`.
pub trait FnIteratorMut<T: Tuple>: FnMut<T> + FnIteratorOnce<T> where
    <Self as FnOnce<T>>::Output: Iterator<Item = <Self as FnIteratorOnce<T>>::Item>,
{
}

impl<T: Tuple, F: FnMut<T> + FnIteratorOnce<T>> FnIteratorMut<T> for F where
    <F as FnOnce<T>>::Output: Iterator<Item = <F as FnIteratorOnce<T>>::Item>,
{
}

/// Functions that can be called by reference and return an `Iterator`.
pub trait FnIterator<T: Tuple>: Fn<T> + FnIteratorMut<T> where
    <Self as FnOnce<T>>::Output: Iterator<Item = <Self as FnIteratorOnce<T>>::Item>,
{
}

impl<T: Tuple, F: Fn<T> + FnIteratorMut<T>> FnIterator<T> for F where
    <F as FnOnce<T>>::Output: Iterator<Item = <F as FnIteratorOnce<T>>::Item>,
{
}

/// Call forwarding: a function that takes the components of a tuple as its
/// arguments can be called with the tuple, for the arities 0 to 32.
impl<Func: core::ops::FnOnce() -> Out, Out> FnOnce<()> for Func {
    type Output = Out;

    open spec fn spec_requires(&self, args: ()) -> bool {
        self.requires(args)
    }

    open spec fn spec_ensures(&self, args: (), output: Out) -> bool {
        self.ensures(args, output)
    }

    fn call_once(self, args: ()) -> (r: Out) {
        self()
    }
}

impl<Func: core::ops::FnMut() -> Out, Out> FnMut<()> for Func {
    fn call_mut(&mut self, args: ()) -> (r: Out) {
        self()
    }
}

impl<Func: core::ops::Fn() -> Out, Out> Fn<()> for Func {
    fn call(&self, args: ()) -> (r: Out) {
        self()
    }
}

impl<T1, Func: core::ops::FnOnce(T1) -> Out, Out> FnOnce<(T1,)> for Func {
    type Output = Out;

    open spec fn spec_requires(&self, args: (T1,)) -> bool {
        self.requires(args)
    }

    open spec fn spec_ensures(&self, args: (T1,), output: Out) -> bool {
        self.ensures(args, output)
    }

    fn call_once(self, args: (T1,)) -> (r: Out) {
        let (a0,) = args;
        self(a0)
    }
}

impl<T1, Func: core::ops::FnMut(T1) -> Out, Out> FnMut<(T1,)> for Func {
    fn call_mut(&mut self, args: (T1,)) -> (r: Out) {
        let (a0,) = args;
        self(a0)
    }
}

impl<T1, Func: core::ops::Fn(T1) -> Out, Out> Fn<(T1,)> for Func {
    fn call(&self, args: (T1,)) -> (r: Out) {
        let (a0,) = args;
        self(a0)
    }
}

impl<T1, T2, Func: core::ops::FnOnce(T1, T2) -> Out, Out> FnOnce<(T1, T2)> for Func {
    type Output = Out;

    open spec fn spec_requires(&self, args: (T1, T2)) -> bool {
        self.requires(args)
    }

    open spec fn spec_ensures(&self, args: (T1, T2), output: Out) -> bool {
        self.ensures(args, output)
    }

    fn call_once(self, args: (T1, T2)) -> (r: Out) {
        let (a0, a1) = args;
        self(a0, a1)
    }
}

impl<T1, T2, Func: core::ops::FnMut(T1, T2) -> Out, Out> FnMut<(T1, T2)> for Func {
    fn call_mut(&mut self, args: (T1, T2)) -> (r: Out) {
        let (a0, a1) = args;
        self(a0, a1)
    }
}

impl<T1, T2, Func: core::ops::Fn(T1, T2) -> Out, Out> Fn<(T1, T2)> for Func {
    fn call(&self, args: (T1, T2)) -> (r: Out) {
        let (a0, a1) = args;
        self(a0, a1)
    }
}

impl<T1, T2, T3, Func: core::ops::FnOnce(T1, T2, T3) -> Out, Out> FnOnce<(T1, T2, T3)> for Func {
    type Output = Out;

    open spec fn spec_requires(&self, args: (T1, T2, T3)) -> bool {
        self.requires(args)
    }

    open spec fn spec_ensures(&self, args: (T1, T2, T3), output: Out) -> bool {
        self.ensures(args, output)
    }

    fn call_once(self, args: (T1, T2, T3)) -> (r: Out) {
        let (a0, a1, a2) = args;
        self(a0, a1, a2)
    }
}

impl<T1, T2, T3, Func: core::ops::FnMut(T1, T2, T3) -> Out, Out> FnMut<(T1, T2, T3)> for Func {
    fn call_mut(&mut self, args: (T1, T2, T3)) -> (r: Out) {
        let (a0, a1, a2) = args;
        self(a0, a1, a2)
    }
}

impl<T1, T2, T3, Func: core::ops::Fn(T1, T2, T3) -> Out, Out> Fn<(T1, T2, T3)> for Func {
    fn call(&self, args: (T1, T2, T3)) -> (r: Out) {
        let (a0, a1, a2) = args;
        self(a0, a1, a2)
    }
}

impl<T1, T2, T3, T4, Func: core::ops::FnOnce(T1, T2, T3, T4) -> Out, Out> FnOnce<(T1, T2, T3, T4)> for Func {
    type Output = Out;

    open spec fn spec_requires(&self, args: (T1, T2, T3, T4)) -> bool {
        self.requires(args)
    }

    open spec fn spec_ensures(&self, args: (T1, T2, T3, T4), output: Out) -> bool {
        self.ensures(args, output)
    }

    fn call_once(self, args: (T1, T2, T3, T4)) -> (r: Out) {
        let (a0, a1, a2, a3) = args;
        self(a0, a1, a2, a3)
    }
}

impl<T1, T2, T3, T4, Func: core::ops::FnMut(T1, T2, T3, T4) -> Out, Out> FnMut<(T1, T2, T3, T4)> for Func {
    fn call_mut(&mut self, args: (T1, T2, T3, T4)) -> (r: Out) {
        let (a0, a1, a2, a3) = args;
        self(a0, a1, a2, a3)
    }
}

impl<T1, T2, T3, T4, Func: core::ops::Fn(T1, T2, T3, T4) -> Out, Out> Fn<(T1, T2, T3, T4)> for Func {
    fn call(&self, args: (T1, T2, T3, T4)) -> (r: Out) {
        let (a0, a1, a2, a3) = args;
        self(a0, a1, a2, a3)
    }
}

impl<T1, T2, T3, T4, T5, Func: core::ops::FnOnce(T1, T2, T3, T4, T5) -> Out, Out> FnOnce<(T1, T2, T3, T4, T5)> for Func {
    type Output = Out;

    open spec fn spec_requires(&self, args: (T1, T2, T3, T4, T5)) -> bool {
        self.requires(args)
    }

    open spec fn spec_ensures(&self, args: (T1, T2, T3, T4, T5), output: Out) -> bool {
        self.ensures(args, output)
    }

    fn call_once(self, args: (T1, T2, T3, T4, T5)) -> (r: Out) {
        let (a0, a1, a2, a3, a4) = args;
        self(a0, a1, a2, a3, a4)
    }
}

impl<T1, T2, T3, T4, T5, Func: core::ops::FnMut(T1, T2, T3, T4, T5) -> Out, Out> FnMut<(T1, T2, T3, T4, T5)> for Func {
    fn call_mut(&mut self, args: (T1, T2, T3, T4, T5)) -> (r: Out) {
        let (a0, a1, a2, a3, a4) = args;
        self(a0, a1, a2, a3, a4)
    }
}

impl<T1, T2, T3, T4, T5, Func: core::ops::Fn(T1, T2, T3, T4, T5) -> Out, Out> Fn<(T1, T2, T3, T4, T5)> for Func {
    fn call(&self, args: (T1, T2, T3, T4, T5)) -> (r: Out) {
        let (a0, a1, a2, a3, a4) = args;
        self(a0, a1, a2, a3, a4)
    }
}

impl<T1, T2, T3, T4, T5, T6, Func: core::ops::FnOnce(T1, T2, T3, T4, T5, T6) -> Out, Out> FnOnce<(T1, T2, T3, T4, T5, T6)> for Func {
    type Output = Out;

    open spec fn spec_requires(&self, args: (T1, T2, T3, T4, T5, T6)) -> bool {
        self.requires(args)
    }

    open spec fn spec_ensures(&self, args: (T1, T2, T3, T4, T5, T6), output: Out) -> bool {
        self.ensures(args, output)
    }

    fn call_once(self, args: (T1, T2, T3, T4, T5, T6)) -> (r: Out) {
        let (a0, a1, a2, a3, a4, a5) = args;
        self(a0, a1, a2, a3, a4, a5)
    }
}

impl<T1, T2, T3, T4, T5, T6, Func: core::ops::FnMut(T1, T2, T3, T4, T5, T6) -> Out, Out> FnMut<(T1, T2, T3, T4, T5, T6)> for Func {
    fn call_mut(&mut self, args: (T1, T2, T3, T4, T5, T6)) -> (r: Out) {
        let (a0, a1, a2, a3, a4, a5) = args;
        self(a0, a1, a2, a3, a4, a5)
    }
}

impl<T1, T2, T3, T4, T5, T6, Func: core::ops::Fn(T1, T2, T3, T4, T5, T6) -> Out, Out> Fn<(T1, T2, T3, T4, T5, T6)> for Func {
    fn call(&self, args: (T1, T2, T3, T4, T5, T6)) -> (r: Out) {
        let (a0, a1, a2, a3, a4, a5) = args;
        self(a0, a1, a2, a3, a4, a5)
    }
}

impl<T1, T2, T3, T4, T5, T6, T7, Func: core::ops::FnOnce(T1, T2, T3, T4, T5, T6, T7) -> Out, Out> FnOnce<(T1, T2, T3, T4, T5, T6, T7)> for Func {
    type Output = Out;

    open spec fn spec_requires(&self, args: (T1, T2, T3, T4, T5, T6, T7)) -> bool {
        self.requires(args)
    }

    open spec fn spec_ensures(&self, args: (T1, T2, T3, T4, T5, T6, T7), output: Out) -> bool {
        self.ensures(args, output)
    }

    fn call_once(self, args: (T1, T2, T3, T4, T5, T6, T7)) -> (r: Out) {
        let (a0, a1, a2, a3, a4, a5, a6) = args;
        self(a0, a1, a2, a3, a4, a5, a6)
    }
}

impl<T1, T2, T3, T4, T5, T6, T7, Func: core::ops::FnMut(T1, T2, T3, T4, T5, T6, T7) -> Out, Out> FnMut<(T1, T2, T3, T4, T5, T6, T7)> for Func {
    fn call_mut(&mut self, args: (T1, T2, T3, T4, T5, T6, T7)) -> (r: Out) {
        let (a0, a1, a2, a3, a4, a5, a6) = args;
        self(a0, a1, a2, a3, a4, a5, a6)
    }
}

impl<T1, T2, T3, T4, T5, T6, T7, Func: core::ops::Fn(T1, T2, T3, T4, T5, T6, T7) -> Out, Out> Fn<(T1, T2, T3, T4, T5, T6, T7)> for Func {
    fn call(&self, args: (T1, T2, T3, T4, T5, T6, T7)) -> (r: Out) {
        let (a0, a1, a2, a3, a4, a5, a6) = args;
        self(a0, a1, a2, a3, a4, a5, a6)
    }
}

impl<T1, T2, T3, T4, T5, T6, T7, T8, Func: core::ops::FnOnce(T1, T2, T3, T4, T5, T6, T7, T8) -> Out, Out> FnOnce<(T1, T2, T3, T4, T5, T6, T7, T8)> for Func {
    type Output = Out;

    open spec fn spec_requires(&self, args: (T1, T2, T3, T4, T5, T6, T7, T8)) -> bool {
        self.requires(args)
    }

    open spec fn spec_ensures(&self, args: (T1, T2, T3, T4, T5, T6, T7, T8), output: Out) -> bool {
        self.ensures(args, output)
    }

    fn call_once(self, args: (T1, T2, T3, T4, T5, T6, T7, T8)) -> (r: Out) {
        let (a0, a1, a2, a3, a4, a5, a6, a7) = args;
        self(a0, a1, a2, a3, a4, a5, a6, a7)
    }
}

impl<T1, T2, T3, T4, T5, T6, T7, T8, Func: core::ops::FnMut(T1, T2, T3, T4, T5, T6, T7, T8) -> Out, Out> FnMut<(T1, T2, T3, T4, T5, T6, T7, T8)> for Func {
    fn call_mut(&mut self, args: (T1, T2, T3, T4, T5, T6, T7, T8)) -> (r: Out) {
        let (a0, a1, a2, a3, a4, a5, a6, a7) = args;
        self(a0, a1, a2, a3, a4, a5, a6, a7)
    }
}

impl<T1, T2, T3, T4, T5, T6, T7, T8, Func: core::ops::Fn(T1, T2, T3, T4, T5, T6, T7, T8) -> Out, Out> Fn<(T1, T2, T3, T4, T5, T6, T7, T8)> for Func {
    fn call(&self, args: (T1, T2, T3, T4, T5, T6, T7, T8)) -> (r: Out) {
        let (a0, a1, a2, a3, a4, a5, a6, a7) = args;
        self(a0, a1, a2, a3, a4, a5, a6, a7)
    }
}

impl<T1, T2, T3, T4, T5, T6, T7, T8, T9, Func: core::ops::FnOnce(T1, T2, T3, T4, T5, T6, T7, T8, T9) -> Out, Out> FnOnce<(T1, T2, T3, T4, T5, T6, T7, T8, T9)> for Func {
    type Output = Out;

    open spec fn spec_requires(&self, args: (T1, T2, T3, T4, T5, T6, T7, T8, T9)) -> bool {
        self.requires(args)
    }

    open spec fn spec_ensures(&self, args: (T1, T2, T3, T4, T5, T6, T7, T8, T9), output: Out) -> bool {
        self.ensures(args, output)
    }

    fn call_once(self, args: (T1, T2, T3, T4, T5, T6, T7, T8, T9)) -> (r: Out) {
        let (a0, a1, a2, a3, a4, a5, a6, a7, a8) = args;
        self(a0, a1, a2, a3, a4, a5, a6, a7, a8)
    }
}

impl<T1, T2, T3, T4, T5, T6, T7, T8, T9, Func: core::ops::FnMut(T1, T2, T3, T4, T5, T6, T7, T8, T9) -> Out, Out> FnMut<(T1, T2, T3, T4, T5, T6, T7, T8, T9)> for Func {
    fn call_mut(&mut self, args: (T1, T2, T3, T4, T5, T6, T7, T8, T9)) -> (r: Out) {
        let (a0, a1, a2, a3, a4, a5, a6, a7, a8) = args;
        self(a0, a1, a2, a3, a4, a5, a6, a7, a8)
    }
}

impl<T1, T2, T3, T4, T5, T6, T7, T8, T9, Func: core::ops::Fn(T1, T2, T3, T4, T5, T6, T7, T8, T9) -> Out, Out> Fn<(T1, T2, T3, T4, T5, T6, T7, T8, T9)> for Func {
    fn call(&self, args: (T1, T2, T3, T4, T5, T6, T7, T8, T9)) -> (r: Out) {
        let (a0, a1, a2, a3, a4, a5, a6, a7, a8) = args;
        self(a0, a1, a2, a3, a4, a5, a6, a7, a8)
    }
}

impl<T1, T2, T3, T4, T5, T6, T7, T8, T9, T10, Func: core::ops::FnOnce(T1, T2, T3, T4, T5, T6, T7, T8, T9, T10) -> Out, Out> FnOnce<(T1, T2, T3, T4, T5, T6, T7, T8, T9, T10)> for Func {
    type Output = Out;

    open spec fn spec_requires(&self, args: (T1, T2, T3, T4, T5, T6, T7, T8, T9, T10)) -> bool {
        self.requires(args)
    }

    open spec fn spec_ensures(&self, args: (T1, T2, T3, T4, T5, T6, T7, T8, T9, T10), output: Out) -> bool {
        self.ensures(args, output)
    }

    fn call_once(self, args: (T1, T2, T3, T4, T5, T6, T7, T8, T9, T10)) -> (r: Out) {
        let (a0, a1, a2, a3, a4, a5, a6, a7, a8, a9) = args;
        self(a0, a1, a2, a3, a4, a5, a6, a7, a8, a9)
    }
}

impl<T1, T2, T3, T4, T5, T6, T7, T8, T9, T10, Func: core::ops::FnMut(T1, T2, T3, T4, T5, T6, T7, T8, T9, T10) -> Out, Out> FnMut<(T1, T2, T3, T4, T5, T6, T7, T8, T9, T10)> for Func {
    fn call_mut(&mut self, args: (T1, T2, T3, T4, T5, T6, T7, T8, T9, T10)) -> (r: Out) {
        let (a0, a1, a2, a3, a4, a5, a6, a7, a8, a9) = args;
        self(a0, a1, a2, a3, a4, a5, a6, a7, a8, a9)
    }
}

impl<T1, T2, T3, T4, T5, T6, T7, T8, T9, T10, Func: core::ops::Fn(T1, T2, T3, T4, T5, T6, T7, T8, T9, T10) -> Out, Out> Fn<(T1, T2, T3, T4, T5, T6, T7, T8, T9, T10)> for Func {
    fn call(&self, args: (T1, T2, T3, T4, T5, T6, T7, T8, T9, T10)) -> (r: Out) {
        let (a0, a1, a2, a3, a4, a5, a6, a7, a8, a9) = args;
        self(a0, a1, a2, a3, a4, a5, a6, a7, a8, a9)
    }
}

impl<T1, T2, T3, T4, T5, T6, T7, T8, T9, T10, T11, Func: core::ops::FnOnce(T1, T2, T3, T4, T5, T6, T7, T8, T9, T10, T11) -> Out, Out> FnOnce<(T1, T2, T3, T4, T5, T6, T7, T8, T9, T10, T11)> for Func {
    type Output = Out;

    open spec fn spec_requires(&self, args: (T1, T2, T3, T4, T5, T6, T7, T8, T9, T10, T11)) -> bool {
        self.requires(args)
    }

    open spec fn spec_ensures(&self, args: (T1, T2, T3, T4, T5, T6, T7, T8, T9, T10, T11), output: Out) -> bool {
        self.ensures(args, output)
    }

    fn call_once(self, args: (T1, T2, T3, T4, T5, T6, T7, T8, T9, T10, T11)) -> (r: Out) {
        let (a0, a1, a2, a3, a4, a5, a6, a7, a8, a9, a10) = args;
        self(a0, a1, a2, a3, a4, a5, a6, a7, a8, a9, a10)
    }
}

impl<T1, T2, T3, T4, T5, T6, T7, T8, T9, T10, T11, Func: core::ops::FnMut(T1, T2, T3, T4, T5, T6, T7, T8, T9, T10, T11) -> Out, Out> FnMut<(T1, T2, T3, T4, T5, T6, T7, T8, T9, T10, T11)> for Func {
    fn call_mut(&mut self, args: (T1, T2, T3, T4, T5, T6, T7, T8, T9, T10, T11)) -> (r: Out) {
        let (a0, a1, a2, a3, a4, a5, a6, a7, a8, a9, a10) = args;
        self(a0, a1, a2, a3, a4, a5, a6, a7, a8, a9, a10)
    }
}

impl<T1, T2, T3, T4, T5, T6, T7, T8, T9, T10, T11, Func: core::ops::Fn(T1, T2, T3, T4, T5, T6, T7, T8, T9, T10, T11) -> Out, Out> Fn<(T1, T2, T3, T4, T5, T6, T7, T8, T9, T10, T11)> for Func {
    fn call(&self, args: (T1, T2, T3, T4, T5, T6, T7, T8, T9, T10, T11)) -> (r: Out) {
        let (a0, a1, a2, a3, a4, a5, a6, a7, a8, a9, a10) = args;
        self(a0, a1, a2, a3, a4, a5, a6, a7, a8, a9, a10)
    }
}

impl<T1, T2, T3, T4, T5, T6, T7, T8, T9, T10, T11, T12, Func: core::ops::FnOnce(T1, T2, T3, T4, T5, T6, T7, T8, T9, T10, T11, T12) -> Out, Out> FnOnce<(T1, T2, T3, T4, T5, T6, T7, T8, T9, T10, T11, T12)> for Func {
    type Output = Out;

    open spec fn spec_requires(&self, args: (T1, T2, T3, T4, T5, T6, T7, T8, T9, T10, T11, T12)) -> bool {
        self.requires(args)
    }

    open spec fn spec_ensures(&self, args: (T1, T2, T3, T4, T5, T6, T7, T8, T9, T10, T11, T12), output: Out) -> bool {
        self.ensures(args, output)
    }

    fn call_once(self, args: (T1, T2, T3, T4, T5, T6, T7, T8, T9, T10, T11, T12)) -> (r: Out) {
        let (a0, a1, a2, a3, a4, a5, a6, a7, a8, a9, a10, a11) = args;
        self(a0, a1, a2, a3, a4, a5, a6, a7, a8, a9, a10, a11)
    }
}

impl<T1, T2, T3, T4, T5, T6, T7, T8, T9, T10, T11, T12, Func: core::ops::FnMut(T1, T2, T3, T4, T5, T6, T7, T8, T9, T10, T11, T12) -> Out, Out> FnMut<(T1, T2, T3, T4, T5, T6, T7, T8, T9, T10, T11, T12)> for Func {
    fn call_mut(&mut self, args: (T1, T2, T3, T4, T5, T6, T7, T8, T9, T10, T11, T12)) -> (r: Out) {
        let (a0, a1, a2, a3, a4, a5, a6, a7, a8, a9, a10, a11) = args;
        self(a0, a1, a2, a3, a4, a5, a6, a7, a8, a9, a10, a11)
    }
}

impl<T1, T2, T3, T4, T5, T6, T7, T8, T9, T10, T11, T12, Func: core::ops::Fn(T1, T2, T3, T4, T5, T6, T7, T8, T9, T10, T11, T12) -> Out, Out> Fn<(T1, T2, T3, T4, T5, T6, T7, T8, T9, T10, T11, T12)> for Func {
    fn call(&self, args: (T1, T2, T3, T4, T5, T6, T7, T8, T9, T10, T11, T12)) -> (r: Out) {
        let (a0, a1, a2, a3, a4, a5, a6, a7, a8, a9, a10, a11) = args;
        self(a0, a1, a2, a3, a4, a5, a6, a7, a8, a9, a10, a11)
    }
}

impl<T1, T2, T3, T4, T5, T6, T7, T8, T9, T10, T11, T12, T13, Func: core::ops::FnOnce(T1, T2, T3, T4, T5, T6, T7, T8, T9, T10, T11, T12, T13) -> Out, Out> FnOnce<(T1, T2, T3, T4, T5, T6, T7, T8, T9, T10, T11, T12, T13)> for Func {
    type Output = Out;

    open spec fn spec_requires(&self, args: (T1, T2, T3, T4, T5, T6, T7, T8, T9, T10, T11, T12, T13)) -> bool {
        self.requires(args)
    }

    open spec fn spec_ensures(&self, args: (T1, T2, T3, T4, T5, T6, T7, T8, T9, T10, T11, T12, T13), output: Out) -> bool {
        self.ensures(args, output)
    }

    fn call_once(self, args: (T1, T2, T3, T4, T5, T6, T7, T8, T9, T10, T11, T12, T13)) -> (r: Out) {
        let (a0, a1, a2, a3, a4, a5, a6, a7, a8, a9, a10, a11, a12) = args;
        self(a0, a1, a2, a3, a4, a5, a6, a7, a8, a9, a10, a11, a12)
    }
}

impl<T1, T2, T3, T4, T5, T6, T7, T8, T9, T10, T11, T12, T13, Func: core::ops::FnMut(T1, T2, T3, T4, T5, T6, T7, T8, T9, T10, T11, T12, T13) -> Out, Out> FnMut<(T1, T2, T3, T4, T5, T6, T7, T8, T9, T10, T11, T12, T13)> for Func {
    fn call_mut(&mut self, args: (T1, T2, T3, T4, T5, T6, T7, T8, T9, T10, T11, T12, T13)) -> (r: Out) {
        let (a0, a1, a2, a3, a4, a5, a6, a7, a8, a9, a10, a11, a12) = args;
        self(a0, a1, a2, a3, a4, a5, a6, a7, a8, a9, a10, a11, a12)
    }
}

impl<T1, T2, T3, T4, T5, T6, T7, T8, T9, T10, T11, T12, T13, Func: core::ops::Fn(T1, T2, T3, T4, T5, T6, T7, T8, T9, T10, T11, T12, T13) -> Out, Out> Fn<(T1, T2, T3, T4, T5, T6, T7, T8, T9, T10, T11, T12, T13)> for Func {
    fn call(&self, args: (T1, T2, T3, T4, T5, T6, T7, T8, T9, T10, T11, T12, T13)) -> (r: Out) {
        let (a0, a1, a2, a3, a4, a5, a6, a7, a8, a9, a10, a11, a12) = args;
        self(a0, a1, a2, a3, a4, a5, a6, a7, a8, a9, a10, a11, a12)
    }
}

impl<T1, T2, T3, T4, T5, T6, T7, T8, T9, T10, T11, T12, T13, T14, Func: core::ops::FnOnce(T1, T2, T3, T4, T5, T6, T7, T8, T9, T10, T11, T12, T13, T14) -> Out, Out> FnOnce<(T1, T2, T3, T4, T5, T6, T7, T8, T9, T10, T11, T12, T13, T14)> for Func {
    type Output = Out;

    open spec fn spec_requires(&self, args: (T1, T2, T3, T4, T5, T6, T7, T8, T9, T10, T11, T12, T13, T14)) -> bool {
        self.requires(args)
    }

    open spec fn spec_ensures(&self, args: (T1, T2, T3, T4, T5, T6, T7, T8, T9, T10, T11, T12, T13, T14), output: Out) -> bool {
        self.ensures(args, output)
    }

    fn call_once(self, args: (T1, T2, T3, T4, T5, T6, T7, T8, T9, T10, T11, T12, T13, T14)) -> (r: Out) {
        let (a0, a1, a2, a3, a4, a5, a6, a7, a8, a9, a10, a11, a12, a13) = args;
        self(a0, a1, a2, a3, a4, a5, a6, a7, a8, a9, a10, a11, a12, a13)
    }
}

impl<T1, T2, T3, T4, T5, T6, T7, T8, T9, T10, T11, T12, T13, T14, Func: core::ops::FnMut(T1, T2, T3, T4, T5, T6, T7, T8, T9, T10, T11, T12, T13, T14) -> Out, Out> FnMut<(T1, T2, T3, T4, T5, T6, T7, T8, T9, T10, T11, T12, T13, T14)> for Func {
    fn call_mut(&mut self, args: (T1, T2, T3, T4, T5, T6, T7, T8, T9, T10, T11, T12, T13, T14)) -> (r: Out) {
        let (a0, a1, a2, a3, a4, a5, a6, a7, a8, a9, a10, a11, a12, a13) = args;
        self(a0, a1, a2, a3, a4, a5, a6, a7, a8, a9, a10, a11, a12, a13)
    }
}

impl<T1, T2, T3, T4, T5, T6, T7, T8, T9, T10, T11, T12, T13, T14, Func: core::ops::Fn(T1, T2, T3, T4, T5, T6, T7, T8, T9, T10, T11, T12, T13, T14) -> Out, Out> Fn<(T1, T2, T3, T4, T5, T6, T7, T8, T9, T10, T11, T12, T13, T14)> for Func {
    fn call(&self, args: (T1, T2, T3, T4, T5, T6, T7, T8, T9, T10, T11, T12, T13, T14)) -> (r: Out) {
        let (a0, a1, a2, a3, a4, a5, a6, a7, a8, a9, a10, a11, a12, a13) = args;
        self(a0, a1, a2, a3, a4, a5, a6, a7, a8, a9, a10, a11, a12, a13)
    }
}

impl<T1, T2, T3, T4, T5, T6, T7, T8, T9, T10, T11, T12, T13, T14, T15, Func: core::ops::FnOnce(T1, T2, T3, T4, T5, T6, T7, T8, T9, T10, T11, T12, T13, T14, T15) -> Out, Out> FnOnce<(T1, T2, T3, T4, T5, T6, T7, T8, T9, T10, T11, T12, T13, T14, T15)> for Func {
    type Output = Out;

    open spec fn spec_requires(&self, args: (T1, T2, T3, T4, T5, T6, T7, T8, T9, T10, T11, T12, T13, T14, T15)) -> bool {
        self.requires(args)
    }

    open spec fn spec_ensures(&self, args: (T1, T2, T3, T4, T5, T6, T7, T8, T9, T10, T11, T12, T13, T14, T15), output: Out) -> bool {
        self.ensures(args, output)
    }

    fn call_once(self, args: (T1, T2, T3, T4, T5, T6, T7, T8, T9, T10, T11, T12, T13, T14, T15)) -> (r: Out) {
        let (a0, a1, a2, a3, a4, a5, a6, a7, a8, a9, a10, a11, a12, a13, a14) = args;
        self(a0, a1, a2, a3, a4, a5, a6, a7, a8, a9, a10, a11, a12, a13, a14)
    }
}

impl<T1, T2, T3, T4, T5, T6, T7, T8, T9, T10, T11, T12, T13, T14, T15, Func: core::ops::FnMut(T1, T2, T3, T4, T5, T6, T7, T8, T9, T10, T11, T12, T13, T14, T15) -> Out, Out> FnMut<(T1, T2, T3, T4, T5, T6, T7, T8, T9, T10, T11, T12, T13, T14, T15)> for Func {
    fn call_mut(&mut self, args: (T1, T2, T3, T4, T5, T6, T7, T8, T9, T10, T11, T12, T13, T14, T15)) -> (r: Out) {
        let (a0, a1, a2, a3, a4, a5, a6, a7, a8, a9, a10, a11, a12, a13, a14) = args;
        self(a0, a1, a2, a3, a4, a5, a6, a7, a8, a9, a10, a11, a12, a13, a14)
    }
}

impl<T1, T2, T3, T4, T5, T6, T7, T8, T9, T10, T11, T12, T13, T14, T15, Func: core::ops::Fn(T1, T2, T3, T4, T5, T6, T7, T8, T9, T10, T11, T12, T13, T14, T15) -> Out, Out> Fn<(T1, T2, T3, T4, T5, T6, T7, T8, T9, T10, T11, T12, T13, T14, T15)> for Func {
    fn call(&self, args: (T1, T2, T3, T4, T5, T6, T7, T8, T9, T10, T11, T12, T13, T14, T15)) -> (r: Out) {
        let (a0, a1, a2, a3, a4, a5, a6, a7, a8, a9, a10, a11, a12, a13, a14) = args;
        self(a0, a1, a2, a3, a4, a5, a6, a7, a8, a9, a10, a11, a12, a13, a14)
    }
}

impl<T1, T2, T3, T4, T5, T6, T7, T8, T9, T10, T11, T12, T13, T14, T15, T16, Func: core::ops::FnOnce(T1, T2, T3, T4, T5, T6, T7, T8, T9, T10, T11, T12, T13, T14, T15, T16) -> Out, Out> FnOnce<(T1, T2, T3, T4, T5, T6, T7, T8, T9, T10, T11, T12, T13, T14, T15, T16)> for Func {
    type Output = Out;

    open spec fn spec_requires(&self, args: (T1, T2, T3, T4, T5, T6, T7, T8, T9, T10, T11, T12, T13, T14, T15, T16)) -> bool {
        self.requires(args)
    }

    open spec fn spec_ensures(&self, args: (T1, T2, T3, T4, T5, T6, T7, T8, T9, T10, T11, T12, T13, T14, T15, T16), output: Out) -> bool {
        self.ensures(args, output)
    }

    fn call_once(self, args: (T1, T2, T3, T4, T5, T6, T7, T8, T9, T10, T11, T12, T13, T14, T15, T16)) -> (r: Out) {
        let (a0, a1, a2, a3, a4, a5, a6, a7, a8, a9, a10, a11, a12, a13, a14, a15) = args;
        self(a0, a1, a2, a3, a4, a5, a6, a7, a8, a9, a10, a11, a12, a13, a14, a15)
    }
}

impl<T1, T2, T3, T4, T5, T6, T7, T8, T9, T10, T11, T12, T13, T14, T15, T16, Func: core::ops::FnMut(T1, T2, T3, T4, T5, T6, T7, T8, T9, T10, T11, T12, T13, T14, T15, T16) -> Out, Out> FnMut<(T1, T2, T3, T4, T5, T6, T7, T8, T9, T10, T11, T12, T13, T14, T15, T16)> for Func {
    fn call_mut(&mut self, args: (T1, T2, T3, T4, T5, T6, T7, T8, T9, T10, T11, T12, T13, T14, T15, T16)) -> (r: Out) {
        let (a0, a1, a2, a3, a4, a5, a6, a7, a8, a9, a10, a11, a12, a13, a14, a15) = args;
        self(a0, a1, a2, a3, a4, a5, a6, a7, a8, a9, a10, a11, a12, a13, a14, a15)
    }
}

impl<T1, T2, T3, T4, T5, T6, T7, T8, T9, T10, T11, T12, T13, T14, T15, T16, Func: core::ops::Fn(T1, T2, T3, T4, T5, T6, T7, T8, T9, T10, T11, T12, T13, T14, T15, T16) -> Out, Out> Fn<(T1, T2, T3, T4, T5, T6, T7, T8, T9, T10, T11, T12, T13, T14, T15, T16)> for Func {
    fn call(&self, args: (T1, T2, T3, T4, T5, T6, T7, T8, T9, T10, T11, T12, T13, T14, T15, T16)) -> (r: Out) {
        let (a0, a1, a2, a3, a4, a5, a6, a7, a8, a9, a10, a11, a12, a13, a14, a15) = args;
        self(a0, a1, a2, a3, a4, a5, a6, a7, a8, a9, a10, a11, a12, a13, a14, a15)
    }
}

impl<T1, T2, T3, T4, T5, T6, T7, T8, T9, T10, T11, T12, T13, T14, T15, T16, T17, Func: core::ops::FnOnce(T1, T2, T3, T4, T5, T6, T7, T8, T9, T10, T11, T12, T13, T14, T15, T16, T17) -> Out, Out> FnOnce<(T1, T2, T3, T4, T5, T6, T7, T8, T9, T10, T11, T12, T13, T14, T15, T16, T17)> for Func {
    type Output = Out;

    open spec fn spec_requires(&self, args: (T1, T2, T3, T4, T5, T6, T7, T8, T9, T10, T11, T12, T13, T14, T15, T16, T17)) -> bool {
        self.requires(args)
    }

    open spec fn spec_ensures(&self, args: (T1, T2, T3, T4, T5, T6, T7, T8, T9, T10, T11, T12, T13, T14, T15, T16, T17), output: Out) -> bool {
        self.ensures(args, output)
    }

    fn call_once(self, args: (T1, T2, T3, T4, T5, T6, T7, T8, T9, T10, T11, T12, T13, T14, T15, T16, T17)) -> (r: Out) {
        let (a0, a1, a2, a3, a4, a5, a6, a7, a8, a9, a10, a11, a12, a13, a14, a15, a16) = args;
        self(a0, a1, a2, a3, a4, a5, a6, a7, a8, a9, a10, a11, a12, a13, a14, a15, a16)
    }
}

impl<T1, T2, T3, T4, T5, T6, T7, T8, T9, T10, T11, T12, T13, T14, T15, T16, T17, Func: core::ops::FnMut(T1, T2, T3, T4, T5, T6, T7, T8, T9, T10, T11, T12, T13, T14, T15, T16, T17) -> Out, Out> FnMut<(T1, T2, T3, T4, T5, T6, T7, T8, T9, T10, T11, T12, T13, T14, T15, T16, T17)> for Func {
    fn call_mut(&mut self, args: (T1, T2, T3, T4, T5, T6, T7, T8, T9, T10, T11, T12, T13, T14, T15, T16, T17)) -> (r: Out) {
        let (a0, a1, a2, a3, a4, a5, a6, a7, a8, a9, a10, a11, a12, a13, a14, a15, a16) = args;
        self(a0, a1, a2, a3, a4, a5, a6, a7, a8, a9, a10, a11, a12, a13, a14, a15, a16)
    }
}

impl<T1, T2, T3, T4, T5, T6, T7, T8, T9, T10, T11, T12, T13, T14, T15, T16, T17, Func: core::ops::Fn(T1, T2, T3, T4, T5, T6, T7, T8, T9, T10, T11, T12, T13, T14, T15, T16, T17) -> Out, Out> Fn<(T1, T2, T3, T4, T5, T6, T7, T8, T9, T10, T11, T12, T13, T14, T15, T16, T17)> for Func {
    fn call(&self, args: (T1, T2, T3, T4, T5, T6, T7, T8, T9, T10, T11, T12, T13, T14, T15, T16, T17)) -> (r: Out) {
        let (a0, a1, a2, a3, a4, a5, a6, a7, a8, a9, a10, a11, a12, a13, a14, a15, a16) = args;
        self(a0, a1, a2, a3, a4, a5, a6, a7, a8, a9, a10, a11, a12, a13, a14, a15, a16)
    }
}

impl<T1, T2, T3, T4, T5, T6, T7, T8, T9, T10, T11, T12, T13, T14, T15, T16, T17, T18, Func: core::ops::FnOnce(T1, T2, T3, T4, T5, T6, T7, T8, T9, T10, T11, T12, T13, T14, T15, T16, T17, T18) -> Out, Out> FnOnce<(T1, T2, T3, T4, T5, T6, T7, T8, T9, T10, T11, T12, T13, T14, T15, T16, T17, T18)> for Func {
    type Output = Out;

    open spec fn spec_requires(&self, args: (T1, T2, T3, T4, T5, T6, T7, T8, T9, T10, T11, T12, T13, T14, T15, T16, T17, T18)) -> bool {
        self.requires(args)
    }

    open spec fn spec_ensures(&self, args: (T1, T2, T3, T4, T5, T6, T7, T8, T9, T10, T11, T12, T13, T14, T15, T16, T17, T18), output: Out) -> bool {
        self.ensures(args, output)
    }

    fn call_once(self, args: (T1, T2, T3, T4, T5, T6, T7, T8, T9, T10, T11, T12, T13, T14, T15, T16, T17, T18)) -> (r: Out) {
        let (a0, a1, a2, a3, a4, a5, a6, a7, a8, a9, a10, a11, a12, a13, a14, a15, a16, a17) = args;
        self(a0, a1, a2, a3, a4, a5, a6, a7, a8, a9, a10, a11, a12, a13, a14, a15, a16, a17)
    }
}

impl<T1, T2, T3, T4, T5, T6, T7, T8, T9, T10, T11, T12, T13, T14, T15, T16, T17, T18, Func: core::ops::FnMut(T1, T2, T3, T4, T5, T6, T7, T8, T9, T10, T11, T12, T13, T14, T15, T16, T17, T18) -> Out, Out> FnMut<(T1, T2, T3, T4, T5, T6, T7, T8, T9, T10, T11, T12, T13, T14, T15, T16, T17, T18)> for Func {
    fn call_mut(&mut self, args: (T1, T2, T3, T4, T5, T6, T7, T8, T9, T10, T11, T12, T13, T14, T15, T16, T17, T18)) -> (r: Out) {
        let (a0, a1, a2, a3, a4, a5, a6, a7, a8, a9, a10, a11, a12, a13, a14, a15, a16, a17) = args;
        self(a0, a1, a2, a3, a4, a5, a6, a7, a8, a9, a10, a11, a12, a13, a14, a15, a16, a17)
    }
}

impl<T1, T2, T3, T4, T5, T6, T7, T8, T9, T10, T11, T12, T13, T14, T15, T16, T17, T18, Func: core::ops::Fn(T1, T2, T3, T4, T5, T6, T7, T8, T9, T10, T11, T12, T13, T14, T15, T16, T17, T18) -> Out, Out> Fn<(T1, T2, T3, T4, T5, T6, T7, T8, T9, T10, T11, T12, T13, T14, T15, T16, T17, T18)> for Func {
    fn call(&self, args: (T1, T2, T3, T4, T5, T6, T7, T8, T9, T10, T11, T12, T13, T14, T15, T16, T17, T18)) -> (r: Out) {
        let (a0, a1, a2, a3, a4, a5, a6, a7, a8, a9, a10, a11, a12, a13, a14, a15, a16, a17) = args;
        self(a0, a1, a2, a3, a4, a5, a6, a7, a8, a9, a10, a11, a12, a13, a14, a15, a16, a17)
    }
}

impl<T1, T2, T3, T4, T5, T6, T7, T8, T9, T10, T11, T12, T13, T14, T15, T16, T17, T18, T19, Func: core::ops::FnOnce(T1, T2, T3, T4, T5, T6, T7, T8, T9, T10, T11, T12, T13, T14, T15, T16, T17, T18, T19) -> Out, Out> FnOnce<(T1, T2, T3, T4, T5, T6, T7, T8, T9, T10, T11, T12, T13, T14, T15, T16, T17, T18, T19)> for Func {
    type Output = Out;

    open spec fn spec_requires(&self, args: (T1, T2, T3, T4, T5, T6, T7, T8, T9, T10, T11, T12, T13, T14, T15, T16, T17, T18, T19)) -> bool {
        self.requires(args)
    }

    open spec fn spec_ensures(&self, args: (T1, T2, T3, T4, T5, T6, T7, T8, T9, T10, T11, T12, T13, T14, T15, T16, T17, T18, T19), output: Out) -> bool {
        self.ensures(args, output)
    }

    fn call_once(self, args: (T1, T2, T3, T4, T5, T6, T7, T8, T9, T10, T11, T12, T13, T14, T15, T16, T17, T18, T19)) -> (r: Out) {
        let (a0, a1, a2, a3, a4, a5, a6, a7, a8, a9, a10, a11, a12, a13, a14, a15, a16, a17, a18) = args;
        self(a0, a1, a2, a3, a4, a5, a6, a7, a8, a9, a10, a11, a12, a13, a14, a15, a16, a17, a18)
    }
}

impl<T1, T2, T3, T4, T5, T6, T7, T8, T9, T10, T11, T12, T13, T14, T15, T16, T17, T18, T19, Func: core::ops::FnMut(T1, T2, T3, T4, T5, T6, T7, T8, T9, T10, T11, T12, T13, T14, T15, T16, T17, T18, T19) -> Out, Out> FnMut<(T1, T2, T3, T4, T5, T6, T7, T8, T9, T10, T11, T12, T13, T14, T15, T16, T17, T18, T19)> for Func {
    fn call_mut(&mut self, args: (T1, T2, T3, T4, T5, T6, T7, T8, T9, T10, T11, T12, T13, T14, T15, T16, T17, T18, T19)) -> (r: Out) {
        let (a0, a1, a2, a3, a4, a5, a6, a7, a8, a9, a10, a11, a12, a13, a14, a15, a16, a17, a18) = args;
        self(a0, a1, a2, a3, a4, a5, a6, a7, a8, a9, a10, a11, a12, a13, a14, a15, a16, a17, a18)
    }
}

impl<T1, T2, T3, T4, T5, T6, T7, T8, T9, T10, T11, T12, T13, T14, T15, T16, T17, T18, T19, Func: core::ops::Fn(T1, T2, T3, T4, T5, T6, T7, T8, T9, T10, T11, T12, T13, T14, T15, T16, T17, T18, T19) -> Out, Out> Fn<(T1, T2, T3, T4, T5, T6, T7, T8, T9, T10, T11, T12, T13, T14, T15, T16, T17, T18, T19)> for Func {
    fn call(&self, args: (T1, T2, T3, T4, T5, T6, T7, T8, T9, T10, T11, T12, T13, T14, T15, T16, T17, T18, T19)) -> (r: Out) {
        let (a0, a1, a2, a3, a4, a5, a6, a7, a8, a9, a10, a11, a12, a13, a14, a15, a16, a17, a18) = args;
        self(a0, a1, a2, a3, a4, a5, a6, a7, a8, a9, a10, a11, a12, a13, a14, a15, a16, a17, a18)
    }
}

impl<T1, T2, T3, T4, T5, T6, T7, T8, T9, T10, T11, T12, T13, T14, T15, T16, T17, T18, T19, T20, Func: core::ops::FnOnce(T1, T2, T3, T4, T5, T6, T7, T8, T9, T10, T11, T12, T13, T14, T15, T16, T17, T18, T19, T20) -> Out, Out> FnOnce<(T1, T2, T3, T4, T5, T6, T7, T8, T9, T10, T11, T12, T13, T14, T15, T16, T17, T18, T19, T20)> for Func {
    type Output = Out;

    open spec fn spec_requires(&self, args: (T1, T2, T3, T4, T5, T6, T7, T8, T9, T10, T11, T12, T13, T14, T15, T16, T17, T18, T19, T20)) -> bool {
        self.requires(args)
    }

    open spec fn spec_ensures(&self, args: (T1, T2, T3, T4, T5, T6, T7, T8, T9, T10, T11, T12, T13, T14, T15, T16, T17, T18, T19, T20), output: Out) -> bool {
        self.ensures(args, output)
    }

    fn call_once(self, args: (T1, T2, T3, T4, T5, T6, T7, T8, T9, T10, T11, T12, T13, T14, T15, T16, T17, T18, T19, T20)) -> (r: Out) {
        let (a0, a1, a2, a3, a4, a5, a6, a7, a8, a9, a10, a11, a12, a13, a14, a15, a16, a17, a18, a19) = args;
        self(a0, a1, a2, a3, a4, a5, a6, a7, a8, a9, a10, a11, a12, a13, a14, a15, a16, a17, a18, a19)
    }
}

impl<T1, T2, T3, T4, T5, T6, T7, T8, T9, T10, T11, T12, T13, T14, T15, T16, T17, T18, T19, T20, Func: core::ops::FnMut(T1, T2, T3, T4, T5, T6, T7, T8, T9, T10, T11, T12, T13, T14, T15, T16, T17, T18, T19, T20) -> Out, Out> FnMut<(T1, T2, T3, T4, T5, T6, T7, T8, T9, T10, T11, T12, T13, T14, T15, T16, T17, T18, T19, T20)> for Func {
    fn call_mut(&mut self, args: (T1, T2, T3, T4, T5, T6, T7, T8, T9, T10, T11, T12, T13, T14, T15, T16, T17, T18, T19, T20)) -> (r: Out) {
        let (a0, a1, a2, a3, a4, a5, a6, a7, a8, a9, a10, a11, a12, a13, a14, a15, a16, a17, a18, a19) = args;
        self(a0, a1, a2, a3, a4, a5, a6, a7, a8, a9, a10, a11, a12, a13, a14, a15, a16, a17, a18, a19)
    }
}

impl<T1, T2, T3, T4, T5, T6, T7, T8, T9, T10, T11, T12, T13, T14, T15, T16, T17, T18, T19, T20, Func: core::ops::Fn(T1, T2, T3, T4, T5, T6, T7, T8, T9, T10, T11, T12, T13, T14, T15, T16, T17, T18, T19, T20) -> Out, Out> Fn<(T1, T2, T3, T4, T5, T6, T7, T8, T9, T10, T11, T12, T13, T14, T15, T16, T17, T18, T19, T20)> for Func {
    fn call(&self, args: (T1, T2, T3, T4, T5, T6, T7, T8, T9, T10, T11, T12, T13, T14, T15, T16, T17, T18, T19, T20)) -> (r: Out) {
        let (a0, a1, a2, a3, a4, a5, a6, a7, a8, a9, a10, a11, a12, a13, a14, a15, a16, a17, a18, a19) = args;
        self(a0, a1, a2, a3, a4, a5, a6, a7, a8, a9, a10, a11, a12, a13, a14, a15, a16, a17, a18, a19)
    }
}

impl<T1, T2, T3, T4, T5, T6, T7, T8, T9, T10, T11, T12, T13, T14, T15, T16, T17, T18, T19, T20, T21, Func: core::ops::FnOnce(T1, T2, T3, T4, T5, T6, T7, T8, T9, T10, T11, T12, T13, T14, T15, T16, T17, T18, T19, T20, T21) -> Out, Out> FnOnce<(T1, T2, T3, T4, T5, T6, T7, T8, T9, T10, T11, T12, T13, T14, T15, T16, T17, T18, T19, T20, T21)> for Func {
    type Output = Out;

    open spec fn spec_requires(&self, args: (T1, T2, T3, T4, T5, T6, T7, T8, T9, T10, T11, T12, T13, T14, T15, T16, T17, T18, T19, T20, T21)) -> bool {
        self.requires(args)
    }

    open spec fn spec_ensures(&self, args: (T1, T2, T3, T4, T5, T6, T7, T8, T9, T10, T11, T12, T13, T14, T15, T16, T17, T18, T19, T20, T21), output: Out) -> bool {
        self.ensures(args, output)
    }

    fn call_once(self, args: (T1, T2, T3, T4, T5, T6, T7, T8, T9, T10, T11, T12, T13, T14, T15, T16, T17, T18, T19, T20, T21)) -> (r: Out) {
        let (a0, a1, a2, a3, a4, a5, a6, a7, a8, a9, a10, a11, a12, a13, a14, a15, a16, a17, a18, a19, a20) = args;
        self(a0, a1, a2, a3, a4, a5, a6, a7, a8, a9, a10, a11, a12, a13, a14, a15, a16, a17, a18, a19, a20)
    }
}

impl<T1, T2, T3, T4, T5, T6, T7, T8, T9, T10, T11, T12, T13, T14, T15, T16, T17, T18, T19, T20, T21, Func: core::ops::FnMut(T1, T2, T3, T4, T5, T6, T7, T8, T9, T10, T11, T12, T13, T14, T15, T16, T17, T18, T19, T20, T21) -> Out, Out> FnMut<(T1, T2, T3, T4, T5, T6, T7, T8, T9, T10, T11, T12, T13, T14, T15, T16, T17, T18, T19, T20, T21)> for Func {
    fn call_mut(&mut self, args: (T1, T2, T3, T4, T5, T6, T7, T8, T9, T10, T11, T12, T13, T14, T15, T16, T17, T18, T19, T20, T21)) -> (r: Out) {
        let (a0, a1, a2, a3, a4, a5, a6, a7, a8, a9, a10, a11, a12, a13, a14, a15, a16, a17, a18, a19, a20) = args;
        self(a0, a1, a2, a3, a4, a5, a6, a7, a8, a9, a10, a11, a12, a13, a14, a15, a16, a17, a18, a19, a20)
    }
}

impl<T1, T2, T3, T4, T5, T6, T7, T8, T9, T10, T11, T12, T13, T14, T15, T16, T17, T18, T19, T20, T21, Func: core::ops::Fn(T1, T2, T3, T4, T5, T6, T7, T8, T9, T10, T11, T12, T13, T14, T15, T16, T17, T18, T19, T20, T21) -> Out, Out> Fn<(T1, T2, T3, T4, T5, T6, T7, T8, T9, T10, T11, T12, T13, T14, T15, T16, T17, T18, T19, T20, T21)> for Func {
    fn call(&self, args: (T1, T2, T3, T4, T5, T6, T7, T8, T9, T10, T11, T12, T13, T14, T15, T16, T17, T18, T19, T20, T21)) -> (r: Out) {
        let (a0, a1, a2, a3, a4, a5, a6, a7, a8, a9, a10, a11, a12, a13, a14, a15, a16, a17, a18, a19, a20) = args;
        self(a0, a1, a2, a3, a4, a5, a6, a7, a8, a9, a10, a11, a12, a13, a14, a15, a16, a17, a18, a19, a20)
    }
}

impl<T1, T2, T3, T4, T5, T6, T7, T8, T9, T10, T11, T12, T13, T14, T15, T16, T17, T18, T19, T20, T21, T22, Func: core::ops::FnOnce(T1, T2, T3, T4, T5, T6, T7, T8, T9, T10, T11, T12, T13, T14, T15, T16, T17, T18, T19, T20, T21, T22) -> Out, Out> FnOnce<(T1, T2, T3, T4, T5, T6, T7, T8, T9, T10, T11, T12, T13, T14, T15, T16, T17, T18, T19, T20, T21, T22)> for Func {
    type Output = Out;

    open spec fn spec_requires(&self, args: (T1, T2, T3, T4, T5, T6, T7, T8, T9, T10, T11, T12, T13, T14, T15, T16, T17, T18, T19, T20, T21, T22)) -> bool {
        self.requires(args)
    }

    open spec fn spec_ensures(&self, args: (T1, T2, T3, T4, T5, T6, T7, T8, T9, T10, T11, T12, T13, T14, T15, T16, T17, T18, T19, T20, T21, T22), output: Out) -> bool {
        self.ensures(args, output)
    }

    fn call_once(self, args: (T1, T2, T3, T4, T5, T6, T7, T8, T9, T10, T11, T12, T13, T14, T15, T16, T17, T18, T19, T20, T21, T22)) -> (r: Out) {
        let (a0, a1, a2, a3, a4, a5, a6, a7, a8, a9, a10, a11, a12, a13, a14, a15, a16, a17, a18, a19, a20, a21) = args;
        self(a0, a1, a2, a3, a4, a5, a6, a7, a8, a9, a10, a11, a12, a13, a14, a15, a16, a17, a18, a19, a20, a21)
    }
}

impl<T1, T2, T3, T4, T5, T6, T7, T8, T9, T10, T11, T12, T13, T14, T15, T16, T17, T18, T19, T20, T21, T22, Func: core::ops::FnMut(T1, T2, T3, T4, T5, T6, T7, T8, T9, T10, T11, T12, T13, T14, T15, T16, T17, T18, T19, T20, T21, T22) -> Out, Out> FnMut<(T1, T2, T3, T4, T5, T6, T7, T8, T9, T10, T11, T12, T13, T14, T15, T16, T17, T18, T19, T20, T21, T22)> for Func {
    fn call_mut(&mut self, args: (T1, T2, T3, T4, T5, T6, T7, T8, T9, T10, T11, T12, T13, T14, T15, T16, T17, T18, T19, T20, T21, T22)) -> (r: Out) {
        let (a0, a1, a2, a3, a4, a5, a6, a7, a8, a9, a10, a11, a12, a13, a14, a15, a16, a17, a18, a19, a20, a21) = args;
        self(a0, a1, a2, a3, a4, a5, a6, a7, a8, a9, a10, a11, a12, a13, a14, a15, a16, a17, a18, a19, a20, a21)
    }
}

impl<T1, T2, T3, T4, T5, T6, T7, T8, T9, T10, T11, T12, T13, T14, T15, T16, T17, T18, T19, T20, T21, T22, Func: core::ops::Fn(T1, T2, T3, T4, T5, T6, T7, T8, T9, T10, T11, T12, T13, T14, T15, T16, T17, T18, T19, T20, T21, T22) -> Out, Out> Fn<(T1, T2, T3, T4, T5, T6, T7, T8, T9, T10, T11, T12, T13, T14, T15, T16, T17, T18, T19, T20, T21, T22)> for Func {
    fn call(&self, args: (T1, T2, T3, T4, T5, T6, T7, T8, T9, T10, T11, T12, T13, T14, T15, T16, T17, T18, T19, T20, T21, T22)) -> (r: Out) {
        let (a0, a1, a2, a3, a4, a5, a6, a7, a8, a9, a10, a11, a12, a13, a14, a15, a16, a17, a18, a19, a20, a21) = args;
        self(a0, a1, a2, a3, a4, a5, a6, a7, a8, a9, a10, a11, a12, a13, a14, a15, a16, a17, a18, a19, a20, a21)
    }
}

impl<T1, T2, T3, T4, T5, T6, T7, T8, T9, T10, T11, T12, T13, T14, T15, T16, T17, T18, T19, T20, T21, T22, T23, Func: core::ops::FnOnce(T1, T2, T3, T4, T5, T6, T7, T8, T9, T10, T11, T12, T13, T14, T15, T16, T17, T18, T19, T20, T21, T22, T23) -> Out, Out> FnOnce<(T1, T2, T3, T4, T5, T6, T7, T8, T9, T10, T11, T12, T13, T14, T15, T16, T17, T18, T19, T20, T21, T22, T23)> for Func {
    type Output = Out;

    open spec fn spec_requires(&self, args: (T1, T2, T3, T4, T5, T6, T7, T8, T9, T10, T11, T12, T13, T14, T15, T16, T17, T18, T19, T20, T21, T22, T23)) -> bool {
        self.requires(args)
    }

    open spec fn spec_ensures(&self, args: (T1, T2, T3, T4, T5, T6, T7, T8, T9, T10, T11, T12, T13, T14, T15, T16, T17, T18, T19, T20, T21, T22, T23), output: Out) -> bool {
        self.ensures(args, output)
    }

    fn call_once(self, args: (T1, T2, T3, T4, T5, T6, T7, T8, T9, T10, T11, T12, T13, T14, T15, T16, T17, T18, T19, T20, T21, T22, T23)) -> (r: Out) {
        let (a0, a1, a2, a3, a4, a5, a6, a7, a8, a9, a10, a11, a12, a13, a14, a15, a16, a17, a18, a19, a20, a21, a22) = args;
        self(a0, a1, a2, a3, a4, a5, a6, a7, a8, a9, a10, a11, a12, a13, a14, a15, a16, a17, a18, a19, a20, a21, a22)
    }
}

impl<T1, T2, T3, T4, T5, T6, T7, T8, T9, T10, T11, T12, T13, T14, T15, T16, T17, T18, T19, T20, T21, T22, T23, Func: core::ops::FnMut(T1, T2, T3, T4, T5, T6, T7, T8, T9, T10, T11, T12, T13, T14, T15, T16, T17, T18, T19, T20, T21, T22, T23) -> Out, Out> FnMut<(T1, T2, T3, T4, T5, T6, T7, T8, T9, T10, T11, T12, T13, T14, T15, T16, T17, T18, T19, T20, T21, T22, T23)> for Func {
    fn call_mut(&mut self, args: (T1, T2, T3, T4, T5, T6, T7, T8, T9, T10, T11, T12, T13, T14, T15, T16, T17, T18, T19, T20, T21, T22, T23)) -> (r: Out) {
        let (a0, a1, a2, a3, a4, a5, a6, a7, a8, a9, a10, a11, a12, a13, a14, a15, a16, a17, a18, a19, a20, a21, a22) = args;
        self(a0, a1, a2, a3, a4, a5, a6, a7, a8, a9, a10, a11, a12, a13, a14, a15, a16, a17, a18, a19, a20, a21, a22)
    }
}

impl<T1, T2, T3, T4, T5, T6, T7, T8, T9, T10, T11, T12, T13, T14, T15, T16, T17, T18, T19, T20, T21, T22, T23, Func: core::ops::Fn(T1, T2, T3, T4, T5, T6, T7, T8, T9, T10, T11, T12, T13, T14, T15, T16, T17, T18, T19, T20, T21, T22, T23) -> Out, Out> Fn<(T1, T2, T3, T4, T5, T6, T7, T8, T9, T10, T11, T12, T13, T14, T15, T16, T17, T18, T19, T20, T21, T22, T23)> for Func {
    fn call(&self, args: (T1, T2, T3, T4, T5, T6, T7, T8, T9, T10, T11, T12, T13, T14, T15, T16, T17, T18, T19, T20, T21, T22, T23)) -> (r: Out) {
        let (a0, a1, a2, a3, a4, a5, a6, a7, a8, a9, a10, a11, a12, a13, a14, a15, a16, a17, a18, a19, a20, a21, a22) = args;
        self(a0, a1, a2, a3, a4, a5, a6, a7, a8, a9, a10, a11, a12, a13, a14, a15, a16, a17, a18, a19, a20, a21, a22)
    }
}

impl<T1, T2, T3, T4, T5, T6, T7, T8, T9, T10, T11, T12, T13, T14, T15, T16, T17, T18, T19, T20, T21, T22, T23, T24, Func: core::ops::FnOnce(T1, T2, T3, T4, T5, T6, T7, T8, T9, T10, T11, T12, T13, T14, T15, T16, T17, T18, T19, T20, T21, T22, T23, T24) -> Out, Out> FnOnce<(T1, T2, T3, T4, T5, T6, T7, T8, T9, T10, T11, T12, T13, T14, T15, T16, T17, T18, T19, T20, T21, T22, T23, T24)> for Func {
    type Output = Out;

    open spec fn spec_requires(&self, args: (T1, T2, T3, T4, T5, T6, T7, T8, T9, T10, T11, T12, T13, T14, T15, T16, T17, T18, T19, T20, T21, T22, T23, T24)) -> bool {
        self.requires(args)
    }

    open spec fn spec_ensures(&self, args: (T1, T2, T3, T4, T5, T6, T7, T8, T9, T10, T11, T12, T13, T14, T15, T16, T17, T18, T19, T20, T21, T22, T23, T24), output: Out) -> bool {
        self.ensures(args, output)
    }

    fn call_once(self, args: (T1, T2, T3, T4, T5, T6, T7, T8, T9, T10, T11, T12, T13, T14, T15, T16, T17, T18, T19, T20, T21, T22, T23, T24)) -> (r: Out) {
        let (a0, a1, a2, a3, a4, a5, a6, a7, a8, a9, a10, a11, a12, a13, a14, a15, a16, a17, a18, a19, a20, a21, a22, a23) = args;
        self(a0, a1, a2, a3, a4, a5, a6, a7, a8, a9, a10, a11, a12, a13, a14, a15, a16, a17, a18, a19, a20, a21, a22, a23)
    }
}

impl<T1, T2, T3, T4, T5, T6, T7, T8, T9, T10, T11, T12, T13, T14, T15, T16, T17, T18, T19, T20, T21, T22, T23, T24, Func: core::ops::FnMut(T1, T2, T3, T4, T5, T6, T7, T8, T9, T10, T11, T12, T13, T14, T15, T16, T17, T18, T19, T20, T21, T22, T23, T24) -> Out, Out> FnMut<(T1, T2, T3, T4, T5, T6, T7, T8, T9, T10, T11, T12, T13, T14, T15, T16, T17, T18, T19, T20, T21, T22, T23, T24)> for Func {
    fn call_mut(&mut self, args: (T1, T2, T3, T4, T5, T6, T7, T8, T9, T10, T11, T12, T13, T14, T15, T16, T17, T18, T19, T20, T21, T22, T23, T24)) -> (r: Out) {
        let (a0, a1, a2, a3, a4, a5, a6, a7, a8, a9, a10, a11, a12, a13, a14, a15, a16, a17, a18, a19, a20, a21, a22, a23) = args;
        self(a0, a1, a2, a3, a4, a5, a6, a7, a8, a9, a10, a11, a12, a13, a14, a15, a16, a17, a18, a19, a20, a21, a22, a23)
    }
}

impl<T1, T2, T3, T4, T5, T6, T7, T8, T9, T10, T11, T12, T13, T14, T15, T16, T17, T18, T19, T20, T21, T22, T23, T24, Func: core::ops::Fn(T1, T2, T3, T4, T5, T6, T7, T8, T9, T10, T11, T12, T13, T14, T15, T16, T17, T18, T19, T20, T21, T22, T23, T24) -> Out, Out> Fn<(T1, T2, T3, T4, T5, T6, T7, T8, T9, T10, T11, T12, T13, T14, T15, T16, T17, T18, T19, T20, T21, T22, T23, T24)> for Func {
    fn call(&self, args: (T1, T2, T3, T4, T5, T6, T7, T8, T9, T10, T11, T12, T13, T14, T15, T16, T17, T18, T19, T20, T21, T22, T23, T24)) -> (r: Out) {
        let (a0, a1, a2, a3, a4, a5, a6, a7, a8, a9, a10, a11, a12, a13, a14, a15, a16, a17, a18, a19, a20, a21, a22, a23) = args;
        self(a0, a1, a2, a3, a4, a5, a6, a7, a8, a9, a10, a11, a12, a13, a14, a15, a16, a17, a18, a19, a20, a21, a22, a23)
    }
}

impl<T1, T2, T3, T4, T5, T6, T7, T8, T9, T10, T11, T12, T13, T14, T15, T16, T17, T18, T19, T20, T21, T22, T23, T24, T25, Func: core::ops::FnOnce(T1, T2, T3, T4, T5, T6, T7, T8, T9, T10, T11, T12, T13, T14, T15, T16, T17, T18, T19, T20, T21, T22, T23, T24, T25) -> Out, Out> FnOnce<(T1, T2, T3, T4, T5, T6, T7, T8, T9, T10, T11, T12, T13, T14, T15, T16, T17, T18, T19, T20, T21, T22, T23, T24, T25)> for Func {
    type Output = Out;

    open spec fn spec_requires(&self, args: (T1, T2, T3, T4, T5, T6, T7, T8, T9, T10, T11, T12, T13, T14, T15, T16, T17, T18, T19, T20, T21, T22, T23, T24, T25)) -> bool {
        self.requires(args)
    }

    open spec fn spec_ensures(&self, args: (T1, T2, T3, T4, T5, T6, T7, T8, T9, T10, T11, T12, T13, T14, T15, T16, T17, T18, T19, T20, T21, T22, T23, T24, T25), output: Out) -> bool {
        self.ensures(args, output)
    }

    fn call_once(self, args: (T1, T2, T3, T4, T5, T6, T7, T8, T9, T10, T11, T12, T13, T14, T15, T16, T17, T18, T19, T20, T21, T22, T23, T24, T25)) -> (r: Out) {
        let (a0, a1, a2, a3, a4, a5, a6, a7, a8, a9, a10, a11, a12, a13, a14, a15, a16, a17, a18, a19, a20, a21, a22, a23, a24) = args;
        self(a0, a1, a2, a3, a4, a5, a6, a7, a8, a9, a10, a11, a12, a13, a14, a15, a16, a17, a18, a19, a20, a21, a22, a23, a24)
    }
}

impl<T1, T2, T3, T4, T5, T6, T7, T8, T9, T10, T11, T12, T13, T14, T15, T16, T17, T18, T19, T20, T21, T22, T23, T24, T25, Func: core::ops::FnMut(T1, T2, T3, T4, T5, T6, T7, T8, T9, T10, T11, T12, T13, T14, T15, T16, T17, T18, T19, T20, T21, T22, T23, T24, T25) -> Out, Out> FnMut<(T1, T2, T3, T4, T5, T6, T7, T8, T9, T10, T11, T12, T13, T14, T15, T16, T17, T18, T19, T20, T21, T22, T23, T24, T25)> for Func {
    fn call_mut(&mut self, args: (T1, T2, T3, T4, T5, T6, T7, T8, T9, T10, T11, T12, T13, T14, T15, T16, T17, T18, T19, T20, T21, T22, T23, T24, T25)) -> (r: Out) {
        let (a0, a1, a2, a3, a4, a5, a6, a7, a8, a9, a10, a11, a12, a13, a14, a15, a16, a17, a18, a19, a20, a21, a22, a23, a24) = args;
        self(a0, a1, a2, a3, a4, a5, a6, a7, a8, a9, a10, a11, a12, a13, a14, a15, a16, a17, a18, a19, a20, a21, a22, a23, a24)
    }
}

impl<T1, T2, T3, T4, T5, T6, T7, T8, T9, T10, T11, T12, T13, T14, T15, T16, T17, T18, T19, T20, T21, T22, T23, T24, T25, Func: core::ops::Fn(T1, T2, T3, T4, T5, T6, T7, T8, T9, T10, T11, T12, T13, T14, T15, T16, T17, T18, T19, T20, T21, T22, T23, T24, T25) -> Out, Out> Fn<(T1, T2, T3, T4, T5, T6, T7, T8, T9, T10, T11, T12, T13, T14, T15, T16, T17, T18, T19, T20, T21, T22, T23, T24, T25)> for Func {
    fn call(&self, args: (T1, T2, T3, T4, T5, T6, T7, T8, T9, T10, T11, T12, T13, T14, T15, T16, T17, T18, T19, T20, T21, T22, T23, T24, T25)) -> (r: Out) {
        let (a0, a1, a2, a3, a4, a5, a6, a7, a8, a9, a10, a11, a12, a13, a14, a15, a16, a17, a18, a19, a20, a21, a22, a23, a24) = args;
        self(a0, a1, a2, a3, a4, a5, a6, a7, a8, a9, a10, a11, a12, a13, a14, a15, a16, a17, a18, a19, a20, a21, a22, a23, a24)
    }
}

impl<T1, T2, T3, T4, T5, T6, T7, T8, T9, T10, T11, T12, T13, T14, T15, T16, T17, T18, T19, T20, T21, T22, T23, T24, T25, T26, Func: core::ops::FnOnce(T1, T2, T3, T4, T5, T6, T7, T8, T9, T10, T11, T12, T13, T14, T15, T16, T17, T18, T19, T20, T21, T22, T23, T24, T25, T26) -> Out, Out> FnOnce<(T1, T2, T3, T4, T5, T6, T7, T8, T9, T10, T11, T12, T13, T14, T15, T16, T17, T18, T19, T20, T21, T22, T23, T24, T25, T26)> for Func {
    type Output = Out;

    open spec fn spec_requires(&self, args: (T1, T2, T3, T4, T5, T6, T7, T8, T9, T10, T11, T12, T13, T14, T15, T16, T17, T18, T19, T20, T21, T22, T23, T24, T25, T26)) -> bool {
        self.requires(args)
    }

    open spec fn spec_ensures(&self, args: (T1, T2, T3, T4, T5, T6, T7, T8, T9, T10, T11, T12, T13, T14, T15, T16, T17, T18, T19, T20, T21, T22, T23, T24, T25, T26), output: Out) -> bool {
        self.ensures(args, output)
    }

    fn call_once(self, args: (T1, T2, T3, T4, T5, T6, T7, T8, T9, T10, T11, T12, T13, T14, T15, T16, T17, T18, T19, T20, T21, T22, T23, T24, T25, T26)) -> (r: Out) {
        let (a0, a1, a2, a3, a4, a5, a6, a7, a8, a9, a10, a11, a12, a13, a14, a15, a16, a17, a18, a19, a20, a21, a22, a23, a24, a25) = args;
        self(a0, a1, a2, a3, a4, a5, a6, a7, a8, a9, a10, a11, a12, a13, a14, a15, a16, a17, a18, a19, a20, a21, a22, a23, a24, a25)
    }
}

impl<T1, T2, T3, T4, T5, T6, T7, T8, T9, T10, T11, T12, T13, T14, T15, T16, T17, T18, T19, T20, T21, T22, T23, T24, T25, T26, Func: core::ops::FnMut(T1, T2, T3, T4, T5, T6, T7, T8, T9, T10, T11, T12, T13, T14, T15, T16, T17, T18, T19, T20, T21, T22, T23, T24, T25, T26) -> Out, Out> FnMut<(T1, T2, T3, T4, T5, T6, T7, T8, T9, T10, T11, T12, T13, T14, T15, T16, T17, T18, T19, T20, T21, T22, T23, T24, T25, T26)> for Func {
    fn call_mut(&mut self, args: (T1, T2, T3, T4, T5, T6, T7, T8, T9, T10, T11, T12, T13, T14, T15, T16, T17, T18, T19, T20, T21, T22, T23, T24, T25, T26)) -> (r: Out) {
        let (a0, a1, a2, a3, a4, a5, a6, a7, a8, a9, a10, a11, a12, a13, a14, a15, a16, a17, a18, a19, a20, a21, a22, a23, a24, a25) = args;
        self(a0, a1, a2, a3, a4, a5, a6, a7, a8, a9, a10, a11, a12, a13, a14, a15, a16, a17, a18, a19, a20, a21, a22, a23, a24, a25)
    }
}

impl<T1, T2, T3, T4, T5, T6, T7, T8, T9, T10, T11, T12, T13, T14, T15, T16, T17, T18, T19, T20, T21, T22, T23, T24, T25, T26, Func: core::ops::Fn(T1, T2, T3, T4, T5, T6, T7, T8, T9, T10, T11, T12, T13, T14, T15, T16, T17, T18, T19, T20, T21, T22, T23, T24, T25, T26) -> Out, Out> Fn<(T1, T2, T3, T4, T5, T6, T7, T8, T9, T10, T11, T12, T13, T14, T15, T16, T17, T18, T19, T20, T21, T22, T23, T24, T25, T26)> for Func {
    fn call(&self, args: (T1, T2, T3, T4, T5, T6, T7, T8, T9, T10, T11, T12, T13, T14, T15, T16, T17, T18, T19, T20, T21, T22, T23, T24, T25, T26)) -> (r: Out) {
        let (a0, a1, a2, a3, a4, a5, a6, a7, a8, a9, a10, a11, a12, a13, a14, a15, a16, a17, a18, a19, a20, a21, a22, a23, a24, a25) = args;
        self(a0, a1, a2, a3, a4, a5, a6, a7, a8, a9, a10, a11, a12, a13, a14, a15, a16, a17, a18, a19, a20, a21, a22, a23, a24, a25)
    }
}

impl<T1, T2, T3, T4, T5, T6, T7, T8, T9, T10, T11, T12, T13, T14, T15, T16, T17, T18, T19, T20, T21, T22, T23, T24, T25, T26, T27, Func: core::ops::FnOnce(T1, T2, T3, T4, T5, T6, T7, T8, T9, T10, T11, T12, T13, T14, T15, T16, T17, T18, T19, T20, T21, T22, T23, T24, T25, T26, T27) -> Out, Out> FnOnce<(T1, T2, T3, T4, T5, T6, T7, T8, T9, T10, T11, T12, T13, T14, T15, T16, T17, T18, T19, T20, T21, T22, T23, T24, T25, T26, T27)> for Func {
    type Output = Out;

    open spec fn spec_requires(&self, args: (T1, T2, T3, T4, T5, T6, T7, T8, T9, T10, T11, T12, T13, T14, T15, T16, T17, T18, T19, T20, T21, T22, T23, T24, T25, T26, T27)) -> bool {
        self.requires(args)
    }

    open spec fn spec_ensures(&self, args: (T1, T2, T3, T4, T5, T6, T7, T8, T9, T10, T11, T12, T13, T14, T15, T16, T17, T18, T19, T20, T21, T22, T23, T24, T25, T26, T27), output: Out) -> bool {
        self.ensures(args, output)
    }

    fn call_once(self, args: (T1, T2, T3, T4, T5, T6, T7, T8, T9, T10, T11, T12, T13, T14, T15, T16, T17, T18, T19, T20, T21, T22, T23, T24, T25, T26, T27)) -> (r: Out) {
        let (a0, a1, a2, a3, a4, a5, a6, a7, a8, a9, a10, a11, a12, a13, a14, a15, a16, a17, a18, a19, a20, a21, a22, a23, a24, a25, a26) = args;
        self(a0, a1, a2, a3, a4, a5, a6, a7, a8, a9, a10, a11, a12, a13, a14, a15, a16, a17, a18, a19, a20, a21, a22, a23, a24, a25, a26)
    }
}

impl<T1, T2, T3, T4, T5, T6, T7, T8, T9, T10, T11, T12, T13, T14, T15, T16, T17, T18, T19, T20, T21, T22, T23, T24, T25, T26, T27, Func: core::ops::FnMut(T1, T2, T3, T4, T5, T6, T7, T8, T9, T10, T11, T12, T13, T14, T15, T16, T17, T18, T19, T20, T21, T22, T23, T24, T25, T26, T27) -> Out, Out> FnMut<(T1, T2, T3, T4, T5, T6, T7, T8, T9, T10, T11, T12, T13, T14, T15, T16, T17, T18, T19, T20, T21, T22, T23, T24, T25, T26, T27)> for Func {
    fn call_mut(&mut self, args: (T1, T2, T3, T4, T5, T6, T7, T8, T9, T10, T11, T12, T13, T14, T15, T16, T17, T18, T19, T20, T21, T22, T23, T24, T25, T26, T27)) -> (r: Out) {
        let (a0, a1, a2, a3, a4, a5, a6, a7, a8, a9, a10, a11, a12, a13, a14, a15, a16, a17, a18, a19, a20, a21, a22, a23, a24, a25, a26) = args;
        self(a0, a1, a2, a3, a4, a5, a6, a7, a8, a9, a10, a11, a12, a13, a14, a15, a16, a17, a18, a19, a20, a21, a22, a23, a24, a25, a26)
    }
}

impl<T1, T2, T3, T4, T5, T6, T7, T8, T9, T10, T11, T12, T13, T14, T15, T16, T17, T18, T19, T20, T21, T22, T23, T24, T25, T26, T27, Func: core::ops::Fn(T1, T2, T3, T4, T5, T6, T7, T8, T9, T10, T11, T12, T13, T14, T15, T16, T17, T18, T19, T20, T21, T22, T23, T24, T25, T26, T27) -> Out, Out> Fn<(T1, T2, T3, T4, T5, T6, T7, T8, T9, T10, T11, T12, T13, T14, T15, T16, T17, T18, T19, T20, T21, T22, T23, T24, T25, T26, T27)> for Func {
    fn call(&self, args: (T1, T2, T3, T4, T5, T6, T7, T8, T9, T10, T11, T12, T13, T14, T15, T16, T17, T18, T19, T20, T21, T22, T23, T24, T25, T26, T27)) -> (r: Out) {
        let (a0, a1, a2, a3, a4, a5, a6, a7, a8, a9, a10, a11, a12, a13, a14, a15, a16, a17, a18, a19, a20, a21, a22, a23, a24, a25, a26) = args;
        self(a0, a1, a2, a3, a4, a5, a6, a7, a8, a9, a10, a11, a12, a13, a14, a15, a16, a17, a18, a19, a20, a21, a22, a23, a24, a25, a26)
    }
}

impl<T1, T2, T3, T4, T5, T6, T7, T8, T9, T10, T11, T12, T13, T14, T15, T16, T17, T18, T19, T20, T21, T22, T23, T24, T25, T26, T27, T28, Func: core::ops::FnOnce(T1, T2, T3, T4, T5, T6, T7, T8, T9, T10, T11, T12, T13, T14, T15, T16, T17, T18, T19, T20, T21, T22, T23, T24, T25, T26, T27, T28) -> Out, Out> FnOnce<(T1, T2, T3, T4, T5, T6, T7, T8, T9, T10, T11, T12, T13, T14, T15, T16, T17, T18, T19, T20, T21, T22, T23, T24, T25, T26, T27, T28)> for Func {
    type Output = Out;

    open spec fn spec_requires(&self, args: (T1, T2, T3, T4, T5, T6, T7, T8, T9, T10, T11, T12, T13, T14, T15, T16, T17, T18, T19, T20, T21, T22, T23, T24, T25, T26, T27, T28)) -> bool {
        self.requires(args)
    }

    open spec fn spec_ensures(&self, args: (T1, T2, T3, T4, T5, T6, T7, T8, T9, T10, T11, T12, T13, T14, T15, T16, T17, T18, T19, T20, T21, T22, T23, T24, T25, T26, T27, T28), output: Out) -> bool {
        self.ensures(args, output)
    }

    fn call_once(self, args: (T1, T2, T3, T4, T5, T6, T7, T8, T9, T10, T11, T12, T13, T14, T15, T16, T17, T18, T19, T20, T21, T22, T23, T24, T25, T26, T27, T28)) -> (r: Out) {
        let (a0, a1, a2, a3, a4, a5, a6, a7, a8, a9, a10, a11, a12, a13, a14, a15, a16, a17, a18, a19, a20, a21, a22, a23, a24, a25, a26, a27) = args;
        self(a0, a1, a2, a3, a4, a5, a6, a7, a8, a9, a10, a11, a12, a13, a14, a15, a16, a17, a18, a19, a20, a21, a22, a23, a24, a25, a26, a27)
    }
}

impl<T1, T2, T3, T4, T5, T6, T7, T8, T9, T10, T11, T12, T13, T14, T15, T16, T17, T18, T19, T20, T21, T22, T23, T24, T25, T26, T27, T28, Func: core::ops::FnMut(T1, T2, T3, T4, T5, T6, T7, T8, T9, T10, T11, T12, T13, T14, T15, T16, T17, T18, T19, T20, T21, T22, T23, T24, T25, T26, T27, T28) -> Out, Out> FnMut<(T1, T2, T3, T4, T5, T6, T7, T8, T9, T10, T11, T12, T13, T14, T15, T16, T17, T18, T19, T20, T21, T22, T23, T24, T25, T26, T27, T28)> for Func {
    fn call_mut(&mut self, args: (T1, T2, T3, T4, T5, T6, T7, T8, T9, T10, T11, T12, T13, T14, T15, T16, T17, T18, T19, T20, T21, T22, T23, T24, T25, T26, T27, T28)) -> (r: Out) {
        let (a0, a1, a2, a3, a4, a5, a6, a7, a8, a9, a10, a11, a12, a13, a14, a15, a16, a17, a18, a19, a20, a21, a22, a23, a24, a25, a26, a27) = args;
        self(a0, a1, a2, a3, a4, a5, a6, a7, a8, a9, a10, a11, a12, a13, a14, a15, a16, a17, a18, a19, a20, a21, a22, a23, a24, a25, a26, a27)
    }
}

impl<T1, T2, T3, T4, T5, T6, T7, T8, T9, T10, T11, T12, T13, T14, T15, T16, T17, T18, T19, T20, T21, T22, T23, T24, T25, T26, T27, T28, Func: core::ops::Fn(T1, T2, T3, T4, T5, T6, T7, T8, T9, T10, T11, T12, T13, T14, T15, T16, T17, T18, T19, T20, T21, T22, T23, T24, T25, T26, T27, T28) -> Out, Out> Fn<(T1, T2, T3, T4, T5, T6, T7, T8, T9, T10, T11, T12, T13, T14, T15, T16, T17, T18, T19, T20, T21, T22, T23, T24, T25, T26, T27, T28)> for Func {
    fn call(&self, args: (T1, T2, T3, T4, T5, T6, T7, T8, T9, T10, T11, T12, T13, T14, T15, T16, T17, T18, T19, T20, T21, T22, T23, T24, T25, T26, T27, T28)) -> (r: Out) {
        let (a0, a1, a2, a3, a4, a5, a6, a7, a8, a9, a10, a11, a12, a13, a14, a15, a16, a17, a18, a19, a20, a21, a22, a23, a24, a25, a26, a27) = args;
        self(a0, a1, a2, a3, a4, a5, a6, a7, a8, a9, a10, a11, a12, a13, a14, a15, a16, a17, a18, a19, a20, a21, a22, a23, a24, a25, a26, a27)
    }
}

impl<T1, T2, T3, T4, T5, T6, T7, T8, T9, T10, T11, T12, T13, T14, T15, T16, T17, T18, T19, T20, T21, T22, T23, T24, T25, T26, T27, T28, T29, Func: core::ops::FnOnce(T1, T2, T3, T4, T5, T6, T7, T8, T9, T10, T11, T12, T13, T14, T15, T16, T17, T18, T19, T20, T21, T22, T23, T24, T25, T26, T27, T28, T29) -> Out, Out> FnOnce<(T1, T2, T3, T4, T5, T6, T7, T8, T9, T10, T11, T12, T13, T14, T15, T16, T17, T18, T19, T20, T21, T22, T23, T24, T25, T26, T27, T28, T29)> for Func {
    type Output = Out;

    open spec fn spec_requires(&self, args: (T1, T2, T3, T4, T5, T6, T7, T8, T9, T10, T11, T12, T13, T14, T15, T16, T17, T18, T19, T20, T21, T22, T23, T24, T25, T26, T27, T28, T29)) -> bool {
        self.requires(args)
    }

    open spec fn spec_ensures(&self, args: (T1, T2, T3, T4, T5, T6, T7, T8, T9, T10, T11, T12, T13, T14, T15, T16, T17, T18, T19, T20, T21, T22, T23, T24, T25, T26, T27, T28, T29), output: Out) -> bool {
        self.ensures(args, output)
    }

    fn call_once(self, args: (T1, T2, T3, T4, T5, T6, T7, T8, T9, T10, T11, T12, T13, T14, T15, T16, T17, T18, T19, T20, T21, T22, T23, T24, T25, T26, T27, T28, T29)) -> (r: Out) {
        let (a0, a1, a2, a3, a4, a5, a6, a7, a8, a9, a10, a11, a12, a13, a14, a15, a16, a17, a18, a19, a20, a21, a22, a23, a24, a25, a26, a27, a28) = args;
        self(a0, a1, a2, a3, a4, a5, a6, a7, a8, a9, a10, a11, a12, a13, a14, a15, a16, a17, a18, a19, a20, a21, a22, a23, a24, a25, a26, a27, a28)
    }
}

impl<T1, T2, T3, T4, T5, T6, T7, T8, T9, T10, T11, T12, T13, T14, T15, T16, T17, T18, T19, T20, T21, T22, T23, T24, T25, T26, T27, T28, T29, Func: core::ops::FnMut(T1, T2, T3, T4, T5, T6, T7, T8, T9, T10, T11, T12, T13, T14, T15, T16, T17, T18, T19, T20, T21, T22, T23, T24, T25, T26, T27, T28, T29) -> Out, Out> FnMut<(T1, T2, T3, T4, T5, T6, T7, T8, T9, T10, T11, T12, T13, T14, T15, T16, T17, T18, T19, T20, T21, T22, T23, T24, T25, T26, T27, T28, T29)> for Func {
    fn call_mut(&mut self, args: (T1, T2, T3, T4, T5, T6, T7, T8, T9, T10, T11, T12, T13, T14, T15, T16, T17, T18, T19, T20, T21, T22, T23, T24, T25, T26, T27, T28, T29)) -> (r: Out) {
        let (a0, a1, a2, a3, a4, a5, a6, a7, a8, a9, a10, a11, a12, a13, a14, a15, a16, a17, a18, a19, a20, a21, a22, a23, a24, a25, a26, a27, a28) = args;
        self(a0, a1, a2, a3, a4, a5, a6, a7, a8, a9, a10, a11, a12, a13, a14, a15, a16, a17, a18, a19, a20, a21, a22, a23, a24, a25, a26, a27, a28)
    }
}

impl<T1, T2, T3, T4, T5, T6, T7, T8, T9, T10, T11, T12, T13, T14, T15, T16, T17, T18, T19, T20, T21, T22, T23, T24, T25, T26, T27, T28, T29, Func: core::ops::Fn(T1, T2, T3, T4, T5, T6, T7, T8, T9, T10, T11, T12, T13, T14, T15, T16, T17, T18, T19, T20, T21, T22, T23, T24, T25, T26, T27, T28, T29) -> Out, Out> Fn<(T1, T2, T3, T4, T5, T6, T7, T8, T9, T10, T11, T12, T13, T14, T15, T16, T17, T18, T19, T20, T21, T22, T23, T24, T25, T26, T27, T28, T29)> for Func {
    fn call(&self, args: (T1, T2, T3, T4, T5, T6, T7, T8, T9, T10, T11, T12, T13, T14, T15, T16, T17, T18, T19, T20, T21, T22, T23, T24, T25, T26, T27, T28, T29)) -> (r: Out) {
        let (a0, a1, a2, a3, a4, a5, a6, a7, a8, a9, a10, a11, a12, a13, a14, a15, a16, a17, a18, a19, a20, a21, a22, a23, a24, a25, a26, a27, a28) = args;
        self(a0, a1, a2, a3, a4, a5, a6, a7, a8, a9, a10, a11, a12, a13, a14, a15, a16, a17, a18, a19, a20, a21, a22, a23, a24, a25, a26, a27, a28)
    }
}

impl<T1, T2, T3, T4, T5, T6, T7, T8, T9, T10, T11, T12, T13, T14, T15, T16, T17, T18, T19, T20, T21, T22, T23, T24, T25, T26, T27, T28, T29, T30, Func: core::ops::FnOnce(T1, T2, T3, T4, T5, T6, T7, T8, T9, T10, T11, T12, T13, T14, T15, T16, T17, T18, T19, T20, T21, T22, T23, T24, T25, T26, T27, T28, T29, T30) -> Out, Out> FnOnce<(T1, T2, T3, T4, T5, T6, T7, T8, T9, T10, T11, T12, T13, T14, T15, T16, T17, T18, T19, T20, T21, T22, T23, T24, T25, T26, T27, T28, T29, T30)> for Func {
    type Output = Out;

    open spec fn spec_requires(&self, args: (T1, T2, T3, T4, T5, T6, T7, T8, T9, T10, T11, T12, T13, T14, T15, T16, T17, T18, T19, T20, T21, T22, T23, T24, T25, T26, T27, T28, T29, T30)) -> bool {
        self.requires(args)
    }

    open spec fn spec_ensures(&self, args: (T1, T2, T3, T4, T5, T6, T7, T8, T9, T10, T11, T12, T13, T14, T15, T16, T17, T18, T19, T20, T21, T22, T23, T24, T25, T26, T27, T28, T29, T30), output: Out) -> bool {
        self.ensures(args, output)
    }

    fn call_once(self, args: (T1, T2, T3, T4, T5, T6, T7, T8, T9, T10, T11, T12, T13, T14, T15, T16, T17, T18, T19, T20, T21, T22, T23, T24, T25, T26, T27, T28, T29, T30)) -> (r: Out) {
        let (a0, a1, a2, a3, a4, a5, a6, a7, a8, a9, a10, a11, a12, a13, a14, a15, a16, a17, a18, a19, a20, a21, a22, a23, a24, a25, a26, a27, a28, a29) = args;
        self(a0, a1, a2, a3, a4, a5, a6, a7, a8, a9, a10, a11, a12, a13, a14, a15, a16, a17, a18, a19, a20, a21, a22, a23, a24, a25, a26, a27, a28, a29)
    }
}

impl<T1, T2, T3, T4, T5, T6, T7, T8, T9, T10, T11, T12, T13, T14, T15, T16, T17, T18, T19, T20, T21, T22, T23, T24, T25, T26, T27, T28, T29, T30, Func: core::ops::FnMut(T1, T2, T3, T4, T5, T6, T7, T8, T9, T10, T11, T12, T13, T14, T15, T16, T17, T18, T19, T20, T21, T22, T23, T24, T25, T26, T27, T28, T29, T30) -> Out, Out> FnMut<(T1, T2, T3, T4, T5, T6, T7, T8, T9, T10, T11, T12, T13, T14, T15, T16, T17, T18, T19, T20, T21, T22, T23, T24, T25, T26, T27, T28, T29, T30)> for Func {
    fn call_mut(&mut self, args: (T1, T2, T3, T4, T5, T6, T7, T8, T9, T10, T11, T12, T13, T14, T15, T16, T17, T18, T19, T20, T21, T22, T23, T24, T25, T26, T27, T28, T29, T30)) -> (r: Out) {
        let (a0, a1, a2, a3, a4, a5, a6, a7, a8, a9, a10, a11, a12, a13, a14, a15, a16, a17, a18, a19, a20, a21, a22, a23, a24, a25, a26, a27, a28, a29) = args;
        self(a0, a1, a2, a3, a4, a5, a6, a7, a8, a9, a10, a11, a12, a13, a14, a15, a16, a17, a18, a19, a20, a21, a22, a23, a24, a25, a26, a27, a28, a29)
    }
}

impl<T1, T2, T3, T4, T5, T6, T7, T8, T9, T10, T11, T12, T13, T14, T15, T16, T17, T18, T19, T20, T21, T22, T23, T24, T25, T26, T27, T28, T29, T30, Func: core::ops::Fn(T1, T2, T3, T4, T5, T6, T7, T8, T9, T10, T11, T12, T13, T14, T15, T16, T17, T18, T19, T20, T21, T22, T23, T24, T25, T26, T27, T28, T29, T30) -> Out, Out> Fn<(T1, T2, T3, T4, T5, T6, T7, T8, T9, T10, T11, T12, T13, T14, T15, T16, T17, T18, T19, T20, T21, T22, T23, T24, T25, T26, T27, T28, T29, T30)> for Func {
    fn call(&self, args: (T1, T2, T3, T4, T5, T6, T7, T8, T9, T10, T11, T12, T13, T14, T15, T16, T17, T18, T19, T20, T21, T22, T23, T24, T25, T26, T27, T28, T29, T30)) -> (r: Out) {
        let (a0, a1, a2, a3, a4, a5, a6, a7, a8, a9, a10, a11, a12, a13, a14, a15, a16, a17, a18, a19, a20, a21, a22, a23, a24, a25, a26, a27, a28, a29) = args;
        self(a0, a1, a2, a3, a4, a5, a6, a7, a8, a9, a10, a11, a12, a13, a14, a15, a16, a17, a18, a19, a20, a21, a22, a23, a24, a25, a26, a27, a28, a29)
    }
}

impl<T1, T2, T3, T4, T5, T6, T7, T8, T9, T10, T11, T12, T13, T14, T15, T16, T17, T18, T19, T20, T21, T22, T23, T24, T25, T26, T27, T28, T29, T30, T31, Func: core::ops::FnOnce(T1, T2, T3, T4, T5, T6, T7, T8, T9, T10, T11, T12, T13, T14, T15, T16, T17, T18, T19, T20, T21, T22, T23, T24, T25, T26, T27, T28, T29, T30, T31) -> Out, Out> FnOnce<(T1, T2, T3, T4, T5, T6, T7, T8, T9, T10, T11, T12, T13, T14, T15, T16, T17, T18, T19, T20, T21, T22, T23, T24, T25, T26, T27, T28, T29, T30, T31)> for Func {
    type Output = Out;

    open spec fn spec_requires(&self, args: (T1, T2, T3, T4, T5, T6, T7, T8, T9, T10, T11, T12, T13, T14, T15, T16, T17, T18, T19, T20, T21, T22, T23, T24, T25, T26, T27, T28, T29, T30, T31)) -> bool {
        self.requires(args)
    }

    open spec fn spec_ensures(&self, args: (T1, T2, T3, T4, T5, T6, T7, T8, T9, T10, T11, T12, T13, T14, T15, T16, T17, T18, T19, T20, T21, T22, T23, T24, T25, T26, T27, T28, T29, T30, T31), output: Out) -> bool {
        self.ensures(args, output)
    }

    fn call_once(self, args: (T1, T2, T3, T4, T5, T6, T7, T8, T9, T10, T11, T12, T13, T14, T15, T16, T17, T18, T19, T20, T21, T22, T23, T24, T25, T26, T27, T28, T29, T30, T31)) -> (r: Out) {
        let (a0, a1, a2, a3, a4, a5, a6, a7, a8, a9, a10, a11, a12, a13, a14, a15, a16, a17, a18, a19, a20, a21, a22, a23, a24, a25, a26, a27, a28, a29, a30) = args;
        self(a0, a1, a2, a3, a4, a5, a6, a7, a8, a9, a10, a11, a12, a13, a14, a15, a16, a17, a18, a19, a20, a21, a22, a23, a24, a25, a26, a27, a28, a29, a30)
    }
}

impl<T1, T2, T3, T4, T5, T6, T7, T8, T9, T10, T11, T12, T13, T14, T15, T16, T17, T18, T19, T20, T21, T22, T23, T24, T25, T26, T27, T28, T29, T30, T31, Func: core::ops::FnMut(T1, T2, T3, T4, T5, T6, T7, T8, T9, T10, T11, T12, T13, T14, T15, T16, T17, T18, T19, T20, T21, T22, T23, T24, T25, T26, T27, T28, T29, T30, T31) -> Out, Out> FnMut<(T1, T2, T3, T4, T5, T6, T7, T8, T9, T10, T11, T12, T13, T14, T15, T16, T17, T18, T19, T20, T21, T22, T23, T24, T25, T26, T27, T28, T29, T30, T31)> for Func {
    fn call_mut(&mut self, args: (T1, T2, T3, T4, T5, T6, T7, T8, T9, T10, T11, T12, T13, T14, T15, T16, T17, T18, T19, T20, T21, T22, T23, T24, T25, T26, T27, T28, T29, T30, T31)) -> (r: Out) {
        let (a0, a1, a2, a3, a4, a5, a6, a7, a8, a9, a10, a11, a12, a13, a14, a15, a16, a17, a18, a19, a20, a21, a22, a23, a24, a25, a26, a27, a28, a29, a30) = args;
        self(a0, a1, a2, a3, a4, a5, a6, a7, a8, a9, a10, a11, a12, a13, a14, a15, a16, a17, a18, a19, a20, a21, a22, a23, a24, a25, a26, a27, a28, a29, a30)
    }
}

impl<T1, T2, T3, T4, T5, T6, T7, T8, T9, T10, T11, T12, T13, T14, T15, T16, T17, T18, T19, T20, T21, T22, T23, T24, T25, T26, T27, T28, T29, T30, T31, Func: core::ops::Fn(T1, T2, T3, T4, T5, T6, T7, T8, T9, T10, T11, T12, T13, T14, T15, T16, T17, T18, T19, T20, T21, T22, T23, T24, T25, T26, T27, T28, T29, T30, T31) -> Out, Out> Fn<(T1, T2, T3, T4, T5, T6, T7, T8, T9, T10, T11, T12, T13, T14, T15, T16, T17, T18, T19, T20, T21, T22, T23, T24, T25, T26, T27, T28, T29, T30, T31)> for Func {
    fn call(&self, args: (T1, T2, T3, T4, T5, T6, T7, T8, T9, T10, T11, T12, T13, T14, T15, T16, T17, T18, T19, T20, T21, T22, T23, T24, T25, T26, T27, T28, T29, T30, T31)) -> (r: Out) {
        let (a0, a1, a2, a3, a4, a5, a6, a7, a8, a9, a10, a11, a12, a13, a14, a15, a16, a17, a18, a19, a20, a21, a22, a23, a24, a25, a26, a27, a28, a29, a30) = args;
        self(a0, a1, a2, a3, a4, a5, a6, a7, a8, a9, a10, a11, a12, a13, a14, a15, a16, a17, a18, a19, a20, a21, a22, a23, a24, a25, a26, a27, a28, a29, a30)
    }
}

impl<T1, T2, T3, T4, T5, T6, T7, T8, T9, T10, T11, T12, T13, T14, T15, T16, T17, T18, T19, T20, T21, T22, T23, T24, T25, T26, T27, T28, T29, T30, T31, T32, Func: core::ops::FnOnce(T1, T2, T3, T4, T5, T6, T7, T8, T9, T10, T11, T12, T13, T14, T15, T16, T17, T18, T19, T20, T21, T22, T23, T24, T25, T26, T27, T28, T29, T30, T31, T32) -> Out, Out> FnOnce<(T1, T2, T3, T4, T5, T6, T7, T8, T9, T10, T11, T12, T13, T14, T15, T16, T17, T18, T19, T20, T21, T22, T23, T24, T25, T26, T27, T28, T29, T30, T31, T32)> for Func {
    type Output = Out;

    open spec fn spec_requires(&self, args: (T1, T2, T3, T4, T5, T6, T7, T8, T9, T10, T11, T12, T13, T14, T15, T16, T17, T18, T19, T20, T21, T22, T23, T24, T25, T26, T27, T28, T29, T30, T31, T32)) -> bool {
        self.requires(args)
    }

    open spec fn spec_ensures(&self, args: (T1, T2, T3, T4, T5, T6, T7, T8, T9, T10, T11, T12, T13, T14, T15, T16, T17, T18, T19, T20, T21, T22, T23, T24, T25, T26, T27, T28, T29, T30, T31, T32), output: Out) -> bool {
        self.ensures(args, output)
    }

    fn call_once(self, args: (T1, T2, T3, T4, T5, T6, T7, T8, T9, T10, T11, T12, T13, T14, T15, T16, T17, T18, T19, T20, T21, T22, T23, T24, T25, T26, T27, T28, T29, T30, T31, T32)) -> (r: Out) {
        let (a0, a1, a2, a3, a4, a5, a6, a7, a8, a9, a10, a11, a12, a13, a14, a15, a16, a17, a18, a19, a20, a21, a22, a23, a24, a25, a26, a27, a28, a29, a30, a31) = args;
        self(a0, a1, a2, a3, a4, a5, a6, a7, a8, a9, a10, a11, a12, a13, a14, a15, a16, a17, a18, a19, a20, a21, a22, a23, a24, a25, a26, a27, a28, a29, a30, a31)
    }
}

impl<T1, T2, T3, T4, T5, T6, T7, T8, T9, T10, T11, T12, T13, T14, T15, T16, T17, T18, T19, T20, T21, T22, T23, T24, T25, T26, T27, T28, T29, T30, T31, T32, Func: core::ops::FnMut(T1, T2, T3, T4, T5, T6, T7, T8, T9, T10, T11, T12, T13, T14, T15, T16, T17, T18, T19, T20, T21, T22, T23, T24, T25, T26, T27, T28, T29, T30, T31, T32) -> Out, Out> FnMut<(T1, T2, T3, T4, T5, T6, T7, T8, T9, T10, T11, T12, T13, T14, T15, T16, T17, T18, T19, T20, T21, T22, T23, T24, T25, T26, T27, T28, T29, T30, T31, T32)> for Func {
    fn call_mut(&mut self, args: (T1, T2, T3, T4, T5, T6, T7, T8, T9, T10, T11, T12, T13, T14, T15, T16, T17, T18, T19, T20, T21, T22, T23, T24, T25, T26, T27, T28, T29, T30, T31, T32)) -> (r: Out) {
        let (a0, a1, a2, a3, a4, a5, a6, a7, a8, a9, a10, a11, a12, a13, a14, a15, a16, a17, a18, a19, a20, a21, a22, a23, a24, a25, a26, a27, a28, a29, a30, a31) = args;
        self(a0, a1, a2, a3, a4, a5, a6, a7, a8, a9, a10, a11, a12, a13, a14, a15, a16, a17, a18, a19, a20, a21, a22, a23, a24, a25, a26, a27, a28, a29, a30, a31)
    }
}

impl<T1, T2, T3, T4, T5, T6, T7, T8, T9, T10, T11, T12, T13, T14, T15, T16, T17, T18, T19, T20, T21, T22, T23, T24, T25, T26, T27, T28, T29, T30, T31, T32, Func: core::ops::Fn(T1, T2, T3, T4, T5, T6, T7, T8, T9, T10, T11, T12, T13, T14, T15, T16, T17, T18, T19, T20, T21, T22, T23, T24, T25, T26, T27, T28, T29, T30, T31, T32) -> Out, Out> Fn<(T1, T2, T3, T4, T5, T6, T7, T8, T9, T10, T11, T12, T13, T14, T15, T16, T17, T18, T19, T20, T21, T22, T23, T24, T25, T26, T27, T28, T29, T30, T31, T32)> for Func {
    fn call(&self, args: (T1, T2, T3, T4, T5, T6, T7, T8, T9, T10, T11, T12, T13, T14, T15, T16, T17, T18, T19, T20, T21, T22, T23, T24, T25, T26, T27, T28, T29, T30, T31, T32)) -> (r: Out) {
        let (a0, a1, a2, a3, a4, a5, a6, a7, a8, a9, a10, a11, a12, a13, a14, a15, a16, a17, a18, a19, a20, a21, a22, a23, a24, a25, a26, a27, a28, a29, a30, a31) = args;
        self(a0, a1, a2, a3, a4, a5, a6, a7, a8, a9, a10, a11, a12, a13, a14, a15, a16, a17, a18, a19, a20, a21, a22, a23, a24, a25, a26, a27, a28, a29, a30, a31)
    }
}
} // verus!
