//! Tuples handled through a sealed family of traits: arity, growth, head and
//! tail, joining, indexing and calling with a tuple as the argument list.
//!
//! Rust has no variadic generics, so each trait needs one implementation per
//! arity (and joining one per pair of arities). The module [`family`] plans
//! those implementations for every arity up to a maximum, and proves the
//! plan consistent; [`arities`] holds them on Rust's tuples of arity 0 to
//! [`MAX_ARITY`].
pub mod arities;
pub mod bundle;
pub mod family;
pub mod fns;
pub mod idents;
mod seal;
pub mod tuple;

pub use family::{impl_all_traits, MAX_ARITY};
pub use fns::{Fn, FnMut, FnOnce};
pub use idents::gen_idents;
pub use tuple::{
    is_unit, DynTuple, TupleIndex, GrowableTuple, IndexableTuple, JoinableTuple, NonEmptyTuple, NonUnaryTuple,
    Tuple,
};
