use tupl::fns::{FnOptionOnce, FnResultOnce};
use tupl::{
    is_unit, DynTuple, Fn, FnMut, FnOnce, GrowableTuple, IndexableTuple, JoinableTuple, TupleIndex,
    NonEmptyTuple, NonUnaryTuple, Tuple,
};

#[test]
fn append_to_pair() {
    let tuple = (1, 2).append(3);
    assert_eq!(tuple, (1, 2, 3));
    assert_eq!(tuple.arity(), 3);
}

#[test]
fn prepend_to_pair() {
    let tuple = (1, 2).prepend(0);
    assert_eq!(tuple, (0, 1, 2));
}

#[test]
fn grow_empty_tuple() {
    assert_eq!(().append("x"), ("x",));
    assert_eq!(().prepend(7u8), (7u8,));
}

#[test]
fn truncate_head_of_triple() {
    assert_eq!((1, 2, 3).truncate_head(), (1, (2, 3)));
}

#[test]
fn truncate_tail_of_triple() {
    assert_eq!((1, 2, 3).truncate_tail(), ((1, 2), 3));
}

#[test]
fn truncate_unary() {
    assert_eq!((5,).truncate_head(), (5, ()));
    assert_eq!((5,).truncate_tail(), ((), 5));
    assert_eq!((5,).head(), (5,).tail());
}

#[test]
fn join_pair_with_triple() {
    assert_eq!((1, 2).join((3, 4, 5)), (1, 2, 3, 4, 5));
}

#[test]
fn join_with_empty() {
    assert_eq!(().join((1, 2)), (1, 2));
    assert_eq!((1, 2).join(()), (1, 2));
    assert_eq!(().join(()), ());
}

#[test]
fn arities_reported() {
    assert_eq!(<() as Tuple>::ARITY, 0);
    assert_eq!(<(u8,) as Tuple>::ARITY, 1);
    assert_eq!(<(u8, u8) as Tuple>::ARITY, 2);
    assert_eq!(<(u8, u8, u8) as Tuple>::ARITY, 3);
    assert_eq!(<(u8, u8, u8, u8) as Tuple>::ARITY, 4);
    assert_eq!(<(u8, u8, u8, u8, u8) as Tuple>::ARITY, 5);
    assert_eq!(<(u8, u8, u8, u8, u8, u8) as Tuple>::ARITY, 6);
    assert_eq!(().arity(), 0);
    assert_eq!((1, 'a', "b", 2.5f64, 3u64, true).arity(), 6);
}

#[test]
fn unit_detection() {
    assert!(is_unit::<()>());
    assert!(!is_unit::<(i32,)>());
    assert!(!is_unit::<(i32, i32)>());
    assert!(().is_unit());
    assert!(!(1, 2).is_unit());
}

#[test]
fn truncate_then_grow_round_trip() {
    let t = (1, "two", 3.0f64, '4');
    let (head, rest) = t.truncate_head();
    assert_eq!(rest.prepend(head), t);
    let (rest, tail) = t.truncate_tail();
    assert_eq!(rest.append(tail), t);
}

#[test]
fn join_arity_adds() {
    let j = (1, 2, 3).join((4, 5, 6));
    assert_eq!(j.arity(), 6);
    assert_eq!(
        <(u8, u8, u8, u8) as Tuple>::ARITY,
        <(u8,) as Tuple>::ARITY + <(u8, u8, u8) as Tuple>::ARITY
    );
}

#[test]
fn index_matches_destructuring() {
    let t = (10, 'b', "c", 40u64, false, 6i8);
    let (a, b, c, d, e, f) = t;
    assert_eq!(*IndexableTuple::<0>::index_ref(&t), a);
    assert_eq!(*IndexableTuple::<1>::index_ref(&t), b);
    assert_eq!(*IndexableTuple::<2>::index_ref(&t), c);
    assert_eq!(*IndexableTuple::<3>::index_ref(&t), d);
    assert_eq!(*IndexableTuple::<4>::index_ref(&t), e);
    assert_eq!(*IndexableTuple::<5>::index_ref(&t), f);
    assert_eq!(IndexableTuple::<1>::into_index((1, 2, 3)), 2);
}

#[test]
fn index_mut_updates_one_position() {
    let mut t = (1, 2, 3);
    *IndexableTuple::<1>::index_mut(&mut t) = 20;
    assert_eq!(t, (1, 20, 3));
}

#[test]
fn head_and_tail_access() {
    let mut t = (1, 2, 3);
    assert_eq!(*t.head(), 1);
    assert_eq!(*t.tail(), 3);
    *t.head_mut() = 10;
    *t.tail_mut() = 30;
    assert_eq!(t, (10, 2, 30));
}

#[test]
fn head_tail_joint_access() {
    let t = (1, 2, 3, 4);
    let (h, l) = t.head_tail();
    assert_eq!((h, l), (t.head(), t.tail()));
    assert_eq!((h, l), (&1, &4));
    let (head, middle, tail) = t.truncate_head_tail();
    assert_eq!((head, middle, tail), (1, (2, 3), 4));
    assert_eq!(middle.arity(), 2);
    assert_eq!(middle.prepend(head), (1, 2, 3));
    assert_eq!(middle.append(tail), (2, 3, 4));
}

#[test]
fn head_tail_joint_on_pair() {
    let mut t = (1, 2);
    let (h, l) = t.head_tail_mut();
    *h = 5;
    *l = 6;
    assert_eq!(t, (5, 6));
    assert_eq!(t.truncate_head_tail(), (5, (), 6));
}

#[test]
fn calls_with_tuple_arguments() {
    let add = |a: i32, b: i32| a + b;
    assert_eq!(add.call((1, 2)), 3);
    let mut total = 0;
    let mut acc = |a: i32| {
        total += a;
        total
    };
    assert_eq!(acc.call_mut((4,)), 4);
    assert_eq!(acc.call_mut((5,)), 9);
    let owned = String::from("x");
    let consume = move |n: usize| owned.repeat(n);
    assert_eq!(consume.call_once((3,)), "xxx");
    let nullary = || 7;
    assert_eq!(Fn::call(&nullary, ()), 7);
}

fn call_option<F: FnOptionOnce<(i32,), Some = i32>>(f: F, x: i32) -> Option<i32> {
    f.call_once((x,))
}

fn call_result<F: FnResultOnce<(i32, i32), Ok = i32, Err = String>>(f: F) -> Result<i32, String> {
    f.call_once((6, 3))
}

#[test]
fn option_and_result_returning_functions() {
    assert_eq!(call_option(|x: i32| if x > 0 { Some(x * 2) } else { None }, 4), Some(8));
    assert_eq!(call_option(|x: i32| if x > 0 { Some(x * 2) } else { None }, -1), None);
    assert_eq!(call_result(|a: i32, b: i32| Ok(a / b)), Ok(2));
    assert_eq!(call_result(|_: i32, _: i32| Err("no".to_string())), Err("no".to_string()));
}

type T31 = (
    u8, u8, u8, u8, u8, u8, u8, u8, u8, u8, u8, u8, u8, u8, u8, u8,
    u8, u8, u8, u8, u8, u8, u8, u8, u8, u8, u8, u8, u8, u8, u8,
);

fn array31(t: (u8, u8, u8, u8, u8, u8, u8, u8, u8, u8, u8, u8, u8, u8, u8, u8, u8, u8, u8, u8, u8, u8, u8, u8, u8, u8, u8, u8, u8, u8, u8)) -> [u8; 31] {
    let (a0, a1, a2, a3, a4, a5, a6, a7, a8, a9, a10, a11, a12, a13, a14, a15, a16, a17, a18, a19, a20, a21, a22, a23, a24, a25, a26, a27, a28, a29, a30) = t;
    [a0, a1, a2, a3, a4, a5, a6, a7, a8, a9, a10, a11, a12, a13, a14, a15, a16, a17, a18, a19, a20, a21, a22, a23, a24, a25, a26, a27, a28, a29, a30]
}

fn array32(t: (u8, u8, u8, u8, u8, u8, u8, u8, u8, u8, u8, u8, u8, u8, u8, u8, u8, u8, u8, u8, u8, u8, u8, u8, u8, u8, u8, u8, u8, u8, u8, u8)) -> [u8; 32] {
    let (a0, a1, a2, a3, a4, a5, a6, a7, a8, a9, a10, a11, a12, a13, a14, a15, a16, a17, a18, a19, a20, a21, a22, a23, a24, a25, a26, a27, a28, a29, a30, a31) = t;
    [a0, a1, a2, a3, a4, a5, a6, a7, a8, a9, a10, a11, a12, a13, a14, a15, a16, a17, a18, a19, a20, a21, a22, a23, a24, a25, a26, a27, a28, a29, a30, a31]
}

#[test]
fn largest_arity() {
    let t: T31 = (
        0, 1, 2, 3, 4, 5, 6, 7, 8, 9, 10, 11, 12, 13, 14, 15, 16, 17, 18, 19, 20, 21, 22, 23, 24,
        25, 26, 27, 28, 29, 30,
    );
    assert_eq!(t.arity(), 31);
    let grown = t.append(31u8);
    assert_eq!(grown.arity(), 32);
    assert_eq!(<(u8, T31) as Tuple>::ARITY, 2);
    assert_eq!(*grown.tail(), 31);
    assert_eq!(*IndexableTuple::<31>::index_ref(&grown), 31);
    assert_eq!(*IndexableTuple::<17>::index_ref(&grown), 17);
    let (rest, last) = grown.truncate_tail();
    assert_eq!(array31(rest), array31(t));
    assert_eq!(last, 31);
    let (first, rest) = grown.truncate_head();
    assert_eq!(first, 0);
    assert_eq!(array32(rest.prepend(first)), array32(grown));
    let joined = (0u8,).join(rest);
    assert_eq!(array32(joined), array32(grown));
    assert_eq!(array32(grown)[30], 30);
}

#[test]
fn index_type_alias() {
    let x: TupleIndex<(u8, &str, bool), 1> = "b";
    assert_eq!(x, *IndexableTuple::<1>::index_ref(&(1u8, "b", true)));
}
