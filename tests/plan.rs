use tupl::bundle::{
    impl_fns, impl_growable, impl_indexable, impl_joinable, impl_nonempty, impl_nonunary,
    impl_traits, CallKind,
};
use tupl::idents::{decimal_string, ident};
use tupl::{gen_idents, impl_all_traits, MAX_ARITY};

fn names(v: &[&str]) -> Vec<String> {
    v.iter().map(|s| s.to_string()).collect()
}

#[test]
fn decimal_writing() {
    assert_eq!(decimal_string(0), "0");
    assert_eq!(decimal_string(7), "7");
    assert_eq!(decimal_string(10), "10");
    assert_eq!(decimal_string(32), "32");
    assert_eq!(decimal_string(1203), "1203");
}

#[test]
fn identifier_names() {
    assert_eq!(ident(0), "T1");
    assert_eq!(ident(31), "T32");
    assert_eq!(gen_idents(3), names(&["T1", "T2", "T3"]));
    assert!(gen_idents(0).is_empty());
    let ids = gen_idents(50);
    assert_eq!(ids.len(), 50);
    assert_eq!(ids[49], "T50");
    for i in 0..ids.len() {
        for j in 0..i {
            assert_ne!(ids[i], ids[j]);
        }
    }
}

#[test]
fn family_reports_arities() {
    let family = impl_all_traits(MAX_ARITY);
    assert_eq!(family.len(), MAX_ARITY + 1);
    for (k, b) in family.iter().enumerate() {
        assert_eq!(b.tuple.arity, k);
        assert_eq!(b.tuple.tuple.len(), k);
    }
    assert_eq!(family[3].tuple.tuple, names(&["T1", "T2", "T3"]));
}

#[test]
fn growth_capped_at_max_arity() {
    let family = impl_all_traits(MAX_ARITY);
    assert!(family[MAX_ARITY].growable.is_none());
    for b in &family[..MAX_ARITY] {
        assert!(b.growable.is_some());
    }
    let ids = gen_idents(4);
    assert!(impl_growable(&ids, 4).is_none());
    assert!(impl_growable(&ids, 5).is_some());
}

#[test]
fn growth_plan() {
    let ids = names(&["T1", "T2"]);
    let g = impl_growable(&ids, MAX_ARITY).unwrap();
    assert_eq!(g.param, "T");
    assert_eq!(g.append, names(&["T1", "T2", "T"]));
    assert_eq!(g.prepend, names(&["T", "T1", "T2"]));
    let g = impl_growable(&[], MAX_ARITY).unwrap();
    assert_eq!(g.append, names(&["T"]));
    assert_eq!(g.prepend, names(&["T"]));
}

#[test]
fn nonempty_plan() {
    assert!(impl_nonempty(&[]).is_none());
    let one = impl_nonempty(&names(&["T1"])).unwrap();
    assert_eq!(one.head, "T1");
    assert_eq!(one.tail, "T1");
    assert_eq!(one.tail_index, 0);
    assert!(one.truncate_head.is_empty());
    assert!(one.truncate_tail.is_empty());
    let three = impl_nonempty(&names(&["T1", "T2", "T3"])).unwrap();
    assert_eq!(three.head, "T1");
    assert_eq!(three.tail, "T3");
    assert_eq!(three.tail_index, 2);
    assert_eq!(three.truncate_head, names(&["T2", "T3"]));
    assert_eq!(three.truncate_tail, names(&["T1", "T2"]));
}

#[test]
fn round_trip_in_plan() {
    let family = impl_all_traits(8);
    for k in 1..=8 {
        let b = &family[k];
        let n = b.nonempty.as_ref().unwrap();
        let mut again = vec![n.head.clone()];
        again.extend(n.truncate_head.iter().cloned());
        assert_eq!(again, b.tuple.tuple);
        let mut again = n.truncate_tail.clone();
        again.push(n.tail.clone());
        assert_eq!(again, b.tuple.tuple);
        assert_eq!(n.truncate_tail, family[k - 1].tuple.tuple);
    }
}

#[test]
fn nonunary_plan() {
    assert!(impl_nonunary(&names(&["T1"])).is_none());
    let two = impl_nonunary(&names(&["T1", "T2"])).unwrap();
    assert!(two.truncate_head_tail.is_empty());
    let four = impl_nonunary(&names(&["T1", "T2", "T3", "T4"])).unwrap();
    assert_eq!(four.head, "T1");
    assert_eq!(four.tail, "T4");
    assert_eq!(four.tail_index, 3);
    assert_eq!(four.truncate_head_tail, names(&["T2", "T3"]));
}

#[test]
fn joinable_plan() {
    let ids = names(&["T1", "T2", "T3", "T4", "T5"]);
    let joins = impl_joinable(&ids);
    assert_eq!(joins.len(), 6);
    let j = &joins[2];
    assert_eq!(j.left, names(&["T1", "T2"]));
    assert_eq!(j.right, names(&["T3", "T4", "T5"]));
    assert_eq!(j.join, ids);
    for (s, j) in joins.iter().enumerate() {
        assert_eq!(j.left.len(), s);
        assert_eq!(j.join.len(), j.left.len() + j.right.len());
    }
    assert_eq!(impl_joinable(&[]).len(), 1);
}

#[test]
fn joinable_count_is_quadratic() {
    let family = impl_all_traits(MAX_ARITY);
    let total: usize = family.iter().map(|b| b.joinable.len()).sum();
    assert_eq!(total, (MAX_ARITY + 1) * (MAX_ARITY + 2) / 2);
}

#[test]
fn indexable_plan() {
    let ids = names(&["T1", "T2", "T3"]);
    let xs = impl_indexable(&ids);
    assert_eq!(xs.len(), 3);
    for (p, x) in xs.iter().enumerate() {
        assert_eq!(x.index, p);
        assert_eq!(x.value, ids[p]);
    }
    assert!(impl_indexable(&[]).is_empty());
}

#[test]
fn call_forwarding_plan() {
    let ids = names(&["T1", "T2"]);
    let calls = impl_fns(&ids);
    let kinds: Vec<CallKind> = calls.iter().map(|c| c.kind).collect();
    assert_eq!(
        kinds,
        vec![
            CallKind::ByValue,
            CallKind::ByMut,
            CallKind::ByRef,
            CallKind::AsyncByValue,
            CallKind::AsyncByMut,
            CallKind::AsyncByRef,
        ]
    );
    for c in &calls {
        assert_eq!(c.args, ids);
    }
}

#[test]
fn bundle_of_empty_tuple() {
    let b = impl_traits(&[], MAX_ARITY);
    assert_eq!(b.tuple.arity, 0);
    assert_eq!(b.joinable.len(), 1);
    assert!(b.growable.is_some());
    assert!(b.nonempty.is_none());
    assert!(b.nonunary.is_none());
    assert!(b.indexable.is_empty());
    assert_eq!(b.calls.len(), 6);
}

fn coverage(family: &[tupl::bundle::TraitBundle]) -> Vec<(usize, usize, bool, bool, bool, usize, usize)> {
    family
        .iter()
        .map(|b| {
            (
                b.tuple.arity,
                b.joinable.len(),
                b.growable.is_some(),
                b.nonempty.is_some(),
                b.nonunary.is_some(),
                b.indexable.len(),
                b.calls.len(),
            )
        })
        .collect()
}

#[test]
fn generation_is_deterministic() {
    let first = impl_all_traits(MAX_ARITY);
    let second = impl_all_traits(MAX_ARITY);
    assert_eq!(coverage(&first), coverage(&second));
    for (a, b) in first.iter().zip(second.iter()) {
        assert_eq!(a.tuple.tuple, b.tuple.tuple);
    }
}

#[test]
fn family_of_other_maximum() {
    let family = impl_all_traits(50);
    assert_eq!(family.len(), 51);
    assert!(family[50].growable.is_none());
    assert_eq!(family[50].tuple.tuple[49], "T50");
    assert_eq!(impl_all_traits(0).len(), 1);
}
