//! The type-parameter names that stand for the components of generated tuples.
use vstd::prelude::*;

verus! {

/// The character of a decimal digit.
pub open spec fn digit_char(d: nat) -> char {
    seq!['0', '1', '2', '3', '4', '5', '6', '7', '8', '9'][d as int]
}

/// The decimal writing of `n`, without leading zeros.
pub open spec fn decimal(n: nat) -> Seq<char>
    decreases n,
{
    if n < 10 {
        seq![digit_char(n)]
    } else {
        decimal(n / 10).push(digit_char(n % 10))
    }
}

/// The name of the type parameter for component `i` (counted from zero): `T1`, `T2`, ...
pub open spec fn ident_name(i: nat) -> Seq<char> {
    seq!['T'] + decimal(i + 1)
}

proof fn lemma_decimal_nonempty(n: nat)
    ensures
        decimal(n).len() >= 1,
    decreases n,
{
    if n >= 10 {
        lemma_decimal_nonempty(n / 10);
    }
}

proof fn lemma_digit_char_injective(a: nat, b: nat)
    requires
        a < 10,
        b < 10,
        digit_char(a) == digit_char(b),
    ensures
        a == b,
{
}

/// Distinct numbers are written differently in decimal.
pub proof fn lemma_decimal_injective(a: nat, b: nat)
    requires
        decimal(a) == decimal(b),
    ensures
        a == b,
    decreases a,
{
    if a < 10 && b < 10 {
        assert(decimal(a) == seq![digit_char(a)]);
        assert(decimal(b) == seq![digit_char(b)]);
        assert(seq![digit_char(a)][0] == digit_char(a));
        assert(seq![digit_char(b)][0] == digit_char(b));
        lemma_digit_char_injective(a, b);
    } else if a < 10 {
        lemma_decimal_nonempty(b / 10);
        assert(decimal(b).len() >= 2);
    } else if b < 10 {
        lemma_decimal_nonempty(a / 10);
        assert(decimal(a).len() >= 2);
    } else {
        let da = decimal(a);
        let db = decimal(b);
        assert(da.last() == db.last());
        lemma_digit_char_injective(a % 10, b % 10);
        assert(da.drop_last() =~= decimal(a / 10));
        assert(db.drop_last() =~= decimal(b / 10));
        lemma_decimal_injective(a / 10, b / 10);
    }
}

/// Components at distinct positions get distinct parameter names.
pub proof fn lemma_ident_names_distinct(i: nat, j: nat)
    requires
        i != j,
    ensures
        ident_name(i) != ident_name(j),
{
    if ident_name(i) == ident_name(j) {
        assert(decimal(i + 1) =~= ident_name(i).skip(1));
        assert(decimal(j + 1) =~= ident_name(j).skip(1));
        lemma_decimal_injective(i + 1, j + 1);
    }
}

fn digit_str(d: usize) -> (r: &'static str)
    requires
        d < 10,
    ensures
        r@ == seq![digit_char(d as nat)],
{
    proof {
        reveal_strlit("0");
        reveal_strlit("1");
        reveal_strlit("2");
        reveal_strlit("3");
        reveal_strlit("4");
        reveal_strlit("5");
        reveal_strlit("6");
        reveal_strlit("7");
        reveal_strlit("8");
        reveal_strlit("9");
    }
    match d {
        0 => "0",
        1 => "1",
        2 => "2",
        3 => "3",
        4 => "4",
        5 => "5",
        6 => "6",
        7 => "7",
        8 => "8",
        _ => "9",
    }
}

/// Writes `n` in decimal.
pub fn decimal_string(n: usize) -> (r: String)
    ensures
        r@ == decimal(n as nat),
    decreases n,
{
    if n < 10 {
        let mut s = String::new();
        s.append(digit_str(n));
        assert(s@ =~= decimal(n as nat));
        s
    } else {
        let mut s = decimal_string(n / 10);
        s.append(digit_str(n % 10));
        assert(s@ =~= decimal(n as nat));
        s
    }
}

/// The name of the type parameter for component `i`.
pub fn ident(i: usize) -> (r: String)
    requires
        i < usize::MAX,
    ensures
        r@ == ident_name(i as nat),
{
    proof {
        reveal_strlit("T");
    }
    let mut s = String::new();
    s.append("T");
    let digits = decimal_string(i + 1);
    s.append(digits.as_str());
    assert(s@ =~= ident_name(i as nat));
    s
}

/// The names of the type parameters of a tuple of arity `max_arity`, in
/// positional order: `T1` up to `T{max_arity}`.
pub fn gen_idents(max_arity: usize) -> (r: Vec<String>)
    requires
        max_arity < usize::MAX,
    ensures
        r@.len() == max_arity,
        forall|i: int| 0 <= i < max_arity ==> (#[trigger] r@[i])@ == ident_name(i as nat),
{
    let mut r: Vec<String> = Vec::new();
    let mut i: usize = 0;
    while i < max_arity
        invariant
            i <= max_arity < usize::MAX,
            r@.len() == i,
            forall|k: int| 0 <= k < i ==> (#[trigger] r@[k])@ == ident_name(k as nat),
        decreases max_arity - i,
    {
        r.push(ident(i));
        i = i + 1;
    }
    r
}

/// The enumerated names are pairwise distinct.
pub proof fn lemma_gen_idents_distinct(names: Seq<String>, i: int, j: int)
    requires
        0 <= i < names.len(),
        0 <= j < names.len(),
        i != j,
        forall|k: int| 0 <= k < names.len() ==> (#[trigger] names[k])@ == ident_name(k as nat),
    ensures
        names[i] != names[j],
{
    lemma_ident_names_distinct(i as nat, j as nat);
}

} // verus!
