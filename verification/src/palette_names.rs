//! Palette editor modes and unique palette naming.

use vstd::prelude::*;
use vstd::relations::injective_on;
use vstd::set_lib::{lemma_int_range, lemma_len_subset, lemma_map_size, set_int_range};

verus! {

/// Edit mode of a palette editing session; it decides button behavior and
/// the dirty-state rule.
#[derive(Clone, Copy, Debug, PartialEq, Eq, Structural)]
pub enum EditMode {
    /// Editing an existing palette (custom or shadowed factory).
    Edit,
    /// Creating a new palette (duplicate, new, or editing a factory default).
    Duplicate,
}

/// An editing session has unsaved changes when it creates a new palette,
/// or when the working palette differs from the one the session opened.
pub fn session_is_dirty(mode: EditMode, working_equals_source: bool) -> (r: bool)
    ensures
        r == (mode == EditMode::Duplicate || !working_equals_source),
{
    match mode {
        EditMode::Duplicate => true,
        EditMode::Edit => !working_equals_source,
    }
}

/// The character of decimal digit `d`.
pub open spec fn digit_char(d: int) -> char {
    if d == 0 { '0' }
    else if d == 1 { '1' }
    else if d == 2 { '2' }
    else if d == 3 { '3' }
    else if d == 4 { '4' }
    else if d == 5 { '5' }
    else if d == 6 { '6' }
    else if d == 7 { '7' }
    else if d == 8 { '8' }
    else { '9' }
}

/// The decimal representation of `n`, without leading zeros.
pub open spec fn decimal(n: nat) -> Seq<char>
    decreases n,
{
    if n < 10 {
        seq![digit_char(n as int)]
    } else {
        decimal(n / 10).push(digit_char((n % 10) as int))
    }
}

/// `"<base> Copy"`.
pub open spec fn copy_name(base: Seq<char>) -> Seq<char> {
    base + seq![' ', 'C', 'o', 'p', 'y']
}

/// `"<base> Copy (<i>)"`.
pub open spec fn numbered_copy_name(base: Seq<char>, i: nat) -> Seq<char> {
    base + seq![' ', 'C', 'o', 'p', 'y', ' ', '('] + decimal(i) + seq![')']
}

/// The names held by a list of strings.
pub open spec fn name_views(names: Seq<String>) -> Seq<Seq<char>> {
    names.map_values(|s: String| s@)
}

proof fn lemma_decimal_len(n: nat)
    ensures
        decimal(n).len() >= 1,
        n >= 10 ==> decimal(n).len() >= 2,
    decreases n,
{
    if n >= 10 {
        lemma_decimal_len(n / 10);
    }
}

/// Different numbers have different decimal representations.
pub proof fn lemma_decimal_injective(a: nat, b: nat)
    requires
        decimal(a) == decimal(b),
    ensures
        a == b,
    decreases a,
{
    lemma_decimal_len(a);
    lemma_decimal_len(b);
    if a < 10 && b < 10 {
        assert(decimal(a)[0] == digit_char(a as int));
        assert(decimal(b)[0] == digit_char(b as int));
    } else if a >= 10 && b >= 10 {
        assert(decimal(a).last() == digit_char((a % 10) as int));
        assert(decimal(b).last() == digit_char((b % 10) as int));
        assert(decimal(a).drop_last() =~= decimal(a / 10));
        assert(decimal(b).drop_last() =~= decimal(b / 10));
        lemma_decimal_injective(a / 10, b / 10);
    }
}

/// Different copy numbers give different copy names.
pub proof fn lemma_numbered_copy_name_injective(base: Seq<char>, i: nat, j: nat)
    requires
        numbered_copy_name(base, i) == numbered_copy_name(base, j),
    ensures
        i == j,
{
    let p = base + seq![' ', 'C', 'o', 'p', 'y', ' ', '('];
    let ni = numbered_copy_name(base, i);
    let nj = numbered_copy_name(base, j);
    assert(ni.len() == p.len() + decimal(i).len() + 1);
    assert(nj.len() == p.len() + decimal(j).len() + 1);
    assert(ni.subrange(p.len() as int, (p.len() + decimal(i).len()) as int) =~= decimal(i));
    assert(nj.subrange(p.len() as int, (p.len() + decimal(j).len()) as int) =~= decimal(j));
    lemma_decimal_injective(i, j);
}

/// If `f` is injective on `lo..hi` and every `f(j)` occurs in `s`, then `s`
/// has at least `hi - lo` elements.
proof fn lemma_pigeonhole<A>(lo: int, hi: int, f: spec_fn(int) -> A, s: Seq<A>)
    requires
        lo <= hi,
        injective_on(f, set_int_range(lo, hi)),
        forall|j: int| lo <= j < hi ==> s.contains(#[trigger] f(j)),
    ensures
        hi - lo <= s.len(),
{
    let x = set_int_range(lo, hi);
    lemma_int_range(lo, hi);
    let y = x.map(f);
    lemma_map_size(x, y, f);
    assert(y.subset_of(s.to_set())) by {
        assert forall|a: A| y.contains(a) implies s.to_set().contains(a) by {
            let j = choose|j: int| x.contains(j) && f(j) == a;
            assert(s.contains(f(j)));
        }
    }
    vstd::seq_lib::seq_to_set_is_finite(s);
    lemma_len_subset(y, s.to_set());
    s.lemma_cardinality_of_set();
}

/// The one-character string of decimal digit `d`.
fn digit_str(d: u128) -> (r: &'static str)
    requires
        d < 10,
    ensures
        r@ == seq![digit_char(d as int)],
{
    proof {
        reveal_strlit("0");
        reveal_strlit("1");
        reveal_strlit("2");
        reveal_strlit("3");
        reveal_strlit("4");
        reveal_strlit("5");
        reveal_strlit("6");
        reveal_strlit("7");
        reveal_strlit("8");
        reveal_strlit("9");
    }
    if d == 0 {
        "0"
    } else if d == 1 {
        "1"
    } else if d == 2 {
        "2"
    } else if d == 3 {
        "3"
    } else if d == 4 {
        "4"
    } else if d == 5 {
        "5"
    } else if d == 6 {
        "6"
    } else if d == 7 {
        "7"
    } else if d == 8 {
        "8"
    } else {
        "9"
    }
}

/// The decimal representation of `n`.
pub fn decimal_string(n: u128) -> (s: String)
    ensures
        s@ == decimal(n as nat),
    decreases n,
{
    if n < 10 {
        String::from_str(digit_str(n))
    } else {
        let mut s = decimal_string(n / 10);
        s.append(digit_str(n % 10));
        s
    }
}

/// Whether `name` occurs in `names`.
pub fn name_in_list(names: &[String], name: &String) -> (r: bool)
    ensures
        r == name_views(names@).contains(name@),
{
    let n = names.len();
    let mut i: usize = 0;
    while i < n
        invariant
            n == names@.len(),
            i <= n,
            forall|k: int| 0 <= k < i ==> names@[k]@ != name@,
        decreases n - i,
    {
        if names[i] == *name {
            proof {
                assert(name_views(names@)[i as int] == name@);
            }
            return true;
        }
        i = i + 1;
    }
    proof {
        if name_views(names@).contains(name@) {
            let k = choose|k: int| 0 <= k < name_views(names@).len() && name_views(names@)[k] == name@;
            assert(names@[k]@ == name@);
        }
    }
    false
}

fn numbered_name(base: &str, i: u128) -> (s: String)
    ensures
        s@ == numbered_copy_name(base@, i as nat),
{
    let mut s = String::from_str(base);
    proof {
        reveal_strlit(" Copy (");
        reveal_strlit(")");
    }
    s.append(" Copy (");
    let d = decimal_string(i);
    s.append(d.as_str());
    s.append(")");
    proof {
        assert(s@ =~= numbered_copy_name(base@, i as nat));
    }
    s
}

/// A palette name not among `existing`: `"<base> Copy"` when that is free,
/// else `"<base> Copy (<i>)"` for the smallest `i >= 1` that is free.
pub fn generate_unique_name(base: &str, existing: &[String]) -> (r: String)
    ensures
        !name_views(existing@).contains(r@),
        !name_views(existing@).contains(copy_name(base@)) ==> r@ == copy_name(base@),
        name_views(existing@).contains(copy_name(base@)) ==> exists|i: nat|
            #![trigger numbered_copy_name(base@, i)]
            i >= 1 && r@ == numbered_copy_name(base@, i)
            && forall|j: nat| 1 <= j < i ==> name_views(existing@).contains(#[trigger] numbered_copy_name(base@, j)),
{
    let mut copy = String::from_str(base);
    proof {
        reveal_strlit(" Copy");
    }
    copy.append(" Copy");
    proof {
        assert(copy@ =~= copy_name(base@));
    }
    if !name_in_list(existing, &copy) {
        return copy;
    }
    let ghost names = name_views(existing@);
    let ghost f = |j: int| numbered_copy_name(base@, j as nat);
    let n_existing = existing.len();
    let mut i: u128 = 1;
    loop
        invariant
            n_existing == existing@.len(),
            names == name_views(existing@),
            f == (|j: int| numbered_copy_name(base@, j as nat)),
            names.contains(copy_name(base@)),
            1 <= i <= existing@.len() + 1,
            forall|j: nat| 1 <= j < i ==> names.contains(#[trigger] numbered_copy_name(base@, j)),
        decreases existing@.len() + 1 - i,
    {
        let name = numbered_name(base, i);
        if !name_in_list(existing, &name) {
            return name;
        }
        proof {
            assert(injective_on(f, set_int_range(1, i + 1))) by {
                assert forall|a: int, b: int|
                    set_int_range(1, i + 1).contains(a) && set_int_range(1, i + 1).contains(b) && #[trigger] f(a) == #[trigger] f(b)
                    implies a == b by {
                    lemma_numbered_copy_name_injective(base@, a as nat, b as nat);
                }
            }
            assert forall|j: int| 1 <= j < i + 1 implies names.contains(#[trigger] f(j)) by {
                assert(names.contains(numbered_copy_name(base@, j as nat)));
            }
            lemma_pigeonhole(1, i + 1, f, names);
        }
        i = i + 1;
    }
}

} // verus!
