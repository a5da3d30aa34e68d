//! Names and messages: the order of names, and numbers in messages.
use vstd::prelude::*;
use vstd::string::*;

verus! {

/// How one name stands to another.
#[derive(Clone, Copy, Debug, PartialEq, Eq, Structural)]
pub enum NameOrder {
    Before,
    Same,
    After,
}

/// The order of names: by the first character in which they differ, and the
/// shorter first where there is none.
pub open spec fn name_before(a: Seq<char>, b: Seq<char>) -> bool
    decreases a.len(),
{
    if b.len() == 0 {
        false
    } else if a.len() == 0 {
        true
    } else {
        a[0] < b[0] || (a[0] == b[0] && name_before(a.drop_first(), b.drop_first()))
    }
}

/// Of two names one comes first, or they are the same.
pub proof fn lemma_names_total(a: Seq<char>, b: Seq<char>)
    ensures
        name_before(a, b) ==> a != b && !name_before(b, a),
        a == b || name_before(a, b) || name_before(b, a),
    decreases a.len(),
{
    if a.len() > 0 && b.len() > 0 {
        lemma_names_total(a.drop_first(), b.drop_first());
        if a.drop_first() == b.drop_first() && a[0] == b[0] {
            assert(a =~= seq![a[0]] + a.drop_first());
            assert(b =~= seq![b[0]] + b.drop_first());
        }
    } else if a.len() == 0 && b.len() == 0 {
        assert(a =~= b);
    }
}

/// A name is before another exactly when it is a shorter beginning of it, or has the
/// smaller character at the first place in which they differ.
pub proof fn lemma_names_by_first_difference(a: Seq<char>, b: Seq<char>, k: int)
    requires
        0 <= k <= a.len(),
        k <= b.len(),
        a.take(k) == b.take(k),
        k < a.len() && k < b.len() ==> a[k] != b[k],
    ensures
        name_before(a, b) <==> k < b.len() && (k == a.len() || a[k] < b[k]),
    decreases k,
{
    if k > 0 {
        let (x, y) = (a.drop_first(), b.drop_first());
        assert(a[0] == a.take(k)[0] && b[0] == b.take(k)[0]);
        assert(x.take(k - 1) =~= a.take(k).drop_first());
        assert(y.take(k - 1) =~= b.take(k).drop_first());
        lemma_names_by_first_difference(x, y, k - 1);
    }
}

/// A name before a second is before every third that the second is before.
pub proof fn lemma_names_transitive(a: Seq<char>, b: Seq<char>, c: Seq<char>)
    requires
        name_before(a, b),
        name_before(b, c),
    ensures
        name_before(a, c),
    decreases a.len(),
{
    if a.len() > 0 && b.len() > 0 && c.len() > 0 {
        if a[0] == b[0] && b[0] == c[0] {
            lemma_names_transitive(a.drop_first(), b.drop_first(), c.drop_first());
        }
    }
}

/// How one name stands to another.
pub fn order_names(a: &str, b: &str) -> (r: NameOrder)
    ensures
        r == NameOrder::Before <==> name_before(a@, b@),
        r == NameOrder::After <==> name_before(b@, a@),
        r == NameOrder::Same <==> a@ == b@,
{
    let n: usize = a.unicode_len();
    let m: usize = b.unicode_len();
    let mut i: usize = 0;
    proof {
        lemma_names_total(a@, b@);
        assert(a@.skip(0) == a@);
        assert(b@.skip(0) == b@);
    }
    while i < n && i < m
        invariant
            i <= n == a@.len(),
            i <= m == b@.len(),
            name_before(a@, b@) == name_before(a@.skip(i as int), b@.skip(i as int)),
            name_before(b@, a@) == name_before(b@.skip(i as int), a@.skip(i as int)),
            name_before(a@, b@) ==> a@ != b@ && !name_before(b@, a@),
            a@ == b@ || name_before(a@, b@) || name_before(b@, a@),
        decreases n - i,
    {
        let x: char = a.get_char(i);
        let y: char = b.get_char(i);
        assert(a@.skip(i as int)[0] == x);
        assert(b@.skip(i as int)[0] == y);
        assert(a@.skip(i as int).drop_first() == a@.skip(i + 1));
        assert(b@.skip(i as int).drop_first() == b@.skip(i + 1));
        if x < y {
            return NameOrder::Before;
        }
        if y < x {
            return NameOrder::After;
        }
        i = i + 1;
    }
    proof {
        assert(n == i ==> a@.skip(i as int).len() == 0);
        assert(m == i ==> b@.skip(i as int).len() == 0);
        if name_before(b@, a@) {
            lemma_names_total(b@, a@);
        }
    }
    if n < m {
        NameOrder::Before
    } else if m < n {
        NameOrder::After
    } else {
        NameOrder::Same
    }
}

/// Two texts are the same.
pub fn same_text(a: &str, b: &str) -> (r: bool)
    ensures
        r == (a@ == b@),
{
    order_names(a, b) == NameOrder::Same
}

/// A digit's character.
pub open spec fn digit_char(d: int) -> char {
    ('0' as int + d) as char
}

/// A number in decimal.
pub open spec fn decimal_text(n: nat) -> Seq<char>
    decreases n,
{
    if n < 10 {
        seq![digit_char(n as int)]
    } else {
        decimal_text(n / 10).push(digit_char((n % 10) as int))
    }
}

/// A number with a sign in decimal.
pub open spec fn signed_text(n: int) -> Seq<char> {
    if n < 0 {
        seq!['-'] + decimal_text((-n) as nat)
    } else {
        decimal_text(n as nat)
    }
}

/// The number that a text of digits spells in decimal.
pub open spec fn digits_value(text: Seq<char>) -> int
    decreases text.len(),
{
    if text.len() == 0 {
        0
    } else {
        10 * digits_value(text.drop_last()) + (text.last() as int - '0' as int)
    }
}

/// A number in decimal is made of digits, spells the number, and has no zero at its front
/// but where it is nothing else.
pub proof fn lemma_decimal_text(n: nat)
    ensures
        digits_value(decimal_text(n)) == n,
        decimal_text(n).len() > 0,
        forall|i: int|
            0 <= i < decimal_text(n).len() ==> '0' <= (#[trigger] decimal_text(n)[i]) <= '9',
        decimal_text(n)[0] == '0' ==> n == 0,
        n == 0 ==> decimal_text(n).len() == 1,
    decreases n,
{
    let text = decimal_text(n);
    let d = (n % 10) as int;
    let c = digit_char(d);
    assert(c as int == '0' as int + d);
    if n < 10 {
        assert(text.drop_last() =~= Seq::<char>::empty());
        assert(digits_value(text.drop_last()) == 0);
    } else {
        lemma_decimal_text(n / 10);
        assert(text.drop_last() =~= decimal_text(n / 10));
        assert(n == 10 * (n / 10) + n % 10);
    }
}

/// A negative number has a sign and then its opposite; any other number has no sign.
pub proof fn lemma_signed_text(n: int)
    ensures
        n < 0 ==> signed_text(n).len() > 0 && signed_text(n)[0] == '-' && digits_value(
            signed_text(n).drop_first(),
        ) == -n,
        n >= 0 ==> digits_value(signed_text(n)) == n && signed_text(n)[0] != '-',
{
    if n < 0 {
        lemma_decimal_text((-n) as nat);
        assert(signed_text(n).drop_first() =~= decimal_text((-n) as nat));
    } else {
        lemma_decimal_text(n as nat);
    }
}

/// Appends a digit.
fn push_digit(s: &mut String, d: u64)
    requires
        d < 10,
    ensures
        final(s)@ == old(s)@.push(digit_char(d as int)),
{
    proof {
        reveal_strlit("0");
        reveal_strlit("1");
        reveal_strlit("2");
        reveal_strlit("3");
        reveal_strlit("4");
        reveal_strlit("5");
        reveal_strlit("6");
        reveal_strlit("7");
        reveal_strlit("8");
        reveal_strlit("9");
    }
    let digit = if d == 0 {
        "0"
    } else if d == 1 {
        "1"
    } else if d == 2 {
        "2"
    } else if d == 3 {
        "3"
    } else if d == 4 {
        "4"
    } else if d == 5 {
        "5"
    } else if d == 6 {
        "6"
    } else if d == 7 {
        "7"
    } else if d == 8 {
        "8"
    } else {
        "9"
    };
    assert(digit@ =~= seq![digit_char(d as int)]);
    s.append(digit);
    assert(s@ =~= old(s)@.push(digit_char(d as int)));
}

/// Appends a number in decimal.
pub fn push_decimal(s: &mut String, n: u64)
    ensures
        final(s)@ == old(s)@ + decimal_text(n as nat),
    decreases n,
{
    if n >= 10 {
        push_decimal(s, n / 10);
    }
    push_digit(s, n % 10);
    assert(s@ =~= old(s)@ + decimal_text(n as nat));
}

/// Appends a number with a sign in decimal.
pub fn push_signed(s: &mut String, n: i32)
    ensures
        final(s)@ == old(s)@ + signed_text(n as int),
{
    if n < 0 {
        proof {
            reveal_strlit("-");
        }
        s.append("-");
        push_decimal(s, (-(n as i64)) as u64);
        assert(s@ =~= old(s)@ + signed_text(n as int));
    } else {
        push_decimal(s, n as u64);
    }
}

/// Three texts as one.
pub fn join3(a: &str, b: &str, c: &str) -> (r: String)
    ensures
        r@ == a@ + b@ + c@,
{
    let mut r = a.to_owned();
    r.append(b);
    r.append(c);
    r
}

/// The indices of the names, in the order of the names, and in their own order
/// where names are the same.
pub open spec fn precedes(names: Seq<Seq<char>>, a: int, b: int) -> bool {
    name_before(names[a], names[b]) || (names[a] == names[b] && a < b)
}

/// The texts behind the strings.
pub open spec fn texts(names: Seq<String>) -> Seq<Seq<char>> {
    names.map_values(|s: String| s@)
}

/// The sequence holds every index once, sorted by name; where names are the same
/// their order is kept.
pub open spec fn is_name_order(names: Seq<Seq<char>>, order: Seq<usize>) -> bool {
    &&& order.len() == names.len()
    &&& forall|i: int| 0 <= i < order.len() ==> 0 <= #[trigger] order[i] < names.len()
    &&& forall|i: int, j: int|
        0 <= i < j < order.len() ==> precedes(
            names,
            #[trigger] order[i] as int,
            #[trigger] order[j] as int,
        )
}

/// Of two indices one precedes the other.
proof fn lemma_precedes(names: Seq<Seq<char>>, a: int, b: int)
    ensures
        !(precedes(names, a, b) && precedes(names, b, a)),
        a != b ==> precedes(names, a, b) || precedes(names, b, a),
{
    lemma_names_total(names[a], names[b]);
    lemma_names_total(names[b], names[a]);
}

proof fn lemma_precedes_transitive(names: Seq<Seq<char>>, a: int, b: int, c: int)
    requires
        precedes(names, a, b),
        precedes(names, b, c),
    ensures
        precedes(names, a, c),
{
    if name_before(names[a], names[b]) && name_before(names[b], names[c]) {
        lemma_names_transitive(names[a], names[b], names[c]);
    }
}

/// The sequence holds indices from `lo` up to `hi`, as many as there are, in
/// order.
pub open spec fn ordered_range(names: Seq<Seq<char>>, s: Seq<usize>, lo: int, hi: int) -> bool {
    &&& s.len() == hi - lo
    &&& forall|i: int| 0 <= i < s.len() ==> lo <= #[trigger] s[i] < hi
    &&& forall|i: int, j: int|
        0 <= i < j < s.len() ==> precedes(names, #[trigger] s[i] as int, #[trigger] s[j] as int)
}

/// Merges two neighbouring ranges.
fn merge_ranges(
    names: &Vec<String>,
    left: &Vec<usize>,
    right: &Vec<usize>,
    lo: usize,
    mid: usize,
    hi: usize,
) -> (r: Vec<usize>)
    requires
        lo <= mid <= hi <= names@.len(),
        ordered_range(texts(names@), left@, lo as int, mid as int),
        ordered_range(texts(names@), right@, mid as int, hi as int),
    ensures
        ordered_range(texts(names@), r@, lo as int, hi as int),
{
    let ghost all = texts(names@);
    let mut r: Vec<usize> = Vec::new();
    let mut i: usize = 0;
    let mut j: usize = 0;
    while i < left.len() || j < right.len()
        invariant
            all == texts(names@),
            lo <= mid <= hi <= names@.len(),
            ordered_range(all, left@, lo as int, mid as int),
            ordered_range(all, right@, mid as int, hi as int),
            i <= left@.len(),
            j <= right@.len(),
            r@.len() == i + j,
            forall|k: int| 0 <= k < r@.len() ==> lo <= #[trigger] r@[k] < hi,
            forall|a: int, b: int|
                0 <= a < b < r@.len() ==> precedes(
                    all,
                    #[trigger] r@[a] as int,
                    #[trigger] r@[b] as int,
                ),
            forall|a: int, b: int|
                0 <= a < r@.len() && i <= b < left@.len() ==> precedes(
                    all,
                    #[trigger] r@[a] as int,
                    #[trigger] left@[b] as int,
                ),
            forall|a: int, b: int|
                0 <= a < r@.len() && j <= b < right@.len() ==> precedes(
                    all,
                    #[trigger] r@[a] as int,
                    #[trigger] right@[b] as int,
                ),
        decreases (left@.len() - i) + (right@.len() - j),
    {
        let from_left: bool = if i == left.len() {
            false
        } else if j == right.len() {
            true
        } else {
            order_names(names[right[j]].as_str(), names[left[i]].as_str()) != NameOrder::Before
        };
        let ghost before = r@;
        if from_left {
            let ghost x = left@[i as int] as int;
            r.push(left[i]);
            assert forall|b: int| j <= b < right@.len() implies precedes(
                all,
                x,
                #[trigger] right@[b] as int,
            ) by {
                lemma_precedes(all, x, right@[j as int] as int);
                assert(all[x] == names@[x]@);
                assert(all[right@[j as int] as int] == names@[right@[j as int] as int]@);
                lemma_names_total(all[right@[j as int] as int], all[x]);
                assert(precedes(all, x, right@[j as int] as int));
                if b > j {
                    lemma_precedes_transitive(all, x, right@[j as int] as int, right@[b] as int);
                }
            }
            i = i + 1;
        } else {
            let ghost x = right@[j as int] as int;
            r.push(right[j]);
            assert forall|b: int| i <= b < left@.len() implies precedes(
                all,
                x,
                #[trigger] left@[b] as int,
            ) by {
                assert(all[x] == names@[x]@);
                assert(all[left@[i as int] as int] == names@[left@[i as int] as int]@);
                assert(precedes(all, x, left@[i as int] as int));
                if b > i {
                    lemma_precedes_transitive(all, x, left@[i as int] as int, left@[b] as int);
                }
            }
            j = j + 1;
        }
    }
    r
}

/// Sorts the indices of a range.
fn sort_range(names: &Vec<String>, lo: usize, hi: usize) -> (r: Vec<usize>)
    requires
        lo <= hi <= names@.len(),
    ensures
        ordered_range(texts(names@), r@, lo as int, hi as int),
    decreases hi - lo,
{
    if hi - lo <= 1 {
        let mut r: Vec<usize> = Vec::new();
        if lo < hi {
            r.push(lo);
        }
        r
    } else {
        let mid: usize = lo + (hi - lo) / 2;
        let left = sort_range(names, lo, mid);
        let right = sort_range(names, mid, hi);
        merge_ranges(names, &left, &right, lo, mid, hi)
    }
}

/// The indices of the names, sorted by name; where names are the same their
/// order is kept.
pub fn sort_by_name(names: &Vec<String>) -> (r: Vec<usize>)
    ensures
        is_name_order(texts(names@), r@),
{
    sort_range(names, 0, names.len())
}

/// Sorting has one outcome.
pub proof fn lemma_name_order_unique(names: Seq<Seq<char>>, a: Seq<usize>, b: Seq<usize>)
    requires
        is_name_order(names, a),
        is_name_order(names, b),
    ensures
        a == b,
{
    lemma_range_covered(names, a);
    lemma_range_covered(names, b);
    assert forall|i: int| 0 <= i < a.len() implies a[i] == b[i] by {
        lemma_same_place(names, a, b, i);
    }
    assert(a =~= b);
}

/// Every index occurs.
proof fn lemma_range_covered(names: Seq<Seq<char>>, s: Seq<usize>)
    requires
        is_name_order(names, s),
    ensures
        s.no_duplicates(),
        forall|x: usize| 0 <= x < names.len() ==> s.contains(x),
{
    assert forall|i: int, j: int| 0 <= i < s.len() && 0 <= j < s.len() && i != j implies s[i]
        != s[j] by {
        if i < j {
            lemma_precedes(names, s[i] as int, s[j] as int);
            if s[i] == s[j] {
                lemma_precedes(names, s[i] as int, s[i] as int);
            }
        } else {
            lemma_precedes(names, s[j] as int, s[i] as int);
            if s[i] == s[j] {
                lemma_precedes(names, s[i] as int, s[i] as int);
            }
        }
    }
    s.unique_seq_to_set();
    let n = names.len() as int;
    let ints = s.map_values(|x: usize| x as int);
    assert(ints.no_duplicates()) by {
        assert forall|i: int, j: int|
            0 <= i < ints.len() && 0 <= j < ints.len() && i != j implies ints[i] != ints[j] by {
            assert(s[i] != s[j]);
        }
    }
    ints.unique_seq_to_set();
    let full = vstd::set_lib::set_int_range(0, n);
    vstd::set_lib::lemma_int_range(0, n);
    assert(ints.to_set().subset_of(full)) by {
        assert forall|x: int| ints.to_set().contains(x) implies full.contains(x) by {
            let i = choose|i: int| 0 <= i < ints.len() && ints[i] == x;
            assert(ints[i] == s[i] as int);
        }
    }
    vstd::set_lib::lemma_subset_equality(ints.to_set(), full);
    assert forall|x: usize| 0 <= x < names.len() implies s.contains(x) by {
        assert(full.contains(x as int));
        assert(ints.to_set().contains(x as int));
        let i = choose|i: int| 0 <= i < ints.len() && ints[i] == x as int;
        assert(s[i] == x);
    }
}

/// The two sequences agree up to a place.
proof fn lemma_same_place(names: Seq<Seq<char>>, a: Seq<usize>, b: Seq<usize>, i: int)
    requires
        is_name_order(names, a),
        is_name_order(names, b),
        a.no_duplicates(),
        b.no_duplicates(),
        forall|x: usize| 0 <= x < names.len() ==> a.contains(x),
        forall|x: usize| 0 <= x < names.len() ==> b.contains(x),
        0 <= i < a.len(),
    ensures
        a[i] == b[i],
        forall|k: int| 0 <= k <= i ==> a[k] == b[k],
    decreases i,
{
    if i > 0 {
        lemma_same_place(names, a, b, i - 1);
    }
    if a[i] != b[i] {
        assert(b.contains(a[i]));
        let j = choose|j: int| 0 <= j < b.len() && b[j] == a[i];
        assert(a.contains(b[i]));
        let k = choose|k: int| 0 <= k < a.len() && a[k] == b[i];
        assert(j > i) by {
            if j < i {
                assert(a[j] == b[j]);
                assert(a[j] == a[i]);
            }
        }
        assert(k > i) by {
            if k < i {
                assert(a[k] == b[k]);
                assert(b[k] == b[i]);
            }
        }
        assert(precedes(names, b[i] as int, b[j] as int));
        assert(precedes(names, a[i] as int, a[k] as int));
        lemma_precedes(names, a[i] as int, b[i] as int);
    }
}

/// In the order of names no name stands before a smaller one, and the same names keep the
/// order that they had.
pub proof fn lemma_name_order(names: Seq<Seq<char>>, order: Seq<usize>, i: int, j: int)
    requires
        is_name_order(names, order),
        0 <= i < j < order.len(),
    ensures
        !name_before(names[order[j] as int], names[order[i] as int]),
        names[order[i] as int] == names[order[j] as int] ==> order[i] < order[j],
{
    let (a, b) = (order[i] as int, order[j] as int);
    assert(precedes(names, a, b));
    lemma_names_total(names[a], names[b]);
    lemma_names_total(names[b], names[a]);
}

} // verus!
