//! Orders used to sort the lists the services return: lexicographic order of text, a
//! three-way result, and a sort that keeps every item and leaves them in order.
use vstd::prelude::*;
use crate::text::chars_of;

verus! {

/// The result of comparing two values.
#[derive(Clone, Copy, Debug, PartialEq, Eq, Structural)]
pub enum Order {
    Less,
    Equal,
    Greater,
}

/// `a` then `b`: the first decides unless it is `Equal`.
pub open spec fn then(a: Order, b: Order) -> Order {
    if a == Order::Equal { b } else { a }
}

pub fn then_order(a: Order, b: Order) -> (r: Order)
    ensures
        r == then(a, b),
{
    if a == Order::Equal { b } else { a }
}

/// The order with its two sides swapped.
pub open spec fn reverse(a: Order) -> Order {
    match a {
        Order::Less => Order::Greater,
        Order::Equal => Order::Equal,
        Order::Greater => Order::Less,
    }
}

/// Order of two integers.
pub open spec fn int_order(a: int, b: int) -> Order {
    if a < b { Order::Less } else if a == b { Order::Equal } else { Order::Greater }
}

pub fn compare_i64(a: i64, b: i64) -> (r: Order)
    ensures
        r == int_order(a as int, b as int),
{
    if a < b { Order::Less } else if a == b { Order::Equal } else { Order::Greater }
}

/// Lexicographic order of text by character (the order of `str`'s `Ord`, which compares
/// UTF-8 bytes and so orders by code point).
pub open spec fn text_order(a: Seq<char>, b: Seq<char>) -> Order
    decreases a.len(),
{
    if a.len() == 0 {
        if b.len() == 0 { Order::Equal } else { Order::Less }
    } else if b.len() == 0 {
        Order::Greater
    } else if (a[0] as int) < (b[0] as int) {
        Order::Less
    } else if (a[0] as int) > (b[0] as int) {
        Order::Greater
    } else {
        text_order(a.drop_first(), b.drop_first())
    }
}

pub fn compare_text(a: &str, b: &str) -> (r: Order)
    ensures
        r == text_order(a@, b@),
{
    let x = chars_of(a);
    let y = chars_of(b);
    let mut i: usize = 0;
    assert(x@.skip(0) =~= x@);
    assert(y@.skip(0) =~= y@);
    while i < x.len() && i < y.len()
        invariant
            i <= x@.len(),
            i <= y@.len(),
            x@ == a@,
            y@ == b@,
            text_order(a@, b@) == text_order(x@.skip(i as int), y@.skip(i as int)),
        decreases x@.len() - i,
    {
        let c = x[i];
        let d = y[i];
        assert(x@.skip(i as int)[0] == x@[i as int]);
        assert(y@.skip(i as int)[0] == y@[i as int]);
        if c < d {
            return Order::Less;
        }
        if c > d {
            return Order::Greater;
        }
        assert(x@.skip(i as int).drop_first() =~= x@.skip(i + 1));
        assert(y@.skip(i as int).drop_first() =~= y@.skip(i + 1));
        i += 1;
    }
    if i == x.len() && i == y.len() {
        Order::Equal
    } else if i == x.len() {
        Order::Less
    } else {
        Order::Greater
    }
}

/// `a` comes no later than `b` in dictionary order: it is `b` or a prefix of `b`, or at the
/// first position where the two differ its character has the smaller code point.
pub open spec fn lex_no_later(a: Seq<char>, b: Seq<char>) -> bool {
    ||| (a.len() <= b.len() && forall|i: int| 0 <= i < a.len() ==> a[i] == b[i])
    ||| exists|k: int| 0 <= k < a.len() && k < b.len() && (a[k] as int) < (b[k] as int)
        && #[trigger] agree_below(a, b, k)
}

/// `a` and `b` hold the same characters before position `k`.
pub open spec fn agree_below(a: Seq<char>, b: Seq<char>, k: int) -> bool {
    forall|i: int| 0 <= i < k ==> a[i] == b[i]
}

/// `text_order` is dictionary order: `a` is not after `b` exactly when `a` comes no later
/// than `b` character by character.
pub proof fn lemma_text_order_is_lexicographic(a: Seq<char>, b: Seq<char>)
    ensures
        (text_order(a, b) != Order::Greater) == lex_no_later(a, b),
    decreases a.len(),
{
    if a.len() == 0 {
    } else if b.len() == 0 {
        if lex_no_later(a, b) {
            let k = choose|k: int| 0 <= k < a.len() && k < b.len() && (a[k] as int) < (b[k] as int)
                && #[trigger] agree_below(a, b, k);
        }
    } else if (a[0] as int) < (b[0] as int) {
        assert(agree_below(a, b, 0));
    } else if (a[0] as int) > (b[0] as int) {
        if lex_no_later(a, b) {
            if a.len() <= b.len() && forall|i: int| 0 <= i < a.len() ==> a[i] == b[i] {
                assert(a[0] == b[0]);
            } else {
                let k = choose|k: int| 0 <= k < a.len() && k < b.len() && (a[k] as int) < (b[k] as int)
                    && #[trigger] agree_below(a, b, k);
                if k > 0 {
                    assert(a[0] == b[0]);
                }
            }
        }
    } else {
        let a1 = a.drop_first();
        let b1 = b.drop_first();
        lemma_text_order_is_lexicographic(a1, b1);
        assert(a[0] == b[0]);
        if lex_no_later(a, b) {
            if a.len() <= b.len() && forall|i: int| 0 <= i < a.len() ==> a[i] == b[i] {
                assert forall|i: int| 0 <= i < a1.len() implies a1[i] == b1[i] by {
                    assert(a[i + 1] == b[i + 1]);
                }
            } else {
                let k = choose|k: int| 0 <= k < a.len() && k < b.len() && (a[k] as int) < (b[k] as int)
                    && #[trigger] agree_below(a, b, k);
                assert(k > 0);
                assert forall|i: int| 0 <= i < k - 1 implies a1[i] == b1[i] by {
                    assert(a[i + 1] == b[i + 1]);
                }
                assert(agree_below(a1, b1, k - 1));
            }
            assert(lex_no_later(a1, b1));
        }
        if lex_no_later(a1, b1) {
            if a1.len() <= b1.len() && forall|i: int| 0 <= i < a1.len() ==> a1[i] == b1[i] {
                assert forall|i: int| 0 <= i < a.len() implies a[i] == b[i] by {
                    if i > 0 {
                        assert(a1[i - 1] == b1[i - 1]);
                    }
                }
            } else {
                let k = choose|k: int| 0 <= k < a1.len() && k < b1.len() && (a1[k] as int) < (b1[k] as int)
                    && #[trigger] agree_below(a1, b1, k);
                assert forall|i: int| 0 <= i < k + 1 implies a[i] == b[i] by {
                    if i > 0 {
                        assert(a1[i - 1] == b1[i - 1]);
                    }
                }
                assert(agree_below(a, b, k + 1));
            }
            assert(lex_no_later(a, b));
        }
    }
}

pub proof fn lemma_text_order_antisymmetric(a: Seq<char>, b: Seq<char>)
    ensures
        text_order(b, a) == reverse(text_order(a, b)),
        text_order(a, b) == Order::Equal <==> a == b,
    decreases a.len(),
{
    if a.len() == 0 && b.len() == 0 {
        assert(a =~= b);
    }
    if a.len() > 0 && b.len() > 0 && a[0] == b[0] {
        lemma_text_order_antisymmetric(a.drop_first(), b.drop_first());
        if a.drop_first() == b.drop_first() {
            assert(a =~= seq![a[0]] + a.drop_first());
            assert(b =~= seq![b[0]] + b.drop_first());
        }
    } else if a.len() > 0 && b.len() > 0 {
        assert((a[0] as int) != (b[0] as int));
    }
}

pub proof fn lemma_text_order_transitive(a: Seq<char>, b: Seq<char>, c: Seq<char>)
    requires
        text_order(a, b) != Order::Greater,
        text_order(b, c) != Order::Greater,
    ensures
        text_order(a, c) != Order::Greater,
    decreases a.len(),
{
    if a.len() > 0 && b.len() > 0 && c.len() > 0 {
        assert((a[0] as int) <= (b[0] as int));
        assert((b[0] as int) <= (c[0] as int));
        if a[0] == b[0] && b[0] == c[0] {
            lemma_text_order_transitive(a.drop_first(), b.drop_first(), c.drop_first());
        }
    }
}

/// A total preorder on the values of `T`: every two values are related one way or the
/// other, and the relation is transitive.
pub trait OrderOn<T>: Sized {
    spec fn precedes(a: T, b: T) -> bool;

    proof fn lemma_total(a: T, b: T)
        ensures
            Self::precedes(a, b) || Self::precedes(b, a);

    proof fn lemma_transitive(a: T, b: T, c: T)
        requires
            Self::precedes(a, b),
            Self::precedes(b, c),
        ensures
            Self::precedes(a, c);

    fn precedes_exec(a: &T, b: &T) -> (r: bool)
        ensures
            r == Self::precedes(*a, *b);
}

/// Every item precedes every later item.
pub open spec fn sorted_by<T, O: OrderOn<T>>(s: Seq<T>) -> bool {
    forall|i: int, j: int| 0 <= i < j < s.len() ==> O::precedes(#[trigger] s[i], #[trigger] s[j])
}

/// The items of `v` in the order `O` (stable: items that precede each other both ways keep
/// their relative positions).
pub fn sort_by_order<T, O: OrderOn<T>>(v: Vec<T>) -> (r: Vec<T>)
    ensures
        r@.to_multiset() == v@.to_multiset(),
        sorted_by::<T, O>(r@),
{
    broadcast use vstd::seq_lib::group_to_multiset_ensures;
    let mut input = v;
    let ghost initial = input@;
    let mut out: Vec<T> = Vec::new();
    while input.len() > 0
        invariant
            initial.to_multiset() == out@.to_multiset().add(input@.to_multiset()),
            sorted_by::<T, O>(out@),
        decreases input@.len(),
    {
        let ghost before = input@;
        let x = input.remove(0);
        proof {
            vstd::seq_lib::to_multiset_remove(before, 0);
            broadcast use vstd::multiset::group_multiset_axioms;
            assert(before[0] == x);
            assert(before.contains(x));
            vstd::seq_lib::to_multiset_contains(before, x);
            assert(before.to_multiset().count(x) > 0);
            assert(before.to_multiset() =~= input@.to_multiset().insert(x));
        }
        let mut p: usize = 0;
        while p < out.len() && O::precedes_exec(&out[p], &x)
            invariant
                p <= out@.len(),
                forall|k: int| 0 <= k < p ==> O::precedes(#[trigger] out@[k], x),
            decreases out@.len() - p,
        {
            p += 1;
        }
        let ghost old_out = out@;
        proof {
            if p < out@.len() {
                O::lemma_total(out@[p as int], x);
            }
        }
        out.insert(p, x);
        proof {
            vstd::seq_lib::to_multiset_insert(old_out, p as int, x);
            broadcast use vstd::multiset::group_multiset_axioms;
            assert(out@.to_multiset().add(input@.to_multiset()) =~= old_out.to_multiset().add(before.to_multiset()));
            assert forall|i: int, j: int| 0 <= i < j < out@.len() implies O::precedes(#[trigger] out@[i], #[trigger] out@[j]) by {
                if j == p {
                } else if i == p {
                    if j - 1 > p {
                        assert(O::precedes(old_out[p as int], old_out[j - 1]));
                        O::lemma_transitive(x, old_out[p as int], old_out[j - 1]);
                    }
                } else {
                    let ii = if i < p { i } else { i - 1 };
                    let jj = if j < p { j } else { j - 1 };
                    assert(O::precedes(old_out[ii], old_out[jj]));
                }
            }
        }
    }
    out
}

} // verus!

verus! {

/// The three orders among `x, y, z` (`xy` of `x` to `y`, and so on) fit together as those
/// of a total preorder: equal to equal is equal, not-after to not-after is not-after, and
/// strictly before on either step is strictly before.
pub open spec fn consistent(xy: Order, yz: Order, xz: Order) -> bool {
    &&& (xy == Order::Equal && yz == Order::Equal ==> xz == Order::Equal)
    &&& (xy != Order::Greater && yz != Order::Greater ==> xz != Order::Greater)
    &&& ((xy == Order::Less && yz != Order::Greater) || (xy != Order::Greater && yz == Order::Less) ==> xz == Order::Less)
}

pub proof fn lemma_then_consistent(a_xy: Order, a_yz: Order, a_xz: Order, b_xy: Order, b_yz: Order, b_xz: Order)
    requires
        consistent(a_xy, a_yz, a_xz),
        consistent(b_xy, b_yz, b_xz),
    ensures
        consistent(then(a_xy, b_xy), then(a_yz, b_yz), then(a_xz, b_xz)),
{
}

pub proof fn lemma_then_reverse(a: Order, b: Order)
    ensures
        reverse(then(a, b)) == then(reverse(a), reverse(b)),
{
}

pub proof fn lemma_int_order(x: int, y: int, z: int)
    ensures
        consistent(int_order(x, y), int_order(y, z), int_order(x, z)),
        int_order(y, x) == reverse(int_order(x, y)),
{
}

pub proof fn lemma_text_order(x: Seq<char>, y: Seq<char>, z: Seq<char>)
    ensures
        consistent(text_order(x, y), text_order(y, z), text_order(x, z)),
        text_order(y, x) == reverse(text_order(x, y)),
{
    lemma_text_order_antisymmetric(x, y);
    lemma_text_order_antisymmetric(y, z);
    lemma_text_order_antisymmetric(x, z);
    if text_order(x, y) != Order::Greater && text_order(y, z) != Order::Greater {
        lemma_text_order_transitive(x, y, z);
    }
}

/// Order of optional text: any text before none, texts by `text_order`.
pub open spec fn opt_text_order(a: Option<Seq<char>>, b: Option<Seq<char>>) -> Order {
    match (a, b) {
        (Some(x), Some(y)) => text_order(x, y),
        (Some(_), None) => Order::Less,
        (None, Some(_)) => Order::Greater,
        (None, None) => Order::Equal,
    }
}

pub proof fn lemma_opt_text_order(x: Option<Seq<char>>, y: Option<Seq<char>>, z: Option<Seq<char>>)
    ensures
        consistent(opt_text_order(x, y), opt_text_order(y, z), opt_text_order(x, z)),
        opt_text_order(y, x) == reverse(opt_text_order(x, y)),
{
    match (x, y, z) {
        (Some(a), Some(b), Some(c)) => lemma_text_order(a, b, c),
        (Some(a), Some(b), None) => lemma_text_order(a, b, b),
        (None, Some(b), Some(c)) => lemma_text_order(b, c, c),
        (Some(a), None, Some(c)) => lemma_text_order(a, c, c),
        _ => {},
    }
}

/// Order of optional text as the services compare optional times.
pub fn compare_optional_time(a: &Option<String>, b: &Option<String>) -> (r: Order)
    ensures
        r == opt_text_order(crate::text::opt_text(*a), crate::text::opt_text(*b)),
{
    match (a, b) {
        (Some(x), Some(y)) => compare_text(x.as_str(), y.as_str()),
        (Some(_), None) => Order::Less,
        (None, Some(_)) => Order::Greater,
        (None, None) => Order::Equal,
    }
}

} // verus!

verus! {

/// Order of optional text as `Option`'s `Ord` has it: none before any text.
pub open spec fn none_first_text_order(a: Option<Seq<char>>, b: Option<Seq<char>>) -> Order {
    match (a, b) {
        (Some(x), Some(y)) => text_order(x, y),
        (Some(_), None) => Order::Greater,
        (None, Some(_)) => Order::Less,
        (None, None) => Order::Equal,
    }
}

pub proof fn lemma_none_first_text_order(x: Option<Seq<char>>, y: Option<Seq<char>>, z: Option<Seq<char>>)
    ensures
        consistent(none_first_text_order(x, y), none_first_text_order(y, z), none_first_text_order(x, z)),
        none_first_text_order(y, x) == reverse(none_first_text_order(x, y)),
{
    match (x, y, z) {
        (Some(a), Some(b), Some(c)) => lemma_text_order(a, b, c),
        (Some(a), Some(b), None) => lemma_text_order(a, b, b),
        (None, Some(b), Some(c)) => lemma_text_order(b, c, c),
        (Some(a), None, Some(c)) => lemma_text_order(a, c, c),
        _ => {},
    }
}

pub fn compare_none_first_text(a: &Option<String>, b: &Option<String>) -> (r: Order)
    ensures
        r == none_first_text_order(crate::text::opt_text(*a), crate::text::opt_text(*b)),
{
    match (a, b) {
        (Some(x), Some(y)) => compare_text(x.as_str(), y.as_str()),
        (Some(_), None) => Order::Greater,
        (None, Some(_)) => Order::Less,
        (None, None) => Order::Equal,
    }
}

/// Order of optional instants (seconds, nanoseconds): none first, then by time.
pub open spec fn instant_order(a: Option<(int, int)>, b: Option<(int, int)>) -> Order {
    match (a, b) {
        (Some(x), Some(y)) => then(int_order(x.0, y.0), int_order(x.1, y.1)),
        (Some(_), None) => Order::Greater,
        (None, Some(_)) => Order::Less,
        (None, None) => Order::Equal,
    }
}

pub proof fn lemma_instant_order(x: Option<(int, int)>, y: Option<(int, int)>, z: Option<(int, int)>)
    ensures
        consistent(instant_order(x, y), instant_order(y, z), instant_order(x, z)),
        instant_order(y, x) == reverse(instant_order(x, y)),
{
    match (x, y, z) {
        (Some(a), Some(b), Some(c)) => {
            lemma_int_order(a.0, b.0, c.0);
            lemma_int_order(a.1, b.1, c.1);
            lemma_then_consistent(int_order(a.0, b.0), int_order(b.0, c.0), int_order(a.0, c.0),
                int_order(a.1, b.1), int_order(b.1, c.1), int_order(a.1, c.1));
            lemma_then_reverse(int_order(a.0, b.0), int_order(a.1, b.1));
        },
        (Some(a), Some(b), None) => {
            lemma_int_order(a.0, b.0, b.0);
            lemma_int_order(a.1, b.1, b.1);
            lemma_then_reverse(int_order(a.0, b.0), int_order(a.1, b.1));
        },
        (None, Some(b), Some(c)) => {
            lemma_int_order(b.0, c.0, c.0);
            lemma_int_order(b.1, c.1, c.1);
            lemma_then_reverse(int_order(b.0, c.0), int_order(b.1, c.1));
        },
        (Some(a), None, Some(c)) => {
            lemma_int_order(a.0, c.0, c.0);
            lemma_int_order(a.1, c.1, c.1);
            lemma_then_reverse(int_order(a.0, c.0), int_order(a.1, c.1));
        },
        _ => {},
    }
}

/// The order of two stored RFC 3339 timestamps by the instants they denote (unreadable
/// ones first).
pub fn compare_timestamps(a: Option<&str>, b: Option<&str>) -> (r: Order)
    ensures
        r == instant_order(
            match a { Some(t) => crate::time::parsed_rfc3339(t@), None => None },
            match b { Some(t) => crate::time::parsed_rfc3339(t@), None => None }),
{
    let x = match a {
        Some(t) => crate::time::parse_rfc3339(t),
        None => None,
    };
    let y = match b {
        Some(t) => crate::time::parse_rfc3339(t),
        None => None,
    };
    match (x, y) {
        (Some(p), Some(q)) => then_order(compare_i64(p.seconds(), q.seconds()), compare_i64(p.nanos() as i64, q.nanos() as i64)),
        (Some(_), None) => Order::Greater,
        (None, Some(_)) => Order::Less,
        (None, None) => Order::Equal,
    }
}

} // verus!
