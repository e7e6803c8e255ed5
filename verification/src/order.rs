//! Putting records in order for a table: by name, or by index.

use crate::models::{SchedulesV2, ZonesV2};
use crate::text::chars_of;
use vstd::prelude::*;

verus! {

/// Things that can be put in order. The order is total and transitive; two
/// things may stand alike.
pub trait Ranked: Sized {
    /// `self` stands before `other`, or the two stand alike.
    spec fn not_after(self, other: Self) -> bool;

    /// Whether `self` stands before `other`, or the two stand alike.
    fn is_not_after(&self, other: &Self) -> (r: bool)
        ensures
            r == self.not_after(*other),
    ;

    /// Of two things, one stands before the other, or they stand alike.
    proof fn lemma_total(a: Self, b: Self)
        ensures
            a.not_after(b) || b.not_after(a),
    ;

    /// What stands before a thing stands before all that this thing stands before.
    proof fn lemma_transitive(a: Self, b: Self, c: Self)
        requires
            a.not_after(b),
            b.not_after(c),
        ensures
            a.not_after(c),
    ;
}

/// `order` lists the positions of the first `count` items, each once, so
/// that the items stand in order; items that stand alike keep the order in
/// which they came.
pub open spec fn orders<T: Ranked>(order: Seq<usize>, items: Seq<T>, count: int) -> bool {
    &&& 0 <= count <= items.len()
    &&& order.len() == count
    &&& forall|i: int| 0 <= i < order.len() ==> #[trigger] order[i] < count
    &&& forall|i: int, j: int| 0 <= i < j < order.len() ==> order[i] != order[j]
    &&& forall|i: int, j: int|
        0 <= i < j < order.len() ==> items[order[i] as int].not_after(items[order[j] as int])
    &&& forall|i: int, j: int|
        0 <= i < j < order.len() && items[order[j] as int].not_after(items[order[i] as int])
            ==> order[i] < order[j]
}

/// The positions of the items in the order in which they are to be shown:
/// every position once, the items in order, and items that stand alike in
/// the order in which they came.
pub fn sorted_order<T: Ranked>(items: &Vec<T>) -> (order: Vec<usize>)
    ensures
        orders(order@, items@, items.len() as int),
{
    let mut order: Vec<usize> = Vec::new();
    let mut k: usize = 0;
    while k < items.len()
        invariant
            k <= items.len(),
            orders(order@, items@, k as int),
        decreases items.len() - k,
    {
        let ghost before = order@;
        let mut p: usize = order.len();
        while p > 0 && !items[order[p - 1]].is_not_after(&items[k])
            invariant
                k < items.len(),
                order@ == before,
                orders(before, items@, k as int),
                p <= order.len(),
                forall|j: int|
                    p <= j < before.len() ==> !items@[#[trigger] before[j] as int].not_after(
                        items@[k as int],
                    ),
            decreases p,
        {
            p -= 1;
        }
        order.insert(p, k);
        proof {
            let after = order@;
            let new = items@[k as int];
            assert(after == before.insert(p as int, k));
            assert forall|i: int| 0 <= i < after.len() implies #[trigger] after[i] < k + 1 by {
                if i < p {
                    assert(after[i] == before[i]);
                } else if i > p {
                    assert(after[i] == before[i - 1]);
                }
            }
            assert forall|i: int, j: int| 0 <= i < j < after.len() implies after[i] != after[j]
                && items@[after[i] as int].not_after(items@[after[j] as int]) && (items@[after[j] as int].not_after(
                items@[after[i] as int],
            ) ==> after[i] < after[j]) by {
                let a = if i < p {
                    i
                } else {
                    i - 1
                };
                let b = if j < p {
                    j
                } else {
                    j - 1
                };
                if i != p {
                    assert(after[i] == before[a]);
                    assert(before[a] < k);
                }
                if j != p {
                    assert(after[j] == before[b]);
                    assert(before[b] < k);
                }
                if j == p {
                    assert(after[j] == k);
                    assert(p > 0);
                    assert(items@[before[p - 1] as int].not_after(new));
                    if i < p - 1 {
                        assert(items@[before[i] as int].not_after(items@[before[p - 1] as int]));
                        T::lemma_transitive(
                            items@[before[i] as int],
                            items@[before[p - 1] as int],
                            new,
                        );
                    }
                } else if i == p {
                    assert(after[i] == k);
                    assert(!items@[before[b] as int].not_after(new));
                    T::lemma_total(new, items@[before[b] as int]);
                } else {
                    assert(a < b);
                }
            }
        }
        k += 1;
    }
    order
}

/// The order of texts by their characters: the first character in which
/// two texts differ decides, and a text stands before its continuations.
pub open spec fn text_not_after(a: Seq<char>, b: Seq<char>) -> bool
    decreases a.len(),
{
    if a.len() == 0 {
        true
    } else if b.len() == 0 {
        false
    } else if a[0] != b[0] {
        a[0] < b[0]
    } else {
        text_not_after(a.drop_first(), b.drop_first())
    }
}

/// Of two texts, one stands before the other, or they are the same.
pub proof fn lemma_text_order_total(a: Seq<char>, b: Seq<char>)
    ensures
        text_not_after(a, b) || text_not_after(b, a),
    decreases a.len(),
{
    if a.len() > 0 && b.len() > 0 && a[0] == b[0] {
        lemma_text_order_total(a.drop_first(), b.drop_first());
    }
}

/// The order of texts is transitive.
pub proof fn lemma_text_order_transitive(a: Seq<char>, b: Seq<char>, c: Seq<char>)
    requires
        text_not_after(a, b),
        text_not_after(b, c),
    ensures
        text_not_after(a, c),
    decreases a.len(),
{
    if a.len() > 0 && b.len() > 0 && c.len() > 0 {
        if a[0] == b[0] && b[0] == c[0] {
            lemma_text_order_transitive(a.drop_first(), b.drop_first(), c.drop_first());
        }
    }
}

/// Whether `a` stands before `b` in the order of texts, or is the same.
pub fn text_is_not_after(a: &str, b: &str) -> (r: bool)
    ensures
        r == text_not_after(a@, b@),
{
    let x = chars_of(a);
    let y = chars_of(b);
    let mut i: usize = 0;
    assert(x@.skip(0) == x@ && y@.skip(0) == y@);
    loop
        invariant
            x@ == a@,
            y@ == b@,
            i <= x.len(),
            i <= y.len(),
            text_not_after(a@, b@) == text_not_after(x@.skip(i as int), y@.skip(i as int)),
        decreases x.len() - i,
    {
        let ghost rest_x = x@.skip(i as int);
        let ghost rest_y = y@.skip(i as int);
        if i == x.len() {
            return true;
        }
        if i == y.len() {
            return false;
        }
        assert(rest_x[0] == x@[i as int] && rest_y[0] == y@[i as int]);
        if x[i] != y[i] {
            return x[i] < y[i];
        }
        assert(rest_x.drop_first() == x@.skip(i + 1));
        assert(rest_y.drop_first() == y@.skip(i + 1));
        i += 1;
    }
}

/// Zones stand in the order of their names.
impl Ranked for ZonesV2 {
    open spec fn not_after(self, other: Self) -> bool {
        text_not_after(self.name@, other.name@)
    }

    fn is_not_after(&self, other: &Self) -> (r: bool) {
        text_is_not_after(self.name.as_str(), other.name.as_str())
    }

    proof fn lemma_total(a: Self, b: Self) {
        lemma_text_order_total(a.name@, b.name@);
    }

    proof fn lemma_transitive(a: Self, b: Self, c: Self) {
        lemma_text_order_transitive(a.name@, b.name@, c.name@);
    }
}

/// Schedules stand in the order of their indices.
impl Ranked for SchedulesV2 {
    open spec fn not_after(self, other: Self) -> bool {
        self.index <= other.index
    }

    fn is_not_after(&self, other: &Self) -> (r: bool) {
        self.index <= other.index
    }

    proof fn lemma_total(a: Self, b: Self) {
    }

    proof fn lemma_transitive(a: Self, b: Self, c: Self) {
    }
}

} // verus!
