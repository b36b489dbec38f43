//! Bounded histories, newest value first.

use vstd::prelude::*;

verus! {

/// A history with a value added at its front; what would make it longer than `limit` falls off
/// at its end.
pub open spec fn recorded<T>(items: Seq<T>, value: T, limit: nat) -> Seq<T> {
    let all = seq![value] + items;
    if all.len() > limit {
        all.take(limit as int)
    } else {
        all
    }
}

/// The largest value of a history, or nothing of an empty one.
pub open spec fn largest(items: Seq<u64>) -> u64
    decreases items.len(),
{
    if items.len() == 0 {
        0
    } else if items.last() > largest(items.drop_last()) {
        items.last()
    } else {
        largest(items.drop_last())
    }
}

/// The sum of a history.
pub open spec fn total(items: Seq<u64>) -> nat
    decreases items.len(),
{
    if items.len() == 0 {
        0
    } else {
        total(items.drop_last()) + items.last() as nat
    }
}

/// Adds a value at the front of a history.
pub fn record<T>(items: &mut Vec<T>, value: T, limit: usize)
    ensures
        final(items)@ == recorded(old(items)@, value, limit as nat),
{
    items.insert(0, value);
    assert(items@ =~= seq![value] + old(items)@);
    items.truncate(limit);
    assert(items@ =~= recorded(old(items)@, value, limit as nat));
}

/// The largest value of a history, or nothing of an empty one.
pub fn find_largest(items: &Vec<u64>) -> (max: u64)
    ensures
        max == largest(items@),
{
    let mut max: u64 = 0;
    let mut i: usize = 0;
    while i < items.len()
        invariant
            i <= items@.len(),
            max == largest(items@.take(i as int)),
        decreases items@.len() - i,
    {
        assert(items@.take(i + 1).drop_last() =~= items@.take(i as int));
        if items[i] > max {
            max = items[i];
        }
        i = i + 1;
    }
    assert(items@.take(i as int) =~= items@);
    max
}

/// The sum of a history.
pub fn sum(items: &Vec<u64>) -> (sum: u64)
    requires
        total(items@) <= u64::MAX,
    ensures
        sum == total(items@),
{
    let mut sum: u64 = 0;
    let mut i: usize = 0;
    assert(items@.take(0).len() == 0);
    while i < items.len()
        invariant
            i <= items@.len(),
            sum == total(items@.take(i as int)),
            total(items@) <= u64::MAX,
        decreases items@.len() - i,
    {
        proof {
            assert(items@.take(i + 1).drop_last() =~= items@.take(i as int));
            lemma_total_grows(items@, i + 1);
        }
        sum = sum + items[i];
        i = i + 1;
    }
    assert(items@.take(i as int) =~= items@);
    sum
}

/// Further values make a sum no smaller.
proof fn lemma_total_grows(items: Seq<u64>, len: int)
    requires
        0 <= len <= items.len(),
    ensures
        total(items.take(len)) <= total(items),
    decreases items.len(),
{
    if len < items.len() {
        lemma_total_grows(items.drop_last(), len);
        assert(items.drop_last().take(len) =~= items.take(len));
    } else {
        assert(items.take(len) =~= items);
    }
}

/// A history never grows past its limit.
pub proof fn law_history_is_bounded<T>(items: Seq<T>, value: T, limit: nat)
    ensures
        recorded(items, value, limit).len() <= limit,
{
}

/// The newest value comes first, the others follow in their order, and only the oldest one falls
/// off, once the history is at its limit.
pub proof fn law_newest_first<T>(items: Seq<T>, value: T, limit: nat)
    requires
        0 < limit,
        items.len() <= limit,
    ensures
        recorded(items, value, limit)[0] == value,
        forall|i: int|
            1 <= i < recorded(items, value, limit).len() ==> #[trigger] recorded(
                items,
                value,
                limit,
            )[i] == items[i - 1],
        items.len() < limit ==> recorded(items, value, limit).len() == items.len() + 1,
        items.len() == limit ==> recorded(items, value, limit).len() == limit,
{
}

/// The largest value bounds every value of a history, and is one of them unless there is none.
pub proof fn law_largest_is_a_bound(items: Seq<u64>)
    ensures
        forall|i: int| 0 <= i < items.len() ==> #[trigger] items[i] <= largest(items),
        items.len() > 0 ==> items.contains(largest(items)),
    decreases items.len(),
{
    if items.len() > 0 {
        let before = items.drop_last();
        law_largest_is_a_bound(before);
        assert forall|i: int| 0 <= i < items.len() implies #[trigger] items[i]
            <= largest(items) by {
            if i < before.len() {
                assert(items[i] == before[i]);
            }
        }
        if items.last() > largest(before) {
            assert(items[items.len() - 1] == largest(items));
        } else if before.len() > 0 {
            let i = choose|i: int| 0 <= i < before.len() && before[i] == largest(before);
            assert(items[i] == largest(items));
        } else {
            assert(items[0] == largest(items));
        }
    }
}

/// The mean of a history is at most its largest value: the sum is at most that value for each.
pub proof fn law_sum_is_bounded_by_the_largest(items: Seq<u64>)
    ensures
        total(items) <= items.len() * largest(items),
    decreases items.len(),
{
    if items.len() > 0 {
        let before = items.drop_last();
        law_sum_is_bounded_by_the_largest(before);
        assert(before.len() * largest(before) <= before.len() * largest(items)) by (nonlinear_arith)
            requires
                largest(before) <= largest(items),
        ;
        assert(items.len() * largest(items) == before.len() * largest(items) + largest(items))
            by (nonlinear_arith)
            requires
                items.len() == before.len() + 1,
        ;
    }
}

/// Whatever its length was, a history with one more value begins with that value, the others
/// follow in their order, and it is longer by one as far as the limit allows.
pub proof fn law_recorded_history_begins_with_the_value<T>(items: Seq<T>, value: T, limit: nat)
    requires
        0 < limit,
    ensures
        recorded(items, value, limit).len() == if items.len() < limit {
            items.len() + 1
        } else {
            limit
        },
        recorded(items, value, limit)[0] == value,
        forall|i: int|
            0 < i < recorded(items, value, limit).len() ==> #[trigger] recorded(
                items,
                value,
                limit,
            )[i] == items[i - 1],
{
}

/// Sums add up: the sum of one value is that value, and that of two histories in a row is the sum
/// of their sums.
pub proof fn law_sums_add_up(first: Seq<u64>, second: Seq<u64>, value: u64)
    ensures
        total(Seq::empty()) == 0,
        total(seq![value]) == value,
        total(first + second) == total(first) + total(second),
    decreases second.len(),
{
    reveal_with_fuel(total, 2);
    assert(seq![value].drop_last() =~= Seq::<u64>::empty());
    if second.len() == 0 {
        assert(first + second =~= first);
    } else {
        law_sums_add_up(first, second.drop_last(), value);
        assert((first + second).drop_last() =~= first + second.drop_last());
        assert((first + second).last() == second.last());
    }
}

} // verus!
