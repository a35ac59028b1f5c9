//! The most common values of a list, counted by the `counter` crate.

use counter::Counter;
use vstd::prelude::*;

use crate::text::{same_text, texts};

verus! {

/// The counter of the `counter` crate.
#[verifier::external_type_specification]
#[verifier::external_body]
#[verifier::reject_recursive_types(T)]
#[verifier::reject_recursive_types(N)]
pub struct ExCounter<T: std::hash::Hash + Eq, N>(Counter<T, N>);

/// What a counter holds: for each item that it has an entry for, the count
/// that it keeps for the item.
pub uninterp spec fn counts(counter: Counter<usize, usize>) -> Map<usize, usize>;

/// How often `item` occurs among the first `upto` of `items`.
pub open spec fn times(items: Seq<usize>, item: usize, upto: int) -> nat
    decreases upto,
{
    if upto <= 0 || upto > items.len() {
        0
    } else if items[upto - 1] == item {
        times(items, item, upto - 1) + 1
    } else {
        times(items, item, upto - 1)
    }
}

/// Whether the entry `a` comes before the entry `b` where the most common
/// come first: it has the higher count, or the same count and the lower item.
pub open spec fn ranks_before(a: (usize, usize), b: (usize, usize)) -> bool {
    a.1 > b.1 || (a.1 == b.1 && a.0 < b.0)
}

/// Whether `top` lists the `k` first entries of `held` where the most common
/// come first, or all entries where there are no more than `k`.
pub open spec fn is_top(held: Map<usize, usize>, k: int, top: Seq<(usize, usize)>) -> bool {
    &&& top.len() <= k
    &&& forall|i: int|
        0 <= i < top.len() ==> held.contains_key((#[trigger] top[i]).0) && held[top[i].0]
            == top[i].1
    &&& forall|i: int, j: int|
        0 <= i < j < top.len() ==> ranks_before(#[trigger] top[i], #[trigger] top[j])
    &&& forall|item: usize|
        #![trigger held.contains_key(item)]
        held.contains_key(item) && (forall|i: int| 0 <= i < top.len() ==> (#[trigger] top[i]).0
            != item) ==> top.len() == k && forall|i: int|
            0 <= i < top.len() ==> ranks_before(#[trigger] top[i], (item, held[item]))
}

/// Calls `Counter::new` of the `counter` crate, which makes a counter without
/// entries.
#[verifier::external_body]
fn new_counter() -> (made: Counter<usize, usize>)
    ensures
        forall|item: usize| !counts(made).contains_key(item),
{
    Counter::new()
}

/// Calls `Counter::update` of the `counter` crate, which adds one to the
/// count of an item for each time that the item is handed in, and starts the
/// count of an item that has no entry at zero. Counts are kept from running
/// over by the `requires`.
#[verifier::external_body]
fn count_items(counter: &mut Counter<usize, usize>, items: Vec<usize>)
    requires
        forall|item: usize|
            counts(*old(counter)).contains_key(item) ==> counts(*old(counter))[item] + items@.len()
                <= usize::MAX,
    ensures
        forall|item: usize|
            #![trigger counts(*final(counter)).contains_key(item)]
            counts(*final(counter)).contains_key(item) == (counts(*old(counter)).contains_key(item)
                || times(items@, item, items@.len() as int) > 0),
        forall|item: usize|
            #![trigger counts(*final(counter))[item]]
            counts(*final(counter)).contains_key(item) ==> counts(*final(counter))[item] == (if counts(
                *old(counter),
            ).contains_key(item) {
                counts(*old(counter))[item] as int
            } else {
                0
            }) + times(items@, item, items@.len() as int),
{
    counter.update(items)
}

/// Calls `Counter::k_most_common_ordered` of the `counter` crate, which
/// returns the `k` entries with the highest counts, the highest first, and
/// entries of one count in the rising order of their items; or all entries,
/// in that order, where the counter has no more than `k`.
#[verifier::external_body]
fn most_common(counter: &Counter<usize, usize>, k: usize) -> (top: Vec<(usize, usize)>)
    ensures
        is_top(counts(*counter), k as int, top@),
{
    counter.k_most_common_ordered(k)
}

/// How often `value` occurs among the first `upto` of `values`.
pub open spec fn occurrences(values: Seq<Seq<char>>, value: Seq<char>, upto: int) -> nat
    decreases upto,
{
    if upto <= 0 || upto > values.len() {
        0
    } else if values[upto - 1] == value {
        occurrences(values, value, upto - 1) + 1
    } else {
        occurrences(values, value, upto - 1)
    }
}

/// Where `value` first occurs in `values` at or after `from`, or the length of
/// `values` if it does not.
pub open spec fn first_place(values: Seq<Seq<char>>, value: Seq<char>, from: int) -> int
    decreases values.len() - from,
{
    if from < 0 || from >= values.len() {
        values.len() as int
    } else if values[from] == value {
        from
    } else {
        first_place(values, value, from + 1)
    }
}

/// Whether `a` is more common in `values` than `b`: it occurs more often, or
/// as often and first occurs earlier.
pub open spec fn more_common(values: Seq<Seq<char>>, a: Seq<char>, b: Seq<char>) -> bool {
    let all = values.len() as int;
    occurrences(values, a, all) > occurrences(values, b, all) || (occurrences(values, a, all)
        == occurrences(values, b, all) && first_place(values, a, 0) < first_place(values, b, 0))
}

/// Whether `top` lists the `k` most common of the distinct values of `values`,
/// the most common first, or all of them where there are no more than `k`.
pub open spec fn is_most_common(values: Seq<Seq<char>>, k: int, top: Seq<Seq<char>>) -> bool {
    &&& top.len() <= k
    &&& forall|i: int| 0 <= i < top.len() ==> values.contains(#[trigger] top[i])
    &&& forall|i: int, j: int|
        0 <= i < j < top.len() ==> more_common(values, #[trigger] top[i], #[trigger] top[j])
    &&& forall|value: Seq<char>|
        #![trigger values.contains(value)]
        values.contains(value) && !top.contains(value) ==> top.len() == k && forall|i: int|
            0 <= i < top.len() ==> more_common(values, #[trigger] top[i], value)
}

/// Where a value first occurs: within the list, at a place that holds it and
/// that no place holding it comes before; or at the end where none holds it.
pub proof fn lemma_first_place(values: Seq<Seq<char>>, value: Seq<char>, from: int)
    requires
        0 <= from <= values.len(),
    ensures
        from <= first_place(values, value, from) <= values.len(),
        first_place(values, value, from) < values.len() ==> values[first_place(
            values,
            value,
            from,
        )] == value,
        forall|i: int| from <= i < first_place(values, value, from) ==> values[i] != value,
    decreases values.len() - from,
{
    if from < values.len() && values[from] != value {
        lemma_first_place(values, value, from + 1);
    }
}

/// A place that is counted at all is the place of one of the items.
proof fn lemma_counted_place_occurs(places: Seq<usize>, place: usize, upto: int)
    requires
        0 <= upto <= places.len(),
        times(places, place, upto) > 0,
    ensures
        exists|i: int| 0 <= i < upto && places[i] == place,
    decreases upto,
{
    if places[upto - 1] != place {
        lemma_counted_place_occurs(places, place, upto - 1);
    }
}

/// Where each item is counted under the place at which its value first
/// occurs, the count of such a place is the number of times that its value
/// occurs.
proof fn lemma_count_of_first_place(
    values: Seq<Seq<char>>,
    places: Seq<usize>,
    place: usize,
    upto: int,
)
    requires
        places.len() == values.len(),
        forall|i: int|
            0 <= i < values.len() ==> #[trigger] places[i] == first_place(values, values[i], 0),
        0 <= place < values.len(),
        first_place(values, values[place as int], 0) == place,
        0 <= upto <= values.len(),
    ensures
        times(places, place, upto) == occurrences(values, values[place as int], upto),
    decreases upto,
{
    if upto > 0 {
        lemma_count_of_first_place(values, places, place, upto - 1);
        lemma_first_place(values, values[upto - 1], 0);
    }
}

/// Lists the `k` most common of the distinct values of a list, the most common
/// first; of two that are equally common, the one that occurs first in the
/// list comes first.
pub fn most_common_texts(values: &[String], k: usize) -> (top: Vec<String>)
    ensures
        is_most_common(texts(values@), k as int, texts(top@)),
{
    let ghost all = texts(values@);
    // Each value is counted under the place at which it first occurs.
    let mut places: Vec<usize> = Vec::new();
    let mut i: usize = 0;
    while i < values.len()
        invariant
            i <= values.len(),
            all == texts(values@),
            places@.len() == i,
            forall|j: int| 0 <= j < i ==> #[trigger] places@[j] == first_place(all, all[j], 0),
        decreases values.len() - i,
    {
        let mut first: usize = 0;
        while first < i && !same_text(values[first].as_str(), values[i].as_str())
            invariant
                first <= i < values.len(),
                all == texts(values@),
                first_place(all, all[i as int], 0) == first_place(all, all[i as int], first as int),
            decreases i - first,
        {
            first += 1;
        }
        places.push(first);
        i += 1;
    }
    let ghost counted = places@;
    let mut counter = new_counter();
    count_items(&mut counter, places);
    let entries = most_common(&counter, k);
    let ghost held = counts(counter);
    assert forall|n: int| 0 <= n < entries@.len() implies {
        let place = (#[trigger] entries@[n]).0;
        &&& place < values@.len()
        &&& first_place(all, all[place as int], 0) == place
        &&& entries@[n].1 == occurrences(all, all[place as int], all.len() as int)
    } by {
        let place = entries@[n].0;
        lemma_counted_place_occurs(counted, place, counted.len() as int);
        let at = choose|at: int| 0 <= at < counted.len() && counted[at] == place;
        lemma_first_place(all, all[at], 0);
        lemma_count_of_first_place(all, counted, place, all.len() as int);
    }
    let mut top: Vec<String> = Vec::new();
    let mut n: usize = 0;
    while n < entries.len()
        invariant
            n <= entries.len(),
            all == texts(values@),
            top@.len() == n,
            forall|m: int| 0 <= m < entries@.len() ==> (#[trigger] entries@[m]).0 < values@.len(),
            forall|m: int| 0 <= m < n ==> (#[trigger] top@[m])@ == all[entries@[m].0 as int],
        decreases entries.len() - n,
    {
        let place = entries[n].0;
        top.push(values[place].clone());
        n += 1;
    }
    proof {
        let shown = texts(top@);
        assert forall|value: Seq<char>|
            #![trigger all.contains(value)]
            all.contains(value) && !shown.contains(value) implies shown.len() == k && forall|
            a: int,
        |
            0 <= a < shown.len() ==> more_common(all, #[trigger] shown[a], value) by {
            lemma_first_place(all, value, 0);
            let place = first_place(all, value, 0);
            lemma_count_of_first_place(all, counted, place as usize, all.len() as int);
            lemma_times_grows(counted, place as usize, place + 1, counted.len() as int);
            assert(held.contains_key(place as usize));
            assert forall|a: int| 0 <= a < entries@.len() implies (#[trigger] entries@[a]).0
                != place by {
                if entries@[a].0 == place {
                    assert(shown[a] == value);
                }
            }
        }
    }
    top
}

/// An item is counted no less often among more items.
proof fn lemma_times_grows(items: Seq<usize>, item: usize, upto: int, more: int)
    requires
        0 <= upto <= more <= items.len(),
    ensures
        times(items, item, upto) <= times(items, item, more),
    decreases more - upto,
{
    if upto < more {
        lemma_times_grows(items, item, upto, more - 1);
    }
}

/// The list of the most common values is one list and no other: two lists
/// that both meet `is_most_common` for the same values and the same `k` are
/// equal.
pub proof fn lemma_most_common_is_unique(
    values: Seq<Seq<char>>,
    k: int,
    a: Seq<Seq<char>>,
    b: Seq<Seq<char>>,
)
    requires
        is_most_common(values, k, a),
        is_most_common(values, k, b),
    ensures
        a == b,
{
    if a.len() <= b.len() {
        lemma_most_common_agree(values, k, a, b, a.len() as int);
        if a.len() < b.len() {
            lemma_next_is_listed(values, k, b, a, a.len() as int);
        }
    } else {
        lemma_most_common_agree(values, k, a, b, b.len() as int);
        lemma_next_is_listed(values, k, a, b, b.len() as int);
    }
}

/// Two lists of the most common values agree in their first `upto` places.
proof fn lemma_most_common_agree(
    values: Seq<Seq<char>>,
    k: int,
    a: Seq<Seq<char>>,
    b: Seq<Seq<char>>,
    upto: int,
)
    requires
        is_most_common(values, k, a),
        is_most_common(values, k, b),
        0 <= upto <= a.len(),
        upto <= b.len(),
    ensures
        forall|i: int| 0 <= i < upto ==> a[i] == b[i],
    decreases upto,
{
    if upto > 0 {
        lemma_most_common_agree(values, k, a, b, upto - 1);
    }
}

/// Where two lists of the most common values agree before place `i`, and the
/// first has a value at `i`, the second has a value there too, and it is that
/// value or a more common one.
proof fn lemma_next_is_listed(
    values: Seq<Seq<char>>,
    k: int,
    a: Seq<Seq<char>>,
    b: Seq<Seq<char>>,
    i: int,
)
    requires
        is_most_common(values, k, a),
        is_most_common(values, k, b),
        0 <= i < a.len(),
        i <= b.len(),
        forall|j: int| 0 <= j < i ==> a[j] == b[j],
    ensures
        i < b.len(),
        b[i] == a[i] || more_common(values, b[i], a[i]),
{
}

} // verus!
