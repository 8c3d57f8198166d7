//! The filter engine: which entries of a list are shown for a query.
//!
//! An entry is shown when the query is not empty and the upper-case form of
//! the query is a contiguous part of the upper-case form of the entry's name.
//! An empty query therefore shows nothing. The shown entries keep the order
//! they have in the list.

use crate::text::{chars_of, contains_chars, is_infix, uppercase};
use vstd::prelude::*;

verus! {

/// Something with a name that a list can be searched by.
pub trait Entry: Sized {
    /// The name, as a sequence of characters.
    spec fn name_view(&self) -> Seq<char>;

    /// The name.
    fn name(&self) -> (r: &str)
        ensures
            r@ == self.name_view(),
    ;

    /// A copy equal to the entry.
    fn duplicate(&self) -> (r: Self)
        ensures
            r == *self,
    ;
}

/// Whether an entry called `name` is shown for `query`.
pub open spec fn name_matches(name: Seq<char>, query: Seq<char>) -> bool {
    query.len() > 0 && is_infix(uppercase(query), uppercase(name))
}

/// The predicate that `query` puts on entries.
pub open spec fn shown<T: Entry>(query: Seq<char>) -> spec_fn(T) -> bool {
    |entry: T| name_matches(entry.name_view(), query)
}

/// The entries of `items` shown for `query`, in the order of `items`.
pub open spec fn visible<T: Entry>(items: Seq<T>, query: Seq<char>) -> Seq<T> {
    items.filter(shown::<T>(query))
}

/// The indices in `items` of the entries shown for `query`, ascending.
pub open spec fn positions<T: Entry>(items: Seq<T>, query: Seq<char>) -> Seq<int>
    decreases items.len(),
{
    if items.len() == 0 {
        Seq::empty()
    } else {
        let before = positions(items.drop_last(), query);
        if name_matches(items.last().name_view(), query) {
            before.push(items.len() - 1)
        } else {
            before
        }
    }
}

/// How `positions` and `visible` grow when one entry is added at the end.
proof fn lemma_extend<T: Entry>(items: Seq<T>, entry: T, query: Seq<char>)
    ensures
        positions(items.push(entry), query) == if name_matches(entry.name_view(), query) {
            positions(items, query).push(items.len() as int)
        } else {
            positions(items, query)
        },
        visible(items.push(entry), query) == if name_matches(entry.name_view(), query) {
            visible(items, query).push(entry)
        } else {
            visible(items, query)
        },
{
    reveal(Seq::filter);
    assert(items.push(entry).drop_last() =~= items);
}

/// The shown entries are the entries at the shown positions: as many, and the
/// `k`-th shown entry is the entry at the `k`-th position.
pub proof fn lemma_visible_at_positions<T: Entry>(items: Seq<T>, query: Seq<char>)
    ensures
        visible(items, query).len() == positions(items, query).len(),
        forall|k: int|
            0 <= k < positions(items, query).len() ==> {
                &&& 0 <= #[trigger] positions(items, query)[k] < items.len()
                &&& visible(items, query)[k] == items[positions(items, query)[k]]
            },
    decreases items.len(),
{
    reveal(Seq::filter);
    if items.len() > 0 {
        lemma_visible_at_positions(items.drop_last(), query);
    }
}

/// The filter keeps the order of the list: the positions ascend strictly, so
/// of two shown entries the one shown first stands first in the list.
pub proof fn lemma_filter_keeps_order<T: Entry>(items: Seq<T>, query: Seq<char>)
    ensures
        forall|j: int, k: int|
            0 <= j < k < positions(items, query).len() ==> 0 <= #[trigger] positions(
                items,
                query,
            )[j] < #[trigger] positions(items, query)[k] < items.len(),
    decreases items.len(),
{
    if items.len() > 0 {
        lemma_filter_keeps_order(items.drop_last(), query);
        lemma_visible_at_positions(items.drop_last(), query);
    }
}

/// Of two shown entries, the one shown first stands first in the list.
pub proof fn lemma_shown_in_list_order<T: Entry>(items: Seq<T>, query: Seq<char>, j: int, k: int)
    requires
        0 <= j < k < visible(items, query).len(),
    ensures
        exists|a: int, b: int|
            0 <= a < b < items.len() && #[trigger] items[a] == visible(items, query)[j]
                && #[trigger] items[b] == visible(items, query)[k],
{
    lemma_visible_at_positions(items, query);
    lemma_filter_keeps_order(items, query);
    let a = positions(items, query)[j];
    let b = positions(items, query)[k];
    assert(items[a] == visible(items, query)[j] && items[b] == visible(items, query)[k]);
}

/// The filter shows exactly the matching entries: an entry of the list is at
/// one of the shown positions if and only if its name matches the query.
pub proof fn lemma_filter_shows_matches<T: Entry>(items: Seq<T>, query: Seq<char>)
    ensures
        forall|i: int|
            0 <= i < items.len() ==> (name_matches((#[trigger] items[i]).name_view(), query)
                <==> positions(items, query).contains(i)),
        forall|k: int|
            0 <= k < positions(items, query).len() ==> 0 <= #[trigger] positions(items, query)[k]
                < items.len(),
    decreases items.len(),
{
    if items.len() > 0 {
        let front = items.drop_last();
        let last = items.len() - 1;
        lemma_filter_shows_matches(front, query);
        let all = positions(items, query);
        let before = positions(front, query);
        assert forall|i: int| 0 <= i < items.len() implies (name_matches(
            (#[trigger] items[i]).name_view(),
            query,
        ) <==> all.contains(i)) by {
            if i < last {
                assert(front[i] == items[i]);
                if before.contains(i) {
                    let k = choose|k: int| 0 <= k < before.len() && before[k] == i;
                    assert(all[k] == i);
                }
                if all.contains(i) {
                    let k = choose|k: int| 0 <= k < all.len() && all[k] == i;
                    assert(before[k] == i);
                }
            } else {
                if name_matches(items[i].name_view(), query) {
                    assert(all[all.len() - 1] == i);
                }
                if all.contains(i) {
                    let k = choose|k: int| 0 <= k < all.len() && all[k] == i;
                    if k < before.len() {
                        assert(before[k] == i);
                    }
                }
            }
        }
    }
}

/// The empty query shows nothing, whatever the list holds.
pub proof fn lemma_empty_query_shows_nothing<T: Entry>(items: Seq<T>)
    ensures
        positions(items, Seq::<char>::empty()).len() == 0,
        visible(items, Seq::<char>::empty()).len() == 0,
    decreases items.len(),
{
    reveal(Seq::filter);
    if items.len() > 0 {
        lemma_empty_query_shows_nothing(items.drop_last());
    }
}

/// Whether an entry called `name` is shown for `query`.
pub fn matches_query(name: &str, query: &str) -> (r: bool)
    ensures
        r == name_matches(name@, query@),
{
    if query.is_empty() {
        return false;
    }
    let needle = chars_of(query.to_uppercase().as_str());
    let hay = chars_of(name.to_uppercase().as_str());
    contains_chars(&hay, &needle)
}

/// The indices of the entries of `items` shown for `query`, ascending.
pub fn shown_positions<T: Entry>(items: &Vec<T>, query: &str) -> (r: Vec<usize>)
    ensures
        r@.map_values(|p: usize| p as int) == positions(items@, query@),
        query@.len() == 0 ==> r@.len() == 0,
{
    let mut found: Vec<usize> = Vec::new();
    if query.is_empty() {
        proof {
            lemma_empty_query_shows_nothing(items@);
            assert(query@ =~= Seq::<char>::empty());
        }
        return found;
    }
    let needle = chars_of(query.to_uppercase().as_str());
    let mut i: usize = 0;
    while i < items.len()
        invariant
            i <= items@.len(),
            query@.len() > 0,
            needle@ == uppercase(query@),
            found@.map_values(|p: usize| p as int) == positions(items@.take(i as int), query@),
        decreases items@.len() - i,
    {
        let hay = chars_of(items[i].name().to_uppercase().as_str());
        proof {
            lemma_extend(items@.take(i as int), items@[i as int], query@);
            assert(items@.take(i as int).push(items@[i as int]) =~= items@.take(i + 1));
        }
        if contains_chars(&hay, &needle) {
            assert(found@.push(i).map_values(|p: usize| p as int) =~= found@.map_values(
                |p: usize| p as int,
            ).push(i as int));
            found.push(i);
        }
        i += 1;
    }
    assert(items@.take(i as int) =~= items@);
    found
}

/// The entries of `items` shown for `query`, copied, in the order of `items`.
pub fn filter_entries<T: Entry>(items: &Vec<T>, query: &str) -> (r: Vec<T>)
    ensures
        r@ == visible(items@, query@),
        query@.len() == 0 ==> r@.len() == 0,
{
    proof {
        if query@.len() == 0 {
            assert(query@ =~= Seq::<char>::empty());
            lemma_empty_query_shows_nothing(items@);
        }
    }
    let at = shown_positions(items, query);
    let mut out: Vec<T> = Vec::new();
    proof {
        lemma_visible_at_positions(items@, query@);
    }
    let mut k: usize = 0;
    while k < at.len()
        invariant
            k <= at@.len(),
            at@.map_values(|p: usize| p as int) == positions(items@, query@),
            visible(items@, query@).len() == positions(items@, query@).len(),
            forall|j: int|
                0 <= j < positions(items@, query@).len() ==> {
                    &&& 0 <= #[trigger] positions(items@, query@)[j] < items@.len()
                    &&& visible(items@, query@)[j] == items@[positions(items@, query@)[j]]
                },
            out@ == visible(items@, query@).take(k as int),
        decreases at@.len() - k,
    {
        let p = at[k];
        assert(at@.map_values(|p: usize| p as int)[k as int] == p as int);
        out.push(items[p].duplicate());
        assert(out@ =~= visible(items@, query@).take(k + 1));
        k += 1;
    }
    assert(out@ =~= visible(items@, query@));
    out
}

} // verus!
