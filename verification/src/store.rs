//! An entry store: a list of entries in the order they were loaded, and a
//! selection cursor over the entries that are shown.

use crate::bookmarks::Bookmark;
use crate::filter::{
    filter_entries, lemma_visible_at_positions, shown_positions, visible, Entry,
};
use crate::launcher::LaunchableApp;
use crate::selection::{
    in_range, next_of, previous_of, resolve, resolved, select_next, select_previous,
};
use vstd::prelude::*;

verus! {

/// A list of entries with a selection cursor. The entries are set when the
/// store is made and are only ever replaced as a whole; the cursor counts
/// shown entries.
pub struct EntryStore<T> {
    items: Vec<T>,
    selected: Option<usize>,
}

/// The store of bookmarks.
pub type BookmarkList = EntryStore<Bookmark>;

/// The store of applications.
pub type AppList = EntryStore<LaunchableApp>;

/// The entry that the cursor points at among the entries of `items` shown for
/// `query`, if it points at one.
pub open spec fn chosen<T: Entry>(items: Seq<T>, selected: Option<usize>, query: Seq<char>)
    -> Option<T> {
    match selected {
        Some(i) => if i < visible(items, query).len() {
            Some(visible(items, query)[i as int])
        } else {
            None
        },
        None => None,
    }
}

impl<T: Entry> EntryStore<T> {
    /// The entries, in the order they were loaded.
    pub closed spec fn items(&self) -> Seq<T> {
        self.items@
    }

    /// The cursor as it is stored. It may point past the shown entries.
    pub closed spec fn cursor(&self) -> Option<usize> {
        self.selected
    }

    /// How many entries are shown for `query`.
    pub open spec fn count(&self, query: Seq<char>) -> usize {
        visible(self.items(), query).len() as usize
    }

    /// A store of `items` with nothing selected.
    pub fn new(items: Vec<T>) -> (r: Self)
        ensures
            r.items() == items@,
            r.cursor() is None,
    {
        EntryStore { items, selected: None }
    }

    /// The cursor as it is stored. It may point past the shown entries:
    /// `selected_index` checks it.
    pub fn selected(&self) -> (r: Option<usize>)
        ensures
            r == self.cursor(),
    {
        self.selected
    }

    /// Puts the cursor at `index`, or removes it.
    pub fn select(&mut self, index: Option<usize>)
        ensures
            final(self).items() == old(self).items(),
            final(self).cursor() == index,
    {
        self.selected = index;
    }

    /// Replaces the entries as a whole, as after a new import. Nothing is
    /// selected afterwards.
    pub fn replace(&mut self, items: Vec<T>)
        ensures
            final(self).items() == items@,
            final(self).cursor() is None,
    {
        self.items = items;
        self.selected = None;
    }

    /// How many entries the store holds.
    pub fn len(&self) -> (r: usize)
        ensures
            r == self.items().len(),
    {
        self.items.len()
    }

    /// The entries shown for `query`, in the order of the store.
    pub fn search(&self, query: &str) -> (r: Vec<T>)
        ensures
            r@ == visible(self.items(), query@),
            query@.len() == 0 ==> r@.len() == 0,
    {
        filter_entries(&self.items, query)
    }

    /// How many entries are shown for `query`.
    pub fn shown_count(&self, query: &str) -> (r: usize)
        ensures
            r == visible(self.items(), query@).len(),
            r == self.count(query@),
    {
        let at = shown_positions(&self.items, query);
        proof {
            lemma_visible_at_positions(self.items@, query@);
        }
        at.len()
    }

    /// The cursor as it is read for `query`: absent unless it points at a
    /// shown entry.
    pub fn selected_index(&self, query: &str) -> (r: Option<usize>)
        ensures
            r == resolved(self.cursor(), self.count(query@)),
            r matches Some(i) ==> i < visible(self.items(), query@).len(),
    {
        resolve(self.selected, self.shown_count(query))
    }

    /// The entry that the cursor points at among those shown for `query`.
    /// A cursor out of range selects nothing.
    pub fn selected_entry(&self, query: &str) -> (r: Option<T>)
        ensures
            r == chosen(self.items(), self.cursor(), query@),
    {
        let at = shown_positions(&self.items, query);
        proof {
            lemma_visible_at_positions(self.items@, query@);
        }
        match self.selected {
            Some(i) => if i < at.len() {
                let p = at[i];
                assert(at@.map_values(|p: usize| p as int)[i as int] == p as int);
                Some(self.items[p].duplicate())
            } else {
                None
            },
            None => None,
        }
    }

    /// Moves the cursor one shown entry further, from the last to the first.
    pub fn select_next(&mut self, query: &str)
        ensures
            final(self).items() == old(self).items(),
            final(self).cursor() == next_of(old(self).cursor(), old(self).count(query@)),
            in_range(final(self).cursor(), final(self).count(query@)),
    {
        let count = self.shown_count(query);
        self.selected = select_next(self.selected, count);
    }

    /// Moves the cursor one shown entry back, from the first to the last.
    pub fn select_previous(&mut self, query: &str)
        ensures
            final(self).items() == old(self).items(),
            final(self).cursor() == previous_of(old(self).cursor(), old(self).count(query@)),
            in_range(final(self).cursor(), final(self).count(query@)),
    {
        let count = self.shown_count(query);
        self.selected = select_previous(self.selected, count);
    }
}

} // verus!
