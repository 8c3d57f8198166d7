//! Bookmarks and the browsers they come from.

pub mod chrome;
pub mod html;

use crate::filter::Entry;
use crate::text::{pad_right, padded};
use vstd::prelude::*;
use vstd::string::StringExecFns;

verus! {

/// A browser whose bookmarks can be imported.
#[derive(Clone, Copy, Debug, PartialEq, Eq, Structural)]
pub enum Browser {
    Chrome,
    Firefox,
}

/// A bookmark: a name to search by and the address it opens.
#[derive(Debug, PartialEq, Eq)]
pub struct Bookmark {
    pub name: String,
    pub url: String,
}

/// A bookmark as mathematics.
pub struct BookmarkEntry {
    pub name: Seq<char>,
    pub url: Seq<char>,
}

impl View for Bookmark {
    type V = BookmarkEntry;

    open spec fn view(&self) -> BookmarkEntry {
        BookmarkEntry { name: self.name@, url: self.url@ }
    }
}

/// The views of a list of bookmarks.
pub open spec fn bookmark_views(bookmarks: Seq<Bookmark>) -> Seq<BookmarkEntry> {
    bookmarks.map_values(|bookmark: Bookmark| bookmark@)
}

impl Bookmark {
    /// A bookmark with the given name and address.
    pub fn new(name: &str, url: &str) -> (r: Bookmark)
        ensures
            r.name@ == name@,
            r.url@ == url@,
    {
        Bookmark { name: name.to_owned(), url: url.to_owned() }
    }
}

/// The line that shows a bookmark in a list: its name, filled up with
/// spaces to `width` characters, then a colon between spaces, then its
/// address.
pub open spec fn list_line(bookmark: BookmarkEntry, width: nat) -> Seq<char> {
    padded(bookmark.name, width) + " : "@ + bookmark.url
}

impl Bookmark {
    /// The line that shows the bookmark in a list whose names take up
    /// `width` characters.
    pub fn list_line(&self, width: usize) -> (line: String)
        ensures
            line@ == list_line(self@, width as nat),
    {
        let mut line = pad_right(self.name.as_str(), width);
        line.append(" : ");
        line.append(self.url.as_str());
        line
    }
}

impl Clone for Bookmark {
    fn clone(&self) -> (r: Self)
        ensures
            r == *self,
    {
        Bookmark { name: self.name.clone(), url: self.url.clone() }
    }
}

impl Entry for Bookmark {
    open spec fn name_view(&self) -> Seq<char> {
        self.name@
    }

    fn name(&self) -> (r: &str) {
        self.name.as_str()
    }

    fn duplicate(&self) -> (r: Self) {
        self.clone()
    }
}

} // verus!
