//! Bookmarks from an HTML export.
//!
//! Browsers export their bookmarks as an HTML page in which every bookmark
//! is a link: an `a` element whose `href` attribute is the address. Each
//! link with an address becomes a bookmark, named by the text of the link
//! without the white space at its ends; a link without an address is passed
//! over. Reading HTML is the `scraper` crate's business.

use crate::bookmarks::{bookmark_views, Bookmark, BookmarkEntry};
use crate::words::{space_mask, trim, trimmed};
use vstd::prelude::*;
use vstd::string::StringSliceAdditionalSpecFns;

verus! {

/// The longest HTML text that is read, in bytes: 512 MiB.
///
/// The HTML parser keeps text in buffers whose lengths are 32-bit numbers
/// and whose capacities grow to the next power of two, and it may write
/// three bytes for one byte it reads. A text of this length keeps every
/// buffer below 2 GiB.
pub const MAX_HTML_BYTES: usize = 0x2000_0000;

/// Why an HTML export gives no bookmarks.
#[derive(Clone, Copy, Debug, PartialEq, Eq, Structural)]
pub enum ImportError {
    /// The text is longer than `MAX_HTML_BYTES`.
    TooLong,
    /// The selector for links was refused.
    Selector,
}

impl ImportError {
    /// The error in words.
    pub open spec fn words(self) -> Seq<char> {
        match self {
            ImportError::TooLong => "the HTML text is longer than 512 MiB"@,
            ImportError::Selector => "failed to parse 'a' tags in HTML document"@,
        }
    }

    /// The error in words.
    pub fn message(&self) -> (r: String)
        ensures
            r@ == self.words(),
    {
        match self {
            ImportError::TooLong => "the HTML text is longer than 512 MiB".to_owned(),
            ImportError::Selector => "failed to parse 'a' tags in HTML document".to_owned(),
        }
    }
}

/// An element of an HTML page as far as the importer reads it: the text
/// inside it, and the value of one of its attributes if it has that
/// attribute.
pub struct Element {
    pub text: String,
    pub value: Option<String>,
}

/// An element as mathematics.
pub struct ElementView {
    pub text: Seq<char>,
    pub value: Option<Seq<char>>,
}

impl View for Element {
    type V = ElementView;

    open spec fn view(&self) -> ElementView {
        ElementView {
            text: self.text@,
            value: match self.value {
                Some(value) => Some(value@),
                None => None,
            },
        }
    }
}

/// The views of a list of elements.
pub open spec fn element_views(elements: Seq<Element>) -> Seq<ElementView> {
    elements.map_values(|element: Element| element@)
}

/// What the `scraper` crate finds in an HTML text for a selector and an
/// attribute name: `None` where it refuses the selector; else, for every
/// element that the selector matches, in the order in which the parser put
/// the elements into its tree, the text of the element's descendants and the
/// value of the attribute. It depends on the three texts alone.
pub uninterp spec fn html_elements(html: Seq<char>, selector: Seq<char>, attribute: Seq<char>)
    -> Option<Seq<ElementView>>;

/// Trusted: `Html::parse_document` parses the text into a tree,
/// `Selector::parse` parses the selector or refuses it, `Html::select` walks
/// the elements of the tree that match, in the order in which they were put
/// into the tree, `ElementRef::text` yields the text of an element's
/// descendants and `Element::attr` the value of an attribute.
///
/// Texts longer than `MAX_HTML_BYTES` are left out because the parser's
/// buffers panic when they outgrow their 32-bit arithmetic. Every selector
/// but the type selector `a` is left out: a type selector is matched against
/// an element by comparing names, while the selector parser recurses on
/// nested selectors and the matcher of relational selectors recurses on the
/// depth of the tree, which the HTML parser does not limit.
#[verifier::external_body]
fn elements_of(html: &str, selector: &str, attribute: &str) -> (r: Option<Vec<Element>>)
    requires
        html.spec_bytes().len() <= MAX_HTML_BYTES,
        selector@ == "a"@,
    ensures
        match r {
            Some(found) => html_elements(html@, selector@, attribute@) == Some(
                element_views(found@),
            ),
            None => html_elements(html@, selector@, attribute@) is None,
        },
{
    let document = scraper::Html::parse_document(html);
    match scraper::Selector::parse(selector) {
        Ok(parsed) => Some(
            document.select(&parsed).map(
                |e| Element { text: e.text().collect(), value: e.value().attr(attribute).map(String::from) },
            ).collect(),
        ),
        Err(_) => None,
    }
}

/// The bookmark that a link stands for, if it has an address.
pub open spec fn bookmark_of(link: ElementView) -> Option<BookmarkEntry> {
    match link.value {
        Some(address) => Some(
            BookmarkEntry { name: trimmed(link.text, space_mask(link.text)), url: address },
        ),
        None => None,
    }
}

/// The bookmarks that the first `n` links stand for, in the order of the
/// links.
pub open spec fn extracted(links: Seq<ElementView>, n: int) -> Seq<BookmarkEntry>
    decreases n,
{
    if n <= 0 || n > links.len() {
        Seq::empty()
    } else {
        match bookmark_of(links[n - 1]) {
            Some(bookmark) => extracted(links, n - 1).push(bookmark),
            None => extracted(links, n - 1),
        }
    }
}

/// What an HTML text of `bytes` bytes gives: the bookmarks of its `a`
/// elements with their `href` attributes, or the reason why it gives none.
pub open spec fn extraction(html: Seq<char>, bytes: nat) -> Result<Seq<BookmarkEntry>, ImportError> {
    if bytes > MAX_HTML_BYTES {
        Err(ImportError::TooLong)
    } else {
        match html_elements(html, "a"@, "href"@) {
            Some(links) => Ok(extracted(links, links.len() as int)),
            None => Err(ImportError::Selector),
        }
    }
}

/// The bookmarks that the links stand for, in the order of the links.
pub fn bookmarks_from_anchors(links: &Vec<Element>) -> (r: Vec<Bookmark>)
    ensures
        bookmark_views(r@) == extracted(element_views(links@), links@.len() as int),
{
    let mut bookmarks: Vec<Bookmark> = Vec::new();
    let mut i: usize = 0;
    assert(bookmark_views(bookmarks@) =~= Seq::<BookmarkEntry>::empty());
    while i < links.len()
        invariant
            i <= links@.len(),
            bookmark_views(bookmarks@) == extracted(element_views(links@), i as int),
        decreases links@.len() - i,
    {
        let link = &links[i];
        assert(element_views(links@)[i as int] == link@);
        match &link.value {
            Some(address) => {
                let name = trim(link.text.as_str());
                let ghost before = bookmarks@;
                let bookmark = Bookmark::new(name.as_str(), address.as_str());
                bookmarks.push(bookmark);
                assert(bookmark_views(bookmarks@) =~= bookmark_views(before).push(bookmark@));
            },
            None => {},
        }
        i += 1;
    }
    bookmarks
}

/// The bookmarks of an HTML export, in the order in which the parser found
/// the links. Fails where the text is longer than `MAX_HTML_BYTES` or the
/// selector for links is refused.
pub fn extract_bookmarks(html: &str) -> (r: Result<Vec<Bookmark>, ImportError>)
    ensures
        match extraction(html@, html.spec_bytes().len()) {
            Ok(bookmarks) => r matches Ok(found) && bookmark_views(found@) == bookmarks,
            Err(why) => r == Err::<Vec<Bookmark>, ImportError>(why),
        },
{
    if html.as_bytes().len() > MAX_HTML_BYTES {
        return Err(ImportError::TooLong);
    }
    match elements_of(html, "a", "href") {
        Some(links) => Ok(bookmarks_from_anchors(&links)),
        None => Err(ImportError::Selector),
    }
}

} // verus!
