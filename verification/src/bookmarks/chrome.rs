//! The bookmark tree that Chrome keeps, and how it is flattened.
//!
//! Chrome stores its bookmarks as three trees: the bookmark bar, the other
//! bookmarks and the synced ones. A node with an address is a bookmark; a
//! node without one is a folder, whose children are walked in order. The
//! walk keeps its own stack of nodes still to visit, so a deep tree costs
//! memory on the heap and not on the call stack.

use crate::bookmarks::Bookmark;
use vstd::prelude::*;

verus! {

/// A node of the bookmark tree.
pub struct ChromeBookmarkItem {
    pub name: String,
    pub url: Option<String>,
    pub children: Option<Vec<ChromeBookmarkItem>>,
}

/// The three trees.
pub struct ChromeBookmarks {
    pub bookmark_bar: ChromeBookmarkItem,
    pub other: ChromeBookmarkItem,
    pub synced: ChromeBookmarkItem,
}

/// The bookmark file as a whole.
pub struct ChromeRoot {
    pub roots: ChromeBookmarks,
}

/// The bookmarks at and below `item`, in the order of the tree: the node
/// itself where it has an address, else those of its children, first child
/// first.
pub open spec fn bookmarks_under(item: ChromeBookmarkItem) -> Seq<Bookmark>
    decreases item,
{
    match item.url {
        Some(url) => seq![Bookmark { name: item.name, url }],
        None => match item.children {
            Some(children) => bookmarks_among(children@, children@.len() as int),
            None => Seq::empty(),
        },
    }
}

/// The bookmarks at and below the first `n` of `items`, in order.
pub open spec fn bookmarks_among(items: Seq<ChromeBookmarkItem>, n: int) -> Seq<Bookmark>
    decreases items, n,
{
    if n <= 0 || n > items.len() {
        Seq::empty()
    } else {
        bookmarks_among(items, n - 1) + bookmarks_under(items[n - 1])
    }
}

/// All bookmarks of the file: the bookmark bar, then the others, then the
/// synced ones.
pub open spec fn bookmarks_of(root: ChromeRoot) -> Seq<Bookmark> {
    bookmarks_under(root.roots.bookmark_bar) + bookmarks_under(root.roots.other) + bookmarks_under(
        root.roots.synced,
    )
}

/// How many nodes there are at and below `item`.
pub open spec fn nodes_under(item: ChromeBookmarkItem) -> nat
    decreases item,
{
    match item.children {
        Some(children) => 1 + nodes_among(children@, children@.len() as int),
        None => 1,
    }
}

/// How many nodes there are at and below the first `n` of `items`.
pub open spec fn nodes_among(items: Seq<ChromeBookmarkItem>, n: int) -> nat
    decreases items, n,
{
    if n <= 0 || n > items.len() {
        0
    } else {
        nodes_among(items, n - 1) + nodes_under(items[n - 1])
    }
}

/// The bookmarks that the lowest `n` nodes of a stack still stand for: those
/// under the topmost of them first.
spec fn pending(stack: Seq<&ChromeBookmarkItem>, n: int) -> Seq<Bookmark>
    decreases n,
{
    if n <= 0 || n > stack.len() {
        Seq::empty()
    } else {
        bookmarks_under(*stack[n - 1]) + pending(stack, n - 1)
    }
}

/// How many nodes the lowest `n` nodes of a stack still stand for.
spec fn load(stack: Seq<&ChromeBookmarkItem>, n: int) -> nat
    decreases n,
{
    if n <= 0 || n > stack.len() {
        0
    } else {
        nodes_under(*stack[n - 1]) + load(stack, n - 1)
    }
}

/// What the lowest `n` nodes stand for does not depend on the nodes above.
proof fn lemma_stack_prefix(
    stack: Seq<&ChromeBookmarkItem>,
    longer: Seq<&ChromeBookmarkItem>,
    n: int,
)
    requires
        0 <= n <= stack.len() <= longer.len(),
        forall|k: int| 0 <= k < n ==> stack[k] == longer[k],
    ensures
        pending(stack, n) == pending(longer, n),
        load(stack, n) == load(longer, n),
    decreases n,
{
    if n > 0 {
        lemma_stack_prefix(stack, longer, n - 1);
    }
}

/// The bookmarks at and below `item`, in the order of the tree.
pub fn unpack_chrome_bookmarks(item: &ChromeBookmarkItem) -> (r: Vec<Bookmark>)
    ensures
        r@ == bookmarks_under(*item),
{
    let mut out: Vec<Bookmark> = Vec::new();
    let mut stack: Vec<&ChromeBookmarkItem> = Vec::new();
    stack.push(item);
    assert(pending(stack@, 1) =~= bookmarks_under(*item)) by {
        assert(pending(stack@, 0) =~= Seq::<Bookmark>::empty());
    }
    while stack.len() > 0
        invariant
            out@ + pending(stack@, stack@.len() as int) == bookmarks_under(*item),
        decreases load(stack@, stack@.len() as int),
    {
        let ghost before = stack@;
        let node = stack.pop().unwrap();
        let ghost below = stack@;
        proof {
            lemma_stack_prefix(below, before, below.len() as int);
        }
        match &node.url {
            Some(url) => {
                out.push(Bookmark { name: node.name.clone(), url: url.clone() });
                assert(out@ + pending(below, below.len() as int) =~= joined(
                    out@.drop_last(),
                    bookmarks_under(*node),
                    pending(below, below.len() as int),
                ));
            },
            None => {
                match &node.children {
                    Some(children) => {
                        let mut j: usize = children.len();
                        while j > 0
                            invariant
                                j <= children@.len(),
                                below.len() <= stack@.len(),
                                forall|k: int| 0 <= k < below.len() ==> stack@[k] == below[k],
                                bookmarks_among(children@, j as int) + pending(
                                    stack@,
                                    stack@.len() as int,
                                ) == bookmarks_among(children@, children@.len() as int) + pending(
                                    below,
                                    below.len() as int,
                                ),
                                nodes_among(children@, j as int) + load(
                                    stack@,
                                    stack@.len() as int,
                                ) == nodes_among(children@, children@.len() as int) + load(
                                    below,
                                    below.len() as int,
                                ),
                            decreases j,
                        {
                            let ghost lower = stack@;
                            j -= 1;
                            stack.push(&children[j]);
                            proof {
                                lemma_stack_prefix(lower, stack@, lower.len() as int);
                                assert(bookmarks_among(children@, j as int) + pending(
                                    stack@,
                                    stack@.len() as int,
                                ) =~= bookmarks_among(children@, j + 1) + pending(
                                    lower,
                                    lower.len() as int,
                                ));
                            }
                        }
                        assert(bookmarks_among(children@, 0) + pending(stack@, stack@.len() as int)
                            =~= pending(stack@, stack@.len() as int));
                        assert(out@ + pending(stack@, stack@.len() as int) =~= joined(
                            out@,
                            bookmarks_under(*node),
                            pending(below, below.len() as int),
                        ));
                    },
                    None => {
                        assert(out@ + pending(below, below.len() as int) =~= joined(
                            out@,
                            bookmarks_under(*node),
                            pending(below, below.len() as int),
                        ));
                    },
                }
            },
        }
    }
    assert(out@ + pending(stack@, 0) =~= out@);
    out
}

/// Three sequences one after another.
spec fn joined(out: Seq<Bookmark>, here: Seq<Bookmark>, rest: Seq<Bookmark>) -> Seq<
    Bookmark,
> {
    out + (here + rest)
}

/// All bookmarks of the file: the bookmark bar, then the others, then the
/// synced ones.
pub fn unpack_chrome_roots(root: &ChromeRoot) -> (r: Vec<Bookmark>)
    ensures
        r@ == bookmarks_of(*root),
{
    let mut bookmarks = unpack_chrome_bookmarks(&root.roots.bookmark_bar);
    let mut other = unpack_chrome_bookmarks(&root.roots.other);
    let mut synced = unpack_chrome_bookmarks(&root.roots.synced);
    bookmarks.append(&mut other);
    bookmarks.append(&mut synced);
    bookmarks
}

} // verus!
