//! Splitting a text at white space and trimming white space off its ends.
//!
//! Which characters are white space is Unicode's business: the standard
//! library is asked, character by character. The answers form a mask, a
//! sequence of booleans as long as the text, and the splitting and trimming
//! work on the text and its mask.

use crate::text::chars_of;
use vstd::prelude::*;

verus! {

/// Whether a character has Unicode's `White_Space` property. These are the
/// 25 characters that the Unicode Character Database lists under that name in
/// `PropList.txt`: the controls from tab to carriage return, the space, the
/// next-line control, the no-break space, the Ogham space mark, the spaces
/// from en quad to hair space, the line and paragraph separators, the narrow
/// no-break space, the medium mathematical space and the ideographic space.
pub open spec fn white_space(c: char) -> bool {
    let code = c as u32;
    ||| 0x0009 <= code <= 0x000D
    ||| code == 0x0020
    ||| code == 0x0085
    ||| code == 0x00A0
    ||| code == 0x1680
    ||| 0x2000 <= code <= 0x200A
    ||| code == 0x2028
    ||| code == 0x2029
    ||| code == 0x202F
    ||| code == 0x205F
    ||| code == 0x3000
}

/// Trusted: `char::is_whitespace` reports whether the character has the
/// `White_Space` property, which its documentation defines by reference to
/// `PropList.txt` of the Unicode Character Database.
pub assume_specification[ char::is_whitespace ](c: char) -> (r: bool)
    ensures
        r == white_space(c),
;

/// The mask of a text: for each character, whether it is white space.
pub open spec fn space_mask(text: Seq<char>) -> Seq<bool> {
    text.map_values(|c: char| white_space(c))
}

/// Whether the mask marks index `i`. Past its end a mask marks nothing.
pub open spec fn marked(mask: Seq<bool>, i: int) -> bool {
    0 <= i < mask.len() && mask[i]
}

/// A field that was begun, as a list of no or one field.
pub open spec fn closed(field: Seq<char>) -> Seq<Seq<char>> {
    if field.len() > 0 {
        seq![field]
    } else {
        Seq::empty()
    }
}

/// The fields of `text` from index `i` on, where `field` holds the unmarked
/// characters directly before `i`: the maximal runs of unmarked characters,
/// in order.
pub open spec fn fields_from(text: Seq<char>, mask: Seq<bool>, i: int, field: Seq<char>) -> Seq<
    Seq<char>,
>
    decreases text.len() - i,
{
    if i < 0 || i >= text.len() {
        closed(field)
    } else if marked(mask, i) {
        closed(field) + fields_from(text, mask, i + 1, Seq::empty())
    } else {
        fields_from(text, mask, i + 1, field.push(text[i]))
    }
}

/// The fields of `text`: its maximal runs of unmarked characters, in order.
/// None of them is empty.
pub open spec fn fields(text: Seq<char>, mask: Seq<bool>) -> Seq<Seq<char>> {
    fields_from(text, mask, 0, Seq::empty())
}

/// The index of the first unmarked character at or after `i`, or the length
/// of the text where there is none.
pub open spec fn first_unmarked(text: Seq<char>, mask: Seq<bool>, i: int) -> int
    decreases text.len() - i,
{
    if i < 0 || i >= text.len() {
        text.len() as int
    } else if marked(mask, i) {
        first_unmarked(text, mask, i + 1)
    } else {
        i
    }
}

/// One more than the index of the last unmarked character before `i`, or 0
/// where there is none.
pub open spec fn last_unmarked(text: Seq<char>, mask: Seq<bool>, i: int) -> int
    decreases i,
{
    if i <= 0 || i > text.len() {
        0
    } else if marked(mask, i - 1) {
        last_unmarked(text, mask, i - 1)
    } else {
        i
    }
}

/// `text` without the marked characters at its two ends. A text of marked
/// characters only gives the empty text.
pub open spec fn trimmed(text: Seq<char>, mask: Seq<bool>) -> Seq<char> {
    let from = first_unmarked(text, mask, 0);
    let to = last_unmarked(text, mask, text.len() as int);
    if from < to {
        text.subrange(from, to)
    } else {
        Seq::empty()
    }
}

/// The views of a list of strings.
pub open spec fn views(list: Seq<String>) -> Seq<Seq<char>> {
    list.map_values(|s: String| s@)
}

/// The mask of `chars`.
pub fn mask_of(chars: &Vec<char>) -> (mask: Vec<bool>)
    ensures
        mask@ == space_mask(chars@),
{
    let mut mask: Vec<bool> = Vec::new();
    let mut i: usize = 0;
    while i < chars.len()
        invariant
            i <= chars@.len(),
            mask@ == space_mask(chars@.take(i as int)),
        decreases chars@.len() - i,
    {
        mask.push(chars[i].is_whitespace());
        assert(mask@ =~= space_mask(chars@.take(i + 1)));
        i += 1;
    }
    assert(chars@.take(i as int) =~= chars@);
    mask
}

/// The characters of `chars` from index `from` up to `to`, as a string.
fn string_of(chars: &Vec<char>, from: usize, to: usize) -> (s: String)
    requires
        from <= to <= chars@.len(),
    ensures
        s@ == chars@.subrange(from as int, to as int),
{
    let mut s = String::new();
    let mut i: usize = from;
    while i < to
        invariant
            from <= i <= to <= chars@.len(),
            s@ == chars@.subrange(from as int, i as int),
        decreases to - i,
    {
        s.push(chars[i]);
        assert(s@ =~= chars@.subrange(from as int, i + 1));
        i += 1;
    }
    s
}

/// The fields of `chars` under `mask`, in order.
pub fn split_fields(chars: &Vec<char>, mask: &Vec<bool>) -> (r: Vec<String>)
    ensures
        views(r@) == fields(chars@, mask@),
{
    let mut out: Vec<String> = Vec::new();
    let mut start: usize = 0;
    let mut i: usize = 0;
    assert(views(out@) =~= Seq::<Seq<char>>::empty());
    assert(chars@.subrange(0, 0) =~= Seq::<char>::empty());
    while i < chars.len()
        invariant
            start <= i <= chars@.len(),
            forall|k: int| start <= k < i ==> !marked(mask@, k),
            views(out@) + fields_from(
                chars@,
                mask@,
                i as int,
                chars@.subrange(start as int, i as int),
            ) == fields(chars@, mask@),
        decreases chars@.len() - i,
    {
        let ghost field = chars@.subrange(start as int, i as int);
        if i < mask.len() && mask[i] {
            if start < i {
                let ghost before = out@;
                out.push(string_of(chars, start, i));
                assert(views(out@) =~= views(before) + closed(field));
            }
            start = i + 1;
            assert(chars@.subrange(start as int, start as int) =~= Seq::<char>::empty());
        } else {
            assert(chars@.subrange(start as int, i + 1) =~= field.push(chars@[i as int]));
        }
        i += 1;
    }
    if start < i {
        let ghost before = out@;
        out.push(string_of(chars, start, i));
        assert(views(out@) =~= views(before) + closed(chars@.subrange(start as int, i as int)));
    }
    out
}

/// `chars` without the marked characters at its two ends.
pub fn trim_chars(chars: &Vec<char>, mask: &Vec<bool>) -> (r: String)
    ensures
        r@ == trimmed(chars@, mask@),
{
    let len: usize = chars.len();
    let mut from: usize = 0;
    while from < len && from < mask.len() && mask[from]
        invariant
            from <= len == chars@.len(),
            first_unmarked(chars@, mask@, 0) == first_unmarked(chars@, mask@, from as int),
        decreases len - from,
    {
        from += 1;
    }
    let mut to: usize = len;
    while to > 0 && to - 1 < mask.len() && mask[to - 1]
        invariant
            to <= len == chars@.len(),
            last_unmarked(chars@, mask@, len as int) == last_unmarked(chars@, mask@, to as int),
        decreases to,
    {
        to -= 1;
    }
    if from < to {
        string_of(chars, from, to)
    } else {
        String::new()
    }
}

/// The fields of `text` between white space, in order.
pub fn split_whitespace(text: &str) -> (r: Vec<String>)
    ensures
        views(r@) == fields(text@, space_mask(text@)),
{
    let chars = chars_of(text);
    let mask = mask_of(&chars);
    split_fields(&chars, &mask)
}

/// `text` without the white space at its two ends.
pub fn trim(text: &str) -> (r: String)
    ensures
        r@ == trimmed(text@, space_mask(text@)),
{
    let chars = chars_of(text);
    let mask = mask_of(&chars);
    trim_chars(&chars, &mask)
}

} // verus!
