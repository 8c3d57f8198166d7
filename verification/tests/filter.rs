use hhand::bookmarks::Bookmark;
use hhand::filter::{filter_entries, matches_query, shown_positions};
use hhand::launcher::LaunchableApp;
use hhand::selection::{resolve, select_next, select_previous};
use hhand::store::EntryStore;
use hhand::text::{chars_of, contains_chars, matches_at, pad_right, push_decimal};
use hhand::words::{split_whitespace, trim};

fn names(list: &[&str]) -> Vec<Bookmark> {
    list.iter().map(|n| Bookmark::new(n, "u")).collect()
}

#[test]
fn filter_keeps_the_order_of_the_store() {
    let items = names(&["beta", "Alpha", "gamma", "delta", "ALPACA"]);
    assert_eq!(shown_positions(&items, "a"), vec![0, 1, 2, 3, 4]);
    assert_eq!(shown_positions(&items, "al"), vec![1, 4]);
    assert_eq!(filter_entries(&items, "al"), names(&["Alpha", "ALPACA"]));
    assert_eq!(filter_entries(&items, "ta"), names(&["beta", "delta"]));
}

#[test]
fn filter_ignores_case_both_ways() {
    assert!(matches_query("Rust Blog", "ru"));
    assert!(matches_query("rust blog", "RU"));
    assert!(matches_query("Rust Blog", "t B"));
    assert!(!matches_query("Rust Blog", "go"));
    assert!(!matches_query("ru", "rust"));
    assert!(matches_query("Straße", "STRASSE"));
}

#[test]
fn empty_query_matches_nothing() {
    assert!(!matches_query("Rust Blog", ""));
    assert!(!matches_query("", ""));
    let items = names(&["a", "b", ""]);
    assert_eq!(shown_positions(&items, ""), vec![]);
    assert_eq!(filter_entries(&items, ""), vec![]);
    assert_eq!(filter_entries(&Vec::<LaunchableApp>::new(), "a"), vec![]);
}

#[test]
fn filter_includes_exactly_the_matching_items() {
    let items = names(&["one", "two", "three", "four", "TWOFOLD"]);
    let shown = shown_positions(&items, "Tw");
    for (i, item) in items.iter().enumerate() {
        assert_eq!(shown.contains(&i), matches_query(&item.name, "Tw"));
    }
    assert_eq!(shown, vec![1, 4]);
}

fn contains(hay: &str, needle: &str) -> bool {
    contains_chars(&chars_of(hay), &chars_of(needle))
}

fn decimal_string(n: usize) -> String {
    let mut s = String::from("n=");
    push_decimal(&mut s, n);
    s
}

#[test]
fn characters_of_a_text() {
    assert_eq!(chars_of("héllo"), vec!['h', 'é', 'l', 'l', 'o']);
    assert_eq!(chars_of(""), Vec::<char>::new());
}

#[test]
fn match_at_an_index() {
    let hay = chars_of("abcab");
    assert!(matches_at(&hay, &chars_of("ab"), 0));
    assert!(matches_at(&hay, &chars_of("ab"), 3));
    assert!(!matches_at(&hay, &chars_of("ab"), 1));
    assert!(!matches_at(&hay, &chars_of("ab"), 4));
    assert!(!matches_at(&hay, &chars_of("ab"), usize::MAX));
    assert!(matches_at(&hay, &chars_of(""), 5));
    assert!(!matches_at(&hay, &chars_of(""), 6));
}

#[test]
fn substring_search() {
    assert!(contains("hello", ""));
    assert!(contains("", ""));
    assert!(!contains("", "a"));
    assert!(contains("hello", "hello"));
    assert!(contains("hello", "llo"));
    assert!(contains("hello", "h"));
    assert!(!contains("hello", "lol"));
    assert!(!contains("hello", "helloo"));
    assert!(contains("aab", "ab"));
    assert!(contains("naïve café", "é"));
}

#[test]
fn decimal_numerals() {
    assert_eq!(decimal_string(0), "n=0");
    assert_eq!(decimal_string(7), "n=7");
    assert_eq!(decimal_string(10), "n=10");
    assert_eq!(decimal_string(1205), "n=1205");
    assert_eq!(decimal_string(usize::MAX), format!("n={}", usize::MAX));
}

#[test]
fn cursor_steps() {
    assert_eq!(select_next(None, 3), Some(0));
    assert_eq!(select_next(Some(0), 3), Some(1));
    assert_eq!(select_next(Some(2), 3), Some(0));
    assert_eq!(select_next(Some(9), 3), Some(0));
    assert_eq!(select_next(Some(0), 0), None);
    assert_eq!(select_next(Some(0), 1), Some(0));
    assert_eq!(select_previous(None, 3), Some(2));
    assert_eq!(select_previous(Some(0), 3), Some(2));
    assert_eq!(select_previous(Some(2), 3), Some(1));
    assert_eq!(select_previous(Some(9), 3), Some(2));
    assert_eq!(select_previous(None, 0), None);
    assert_eq!(select_next(Some(usize::MAX), usize::MAX), Some(0));
    assert_eq!(select_next(Some(usize::MAX - 1), usize::MAX), Some(0));
    assert_eq!(resolve(Some(2), 3), Some(2));
    assert_eq!(resolve(Some(3), 3), None);
    assert_eq!(resolve(None, 3), None);
}

#[test]
fn store_reads_its_cursor_against_the_view() {
    let mut store = EntryStore::new(names(&["ab", "cd", "abc"]));
    assert_eq!(store.len(), 3);
    assert_eq!(store.selected(), None);
    assert_eq!(store.shown_count("ab"), 2);
    assert_eq!(store.search("ab"), names(&["ab", "abc"]));
    store.select(Some(1));
    assert_eq!(store.selected_index("ab"), Some(1));
    assert_eq!(store.selected_entry("ab"), Some(Bookmark::new("abc", "u")));
    assert_eq!(store.selected_index("cd"), None);
    assert_eq!(store.selected_entry("cd"), None);
    store.select_next("ab");
    assert_eq!(store.selected(), Some(0));
    store.select_previous("ab");
    assert_eq!(store.selected(), Some(1));
    store.select_previous("zz");
    assert_eq!(store.selected(), None);
}

#[test]
fn splitting_at_white_space() {
    assert_eq!(split_whitespace("a b  c"), vec!["a", "b", "c"]);
    assert_eq!(split_whitespace("  lead and trail \t\n"), vec!["lead", "and", "trail"]);
    assert_eq!(split_whitespace(""), Vec::<String>::new());
    assert_eq!(split_whitespace(" \u{a0}\u{3000} "), Vec::<String>::new());
    assert_eq!(split_whitespace("one"), vec!["one"]);
    assert_eq!(split_whitespace("a\u{2003}b"), vec!["a", "b"]);
}

#[test]
fn trimming_white_space() {
    assert_eq!(trim("  Rust Blog \n"), "Rust Blog");
    assert_eq!(trim("x"), "x");
    assert_eq!(trim(""), "");
    assert_eq!(trim(" \t "), "");
    assert_eq!(trim("a  b"), "a  b");
    assert_eq!(trim("\u{a0}é\u{a0}"), "é");
}

#[test]
fn padding_to_a_width() {
    assert_eq!(pad_right("ab", 5), "ab   ");
    assert_eq!(pad_right("abcde", 5), "abcde");
    assert_eq!(pad_right("abcdef", 5), "abcdef");
    assert_eq!(pad_right("", 2), "  ");
    assert_eq!(pad_right("", 0), "");
    assert_eq!(pad_right("\u{e9}", 2), "\u{e9} ");
}

#[test]
fn store_is_replaced_as_a_whole() {
    let mut store = EntryStore::new(names(&["ab", "cd"]));
    store.select(Some(1));
    store.replace(names(&["x", "ab", "abc"]));
    assert_eq!(store.len(), 3);
    assert_eq!(store.selected(), None);
    assert_eq!(store.search("ab"), names(&["ab", "abc"]));
}

#[test]
fn white_space_is_what_the_standard_library_says() {
    let spaces = [
        '\u{9}', '\u{a}', '\u{b}', '\u{c}', '\u{d}', ' ', '\u{85}', '\u{a0}', '\u{1680}',
        '\u{2000}', '\u{2001}', '\u{2002}', '\u{2003}', '\u{2004}', '\u{2005}', '\u{2006}',
        '\u{2007}', '\u{2008}', '\u{2009}', '\u{200a}', '\u{2028}', '\u{2029}', '\u{202f}',
        '\u{205f}', '\u{3000}',
    ];
    let mut count = 0;
    for code in 0..=0x10ffffu32 {
        if let Some(c) = char::from_u32(code) {
            let text = format!("a{}b", c);
            let split = split_whitespace(&text).len() == 2;
            assert_eq!(split, spaces.contains(&c));
            assert_eq!(split, c.is_whitespace());
            if split {
                count += 1;
            }
        }
    }
    assert_eq!(count, 25);
}
