//! Applications from desktop entries.
//!
//! A desktop entry is an INI document. Its section `Desktop Entry` names the
//! application under `Name` and gives its launch descriptor under `Exec`. An
//! entry that lacks the section or one of the two keys describes no
//! application. The INI syntax itself is the `ini` crate's business.

use crate::launcher::{app_views, AppEntry, LaunchableApp, LocateError};
use crate::words::views;
use vstd::prelude::*;

verus! {

/// An INI document of the `ini` crate.
#[verifier::external_type_specification]
#[verifier::external_body]
pub struct ExIni(ini::Ini);

/// What an INI document holds under a section name and a key: the first
/// value of the key in the first section of that name. A pair that is not in
/// the map has no value in the document.
pub uninterp spec fn ini_values(document: ini::Ini) -> Map<(Seq<char>, Seq<char>), Seq<char>>;

/// What `Ini::load_from_str` makes of a text: the values of the document it
/// parses the text into, or `None` where it rejects the text. It depends on
/// the text alone.
pub uninterp spec fn ini_parsed(text: Seq<char>) -> Option<Map<(Seq<char>, Seq<char>), Seq<char>>>;

/// The words with which `Ini::load_from_str` rejects a text: its parse error
/// as the error's `Display` writes it, which is the line, the column and what
/// was wrong. It depends on the text alone, and means nothing for a text that
/// is not rejected.
pub uninterp spec fn ini_rejection(text: Seq<char>) -> Seq<char>;

/// Trusted: `Ini::load_from_str` parses the text with the crate's default
/// options and returns the document or the parse error, which comes back
/// here in the words of its `Display`. It reads nothing but the text and does
/// not panic.
#[verifier::external_body]
fn parse_ini(text: &str) -> (r: Result<ini::Ini, String>)
    ensures
        match r {
            Ok(document) => ini_parsed(text@) == Some(ini_values(document)),
            Err(words) => ini_parsed(text@) is None && words@ == ini_rejection(text@),
        },
{
    ini::Ini::load_from_str(text).map_err(|error| error.to_string())
}

/// Trusted: `Ini::section` followed by `Properties::get` returns the first
/// value of `key` in the first section called `section`, or `None` where the
/// document has no such section or the section no such key.
#[verifier::external_body]
fn ini_value(document: &ini::Ini, section: &str, key: &str) -> (r: Option<String>)
    ensures
        match r {
            Some(value) => ini_values(*document).contains_key((section@, key@)) && ini_values(
                *document,
            )[(section@, key@)] == value@,
            None => !ini_values(*document).contains_key((section@, key@)),
        },
{
    document.section(Some(section)).and_then(|properties| properties.get(key)).map(
        |value| value.to_string(),
    )
}

/// The value of a key of the `Desktop Entry` section, if it has one.
pub open spec fn entry_value(values: Map<(Seq<char>, Seq<char>), Seq<char>>, key: Seq<char>)
    -> Option<Seq<char>> {
    if values.contains_key(("Desktop Entry"@, key)) {
        Some(values[("Desktop Entry"@, key)])
    } else {
        None
    }
}

/// The application that a name and a launch descriptor describe: none unless
/// both are there.
pub open spec fn described(name: Option<Seq<char>>, exec: Option<Seq<char>>) -> Option<AppEntry> {
    match (name, exec) {
        (Some(name), Some(exec)) => Some(AppEntry { name, exec_handle: exec }),
        _ => None,
    }
}

/// The application that the values of a desktop entry describe.
pub open spec fn entry_of(values: Map<(Seq<char>, Seq<char>), Seq<char>>) -> Option<AppEntry> {
    described(entry_value(values, "Name"@), entry_value(values, "Exec"@))
}

/// What the text of a desktop entry gives: the application it describes, if
/// it describes one, or the words with which the text is rejected.
pub open spec fn entry_read(text: Seq<char>) -> Result<Option<AppEntry>, Seq<char>> {
    match ini_parsed(text) {
        Some(values) => Ok(entry_of(values)),
        None => Err(ini_rejection(text)),
    }
}

/// The applications that the first `n` texts of desktop entries describe, in
/// the order of the texts, or the words with which the first text that is
/// rejected is rejected.
pub open spec fn located(texts: Seq<Seq<char>>, n: int) -> Result<Seq<AppEntry>, Seq<char>>
    decreases n,
{
    if n <= 0 || n > texts.len() {
        Ok(Seq::empty())
    } else {
        match located(texts, n - 1) {
            Ok(apps) => match entry_read(texts[n - 1]) {
                Ok(Some(app)) => Ok(apps.push(app)),
                Ok(None) => Ok(apps),
                Err(words) => Err(words),
            },
            Err(words) => Err(words),
        }
    }
}

/// The application that a name and a launch descriptor describe.
pub fn app_from_fields(name: Option<String>, exec: Option<String>) -> (r: Option<LaunchableApp>)
    ensures
        match described(
            match name {
                Some(n) => Some(n@),
                None => None,
            },
            match exec {
                Some(e) => Some(e@),
                None => None,
            },
        ) {
            Some(app) => r matches Some(found) && found@ == app,
            None => r is None,
        },
{
    match (name, exec) {
        (Some(name), Some(exec)) => Some(LaunchableApp { name, exec_handle: exec }),
        _ => None,
    }
}

/// The application that the text of a desktop entry describes, if it
/// describes one. Fails where the text is not an INI document, with the
/// parser's words as the message.
pub fn parse_ini_file(text: &str) -> (r: Result<Option<LaunchableApp>, LocateError>)
    ensures
        match entry_read(text@) {
            Ok(Some(app)) => r matches Ok(Some(found)) && found@ == app,
            Ok(None) => r matches Ok(None),
            Err(words) => r matches Err(why) && why.message@ == words,
        },
{
    match parse_ini(text) {
        Ok(document) => {
            let name = ini_value(&document, "Desktop Entry", "Name");
            let exec = ini_value(&document, "Desktop Entry", "Exec");
            Ok(app_from_fields(name, exec))
        },
        Err(words) => Err(LocateError { message: words }),
    }
}

/// The applications that the texts of desktop entries describe, in the order
/// of the texts. Fails at the first text that is not an INI document, with
/// what the parser said of that text as the message.
pub fn locate_apps(texts: &Vec<String>) -> (r: Result<Vec<LaunchableApp>, LocateError>)
    ensures
        match located(views(texts@), texts@.len() as int) {
            Ok(apps) => r matches Ok(found) && app_views(found@) == apps,
            Err(words) => r matches Err(why) && why.message@ == words,
        },
{
    let ghost all = views(texts@);
    let mut apps: Vec<LaunchableApp> = Vec::new();
    let mut i: usize = 0;
    assert(app_views(apps@) =~= Seq::<AppEntry>::empty());
    while i < texts.len()
        invariant
            i <= texts@.len(),
            all == views(texts@),
            located(all, i as int) == Ok::<Seq<AppEntry>, Seq<char>>(app_views(apps@)),
        decreases texts@.len() - i,
    {
        assert(all[i as int] == texts@[i as int]@);
        match parse_ini_file(texts[i].as_str()) {
            Ok(Some(app)) => {
                let ghost before = apps@;
                apps.push(app);
                assert(app_views(apps@) =~= app_views(before).push(app@));
            },
            Ok(None) => {},
            Err(why) => {
                proof {
                    lemma_rejected_stays(all, i + 1, texts@.len() as int);
                }
                return Err(why);
            },
        }
        i += 1;
    }
    Ok(apps)
}

/// Once a text is rejected, more texts change nothing.
proof fn lemma_rejected_stays(texts: Seq<Seq<char>>, n: int, m: int)
    requires
        0 <= n <= m <= texts.len(),
        located(texts, n) is Err,
    ensures
        located(texts, m) == located(texts, n),
    decreases m - n,
{
    if n < m {
        lemma_rejected_stays(texts, n, m - 1);
    }
}

} // verus!
