//! The status line: the result of the last operation that reported one.

use crate::input::AppState;
use crate::text::{decimal, push_decimal};
use vstd::prelude::*;
use vstd::string::StringExecFns;

verus! {

/// The result of the last operation that reported one. A new message takes
/// the place of the old one.
#[derive(Debug, PartialEq, Eq)]
pub enum StatusMessage {
    Success(String),
    Error(String),
    /// Nothing has been reported.
    Nothing,
}

/// A status message, with its text as a sequence of characters.
pub enum StatusView {
    Success(Seq<char>),
    Error(Seq<char>),
    Nothing,
}

impl View for StatusMessage {
    type V = StatusView;

    open spec fn view(&self) -> StatusView {
        match self {
            StatusMessage::Success(text) => StatusView::Success(text@),
            StatusMessage::Error(text) => StatusView::Error(text@),
            StatusMessage::Nothing => StatusView::Nothing,
        }
    }
}

impl StatusMessage {
    /// What the status line shows: the message, or `OK` where nothing has
    /// been reported.
    pub open spec fn shown(self) -> Seq<char> {
        match self {
            StatusMessage::Success(text) => text@,
            StatusMessage::Error(text) => text@,
            StatusMessage::Nothing => "OK"@,
        }
    }

    /// Whether the message reports a failure.
    pub fn is_error(&self) -> (r: bool)
        ensures
            r == (self is Error),
    {
        match self {
            StatusMessage::Error(_) => true,
            _ => false,
        }
    }

    /// What the status line shows: the message, or `OK` where nothing has
    /// been reported.
    pub fn text(&self) -> (r: String)
        ensures
            r@ == self.shown(),
    {
        match self {
            StatusMessage::Success(text) => text.clone(),
            StatusMessage::Error(text) => text.clone(),
            StatusMessage::Nothing => "OK".to_owned(),
        }
    }
}

/// The name of `mode` in the footer.
pub open spec fn mode_label(mode: AppState) -> Seq<char> {
    match mode {
        AppState::Bookmarks => "Search mode"@,
        AppState::Launcher => "Launcher mode"@,
    }
}

/// The keys of `mode` as the footer lists them.
pub open spec fn mode_hint(mode: AppState) -> Seq<char> {
    match mode {
        AppState::Bookmarks =>
            "(ESC) exit / (PgUp)/(PgDwn) switch mode / \u{2191}\u{2193} select bookmark / (ENTER) open bookmark"@,
        AppState::Launcher =>
            "(ESC) exit / (PgUp)/(PgDwn) switch mode / \u{2191}\u{2193} select item / (ENTER) launch"@,
    }
}

/// The name of `mode` in the footer.
pub fn mode_label_text(mode: AppState) -> (s: String)
    ensures
        s@ == mode_label(mode),
{
    match mode {
        AppState::Bookmarks => "Search mode".to_owned(),
        AppState::Launcher => "Launcher mode".to_owned(),
    }
}

/// The keys of `mode` as the footer lists them.
pub fn mode_hint_text(mode: AppState) -> (s: String)
    ensures
        s@ == mode_hint(mode),
{
    match mode {
        AppState::Bookmarks =>
            "(ESC) exit / (PgUp)/(PgDwn) switch mode / \u{2191}\u{2193} select bookmark / (ENTER) open bookmark".to_owned(),
        AppState::Launcher =>
            "(ESC) exit / (PgUp)/(PgDwn) switch mode / \u{2191}\u{2193} select item / (ENTER) launch".to_owned(),
    }
}

/// The text that reports how many entries the list of `mode` holds.
pub open spec fn count_message(mode: AppState, count: nat) -> Seq<char> {
    match mode {
        AppState::Bookmarks => "Loaded "@ + decimal(count) + " bookmarks"@,
        AppState::Launcher => "Located "@ + decimal(count) + " apps"@,
    }
}

/// The title of the input line in `mode`.
pub open spec fn title_for(mode: AppState) -> Seq<char> {
    match mode {
        AppState::Bookmarks => "Search for bookmark"@,
        AppState::Launcher => "Launch app"@,
    }
}

/// The text that reports how many entries the list of `mode` holds.
pub fn count_text(mode: AppState, count: usize) -> (s: String)
    ensures
        s@ == count_message(mode, count as nat),
{
    match mode {
        AppState::Bookmarks => {
            let mut s = "Loaded ".to_owned();
            push_decimal(&mut s, count);
            s.append(" bookmarks");
            s
        },
        AppState::Launcher => {
            let mut s = "Located ".to_owned();
            push_decimal(&mut s, count);
            s.append(" apps");
            s
        },
    }
}

/// The title of the input line in `mode`.
pub fn title_text(mode: AppState) -> (s: String)
    ensures
        s@ == title_for(mode),
{
    match mode {
        AppState::Bookmarks => "Search for bookmark".to_owned(),
        AppState::Launcher => "Launch app".to_owned(),
    }
}

} // verus!
