//! The application state and the dispatcher.
//!
//! All state lives in one aggregate, `App`. A command changes it through
//! `dispatch`, which never touches the outside world: where a command needs
//! an outside capability (the clipboard, the URL opener, the process
//! launcher), `dispatch` returns the request as an `Effect`. The caller
//! performs it and hands the outcome back through `paste_to_input` or
//! `finish`, which record a failure in the status line. Nothing here fails or
//! panics.

use crate::bookmarks::Bookmark;
use crate::config::Config;
use crate::filter::{lemma_empty_query_shows_nothing, visible};
use crate::input::{command_for, AppState, Control, InputHandler, Key, KeyInput};
use crate::launcher::LaunchableApp;
use crate::overlay::{ConfigElement, ConfigManager};
use crate::selection::{in_range, next_of, previous_of};
use crate::status::{count_message, count_text, title_for, title_text, StatusMessage, StatusView};
use crate::store::{chosen, AppList, BookmarkList, EntryStore};
use vstd::prelude::*;
use vstd::string::StringExecFns;

verus! {

/// The state of the application.
pub struct App {
    pub should_exit: bool,
    pub bookmark_list: BookmarkList,
    pub app_list: AppList,
    /// The input line: the query for whichever list is current.
    pub input_str: String,
    pub state: AppState,
    pub title: String,
    pub status_message: StatusMessage,
    pub config_manager: ConfigManager,
    pub input_handler: InputHandler,
}

/// The state of the application as mathematics.
#[verifier::ext_equal]
pub struct AppView {
    pub should_exit: bool,
    pub bookmarks: Seq<Bookmark>,
    pub bookmark_cursor: Option<usize>,
    pub apps: Seq<LaunchableApp>,
    pub app_cursor: Option<usize>,
    pub input: Seq<char>,
    pub state: AppState,
    pub title: Seq<char>,
    pub status: StatusView,
    pub config: ConfigManager,
    pub router_mode: AppState,
    pub router_overlay: bool,
}

/// What the dispatcher asks the outside world to do.
#[derive(Debug, PartialEq, Eq)]
pub enum Effect {
    /// Nothing is asked.
    Nothing,
    /// Read the text on the clipboard and hand it to `paste_to_input`.
    ReadClipboard,
    /// Open this address and hand the outcome to `finish`.
    OpenUrl(String),
    /// Launch this application and hand the outcome to `finish`.
    Launch(LaunchableApp),
}

/// An effect as mathematics.
pub enum EffectView {
    Nothing,
    ReadClipboard,
    OpenUrl(Seq<char>),
    Launch(LaunchableApp),
}

impl View for Effect {
    type V = EffectView;

    open spec fn view(&self) -> EffectView {
        match self {
            Effect::Nothing => EffectView::Nothing,
            Effect::ReadClipboard => EffectView::ReadClipboard,
            Effect::OpenUrl(url) => EffectView::OpenUrl(url@),
            Effect::Launch(app) => EffectView::Launch(*app),
        }
    }
}

impl AppView {
    /// How many entries of the current list are shown.
    pub open spec fn shown_count(self) -> usize {
        match self.state {
            AppState::Bookmarks => visible(self.bookmarks, self.input).len() as usize,
            AppState::Launcher => visible(self.apps, self.input).len() as usize,
        }
    }

    /// The stored cursor of the current list.
    pub open spec fn cursor(self) -> Option<usize> {
        match self.state {
            AppState::Bookmarks => self.bookmark_cursor,
            AppState::Launcher => self.app_cursor,
        }
    }

    /// The state with the cursor of the current list put at `cursor`.
    pub open spec fn with_cursor(self, cursor: Option<usize>) -> AppView {
        match self.state {
            AppState::Bookmarks => AppView { bookmark_cursor: cursor, ..self },
            AppState::Launcher => AppView { app_cursor: cursor, ..self },
        }
    }

    /// How many entries the list of `mode` holds.
    pub open spec fn loaded(self, mode: AppState) -> nat {
        match mode {
            AppState::Bookmarks => self.bookmarks.len(),
            AppState::Launcher => self.apps.len(),
        }
    }

    /// The state after a switch to `mode`: the input line is cleared, the
    /// title and the router follow the mode, the status reports how many
    /// entries the list holds. Both cursors stay as they are.
    pub open spec fn switched(self, mode: AppState) -> AppView {
        AppView {
            state: mode,
            router_mode: mode,
            title: title_for(mode),
            status: StatusView::Success(count_message(mode, self.loaded(mode))),
            input: Seq::empty(),
            ..self
        }
    }

    /// The router and the state agree on the mode and on the overlay.
    pub open spec fn consistent(self) -> bool {
        &&& self.router_mode == self.state
        &&& self.router_overlay == self.config.is_visible
    }
}

/// The state when the application starts: the bookmark list is current, the
/// overlay is hidden, nothing is selected and nothing is typed.
pub open spec fn initial(bookmarks: Seq<Bookmark>, apps: Seq<LaunchableApp>, config: Config)
    -> AppView {
    AppView {
        should_exit: false,
        bookmarks,
        bookmark_cursor: None,
        apps,
        app_cursor: None,
        input: Seq::empty(),
        state: AppState::Bookmarks,
        title: title_for(AppState::Bookmarks),
        status: StatusView::Success(count_message(AppState::Bookmarks, bookmarks.len())),
        config: ConfigManager {
            is_visible: false,
            active_element: ConfigElement::Browser,
            config,
        },
        router_mode: AppState::Bookmarks,
        router_overlay: false,
    }
}

/// The state after a command.
pub open spec fn step(v: AppView, control: Control) -> AppView {
    match control {
        Control::Exit => AppView { should_exit: true, ..v },
        Control::AppendInput(c) => AppView { input: v.input.push(c), ..v },
        Control::DeleteChar => if v.input.len() > 0 {
            AppView { input: v.input.drop_last(), ..v }
        } else {
            v
        },
        Control::ClearInput => AppView { input: Seq::empty(), ..v },
        Control::PasteInput => v,
        Control::SelectNext => v.with_cursor(next_of(v.cursor(), v.shown_count())),
        Control::SelectPrevious => v.with_cursor(previous_of(v.cursor(), v.shown_count())),
        Control::Activate => v,
        Control::SwitchMode(mode) => v.switched(mode),
        Control::ToggleConfig => AppView {
            config: ConfigManager { is_visible: !v.config.is_visible, ..v.config },
            router_overlay: !v.config.is_visible,
            ..v
        },
        Control::ConfigNext => AppView { config: v.config.focus_next(), ..v },
        Control::ConfigPrevious => AppView { config: v.config.focus_previous(), ..v },
        Control::Nothing => v,
    }
}

/// What a command asks of the outside world.
pub open spec fn effect_of(v: AppView, control: Control) -> EffectView {
    match control {
        Control::PasteInput => EffectView::ReadClipboard,
        Control::Activate => match v.state {
            AppState::Bookmarks => match chosen(v.bookmarks, v.bookmark_cursor, v.input) {
                Some(bookmark) => EffectView::OpenUrl(bookmark.url@),
                None => EffectView::Nothing,
            },
            AppState::Launcher => match chosen(v.apps, v.app_cursor, v.input) {
                Some(app) => EffectView::Launch(app),
                None => EffectView::Nothing,
            },
        },
        _ => EffectView::Nothing,
    }
}

/// The state after the clipboard was read: its text is appended to the input
/// line, or the failure is reported and the input line stays as it is.
pub open spec fn pasted(v: AppView, clipboard: Result<Seq<char>, Seq<char>>) -> AppView {
    match clipboard {
        Ok(text) => AppView { input: v.input + text, ..v },
        Err(why) => AppView { status: StatusView::Error(why), ..v },
    }
}

/// The state after an address was opened or an application launched: a
/// failure is reported, a success changes nothing.
pub open spec fn finished(v: AppView, outcome: Result<(), Seq<char>>) -> AppView {
    match outcome {
        Ok(_) => v,
        Err(why) => AppView { status: StatusView::Error(why), ..v },
    }
}

/// The state after a sequence of commands, taken in order.
pub open spec fn run(v: AppView, controls: Seq<Control>) -> AppView
    decreases controls.len(),
{
    if controls.len() == 0 {
        v
    } else {
        step(run(v, controls.drop_last()), controls.last())
    }
}

impl View for App {
    type V = AppView;

    open spec fn view(&self) -> AppView {
        AppView {
            should_exit: self.should_exit,
            bookmarks: self.bookmark_list.items(),
            bookmark_cursor: self.bookmark_list.cursor(),
            apps: self.app_list.items(),
            app_cursor: self.app_list.cursor(),
            input: self.input_str@,
            state: self.state,
            title: self.title@,
            status: self.status_message@,
            config: self.config_manager,
            router_mode: self.input_handler.mode(),
            router_overlay: self.input_handler.config_visible(),
        }
    }
}

impl App {
    /// The application at its start, with the lists it was given.
    pub fn new(bookmarks: Vec<Bookmark>, apps: Vec<LaunchableApp>, config: Config) -> (app: App)
        ensures
            app@ == initial(bookmarks@, apps@, config),
            app@.consistent(),
    {
        let mut app = App {
            should_exit: false,
            bookmark_list: EntryStore::new(bookmarks),
            app_list: EntryStore::new(apps),
            input_str: String::new(),
            state: AppState::Bookmarks,
            title: String::new(),
            status_message: StatusMessage::Nothing,
            input_handler: InputHandler::new(),
            config_manager: ConfigManager::new(config),
        };
        app.set_state(AppState::Bookmarks);
        app
    }

    /// Whether the exit command was given: the event loop ends when it was.
    pub fn should_exit(&self) -> (r: bool)
        ensures
            r == self@.should_exit,
    {
        self.should_exit
    }

    /// The bookmarks shown for the input line, in the order of the list.
    pub fn search_bookmarks(&self) -> (r: Vec<Bookmark>)
        ensures
            r@ == visible(self@.bookmarks, self@.input),
            self@.input.len() == 0 ==> r@.len() == 0,
    {
        self.bookmark_list.search(self.input_str.as_str())
    }

    /// The applications shown for the input line, in the order of the list.
    pub fn search_apps(&self) -> (r: Vec<LaunchableApp>)
        ensures
            r@ == visible(self@.apps, self@.input),
            self@.input.len() == 0 ==> r@.len() == 0,
    {
        self.app_list.search(self.input_str.as_str())
    }

    /// The address of the selected bookmark, if the cursor of the bookmark
    /// list points at a shown bookmark.
    pub fn open_bookmark(&self) -> (r: Option<String>)
        ensures
            match chosen(self@.bookmarks, self@.bookmark_cursor, self@.input) {
                Some(bookmark) => r matches Some(url) && url@ == bookmark.url@,
                None => r is None,
            },
    {
        match self.bookmark_list.selected_entry(self.input_str.as_str()) {
            Some(bookmark) => Some(bookmark.url),
            None => None,
        }
    }

    /// The selected application, if the cursor of the application list
    /// points at a shown application.
    pub fn launch_app(&self) -> (r: Option<LaunchableApp>)
        ensures
            r == chosen(self@.apps, self@.app_cursor, self@.input),
    {
        self.app_list.selected_entry(self.input_str.as_str())
    }

    /// Switches to `new_state`.
    pub fn set_state(&mut self, new_state: AppState)
        ensures
            final(self)@ == old(self)@.switched(new_state),
    {
        let count = match new_state {
            AppState::Bookmarks => self.bookmark_list.len(),
            AppState::Launcher => self.app_list.len(),
        };
        self.title = title_text(new_state);
        self.status_message = StatusMessage::Success(count_text(new_state, count));
        self.input_handler.set_mode(new_state);
        self.state = new_state;
        self.input_str.clear();
    }

    /// Empties the input line.
    pub fn clear_input(&mut self)
        ensures
            final(self)@ == step(old(self)@, Control::ClearInput),
    {
        self.input_str.clear();
    }

    /// Shows or hides the overlay, and tells the router.
    pub fn set_config_visible(&mut self, visible: bool)
        ensures
            final(self)@ == (AppView {
                config: ConfigManager { is_visible: visible, ..old(self)@.config },
                router_overlay: visible,
                ..old(self)@
            }),
    {
        self.config_manager.is_visible = visible;
        self.input_handler.set_config_visible(visible);
    }

    /// Takes what came of reading the clipboard: the text, or a description
    /// of the failure.
    pub fn paste_to_input(&mut self, clipboard: Result<String, String>)
        ensures
            final(self)@ == pasted(
                old(self)@,
                match clipboard {
                    Ok(text) => Ok(text@),
                    Err(why) => Err(why@),
                },
            ),
    {
        match clipboard {
            Ok(text) => {
                self.input_str.append(text.as_str());
            },
            Err(why) => {
                self.status_message = StatusMessage::Error(why);
            },
        }
    }

    /// Takes what came of opening an address or launching an application:
    /// success, or a description of the failure.
    pub fn finish(&mut self, outcome: Result<(), String>)
        ensures
            final(self)@ == finished(
                old(self)@,
                match outcome {
                    Ok(_) => Ok(()),
                    Err(why) => Err(why@),
                },
            ),
    {
        match outcome {
            Ok(_) => {},
            Err(why) => {
                self.status_message = StatusMessage::Error(why);
            },
        }
    }

    /// Carries out a command and returns what it asks of the outside world.
    pub fn dispatch(&mut self, control: Control) -> (effect: Effect)
        ensures
            final(self)@ == step(old(self)@, control),
            effect@ == effect_of(old(self)@, control),
            old(self)@.consistent() ==> final(self)@.consistent(),
    {
        match control {
            Control::Exit => {
                self.should_exit = true;
                Effect::Nothing
            },
            Control::AppendInput(c) => {
                self.input_str.push(c);
                Effect::Nothing
            },
            Control::DeleteChar => {
                self.input_str.pop();
                Effect::Nothing
            },
            Control::ClearInput => {
                self.clear_input();
                Effect::Nothing
            },
            Control::PasteInput => Effect::ReadClipboard,
            Control::SelectNext => {
                match self.state {
                    AppState::Bookmarks => self.bookmark_list.select_next(self.input_str.as_str()),
                    AppState::Launcher => self.app_list.select_next(self.input_str.as_str()),
                }
                Effect::Nothing
            },
            Control::SelectPrevious => {
                match self.state {
                    AppState::Bookmarks => self.bookmark_list.select_previous(
                        self.input_str.as_str(),
                    ),
                    AppState::Launcher => self.app_list.select_previous(self.input_str.as_str()),
                }
                Effect::Nothing
            },
            Control::Activate => match self.state {
                AppState::Bookmarks => match self.open_bookmark() {
                    Some(url) => Effect::OpenUrl(url),
                    None => Effect::Nothing,
                },
                AppState::Launcher => match self.launch_app() {
                    Some(app) => Effect::Launch(app),
                    None => Effect::Nothing,
                },
            },
            Control::SwitchMode(mode) => {
                self.set_state(mode);
                Effect::Nothing
            },
            Control::ToggleConfig => {
                let visible = !self.config_manager.is_visible;
                self.set_config_visible(visible);
                Effect::Nothing
            },
            Control::ConfigNext => {
                self.config_manager.next();
                Effect::Nothing
            },
            Control::ConfigPrevious => {
                self.config_manager.previous();
                Effect::Nothing
            },
            Control::Nothing => Effect::Nothing,
        }
    }

    /// Routes a key event and carries out the command it gives.
    pub fn handle_key(&mut self, key: KeyInput) -> (effect: Effect)
        ensures
            final(self)@ == step(
                old(self)@,
                command_for(old(self)@.router_mode, old(self)@.router_overlay, key),
            ),
            effect@ == effect_of(
                old(self)@,
                command_for(old(self)@.router_mode, old(self)@.router_overlay, key),
            ),
            old(self)@.consistent() ==> final(self)@.consistent(),
    {
        let control = self.input_handler.route(key);
        self.dispatch(control)
    }
}

/// After any sequence of at least one cursor command, the cursor of the
/// current list is absent or points at a shown entry.
pub proof fn lemma_cursor_in_range(v: AppView, controls: Seq<Control>)
    requires
        controls.len() > 0,
        forall|i: int|
            0 <= i < controls.len() ==> controls[i] == Control::SelectNext || controls[i]
                == Control::SelectPrevious,
    ensures
        in_range(run(v, controls).cursor(), run(v, controls).shown_count()),
        run(v, controls).shown_count() == v.shown_count(),
    decreases controls.len(),
{
    lemma_moves_keep_rest(v, controls.drop_last());
}

/// Cursor commands change nothing but the cursor of the current list.
pub proof fn lemma_moves_keep_rest(v: AppView, controls: Seq<Control>)
    requires
        forall|i: int|
            0 <= i < controls.len() ==> controls[i] == Control::SelectNext || controls[i]
                == Control::SelectPrevious,
    ensures
        run(v, controls) == run(v, controls).with_cursor(run(v, controls).cursor()),
        run(v, controls).with_cursor(v.cursor()) == v,
    decreases controls.len(),
{
    if controls.len() > 0 {
        lemma_moves_keep_rest(v, controls.drop_last());
    }
}

/// Moving the focus of the overlay forward and then back, or back and then
/// forward, leaves the whole state as it was.
pub proof fn lemma_focus_round_trip(v: AppView)
    ensures
        step(step(v, Control::ConfigNext), Control::ConfigPrevious) == v,
        step(step(v, Control::ConfigPrevious), Control::ConfigNext) == v,
{
}

/// While the overlay is visible, a key other than the exit key, the toggle
/// key and the four arrow keys changes nothing and asks nothing of the
/// outside world.
pub proof fn lemma_overlay_swallows_key(v: AppView, input: KeyInput)
    requires
        v.router_overlay,
        input.key != Key::Esc,
        input.key != Key::F(1),
        input.key != Key::Up,
        input.key != Key::Down,
        input.key != Key::Left,
        input.key != Key::Right,
    ensures
        command_for(v.router_mode, v.router_overlay, input) == Control::Nothing,
        step(v, command_for(v.router_mode, v.router_overlay, input)) == v,
        effect_of(v, command_for(v.router_mode, v.router_overlay, input)) == EffectView::Nothing,
{
}

/// A switch of mode clears the input line, so both lists then show nothing;
/// it keeps both cursors, and a switch back restores the mode.
pub proof fn lemma_switch_mode(v: AppView, mode: AppState)
    ensures
        step(v, Control::SwitchMode(mode)).state == mode,
        step(v, Control::SwitchMode(mode)).input.len() == 0,
        step(v, Control::SwitchMode(mode)).shown_count() == 0,
        step(v, Control::SwitchMode(mode)).bookmark_cursor == v.bookmark_cursor,
        step(v, Control::SwitchMode(mode)).app_cursor == v.app_cursor,
{
    lemma_empty_query_shows_nothing(v.bookmarks);
    lemma_empty_query_shows_nothing(v.apps);
    assert(step(v, Control::SwitchMode(mode)).input =~= Seq::<char>::empty());
}

/// With an empty input line the confirm command asks nothing of the outside
/// world and changes nothing, whatever the lists hold.
pub proof fn lemma_activate_on_empty_input(v: AppView)
    requires
        v.input.len() == 0,
    ensures
        effect_of(v, Control::Activate) == EffectView::Nothing,
        step(v, Control::Activate) == v,
{
    assert(v.input =~= Seq::<char>::empty());
    lemma_empty_query_shows_nothing(v.bookmarks);
    lemma_empty_query_shows_nothing(v.apps);
}

} // verus!
