use hhand::app::{App, Effect};
use hhand::bookmarks::{Bookmark, Browser};
use hhand::config::Config;
use hhand::input::{AppState, Control, InputHandler, Key, KeyInput};
use hhand::launcher::LaunchableApp;
use hhand::overlay::{ConfigElement, ConfigManager};
use hhand::status::{count_text, mode_hint_text, mode_label_text, title_text, StatusMessage};

fn sample() -> App {
    App::new(
        vec![Bookmark::new("Rust Blog", "https://a"), Bookmark::new("Go Weekly", "https://b")],
        vec![LaunchableApp::new("Files", "nautilus %U"), LaunchableApp::new("Firefox", "firefox")],
        Config::default(),
    )
}

fn press(key: Key) -> KeyInput {
    KeyInput { key, pressed: true, control: false }
}

fn type_text(app: &mut App, text: &str) {
    for c in text.chars() {
        assert_eq!(app.dispatch(Control::AppendInput(c)), Effect::Nothing);
    }
}

#[test]
fn starts_in_bookmarks_mode_with_overlay_hidden() {
    let app = sample();
    assert_eq!(app.state, AppState::Bookmarks);
    assert!(!app.should_exit());
    assert!(!app.config_manager.is_visible);
    assert_eq!(app.config_manager.active_element, ConfigElement::Browser);
    assert_eq!(app.config_manager.config.browser, Browser::Firefox);
    assert_eq!(app.input_str, "");
    assert_eq!(app.title, "Search for bookmark");
    assert_eq!(app.status_message, StatusMessage::Success("Loaded 2 bookmarks".to_string()));
    assert_eq!(app.bookmark_list.selected(), None);
    assert_eq!(app.app_list.selected(), None);
}

#[test]
fn activate_opens_the_selected_bookmark() {
    let mut app = sample();
    type_text(&mut app, "ru");
    assert_eq!(app.search_bookmarks(), vec![Bookmark::new("Rust Blog", "https://a")]);
    app.bookmark_list.select(Some(0));
    assert_eq!(app.dispatch(Control::Activate), Effect::OpenUrl("https://a".to_string()));
    assert_eq!(app.input_str, "ru");
    assert_eq!(app.status_message, StatusMessage::Success("Loaded 2 bookmarks".to_string()));
}

#[test]
fn empty_input_shows_nothing_and_activate_does_nothing() {
    let mut app = sample();
    assert_eq!(app.search_bookmarks(), vec![]);
    assert_eq!(app.search_apps(), vec![]);
    app.bookmark_list.select(Some(0));
    assert_eq!(app.dispatch(Control::Activate), Effect::Nothing);
    assert_eq!(app.dispatch(Control::SwitchMode(AppState::Launcher)), Effect::Nothing);
    app.app_list.select(Some(0));
    assert_eq!(app.dispatch(Control::Activate), Effect::Nothing);
}

#[test]
fn switch_mode_clears_input_and_reports_app_count() {
    let mut app = sample();
    type_text(&mut app, "foo");
    assert_eq!(app.input_str, "foo");
    assert_eq!(app.dispatch(Control::SwitchMode(AppState::Launcher)), Effect::Nothing);
    assert_eq!(app.input_str, "");
    assert_eq!(app.state, AppState::Launcher);
    assert_eq!(app.title, "Launch app");
    assert_eq!(app.status_message, StatusMessage::Success("Located 2 apps".to_string()));
}

#[test]
fn clipboard_failure_is_reported() {
    let mut app = sample();
    type_text(&mut app, "go");
    assert_eq!(app.dispatch(Control::PasteInput), Effect::ReadClipboard);
    app.paste_to_input(Err("clipboard is not available".to_string()));
    assert_eq!(app.input_str, "go");
    assert_eq!(
        app.status_message,
        StatusMessage::Error("clipboard is not available".to_string())
    );
}

#[test]
fn overlay_swallows_other_keys() {
    let mut app = sample();
    type_text(&mut app, "ru");
    assert_eq!(app.handle_key(press(Key::F(1))), Effect::Nothing);
    assert!(app.config_manager.is_visible);
    for key in [
        Key::PageUp,
        Key::PageDown,
        Key::Enter,
        Key::Backspace,
        Key::Delete,
        Key::Char('x'),
        Key::F(2),
        Key::Other,
    ] {
        let mut handler = InputHandler::new();
        handler.set_config_visible(true);
        assert_eq!(handler.route(press(key)), Control::Nothing);
        assert_eq!(app.handle_key(press(key)), Effect::Nothing);
        assert_eq!(app.input_str, "ru");
        assert_eq!(app.state, AppState::Bookmarks);
        assert!(app.config_manager.is_visible);
        assert_eq!(app.config_manager.active_element, ConfigElement::Browser);
        assert_eq!(app.bookmark_list.selected(), None);
        assert!(!app.should_exit());
    }
}

#[test]
fn overlay_arrows_move_the_focus() {
    let mut handler = InputHandler::new();
    handler.set_config_visible(true);
    assert_eq!(handler.route(press(Key::Down)), Control::ConfigNext);
    assert_eq!(handler.route(press(Key::Right)), Control::ConfigNext);
    assert_eq!(handler.route(press(Key::Up)), Control::ConfigPrevious);
    assert_eq!(handler.route(press(Key::Left)), Control::ConfigPrevious);
    assert_eq!(handler.route(press(Key::Esc)), Control::Exit);
    assert_eq!(handler.route(press(Key::F(1))), Control::ToggleConfig);
}

#[test]
fn list_keys_route_by_mode() {
    let mut handler = InputHandler::new();
    assert_eq!(handler.route(press(Key::PageDown)), Control::SwitchMode(AppState::Launcher));
    assert_eq!(handler.route(press(Key::PageUp)), Control::SwitchMode(AppState::Launcher));
    assert_eq!(handler.route(press(Key::Down)), Control::SelectNext);
    assert_eq!(handler.route(press(Key::Up)), Control::SelectPrevious);
    assert_eq!(handler.route(press(Key::Backspace)), Control::DeleteChar);
    assert_eq!(handler.route(press(Key::Delete)), Control::ClearInput);
    assert_eq!(handler.route(press(Key::Enter)), Control::Activate);
    assert_eq!(handler.route(press(Key::Char('q'))), Control::AppendInput('q'));
    assert_eq!(handler.route(press(Key::Left)), Control::Nothing);
    assert_eq!(handler.route(press(Key::Right)), Control::Nothing);
    assert_eq!(handler.route(press(Key::Other)), Control::Nothing);
    assert_eq!(handler.route(press(Key::Esc)), Control::Exit);
    assert_eq!(handler.route(press(Key::F(1))), Control::ToggleConfig);
    handler.set_mode(AppState::Launcher);
    assert_eq!(handler.route(press(Key::PageDown)), Control::SwitchMode(AppState::Bookmarks));
    assert_eq!(handler.route(press(Key::PageUp)), Control::SwitchMode(AppState::Bookmarks));
    assert_eq!(handler.route(press(Key::Enter)), Control::Activate);
}

#[test]
fn control_modifier_turns_a_character_into_paste() {
    let handler = InputHandler::new();
    let key = KeyInput { key: Key::Char('v'), pressed: true, control: true };
    assert_eq!(handler.route(key), Control::PasteInput);
}

#[test]
fn released_keys_give_no_command() {
    let handler = InputHandler::new();
    for key in [Key::Esc, Key::F(1), Key::Enter, Key::Char('a')] {
        let input = KeyInput { key, pressed: false, control: false };
        assert_eq!(handler.route(input), Control::Nothing);
    }
}

#[test]
fn exit_sets_the_flag() {
    let mut app = sample();
    assert_eq!(app.handle_key(press(Key::Esc)), Effect::Nothing);
    assert!(app.should_exit());
}

#[test]
fn input_editing() {
    let mut app = sample();
    assert_eq!(app.dispatch(Control::DeleteChar), Effect::Nothing);
    assert_eq!(app.input_str, "");
    type_text(&mut app, "abc");
    assert_eq!(app.dispatch(Control::DeleteChar), Effect::Nothing);
    assert_eq!(app.input_str, "ab");
    assert_eq!(app.dispatch(Control::ClearInput), Effect::Nothing);
    assert_eq!(app.input_str, "");
    assert_eq!(app.dispatch(Control::Nothing), Effect::Nothing);
    assert_eq!(app.input_str, "");
}

#[test]
fn paste_appends_clipboard_text() {
    let mut app = sample();
    type_text(&mut app, "ru");
    app.paste_to_input(Ok("st".to_string()));
    assert_eq!(app.input_str, "rust");
    assert_eq!(app.status_message, StatusMessage::Success("Loaded 2 bookmarks".to_string()));
}

#[test]
fn capability_failure_is_reported_and_success_is_silent() {
    let mut app = sample();
    app.finish(Ok(()));
    assert_eq!(app.status_message, StatusMessage::Success("Loaded 2 bookmarks".to_string()));
    app.finish(Err("no browser".to_string()));
    assert_eq!(app.status_message, StatusMessage::Error("no browser".to_string()));
    assert!(!app.should_exit());
}

#[test]
fn selection_wraps_over_the_filtered_view() {
    let mut app = sample();
    type_text(&mut app, "o");
    assert_eq!(app.search_bookmarks().len(), 2);
    assert_eq!(app.dispatch(Control::SelectNext), Effect::Nothing);
    assert_eq!(app.bookmark_list.selected(), Some(0));
    app.dispatch(Control::SelectNext);
    assert_eq!(app.bookmark_list.selected(), Some(1));
    app.dispatch(Control::SelectNext);
    assert_eq!(app.bookmark_list.selected(), Some(0));
    app.dispatch(Control::SelectPrevious);
    assert_eq!(app.bookmark_list.selected(), Some(1));
    app.dispatch(Control::SelectPrevious);
    assert_eq!(app.bookmark_list.selected(), Some(0));
    assert_eq!(app.app_list.selected(), None);
}

#[test]
fn selection_stays_in_range_after_any_moves() {
    let mut app = sample();
    type_text(&mut app, "o");
    let moves = [
        Control::SelectPrevious,
        Control::SelectPrevious,
        Control::SelectNext,
        Control::SelectPrevious,
        Control::SelectNext,
        Control::SelectNext,
        Control::SelectNext,
    ];
    for control in moves {
        app.dispatch(control);
        let count = app.search_bookmarks().len();
        match app.bookmark_list.selected() {
            Some(i) => assert!(i < count),
            None => assert_eq!(count, 0),
        }
    }
}

#[test]
fn selection_on_an_empty_view_is_absent() {
    let mut app = sample();
    app.bookmark_list.select(Some(1));
    app.dispatch(Control::SelectNext);
    assert_eq!(app.bookmark_list.selected(), None);
    app.dispatch(Control::SelectPrevious);
    assert_eq!(app.bookmark_list.selected(), None);
}

#[test]
fn stale_selection_counts_as_none() {
    let mut app = sample();
    type_text(&mut app, "ru");
    app.bookmark_list.select(Some(5));
    assert_eq!(app.bookmark_list.selected_index("ru"), None);
    assert_eq!(app.open_bookmark(), None);
    assert_eq!(app.dispatch(Control::Activate), Effect::Nothing);
    app.dispatch(Control::SelectNext);
    assert_eq!(app.bookmark_list.selected(), Some(0));
    app.bookmark_list.select(Some(5));
    app.dispatch(Control::SelectPrevious);
    assert_eq!(app.bookmark_list.selected(), Some(0));
}

#[test]
fn switching_modes_keeps_both_cursors() {
    let mut app = sample();
    type_text(&mut app, "o");
    app.dispatch(Control::SelectNext);
    app.dispatch(Control::SelectNext);
    assert_eq!(app.bookmark_list.selected(), Some(1));
    app.dispatch(Control::SwitchMode(AppState::Launcher));
    assert_eq!(app.bookmark_list.selected(), Some(1));
    type_text(&mut app, "fi");
    app.dispatch(Control::SelectNext);
    assert_eq!(app.app_list.selected(), Some(0));
    app.dispatch(Control::SwitchMode(AppState::Bookmarks));
    assert_eq!(app.bookmark_list.selected(), Some(1));
    assert_eq!(app.app_list.selected(), Some(0));
    assert_eq!(app.status_message, StatusMessage::Success("Loaded 2 bookmarks".to_string()));
}

#[test]
fn activate_in_launcher_mode_asks_for_a_launch() {
    let mut app = sample();
    app.handle_key(press(Key::PageDown));
    type_text(&mut app, "fire");
    app.handle_key(press(Key::Down));
    assert_eq!(
        app.handle_key(press(Key::Enter)),
        Effect::Launch(LaunchableApp::new("Firefox", "firefox"))
    );
    assert_eq!(app.launch_app(), Some(LaunchableApp::new("Firefox", "firefox")));
}

#[test]
fn toggle_config_flips_visibility_and_keeps_mode() {
    let mut app = sample();
    app.dispatch(Control::SwitchMode(AppState::Launcher));
    assert_eq!(app.dispatch(Control::ToggleConfig), Effect::Nothing);
    assert!(app.config_manager.is_visible);
    assert_eq!(app.state, AppState::Launcher);
    assert_eq!(app.handle_key(press(Key::Down)), Effect::Nothing);
    assert_eq!(app.config_manager.active_element, ConfigElement::Confirm);
    assert_eq!(app.app_list.selected(), None);
    app.dispatch(Control::ToggleConfig);
    assert!(!app.config_manager.is_visible);
    assert_eq!(app.state, AppState::Launcher);
}

#[test]
fn config_focus_cycles_both_ways() {
    let mut manager = ConfigManager::new(Config { browser: Browser::Chrome });
    assert!(!manager.is_visible);
    assert_eq!(manager.active_element, ConfigElement::Browser);
    manager.next();
    assert_eq!(manager.active_element, ConfigElement::Confirm);
    manager.next();
    assert_eq!(manager.active_element, ConfigElement::Cancel);
    manager.next();
    assert_eq!(manager.active_element, ConfigElement::Browser);
    manager.previous();
    assert_eq!(manager.active_element, ConfigElement::Cancel);
    manager.previous();
    assert_eq!(manager.active_element, ConfigElement::Confirm);
    manager.previous();
    assert_eq!(manager.active_element, ConfigElement::Browser);
    assert_eq!(manager.config.browser, Browser::Chrome);
}

#[test]
fn config_next_and_previous_are_inverses() {
    for start in [ConfigElement::Browser, ConfigElement::Confirm, ConfigElement::Cancel] {
        let mut manager = ConfigManager::new(Config::default());
        manager.active_element = start;
        manager.next();
        manager.previous();
        assert_eq!(manager.active_element, start);
        manager.previous();
        manager.next();
        assert_eq!(manager.active_element, start);
    }
}

#[test]
fn status_counts_are_decimal() {
    let many: Vec<Bookmark> = (0..1205).map(|_| Bookmark::new("x", "y")).collect();
    let app = App::new(many, vec![], Config::default());
    assert_eq!(app.status_message, StatusMessage::Success("Loaded 1205 bookmarks".to_string()));
    let mut empty = App::new(vec![], vec![], Config::default());
    assert_eq!(empty.status_message, StatusMessage::Success("Loaded 0 bookmarks".to_string()));
    empty.set_state(AppState::Launcher);
    assert_eq!(empty.status_message, StatusMessage::Success("Located 0 apps".to_string()));
}

#[test]
fn status_line_text() {
    assert_eq!(StatusMessage::Nothing.text(), "OK");
    assert_eq!(StatusMessage::Success("Loaded 3 bookmarks".to_string()).text(), "Loaded 3 bookmarks");
    assert_eq!(StatusMessage::Error("no clipboard".to_string()).text(), "no clipboard");
    assert!(StatusMessage::Error(String::new()).is_error());
    assert!(!StatusMessage::Success(String::new()).is_error());
    assert!(!StatusMessage::Nothing.is_error());
}

#[test]
fn texts_by_mode() {
    assert_eq!(title_text(AppState::Bookmarks), "Search for bookmark");
    assert_eq!(title_text(AppState::Launcher), "Launch app");
    assert_eq!(count_text(AppState::Bookmarks, 12), "Loaded 12 bookmarks");
    assert_eq!(count_text(AppState::Launcher, 340), "Located 340 apps");
    assert_eq!(mode_label_text(AppState::Bookmarks), "Search mode");
    assert_eq!(mode_label_text(AppState::Launcher), "Launcher mode");
    assert_eq!(
        mode_hint_text(AppState::Bookmarks),
        "(ESC) exit / (PgUp)/(PgDwn) switch mode / \u{2191}\u{2193} select bookmark / (ENTER) open bookmark"
    );
    assert_eq!(
        mode_hint_text(AppState::Launcher),
        "(ESC) exit / (PgUp)/(PgDwn) switch mode / \u{2191}\u{2193} select item / (ENTER) launch"
    );
}

#[test]
fn events_that_are_no_key_events_give_no_command() {
    let mut handler = InputHandler::new();
    assert_eq!(handler.route_event(None), Control::Nothing);
    assert_eq!(handler.route_event(Some(press(Key::Enter))), Control::Activate);
    assert_eq!(handler.route_event(Some(press(Key::Esc))), Control::Exit);
    handler.set_config_visible(true);
    assert_eq!(handler.route_event(None), Control::Nothing);
    assert_eq!(handler.route_event(Some(press(Key::Down))), Control::ConfigNext);
    handler.set_mode(AppState::Launcher);
    assert_eq!(handler.route_event(None), Control::Nothing);
}
