use tui_image_viewer::app_state::{App, UiColor};
use tui_image_viewer::config::Config;
use tui_image_viewer::input::{format_hyperlink, validate_url, ClipboardManager, InputWidget};
use tui_image_viewer::screen::{Mode, Screen, ScreenKey};
use tui_image_viewer::table::{create_demo_table, Key, SelectComponent, SelectOption, SelectType};

#[test]
fn test_validate_url() {
    assert!(validate_url("https://example.com"));
    assert!(validate_url("http://example.com"));
    assert!(!validate_url("invalid-url"));
    assert!(!validate_url(""));
}

#[test]
fn test_input_widget_creation() {
    let widget = InputWidget::new();
    assert_eq!(widget.cursor_position, 0);
    assert!(!widget.focused);
}

#[test]
fn test_default_config() {
    let config = Config::default();
    assert_eq!(config.theme_index, 0);
    assert_eq!(config.default_tab, 0);
    assert_eq!(config.auto_save, true);
}

#[test]
fn test_table_creation() {
    let table = create_demo_table();
    assert_eq!(table.data.rows.len(), 6);
    assert_eq!(table.data.headers.len(), 4);
}

#[test]
fn test_navigation() {
    let mut table = create_demo_table();

    assert_eq!(table.selected_row, None);

    table.next_row();
    assert_eq!(table.selected_row, Some(0));

    table.next_row();
    assert_eq!(table.selected_row, Some(1));

    table.previous_row();
    assert_eq!(table.selected_row, Some(0));
}

#[test]
fn test_multi_selection() {
    let mut table = create_demo_table();
    table.selected_row = Some(0);

    table.multi_selection.push((0, 0));
    table.multi_selection.push((1, 1));

    assert_eq!(table.get_selection_count(), 2);

    table.multi_selection.clear();
    assert_eq!(table.get_selection_count(), 0);
}

#[test]
fn url_schemes_beyond_http_are_recognised() {
    assert!(validate_url("ftp://host/file"));
    assert!(validate_url("ftps://host/file"));
    assert!(validate_url("file:///tmp/x"));
    assert!(!validate_url("httpx://example.com"));
}

#[test]
fn hyperlinks_wrap_valid_urls_in_osc8_sequences() {
    let s = format_hyperlink("https://example.com", "Example");
    assert_eq!(s, "\x1b]8;;https://example.com\x1b\\Example\x1b]8;;\x1b\\");
    assert_eq!(format_hyperlink("not a url", "plain"), "plain");
}

#[test]
fn clipboard_keeps_a_bounded_deduplicated_history() {
    let mut clipboard = ClipboardManager::new();
    assert!(clipboard.copy("alpha").is_ok());
    assert!(clipboard.copy("alpha").is_ok()); // repeat of the newest entry
    assert!(clipboard.copy("").is_ok()); // empty text
    assert_eq!(clipboard.get_history().len(), 1);
    assert_eq!(clipboard.paste().unwrap(), "");
    for i in 0..12 {
        let text = format!("entry {}", i);
        clipboard.copy(&text).unwrap();
    }
    assert_eq!(clipboard.get_history().len(), 10);
    assert_eq!(clipboard.get_history()[0], "entry 2");
    assert_eq!(clipboard.get_history()[9], "entry 11");
    clipboard.clear_history();
    assert_eq!(clipboard.get_history().len(), 0);
    assert_eq!(clipboard.paste().unwrap(), "entry 11");
}

#[test]
fn input_widget_cursor_focus_and_clipboard_access() {
    let mut widget = InputWidget::new();
    widget.set_focus(true);
    assert!(widget.focused);
    widget.set_cursor_position(7);
    assert_eq!(widget.cursor_position(), 7);
    widget.clipboard_manager_mut().copy("text").unwrap();
    assert_eq!(widget.clipboard_manager().get_history().len(), 1);
}

#[test]
fn app_tabs_and_themes_wrap_around() {
    let mut app = App::new();
    app.next_tab();
    app.next_tab();
    assert_eq!(app.current_tab, 2);
    app.next_tab();
    assert_eq!(app.current_tab, 0);
    app.prev_tab();
    assert_eq!(app.current_tab, 2);
    for _ in 0..6 {
        app.next_theme();
    }
    assert_eq!(app.config.theme_index, 0);
    app.next_theme();
    assert_eq!(app.primary_color(), UiColor::Green);
    let (primary, secondary, accent) = app.theme_colors();
    assert_eq!(primary, UiColor::Green);
    assert_eq!(secondary, UiColor::LightGreen);
    assert_eq!(accent, UiColor::DarkGray);
}

#[test]
fn app_clipboard_history_is_newest_first_and_bounded() {
    let mut app = App::new();
    app.copy_to_clipboard("");
    assert_eq!(app.clipboard_history_len(), 0);
    app.copy_to_clipboard("one");
    app.copy_to_clipboard("two");
    assert_eq!(app.clipboard_history_len(), 2);
    assert_eq!(app.get_clipboard_history_item(0).unwrap(), "two");
    assert_eq!(app.get_clipboard_history_item(1).unwrap(), "one");
    assert!(app.get_clipboard_history_item(2).is_none());
    assert_eq!(app.paste_from_clipboard(), "two");
    for i in 0..60 {
        let text = format!("snippet {}", i);
        app.copy_to_clipboard(&text);
    }
    assert_eq!(app.clipboard_history_len(), 50);
    assert_eq!(app.get_clipboard_history_item(0).unwrap(), "snippet 59");
    app.quit();
    assert!(app.should_quit);
}

#[test]
fn empty_app_clipboard_pastes_empty_text() {
    let app = App::new();
    assert_eq!(app.paste_from_clipboard(), "");
}

#[test]
fn table_keys_move_selection_and_clear_multi_selection() {
    let mut table = create_demo_table();
    assert!(table.handle_key(Key::Down));
    assert!(table.handle_key(Key::Down));
    assert_eq!(table.selected_row, Some(1));
    assert!(table.handle_key(Key::Right));
    assert_eq!(table.selected_column, 1);
    assert!(table.handle_key(Key::Left));
    assert_eq!(table.selected_column, 0);
    assert!(table.handle_key(Key::Up));
    assert_eq!(table.selected_row, Some(0));
    assert!(!table.handle_key(Key::Char('x')));
    assert!(table.handle_key_with_shift(Key::Down, true));
    assert_eq!(table.get_selection_count(), 1);
    assert_eq!(table.get_selected_cells(), vec![(0, 0)]);
    assert!(table.handle_key(Key::Char('c')));
    assert_eq!(table.get_selection_count(), 0);
}

#[test]
fn table_navigation_wraps_at_the_edges() {
    let mut table = create_demo_table();
    table.previous_row();
    assert_eq!(table.selected_row, Some(0));
    table.previous_row();
    assert_eq!(table.selected_row, Some(5));
    table.next_row();
    assert_eq!(table.selected_row, Some(0));
    table.previous_column();
    assert_eq!(table.selected_column, 3);
    table.next_column();
    assert_eq!(table.selected_column, 0);
}

#[test]
fn select_component_navigates_and_chooses() {
    let options = vec![
        SelectOption::new("First", "first"),
        SelectOption::disabled("Second", "second"),
        SelectOption::new("Third", "third"),
    ];
    let mut select = SelectComponent::new("Pick one", options, SelectType::Dropdown);
    assert_eq!(select.selected_index, 0);
    select.previous();
    assert_eq!(select.selected_index, 2);
    select.next();
    assert_eq!(select.selected_index, 0);
    select.toggle_open();
    assert!(select.is_open);
    select.select_current();
    assert_eq!(select.selected_values, vec!["first".to_string()]);
    assert!(!select.is_open);
    assert_eq!(select.get_selected_labels(), vec!["First".to_string()]);
    select.next();
    select.select_current(); // the disabled option changes nothing
    assert_eq!(select.selected_values, vec!["first".to_string()]);
}

#[test]
fn checkbox_group_toggles_values() {
    let options = vec![SelectOption::new("A", "a"), SelectOption::new("B", "b")];
    let mut select = SelectComponent::new("Pick many", options, SelectType::CheckboxGroup);
    select.toggle_open();
    select.select_current();
    assert!(select.is_open); // checkboxes never close the list
    select.next();
    select.select_current();
    assert_eq!(select.selected_values, vec!["a".to_string(), "b".to_string()]);
    select.previous();
    select.select_current();
    assert_eq!(select.selected_values, vec!["b".to_string()]);
}

#[test]
fn current_theme_reads_the_theme_table() {
    let config = Config::default();
    assert_eq!(config.current_theme().name, "Default");
    assert_eq!(config.themes[1].name, "Solarized");
    assert_eq!(config.themes.len(), 2);
}

#[test]
fn screen_modes_switch_and_quit_reports() {
    let mut screen = Screen::new();
    assert_eq!(screen.mode, Mode::Table);
    screen.on_key(ScreenKey::Char('2'), false);
    assert_eq!(screen.mode, Mode::Image);
    screen.on_key(ScreenKey::Char('4'), false);
    assert_eq!(screen.mode, Mode::Form);
    screen.on_key(ScreenKey::Enter, false);
    assert_eq!(screen.status, "Launching interactive form...");
    screen.on_key(ScreenKey::Char('q'), false);
    assert_eq!(screen.status, "quit");
}

#[test]
fn input_screen_edits_the_line() {
    let mut screen = Screen::new();
    screen.on_key(ScreenKey::Char('3'), false);
    assert_eq!(screen.mode, Mode::Input);
    screen.on_key(ScreenKey::Char('h'), false);
    screen.on_key(ScreenKey::Char('i'), false);
    assert_eq!(screen.input, "hi");
    screen.on_key(ScreenKey::Backspace, false);
    assert_eq!(screen.input, "h");
    screen.on_key(ScreenKey::Char('v'), true);
    assert_eq!(screen.input, "hClipboard content");
    assert_eq!(screen.status, "Pasted from clipboard!");
    screen.on_key(ScreenKey::Char('e'), false);
    assert!(screen.input.ends_with("😀"));
    assert_eq!(screen.emoji_index, 1);
    screen.on_key(ScreenKey::Char('l'), false);
    assert_eq!(screen.status, "Attempted to open link: https://ratatui.rs");
    screen.on_key(ScreenKey::Char('c'), true);
    assert_eq!(screen.status, "Copied to clipboard!");
}

#[test]
fn digit_three_is_typed_on_the_input_screen() {
    let mut screen = Screen::new();
    screen.on_key(ScreenKey::Char('3'), false);
    assert_eq!(screen.mode, Mode::Input);
    screen.on_key(ScreenKey::Char('3'), false);
    assert_eq!(screen.input, "3");
    assert_eq!(screen.mode, Mode::Input);
}
