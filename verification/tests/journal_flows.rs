use tui_image_viewer::decimal::u64_to_string;
use tui_image_viewer::form::{App as FormApp, InputField, InputMode};
use tui_image_viewer::table::Key;
use tui_image_viewer::journal::{validate_email as validate_email_loose, Clipboard};
use tui_image_viewer::journal_enhanced::{
    create_getting_started_content, create_welcome_email_content, interpret_yes_no, parse_command,
    validate_email as validate_email_strict, Command, YesNoDecision,
};

#[test]
fn journal_cli_test_email_validation() {
    assert!(validate_email_loose("test@example.com"));
    assert!(validate_email_loose("user@domain.org"));
    assert!(!validate_email_loose("invalid-email"));
    assert!(!validate_email_loose("@domain.com"));
    assert!(!validate_email_loose("user@"));
}

#[test]
fn journal_cli_enhanced_test_email_validation() {
    assert!(validate_email_strict("test@example.com"));
    assert!(validate_email_strict("user.name@domain.org"));
    assert!(validate_email_strict("user+tag@domain.co.uk"));
    assert!(!validate_email_strict("invalid-email"));
    assert!(!validate_email_strict("@domain.com"));
    assert!(!validate_email_strict("user@"));
    assert!(!validate_email_strict("user@domain"));
}

#[test]
fn test_command_parsing() {
    assert!(true);
}

#[test]
fn command_line_words_map_to_commands() {
    let args =
        |rest: &[&str]| -> Vec<String> {
            let mut v = vec!["journal".to_string()];
            v.extend(rest.iter().map(|s| s.to_string()));
            v
        };
    let r = parse_command(&args(&["authenticate", "login"]));
    assert_eq!(r.command, Command::Authenticate);
    assert!(!r.show_usage);
    for word in ["help", "--help", "-h"] {
        let r = parse_command(&args(&[word]));
        assert_eq!(r.command, Command::Help);
        assert!(!r.show_usage);
    }
    for word in ["version", "--version", "-v"] {
        let r = parse_command(&args(&[word]));
        assert_eq!(r.command, Command::Version);
        assert!(!r.show_usage);
    }
    let r = parse_command(&args(&["authenticate"]));
    assert_eq!(r.command, Command::Authenticate);
    assert!(r.show_usage);
    let r = parse_command(&args(&[]));
    assert!(r.show_usage);
}

#[test]
fn yes_no_prompt_reads_trimmed_lowercased_answers() {
    assert_eq!(interpret_yes_no("y"), YesNoDecision::Yes);
    assert_eq!(interpret_yes_no("  YES \n"), YesNoDecision::Yes);
    assert_eq!(interpret_yes_no(""), YesNoDecision::Yes);
    assert_eq!(interpret_yes_no("   "), YesNoDecision::Yes);
    assert_eq!(interpret_yes_no("n"), YesNoDecision::No);
    assert_eq!(interpret_yes_no("No"), YesNoDecision::No);
    assert_eq!(interpret_yes_no("maybe"), YesNoDecision::Invalid);
}

#[test]
fn stand_in_clipboard_reports_fixed_content() {
    let clipboard = Clipboard::new();
    clipboard.set_text("anything".to_string());
    assert_eq!(clipboard.get_text().unwrap(), "Clipboard content");
}

#[test]
fn email_templates_carry_the_account_details() {
    let welcome = create_welcome_email_content("Ada", "ada@example.com");
    assert!(welcome.starts_with("<!DOCTYPE html>"));
    assert!(welcome.contains("<h2>Hello Ada!</h2>"));
    assert!(welcome.contains("Your account (ada@example.com) is now active"));
    assert!(welcome.ends_with("</html>"));
    let guide = create_getting_started_content("Ada");
    assert!(guide.contains("<h2>Hi Ada!</h2>"));
    assert!(guide.contains("Pro Tip #1"));
}

#[test]
fn numbers_render_in_decimal() {
    assert_eq!(u64_to_string(0), "0");
    assert_eq!(u64_to_string(7), "7");
    assert_eq!(u64_to_string(10), "10");
    assert_eq!(u64_to_string(30457), "30457");
    assert_eq!(u64_to_string(u64::MAX), "18446744073709551615");
}

#[test]
fn form_name_validation_gives_feedback_once() {
    let mut form = FormApp::default();
    form.name = "  A ".to_string();
    form.validate_name();
    assert!(!form.name_valid);
    assert_eq!(form.history.front().unwrap(), "Welcome to Vue.js-style TUI");
    form.name = "Ada Lovelace".to_string();
    form.validate_name();
    assert!(form.name_valid);
    assert_eq!(form.history.front().unwrap(), "✓ Name is valid");
}

#[test]
fn form_email_validation_complains_with_the_first_problem() {
    let mut form = FormApp::default();
    form.email = "".to_string();
    form.validate_email();
    assert!(!form.email_valid);
    assert_eq!(form.history.len(), 2); // empty input earns no complaint

    form.email = "no-at-sign".to_string();
    form.validate_email();
    assert!(!form.email_valid);
    assert_eq!(form.history.front().unwrap(), "✗ Email: Missing @ symbol");

    // The same complaint is not repeated while it is the newest entry.
    form.validate_email();
    assert_eq!(
        form.history.iter().filter(|h| h.contains("Missing @ symbol")).count(),
        1
    );

    form.email = "a@b".to_string();
    form.validate_email();
    assert_eq!(
        form.history.front().unwrap(),
        "✗ Email: Missing domain (.com, .org, etc.)"
    );

    form.email = "@b.co".to_string();
    form.validate_email();
    assert_eq!(form.history.front().unwrap(), "✗ Email: Cannot start with @");

    form.email = "a@b.co.".to_string();
    form.validate_email();
    assert_eq!(form.history.front().unwrap(), "✗ Email: Cannot end with .");

    form.email = "a@@b.co".to_string();
    form.validate_email();
    assert_eq!(form.history.front().unwrap(), "✗ Email: Too many @ symbols");

    form.email = "a@.co".to_string();
    form.validate_email();
    assert_eq!(form.history.front().unwrap(), "✗ Email: Invalid email format");

    form.email = "ada@example.com".to_string();
    form.validate_email();
    assert!(form.email_valid);
}

#[test]
fn form_command_history_scrolls_and_restores_the_live_input() {
    let mut form = FormApp::default();
    form.active_field = InputField::Name;
    form.add_to_command_history("first".to_string());
    form.add_to_command_history("second".to_string());
    form.add_to_command_history("   ".to_string()); // invisible: not kept
    form.add_to_command_history("second".to_string()); // duplicate: not kept
    assert_eq!(form.command_history.len(), 2);
    assert_eq!(form.command_history.front().unwrap(), "second");

    form.name = "draft".to_string();
    assert!(form.scroll_command_history(1));
    assert_eq!(form.history_index, Some(0));
    assert_eq!(form.name, "second");
    assert!(form.scroll_command_history(1));
    assert_eq!(form.name, "first");
    assert!(!form.scroll_command_history(1)); // already at the oldest
    assert!(form.scroll_command_history(-1));
    assert!(form.scroll_command_history(-1));
    assert_eq!(form.history_index, None);
    assert_eq!(form.name, "draft"); // the live input comes back
}

#[test]
fn form_generation_progress_and_completion() {
    let mut form = FormApp::default();
    form.start_campaign_generation(10_000);
    assert_eq!(form.input_mode, InputMode::Generating);
    assert!(form.show_loading);
    assert!(!form.update_loading(10_600));
    assert_eq!(form.loading_progress, 20);
    let write_files = form.update_loading(13_000);
    assert!(write_files);
    assert_eq!(form.loading_progress, 100);
    assert!(!form.show_loading);
    assert!(form.campaign_generated);
    assert_eq!(form.input_mode, InputMode::Navigation);
    assert_eq!(
        form.history.front().unwrap(),
        "✓ Campaign files generated successfully!"
    );
}

#[test]
fn form_table_selection_moves_and_highlights_ranges() {
    let mut form = FormApp::default();
    form.move_table_selection(Key::Down, false);
    assert_eq!(form.selected_table_row, 1);
    assert_eq!(form.highlighted_rows, vec![1]);
    assert_eq!(form.highlighted_cols, vec![0]);
    form.move_table_selection(Key::Down, true);
    assert_eq!(form.selected_table_row, 2);
    assert!(form.highlighted_rows.contains(&1));
    assert!(form.highlighted_rows.contains(&2));
    assert_eq!(form.history.front().unwrap(), "Selected rows 1-2");
    form.move_table_selection(Key::Right, true);
    assert_eq!(form.selected_table_col, 1);
    assert_eq!(form.history.front().unwrap(), "Selected columns 0-1");
    form.move_table_selection(Key::Up, false);
    assert_eq!(form.selected_table_row, 1);
    assert_eq!(form.highlighted_rows, vec![1]);
    form.move_table_selection(Key::Char('q'), false);
    assert_eq!(form.selected_table_row, 1);
}
