use cliclack::lines_vec;
use cliclack::max_line_len;
use cliclack::repeat_str;
use cliclack::reset_theme;
use cliclack::split_lines;
use cliclack::KeyEvent;
use cliclack::Password;
use cliclack::PromptInteraction;
use cliclack::State;
use cliclack::StringCursor;
use cliclack::Styling;
use cliclack::ThemeState;

#[test]
fn text_helpers() {
    assert_eq!(repeat_str("ab", 3), "ababab");
    assert_eq!(repeat_str("x", 0), "");
    assert_eq!(split_lines("a\nb"), vec!["a", "b"]);
    assert_eq!(split_lines("a\nb\n"), vec!["a", "b", ""]);
    assert_eq!(split_lines(""), vec![""]);
    assert_eq!(lines_vec("a\nb\n"), vec!["a", "b"]);
    assert_eq!(lines_vec("a\nb"), vec!["a", "b"]);
    assert_eq!(lines_vec(""), Vec::<String>::new());
    assert_eq!(lines_vec("\n\n"), vec!["", ""]);
    assert_eq!(max_line_len(&vec!["ab".to_string(), "wide".to_string(), "".to_string()]), 4);
}

#[test]
fn theme_state_from_interaction_state() {
    assert_eq!(ThemeState::from_state(&State::<String>::Active), ThemeState::Active);
    assert_eq!(ThemeState::from_state(&State::<String>::Cancel), ThemeState::Cancel);
    assert_eq!(ThemeState::from_state(&State::Submit("v".to_string())), ThemeState::Submit);
    assert_eq!(
        ThemeState::from_state(&State::<String>::Error("m".to_string())),
        ThemeState::Error("m".to_string())
    );
}

#[test]
fn state_symbols() {
    let t = reset_theme();
    assert_eq!(t.state_symbol(&ThemeState::Active), "\u{25c6}");
    assert_eq!(t.state_symbol(&ThemeState::Cancel), "\u{25a0}");
    assert_eq!(t.state_symbol(&ThemeState::Submit), "\u{25c7}");
    assert_eq!(t.state_symbol(&ThemeState::Error("e".to_string())), "\u{25b2}");
}

#[test]
fn stylings_select_by_state() {
    let mut t = reset_theme();
    t.cyan = Styling::new("<c>", "</c>");
    t.green = Styling::new("<g>", "</g>");
    t.grey = Styling::new("<k>", "</k>");
    t.red = Styling::new("<r>", "</r>");
    t.yellow = Styling::new("<y>", "</y>");
    assert_eq!(t.format_header(&ThemeState::Active, "Q"), "<c>\u{25c6}</c>  Q\n");
    assert_eq!(t.state_symbol(&ThemeState::Submit), "<g>\u{25c7}</g>");
    assert_eq!(t.format_footer(&ThemeState::Submit), "<k>\u{2502}</k>\n");
    assert_eq!(
        t.format_footer(&ThemeState::Cancel),
        "<r>\u{2514}  Operation cancelled.</r>\n"
    );
    assert_eq!(
        t.format_footer(&ThemeState::Error("oops".to_string())),
        "<y>\u{2514}  oops</y>\n"
    );
}

#[test]
fn intro_and_outro_frames() {
    let t = reset_theme();
    assert_eq!(t.format_intro("hi"), "\u{250c}  hi\n\u{2502}\n");
    assert_eq!(t.format_outro("done"), "\u{2514}  done\n");
    assert_eq!(t.format_outro_cancel("bad"), "\u{2514}  bad\n");
}

#[test]
fn input_and_placeholder_lines() {
    let t = reset_theme();
    let mut c = StringCursor::new();
    c.insert('a');
    c.insert('b');
    assert_eq!(t.format_input(&ThemeState::Active, &c), "\u{2502}  ab\n");
    assert_eq!(t.format_input(&ThemeState::Submit, &c), "\u{2502}  ab\n");
    assert_eq!(t.format_placeholder(&ThemeState::Cancel, &c), "\u{2502}  \n");
    assert_eq!(t.format_placeholder(&ThemeState::Active, &c), "\u{2502}  ab\n");
    assert_eq!(t.format_password(&ThemeState::Active, &c, "*"), "\u{2502}  **\n");
    assert_eq!(t.format_password(&ThemeState::Active, &c, "<>"), "\u{2502}  <><>\n");
}

#[test]
fn caret_is_marked_through_the_reverse_styling() {
    let mut t = reset_theme();
    t.reverse = Styling::new("[", "]");
    let mut c = StringCursor::new();
    c.insert('a');
    assert_eq!(t.format_input(&ThemeState::Active, &c), "\u{2502}  a[]\n");
    // Once submitted the caret disappears.
    assert_eq!(t.format_input(&ThemeState::Submit, &c), "\u{2502}  a\n");
}

#[test]
fn radio_items() {
    let t = reset_theme();
    assert_eq!(
        t.radio_item(&ThemeState::Active, true, "Yes", "hint"),
        "\u{25cf} Yes (hint)"
    );
    assert_eq!(t.radio_item(&ThemeState::Active, false, "No", "hint"), "\u{25cb} No ");
    assert_eq!(t.radio_item(&ThemeState::Submit, false, "No", ""), "");
    assert_eq!(t.radio_item(&ThemeState::Submit, true, "Yes", "hint"), "Yes ");
    assert_eq!(
        t.format_select_item(&ThemeState::Active, true, "Yes", ""),
        "\u{2502}  \u{25cf} Yes \n"
    );
    assert_eq!(t.format_select_item(&ThemeState::Cancel, false, "No", ""), "");
}

#[test]
fn checkbox_items() {
    let t = reset_theme();
    assert_eq!(
        t.checkbox_item(&ThemeState::Active, true, true, "Opt", ""),
        "\u{25fc} Opt "
    );
    assert_eq!(
        t.checkbox_item(&ThemeState::Active, false, true, "Opt", "pick"),
        "\u{25fb} Opt (pick)"
    );
    assert_eq!(
        t.checkbox_item(&ThemeState::Active, false, false, "Opt", ""),
        "\u{25fb} Opt "
    );
    assert_eq!(t.checkbox_item(&ThemeState::Submit, false, false, "Opt", ""), "");
    assert_eq!(
        t.format_multiselect_item(&ThemeState::Active, true, false, "Opt", ""),
        "\u{2502}  \u{25fc} Opt \n"
    );
}

#[test]
fn confirm_line() {
    let t = reset_theme();
    assert_eq!(
        t.format_confirm(&ThemeState::Active, true),
        "\u{2502}  \u{25cf} Yes  / \u{25cb} No \n"
    );
    assert_eq!(t.format_confirm(&ThemeState::Submit, true), "\u{2502}  Yes \n");
}

#[test]
fn note_frame() {
    let t = reset_theme();
    assert_eq!(
        t.format_note("T", "m"),
        "\u{25c7}  T \u{2500}\u{2500}\u{256e}\n\
         \u{2502}      \u{2502}\n\
         \u{2502}  m   \u{2502}\n\
         \u{251c}\u{2500}\u{2500}\u{2500}\u{2500}\u{2500}\u{2500}\u{256f}\n\
         \u{2502}\n"
    );
}

#[test]
fn note_frame_multiline() {
    let t = reset_theme();
    let note = t.format_note("Hi", "one\nlonger");
    let lines: Vec<&str> = note.lines().collect();
    // Width is 2 + the longest of {"", "one", "longer", "Hi"}: 8 columns.
    assert_eq!(lines[0], "\u{25c7}  Hi \u{2500}\u{2500}\u{2500}\u{2500}\u{2500}\u{2500}\u{256e}");
    assert_eq!(lines[1], format!("\u{2502}{}\u{2502}", " ".repeat(11)));
    assert_eq!(lines[2], format!("\u{2502}  one{}\u{2502}", " ".repeat(6)));
    assert_eq!(lines[3], format!("\u{2502}  longer{}\u{2502}", " ".repeat(3)));
    assert_eq!(
        lines[4],
        format!("\u{251c}{}\u{256f}", "\u{2500}".repeat(11))
    );
    assert_eq!(lines[5], "\u{2502}");
}

#[test]
fn log_frames() {
    let t = reset_theme();
    assert_eq!(t.format_log("hello", "\u{25cf}"), "\u{25cf}  hello\n\u{2502}  \n");
    assert_eq!(
        t.format_log("a\nb", "!"),
        "!  a\n\u{2502}  b\n\u{2502}  \n"
    );
    assert_eq!(t.format_log("", "!"), "!  \n");
    assert_eq!(t.remark_symbol(), "\u{251c}");
    assert_eq!(t.info_symbol(), "\u{25cf}");
    assert_eq!(t.warning_symbol(), "\u{25b2}");
    assert_eq!(t.error_symbol(), "\u{25a0}");
    assert_eq!(t.active_symbol(), "\u{25c6}");
    assert_eq!(t.submit_symbol(), "\u{25c7}");
}

#[test]
fn spinner_frames() {
    let t = reset_theme();
    assert_eq!(t.format_spinner_start(), "{spinner:.magenta}  {msg}");
    assert_eq!(t.format_spinner_stop("done"), "\u{25c7}  done\n\u{2502}");
    assert_eq!(t.spinner_chars().as_str(), "\u{25d2}\u{25d0}\u{25d3}\u{25d1}");
    assert_eq!(t.password_mask().as_str(), "\u{25aa}");
}

#[test]
fn error_state_renders_the_live_buffer() {
    // A prompt in validation error still shows the editable (masked)
    // buffer with the caret, exactly as when active.
    let mut theme = reset_theme();
    theme.reverse = Styling::new("[", "]");
    let mut p = Password::new("Q").mask("*").with_theme(theme);
    p.on(&KeyEvent::Character('a'));
    let active = p.render(&State::Active);
    let error = p.render(&State::Error("e".to_string()));
    assert!(active.contains("*[]"));
    assert!(error.contains("*[]"));
}
