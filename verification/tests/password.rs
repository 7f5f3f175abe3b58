use cliclack::KeyEvent;
use cliclack::MinLength;
use cliclack::Password;
use cliclack::PromptInteraction;
use cliclack::State;
use cliclack::Styling;
use cliclack::Validator;

fn chars(text: &str) -> Vec<KeyEvent> {
    text.chars().map(KeyEvent::Character).collect()
}

#[test]
fn submit_without_validator_yields_the_typed_text() {
    let mut p = Password::new("Secret");
    for e in chars("hi") {
        let s = p.on(&e);
        assert_eq!(s, State::Active);
    }
    let s = p.on(&KeyEvent::Enter);
    assert_eq!(s, State::Submit("hi".to_string()));
}

#[test]
fn control_characters_are_filtered_out() {
    let mut p = Password::new("Secret");
    p.on(&KeyEvent::Character('a'));
    p.on(&KeyEvent::Character('\u{7}'));
    p.on(&KeyEvent::Character('\u{7f}'));
    p.on(&KeyEvent::Character('b'));
    let s = p.on(&KeyEvent::Enter);
    assert_eq!(s, State::Submit("ab".to_string()));
}

#[test]
fn unknown_keys_are_silently_absorbed() {
    let mut p = Password::new("Secret");
    p.on(&KeyEvent::Character('x'));
    let s = p.on(&KeyEvent::Other);
    assert_eq!(s, State::Active);
    let s = p.on(&KeyEvent::Enter);
    assert_eq!(s, State::Submit("x".to_string()));
}

#[test]
fn rejected_submission_keeps_the_buffer_for_correction() {
    let mut p = Password::new("Secret").validate(MinLength::new(3, "too short"));
    p.on(&KeyEvent::Character('a'));
    p.on(&KeyEvent::Character('b'));
    let s = p.on(&KeyEvent::Enter);
    assert_eq!(s, State::Error("too short".to_string()));
    // The buffer still holds "ab": one more codepoint satisfies the rule.
    p.on(&KeyEvent::Character('c'));
    let s = p.on(&KeyEvent::Enter);
    assert_eq!(s, State::Submit("abc".to_string()));
}

#[test]
fn escape_cancels_whatever_the_buffer_holds() {
    let mut p = Password::new("Secret");
    let mut events = chars("anything at all");
    events.push(KeyEvent::Escape);
    let outcome = p.interact(&events);
    assert_eq!(outcome, Some(State::Cancel));

    let mut empty = Password::new("Secret");
    let outcome = empty.interact(&vec![KeyEvent::Escape]);
    assert_eq!(outcome, Some(State::Cancel));
}

#[test]
fn a_validation_error_does_not_end_the_loop() {
    let mut p = Password::new("Q").validate(MinLength::new(1, "empty"));
    let outcome = p.interact(&vec![KeyEvent::Enter]);
    // The rejected submission kept the interaction going; the events
    // simply ran out.
    assert_eq!(outcome, None);
}

#[test]
fn interact_returns_none_when_events_run_out() {
    let mut p = Password::new("Secret");
    let outcome = p.interact(&chars("abc"));
    assert_eq!(outcome, None);
}

#[test]
fn interact_stops_at_the_first_terminal_state() {
    let mut p = Password::new("Secret");
    let mut events = chars("pw");
    events.push(KeyEvent::Enter);
    events.extend(chars("ignored"));
    let outcome = p.interact(&events);
    assert_eq!(outcome, Some(State::Submit("pw".to_string())));
}

#[test]
fn render_is_deterministic() {
    let mut p = Password::new("Secret").mask("*");
    p.on(&KeyEvent::Character('a'));
    p.on(&KeyEvent::Character('b'));
    let one = p.render(&State::Active);
    let two = p.render(&State::Active);
    assert_eq!(one, two);
    let e1 = p.render(&State::Error("nope".to_string()));
    let e2 = p.render(&State::Error("nope".to_string()));
    assert_eq!(e1, e2);
}

#[test]
fn render_masks_the_input() {
    let mut p = Password::new("Secret").mask("*");
    p.on(&KeyEvent::Character('a'));
    p.on(&KeyEvent::Character('b'));
    let frame = p.render(&State::Active);
    assert_eq!(frame, "\u{25c6}  Secret\n\u{2502}  **\n\u{2514}\n");
    assert!(!frame.contains("ab"));
}

#[test]
fn render_per_state() {
    let mut p = Password::new("Secret").mask("*");
    p.on(&KeyEvent::Character('x'));
    assert_eq!(p.render(&State::Active), "\u{25c6}  Secret\n\u{2502}  *\n\u{2514}\n");
    assert_eq!(
        p.render(&State::Submit("x".to_string())),
        "\u{25c7}  Secret\n\u{2502}  *\n\u{2502}\n"
    );
    assert_eq!(
        p.render(&State::Error("too short".to_string())),
        "\u{25b2}  Secret\n\u{2502}  *\n\u{2514}  too short\n"
    );
    assert_eq!(
        p.render(&State::Cancel),
        "\u{25a0}  Secret\n\u{2502}  *\n\u{2514}  Operation cancelled.\n"
    );
}

#[test]
fn default_mask_is_the_theme_glyph() {
    let mut p = Password::new("Secret");
    p.on(&KeyEvent::Character('a'));
    let frame = p.render(&State::Active);
    assert_eq!(frame, "\u{25c6}  Secret\n\u{2502}  \u{25aa}\n\u{2514}\n");
}

#[test]
fn caret_marker_tracks_insertions() {
    let mut theme = cliclack::reset_theme();
    theme.reverse = Styling::new("[", "]");
    let mut p = Password::new("Secret").mask("*").with_theme(theme);
    p.on(&KeyEvent::Character('p'));
    assert_eq!(p.render(&State::Active), "\u{25c6}  Secret\n\u{2502}  *[]\n\u{2514}\n");
    p.on(&KeyEvent::Character('w'));
    assert_eq!(p.render(&State::Active), "\u{25c6}  Secret\n\u{2502}  **[]\n\u{2514}\n");
}

#[test]
fn password_prompt_end_to_end() {
    let mut p = Password::new("Password")
        .mask("*")
        .validate(MinLength::new(3, "too short"));

    // Type "pwd", slip once, correct it, and submit.
    let mut events = chars("pw");
    events.push(KeyEvent::Character('x'));
    events.push(KeyEvent::Backspace);
    events.push(KeyEvent::Character('d'));
    events.push(KeyEvent::Enter);

    // Frames rendered along the way show the mask, never the text.
    let mut probe = Password::new("Password")
        .mask("*")
        .validate(MinLength::new(3, "too short"));
    let mut frames = Vec::new();
    for e in &events {
        frames.push(probe.render(&State::Active));
        probe.on(e);
    }
    assert_eq!(frames[2], "\u{25c6}  Password\n\u{2502}  **\n\u{2514}\n");
    assert!(frames.iter().all(|f| !f.contains("pw")));

    let outcome = p.interact(&events);
    assert_eq!(outcome, Some(State::Submit("pwd".to_string())));
}

#[test]
fn short_submission_then_cancel() {
    let mut p = Password::new("Password").validate(MinLength::new(3, "too short"));
    let mut events = chars("no");
    events.push(KeyEvent::Enter);
    events.push(KeyEvent::Escape);
    let outcome = p.interact(&events);
    assert_eq!(outcome, Some(State::Cancel));
}

#[test]
fn min_length_validator() {
    let v = MinLength::new(3, "too short");
    assert_eq!(v.check("ab"), Err("too short".to_string()));
    assert_eq!(v.check("abc"), Ok(()));
    assert_eq!(v.check(""), Err("too short".to_string()));
    let none = cliclack::NoValidator;
    assert_eq!(none.check(""), Ok(()));
}
