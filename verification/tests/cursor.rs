use cliclack::StringCursor;

#[test]
fn insertions_concatenate_in_order() {
    let mut c = StringCursor::new();
    for ch in ['x', 'y', 'z'] {
        c.insert(ch);
    }
    assert_eq!(c.to_text(), "xyz");
    assert_eq!(c.position(), 3);
    assert_eq!(c.len(), 3);
}

#[test]
fn insertions_unicode() {
    let mut c = StringCursor::new();
    c.insert('\u{00e9}');
    c.insert('\u{4e16}');
    assert_eq!(c.to_text(), "\u{00e9}\u{4e16}");
    assert_eq!(c.position(), 2);
}

#[test]
fn delete_left_at_start_is_a_no_op() {
    let mut c = StringCursor::new();
    c.delete_left();
    assert_eq!(c.to_text(), "");
    assert_eq!(c.position(), 0);

    // Still a no-op once the position is back at zero after edits.
    c.insert('a');
    c.delete_left();
    c.delete_left();
    assert_eq!(c.to_text(), "");
    assert_eq!(c.position(), 0);
}

#[test]
fn delete_left_removes_the_codepoint_before_the_cursor() {
    let mut c = StringCursor::new();
    c.insert('a');
    c.insert('b');
    c.insert('c');
    c.delete_left();
    assert_eq!(c.to_text(), "ab");
    assert_eq!(c.position(), 2);
}

#[test]
fn insert_then_delete_left_restores_the_buffer() {
    let mut c = StringCursor::new();
    c.insert('a');
    c.insert('b');
    let before = (c.to_text(), c.position());
    c.insert('z');
    c.delete_left();
    assert_eq!((c.to_text(), c.position()), before);
}

#[test]
fn split_with_cursor_at_end() {
    let mut c = StringCursor::new();
    c.insert('h');
    c.insert('i');
    let (left, caret, right) = c.split();
    assert_eq!(left, "hi");
    assert_eq!(caret, "");
    assert_eq!(right, "");
}

#[test]
fn position_tracks_mixed_edits() {
    let mut c = StringCursor::new();
    c.insert('a');
    c.insert('b');
    c.insert('c');
    c.delete_left();
    c.delete_left();
    assert_eq!(c.to_text(), "a");
    assert_eq!(c.position(), 1);
    c.insert('X');
    assert_eq!(c.to_text(), "aX");
    assert_eq!(c.position(), 2);
}

#[test]
fn to_masked_repeats_the_mask_per_codepoint() {
    let mut c = StringCursor::new();
    c.insert('s');
    c.insert('e');
    c.insert('e');
    let m = c.to_masked("*");
    assert_eq!(m.to_text(), "***");
    assert_eq!(m.position(), 3);

    let wide = c.to_masked("<>");
    assert_eq!(wide.to_text(), "<><><>");
    assert_eq!(wide.position(), 6);

    let empty_mask = c.to_masked("");
    assert_eq!(empty_mask.to_text(), "");
    assert_eq!(empty_mask.position(), 0);
}
