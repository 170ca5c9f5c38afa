use tetris_keys::keys::{
    glyph_of, only_char_or, to_upper, triggers, KeyCodeDef, KeyWithAlt, MatchesAnyKey, ToChar,
};

#[test]
fn alternate_matches_case_sensitively() {
    let left = KeyWithAlt::new(KeyCodeDef::Left, KeyCodeDef::Char('a'));
    assert!(KeyCodeDef::Char('a').matches(&left));
    assert!(!KeyCodeDef::Char('A').matches(&left));
    assert!(KeyCodeDef::Left.matches(&left));
    assert!(!KeyCodeDef::Right.matches(&left));
}

#[test]
fn new_keeps_both_slots() {
    let b = KeyWithAlt::new(KeyCodeDef::Esc, KeyCodeDef::Enter);
    assert_eq!(b.key, KeyCodeDef::Esc);
    assert_eq!(b.alt, KeyCodeDef::Enter);
}

#[test]
fn unbound_binding_matches_no_real_key() {
    let none = KeyWithAlt::new(KeyCodeDef::Null, KeyCodeDef::Null);
    let keys = [
        KeyCodeDef::Left,
        KeyCodeDef::Right,
        KeyCodeDef::Up,
        KeyCodeDef::Down,
        KeyCodeDef::Char('x'),
        KeyCodeDef::Char(' '),
        KeyCodeDef::Esc,
        KeyCodeDef::Enter,
    ];
    for k in keys.iter() {
        assert!(!k.matches(&none));
    }
}

#[test]
fn matches_is_primary_or_alternate() {
    let keys = [
        KeyCodeDef::Left,
        KeyCodeDef::Right,
        KeyCodeDef::Up,
        KeyCodeDef::Down,
        KeyCodeDef::Char('x'),
        KeyCodeDef::Char('X'),
        KeyCodeDef::Null,
        KeyCodeDef::Esc,
        KeyCodeDef::Enter,
    ];
    for c in keys.iter() {
        for p in keys.iter() {
            for a in keys.iter() {
                let b = KeyWithAlt::new(*p, *a);
                assert_eq!(c.matches(&b), c == p || c == a);
            }
        }
    }
}

#[test]
fn named_keys_have_their_glyphs() {
    assert_eq!(KeyCodeDef::Enter.to_char(), '\u{21b5}');
    assert_eq!(KeyCodeDef::Esc.to_char(), '\u{241b}');
    assert_eq!(KeyCodeDef::Left.to_char(), '\u{2190}');
    assert_eq!(KeyCodeDef::Right.to_char(), '\u{2192}');
    assert_eq!(KeyCodeDef::Up.to_char(), '\u{2191}');
    assert_eq!(KeyCodeDef::Down.to_char(), '\u{2193}');
    assert_eq!(KeyCodeDef::Null.to_char(), '\u{fffd}');
}

#[test]
fn characters_are_shown_in_upper_case() {
    assert_eq!(KeyCodeDef::Char('a').to_char(), 'A');
    assert_eq!(KeyCodeDef::Char('z').to_char(), 'Z');
    assert_eq!(KeyCodeDef::Char('Q').to_char(), 'Q');
    assert_eq!(KeyCodeDef::Char('7').to_char(), '7');
    assert_eq!(KeyCodeDef::Char('`').to_char(), '`');
    assert_eq!(KeyCodeDef::Char('{').to_char(), '{');
}

#[test]
fn characters_outside_ascii_are_shown_in_upper_case() {
    assert_eq!(KeyCodeDef::Char('\u{e9}').to_char(), '\u{c9}');
    assert_eq!(KeyCodeDef::Char('\u{c9}').to_char(), '\u{c9}');
    assert_eq!(KeyCodeDef::Char('\u{3b1}').to_char(), '\u{391}');
    assert_eq!(KeyCodeDef::Char('\u{44f}').to_char(), '\u{42f}');
    assert_eq!(KeyCodeDef::Char('\u{1c6}').to_char(), '\u{1c4}');
    assert_eq!(KeyCodeDef::Char('\u{4e2d}').to_char(), '\u{4e2d}');
}

#[test]
fn characters_with_a_longer_upper_case_form_stay() {
    assert_eq!(KeyCodeDef::Char('\u{df}').to_char(), '\u{df}');
    assert_eq!(KeyCodeDef::Char('\u{149}').to_char(), '\u{149}');
    assert_eq!(KeyCodeDef::Char('\u{fb01}').to_char(), '\u{fb01}');
}

#[test]
fn upper_form_of_a_character() {
    assert_eq!(to_upper('a'), 'A');
    assert_eq!(to_upper('A'), 'A');
    assert_eq!(to_upper(' '), ' ');
    assert_eq!(to_upper('\u{e9}'), '\u{c9}');
    assert_eq!(to_upper('\u{df}'), '\u{df}');
}

#[test]
fn only_character_or_fallback() {
    assert_eq!(only_char_or(&vec!['X'], 'x'), 'X');
    assert_eq!(only_char_or(&vec!['S', 'S'], '\u{df}'), '\u{df}');
    assert_eq!(only_char_or(&vec![], 'q'), 'q');
    assert_eq!(only_char_or(&vec!['a', 'b', 'c'], 'q'), 'q');
}

#[test]
fn observed_keys_have_glyphs() {
    assert_eq!(glyph_of(None), '\u{fffd}');
    assert_eq!(glyph_of(Some(KeyCodeDef::Null)), '\u{fffd}');
    assert_eq!(glyph_of(Some(KeyCodeDef::Enter)), '\u{21b5}');
    assert_eq!(glyph_of(Some(KeyCodeDef::Char('a'))), 'A');
    assert_eq!(glyph_of(Some(KeyCodeDef::Char(' '))), '\u{b7}');
}

#[test]
fn observed_keys_trigger_what_they_match() {
    let left = KeyWithAlt::new(KeyCodeDef::Left, KeyCodeDef::Char('a'));
    assert!(triggers(Some(KeyCodeDef::Left), &left));
    assert!(triggers(Some(KeyCodeDef::Char('a')), &left));
    assert!(!triggers(Some(KeyCodeDef::Char('A')), &left));
    assert!(!triggers(Some(KeyCodeDef::Right), &left));
    assert!(!triggers(None, &left));
}

#[test]
fn observed_null_triggers_nothing() {
    let open_slot = KeyWithAlt::new(KeyCodeDef::Left, KeyCodeDef::Null);
    let empty = KeyWithAlt::new(KeyCodeDef::Null, KeyCodeDef::Null);
    assert!(!triggers(Some(KeyCodeDef::Null), &open_slot));
    assert!(!triggers(Some(KeyCodeDef::Null), &empty));
    assert!(!triggers(None, &empty));
    assert!(KeyCodeDef::Null.matches(&open_slot));
}

#[test]
fn space_is_shown_as_a_middle_dot() {
    assert_eq!(KeyCodeDef::Char(' ').to_char(), '\u{b7}');
}

#[test]
fn binding_text_with_alternate() {
    let b = KeyWithAlt::new(KeyCodeDef::Left, KeyCodeDef::Char('a'));
    assert_eq!(b.to_text(), "\u{2190}, A");
}

#[test]
fn binding_text_without_alternate() {
    let b = KeyWithAlt::new(KeyCodeDef::Char(' '), KeyCodeDef::Null);
    assert_eq!(b.to_text(), "\u{b7}");
}
