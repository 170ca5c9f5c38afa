//! The keys that a binding can name, the primary/alternate pair, the match
//! predicate and the one-character rendering of a key.

use vstd::prelude::*;

verus! {

/// A physical key as the bindings understand it. `Null` stands for "no key
/// assigned" and is the usual value of an alternate that was left out.
#[derive(Clone, Copy, Debug, PartialEq, Eq, Structural)]
pub enum KeyCodeDef {
    Left,
    Right,
    Up,
    Down,
    Char(char),
    Null,
    Esc,
    Enter,
}

/// A key with an optional alternate (`Null` when there is none).
#[derive(Clone, Copy, Debug, PartialEq, Eq, Structural)]
pub struct KeyWithAlt {
    pub key: KeyCodeDef,
    pub alt: KeyCodeDef,
}

/// The binding is active for `code`: it is the primary or the alternate.
pub open spec fn key_matches(code: KeyCodeDef, binding: KeyWithAlt) -> bool {
    code == binding.key || code == binding.alt
}

/// The upper-case mapping of a character as Unicode defines it: one
/// character for most, several for some (the German sharp s gives two).
pub uninterp spec fn unicode_upper(c: char) -> Seq<char>;

/// The only character of `chars`; `fallback` where there is none or more
/// than one.
pub open spec fn sole_or(chars: Seq<char>, fallback: char) -> char {
    if chars.len() == 1 {
        chars[0]
    } else {
        fallback
    }
}

/// The upper-cased form of a character where that is a single character,
/// else the character itself.
pub open spec fn upper_form(c: char) -> char {
    sole_or(unicode_upper(c), c)
}

/// The glyph shown in place of a key that has none.
pub open spec fn placeholder_glyph() -> char {
    '\u{fffd}'
}

/// The glyph shown for a key.
pub open spec fn display_char(code: KeyCodeDef) -> char {
    match code {
        KeyCodeDef::Enter => '\u{21b5}',
        KeyCodeDef::Esc => '\u{241b}',
        KeyCodeDef::Left => '\u{2190}',
        KeyCodeDef::Right => '\u{2192}',
        KeyCodeDef::Up => '\u{2191}',
        KeyCodeDef::Down => '\u{2193}',
        KeyCodeDef::Char(ch) => if ch == ' ' {
            '\u{b7}'
        } else {
            upper_form(ch)
        },
        KeyCodeDef::Null => placeholder_glyph(),
    }
}

/// The glyph for what the input layer observed: that of the key, and the
/// placeholder for a key outside the model (`None`).
pub open spec fn observed_glyph(event: Option<KeyCodeDef>) -> char {
    match event {
        Some(key) => display_char(key),
        None => placeholder_glyph(),
    }
}

/// Whether what the input layer observed triggers a binding: it is a key of
/// the model, it is not `Null`, and it is the binding's primary or its
/// alternate. A key outside the model (`None`) triggers nothing, and neither
/// does `Null`, which stands for no key.
pub open spec fn observed_matches(event: Option<KeyCodeDef>, binding: KeyWithAlt) -> bool {
    match event {
        Some(key) => key != KeyCodeDef::Null && key_matches(key, binding),
        None => false,
    }
}

/// What a binding looks like in the help lines: the primary's glyph, then,
/// unless the alternate is `Null`, a comma, a space and the alternate's glyph.
pub open spec fn binding_text(binding: KeyWithAlt) -> Seq<char> {
    if binding.alt == KeyCodeDef::Null {
        seq![display_char(binding.key)]
    } else {
        seq![display_char(binding.key), ',', ' ', display_char(binding.alt)]
    }
}

/// `char::to_uppercase` of std, its characters collected in order: the
/// upper-case mapping of the character. Not proved: that the mapping depends
/// on the character alone, which is what equating it with `unicode_upper`
/// claims.
#[verifier::external_body]
fn upper_chars(c: char) -> (r: Vec<char>)
    ensures
        r@ == unicode_upper(c),
{
    c.to_uppercase().collect()
}

/// The only character of `chars`, or `fallback` where `chars` holds none or
/// more than one.
pub fn only_char_or(chars: &Vec<char>, fallback: char) -> (r: char)
    ensures
        r == sole_or(chars@, fallback),
{
    if chars.len() == 1 {
        chars[0]
    } else {
        fallback
    }
}

/// The upper-cased form of a character where that is a single character,
/// else the character itself.
pub fn to_upper(c: char) -> (r: char)
    ensures
        r == upper_form(c),
{
    let chars = upper_chars(c);
    only_char_or(&chars, c)
}

/// The glyph for what the input layer observed; `None` is a key outside the
/// model.
pub fn glyph_of(event: Option<KeyCodeDef>) -> (r: char)
    ensures
        r == observed_glyph(event),
{
    match event {
        Some(key) => key.to_char(),
        None => '\u{fffd}',
    }
}

/// Whether what the input layer observed triggers the binding; `None` is a
/// key outside the model.
pub fn triggers(event: Option<KeyCodeDef>, binding: &KeyWithAlt) -> (r: bool)
    ensures
        r == observed_matches(event, *binding),
{
    match event {
        Some(key) => key != KeyCodeDef::Null && key.matches(binding),
        None => false,
    }
}

/// `String::push` of std: the character is appended at the end.
#[verifier::external_body]
pub(crate) fn push_char(s: &mut String, c: char)
    ensures
        final(s)@ == old(s)@.push(c),
{
    s.push(c)
}

impl KeyWithAlt {
    pub fn new(a: KeyCodeDef, b: KeyCodeDef) -> (r: Self)
        ensures
            r.key == a,
            r.alt == b,
    {
        Self { key: a, alt: b }
    }

    /// The binding as the help lines show it.
    pub fn to_text(&self) -> (r: String)
        ensures
            r@ == binding_text(*self),
    {
        let mut out = String::new();
        push_char(&mut out, self.key.to_char());
        if self.alt != KeyCodeDef::Null {
            push_char(&mut out, ',');
            push_char(&mut out, ' ');
            push_char(&mut out, self.alt.to_char());
        }
        assert(out@ =~= binding_text(*self));
        out
    }
}

pub trait MatchesAnyKey {
    /// The key that `self` stands for.
    spec fn as_key(&self) -> KeyCodeDef;

    /// Whether `self` is the primary or the alternate of `code`.
    fn matches(&self, code: &KeyWithAlt) -> (r: bool)
        ensures
            r == key_matches(self.as_key(), *code),
    ;
}

impl MatchesAnyKey for KeyCodeDef {
    open spec fn as_key(&self) -> KeyCodeDef {
        *self
    }

    fn matches(&self, to_match: &KeyWithAlt) -> (r: bool) {
        *self == to_match.key || *self == to_match.alt
    }
}

pub trait ToChar {
    /// The glyph that `to_char` gives.
    spec fn glyph(&self) -> char;

    fn to_char(&self) -> (c: char)
        ensures
            c == self.glyph(),
    ;
}

impl ToChar for KeyCodeDef {
    open spec fn glyph(&self) -> char {
        display_char(*self)
    }

    fn to_char(&self) -> (c: char) {
        match *self {
            KeyCodeDef::Enter => '\u{21b5}',
            KeyCodeDef::Esc => '\u{241b}',
            KeyCodeDef::Left => '\u{2190}',
            KeyCodeDef::Right => '\u{2192}',
            KeyCodeDef::Up => '\u{2191}',
            KeyCodeDef::Down => '\u{2193}',
            KeyCodeDef::Char(ch) => if ch == ' ' {
                '\u{b7}'
            } else {
                to_upper(ch)
            },
            KeyCodeDef::Null => '\u{fffd}',
        }
    }
}

/// A key matches a binding exactly when it is the binding's primary or its
/// alternate. So a real key never matches a binding whose two slots are both
/// `Null`, and a character matches only the very same character: no case is
/// folded.
pub proof fn lemma_matches_exact(code: KeyCodeDef, binding: KeyWithAlt)
    ensures
        key_matches(code, binding) <==> (code == binding.key || code == binding.alt),
        binding.key == KeyCodeDef::Null && binding.alt == KeyCodeDef::Null && code
            != KeyCodeDef::Null ==> !key_matches(code, binding),
        forall|a: char, b: char|
            code == KeyCodeDef::Char(a) && binding.alt == KeyCodeDef::Char(b) && a != b
                ==> (key_matches(code, binding) <==> binding.key == KeyCodeDef::Char(a)),
{
}

/// An observed `Null` and a key outside the model trigger no binding, not
/// even one with an empty slot; every other key triggers exactly the
/// bindings that it matches.
pub proof fn lemma_observed_matches(event: Option<KeyCodeDef>, binding: KeyWithAlt)
    ensures
        event is None ==> !observed_matches(event, binding),
        event == Some(KeyCodeDef::Null) ==> !observed_matches(event, binding),
        forall|key: KeyCodeDef|
            event == Some(key) && key != KeyCodeDef::Null ==> (observed_matches(event, binding)
                <==> key_matches(key, binding)),
{
}

} // verus!
