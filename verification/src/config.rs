//! The configuration record, its decoding from a JSON document, the
//! fallback to the built-in default, and the help lines derived from it.
//!
//! A configuration document is a JSON object. Its members `left`, `right`,
//! `rotate`, `soft_drop` and `hard_drop` are bindings and must be there; its
//! members `pause`, `quit`, `continue` and `restart` are keys and may be
//! left out. A binding is an object with a key under `key` and, optionally,
//! one under `alt`. A key is one of the strings `Left`, `Right`, `Up`,
//! `Down`, `Null`, `Esc` and `Enter`, or an object with exactly one member:
//! either `char_key` with a string of exactly one character, or one of those
//! seven names with `null`. In the document and in a binding, members of
//! other names are ignored. The document and a binding may also be written
//! as an array of their members' values in the order given above, left out
//! only from the end and only where a member may be left out.

use crate::json::{
    element, element_count, is_null, json_document, json_elements, json_is_null,
    json_member_count, json_members, json_text, member, member_count, parse_document, text_of,
};
use crate::keys::{binding_text, display_char, push_char, KeyCodeDef, KeyWithAlt, ToChar};
use vstd::prelude::*;
use vstd::string::*;

verus! {

/// The configuration text that is built into the program. It is written to
/// disk on the first run and stands in for a file that cannot be used.
pub const DEFAULT_CONFIG: &'static str =
    "{\n  \"left\": { \"key\": \"Left\", \"alt\": { \"char_key\": \"a\" } },\n  \"right\": { \"key\": \"Right\", \"alt\": { \"char_key\": \"d\" } },\n  \"rotate\": { \"key\": \"Up\", \"alt\": { \"char_key\": \"w\" } },\n  \"soft_drop\": { \"key\": \"Down\", \"alt\": { \"char_key\": \"s\" } },\n  \"hard_drop\": { \"key\": { \"char_key\": \" \" } },\n  \"pause\": { \"char_key\": \"p\" },\n  \"quit\": { \"char_key\": \"q\" },\n  \"continue\": { \"char_key\": \"c\" },\n  \"restart\": { \"char_key\": \"r\" }\n}\n";

/// The bindings of every action. The five bindings are always given; a key
/// that the source left out is `Null`, but for `restart`, which is then the
/// character `r`.
#[derive(Clone, Copy, Debug, PartialEq, Eq, Structural)]
pub struct Config {
    pub left: KeyWithAlt,
    pub right: KeyWithAlt,
    pub rotate: KeyWithAlt,
    pub soft_drop: KeyWithAlt,
    pub hard_drop: KeyWithAlt,
    pub pause: KeyCodeDef,
    pub quit: KeyCodeDef,
    pub continue_key: KeyCodeDef,
    pub restart: KeyCodeDef,
}

/// The key that a variant's name stands for.
pub open spec fn key_by_name(name: Seq<char>) -> Option<KeyCodeDef> {
    if name == "Left"@ {
        Some(KeyCodeDef::Left)
    } else if name == "Right"@ {
        Some(KeyCodeDef::Right)
    } else if name == "Up"@ {
        Some(KeyCodeDef::Up)
    } else if name == "Down"@ {
        Some(KeyCodeDef::Down)
    } else if name == "Null"@ {
        Some(KeyCodeDef::Null)
    } else if name == "Esc"@ {
        Some(KeyCodeDef::Esc)
    } else if name == "Enter"@ {
        Some(KeyCodeDef::Enter)
    } else {
        None
    }
}

/// The character key that a text of exactly one character stands for.
pub open spec fn key_by_char_text(text: Seq<char>) -> Option<KeyCodeDef> {
    if text.len() == 1 {
        Some(KeyCodeDef::Char(text[0]))
    } else {
        None
    }
}

/// What stands under `name` in an object: `None` where it has no such
/// member, else whether the member is `null`.
pub open spec fn null_member(object: serde_json::Value, name: Seq<char>) -> Option<bool> {
    if json_members(object).contains_key(name) {
        Some(json_is_null(json_members(object)[name]))
    } else {
        None
    }
}

/// The key that a member of a variant's name stands for: the variant, but
/// only with `null` under it.
pub open spec fn unit_key(with_null: bool, key: KeyCodeDef) -> Option<KeyCodeDef> {
    if with_null {
        Some(key)
    } else {
        None
    }
}

/// The key that an object's member denotes: a character under `char_key`,
/// or a named key with `null` under its name.
pub open spec fn key_of_tagged(object: serde_json::Value) -> Option<KeyCodeDef> {
    if json_members(object).contains_key("char_key"@) {
        match json_text(json_members(object)["char_key"@]) {
            Some(text) => key_by_char_text(text),
            None => None,
        }
    } else if let Some(with_null) = null_member(object, "Left"@) {
        unit_key(with_null, KeyCodeDef::Left)
    } else if let Some(with_null) = null_member(object, "Right"@) {
        unit_key(with_null, KeyCodeDef::Right)
    } else if let Some(with_null) = null_member(object, "Up"@) {
        unit_key(with_null, KeyCodeDef::Up)
    } else if let Some(with_null) = null_member(object, "Down"@) {
        unit_key(with_null, KeyCodeDef::Down)
    } else if let Some(with_null) = null_member(object, "Null"@) {
        unit_key(with_null, KeyCodeDef::Null)
    } else if let Some(with_null) = null_member(object, "Esc"@) {
        unit_key(with_null, KeyCodeDef::Esc)
    } else if let Some(with_null) = null_member(object, "Enter"@) {
        unit_key(with_null, KeyCodeDef::Enter)
    } else {
        None
    }
}

/// The key that a JSON value denotes: a string names it; an object must
/// have exactly one member, which tags it.
pub open spec fn key_of_value(value: serde_json::Value) -> Option<KeyCodeDef> {
    match json_text(value) {
        Some(name) => key_by_name(name),
        None => if json_member_count(value) == Some(1nat) {
            key_of_tagged(value)
        } else {
            None
        },
    }
}

/// The key under `field`; `absent` where the object has no such member.
pub open spec fn key_of_member(
    object: serde_json::Value,
    field: Seq<char>,
    absent: Option<KeyCodeDef>,
) -> Option<KeyCodeDef> {
    if json_members(object).contains_key(field) {
        key_of_value(json_members(object)[field])
    } else {
        absent
    }
}

/// The key at place `index` of an array's elements; `absent` behind the
/// last.
pub open spec fn key_of_element(
    elements: Seq<serde_json::Value>,
    index: int,
    absent: Option<KeyCodeDef>,
) -> Option<KeyCodeDef> {
    if index < elements.len() {
        key_of_value(elements[index])
    } else {
        absent
    }
}

/// The binding of a primary and an alternate, if both were decoded.
pub open spec fn binding_of_parts(key: Option<KeyCodeDef>, alt: Option<KeyCodeDef>) -> Option<
    KeyWithAlt,
> {
    match (key, alt) {
        (Some(key), Some(alt)) => Some(KeyWithAlt { key, alt }),
        _ => None,
    }
}

/// The binding that an object denotes: `key` is required, `alt` is `Null`
/// where it is left out.
pub open spec fn binding_of_members(value: serde_json::Value) -> Option<KeyWithAlt> {
    binding_of_parts(
        key_of_member(value, "key"@, None),
        key_of_member(value, "alt"@, Some(KeyCodeDef::Null)),
    )
}

/// The binding that an array's elements denote: the primary, then the
/// alternate, which may be left out, and nothing more.
pub open spec fn binding_of_elements(elements: Seq<serde_json::Value>) -> Option<KeyWithAlt> {
    if elements.len() > 2 {
        None
    } else {
        binding_of_parts(
            key_of_element(elements, 0, None),
            key_of_element(elements, 1, Some(KeyCodeDef::Null)),
        )
    }
}

/// The binding that a JSON value denotes.
pub open spec fn binding_of_value(value: serde_json::Value) -> Option<KeyWithAlt> {
    match json_elements(value) {
        Some(elements) => binding_of_elements(elements),
        None => binding_of_members(value),
    }
}

/// The binding under `field`, which must be there.
pub open spec fn binding_of_member(object: serde_json::Value, field: Seq<char>) -> Option<
    KeyWithAlt,
> {
    if json_members(object).contains_key(field) {
        binding_of_value(json_members(object)[field])
    } else {
        None
    }
}

/// The binding at place `index` of an array's elements, which must be
/// there.
pub open spec fn binding_of_element(elements: Seq<serde_json::Value>, index: int) -> Option<
    KeyWithAlt,
> {
    if index < elements.len() {
        binding_of_value(elements[index])
    } else {
        None
    }
}

/// The five bindings of a configuration.
#[derive(Clone, Copy, Debug, PartialEq, Eq, Structural)]
pub struct Bindings {
    pub left: KeyWithAlt,
    pub right: KeyWithAlt,
    pub rotate: KeyWithAlt,
    pub soft_drop: KeyWithAlt,
    pub hard_drop: KeyWithAlt,
}

/// The five bindings together, if each of them was decoded.
pub open spec fn bindings_of_parts(
    left: Option<KeyWithAlt>,
    right: Option<KeyWithAlt>,
    rotate: Option<KeyWithAlt>,
    soft_drop: Option<KeyWithAlt>,
    hard_drop: Option<KeyWithAlt>,
) -> Option<Bindings> {
    match (left, right, rotate, soft_drop, hard_drop) {
        (Some(left), Some(right), Some(rotate), Some(soft_drop), Some(hard_drop)) => Some(
            Bindings { left, right, rotate, soft_drop, hard_drop },
        ),
        _ => None,
    }
}

/// The configuration of the five bindings and the four keys, if all of them
/// were decoded.
pub open spec fn config_of_parts(
    bindings: Option<Bindings>,
    pause: Option<KeyCodeDef>,
    quit: Option<KeyCodeDef>,
    continue_key: Option<KeyCodeDef>,
    restart: Option<KeyCodeDef>,
) -> Option<Config> {
    match (bindings, pause, quit, continue_key, restart) {
        (Some(bindings), Some(pause), Some(quit), Some(continue_key), Some(restart)) => Some(
            Config {
                left: bindings.left,
                right: bindings.right,
                rotate: bindings.rotate,
                soft_drop: bindings.soft_drop,
                hard_drop: bindings.hard_drop,
                pause,
                quit,
                continue_key,
                restart,
            },
        ),
        _ => None,
    }
}

/// The configuration that an object denotes, if it denotes one.
pub open spec fn config_of_members(value: serde_json::Value) -> Option<Config> {
    config_of_parts(
        bindings_of_parts(
            binding_of_member(value, "left"@),
            binding_of_member(value, "right"@),
            binding_of_member(value, "rotate"@),
            binding_of_member(value, "soft_drop"@),
            binding_of_member(value, "hard_drop"@),
        ),
        key_of_member(value, "pause"@, Some(KeyCodeDef::Null)),
        key_of_member(value, "quit"@, Some(KeyCodeDef::Null)),
        key_of_member(value, "continue"@, Some(KeyCodeDef::Null)),
        key_of_member(value, "restart"@, Some(KeyCodeDef::Char('r'))),
    )
}

/// The configuration that an array's elements denote, if they denote one:
/// the five bindings, then the four keys, of which those at the end may be
/// left out, and nothing more.
pub open spec fn config_of_elements(elements: Seq<serde_json::Value>) -> Option<Config> {
    if elements.len() > 9 {
        None
    } else {
        config_of_parts(
            bindings_of_parts(
                binding_of_element(elements, 0),
                binding_of_element(elements, 1),
                binding_of_element(elements, 2),
                binding_of_element(elements, 3),
                binding_of_element(elements, 4),
            ),
            key_of_element(elements, 5, Some(KeyCodeDef::Null)),
            key_of_element(elements, 6, Some(KeyCodeDef::Null)),
            key_of_element(elements, 7, Some(KeyCodeDef::Null)),
            key_of_element(elements, 8, Some(KeyCodeDef::Char('r'))),
        )
    }
}

/// The configuration that a JSON value denotes, if it denotes one.
pub open spec fn config_of_value(value: serde_json::Value) -> Option<Config> {
    match json_elements(value) {
        Some(elements) => config_of_elements(elements),
        None => config_of_members(value),
    }
}

/// The configuration that a text denotes, if it is a JSON document that
/// denotes one.
pub open spec fn config_of_text(text: Seq<char>) -> Option<Config> {
    match json_document(text) {
        Some(value) => config_of_value(value),
        None => None,
    }
}

/// The configuration that the program falls back to.
pub open spec fn builtin_config() -> Config {
    Config {
        left: KeyWithAlt { key: KeyCodeDef::Left, alt: KeyCodeDef::Char('a') },
        right: KeyWithAlt { key: KeyCodeDef::Right, alt: KeyCodeDef::Char('d') },
        rotate: KeyWithAlt { key: KeyCodeDef::Up, alt: KeyCodeDef::Char('w') },
        soft_drop: KeyWithAlt { key: KeyCodeDef::Down, alt: KeyCodeDef::Char('s') },
        hard_drop: KeyWithAlt { key: KeyCodeDef::Char(' '), alt: KeyCodeDef::Null },
        pause: KeyCodeDef::Char('p'),
        quit: KeyCodeDef::Char('q'),
        continue_key: KeyCodeDef::Char('c'),
        restart: KeyCodeDef::Char('r'),
    }
}

/// What the built-in text denotes. The record written out in
/// `builtin_config` stands in should the JSON parser ever refuse that text.
pub open spec fn default_config() -> Config {
    match config_of_text(DEFAULT_CONFIG@) {
        Some(config) => config,
        None => builtin_config(),
    }
}

/// The configuration that loading ends with: what the source text denotes,
/// and the default where there is no text or it denotes nothing.
pub open spec fn loaded_config(source: Option<Seq<char>>) -> Config {
    match source {
        Some(text) => match config_of_text(text) {
            Some(config) => config,
            None => default_config(),
        },
        None => default_config(),
    }
}

/// The help lines of a configuration: an empty line, one line for each of
/// the five bindings, one each for pause and quit, and an empty line.
pub open spec fn help_lines(config: Config) -> Seq<Seq<char>> {
    seq![
        Seq::empty(),
        "Left: "@ + binding_text(config.left),
        "Right: "@ + binding_text(config.right),
        "Rotate: "@ + binding_text(config.rotate),
        "Soft Drop: "@ + binding_text(config.soft_drop),
        "Hard Drop: "@ + binding_text(config.hard_drop),
        "Pause: "@.push(display_char(config.pause)),
        "Quit: "@.push(display_char(config.quit)),
        Seq::empty(),
    ]
}

/// Whether two texts hold the same characters.
pub fn same_text(a: &str, b: &str) -> (r: bool)
    ensures
        r == (a@ == b@),
{
    let n = a.unicode_len();
    if n != b.unicode_len() {
        return false;
    }
    let mut i: usize = 0;
    while i < n
        invariant
            i <= n,
            n == a@.len(),
            n == b@.len(),
            forall|j: int| 0 <= j < i ==> a@[j] == b@[j],
        decreases n - i,
    {
        if a.get_char(i) != b.get_char(i) {
            return false;
        }
        i += 1;
    }
    assert(a@ =~= b@);
    true
}

/// The key of a given variant name: `Left`, `Right`, `Up`, `Down`, `Null`,
/// `Esc` or `Enter`, spelled exactly so.
pub fn key_from_name(name: &str) -> (r: Option<KeyCodeDef>)
    ensures
        r == key_by_name(name@),
{
    if same_text(name, "Left") {
        Some(KeyCodeDef::Left)
    } else if same_text(name, "Right") {
        Some(KeyCodeDef::Right)
    } else if same_text(name, "Up") {
        Some(KeyCodeDef::Up)
    } else if same_text(name, "Down") {
        Some(KeyCodeDef::Down)
    } else if same_text(name, "Null") {
        Some(KeyCodeDef::Null)
    } else if same_text(name, "Esc") {
        Some(KeyCodeDef::Esc)
    } else if same_text(name, "Enter") {
        Some(KeyCodeDef::Enter)
    } else {
        None
    }
}

/// The character key of a text that holds exactly one character.
pub fn key_from_char_text(text: &str) -> (r: Option<KeyCodeDef>)
    ensures
        r == key_by_char_text(text@),
{
    if text.unicode_len() == 1 {
        Some(KeyCodeDef::Char(text.get_char(0)))
    } else {
        None
    }
}

/// Looks for the member `name`: `None` where the object has none, else
/// whether it is `null`.
pub fn read_null_member(object: &serde_json::Value, name: &str) -> (r: Option<bool>)
    ensures
        r == null_member(*object, name@),
{
    match member(object, name) {
        Some(inner) => Some(is_null(inner)),
        None => None,
    }
}

/// The key of a member of a variant's name: the variant, but only with
/// `null` under it.
pub fn key_from_unit(with_null: bool, key: KeyCodeDef) -> (r: Option<KeyCodeDef>)
    ensures
        r == unit_key(with_null, key),
{
    if with_null {
        Some(key)
    } else {
        None
    }
}

/// Decodes a key from the member that tags it.
pub fn read_tagged_key(object: &serde_json::Value) -> (r: Option<KeyCodeDef>)
    ensures
        r == key_of_tagged(*object),
{
    if let Some(inner) = member(object, "char_key") {
        match text_of(inner) {
            Some(text) => key_from_char_text(text),
            None => None,
        }
    } else if let Some(with_null) = read_null_member(object, "Left") {
        key_from_unit(with_null, KeyCodeDef::Left)
    } else if let Some(with_null) = read_null_member(object, "Right") {
        key_from_unit(with_null, KeyCodeDef::Right)
    } else if let Some(with_null) = read_null_member(object, "Up") {
        key_from_unit(with_null, KeyCodeDef::Up)
    } else if let Some(with_null) = read_null_member(object, "Down") {
        key_from_unit(with_null, KeyCodeDef::Down)
    } else if let Some(with_null) = read_null_member(object, "Null") {
        key_from_unit(with_null, KeyCodeDef::Null)
    } else if let Some(with_null) = read_null_member(object, "Esc") {
        key_from_unit(with_null, KeyCodeDef::Esc)
    } else if let Some(with_null) = read_null_member(object, "Enter") {
        key_from_unit(with_null, KeyCodeDef::Enter)
    } else {
        None
    }
}

/// Decodes a key from a JSON value.
pub fn read_key(value: &serde_json::Value) -> (r: Option<KeyCodeDef>)
    ensures
        r == key_of_value(*value),
{
    match text_of(value) {
        Some(name) => key_from_name(name),
        None => match member_count(value) {
            Some(count) => if count == 1 {
                read_tagged_key(value)
            } else {
                None
            },
            None => None,
        },
    }
}

/// Decodes the key under `field`, or gives `absent` where the object has no
/// such member.
pub fn read_member_key(object: &serde_json::Value, field: &str, absent: Option<KeyCodeDef>) -> (r:
    Option<KeyCodeDef>)
    ensures
        r == key_of_member(*object, field@, absent),
{
    match member(object, field) {
        Some(value) => read_key(value),
        None => absent,
    }
}

/// Decodes the key at place `index` of an array, or gives `absent` behind
/// its last element.
pub fn read_element_key(array: &serde_json::Value, index: usize, absent: Option<KeyCodeDef>) -> (r:
    Option<KeyCodeDef>)
    ensures
        json_elements(*array) matches Some(elements) ==> r == key_of_element(
            elements,
            index as int,
            absent,
        ),
        json_elements(*array) is None ==> r == absent,
{
    match element(array, index) {
        Some(value) => read_key(value),
        None => absent,
    }
}

/// The binding of a primary and an alternate, if both are there.
pub fn binding_from_parts(key: Option<KeyCodeDef>, alt: Option<KeyCodeDef>) -> (r: Option<
    KeyWithAlt,
>)
    ensures
        r == binding_of_parts(key, alt),
{
    match (key, alt) {
        (Some(key), Some(alt)) => Some(KeyWithAlt { key, alt }),
        _ => None,
    }
}

/// Decodes a binding from a JSON value.
pub fn read_binding(value: &serde_json::Value) -> (r: Option<KeyWithAlt>)
    ensures
        r == binding_of_value(*value),
{
    match element_count(value) {
        Some(count) => {
            if count > 2 {
                None
            } else {
                let key = read_element_key(value, 0, None);
                let alt = read_element_key(value, 1, Some(KeyCodeDef::Null));
                binding_from_parts(key, alt)
            }
        },
        None => {
            let key = read_member_key(value, "key", None);
            let alt = read_member_key(value, "alt", Some(KeyCodeDef::Null));
            binding_from_parts(key, alt)
        },
    }
}

/// Decodes the binding under `field`, which must be there.
pub fn read_member_binding(object: &serde_json::Value, field: &str) -> (r: Option<KeyWithAlt>)
    ensures
        r == binding_of_member(*object, field@),
{
    match member(object, field) {
        Some(value) => read_binding(value),
        None => None,
    }
}

/// Decodes the binding at place `index` of an array, which must be there.
pub fn read_element_binding(array: &serde_json::Value, index: usize) -> (r: Option<KeyWithAlt>)
    ensures
        json_elements(*array) matches Some(elements) ==> r == binding_of_element(
            elements,
            index as int,
        ),
        json_elements(*array) is None ==> r is None,
{
    match element(array, index) {
        Some(value) => read_binding(value),
        None => None,
    }
}

/// The five bindings together, if each of them is there.
pub fn bindings_from_parts(
    left: Option<KeyWithAlt>,
    right: Option<KeyWithAlt>,
    rotate: Option<KeyWithAlt>,
    soft_drop: Option<KeyWithAlt>,
    hard_drop: Option<KeyWithAlt>,
) -> (r: Option<Bindings>)
    ensures
        r == bindings_of_parts(left, right, rotate, soft_drop, hard_drop),
{
    match (left, right, rotate, soft_drop, hard_drop) {
        (Some(left), Some(right), Some(rotate), Some(soft_drop), Some(hard_drop)) => Some(
            Bindings { left, right, rotate, soft_drop, hard_drop },
        ),
        _ => None,
    }
}

/// The configuration of the five bindings and the four keys, if all of them
/// are there.
pub fn config_from_parts(
    bindings: Option<Bindings>,
    pause: Option<KeyCodeDef>,
    quit: Option<KeyCodeDef>,
    continue_key: Option<KeyCodeDef>,
    restart: Option<KeyCodeDef>,
) -> (r: Option<Config>)
    ensures
        r == config_of_parts(bindings, pause, quit, continue_key, restart),
{
    match (bindings, pause, quit, continue_key, restart) {
        (Some(bindings), Some(pause), Some(quit), Some(continue_key), Some(restart)) => Some(
            Config {
                left: bindings.left,
                right: bindings.right,
                rotate: bindings.rotate,
                soft_drop: bindings.soft_drop,
                hard_drop: bindings.hard_drop,
                pause,
                quit,
                continue_key,
                restart,
            },
        ),
        _ => None,
    }
}

/// Decodes a configuration from a JSON value.
pub fn read_config(value: &serde_json::Value) -> (r: Option<Config>)
    ensures
        r == config_of_value(*value),
{
    match element_count(value) {
        Some(count) => {
            if count > 9 {
                None
            } else {
                let bindings = bindings_from_parts(
                    read_element_binding(value, 0),
                    read_element_binding(value, 1),
                    read_element_binding(value, 2),
                    read_element_binding(value, 3),
                    read_element_binding(value, 4),
                );
                config_from_parts(
                    bindings,
                    read_element_key(value, 5, Some(KeyCodeDef::Null)),
                    read_element_key(value, 6, Some(KeyCodeDef::Null)),
                    read_element_key(value, 7, Some(KeyCodeDef::Null)),
                    read_element_key(value, 8, Some(KeyCodeDef::Char('r'))),
                )
            }
        },
        None => {
            let bindings = bindings_from_parts(
                read_member_binding(value, "left"),
                read_member_binding(value, "right"),
                read_member_binding(value, "rotate"),
                read_member_binding(value, "soft_drop"),
                read_member_binding(value, "hard_drop"),
            );
            config_from_parts(
                bindings,
                read_member_key(value, "pause", Some(KeyCodeDef::Null)),
                read_member_key(value, "quit", Some(KeyCodeDef::Null)),
                read_member_key(value, "continue", Some(KeyCodeDef::Null)),
                read_member_key(value, "restart", Some(KeyCodeDef::Char('r'))),
            )
        },
    }
}

/// A line made of a label and what follows it.
fn labelled(label: &str, rest: &str) -> (r: String)
    ensures
        r@ == label@ + rest@,
{
    let mut line = String::from_str(label);
    line.append(rest);
    line
}

/// A line made of a label and one glyph.
fn labelled_glyph(label: &str, glyph: char) -> (r: String)
    ensures
        r@ == label@.push(glyph),
{
    let mut line = String::from_str(label);
    push_char(&mut line, glyph);
    line
}

impl Config {
    /// The built-in configuration as a record.
    pub fn builtin() -> (r: Config)
        ensures
            r == builtin_config(),
    {
        Config {
            left: KeyWithAlt::new(KeyCodeDef::Left, KeyCodeDef::Char('a')),
            right: KeyWithAlt::new(KeyCodeDef::Right, KeyCodeDef::Char('d')),
            rotate: KeyWithAlt::new(KeyCodeDef::Up, KeyCodeDef::Char('w')),
            soft_drop: KeyWithAlt::new(KeyCodeDef::Down, KeyCodeDef::Char('s')),
            hard_drop: KeyWithAlt::new(KeyCodeDef::Char(' '), KeyCodeDef::Null),
            pause: KeyCodeDef::Char('p'),
            quit: KeyCodeDef::Char('q'),
            continue_key: KeyCodeDef::Char('c'),
            restart: KeyCodeDef::Char('r'),
        }
    }

    /// Decodes a configuration from text: `None` where the text is no JSON
    /// document, a mandatory binding is missing, or a key is malformed.
    pub fn parse(text: &str) -> (r: Option<Config>)
        ensures
            r == config_of_text(text@),
    {
        match parse_document(text) {
            Some(value) => read_config(&value),
            None => None,
        }
    }

    /// The configuration of the built-in text.
    pub fn default_value() -> (r: Config)
        ensures
            r == default_config(),
    {
        match Config::parse(DEFAULT_CONFIG) {
            Some(config) => config,
            None => Config::builtin(),
        }
    }

    /// The configuration to run with, given the content of the user's file
    /// (`None` where it could not be had). Never fails: a text that does not
    /// decode gives the default.
    pub fn get(source: Option<&str>) -> (r: Config)
        ensures
            r == loaded_config(
                match source {
                    Some(text) => Some(text@),
                    None => None,
                },
            ),
    {
        match source {
            Some(text) => match Config::parse(text) {
                Some(config) => config,
                None => Config::default_value(),
            },
            None => Config::default_value(),
        }
    }

    /// The lines of the help panel.
    pub fn create_help_message(&self) -> (r: Vec<String>)
        ensures
            r@.len() == help_lines(*self).len(),
            forall|i: int| 0 <= i < r@.len() ==> (#[trigger] r@[i])@ == help_lines(*self)[i],
    {
        let mut lines: Vec<String> = Vec::new();
        lines.push(String::new());
        lines.push(labelled("Left: ", self.left.to_text().as_str()));
        lines.push(labelled("Right: ", self.right.to_text().as_str()));
        lines.push(labelled("Rotate: ", self.rotate.to_text().as_str()));
        lines.push(labelled("Soft Drop: ", self.soft_drop.to_text().as_str()));
        lines.push(labelled("Hard Drop: ", self.hard_drop.to_text().as_str()));
        lines.push(labelled_glyph("Pause: ", self.pause.to_char()));
        lines.push(labelled_glyph("Quit: ", self.quit.to_char()));
        lines.push(String::new());
        lines
    }
}

/// A text that denotes no configuration loads as the default does, and so
/// does a missing text.
pub proof fn lemma_invalid_text_gives_default(text: Seq<char>)
    requires
        config_of_text(text) is None,
    ensures
        loaded_config(Some(text)) == default_config(),
        loaded_config(None) == default_config(),
{
}

/// A text that denotes a configuration loads as that configuration.
pub proof fn lemma_valid_text_is_kept(text: Seq<char>, config: Config)
    requires
        config_of_text(text) == Some(config),
    ensures
        loaded_config(Some(text)) == config,
{
}

/// A key that a document leaves out is `Null`, but for `restart`, which is
/// then the character `r`.
pub proof fn lemma_absent_keys(value: serde_json::Value, config: Config)
    requires
        config_of_members(value) == Some(config),
    ensures
        !json_members(value).contains_key("pause"@) ==> config.pause == KeyCodeDef::Null,
        !json_members(value).contains_key("quit"@) ==> config.quit == KeyCodeDef::Null,
        !json_members(value).contains_key("continue"@) ==> config.continue_key
            == KeyCodeDef::Null,
        !json_members(value).contains_key("restart"@) ==> config.restart == KeyCodeDef::Char('r'),
{
}

/// The help panel has nine lines, whatever the configuration, and its first
/// and last line are empty.
pub proof fn lemma_help_shape(config: Config)
    ensures
        help_lines(config).len() == 9,
        help_lines(config)[0].len() == 0,
        help_lines(config)[8].len() == 0,
        forall|i: int| 1 <= i <= 7 ==> (#[trigger] help_lines(config)[i]).len() > 0,
{
    assert(binding_text(config.left).len() > 0);
    assert(binding_text(config.right).len() > 0);
    assert(binding_text(config.rotate).len() > 0);
    assert(binding_text(config.soft_drop).len() > 0);
    assert(binding_text(config.hard_drop).len() > 0);
}

} // verus!
