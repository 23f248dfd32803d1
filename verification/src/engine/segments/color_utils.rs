//! The colour model: conversion to the colours a terminal renderer draws
//! with, and the JSON form in which colours are stored.

use crate::config::{AnsiColor, ColorObject, OptionValue, OptionValueView};
use crate::text::{decimal, decimal_digits, owned};
use vstd::prelude::*;

verus! {

/// A colour as a terminal renderer names it.
#[derive(Clone, Copy, Debug, PartialEq, Eq, Structural)]
pub enum TerminalColor {
    Black,
    Red,
    Green,
    Yellow,
    Blue,
    Magenta,
    Cyan,
    Gray,
    DarkGray,
    LightRed,
    LightGreen,
    LightYellow,
    LightBlue,
    LightMagenta,
    LightCyan,
    White,
    Rgb(u8, u8, u8),
    Indexed(u8),
}

/// The renderer colour of a palette slot: the eight standard colours, then
/// dark gray, the six light colours and gray. A slot outside the palette is
/// drawn white.
pub open spec fn palette_color(c16: u8) -> TerminalColor {
    if c16 == 0 {
        TerminalColor::Black
    } else if c16 == 1 {
        TerminalColor::Red
    } else if c16 == 2 {
        TerminalColor::Green
    } else if c16 == 3 {
        TerminalColor::Yellow
    } else if c16 == 4 {
        TerminalColor::Blue
    } else if c16 == 5 {
        TerminalColor::Magenta
    } else if c16 == 6 {
        TerminalColor::Cyan
    } else if c16 == 7 {
        TerminalColor::White
    } else if c16 == 8 {
        TerminalColor::DarkGray
    } else if c16 == 9 {
        TerminalColor::LightRed
    } else if c16 == 10 {
        TerminalColor::LightGreen
    } else if c16 == 11 {
        TerminalColor::LightYellow
    } else if c16 == 12 {
        TerminalColor::LightBlue
    } else if c16 == 13 {
        TerminalColor::LightMagenta
    } else if c16 == 14 {
        TerminalColor::LightCyan
    } else if c16 == 15 {
        TerminalColor::Gray
    } else {
        TerminalColor::White
    }
}

/// The renderer colour of any colour: palette slots go through the palette,
/// the other two depths pass through unchanged.
pub open spec fn renderer_color(color: AnsiColor) -> TerminalColor {
    match color {
        AnsiColor::Color16 { c16 } => palette_color(c16),
        AnsiColor::Color256 { c256 } => TerminalColor::Indexed(c256),
        AnsiColor::Rgb { r, g, b } => TerminalColor::Rgb(r, g, b),
    }
}

/// Converts a palette slot to the renderer's colour.
pub fn c16_to_ratatui_color(c16: u8) -> (r: TerminalColor)
    ensures
        r == palette_color(c16),
{
    match c16 {
        0 => TerminalColor::Black,
        1 => TerminalColor::Red,
        2 => TerminalColor::Green,
        3 => TerminalColor::Yellow,
        4 => TerminalColor::Blue,
        5 => TerminalColor::Magenta,
        6 => TerminalColor::Cyan,
        7 => TerminalColor::White,
        8 => TerminalColor::DarkGray,
        9 => TerminalColor::LightRed,
        10 => TerminalColor::LightGreen,
        11 => TerminalColor::LightYellow,
        12 => TerminalColor::LightBlue,
        13 => TerminalColor::LightMagenta,
        14 => TerminalColor::LightCyan,
        15 => TerminalColor::Gray,
        _ => TerminalColor::White,
    }
}

/// Converts a colour of any depth to the renderer's colour.
pub fn ansi_color_to_ratatui(color: &AnsiColor) -> (r: TerminalColor)
    ensures
        r == renderer_color(*color),
{
    match color {
        AnsiColor::Color16 { c16 } => c16_to_ratatui_color(*c16),
        AnsiColor::Color256 { c256 } => TerminalColor::Indexed(*c256),
        AnsiColor::Rgb { r, g, b } => TerminalColor::Rgb(*r, *g, *b),
    }
}

/// Within the palette, two slots are drawn alike only if they are the same
/// slot.
pub proof fn palette_is_injective(a: u8, b: u8)
    requires
        a < 16,
        b < 16,
        palette_color(a) == palette_color(b),
    ensures
        a == b,
{
}

/// The JSON object that stores `color`: `c16` alone, `c256` alone, or the
/// three of `r`, `g` and `b`.
pub open spec fn color_object(color: AnsiColor) -> ColorObject {
    match color {
        AnsiColor::Color16 { c16 } => ColorObject {
            c16: Some(c16 as u64),
            c256: None,
            r: None,
            g: None,
            b: None,
        },
        AnsiColor::Color256 { c256 } => ColorObject {
            c16: None,
            c256: Some(c256 as u64),
            r: None,
            g: None,
            b: None,
        },
        AnsiColor::Rgb { r, g, b } => ColorObject {
            c16: None,
            c256: None,
            r: Some(r as u64),
            g: Some(g as u64),
            b: Some(b as u64),
        },
    }
}

/// What a member gives as a colour component: its number, if it is there and
/// fits in eight bits.
pub open spec fn component(member: Option<u64>) -> Option<u8> {
    match member {
        Some(n) => if n <= 255 {
            Some(n as u8)
        } else {
            None
        },
        None => None,
    }
}

/// The colour that a JSON object stores, if it has one of the three shapes.
///
/// A member that is no number from 0 to 255 counts as missing. `c256` is
/// looked at first, then `c16`, then the three of `r`, `g` and `b`.
pub open spec fn object_color(object: ColorObject) -> Option<AnsiColor> {
    if component(object.c256) is Some {
        Some(AnsiColor::Color256 { c256: component(object.c256)->0 })
    } else if component(object.c16) is Some {
        Some(AnsiColor::Color16 { c16: component(object.c16)->0 })
    } else if component(object.r) is Some && component(object.g) is Some && component(
        object.b,
    ) is Some {
        Some(
            AnsiColor::Rgb {
                r: component(object.r)->0,
                g: component(object.g)->0,
                b: component(object.b)->0,
            },
        )
    } else {
        None
    }
}

/// The JSON object that stores `color`.
pub fn color_to_object(color: &AnsiColor) -> (object: ColorObject)
    ensures
        object == color_object(*color),
{
    match color {
        AnsiColor::Color16 { c16 } => ColorObject {
            c16: Some(*c16 as u64),
            c256: None,
            r: None,
            g: None,
            b: None,
        },
        AnsiColor::Color256 { c256 } => ColorObject {
            c16: None,
            c256: Some(*c256 as u64),
            r: None,
            g: None,
            b: None,
        },
        AnsiColor::Rgb { r, g, b } => ColorObject {
            c16: None,
            c256: None,
            r: Some(*r as u64),
            g: Some(*g as u64),
            b: Some(*b as u64),
        },
    }
}

fn to_component(member: Option<u64>) -> (r: Option<u8>)
    ensures
        r == component(member),
{
    match member {
        Some(n) => if n <= 255 {
            Some(n as u8)
        } else {
            None
        },
        None => None,
    }
}

/// Reads a colour back from a JSON object; `None` for any object that has
/// none of the three shapes.
pub fn color_from_object(object: &ColorObject) -> (color: Option<AnsiColor>)
    ensures
        color == object_color(*object),
{
    if let Some(c256) = to_component(object.c256) {
        return Some(AnsiColor::Color256 { c256 });
    }
    if let Some(c16) = to_component(object.c16) {
        return Some(AnsiColor::Color16 { c16 });
    }
    match (to_component(object.r), to_component(object.g), to_component(object.b)) {
        (Some(r), Some(g), Some(b)) => Some(AnsiColor::Rgb { r, g, b }),
        _ => None,
    }
}

/// Storing a colour and reading it back gives the same colour.
pub proof fn color_round_trip(color: AnsiColor)
    ensures
        object_color(color_object(color)) == Some(color),
{
}

/// The members of the JSON object that stores `color`, in the order in which
/// they are written.
pub open spec fn color_members(color: AnsiColor) -> Seq<(Seq<char>, u64)> {
    match color {
        AnsiColor::Color16 { c16 } => seq![("c16"@, c16 as u64)],
        AnsiColor::Color256 { c256 } => seq![("c256"@, c256 as u64)],
        AnsiColor::Rgb { r, g, b } => seq![("r"@, r as u64), ("g"@, g as u64), ("b"@, b as u64)],
    }
}

/// What a run of members holds, one by one.
pub open spec fn members_view(members: Seq<(String, u64)>) -> Seq<(Seq<char>, u64)> {
    Seq::new(members.len(), |i: int| (members[i].0@, members[i].1))
}

/// The compact JSON text of the object with the given numeric members.
pub uninterp spec fn json_object(members: Seq<(Seq<char>, u64)>) -> Seq<char>;

/// Writes the JSON object with the given numeric members.
///
/// Trusted: puts each member into a `serde_json::Map` with `Map::insert`,
/// the number as a `serde_json::Value`, and writes the object with the
/// `to_string` of `serde_json::Value`. The text depends on the members alone
/// and is what `json_object` names.
#[verifier::external_body]
pub(crate) fn json_object_text(members: &Vec<(String, u64)>) -> (text: String)
    ensures
        text@ == json_object(members_view(members@)),
{
    let mut map = serde_json::Map::new();
    for member in members.iter() {
        map.insert(member.0.clone(), serde_json::Value::from(member.1));
    }
    serde_json::Value::Object(map).to_string()
}

/// Writes `color` as the JSON text in which metadata carries it.
pub fn serialize_ansi_color_to_json(color: &AnsiColor) -> (text: String)
    ensures
        text@ == json_object(color_members(*color)),
{
    let mut members: Vec<(String, u64)> = Vec::new();
    match color {
        AnsiColor::Color16 { c16 } => {
            members.push((owned("c16"), *c16 as u64));
        },
        AnsiColor::Color256 { c256 } => {
            members.push((owned("c256"), *c256 as u64));
        },
        AnsiColor::Rgb { r, g, b } => {
            members.push((owned("r"), *r as u64));
            members.push((owned("g"), *g as u64));
            members.push((owned("b"), *b as u64));
        },
    }
    assert(members_view(members@) =~= color_members(*color));
    json_object_text(&members)
}

/// The unsigned number that a JSON document holds under `key`: `None` if the
/// text is no JSON, no object, has no such member, or the member is no
/// unsigned integer.
pub uninterp spec fn json_member(text: Seq<char>, key: Seq<char>) -> Option<u64>;

/// Reads the unsigned number that a JSON document holds under `key`.
///
/// Trusted: parses the text with `serde_json::from_str` into a
/// `serde_json::Value`, looks the key up with `Value::get` and reads the
/// member with `Value::as_u64`. A failure at any of the three steps gives
/// `None`. The result depends on the text and the key alone and is what
/// `json_member` names.
#[verifier::external_body]
pub(crate) fn json_member_u64(text: &str, key: &str) -> (number: Option<u64>)
    ensures
        number == json_member(text@, key@),
{
    let document: serde_json::Value = serde_json::from_str(text).ok()?;
    document.get(key)?.as_u64()
}

/// The members that a JSON document holds under the five keys by which
/// colours are written.
pub open spec fn parsed_color_object(text: Seq<char>) -> ColorObject {
    ColorObject {
        c16: json_member(text, "c16"@),
        c256: json_member(text, "c256"@),
        r: json_member(text, "r"@),
        g: json_member(text, "g"@),
        b: json_member(text, "b"@),
    }
}

/// Reads a colour back from JSON text; `None` for text that is no JSON
/// object of one of the three shapes.
pub fn deserialize_ansi_color_from_json(text: &str) -> (color: Option<AnsiColor>)
    ensures
        color == object_color(parsed_color_object(text@)),
{
    let object = ColorObject {
        c16: json_member_u64(text, "c16"),
        c256: json_member_u64(text, "c256"),
        r: json_member_u64(text, "r"),
        g: json_member_u64(text, "g"),
        b: json_member_u64(text, "b"),
    };
    color_from_object(&object)
}

/// The JSON text of a string: the string between quotes, with the characters
/// escaped that JSON does not take as they are.
pub uninterp spec fn json_string(text: Seq<char>) -> Seq<char>;

/// Writes a string as JSON text.
///
/// Trusted: wraps the string in a `serde_json::Value` and writes it with the
/// `to_string` of that type. The text depends on the string alone and is
/// what `json_string` names.
#[verifier::external_body]
pub(crate) fn json_string_text(text: &str) -> (json: String)
    ensures
        json@ == json_string(text@),
{
    serde_json::Value::from(text).to_string()
}

/// The member that an object has under `key` where `value` is there.
pub open spec fn member(key: Seq<char>, value: Option<u64>) -> Seq<(Seq<char>, u64)> {
    match value {
        Some(n) => seq![(key, n)],
        None => Seq::empty(),
    }
}

/// The numeric members of a colour object, in the order in which they are
/// written.
pub open spec fn object_members(object: ColorObject) -> Seq<(Seq<char>, u64)> {
    member("c16"@, object.c16) + member("c256"@, object.c256) + member("r"@, object.r) + member(
        "g"@,
        object.g,
    ) + member("b"@, object.b)
}

/// The JSON text of an option value.
pub open spec fn option_value_text(value: OptionValueView) -> Seq<char> {
    match value {
        OptionValueView::Number(n) => decimal_digits(n as nat),
        OptionValueView::Text(t) => json_string(t),
        OptionValueView::Flag(b) => if b {
            "true"@
        } else {
            "false"@
        },
        OptionValueView::Object(o) => json_object(object_members(o)),
        OptionValueView::Raw(t) => t,
    }
}

fn push_member(members: &mut Vec<(String, u64)>, key: &str, value: Option<u64>)
    ensures
        members_view(final(members)@) == members_view(old(members)@) + member(key@, value),
{
    let ghost before = members_view(members@);
    match value {
        Some(n) => {
            members.push((owned(key), n));
            assert(members_view(members@) =~= before + member(key@, value));
        },
        None => {
            assert(members_view(members@) =~= before + member(key@, value));
        },
    }
}

/// Writes an option value as JSON text.
pub fn option_value_to_json(value: &OptionValue) -> (text: String)
    ensures
        text@ == option_value_text(value@),
{
    match value {
        OptionValue::Number(n) => decimal(*n),
        OptionValue::Text(t) => json_string_text(t.as_str()),
        OptionValue::Flag(b) => if *b {
            owned("true")
        } else {
            owned("false")
        },
        OptionValue::Object(o) => {
            let mut members: Vec<(String, u64)> = Vec::new();
            assert(members_view(members@) =~= Seq::<(Seq<char>, u64)>::empty());
            push_member(&mut members, "c16", o.c16);
            push_member(&mut members, "c256", o.c256);
            push_member(&mut members, "r", o.r);
            push_member(&mut members, "g", o.g);
            push_member(&mut members, "b", o.b);
            assert(members_view(members@) =~= object_members(*o));
            json_object_text(&members)
        },
        OptionValue::Raw(t) => t.clone(),
    }
}

} // verus!
