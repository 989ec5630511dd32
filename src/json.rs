use vstd::prelude::*;
use crate::color::Color;

verus! {

#[verifier::external_type_specification]
#[verifier::external_body]
pub struct ExValue(serde_json::Value);

/// The integer a JSON value holds, as `Value::as_i64` reads it.
pub uninterp spec fn json_i64(v: serde_json::Value) -> Option<i64>;

/// The elements of a JSON array value, as `Value::as_array` reads them.
pub uninterp spec fn json_array(v: serde_json::Value) -> Option<Seq<serde_json::Value>>;

/// The text of a JSON string value, as `Value::as_str` reads it.
pub uninterp spec fn json_str(v: serde_json::Value) -> Option<Seq<char>>;

/// The member of a JSON object under a key, as `Value::get` finds it.
pub uninterp spec fn json_member(v: serde_json::Value, key: Seq<char>) -> Option<serde_json::Value>;

/// Relies on serde_json's `Value::as_i64`: the integer held by a number
/// that fits in `i64`, `None` otherwise; it depends on the value alone.
pub assume_specification[ serde_json::Value::as_i64 ](v: &serde_json::Value) -> (r: Option<i64>)
    ensures
        r == json_i64(*v),
;

/// Relies on serde_json's `Value::as_array`: the elements of an array value,
/// `None` for any other value.
pub assume_specification<'a>[ serde_json::Value::as_array ](v: &'a serde_json::Value) -> (r: Option<
    &'a Vec<serde_json::Value>,
>)
    ensures
        match r {
            Some(x) => json_array(*v) == Some(x@),
            None => json_array(*v) is None,
        },
;

/// Relies on serde_json's `Value::as_str`: the text of a string value,
/// `None` for any other value.
pub assume_specification<'a>[ serde_json::Value::as_str ](v: &'a serde_json::Value) -> (r: Option<
    &'a str,
>)
    ensures
        match r {
            Some(s) => json_str(*v) == Some(s@),
            None => json_str(*v) is None,
        },
;

/// Relies on serde_json's `Value::get` with a string key: the member of an
/// object under `key`, `None` for a missing key or a value that is no object.
#[verifier::external_body]
pub(crate) fn field<'a>(v: &'a serde_json::Value, key: &str) -> (r: Option<&'a serde_json::Value>)
    ensures
        match r {
            Some(m) => json_member(*v, key@) == Some(*m),
            None => json_member(*v, key@) is None,
        },
{
    v.get(key)
}

/// What makes a scene document unusable.
#[derive(Clone, Copy, Debug, PartialEq, Eq, Structural)]
pub enum SceneError {
    /// A surface without a `material` member.
    MissingMaterial,
    /// A material whose `type` is not one this renderer knows.
    UnknownMaterial,
    /// A surface whose `type` is not one this renderer knows.
    UnknownSurface,
    /// A document without its `camera` or its `surfaces`.
    MissingSection,
}

/// Whether two strings hold the same characters.
pub fn str_is(s: &str, name: &str) -> (r: bool)
    ensures
        r == (s@ == name@),
{
    let a = s.to_owned();
    let b = name.to_owned();
    a == b
}

/// The integer a value holds, or `default` where it holds none.
pub open spec fn int_or(v: serde_json::Value, default: i64) -> i64 {
    match json_i64(v) {
        Some(x) => x,
        None => default,
    }
}

/// Reads an integer member, falling back to `default` for anything that is
/// not an integer that fits in `i64`.
pub fn safe_value_to_i64(v: &serde_json::Value, default: i64) -> (r: i64)
    ensures
        r == int_or(*v, default),
{
    match v.as_i64() {
        Some(x) => x,
        None => default,
    }
}

/// Whether an integer is a valid 8-bit channel value.
pub open spec fn is_channel(x: i64) -> bool {
    0 <= x <= 255
}

/// The colour of three integer channels, `default` where any lies outside
/// `[0, 255]`.
pub open spec fn channels_spec(r: i64, g: i64, b: i64, default: Color) -> Color {
    if is_channel(r) && is_channel(g) && is_channel(b) {
        Color { r: r as u8, g: g as u8, b: b as u8 }
    } else {
        default
    }
}

/// A colour from three integer channels, or `default` where any of them lies
/// outside `[0, 255]`.
pub fn color_from_channels(r: i64, g: i64, b: i64, default: Color) -> (c: Color)
    ensures
        c == channels_spec(r, g, b, default),
{
    if 0 <= r && r <= 255 && 0 <= g && g <= 255 && 0 <= b && b <= 255 {
        Color { r: r as u8, g: g as u8, b: b as u8 }
    } else {
        default
    }
}

/// The colour a value describes as an array of three integers: an element
/// that is not an integer counts as 0; a value that is not an array of at
/// least three elements, or a channel outside `[0, 255]`, gives `default`.
pub open spec fn color_spec(v: serde_json::Value, default: Color) -> Color {
    match json_array(v) {
        Some(x) => if x.len() >= 3 {
            channels_spec(int_or(x[0], 0), int_or(x[1], 0), int_or(x[2], 0), default)
        } else {
            default
        },
        None => default,
    }
}

/// Reads a colour written as an array of three integers (see `color_spec`).
pub fn safe_value_to_color(v: &serde_json::Value, default: Color) -> (c: Color)
    ensures
        c == color_spec(*v, default),
{
    match v.as_array() {
        Some(x) => {
            if x.len() >= 3 {
                let r = safe_value_to_i64(&x[0], 0);
                let g = safe_value_to_i64(&x[1], 0);
                let b = safe_value_to_i64(&x[2], 0);
                color_from_channels(r, g, b, default)
            } else {
                default
            }
        },
        None => default,
    }
}

/// The image side used where a document gives none, or a malformed one.
pub const DEFAULT_RESOLUTION: u32 = 512;

/// An image side: a positive integer that fits in `u32`, else the default.
pub open spec fn dimension_spec(x: i64) -> u32 {
    if 0 < x <= u32::MAX {
        x as u32
    } else {
        DEFAULT_RESOLUTION
    }
}

/// An image side: a positive integer that fits in `u32`, else the default.
pub fn dimension_or_default(x: i64) -> (d: u32)
    ensures
        d == dimension_spec(x),
{
    if 0 < x && x <= 4294967295 {
        x as u32
    } else {
        DEFAULT_RESOLUTION
    }
}

/// A camera's width and height: from an array of at least two elements,
/// each read as an integer (512 where it is none) and checked by
/// `dimension_spec`; 512 by 512 for any other value.
pub open spec fn resolution_spec(v: serde_json::Value) -> (u32, u32) {
    match json_array(v) {
        Some(x) => if x.len() >= 2 {
            (dimension_spec(int_or(x[0], 512)), dimension_spec(int_or(x[1], 512)))
        } else {
            (DEFAULT_RESOLUTION, DEFAULT_RESOLUTION)
        },
        None => (DEFAULT_RESOLUTION, DEFAULT_RESOLUTION),
    }
}

/// Reads a camera's `resolution`, an array of width and height in pixels.
pub fn resolution_from_json(v: &serde_json::Value) -> (r: (u32, u32))
    ensures
        r == resolution_spec(*v),
        r.0 > 0,
        r.1 > 0,
{
    match v.as_array() {
        Some(x) => {
            if x.len() >= 2 {
                let w = safe_value_to_i64(&x[0], 512);
                let h = safe_value_to_i64(&x[1], 512);
                (dimension_or_default(w), dimension_or_default(h))
            } else {
                (DEFAULT_RESOLUTION, DEFAULT_RESOLUTION)
            }
        },
        None => (DEFAULT_RESOLUTION, DEFAULT_RESOLUTION),
    }
}

} // verus!
