//! JSON values as `serde_json` holds them.
//!
//! A `serde_json::Value` is opaque to the verifier. What it holds is named by
//! [`shape`], a tree of plain values. Each function of this module that is
//! marked `external_body` calls one function of `serde_json` and states over
//! that tree what the call does; those contracts are taken on trust and are
//! to be read against the `serde_json` source. The other functions of the
//! module are built on them and proved.

use vstd::prelude::*;
use serde_json::Value;
use crate::text::{
    decimal, push_decimal, push_signed_decimal, signed_decimal, truth_str, truth_text,
};

verus! {

/// `serde_json::Value`, taken as it is: nothing of its inside is visible.
#[verifier::external_type_specification]
#[verifier::external_body]
pub struct ExJsonValue(serde_json::Value);

/// What a JSON number offers to the accessors used here.
pub enum NumberShape {
    /// A non-negative integer that fits in 64 bits.
    Unsigned(u64),
    /// An integer below zero that fits in 64 bits.
    Negative(i64),
    /// A finite number that is not held as an integer, by the bits of its
    /// IEEE 754 double.
    Fraction(u64),
}

/// The contents of a JSON value.
pub enum JsonShape {
    Null,
    Bool(bool),
    Number(NumberShape),
    String(Seq<char>),
    Array(Seq<JsonShape>),
    Object(Map<Seq<char>, JsonShape>),
}

/// The contents of `v`.
pub uninterp spec fn shape(v: Value) -> JsonShape;

/// The text that `serde_json` writes, in its indented form, for a value of
/// these contents.
pub uninterp spec fn pretty_text(contents: JsonShape) -> Seq<char>;

impl JsonShape {
    /// The member `key` of an object, `Null` where there is none or where
    /// this is no object.
    pub open spec fn member(self, key: Seq<char>) -> JsonShape {
        match self {
            JsonShape::Object(m) => if m.dom().contains(key) {
                m[key]
            } else {
                JsonShape::Null
            },
            _ => JsonShape::Null,
        }
    }

    /// The member `key` of an object, where it has one.
    pub open spec fn find(self, key: Seq<char>) -> Option<JsonShape> {
        match self {
            JsonShape::Object(m) => if m.dom().contains(key) {
                Some(m[key])
            } else {
                None
            },
            _ => None,
        }
    }

    /// The text of a JSON string.
    pub open spec fn text(self) -> Option<Seq<char>> {
        match self {
            JsonShape::String(s) => Some(s),
            _ => None,
        }
    }

    /// The truth value of a JSON boolean.
    pub open spec fn truth(self) -> Option<bool> {
        match self {
            JsonShape::Bool(b) => Some(b),
            _ => None,
        }
    }

    /// A JSON number as an unsigned 64-bit integer, where it is one.
    pub open spec fn unsigned(self) -> Option<u64> {
        match self {
            JsonShape::Number(NumberShape::Unsigned(n)) => Some(n),
            _ => None,
        }
    }

    /// A JSON number as a signed 64-bit integer, where it is one.
    pub open spec fn signed(self) -> Option<i64> {
        match self {
            JsonShape::Number(NumberShape::Unsigned(n)) => if n <= i64::MAX {
                Some(n as i64)
            } else {
                None
            },
            JsonShape::Number(NumberShape::Negative(n)) => Some(n),
            _ => None,
        }
    }

    /// The items of a JSON array.
    pub open spec fn items(self) -> Option<Seq<JsonShape>> {
        match self {
            JsonShape::Array(a) => Some(a),
            _ => None,
        }
    }

    /// The members of an object; none for any other value.
    pub open spec fn fields(self) -> Map<Seq<char>, JsonShape> {
        match self {
            JsonShape::Object(m) => m,
            _ => Map::empty(),
        }
    }

    /// This value with the member `key` set to `member`: an object with the
    /// members of this one, but for `key`.
    pub open spec fn with(self, key: Seq<char>, member: JsonShape) -> JsonShape {
        JsonShape::Object(self.fields().insert(key, member))
    }

    /// This value with the member `key` set where `member` is given, and
    /// as it is otherwise.
    pub open spec fn with_some(self, key: Seq<char>, member: Option<JsonShape>) -> JsonShape {
        match member {
            Some(m) => self.with(key, m),
            None => self,
        }
    }

    /// The member `key` as a JSON string, where it is one.
    pub open spec fn text_member(self, key: Seq<char>) -> Option<JsonShape> {
        match self.member(key).text() {
            Some(t) => Some(JsonShape::String(t)),
            None => None,
        }
    }

    /// The member `key` as a JSON number, where it is a non-negative integer.
    pub open spec fn unsigned_member(self, key: Seq<char>) -> Option<JsonShape> {
        match self.member(key).unsigned() {
            Some(n) => Some(JsonShape::Number(NumberShape::Unsigned(n))),
            None => None,
        }
    }

    /// The member `key` as a JSON number, where it is an integer that fits
    /// in `i64`.
    pub open spec fn signed_member(self, key: Seq<char>) -> Option<JsonShape> {
        match self.member(key).signed() {
            Some(n) => Some(integer_shape(n)),
            None => None,
        }
    }

    /// The text of a JSON string, `default` for any other value.
    pub open spec fn text_or(self, default: Seq<char>) -> Seq<char> {
        match self.text() {
            Some(s) => s,
            None => default,
        }
    }

    /// The truth value of a JSON boolean, `default` for any other value.
    pub open spec fn truth_or(self, default: bool) -> bool {
        match self.truth() {
            Some(b) => b,
            None => default,
        }
    }

    /// A non-negative integer, `default` for any other value.
    pub open spec fn unsigned_or(self, default: u64) -> u64 {
        match self.unsigned() {
            Some(n) => n,
            None => default,
        }
    }

    /// An integer that fits in `i64`, `default` for any other value.
    pub open spec fn signed_or(self, default: i64) -> i64 {
        match self.signed() {
            Some(n) => n,
            None => default,
        }
    }
}

/// The shapes of a sequence of values, one for one.
pub open spec fn shapes(vs: Seq<Value>) -> Seq<JsonShape> {
    vs.map_values(|v: Value| shape(v))
}

/// `Value`'s index operator with a string key: the member under `key` of an
/// object, and a null value where `v` is no object or has no such member.
#[verifier::external_body]
pub(crate) fn member<'a>(v: &'a Value, key: &str) -> (r: &'a Value)
    ensures
        shape(*r) == shape(*v).member(key@),
{
    &v[key]
}

/// `Value::get` with a string key: the member under `key` where `v` is an
/// object that has one, nothing otherwise.
#[verifier::external_body]
pub(crate) fn find<'a>(v: &'a Value, key: &str) -> (r: Option<&'a Value>)
    ensures
        match r {
            Some(m) => shape(*v).find(key@) == Some(shape(*m)),
            None => shape(*v).find(key@) is None,
        },
{
    v.get(key)
}

/// `Value::as_str`: the text of a JSON string, nothing for any other value.
#[verifier::external_body]
pub(crate) fn as_str<'a>(v: &'a Value) -> (r: Option<&'a str>)
    ensures
        match r {
            Some(s) => shape(*v).text() == Some(s@),
            None => shape(*v).text() is None,
        },
{
    v.as_str()
}

/// `Value::as_bool`: the truth value of a JSON boolean, nothing otherwise.
#[verifier::external_body]
pub(crate) fn as_bool(v: &Value) -> (r: Option<bool>)
    ensures
        r == shape(*v).truth(),
{
    v.as_bool()
}

/// `Value::as_u64`: a number held as a non-negative integer, nothing for a
/// negative or fractional number or for a value that is no number.
#[verifier::external_body]
pub(crate) fn as_u64(v: &Value) -> (r: Option<u64>)
    ensures
        r == shape(*v).unsigned(),
{
    v.as_u64()
}

/// `Value::as_i64`: a number held as an integer that fits in `i64`, nothing
/// for a larger or fractional number or for a value that is no number.
#[verifier::external_body]
pub(crate) fn as_i64(v: &Value) -> (r: Option<i64>)
    ensures
        r == shape(*v).signed(),
{
    v.as_i64()
}

/// `Value::as_array`: the items of a JSON array, nothing otherwise.
#[verifier::external_body]
pub(crate) fn as_array<'a>(v: &'a Value) -> (r: Option<&'a Vec<Value>>)
    ensures
        match r {
            Some(items) => shape(*v).items() == Some(shapes(items@)),
            None => shape(*v).items() is None,
        },
{
    v.as_array()
}

/// `serde_json::to_string_pretty` on a value: its indented text, which the
/// contents of the value determine, since an object is written in the order
/// of its keys. That holds while `serde_json` is built without its feature
/// `preserve_order`, as it is here; with that feature an object would be
/// written in the order in which its members were set. Were the call to
/// fail, the text is empty.
#[verifier::external_body]
pub(crate) fn to_pretty(v: &Value) -> (r: String)
    ensures
        r@ == pretty_text(shape(*v)),
{
    serde_json::to_string_pretty(v).unwrap_or_default()
}

/// `Value::Null`: the null value.
#[verifier::external_body]
pub(crate) fn null() -> (v: Value)
    ensures
        shape(v) == JsonShape::Null,
{
    Value::Null
}

/// `Value::from` on a string slice: a JSON string with that text.
#[verifier::external_body]
pub(crate) fn from_text(text: &str) -> (v: Value)
    ensures
        shape(v) == JsonShape::String(text@),
{
    Value::from(text)
}

/// `Value::from` on a `bool`: a JSON boolean with that truth value.
#[verifier::external_body]
pub(crate) fn from_bool(b: bool) -> (v: Value)
    ensures
        shape(v) == JsonShape::Bool(b),
{
    Value::from(b)
}

/// `Value::from` on a `u64`: a JSON number held as that non-negative integer.
#[verifier::external_body]
pub(crate) fn from_u64(n: u64) -> (v: Value)
    ensures
        shape(v) == JsonShape::Number(NumberShape::Unsigned(n)),
{
    Value::from(n)
}

/// The contents of the JSON number that holds the integer `n`.
pub open spec fn integer_shape(n: i64) -> JsonShape {
    if n < 0 {
        JsonShape::Number(NumberShape::Negative(n))
    } else {
        JsonShape::Number(NumberShape::Unsigned(n as u64))
    }
}

/// `Value::from` on an `i64`: a JSON number held as that integer, as a
/// negative one below zero and as a non-negative one otherwise.
#[verifier::external_body]
pub(crate) fn from_i64(n: i64) -> (v: Value)
    ensures
        shape(v) == integer_shape(n),
{
    Value::from(n)
}

/// `Value::Object` on `Map::new()`: an object without members.
#[verifier::external_body]
pub(crate) fn empty_object() -> (v: Value)
    ensures
        shape(v) == JsonShape::Object(Map::empty()),
{
    Value::Object(serde_json::Map::new())
}

/// `Value::Array` on a vector of values: an array of these items, in order.
#[verifier::external_body]
pub(crate) fn array(items: Vec<Value>) -> (v: Value)
    ensures
        shape(v) == JsonShape::Array(shapes(items@)),
{
    Value::Array(items)
}

/// Assignment through `Value`'s mutable index operator with a string key:
/// sets the member `key` of an object and leaves its other members as they
/// are; a null value is taken for an object without members. On any other
/// value the operator panics, so such a value is not admitted.
#[verifier::external_body]
pub(crate) fn set_member(object: &mut Value, key: &str, member: Value)
    requires
        shape(*old(object)) is Object || shape(*old(object)) is Null,
    ensures
        shape(*final(object)) == shape(*old(object)).with(key@, shape(member)),
{
    object[key] = member;
}

/// `Value::clone`: a value with the same contents.
#[verifier::external_body]
pub(crate) fn duplicate(v: &Value) -> (copy: Value)
    ensures
        shape(copy) == shape(*v),
{
    v.clone()
}

/// Sets the member `key` of `object` to the text under `key` in `from`,
/// where `from` holds a text there.
pub(crate) fn copy_text(object: &mut Value, from: &Value, key: &str)
    requires
        shape(*old(object)) is Object,
    ensures
        shape(*final(object)) == shape(*old(object)).with_some(key@, shape(*from).text_member(key@)),
        shape(*final(object)) is Object,
{
    match as_str(member(from, key)) {
        Some(t) => {
            set_member(object, key, from_text(t));
        },
        None => {},
    }
}

/// Sets the member `key` of `object` to the non-negative integer under `key`
/// in `from`, where `from` holds one there.
pub(crate) fn copy_unsigned(object: &mut Value, from: &Value, key: &str)
    requires
        shape(*old(object)) is Object,
    ensures
        shape(*final(object)) == shape(*old(object)).with_some(
            key@,
            shape(*from).unsigned_member(key@),
        ),
        shape(*final(object)) is Object,
{
    match as_u64(member(from, key)) {
        Some(n) => {
            set_member(object, key, from_u64(n));
        },
        None => {},
    }
}

/// Sets the member `key` of `object` to the integer under `key` in `from`,
/// where `from` holds one there.
pub(crate) fn copy_signed(object: &mut Value, from: &Value, key: &str)
    requires
        shape(*old(object)) is Object,
    ensures
        shape(*final(object)) == shape(*old(object)).with_some(
            key@,
            shape(*from).signed_member(key@),
        ),
        shape(*final(object)) is Object,
{
    match as_i64(member(from, key)) {
        Some(n) => {
            set_member(object, key, from_i64(n));
        },
        None => {},
    }
}

/// Sets the member `key` of `object` to a copy of the member `key` of `from`,
/// where `from` is an object that has one.
pub(crate) fn copy_member(object: &mut Value, from: &Value, key: &str)
    requires
        shape(*old(object)) is Object,
    ensures
        shape(*final(object)) == shape(*old(object)).with_some(key@, shape(*from).find(key@)),
        shape(*final(object)) is Object,
{
    match find(from, key) {
        Some(m) => {
            set_member(object, key, duplicate(m));
        },
        None => {},
    }
}

/// A JSON string with the text `text`, or null where there is none.
pub fn text_or_null(text: Option<&str>) -> (v: Value)
    ensures
        shape(v) == match text {
            Some(t) => JsonShape::String(t@),
            None => JsonShape::Null,
        },
{
    match text {
        Some(t) => from_text(t),
        None => null(),
    }
}

/// The text under `key`, where `v` holds a text there.
pub fn text_at<'a>(v: &'a Value, key: &str) -> (r: Option<&'a str>)
    ensures
        match r {
            Some(t) => shape(*v).member(key@).text() == Some(t@),
            None => shape(*v).member(key@).text() is None,
        },
{
    as_str(member(v, key))
}

/// Appends the text under `key`, or `default` where `v` holds no text there.
pub fn push_text_or(out: &mut String, v: &Value, key: &str, default: &str)
    ensures
        final(out)@ == old(out)@ + shape(*v).member(key@).text_or(default@),
{
    out.append(text_or(v, key, default));
}

/// Appends the numeral of the non-negative integer under `key`, or of
/// `default` where `v` holds none there.
pub fn push_unsigned_or(out: &mut String, v: &Value, key: &str, default: u64)
    ensures
        final(out)@ == old(out)@ + decimal(shape(*v).member(key@).unsigned_or(default) as nat),
{
    push_decimal(out, unsigned_or(v, key, default));
}

/// Appends the numeral of the integer under `key`, or of `default` where `v`
/// holds none there.
pub fn push_signed_or(out: &mut String, v: &Value, key: &str, default: i64)
    ensures
        final(out)@ == old(out)@ + signed_decimal(
            shape(*v).member(key@).signed_or(default) as int,
        ),
{
    push_signed_decimal(out, signed_or(v, key, default));
}

/// Appends `true` or `false` for the truth value under `key`, or for
/// `default` where `v` holds none there.
pub fn push_truth_or(out: &mut String, v: &Value, key: &str, default: bool)
    ensures
        final(out)@ == old(out)@ + truth_text(shape(*v).member(key@).truth_or(default)),
{
    out.append(truth_str(truth_or(v, key, default)));
}

/// The text under `key`, or `default` where `v` holds no text there.
pub fn text_or<'a>(v: &'a Value, key: &str, default: &'a str) -> (r: &'a str)
    ensures
        r@ == shape(*v).member(key@).text_or(default@),
{
    match as_str(member(v, key)) {
        Some(s) => s,
        None => default,
    }
}

/// The truth value under `key`, or `default` where `v` holds none there.
pub fn truth_or(v: &Value, key: &str, default: bool) -> (r: bool)
    ensures
        r == shape(*v).member(key@).truth_or(default),
{
    match as_bool(member(v, key)) {
        Some(b) => b,
        None => default,
    }
}

/// The non-negative integer under `key`, or `default` where `v` holds none
/// there.
pub fn unsigned_or(v: &Value, key: &str, default: u64) -> (r: u64)
    ensures
        r == shape(*v).member(key@).unsigned_or(default),
{
    match as_u64(member(v, key)) {
        Some(n) => n,
        None => default,
    }
}

/// The integer under `key`, or `default` where `v` holds none there.
pub fn signed_or(v: &Value, key: &str, default: i64) -> (r: i64)
    ensures
        r == shape(*v).member(key@).signed_or(default),
{
    match as_i64(member(v, key)) {
        Some(n) => n,
        None => default,
    }
}

} // verus!
