//! JSON documents as plain values, and the reading of record fields.
//!
//! A node's payload arrives as a JSON value and is read against the schema of
//! the node's kind. This module holds the document model and the rules by
//! which one field of a record is read: which JSON values a text, a number or
//! a flag accepts, and what a missing or `null` field means.

use crate::text::{
    chars_of, copy_string, decimal, opt_text, push_decimal, str_eq, string_from_chars,
};
use vstd::prelude::*;

verus! {

/// A JSON value.
///
/// A number is kept as its literal, in the form a JSON document writes it
/// (`443`, `-7`, `12.5`, `1e+300`), so that every number survives a round trip
/// unchanged.
#[derive(Debug, PartialEq, Eq)]
pub enum Json {
    /// `null`
    Null,
    /// `true` or `false`
    Bool(bool),
    /// A number, as its literal.
    Number(String),
    /// A string.
    Text(String),
    /// An array.
    Array(Vec<Json>),
    /// An object: its members in order.
    Object(Vec<Member>),
}

/// One member of a JSON object.
#[derive(Debug, PartialEq, Eq)]
pub struct Member {
    /// The member's name.
    pub name: String,
    /// The member's value.
    pub value: Json,
}

/// The mathematical view of a [`Json`] value.
pub enum JsonView {
    Null,
    Bool(bool),
    Number(Seq<char>),
    Text(Seq<char>),
    Array(Seq<JsonView>),
    Object(Seq<MemberView>),
}

/// The mathematical view of a [`Member`].
pub struct MemberView {
    pub name: Seq<char>,
    pub value: JsonView,
}

impl View for Json {
    type V = JsonView;

    open spec fn view(&self) -> JsonView
        decreases self,
    {
        match self {
            Json::Null => JsonView::Null,
            Json::Bool(b) => JsonView::Bool(*b),
            Json::Number(n) => JsonView::Number(n@),
            Json::Text(s) => JsonView::Text(s@),
            Json::Array(items) => JsonView::Array(
                Seq::new(
                    items@.len(),
                    |i: int|
                        if 0 <= i < items@.len() {
                            items@[i].view()
                        } else {
                            JsonView::Null
                        },
                ),
            ),
            Json::Object(members) => JsonView::Object(
                Seq::new(
                    members@.len(),
                    |i: int|
                        if 0 <= i < members@.len() {
                            MemberView { name: members@[i].name@, value: members@[i].value.view() }
                        } else {
                            MemberView { name: Seq::empty(), value: JsonView::Null }
                        },
                ),
            ),
        }
    }
}

/// Copies a value, with all that it holds.
pub fn copy_json(j: &Json) -> (r: Json)
    ensures
        r@ == j@,
    decreases j,
{
    match j {
        Json::Null => Json::Null,
        Json::Bool(b) => Json::Bool(*b),
        Json::Number(n) => Json::Number(n.clone()),
        Json::Text(s) => Json::Text(s.clone()),
        Json::Array(items) => {
            let mut out: Vec<Json> = Vec::new();
            let mut i: usize = 0;
            while i < items.len()
                invariant
                    i <= items.len(),
                    j matches Json::Array(v) && v == items,
                    out@.len() == i,
                    forall|k: int| 0 <= k < i ==> out@[k]@ == items@[k]@,
                decreases items.len() - i,
            {
                proof {
                    assert(decreases_to!(j => items[i as int]));
                }
                let item = copy_json(&items[i]);
                out.push(item);
                i += 1;
            }
            let r = Json::Array(out);
            proof {
                assert(r@->Array_0 =~= j@->Array_0);
            }
            r
        },
        Json::Object(members) => {
            let mut out: Vec<Member> = Vec::new();
            let mut i: usize = 0;
            while i < members.len()
                invariant
                    i <= members.len(),
                    j matches Json::Object(v) && v == members,
                    out@.len() == i,
                    forall|k: int|
                        0 <= k < i ==> out@[k].name@ == members@[k].name@ && out@[k].value@
                            == members@[k].value@,
                decreases members.len() - i,
            {
                proof {
                    assert(decreases_to!(j => members[i as int].value));
                }
                let value = copy_json(&members[i].value);
                out.push(Member { name: members[i].name.clone(), value });
                i += 1;
            }
            let r = Json::Object(out);
            proof {
                assert(r@->Object_0 =~= j@->Object_0);
            }
            r
        },
    }
}

impl Clone for Json {
    fn clone(&self) -> (r: Self)
        ensures
            r@ == self@,
    {
        copy_json(self)
    }
}

// ---------------------------------------------------------------------------
// Members of an object
// ---------------------------------------------------------------------------

/// The value of the first member named `name`.
pub open spec fn member_of(members: Seq<MemberView>, name: Seq<char>) -> Option<JsonView>
    decreases members.len(),
{
    if members.len() == 0 {
        None
    } else if members[0].name == name {
        Some(members[0].value)
    } else {
        member_of(members.skip(1), name)
    }
}

/// The member `name` of an object; `None` for a value that is no object or
/// has no such member.
pub open spec fn member(j: JsonView, name: Seq<char>) -> Option<JsonView> {
    match j {
        JsonView::Object(members) => member_of(members, name),
        _ => None,
    }
}

/// The member at position `k` is the one that a lookup of its name finds,
/// where no earlier member has that name.
pub proof fn lemma_member_at(members: Seq<MemberView>, name: Seq<char>, k: int)
    requires
        0 <= k < members.len(),
        members[k].name == name,
        forall|i: int| 0 <= i < k ==> members[i].name != name,
    ensures
        member_of(members, name) == Some(members[k].value),
    decreases k,
{
    if k > 0 {
        let rest = members.skip(1);
        assert forall|i: int| 0 <= i < k - 1 implies rest[i].name != name by {
            assert(rest[i] == members[i + 1]);
        }
        assert(rest[k - 1] == members[k]);
        lemma_member_at(rest, name, k - 1);
    }
}

/// The members that begin with `first` and go on with `rest`.
pub open spec fn with_member(first: MemberView, rest: Seq<MemberView>) -> Seq<MemberView> {
    seq![first] + rest
}

/// A lookup tests the first member and goes on with the rest.
pub proof fn lemma_lookup_steps()
    ensures
        forall|first: MemberView, rest: Seq<MemberView>, name: Seq<char>| #[trigger]
            member_of(with_member(first, rest), name) == (if first.name == name {
                Some(first.value)
            } else {
                member_of(rest, name)
            }),
{
    assert forall|first: MemberView, rest: Seq<MemberView>, name: Seq<char>| #[trigger]
        member_of(with_member(first, rest), name) == (if first.name == name {
            Some(first.value)
        } else {
            member_of(rest, name)
        }) by {
        let all = with_member(first, rest);
        assert(all[0] == first);
        assert(all.skip(1) =~= rest);
    }
}

/// Looks up the member `name` of an object.
pub fn get<'a>(j: &'a Json, name: &str) -> (r: Option<&'a Json>)
    ensures
        match r {
            Some(v) => member(j@, name@) == Some(v@),
            None => member(j@, name@) is None,
        },
{
    match j {
        Json::Object(members) => {
            let ghost all = j@->Object_0;
            let mut i: usize = 0;
            proof {
                assert(all.skip(0) =~= all);
            }
            while i < members.len()
                invariant
                    i <= members.len(),
                    j@ == JsonView::Object(all),
                    all.len() == members@.len(),
                    forall|k: int|
                        0 <= k < all.len() ==> all[k].name == members@[k].name@ && all[k].value
                            == members@[k].value@,
                    member_of(all, name@) == member_of(all.skip(i as int), name@),
                decreases members.len() - i,
            {
                proof {
                    let rest = all.skip(i as int);
                    assert(rest[0] == all[i as int]);
                    assert(rest.skip(1) =~= all.skip(i + 1));
                }
                if str_eq(members[i].name.as_str(), name) {
                    return Some(&members[i].value);
                }
                i += 1;
            }
            None
        },
        _ => None,
    }
}

// ---------------------------------------------------------------------------
// Records
// ---------------------------------------------------------------------------

/// Whether a value can be read as a record of `count` fields: an object, or
/// an array that holds exactly the fields' values in their order.
pub open spec fn is_record(j: JsonView, count: nat) -> bool {
    match j {
        JsonView::Object(_) => true,
        JsonView::Array(items) => items.len() == count,
        _ => false,
    }
}

/// The value given for a record's field: the member of that name in an
/// object, the element at the field's position in an array. `None` where an
/// object has no such member.
pub open spec fn field_slot(j: JsonView, name: Seq<char>, index: int) -> Option<JsonView> {
    match j {
        JsonView::Object(members) => member_of(members, name),
        JsonView::Array(items) => if 0 <= index < items.len() {
            Some(items[index])
        } else {
            None
        },
        _ => None,
    }
}

/// The view of an optional reference to a value.
pub open spec fn opt_json(o: Option<&Json>) -> Option<JsonView> {
    match o {
        Some(v) => Some(v@),
        None => None,
    }
}

/// Whether a value can be read as a record of `count` fields.
pub fn check_record(j: &Json, count: usize) -> (r: bool)
    ensures
        r == is_record(j@, count as nat),
{
    match j {
        Json::Object(_) => true,
        Json::Array(items) => items.len() == count,
        _ => false,
    }
}

/// The value given for the field `name`, which stands at position `index`.
pub fn slot<'a>(j: &'a Json, name: &str, index: usize) -> (r: Option<&'a Json>)
    ensures
        opt_json(r) == field_slot(j@, name@, index as int),
{
    match j {
        Json::Object(_) => get(j, name),
        Json::Array(items) => if index < items.len() {
            Some(&items[index])
        } else {
            None
        },
        _ => None,
    }
}

// ---------------------------------------------------------------------------
// Field values
// ---------------------------------------------------------------------------

/// Whether a character is a decimal digit.
pub open spec fn is_digit(c: char) -> bool {
    '0' <= c && c <= '9'
}

/// The number that a text of decimal digits writes.
pub open spec fn digits_value(s: Seq<char>) -> nat
    decreases s.len(),
{
    if s.len() == 0 {
        0
    } else {
        10 * digits_value(s.drop_last()) + ((s.last() as u8) - ('0' as u8)) as nat
    }
}

/// The value of a number literal that is a non-negative integer: one or more
/// decimal digits and nothing else.
pub open spec fn natural_of(literal: Seq<char>) -> Option<nat> {
    if literal.len() > 0 && (forall|i: int| 0 <= i < literal.len() ==> is_digit(literal[i])) {
        Some(digits_value(literal))
    } else {
        None
    }
}

/// A required text: the field must be given, as a string.
pub open spec fn text_field(slot: Option<JsonView>) -> Option<Seq<char>> {
    match slot {
        Some(JsonView::Text(s)) => Some(s),
        _ => None,
    }
}

/// An optional text: absent or `null` is no text, a string is that text, and
/// anything else does not fit. The outer `None` stands for "does not fit".
pub open spec fn opt_text_field(slot: Option<JsonView>) -> Option<Option<Seq<char>>> {
    match slot {
        None => Some(None),
        Some(JsonView::Null) => Some(None),
        Some(JsonView::Text(s)) => Some(Some(s)),
        _ => None,
    }
}

/// An optional flag: absent or `null` is no flag, a boolean is that flag.
pub open spec fn opt_bool_field(slot: Option<JsonView>) -> Option<Option<bool>> {
    match slot {
        None => Some(None),
        Some(JsonView::Null) => Some(None),
        Some(JsonView::Bool(b)) => Some(Some(b)),
        _ => None,
    }
}

/// A required unsigned number of at most `max`: a number whose literal is a
/// non-negative integer in range.
pub open spec fn uint_field(slot: Option<JsonView>, max: nat) -> Option<nat> {
    match slot {
        Some(JsonView::Number(literal)) => match natural_of(literal) {
            Some(n) => if n <= max {
                Some(n)
            } else {
                None
            },
            None => None,
        },
        _ => None,
    }
}

/// An optional unsigned number of at most `max`.
pub open spec fn opt_uint_field(slot: Option<JsonView>, max: nat) -> Option<Option<nat>> {
    match slot {
        None => Some(None),
        Some(JsonView::Null) => Some(None),
        Some(v) => match uint_field(Some(v), max) {
            Some(n) => Some(Some(n)),
            None => None,
        },
    }
}

/// An optional number that fits 16 bits.
pub open spec fn opt_u16_field(slot: Option<JsonView>) -> Option<Option<u16>> {
    match opt_uint_field(slot, 0xffff) {
        Some(Some(n)) => Some(Some(n as u16)),
        Some(None) => Some(None),
        None => None,
    }
}

/// An optional number that fits 32 bits.
pub open spec fn opt_u32_field(slot: Option<JsonView>) -> Option<Option<u32>> {
    match opt_uint_field(slot, 0xffff_ffff) {
        Some(Some(n)) => Some(Some(n as u32)),
        Some(None) => Some(None),
        None => None,
    }
}

/// An optional number that fits 64 bits.
pub open spec fn opt_u64_field(slot: Option<JsonView>) -> Option<Option<u64>> {
    match opt_uint_field(slot, 0xffff_ffff_ffff_ffff) {
        Some(Some(n)) => Some(Some(n as u64)),
        Some(None) => Some(None),
        None => None,
    }
}

/// A required number that fits 32 bits.
pub open spec fn u32_field(slot: Option<JsonView>) -> Option<u32> {
    match uint_field(slot, 0xffff_ffff) {
        Some(n) => Some(n as u32),
        None => None,
    }
}

/// A required value of any form: the field must be given.
pub open spec fn any_field(slot: Option<JsonView>) -> Option<JsonView> {
    slot
}

/// A required number of any form: the literal of a number.
pub open spec fn number_field(slot: Option<JsonView>) -> Option<Seq<char>> {
    match slot {
        Some(JsonView::Number(literal)) => Some(literal),
        _ => None,
    }
}

/// Appending a digit never lowers the value.
proof fn lemma_digits_value_grows(s: Seq<char>, k: int)
    requires
        0 <= k <= s.len(),
        forall|i: int| 0 <= i < s.len() ==> is_digit(s[i]),
    ensures
        digits_value(s.take(k)) <= digits_value(s),
    decreases s.len() - k,
{
    if k < s.len() {
        let next = s.take(k + 1);
        assert(next.drop_last() =~= s.take(k));
        lemma_digits_value_grows(s, k + 1);
    } else {
        assert(s.take(k) =~= s);
    }
}

/// Reads a number literal as an unsigned integer of at most `max`.
pub fn parse_natural(literal: &str, max: u64) -> (r: Option<u64>)
    ensures
        r == (match natural_of(literal@) {
            Some(n) => if n <= max {
                Some(n as u64)
            } else {
                None
            },
            None => None,
        }),
{
    let chars = chars_of(literal);
    if chars.len() == 0 {
        return None;
    }
    let mut i: usize = 0;
    let mut all_digits: bool = true;
    while i < chars.len()
        invariant
            i <= chars.len(),
            all_digits == (forall|k: int| 0 <= k < i ==> is_digit(chars@[k])),
        decreases chars.len() - i,
    {
        let c = chars[i];
        if !('0' <= c && c <= '9') {
            all_digits = false;
        }
        i += 1;
    }
    if !all_digits {
        return None;
    }
    let mut value: u64 = 0;
    let mut k: usize = 0;
    while k < chars.len()
        invariant
            k <= chars.len(),
            chars@ == literal@,
            forall|j: int| 0 <= j < chars@.len() ==> is_digit(chars@[j]),
            value == digits_value(chars@.take(k as int)),
            value <= max,
        decreases chars.len() - k,
    {
        let d: u64 = ((chars[k] as u8) - ('0' as u8)) as u64;
        proof {
            let next = chars@.take(k + 1);
            assert(next.drop_last() =~= chars@.take(k as int));
            assert(next.last() == chars@[k as int]);
            assert(digits_value(next) == 10 * value + d);
            lemma_digits_value_grows(chars@, k + 1);
        }
        let next: u128 = (value as u128) * 10 + (d as u128);
        if next > max as u128 {
            return None;
        }
        value = next as u64;
        k += 1;
    }
    proof {
        assert(chars@.take(chars@.len() as int) =~= chars@);
    }
    Some(value)
}

/// Reads a required text.
pub fn read_text(slot: Option<&Json>) -> (r: Option<String>)
    ensures
        opt_text(r) == text_field(opt_json(slot)),
{
    match slot {
        Some(Json::Text(s)) => Some(s.clone()),
        _ => None,
    }
}

/// Reads an optional text. `Err` stands for a value that does not fit.
pub fn read_opt_text(slot: Option<&Json>) -> (r: Result<Option<String>, ()>)
    ensures
        match r {
            Ok(v) => opt_text_field(opt_json(slot)) == Some(opt_text(v)),
            Err(_) => opt_text_field(opt_json(slot)) is None,
        },
{
    match slot {
        None => Ok(None),
        Some(Json::Null) => Ok(None),
        Some(Json::Text(s)) => Ok(Some(s.clone())),
        _ => Err(()),
    }
}

/// Reads an optional flag. `Err` stands for a value that does not fit.
pub fn read_opt_bool(slot: Option<&Json>) -> (r: Result<Option<bool>, ()>)
    ensures
        match r {
            Ok(v) => opt_bool_field(opt_json(slot)) == Some(v),
            Err(_) => opt_bool_field(opt_json(slot)) is None,
        },
{
    match slot {
        None => Ok(None),
        Some(Json::Null) => Ok(None),
        Some(Json::Bool(b)) => Ok(Some(*b)),
        _ => Err(()),
    }
}

/// Reads a required unsigned number of at most `max`.
pub fn read_uint(slot: Option<&Json>, max: u64) -> (r: Option<u64>)
    ensures
        match r {
            Some(n) => uint_field(opt_json(slot), max as nat) == Some(n as nat),
            None => uint_field(opt_json(slot), max as nat) is None,
        },
{
    match slot {
        Some(Json::Number(literal)) => parse_natural(literal.as_str(), max),
        _ => None,
    }
}

/// Reads an optional unsigned number of at most `max`. `Err` stands for a
/// value that does not fit.
pub fn read_opt_uint(slot: Option<&Json>, max: u64) -> (r: Result<Option<u64>, ()>)
    ensures
        match r {
            Ok(Some(n)) => opt_uint_field(opt_json(slot), max as nat) == Some(Some(n as nat)),
            Ok(None) => opt_uint_field(opt_json(slot), max as nat) == Some(None::<nat>),
            Err(_) => opt_uint_field(opt_json(slot), max as nat) is None,
        },
{
    match slot {
        None => Ok(None),
        Some(Json::Null) => Ok(None),
        Some(v) => match read_uint(Some(v), max) {
            Some(n) => Ok(Some(n)),
            None => Err(()),
        },
    }
}

/// Reads an optional number that fits 16 bits.
pub fn read_opt_u16(slot: Option<&Json>) -> (r: Result<Option<u16>, ()>)
    ensures
        match r {
            Ok(v) => opt_u16_field(opt_json(slot)) == Some(v),
            Err(_) => opt_u16_field(opt_json(slot)) is None,
        },
{
    match read_opt_uint(slot, 0xffff) {
        Ok(Some(n)) => Ok(Some(n as u16)),
        Ok(None) => Ok(None),
        Err(_) => Err(()),
    }
}

/// Reads an optional number that fits 32 bits.
pub fn read_opt_u32(slot: Option<&Json>) -> (r: Result<Option<u32>, ()>)
    ensures
        match r {
            Ok(v) => opt_u32_field(opt_json(slot)) == Some(v),
            Err(_) => opt_u32_field(opt_json(slot)) is None,
        },
{
    match read_opt_uint(slot, 0xffff_ffff) {
        Ok(Some(n)) => Ok(Some(n as u32)),
        Ok(None) => Ok(None),
        Err(_) => Err(()),
    }
}

/// Reads an optional number that fits 64 bits.
pub fn read_opt_u64(slot: Option<&Json>) -> (r: Result<Option<u64>, ()>)
    ensures
        match r {
            Ok(v) => opt_u64_field(opt_json(slot)) == Some(v),
            Err(_) => opt_u64_field(opt_json(slot)) is None,
        },
{
    match read_opt_uint(slot, 0xffff_ffff_ffff_ffff) {
        Ok(Some(n)) => Ok(Some(n)),
        Ok(None) => Ok(None),
        Err(_) => Err(()),
    }
}

/// Reads a required number that fits 32 bits.
pub fn read_u32(slot: Option<&Json>) -> (r: Option<u32>)
    ensures
        r == u32_field(opt_json(slot)),
{
    match read_uint(slot, 0xffff_ffff) {
        Some(n) => Some(n as u32),
        None => None,
    }
}

/// Reads a required number of any form, as its literal.
pub fn read_number(slot: Option<&Json>) -> (r: Option<String>)
    ensures
        opt_text(r) == number_field(opt_json(slot)),
{
    match slot {
        Some(Json::Number(literal)) => Some(literal.clone()),
        _ => None,
    }
}

// ---------------------------------------------------------------------------
// Writing field values
// ---------------------------------------------------------------------------

/// A member of an object.
pub open spec fn member_view(name: Seq<char>, value: JsonView) -> MemberView {
    MemberView { name, value }
}

/// An optional text as a JSON value: the string, or `null`.
pub open spec fn json_opt_text(value: Option<Seq<char>>) -> JsonView {
    match value {
        Some(s) => JsonView::Text(s),
        None => JsonView::Null,
    }
}

/// An optional flag as a JSON value: the boolean, or `null`.
pub open spec fn json_opt_bool(value: Option<bool>) -> JsonView {
    match value {
        Some(b) => JsonView::Bool(b),
        None => JsonView::Null,
    }
}

/// An unsigned number as a JSON value: its decimal numeral.
pub open spec fn json_uint(value: nat) -> JsonView {
    JsonView::Number(decimal(value))
}

/// An optional 16-bit number as a JSON value.
pub open spec fn json_opt_u16(value: Option<u16>) -> JsonView {
    match value {
        Some(n) => json_uint(n as nat),
        None => JsonView::Null,
    }
}

/// An optional 32-bit number as a JSON value.
pub open spec fn json_opt_u32(value: Option<u32>) -> JsonView {
    match value {
        Some(n) => json_uint(n as nat),
        None => JsonView::Null,
    }
}

/// An optional 64-bit number as a JSON value.
pub open spec fn json_opt_u64(value: Option<u64>) -> JsonView {
    match value {
        Some(n) => json_uint(n as nat),
        None => JsonView::Null,
    }
}

/// A decimal numeral holds digits only, and at least one.
pub proof fn lemma_decimal_is_digits(n: nat)
    ensures
        decimal(n).len() > 0,
        forall|i: int| 0 <= i < decimal(n).len() ==> is_digit(#[trigger] decimal(n)[i]),
    decreases n,
{
    if n >= 10 {
        lemma_decimal_is_digits(n / 10);
    }
}

/// A decimal numeral writes the number it was made from.
pub proof fn lemma_decimal_value(n: nat)
    ensures
        digits_value(decimal(n)) == n,
    decreases n,
{
    if n < 10 {
        let s = decimal(n);
        assert(s.drop_last() =~= Seq::<char>::empty());
        assert(digits_value(s.drop_last()) == 0);
    } else {
        lemma_decimal_value(n / 10);
        let s = decimal(n);
        assert(s.drop_last() =~= decimal(n / 10));
    }
}

/// Reading a number that was written gives the number back.
pub proof fn lemma_uint_round_trip(n: nat, max: nat)
    requires
        n <= max,
    ensures
        uint_field(Some(json_uint(n)), max) == Some(n),
        opt_uint_field(Some(json_uint(n)), max) == Some(Some(n)),
{
    lemma_decimal_is_digits(n);
    lemma_decimal_value(n);
}

/// Reading an optional text that was written gives it back.
pub proof fn lemma_opt_text_round_trip(value: Option<Seq<char>>)
    ensures
        opt_text_field(Some(json_opt_text(value))) == Some(value),
{
}

/// Reading an optional flag that was written gives it back.
pub proof fn lemma_opt_bool_round_trip(value: Option<bool>)
    ensures
        opt_bool_field(Some(json_opt_bool(value))) == Some(value),
{
}

/// Reading an optional 16-bit number that was written gives it back.
pub proof fn lemma_opt_u16_round_trip(value: Option<u16>)
    ensures
        opt_u16_field(Some(json_opt_u16(value))) == Some(value),
{
    if let Some(n) = value {
        lemma_uint_round_trip(n as nat, 0xffff);
    }
}

/// Reading an optional 32-bit number that was written gives it back.
pub proof fn lemma_opt_u32_round_trip(value: Option<u32>)
    ensures
        opt_u32_field(Some(json_opt_u32(value))) == Some(value),
{
    if let Some(n) = value {
        lemma_uint_round_trip(n as nat, 0xffff_ffff);
    }
}

/// Reading an optional 64-bit number that was written gives it back.
pub proof fn lemma_opt_u64_round_trip(value: Option<u64>)
    ensures
        opt_u64_field(Some(json_opt_u64(value))) == Some(value),
{
    if let Some(n) = value {
        lemma_uint_round_trip(n as nat, 0xffff_ffff_ffff_ffff);
    }
}

/// Reading a 32-bit number that was written gives it back.
pub proof fn lemma_u32_round_trip(value: u32)
    ensures
        u32_field(Some(json_uint(value as nat))) == Some(value),
{
    lemma_uint_round_trip(value as nat, 0xffff_ffff);
}

/// Writes a text.
pub fn write_text(value: &String) -> (r: Json)
    ensures
        r@ == JsonView::Text(value@),
{
    Json::Text(value.clone())
}

/// Writes an optional text.
pub fn write_opt_text(value: &Option<String>) -> (r: Json)
    ensures
        r@ == json_opt_text(opt_text(*value)),
{
    match value {
        Some(s) => Json::Text(s.clone()),
        None => Json::Null,
    }
}

/// Writes an optional flag.
pub fn write_opt_bool(value: &Option<bool>) -> (r: Json)
    ensures
        r@ == json_opt_bool(*value),
{
    match value {
        Some(b) => Json::Bool(*b),
        None => Json::Null,
    }
}

/// Writes an unsigned number.
pub fn write_uint(value: u64) -> (r: Json)
    ensures
        r@ == json_uint(value as nat),
{
    let mut digits: Vec<char> = Vec::new();
    push_decimal(&mut digits, value as u128);
    proof {
        assert(digits@ =~= decimal(value as nat));
    }
    Json::Number(string_from_chars(&digits))
}

/// Writes an optional 16-bit number.
pub fn write_opt_u16(value: &Option<u16>) -> (r: Json)
    ensures
        r@ == json_opt_u16(*value),
{
    match value {
        Some(n) => write_uint(*n as u64),
        None => Json::Null,
    }
}

/// Writes an optional 32-bit number.
pub fn write_opt_u32(value: &Option<u32>) -> (r: Json)
    ensures
        r@ == json_opt_u32(*value),
{
    match value {
        Some(n) => write_uint(*n as u64),
        None => Json::Null,
    }
}

/// Writes an optional 64-bit number.
pub fn write_opt_u64(value: &Option<u64>) -> (r: Json)
    ensures
        r@ == json_opt_u64(*value),
{
    match value {
        Some(n) => write_uint(*n),
        None => Json::Null,
    }
}

/// Writes a number from its literal.
pub fn write_number(literal: &String) -> (r: Json)
    ensures
        r@ == JsonView::Number(literal@),
{
    Json::Number(literal.clone())
}

/// Makes a member of an object.
pub fn make_member(name: &str, value: Json) -> (r: Member)
    ensures
        r.name@ == name@,
        r.value@ == value@,
{
    Member { name: copy_string(name), value }
}

/// Makes an object of its members.
pub fn make_object(members: Vec<Member>) -> (r: Json)
    ensures
        r@ == JsonView::Object(members@.map_values(|m: Member| member_view(m.name@, m.value@))),
{
    let ghost expected = members@.map_values(|m: Member| member_view(m.name@, m.value@));
    let r = Json::Object(members);
    proof {
        assert(r@->Object_0 =~= expected);
    }
    r
}

} // verus!
