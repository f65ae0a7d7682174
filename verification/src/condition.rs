//! The condition evaluator.
//!
//! A condition tests one resolved field value against a configured value with
//! a named operator; a rule group combines the results of several conditions
//! with `AND`, `OR` or `NOT`.

use crate::text::{
    chars_of, contains, ends_with, has_prefix, has_substring, has_suffix, matches_at, opt_str,
    slice_of, split_trimmed, starts_with, str_eq, string_from_chars, text_or_empty, to_uppercase,
    trimmed_parts, uppercase,
};
use crate::types::ConditionNodeData;
use vstd::prelude::*;

verus! {

// ---------------------------------------------------------------------------
// Operators
// ---------------------------------------------------------------------------

/// The comparisons a condition can name. Each variant lists the names that
/// select it.
#[derive(Debug, Clone, Copy, PartialEq, Eq)]
pub enum Operator {
    /// `equals`
    Equals,
    /// `notEquals`, `!=`
    NotEquals,
    /// `startsWith`, `starts`
    StartsWith,
    /// `endsWith`, `ends`
    EndsWith,
    /// `contains`
    Contains,
    /// `notContains`
    NotContains,
    /// `in`
    In,
    /// `notIn`, `!in`
    NotIn,
    /// `matches`
    Matches,
    /// `inCidr`
    InCidr,
    /// `greaterThan`, `>`
    GreaterThan,
    /// `lessThan`, `<`
    LessThan,
    /// `greaterOrEqual`, `>=`
    GreaterOrEqual,
    /// `lessOrEqual`, `<=`
    LessOrEqual,
    /// `exists`
    Exists,
    /// `notExists`
    NotExists,
    /// Any other name.
    Unknown,
}

/// The comparison that an operator name selects.
pub open spec fn operator_of(name: Seq<char>) -> Operator {
    if name == "equals"@ {
        Operator::Equals
    } else if name == "startsWith"@ || name == "starts"@ {
        Operator::StartsWith
    } else if name == "endsWith"@ || name == "ends"@ {
        Operator::EndsWith
    } else if name == "contains"@ {
        Operator::Contains
    } else if name == "notContains"@ {
        Operator::NotContains
    } else if name == "notEquals"@ || name == "!="@ {
        Operator::NotEquals
    } else if name == "in"@ {
        Operator::In
    } else if name == "notIn"@ || name == "!in"@ {
        Operator::NotIn
    } else if name == "matches"@ {
        Operator::Matches
    } else if name == "inCidr"@ {
        Operator::InCidr
    } else if name == "greaterThan"@ || name == ">"@ {
        Operator::GreaterThan
    } else if name == "lessThan"@ || name == "<"@ {
        Operator::LessThan
    } else if name == "greaterOrEqual"@ || name == ">="@ {
        Operator::GreaterOrEqual
    } else if name == "lessOrEqual"@ || name == "<="@ {
        Operator::LessOrEqual
    } else if name == "exists"@ {
        Operator::Exists
    } else if name == "notExists"@ {
        Operator::NotExists
    } else {
        Operator::Unknown
    }
}

/// The comparison that an operator name selects.
pub fn classify_operator(name: &str) -> (r: Operator)
    ensures
        r == operator_of(name@),
{
    if str_eq(name, "equals") {
        Operator::Equals
    } else if str_eq(name, "startsWith") || str_eq(name, "starts") {
        Operator::StartsWith
    } else if str_eq(name, "endsWith") || str_eq(name, "ends") {
        Operator::EndsWith
    } else if str_eq(name, "contains") {
        Operator::Contains
    } else if str_eq(name, "notContains") {
        Operator::NotContains
    } else if str_eq(name, "notEquals") || str_eq(name, "!=") {
        Operator::NotEquals
    } else if str_eq(name, "in") {
        Operator::In
    } else if str_eq(name, "notIn") || str_eq(name, "!in") {
        Operator::NotIn
    } else if str_eq(name, "matches") {
        Operator::Matches
    } else if str_eq(name, "inCidr") {
        Operator::InCidr
    } else if str_eq(name, "greaterThan") || str_eq(name, ">") {
        Operator::GreaterThan
    } else if str_eq(name, "lessThan") || str_eq(name, "<") {
        Operator::LessThan
    } else if str_eq(name, "greaterOrEqual") || str_eq(name, ">=") {
        Operator::GreaterOrEqual
    } else if str_eq(name, "lessOrEqual") || str_eq(name, "<=") {
        Operator::LessOrEqual
    } else if str_eq(name, "exists") {
        Operator::Exists
    } else if str_eq(name, "notExists") {
        Operator::NotExists
    } else {
        Operator::Unknown
    }
}

/// Whether a comparison reads both sides as numbers.
pub open spec fn is_numeric(op: Operator) -> bool {
    op == Operator::GreaterThan || op == Operator::LessThan || op == Operator::GreaterOrEqual || op
        == Operator::LessOrEqual
}

/// Whether the operator of this name reads both sides as numbers.
pub fn is_numeric_operator(name: &str) -> (r: bool)
    ensures
        r == is_numeric(operator_of(name@)),
{
    match classify_operator(name) {
        Operator::GreaterThan
        | Operator::LessThan
        | Operator::GreaterOrEqual
        | Operator::LessOrEqual => true,
        _ => false,
    }
}

/// How two texts relate when both are read as IEEE-754 double precision
/// numbers. The host computes it, as this library holds no floating point.
#[derive(Debug, Clone, Copy, PartialEq, Eq)]
pub enum NumericOrder {
    /// The left number is the smaller one.
    Less,
    /// The two numbers are equal.
    Equal,
    /// The left number is the greater one.
    Greater,
    /// One of the texts is no number, or the two do not compare.
    Unordered,
}

// ---------------------------------------------------------------------------
// Regular expressions
// ---------------------------------------------------------------------------

/// Whether the regular expression `pattern` matches anywhere in `haystack`;
/// `None` where `pattern` is no valid regular expression.
pub uninterp spec fn regex_match(pattern: Seq<char>, haystack: Seq<char>) -> Option<bool>;

/// `regex::Regex::new` followed by `Regex::is_match`. The pattern is compiled
/// with the crate's default settings; where that fails the result is `None`,
/// else it says whether the expression matches anywhere in the haystack. The
/// result is named [`regex_match`].
#[verifier::external_body]
fn regex_is_match(pattern: &str, haystack: &str) -> (r: Option<bool>)
    ensures
        r == regex_match(pattern@, haystack@),
{
    regex::Regex::new(pattern).ok().map(|re| re.is_match(haystack))
}

// ---------------------------------------------------------------------------
// Addresses and networks
// ---------------------------------------------------------------------------

/// An IP address as a number.
#[derive(Debug, Clone, Copy, PartialEq, Eq)]
pub enum IpValue {
    /// An IPv4 address, its first octet in the highest bits.
    V4(u32),
    /// An IPv6 address, its first segment in the highest bits.
    V6(u128),
}

/// A network in CIDR notation: an address and the length of the prefix.
#[derive(Debug, Clone, Copy, PartialEq, Eq)]
pub struct CidrBlock {
    /// The address as written, host bits included.
    pub addr: IpValue,
    /// The number of leading bits that make up the network.
    pub prefix: u8,
}

/// The address that a text writes; `None` where it writes none.
pub uninterp spec fn ip_of(text: Seq<char>) -> Option<IpValue>;

/// `str::parse::<IpAddr>`, with the address handed over as a number. The
/// result is named [`ip_of`].
#[verifier::external_body]
fn parse_ip(text: &str) -> (r: Option<IpValue>)
    ensures
        r == ip_of(text@),
{
    match text.parse::<core::net::IpAddr>() {
        Ok(core::net::IpAddr::V4(a)) => Some(IpValue::V4(u32::from(a))),
        Ok(core::net::IpAddr::V6(a)) => Some(IpValue::V6(u128::from(a))),
        Err(_) => None,
    }
}

/// The network that a text in CIDR notation writes; `None` where it writes
/// none.
pub uninterp spec fn cidr_of(text: Seq<char>) -> Option<CidrBlock>;

/// `str::parse::<ipnet::IpNet>`, with the network handed over as its address
/// (`addr()`) and its prefix length (`prefix_len()`). The result is named
/// [`cidr_of`].
#[verifier::external_body]
fn parse_cidr(text: &str) -> (r: Option<CidrBlock>)
    ensures
        r == cidr_of(text@),
{
    match text.parse::<ipnet::IpNet>() {
        Ok(ipnet::IpNet::V4(n)) => Some(
            CidrBlock { addr: IpValue::V4(u32::from(n.addr())), prefix: n.prefix_len() },
        ),
        Ok(ipnet::IpNet::V6(n)) => Some(
            CidrBlock { addr: IpValue::V6(u128::from(n.addr())), prefix: n.prefix_len() },
        ),
        Err(_) => None,
    }
}

/// The network mask of an IPv4 prefix: that many leading one bits.
pub open spec fn netmask_v4(prefix: u8) -> u32 {
    if prefix == 0 {
        0u32
    } else if prefix >= 32 {
        0xffff_ffffu32
    } else {
        0xffff_ffffu32 << ((32 - prefix) as u32)
    }
}

/// The network mask of an IPv6 prefix: that many leading one bits.
pub open spec fn netmask_v6(prefix: u8) -> u128 {
    if prefix == 0 {
        0u128
    } else if prefix >= 128 {
        0xffff_ffff_ffff_ffff_ffff_ffff_ffff_ffffu128
    } else {
        0xffff_ffff_ffff_ffff_ffff_ffff_ffff_ffffu128 << ((128 - prefix) as u128)
    }
}

/// Whether an address lies in a network: it is of the network's family and
/// lies between the network's first address and its last.
pub open spec fn block_contains(block: CidrBlock, ip: IpValue) -> bool {
    match (block.addr, ip) {
        (IpValue::V4(net), IpValue::V4(a)) => {
            let mask = netmask_v4(block.prefix);
            (net & mask) <= a && a <= (net | !mask)
        },
        (IpValue::V6(net), IpValue::V6(a)) => {
            let mask = netmask_v6(block.prefix);
            (net & mask) <= a && a <= (net | !mask)
        },
        _ => false,
    }
}

/// Whether an address lies in a network.
pub fn cidr_contains(block: &CidrBlock, ip: &IpValue) -> (r: bool)
    ensures
        r == block_contains(*block, *ip),
{
    match (block.addr, *ip) {
        (IpValue::V4(net), IpValue::V4(a)) => {
            let mask: u32 = if block.prefix == 0 {
                0u32
            } else if block.prefix >= 32 {
                0xffff_ffffu32
            } else {
                0xffff_ffffu32 << ((32 - block.prefix) as u32)
            };
            (net & mask) <= a && a <= (net | !mask)
        },
        (IpValue::V6(net), IpValue::V6(a)) => {
            let mask: u128 = if block.prefix == 0 {
                0u128
            } else if block.prefix >= 128 {
                0xffff_ffff_ffff_ffff_ffff_ffff_ffff_ffffu128
            } else {
                0xffff_ffff_ffff_ffff_ffff_ffff_ffff_ffffu128 << ((128 - block.prefix) as u128)
            };
            (net & mask) <= a && a <= (net | !mask)
        },
        _ => false,
    }
}

/// Whether `entry` writes a network that holds `ip`.
pub open spec fn entry_holds(entry: Seq<char>, ip: IpValue) -> bool {
    match cidr_of(entry) {
        Some(block) => block_contains(block, ip),
        None => false,
    }
}

/// Whether a comma-separated list of networks holds the address that `field`
/// writes. A text that writes no address lies in no network.
pub open spec fn in_cidr_list(list: Seq<char>, field: Seq<char>) -> bool {
    match ip_of(field) {
        Some(ip) => exists|i: int|
            0 <= i < trimmed_parts(list, ',').len() && entry_holds(
                #[trigger] trimmed_parts(list, ',')[i],
                ip,
            ),
        None => false,
    }
}

/// Whether `item` is one of the entries of a comma-separated list, the
/// whitespace around each entry aside.
pub open spec fn in_list(list: Seq<char>, item: Seq<char>) -> bool {
    trimmed_parts(list, ',').contains(item)
}

fn list_has(list: &Vec<char>, item: &Vec<char>) -> (r: bool)
    ensures
        r == in_list(list@, item@),
{
    let parts = split_trimmed(list, ',');
    let ghost model = trimmed_parts(list@, ',');
    let mut i: usize = 0;
    while i < parts.len()
        invariant
            i <= parts.len(),
            parts@.len() == model.len(),
            model == trimmed_parts(list@, ','),
            forall|k: int|
                #![trigger parts@[k]]
                0 <= k < parts@.len() ==> {
                    &&& parts@[k].0 <= parts@[k].1 <= list@.len()
                    &&& list@.subrange(parts@[k].0 as int, parts@[k].1 as int) == model[k]
                },
            forall|k: int| 0 <= k < i ==> model[k] != item@,
        decreases parts.len() - i,
    {
        let lo = parts[i].0;
        let hi = parts[i].1;
        if hi - lo == item.len() && matches_at(list, item, lo) {
            proof {
                assert(model[i as int] == item@);
                assert(model.contains(item@));
            }
            return true;
        }
        i += 1;
    }
    false
}

fn cidr_list_has(list: &Vec<char>, field: &str) -> (r: bool)
    ensures
        r == in_cidr_list(list@, field@),
{
    let ip = match parse_ip(field) {
        Some(ip) => ip,
        None => return false,
    };
    let parts = split_trimmed(list, ',');
    let ghost model = trimmed_parts(list@, ',');
    let mut i: usize = 0;
    while i < parts.len()
        invariant
            i <= parts.len(),
            parts@.len() == model.len(),
            model == trimmed_parts(list@, ','),
            ip_of(field@) == Some(ip),
            forall|k: int|
                #![trigger parts@[k]]
                0 <= k < parts@.len() ==> {
                    &&& parts@[k].0 <= parts@[k].1 <= list@.len()
                    &&& list@.subrange(parts@[k].0 as int, parts@[k].1 as int) == model[k]
                },
            forall|k: int| 0 <= k < i ==> !entry_holds(#[trigger] model[k], ip),
        decreases parts.len() - i,
    {
        let entry_chars = slice_of(list, parts[i].0, parts[i].1);
        let entry = string_from_chars(&entry_chars);
        proof {
            assert(entry@ == model[i as int]);
        }
        match parse_cidr(entry.as_str()) {
            Some(block) => {
                if cidr_contains(&block, &ip) {
                    proof {
                        assert(entry_holds(model[i as int], ip));
                    }
                    return true;
                }
            },
            None => {},
        }
        i += 1;
    }
    false
}

// ---------------------------------------------------------------------------
// One condition
// ---------------------------------------------------------------------------

/// The field that a condition reads: the named header where the field is
/// `header`, else the field itself.
pub open spec fn effective_field(field: Seq<char>, header_name: Option<Seq<char>>) -> Seq<char> {
    if field == "header"@ {
        match header_name {
            Some(name) => name,
            None => "header"@,
        }
    } else {
        field
    }
}

/// The name of the field that a condition reads.
pub fn effective_field_name<'a>(field: &'a str, header_name: &'a Option<String>) -> (r: &'a str)
    ensures
        r@ == effective_field(field@, crate::text::opt_text(*header_name)),
{
    if str_eq(field, "header") {
        match header_name {
            Some(name) => name.as_str(),
            None => "header",
        }
    } else {
        field
    }
}

/// Whether a condition holds.
///
/// `field` is the resolved value of the condition's field, `None` where the
/// request has none; every comparison but `exists` and `notExists` takes a
/// missing value as the empty text. `order` tells how the field's value and
/// `value` relate as numbers, and only the four numeric comparisons read it.
pub open spec fn condition_holds(
    op: Operator,
    value: Seq<char>,
    field: Option<Seq<char>>,
    order: NumericOrder,
) -> bool {
    let actual = text_or_empty(field);
    match op {
        Operator::Equals => actual == value,
        Operator::NotEquals => actual != value,
        Operator::StartsWith => has_prefix(actual, value),
        Operator::EndsWith => has_suffix(actual, value),
        Operator::Contains => has_substring(actual, value),
        Operator::NotContains => !has_substring(actual, value),
        Operator::In => in_list(value, actual),
        Operator::NotIn => !in_list(value, actual),
        Operator::Matches => regex_match(value, actual) == Some(true),
        Operator::InCidr => in_cidr_list(value, actual),
        Operator::GreaterThan => order == NumericOrder::Greater,
        Operator::LessThan => order == NumericOrder::Less,
        Operator::GreaterOrEqual => order == NumericOrder::Greater || order == NumericOrder::Equal,
        Operator::LessOrEqual => order == NumericOrder::Less || order == NumericOrder::Equal,
        Operator::Exists => field is Some && actual.len() > 0,
        Operator::NotExists => field is None || actual.len() == 0,
        Operator::Unknown => false,
    }
}

/// Evaluates one condition against the resolved value of its field.
///
/// `order` is the numeric relation of the field's value (the empty text where
/// it is missing) to the condition's value; it matters to the numeric
/// comparisons only.
pub fn evaluate_condition(
    data: &ConditionNodeData,
    field_value: Option<&str>,
    order: NumericOrder,
) -> (r: bool)
    ensures
        r == condition_holds(operator_of(data@.operator), data@.value, opt_str(field_value), order),
{
    test_condition(data.operator.as_str(), data.value.as_str(), field_value, order)
}

/// Tests a resolved field value against `value` with the operator named
/// `operator`.
pub fn test_condition(
    operator: &str,
    value: &str,
    field_value: Option<&str>,
    order: NumericOrder,
) -> (r: bool)
    ensures
        r == condition_holds(operator_of(operator@), value@, opt_str(field_value), order),
{
    let actual: &str = match field_value {
        Some(v) => v,
        None => "",
    };
    proof {
        reveal_strlit("");
        assert(actual@ =~= text_or_empty(opt_str(field_value)));
    }
    match classify_operator(operator) {
        Operator::Equals => str_eq(actual, value),
        Operator::NotEquals => !str_eq(actual, value),
        Operator::StartsWith => starts_with(&chars_of(actual), &chars_of(value)),
        Operator::EndsWith => ends_with(&chars_of(actual), &chars_of(value)),
        Operator::Contains => contains(&chars_of(actual), &chars_of(value)),
        Operator::NotContains => !contains(&chars_of(actual), &chars_of(value)),
        Operator::In => list_has(&chars_of(value), &chars_of(actual)),
        Operator::NotIn => !list_has(&chars_of(value), &chars_of(actual)),
        Operator::Matches => match regex_is_match(value, actual) {
            Some(found) => found,
            None => false,
        },
        Operator::InCidr => cidr_list_has(&chars_of(value), actual),
        Operator::GreaterThan => matches!(order, NumericOrder::Greater),
        Operator::LessThan => matches!(order, NumericOrder::Less),
        Operator::GreaterOrEqual => matches!(order, NumericOrder::Greater | NumericOrder::Equal),
        Operator::LessOrEqual => matches!(order, NumericOrder::Less | NumericOrder::Equal),
        Operator::Exists => field_value.is_some() && actual.unicode_len() > 0,
        Operator::NotExists => field_value.is_none() || actual.unicode_len() == 0,
        Operator::Unknown => false,
    }
}

// ---------------------------------------------------------------------------
// Rule groups
// ---------------------------------------------------------------------------

/// How a rule group combines its conditions.
#[derive(Debug, Clone, Copy, PartialEq, Eq)]
pub enum Logic {
    /// Every condition holds.
    And,
    /// At least one condition holds.
    Or,
    /// No condition holds.
    Not,
}

/// The logic that a name in capitals selects; any name but `OR` and `NOT`
/// selects `AND`.
pub open spec fn logic_of(upper: Seq<char>) -> Logic {
    if upper == "OR"@ {
        Logic::Or
    } else if upper == "NOT"@ {
        Logic::Not
    } else {
        Logic::And
    }
}

/// Every result is true.
pub open spec fn all_true(results: Seq<bool>) -> bool {
    forall|i: int| 0 <= i < results.len() ==> results[i]
}

/// Some result is true.
pub open spec fn any_true(results: Seq<bool>) -> bool {
    exists|i: int| 0 <= i < results.len() && results[i]
}

/// Whether a rule group matches, given the result of each of its conditions.
/// A group without conditions matches.
pub open spec fn group_matches(logic: Logic, results: Seq<bool>) -> bool {
    if results.len() == 0 {
        true
    } else {
        match logic {
            Logic::And => all_true(results),
            Logic::Or => any_true(results),
            Logic::Not => !any_true(results),
        }
    }
}

/// The logic that a name in capitals selects.
pub fn logic_from_upper(upper: &str) -> (r: Logic)
    ensures
        r == logic_of(upper@),
{
    if str_eq(upper, "OR") {
        Logic::Or
    } else if str_eq(upper, "NOT") {
        Logic::Not
    } else {
        Logic::And
    }
}

/// The logic that a rule group's `logic` text selects, whatever its case.
pub fn classify_logic(logic: &str) -> (r: Logic)
    ensures
        r == logic_of(uppercase(logic@)),
{
    let upper = to_uppercase(logic);
    logic_from_upper(upper.as_str())
}

/// Combines the results of a rule group's conditions, under the logic that
/// the group's `logic` text selects.
pub fn evaluate_rule_group(logic: &str, results: &Vec<bool>) -> (r: bool)
    ensures
        r == group_matches(logic_of(uppercase(logic@)), results@),
{
    combine_results(classify_logic(logic), results)
}

/// Combines the results of a rule group's conditions.
pub fn combine_results(kind: Logic, results: &Vec<bool>) -> (r: bool)
    ensures
        r == group_matches(kind, results@),
{
    if results.len() == 0 {
        return true;
    }
    let mut all: bool = true;
    let mut any: bool = false;
    let mut i: usize = 0;
    while i < results.len()
        invariant
            i <= results.len(),
            all == (forall|k: int| 0 <= k < i ==> results@[k]),
            any == (exists|k: int| 0 <= k < i && results@[k]),
        decreases results.len() - i,
    {
        if results[i] {
            any = true;
        } else {
            all = false;
        }
        i += 1;
    }
    match kind {
        Logic::And => all,
        Logic::Or => any,
        Logic::Not => !any,
    }
}

/// A rule group without conditions matches, whatever its logic.
pub proof fn law_empty_group_matches(logic: Logic)
    ensures
        group_matches(logic, Seq::<bool>::empty()),
{
}

/// Over conditions that all fail, and at least one of them, `AND` and `OR`
/// do not match and `NOT` matches.
pub proof fn law_all_false_group(results: Seq<bool>)
    requires
        results.len() > 0,
        forall|i: int| 0 <= i < results.len() ==> !results[i],
    ensures
        !group_matches(Logic::And, results),
        !group_matches(Logic::Or, results),
        group_matches(Logic::Not, results),
{
    assert(!results[0]);
}

} // verus!
