//! The graph model: nodes, edges and the payload of each kind of node.
//!
//! A graph is what the editor draws: nodes with an opaque payload and edges
//! between named output ports. Each kind of node has a payload schema; the
//! typed payloads are read from the JSON payload when a node is evaluated.

use crate::json::{
    any_field, check_record, copy_json, field_slot, is_record, json_opt_bool, json_opt_text,
    json_opt_u16, json_opt_u32, json_opt_u64, json_uint, lemma_lookup_steps,
    lemma_opt_bool_round_trip, lemma_opt_text_round_trip, lemma_opt_u16_round_trip,
    lemma_opt_u32_round_trip, lemma_opt_u64_round_trip, lemma_u32_round_trip, make_member,
    make_object, member_view, number_field, opt_bool_field, opt_json, opt_text_field, opt_u16_field,
    opt_u32_field, opt_u64_field, read_number, read_opt_bool, read_opt_text, read_opt_u16,
    read_opt_u32, read_opt_u64, read_text, read_u32, slot, text_field, u32_field, with_member,
    write_number, write_opt_bool, write_opt_text, write_opt_u16, write_opt_u32, write_opt_u64,
    write_text, write_uint, Json, JsonView, Member,
};
use crate::text::opt_text;
use vstd::prelude::*;

verus! {

fn read_any(slot: Option<&Json>) -> (r: Option<Json>)
    ensures
        match r {
            Some(v) => any_field(opt_json(slot)) == Some(v@),
            None => any_field(opt_json(slot)) is None,
        },
{
    match slot {
        Some(v) => Some(copy_json(v)),
        None => None,
    }
}

// ---------------------------------------------------------------------------
// Node payloads
// ---------------------------------------------------------------------------

/// The payload of a `condition` node: one test of a request field.
#[derive(Debug, Clone, PartialEq, Eq)]
pub struct ConditionNodeData {
    /// The name of the request field. `header` selects the header named by
    /// `header_name`.
    pub field: String,
    /// The name of the comparison.
    pub operator: String,
    /// The value the field is compared with.
    pub value: String,
    /// The header to read where `field` is `header`.
    pub header_name: Option<String>,
}

/// The mathematical view of [`ConditionNodeData`]: texts are sequences of
/// characters.
pub struct ConditionNodeDataView {
    pub field: Seq<char>,
    pub operator: Seq<char>,
    pub value: Seq<char>,
    pub header_name: Option<Seq<char>>,
}

impl View for ConditionNodeData {
    type V = ConditionNodeDataView;

    open spec fn view(&self) -> ConditionNodeDataView {
        ConditionNodeDataView {
            field: self.field@,
            operator: self.operator@,
            value: self.value@,
            header_name: opt_text(self.header_name),
        }
    }
}

/// Reads a condition payload from a JSON value: `None` where the value does
/// not fit the schema.
pub open spec fn parse_condition_node_data(j: JsonView) -> Option<ConditionNodeDataView> {
    let field = text_field(field_slot(j, "field"@, 0));
    let operator = text_field(field_slot(j, "operator"@, 1));
    let value = text_field(field_slot(j, "value"@, 2));
    let header_name = opt_text_field(field_slot(j, "headerName"@, 3));
    if is_record(j, 4)
        && field is Some
        && operator is Some
        && value is Some
        && header_name is Some {
        Some(
            ConditionNodeDataView {
                field: field->0,
                operator: operator->0,
                value: value->0,
                header_name: header_name->0,
            },
        )
    } else {
        None
    }
}

/// The JSON object that writes a condition payload: a member for every field,
/// in the fields' order; a field that is not given is written as `null`.
pub open spec fn encode_condition_node_data(v: ConditionNodeDataView) -> JsonView {
    JsonView::Object(
        seq![
            member_view("field"@, JsonView::Text(v.field)),
            member_view("operator"@, JsonView::Text(v.operator)),
            member_view("value"@, JsonView::Text(v.value)),
            member_view("headerName"@, json_opt_text(v.header_name)),
        ],
    )
}

impl ConditionNodeData {
    /// Reads a condition payload from a JSON value. The value is an object
    /// with the fields' names, or an array of the fields' values in order; a
    /// field that may be absent may also be `null`. `None` where the value
    /// does not fit.
    pub fn from_json(j: &Json) -> (r: Option<ConditionNodeData>)
        ensures
            match r {
                Some(d) => parse_condition_node_data(j@) == Some(d@),
                None => parse_condition_node_data(j@) is None,
            },
    {
        if !check_record(j, 4) {
            return None;
        }
        let field = match read_text(slot(j, "field", 0)) {
            Some(v) => v,
            None => return None,
        };
        let operator = match read_text(slot(j, "operator", 1)) {
            Some(v) => v,
            None => return None,
        };
        let value = match read_text(slot(j, "value", 2)) {
            Some(v) => v,
            None => return None,
        };
        let header_name = match read_opt_text(slot(j, "headerName", 3)) {
            Ok(v) => v,
            Err(_) => return None,
        };
        Some(ConditionNodeData { field, operator, value, header_name })
    }

    /// Writes a condition payload as a JSON object.
    pub fn to_json(&self) -> (r: Json)
        ensures
            r@ == encode_condition_node_data(self@),
    {
        let mut members: Vec<Member> = Vec::new();
        members.push(make_member("field", write_text(&self.field)));
        members.push(make_member("operator", write_text(&self.operator)));
        members.push(make_member("value", write_text(&self.value)));
        members.push(make_member("headerName", write_opt_text(&self.header_name)));
        let r = make_object(members);
        proof {
            assert(r@->Object_0 =~= encode_condition_node_data(self@)->Object_0);
        }
        r
    }
}

/// What a lookup by name finds in the object that writes a condition payload.
proof fn lemma_condition_node_data_slots(v: ConditionNodeDataView)
    ensures
        field_slot(encode_condition_node_data(v), "field"@, 0) == Some(JsonView::Text(v.field)),
        field_slot(encode_condition_node_data(v), "operator"@, 1) == Some(
            JsonView::Text(v.operator),
        ),
        field_slot(encode_condition_node_data(v), "value"@, 2) == Some(JsonView::Text(v.value)),
        field_slot(encode_condition_node_data(v), "headerName"@, 3) == Some(
            json_opt_text(v.header_name),
        ),
{
    let from_header_name = with_member(
        member_view("headerName"@, json_opt_text(v.header_name)),
        Seq::empty(),
    );
    let from_value = with_member(member_view("value"@, JsonView::Text(v.value)), from_header_name);
    let from_operator = with_member(
        member_view("operator"@, JsonView::Text(v.operator)),
        from_value,
    );
    let from_field = with_member(member_view("field"@, JsonView::Text(v.field)), from_operator);
    assert(encode_condition_node_data(v)->Object_0 =~= from_field);
    lemma_lookup_steps();
    reveal_strlit("field");
    reveal_strlit("operator");
    reveal_strlit("value");
    reveal_strlit("headerName");
    assert("field"@.len() == 5 && "field"@[0] == 'f');
    assert("operator"@.len() == 8);
    assert("value"@.len() == 5 && "value"@[0] == 'v');
    assert("headerName"@.len() == 10);
}

/// Reading a record gives a condition payload back where each field's slot
/// holds what writes the field.
proof fn lemma_condition_node_data_from_slots(v: ConditionNodeDataView, j: JsonView)
    requires
        is_record(j, 4),
        field_slot(j, "field"@, 0) == Some(JsonView::Text(v.field)),
        field_slot(j, "operator"@, 1) == Some(JsonView::Text(v.operator)),
        field_slot(j, "value"@, 2) == Some(JsonView::Text(v.value)),
        field_slot(j, "headerName"@, 3) == Some(json_opt_text(v.header_name)),
    ensures
        parse_condition_node_data(j) == Some(v),
{
    lemma_opt_text_round_trip(v.header_name);
}

/// Reading a condition payload that was written gives the same back.
pub proof fn law_condition_node_data_round_trip(v: ConditionNodeDataView)
    ensures
        parse_condition_node_data(encode_condition_node_data(v)) == Some(v),
{
    lemma_condition_node_data_slots(v);
    lemma_condition_node_data_from_slots(v, encode_condition_node_data(v));
}

/// One condition written inline in a `ruleGroup` node.
#[derive(Debug, Clone, PartialEq, Eq)]
pub struct RuleGroupCondition {
    /// The condition's identifier in the editor.
    pub id: String,
    /// The name of the request field.
    pub field: String,
    /// The name of the comparison.
    pub operator: String,
    /// The value the field is compared with.
    pub value: String,
    /// The header to read where `field` is `header`.
    pub header_name: Option<String>,
}

/// The mathematical view of [`RuleGroupCondition`]: texts are sequences of
/// characters.
pub struct RuleGroupConditionView {
    pub id: Seq<char>,
    pub field: Seq<char>,
    pub operator: Seq<char>,
    pub value: Seq<char>,
    pub header_name: Option<Seq<char>>,
}

impl View for RuleGroupCondition {
    type V = RuleGroupConditionView;

    open spec fn view(&self) -> RuleGroupConditionView {
        RuleGroupConditionView {
            id: self.id@,
            field: self.field@,
            operator: self.operator@,
            value: self.value@,
            header_name: opt_text(self.header_name),
        }
    }
}

/// Reads an inline condition from a JSON value: `None` where the value does
/// not fit the schema.
pub open spec fn parse_rule_group_condition(j: JsonView) -> Option<RuleGroupConditionView> {
    let id = text_field(field_slot(j, "id"@, 0));
    let field = text_field(field_slot(j, "field"@, 1));
    let operator = text_field(field_slot(j, "operator"@, 2));
    let value = text_field(field_slot(j, "value"@, 3));
    let header_name = opt_text_field(field_slot(j, "headerName"@, 4));
    if is_record(j, 5)
        && id is Some
        && field is Some
        && operator is Some
        && value is Some
        && header_name is Some {
        Some(
            RuleGroupConditionView {
                id: id->0,
                field: field->0,
                operator: operator->0,
                value: value->0,
                header_name: header_name->0,
            },
        )
    } else {
        None
    }
}

/// The JSON object that writes an inline condition: a member for every field,
/// in the fields' order; a field that is not given is written as `null`.
pub open spec fn encode_rule_group_condition(v: RuleGroupConditionView) -> JsonView {
    JsonView::Object(
        seq![
            member_view("id"@, JsonView::Text(v.id)),
            member_view("field"@, JsonView::Text(v.field)),
            member_view("operator"@, JsonView::Text(v.operator)),
            member_view("value"@, JsonView::Text(v.value)),
            member_view("headerName"@, json_opt_text(v.header_name)),
        ],
    )
}

impl RuleGroupCondition {
    /// Reads an inline condition from a JSON value. The value is an object
    /// with the fields' names, or an array of the fields' values in order; a
    /// field that may be absent may also be `null`. `None` where the value
    /// does not fit.
    pub fn from_json(j: &Json) -> (r: Option<RuleGroupCondition>)
        ensures
            match r {
                Some(d) => parse_rule_group_condition(j@) == Some(d@),
                None => parse_rule_group_condition(j@) is None,
            },
    {
        if !check_record(j, 5) {
            return None;
        }
        let id = match read_text(slot(j, "id", 0)) {
            Some(v) => v,
            None => return None,
        };
        let field = match read_text(slot(j, "field", 1)) {
            Some(v) => v,
            None => return None,
        };
        let operator = match read_text(slot(j, "operator", 2)) {
            Some(v) => v,
            None => return None,
        };
        let value = match read_text(slot(j, "value", 3)) {
            Some(v) => v,
            None => return None,
        };
        let header_name = match read_opt_text(slot(j, "headerName", 4)) {
            Ok(v) => v,
            Err(_) => return None,
        };
        Some(RuleGroupCondition { id, field, operator, value, header_name })
    }

    /// Writes an inline condition as a JSON object.
    pub fn to_json(&self) -> (r: Json)
        ensures
            r@ == encode_rule_group_condition(self@),
    {
        let mut members: Vec<Member> = Vec::new();
        members.push(make_member("id", write_text(&self.id)));
        members.push(make_member("field", write_text(&self.field)));
        members.push(make_member("operator", write_text(&self.operator)));
        members.push(make_member("value", write_text(&self.value)));
        members.push(make_member("headerName", write_opt_text(&self.header_name)));
        let r = make_object(members);
        proof {
            assert(r@->Object_0 =~= encode_rule_group_condition(self@)->Object_0);
        }
        r
    }
}

/// What a lookup by name finds in the object that writes an inline condition.
proof fn lemma_rule_group_condition_slots(v: RuleGroupConditionView)
    ensures
        field_slot(encode_rule_group_condition(v), "id"@, 0) == Some(JsonView::Text(v.id)),
        field_slot(encode_rule_group_condition(v), "field"@, 1) == Some(JsonView::Text(v.field)),
        field_slot(encode_rule_group_condition(v), "operator"@, 2) == Some(
            JsonView::Text(v.operator),
        ),
        field_slot(encode_rule_group_condition(v), "value"@, 3) == Some(JsonView::Text(v.value)),
        field_slot(encode_rule_group_condition(v), "headerName"@, 4) == Some(
            json_opt_text(v.header_name),
        ),
{
    let from_header_name = with_member(
        member_view("headerName"@, json_opt_text(v.header_name)),
        Seq::empty(),
    );
    let from_value = with_member(member_view("value"@, JsonView::Text(v.value)), from_header_name);
    let from_operator = with_member(
        member_view("operator"@, JsonView::Text(v.operator)),
        from_value,
    );
    let from_field = with_member(member_view("field"@, JsonView::Text(v.field)), from_operator);
    let from_id = with_member(member_view("id"@, JsonView::Text(v.id)), from_field);
    assert(encode_rule_group_condition(v)->Object_0 =~= from_id);
    lemma_lookup_steps();
    reveal_strlit("id");
    reveal_strlit("field");
    reveal_strlit("operator");
    reveal_strlit("value");
    reveal_strlit("headerName");
    assert("id"@.len() == 2);
    assert("field"@.len() == 5 && "field"@[0] == 'f');
    assert("operator"@.len() == 8);
    assert("value"@.len() == 5 && "value"@[0] == 'v');
    assert("headerName"@.len() == 10);
}

/// Reading a record gives an inline condition back where each field's slot
/// holds what writes the field.
proof fn lemma_rule_group_condition_from_slots(v: RuleGroupConditionView, j: JsonView)
    requires
        is_record(j, 5),
        field_slot(j, "id"@, 0) == Some(JsonView::Text(v.id)),
        field_slot(j, "field"@, 1) == Some(JsonView::Text(v.field)),
        field_slot(j, "operator"@, 2) == Some(JsonView::Text(v.operator)),
        field_slot(j, "value"@, 3) == Some(JsonView::Text(v.value)),
        field_slot(j, "headerName"@, 4) == Some(json_opt_text(v.header_name)),
    ensures
        parse_rule_group_condition(j) == Some(v),
{
    lemma_opt_text_round_trip(v.header_name);
}

/// Reading an inline condition that was written gives the same back.
pub proof fn law_rule_group_condition_round_trip(v: RuleGroupConditionView)
    ensures
        parse_rule_group_condition(encode_rule_group_condition(v)) == Some(v),
{
    lemma_rule_group_condition_slots(v);
    lemma_rule_group_condition_from_slots(v, encode_rule_group_condition(v));
}

/// A required list: an array whose every element fits the schema.
pub open spec fn parse_rule_group_condition_list(
    slot: Option<JsonView>,
) -> Option<Seq<RuleGroupConditionView>> {
    match slot {
        Some(JsonView::Array(items)) => if forall|i: int|
            0 <= i < items.len() ==> (#[trigger] parse_rule_group_condition(items[i])) is Some {
            Some(Seq::new(items.len(), |i: int| parse_rule_group_condition(items[i])->0))
        } else {
            None
        },
        _ => None,
    }
}

/// The JSON array that writes a list, element by element.
pub open spec fn encode_rule_group_condition_list(list: Seq<RuleGroupConditionView>) -> JsonView {
    JsonView::Array(list.map_values(|x: RuleGroupConditionView| encode_rule_group_condition(x)))
}

fn read_rule_group_condition_list(slot: Option<&Json>) -> (r: Option<Vec<RuleGroupCondition>>)
    ensures
        match r {
            Some(list) => parse_rule_group_condition_list(opt_json(slot)) == Some(
                list@.map_values(|x: RuleGroupCondition| x@),
            ),
            None => parse_rule_group_condition_list(opt_json(slot)) is None,
        },
{
    match slot {
        Some(Json::Array(items)) => {
            let ghost views = slot->0@->Array_0;
            let mut out: Vec<RuleGroupCondition> = Vec::new();
            let mut i: usize = 0;
            while i < items.len()
                invariant
                    i <= items.len(),
                    opt_json(slot) == Some(JsonView::Array(views)),
                    views.len() == items@.len(),
                    forall|k: int| 0 <= k < views.len() ==> views[k] == items@[k]@,
                    out@.len() == i,
                    forall|k: int|
                        0 <= k < i ==> parse_rule_group_condition(views[k]) == Some(
                            #[trigger] out@[k]@,
                        ),
                decreases items.len() - i,
            {
                match RuleGroupCondition::from_json(&items[i]) {
                    Some(item) => {
                        out.push(item);
                    },
                    None => {
                        proof {
                            assert(parse_rule_group_condition(views[i as int]) is None);
                        }
                        return None;
                    },
                }
                i += 1;
            }
            proof {
                assert forall|k: int| 0 <= k < views.len() implies
                    (#[trigger] parse_rule_group_condition(views[k])) is Some by {
                    assert(parse_rule_group_condition(views[k]) == Some(out@[k]@));
                }
                let expected = Seq::new(
                    views.len(),
                    |k: int| parse_rule_group_condition(views[k])->0,
                );
                let got = out@.map_values(|x: RuleGroupCondition| x@);
                assert(got.len() == expected.len());
                assert forall|k: int| 0 <= k < got.len() implies got[k] == expected[k] by {
                    assert(parse_rule_group_condition(views[k]) == Some(out@[k]@));
                }
                assert(got =~= expected);
            }
            Some(out)
        },
        _ => None,
    }
}

fn write_rule_group_condition_list(list: &Vec<RuleGroupCondition>) -> (r: Json)
    ensures
        r@ == encode_rule_group_condition_list(list@.map_values(|x: RuleGroupCondition| x@)),
{
    let mut items: Vec<Json> = Vec::new();
    let mut i: usize = 0;
    while i < list.len()
        invariant
            i <= list.len(),
            items@.len() == i,
            forall|k: int| 0 <= k < i ==> (#[trigger] items@[k])@ == encode_rule_group_condition(
                list@[k]@,
            ),
        decreases list.len() - i,
    {
        items.push(list[i].to_json());
        i += 1;
    }
    let ghost expected = encode_rule_group_condition_list(
        list@.map_values(|x: RuleGroupCondition| x@),
    );
    let r = Json::Array(items);
    proof {
        assert(r@->Array_0 =~= expected->Array_0);
    }
    r
}

/// Reading a list that was written gives the same list back.
pub proof fn lemma_rule_group_condition_list_round_trip(list: Seq<RuleGroupConditionView>)
    ensures
        parse_rule_group_condition_list(Some(encode_rule_group_condition_list(list))) == Some(list),
{
    let items = encode_rule_group_condition_list(list)->Array_0;
    assert forall|i: int| 0 <= i < items.len() implies
        (#[trigger] parse_rule_group_condition(items[i])) == Some(list[i]) by {
        law_rule_group_condition_round_trip(list[i]);
    }
    assert(Seq::new(items.len(), |i: int| parse_rule_group_condition(items[i])->0) =~= list);
}

/// The payload of a `ruleGroup` node: conditions combined by one logic
/// operator, with a `match` and a `noMatch` output.
#[derive(Debug, Clone, PartialEq, Eq)]
pub struct RuleGroupNodeData {
    /// The group's display name.
    pub name: Option<String>,
    /// `AND`, `OR` or `NOT`, in any case.
    pub logic: String,
    /// The conditions, in order.
    pub conditions: Vec<RuleGroupCondition>,
}

/// The mathematical view of [`RuleGroupNodeData`]: texts are sequences of
/// characters.
pub struct RuleGroupNodeDataView {
    pub name: Option<Seq<char>>,
    pub logic: Seq<char>,
    pub conditions: Seq<RuleGroupConditionView>,
}

impl View for RuleGroupNodeData {
    type V = RuleGroupNodeDataView;

    open spec fn view(&self) -> RuleGroupNodeDataView {
        RuleGroupNodeDataView {
            name: opt_text(self.name),
            logic: self.logic@,
            conditions: self.conditions@.map_values(|x: RuleGroupCondition| x@),
        }
    }
}

/// Reads a rule group payload from a JSON value: `None` where the value does
/// not fit the schema.
pub open spec fn parse_rule_group_node_data(j: JsonView) -> Option<RuleGroupNodeDataView> {
    let name = opt_text_field(field_slot(j, "name"@, 0));
    let logic = text_field(field_slot(j, "logic"@, 1));
    let conditions = parse_rule_group_condition_list(field_slot(j, "conditions"@, 2));
    if is_record(j, 3)
        && name is Some
        && logic is Some
        && conditions is Some {
        Some(
            RuleGroupNodeDataView {
                name: name->0,
                logic: logic->0,
                conditions: conditions->0,
            },
        )
    } else {
        None
    }
}

/// The JSON object that writes a rule group payload: a member for every field,
/// in the fields' order; a field that is not given is written as `null`.
pub open spec fn encode_rule_group_node_data(v: RuleGroupNodeDataView) -> JsonView {
    JsonView::Object(
        seq![
            member_view("name"@, json_opt_text(v.name)),
            member_view("logic"@, JsonView::Text(v.logic)),
            member_view("conditions"@, encode_rule_group_condition_list(v.conditions)),
        ],
    )
}

impl RuleGroupNodeData {
    /// Reads a rule group payload from a JSON value. The value is an object
    /// with the fields' names, or an array of the fields' values in order; a
    /// field that may be absent may also be `null`. `None` where the value
    /// does not fit.
    pub fn from_json(j: &Json) -> (r: Option<RuleGroupNodeData>)
        ensures
            match r {
                Some(d) => parse_rule_group_node_data(j@) == Some(d@),
                None => parse_rule_group_node_data(j@) is None,
            },
    {
        if !check_record(j, 3) {
            return None;
        }
        let name = match read_opt_text(slot(j, "name", 0)) {
            Ok(v) => v,
            Err(_) => return None,
        };
        let logic = match read_text(slot(j, "logic", 1)) {
            Some(v) => v,
            None => return None,
        };
        let conditions = match read_rule_group_condition_list(slot(j, "conditions", 2)) {
            Some(v) => v,
            None => return None,
        };
        Some(RuleGroupNodeData { name, logic, conditions })
    }

    /// Writes a rule group payload as a JSON object.
    pub fn to_json(&self) -> (r: Json)
        ensures
            r@ == encode_rule_group_node_data(self@),
    {
        let mut members: Vec<Member> = Vec::new();
        members.push(make_member("name", write_opt_text(&self.name)));
        members.push(make_member("logic", write_text(&self.logic)));
        members.push(make_member("conditions", write_rule_group_condition_list(&self.conditions)));
        let r = make_object(members);
        proof {
            assert(r@->Object_0 =~= encode_rule_group_node_data(self@)->Object_0);
        }
        r
    }
}

/// What a lookup by name finds in the object that writes a rule group payload.
proof fn lemma_rule_group_node_data_slots(v: RuleGroupNodeDataView)
    ensures
        field_slot(encode_rule_group_node_data(v), "name"@, 0) == Some(json_opt_text(v.name)),
        field_slot(encode_rule_group_node_data(v), "logic"@, 1) == Some(JsonView::Text(v.logic)),
        field_slot(encode_rule_group_node_data(v), "conditions"@, 2) == Some(
            encode_rule_group_condition_list(v.conditions),
        ),
{
    let from_conditions = with_member(
        member_view("conditions"@, encode_rule_group_condition_list(v.conditions)),
        Seq::empty(),
    );
    let from_logic = with_member(member_view("logic"@, JsonView::Text(v.logic)), from_conditions);
    let from_name = with_member(member_view("name"@, json_opt_text(v.name)), from_logic);
    assert(encode_rule_group_node_data(v)->Object_0 =~= from_name);
    lemma_lookup_steps();
    reveal_strlit("name");
    reveal_strlit("logic");
    reveal_strlit("conditions");
    assert("name"@.len() == 4);
    assert("logic"@.len() == 5);
    assert("conditions"@.len() == 10);
}

/// Reading a record gives a rule group payload back where each field's slot
/// holds what writes the field.
proof fn lemma_rule_group_node_data_from_slots(v: RuleGroupNodeDataView, j: JsonView)
    requires
        is_record(j, 3),
        field_slot(j, "name"@, 0) == Some(json_opt_text(v.name)),
        field_slot(j, "logic"@, 1) == Some(JsonView::Text(v.logic)),
        field_slot(j, "conditions"@, 2) == Some(encode_rule_group_condition_list(v.conditions)),
    ensures
        parse_rule_group_node_data(j) == Some(v),
{
    lemma_opt_text_round_trip(v.name);
    lemma_rule_group_condition_list_round_trip(v.conditions);
}

/// Reading a rule group payload that was written gives the same back.
pub proof fn law_rule_group_node_data_round_trip(v: RuleGroupNodeDataView)
    ensures
        parse_rule_group_node_data(encode_rule_group_node_data(v)) == Some(v),
{
    lemma_rule_group_node_data_slots(v);
    lemma_rule_group_node_data_from_slots(v, encode_rule_group_node_data(v));
}

/// The payload of an `action` node: `block`, `allow` or `redirect`.
#[derive(Debug, Clone, PartialEq, Eq)]
pub struct ActionNodeData {
    /// The action's name.
    pub action: String,
    /// The response status.
    pub status_code: Option<u16>,
    /// The body of a blocking response.
    pub message: Option<String>,
    /// The target of a redirect.
    pub url: Option<String>,
    /// Whether a redirect keeps the request's query string.
    pub preserve_query: Option<bool>,
}

/// The mathematical view of [`ActionNodeData`]: texts are sequences of
/// characters.
pub struct ActionNodeDataView {
    pub action: Seq<char>,
    pub status_code: Option<u16>,
    pub message: Option<Seq<char>>,
    pub url: Option<Seq<char>>,
    pub preserve_query: Option<bool>,
}

impl View for ActionNodeData {
    type V = ActionNodeDataView;

    open spec fn view(&self) -> ActionNodeDataView {
        ActionNodeDataView {
            action: self.action@,
            status_code: self.status_code,
            message: opt_text(self.message),
            url: opt_text(self.url),
            preserve_query: self.preserve_query,
        }
    }
}

/// Reads an action payload from a JSON value: `None` where the value does not
/// fit the schema.
pub open spec fn parse_action_node_data(j: JsonView) -> Option<ActionNodeDataView> {
    let action = text_field(field_slot(j, "action"@, 0));
    let status_code = opt_u16_field(field_slot(j, "statusCode"@, 1));
    let message = opt_text_field(field_slot(j, "message"@, 2));
    let url = opt_text_field(field_slot(j, "url"@, 3));
    let preserve_query = opt_bool_field(field_slot(j, "preserveQuery"@, 4));
    if is_record(j, 5)
        && action is Some
        && status_code is Some
        && message is Some
        && url is Some
        && preserve_query is Some {
        Some(
            ActionNodeDataView {
                action: action->0,
                status_code: status_code->0,
                message: message->0,
                url: url->0,
                preserve_query: preserve_query->0,
            },
        )
    } else {
        None
    }
}

/// The JSON object that writes an action payload: a member for every field, in
/// the fields' order; a field that is not given is written as `null`.
pub open spec fn encode_action_node_data(v: ActionNodeDataView) -> JsonView {
    JsonView::Object(
        seq![
            member_view("action"@, JsonView::Text(v.action)),
            member_view("statusCode"@, json_opt_u16(v.status_code)),
            member_view("message"@, json_opt_text(v.message)),
            member_view("url"@, json_opt_text(v.url)),
            member_view("preserveQuery"@, json_opt_bool(v.preserve_query)),
        ],
    )
}

impl ActionNodeData {
    /// Reads an action payload from a JSON value. The value is an object with
    /// the fields' names, or an array of the fields' values in order; a field
    /// that may be absent may also be `null`. `None` where the value does not
    /// fit.
    pub fn from_json(j: &Json) -> (r: Option<ActionNodeData>)
        ensures
            match r {
                Some(d) => parse_action_node_data(j@) == Some(d@),
                None => parse_action_node_data(j@) is None,
            },
    {
        if !check_record(j, 5) {
            return None;
        }
        let action = match read_text(slot(j, "action", 0)) {
            Some(v) => v,
            None => return None,
        };
        let status_code = match read_opt_u16(slot(j, "statusCode", 1)) {
            Ok(v) => v,
            Err(_) => return None,
        };
        let message = match read_opt_text(slot(j, "message", 2)) {
            Ok(v) => v,
            Err(_) => return None,
        };
        let url = match read_opt_text(slot(j, "url", 3)) {
            Ok(v) => v,
            Err(_) => return None,
        };
        let preserve_query = match read_opt_bool(slot(j, "preserveQuery", 4)) {
            Ok(v) => v,
            Err(_) => return None,
        };
        Some(ActionNodeData { action, status_code, message, url, preserve_query })
    }

    /// Writes an action payload as a JSON object.
    pub fn to_json(&self) -> (r: Json)
        ensures
            r@ == encode_action_node_data(self@),
    {
        let mut members: Vec<Member> = Vec::new();
        members.push(make_member("action", write_text(&self.action)));
        members.push(make_member("statusCode", write_opt_u16(&self.status_code)));
        members.push(make_member("message", write_opt_text(&self.message)));
        members.push(make_member("url", write_opt_text(&self.url)));
        members.push(make_member("preserveQuery", write_opt_bool(&self.preserve_query)));
        let r = make_object(members);
        proof {
            assert(r@->Object_0 =~= encode_action_node_data(self@)->Object_0);
        }
        r
    }
}

/// What a lookup by name finds in the object that writes an action payload.
proof fn lemma_action_node_data_slots(v: ActionNodeDataView)
    ensures
        field_slot(encode_action_node_data(v), "action"@, 0) == Some(JsonView::Text(v.action)),
        field_slot(encode_action_node_data(v), "statusCode"@, 1) == Some(
            json_opt_u16(v.status_code),
        ),
        field_slot(encode_action_node_data(v), "message"@, 2) == Some(json_opt_text(v.message)),
        field_slot(encode_action_node_data(v), "url"@, 3) == Some(json_opt_text(v.url)),
        field_slot(encode_action_node_data(v), "preserveQuery"@, 4) == Some(
            json_opt_bool(v.preserve_query),
        ),
{
    let from_preserve_query = with_member(
        member_view("preserveQuery"@, json_opt_bool(v.preserve_query)),
        Seq::empty(),
    );
    let from_url = with_member(member_view("url"@, json_opt_text(v.url)), from_preserve_query);
    let from_message = with_member(member_view("message"@, json_opt_text(v.message)), from_url);
    let from_status_code = with_member(
        member_view("statusCode"@, json_opt_u16(v.status_code)),
        from_message,
    );
    let from_action = with_member(
        member_view("action"@, JsonView::Text(v.action)),
        from_status_code,
    );
    assert(encode_action_node_data(v)->Object_0 =~= from_action);
    lemma_lookup_steps();
    reveal_strlit("action");
    reveal_strlit("statusCode");
    reveal_strlit("message");
    reveal_strlit("url");
    reveal_strlit("preserveQuery");
    assert("action"@.len() == 6);
    assert("statusCode"@.len() == 10);
    assert("message"@.len() == 7);
    assert("url"@.len() == 3);
    assert("preserveQuery"@.len() == 13);
}

/// Reading a record gives an action payload back where each field's slot holds
/// what writes the field.
proof fn lemma_action_node_data_from_slots(v: ActionNodeDataView, j: JsonView)
    requires
        is_record(j, 5),
        field_slot(j, "action"@, 0) == Some(JsonView::Text(v.action)),
        field_slot(j, "statusCode"@, 1) == Some(json_opt_u16(v.status_code)),
        field_slot(j, "message"@, 2) == Some(json_opt_text(v.message)),
        field_slot(j, "url"@, 3) == Some(json_opt_text(v.url)),
        field_slot(j, "preserveQuery"@, 4) == Some(json_opt_bool(v.preserve_query)),
    ensures
        parse_action_node_data(j) == Some(v),
{
    lemma_opt_u16_round_trip(v.status_code);
    lemma_opt_text_round_trip(v.message);
    lemma_opt_text_round_trip(v.url);
    lemma_opt_bool_round_trip(v.preserve_query);
}

/// Reading an action payload that was written gives the same back.
pub proof fn law_action_node_data_round_trip(v: ActionNodeDataView)
    ensures
        parse_action_node_data(encode_action_node_data(v)) == Some(v),
{
    lemma_action_node_data_slots(v);
    lemma_action_node_data_from_slots(v, encode_action_node_data(v));
}

/// The payload of a `backend` node: everything needed to connect to an origin.
#[derive(Debug, Clone, PartialEq, Eq)]
pub struct BackendNodeData {
    /// The backend's name.
    pub name: String,
    /// The origin's host, possibly with a scheme prefix and trailing slashes.
    pub host: String,
    /// The origin's port.
    pub port: Option<u16>,
    /// Connect timeout in milliseconds.
    pub connect_timeout: Option<u64>,
    /// First-byte timeout in milliseconds.
    pub first_byte_timeout: Option<u64>,
    /// Between-bytes timeout in milliseconds.
    pub between_bytes_timeout: Option<u64>,
    /// Whether to connect with TLS.
    pub use_tls: Option<bool>,
    /// Whether to check the origin's certificate.
    pub verify_certificate: Option<bool>,
    /// The name sent for server name indication.
    pub sni_hostname: Option<String>,
    /// The certificate authority to trust.
    pub ca_certificate: Option<String>,
    /// The client certificate.
    pub client_certificate: Option<String>,
    /// The client certificate's key.
    pub client_key: Option<String>,
    /// The lowest TLS version to accept.
    pub min_tls_version: Option<String>,
    /// The highest TLS version to accept.
    pub max_tls_version: Option<String>,
    /// The `Host` header to send in place of the origin's host.
    pub override_host: Option<String>,
    /// Whether to prefer IPv6 addresses.
    pub prefer_ipv6: Option<bool>,
    /// Whether to pool connections.
    pub enable_pooling: Option<bool>,
    /// HTTP keepalive time in milliseconds.
    pub keepalive_time: Option<u64>,
    /// The most connections to hold; 0 for no limit.
    pub max_connections: Option<u32>,
    /// The most uses of one connection; 0 for no limit.
    pub max_connection_uses: Option<u32>,
    /// The longest life of one connection in milliseconds; 0 for no limit.
    pub max_connection_lifetime: Option<u64>,
    /// Whether to send TCP keepalive probes.
    pub tcp_keepalive: Option<bool>,
    /// Idle seconds before the first probe.
    pub tcp_keepalive_time: Option<u64>,
    /// Seconds between probes.
    pub tcp_keepalive_interval: Option<u64>,
    /// Probes before the connection counts as dead.
    pub tcp_keepalive_probes: Option<u32>,
    /// The secret that signs requests to this origin.
    pub edge_auth_secret: Option<String>,
}

/// The mathematical view of [`BackendNodeData`]: texts are sequences of
/// characters.
pub struct BackendNodeDataView {
    pub name: Seq<char>,
    pub host: Seq<char>,
    pub port: Option<u16>,
    pub connect_timeout: Option<u64>,
    pub first_byte_timeout: Option<u64>,
    pub between_bytes_timeout: Option<u64>,
    pub use_tls: Option<bool>,
    pub verify_certificate: Option<bool>,
    pub sni_hostname: Option<Seq<char>>,
    pub ca_certificate: Option<Seq<char>>,
    pub client_certificate: Option<Seq<char>>,
    pub client_key: Option<Seq<char>>,
    pub min_tls_version: Option<Seq<char>>,
    pub max_tls_version: Option<Seq<char>>,
    pub override_host: Option<Seq<char>>,
    pub prefer_ipv6: Option<bool>,
    pub enable_pooling: Option<bool>,
    pub keepalive_time: Option<u64>,
    pub max_connections: Option<u32>,
    pub max_connection_uses: Option<u32>,
    pub max_connection_lifetime: Option<u64>,
    pub tcp_keepalive: Option<bool>,
    pub tcp_keepalive_time: Option<u64>,
    pub tcp_keepalive_interval: Option<u64>,
    pub tcp_keepalive_probes: Option<u32>,
    pub edge_auth_secret: Option<Seq<char>>,
}

impl View for BackendNodeData {
    type V = BackendNodeDataView;

    open spec fn view(&self) -> BackendNodeDataView {
        BackendNodeDataView {
            name: self.name@,
            host: self.host@,
            port: self.port,
            connect_timeout: self.connect_timeout,
            first_byte_timeout: self.first_byte_timeout,
            between_bytes_timeout: self.between_bytes_timeout,
            use_tls: self.use_tls,
            verify_certificate: self.verify_certificate,
            sni_hostname: opt_text(self.sni_hostname),
            ca_certificate: opt_text(self.ca_certificate),
            client_certificate: opt_text(self.client_certificate),
            client_key: opt_text(self.client_key),
            min_tls_version: opt_text(self.min_tls_version),
            max_tls_version: opt_text(self.max_tls_version),
            override_host: opt_text(self.override_host),
            prefer_ipv6: self.prefer_ipv6,
            enable_pooling: self.enable_pooling,
            keepalive_time: self.keepalive_time,
            max_connections: self.max_connections,
            max_connection_uses: self.max_connection_uses,
            max_connection_lifetime: self.max_connection_lifetime,
            tcp_keepalive: self.tcp_keepalive,
            tcp_keepalive_time: self.tcp_keepalive_time,
            tcp_keepalive_interval: self.tcp_keepalive_interval,
            tcp_keepalive_probes: self.tcp_keepalive_probes,
            edge_auth_secret: opt_text(self.edge_auth_secret),
        }
    }
}

/// Reads a backend payload from a JSON value: `None` where the value does not
/// fit the schema.
pub open spec fn parse_backend_node_data(j: JsonView) -> Option<BackendNodeDataView> {
    let name = text_field(field_slot(j, "name"@, 0));
    let host = text_field(field_slot(j, "host"@, 1));
    let port = opt_u16_field(field_slot(j, "port"@, 2));
    let connect_timeout = opt_u64_field(field_slot(j, "connectTimeout"@, 3));
    let first_byte_timeout = opt_u64_field(field_slot(j, "firstByteTimeout"@, 4));
    let between_bytes_timeout = opt_u64_field(field_slot(j, "betweenBytesTimeout"@, 5));
    let use_tls = opt_bool_field(field_slot(j, "useTLS"@, 6));
    let verify_certificate = opt_bool_field(field_slot(j, "verifyCertificate"@, 7));
    let sni_hostname = opt_text_field(field_slot(j, "sniHostname"@, 8));
    let ca_certificate = opt_text_field(field_slot(j, "caCertificate"@, 9));
    let client_certificate = opt_text_field(field_slot(j, "clientCertificate"@, 10));
    let client_key = opt_text_field(field_slot(j, "clientKey"@, 11));
    let min_tls_version = opt_text_field(field_slot(j, "minTLSVersion"@, 12));
    let max_tls_version = opt_text_field(field_slot(j, "maxTLSVersion"@, 13));
    let override_host = opt_text_field(field_slot(j, "overrideHost"@, 14));
    let prefer_ipv6 = opt_bool_field(field_slot(j, "preferIPv6"@, 15));
    let enable_pooling = opt_bool_field(field_slot(j, "enablePooling"@, 16));
    let keepalive_time = opt_u64_field(field_slot(j, "keepaliveTime"@, 17));
    let max_connections = opt_u32_field(field_slot(j, "maxConnections"@, 18));
    let max_connection_uses = opt_u32_field(field_slot(j, "maxConnectionUses"@, 19));
    let max_connection_lifetime = opt_u64_field(field_slot(j, "maxConnectionLifetime"@, 20));
    let tcp_keepalive = opt_bool_field(field_slot(j, "tcpKeepalive"@, 21));
    let tcp_keepalive_time = opt_u64_field(field_slot(j, "tcpKeepaliveTime"@, 22));
    let tcp_keepalive_interval = opt_u64_field(field_slot(j, "tcpKeepaliveInterval"@, 23));
    let tcp_keepalive_probes = opt_u32_field(field_slot(j, "tcpKeepaliveProbes"@, 24));
    let edge_auth_secret = opt_text_field(field_slot(j, "edgeAuthSecret"@, 25));
    if is_record(j, 26)
        && name is Some
        && host is Some
        && port is Some
        && connect_timeout is Some
        && first_byte_timeout is Some
        && between_bytes_timeout is Some
        && use_tls is Some
        && verify_certificate is Some
        && sni_hostname is Some
        && ca_certificate is Some
        && client_certificate is Some
        && client_key is Some
        && min_tls_version is Some
        && max_tls_version is Some
        && override_host is Some
        && prefer_ipv6 is Some
        && enable_pooling is Some
        && keepalive_time is Some
        && max_connections is Some
        && max_connection_uses is Some
        && max_connection_lifetime is Some
        && tcp_keepalive is Some
        && tcp_keepalive_time is Some
        && tcp_keepalive_interval is Some
        && tcp_keepalive_probes is Some
        && edge_auth_secret is Some {
        Some(
            BackendNodeDataView {
                name: name->0,
                host: host->0,
                port: port->0,
                connect_timeout: connect_timeout->0,
                first_byte_timeout: first_byte_timeout->0,
                between_bytes_timeout: between_bytes_timeout->0,
                use_tls: use_tls->0,
                verify_certificate: verify_certificate->0,
                sni_hostname: sni_hostname->0,
                ca_certificate: ca_certificate->0,
                client_certificate: client_certificate->0,
                client_key: client_key->0,
                min_tls_version: min_tls_version->0,
                max_tls_version: max_tls_version->0,
                override_host: override_host->0,
                prefer_ipv6: prefer_ipv6->0,
                enable_pooling: enable_pooling->0,
                keepalive_time: keepalive_time->0,
                max_connections: max_connections->0,
                max_connection_uses: max_connection_uses->0,
                max_connection_lifetime: max_connection_lifetime->0,
                tcp_keepalive: tcp_keepalive->0,
                tcp_keepalive_time: tcp_keepalive_time->0,
                tcp_keepalive_interval: tcp_keepalive_interval->0,
                tcp_keepalive_probes: tcp_keepalive_probes->0,
                edge_auth_secret: edge_auth_secret->0,
            },
        )
    } else {
        None
    }
}

/// The JSON object that writes a backend payload: a member for every field, in
/// the fields' order; a field that is not given is written as `null`.
pub open spec fn encode_backend_node_data(v: BackendNodeDataView) -> JsonView {
    JsonView::Object(
        seq![
            member_view("name"@, JsonView::Text(v.name)),
            member_view("host"@, JsonView::Text(v.host)),
            member_view("port"@, json_opt_u16(v.port)),
            member_view("connectTimeout"@, json_opt_u64(v.connect_timeout)),
            member_view("firstByteTimeout"@, json_opt_u64(v.first_byte_timeout)),
            member_view("betweenBytesTimeout"@, json_opt_u64(v.between_bytes_timeout)),
            member_view("useTLS"@, json_opt_bool(v.use_tls)),
            member_view("verifyCertificate"@, json_opt_bool(v.verify_certificate)),
            member_view("sniHostname"@, json_opt_text(v.sni_hostname)),
            member_view("caCertificate"@, json_opt_text(v.ca_certificate)),
            member_view("clientCertificate"@, json_opt_text(v.client_certificate)),
            member_view("clientKey"@, json_opt_text(v.client_key)),
            member_view("minTLSVersion"@, json_opt_text(v.min_tls_version)),
            member_view("maxTLSVersion"@, json_opt_text(v.max_tls_version)),
            member_view("overrideHost"@, json_opt_text(v.override_host)),
            member_view("preferIPv6"@, json_opt_bool(v.prefer_ipv6)),
            member_view("enablePooling"@, json_opt_bool(v.enable_pooling)),
            member_view("keepaliveTime"@, json_opt_u64(v.keepalive_time)),
            member_view("maxConnections"@, json_opt_u32(v.max_connections)),
            member_view("maxConnectionUses"@, json_opt_u32(v.max_connection_uses)),
            member_view("maxConnectionLifetime"@, json_opt_u64(v.max_connection_lifetime)),
            member_view("tcpKeepalive"@, json_opt_bool(v.tcp_keepalive)),
            member_view("tcpKeepaliveTime"@, json_opt_u64(v.tcp_keepalive_time)),
            member_view("tcpKeepaliveInterval"@, json_opt_u64(v.tcp_keepalive_interval)),
            member_view("tcpKeepaliveProbes"@, json_opt_u32(v.tcp_keepalive_probes)),
            member_view("edgeAuthSecret"@, json_opt_text(v.edge_auth_secret)),
        ],
    )
}

impl BackendNodeData {
    /// Reads a backend payload from a JSON value. The value is an object with
    /// the fields' names, or an array of the fields' values in order; a field
    /// that may be absent may also be `null`. `None` where the value does not
    /// fit.
    pub fn from_json(j: &Json) -> (r: Option<BackendNodeData>)
        ensures
            match r {
                Some(d) => parse_backend_node_data(j@) == Some(d@),
                None => parse_backend_node_data(j@) is None,
            },
    {
        if !check_record(j, 26) {
            return None;
        }
        let name = match read_text(slot(j, "name", 0)) {
            Some(v) => v,
            None => return None,
        };
        let host = match read_text(slot(j, "host", 1)) {
            Some(v) => v,
            None => return None,
        };
        let port = match read_opt_u16(slot(j, "port", 2)) {
            Ok(v) => v,
            Err(_) => return None,
        };
        let connect_timeout = match read_opt_u64(slot(j, "connectTimeout", 3)) {
            Ok(v) => v,
            Err(_) => return None,
        };
        let first_byte_timeout = match read_opt_u64(slot(j, "firstByteTimeout", 4)) {
            Ok(v) => v,
            Err(_) => return None,
        };
        let between_bytes_timeout = match read_opt_u64(slot(j, "betweenBytesTimeout", 5)) {
            Ok(v) => v,
            Err(_) => return None,
        };
        let use_tls = match read_opt_bool(slot(j, "useTLS", 6)) {
            Ok(v) => v,
            Err(_) => return None,
        };
        let verify_certificate = match read_opt_bool(slot(j, "verifyCertificate", 7)) {
            Ok(v) => v,
            Err(_) => return None,
        };
        let sni_hostname = match read_opt_text(slot(j, "sniHostname", 8)) {
            Ok(v) => v,
            Err(_) => return None,
        };
        let ca_certificate = match read_opt_text(slot(j, "caCertificate", 9)) {
            Ok(v) => v,
            Err(_) => return None,
        };
        let client_certificate = match read_opt_text(slot(j, "clientCertificate", 10)) {
            Ok(v) => v,
            Err(_) => return None,
        };
        let client_key = match read_opt_text(slot(j, "clientKey", 11)) {
            Ok(v) => v,
            Err(_) => return None,
        };
        let min_tls_version = match read_opt_text(slot(j, "minTLSVersion", 12)) {
            Ok(v) => v,
            Err(_) => return None,
        };
        let max_tls_version = match read_opt_text(slot(j, "maxTLSVersion", 13)) {
            Ok(v) => v,
            Err(_) => return None,
        };
        let override_host = match read_opt_text(slot(j, "overrideHost", 14)) {
            Ok(v) => v,
            Err(_) => return None,
        };
        let prefer_ipv6 = match read_opt_bool(slot(j, "preferIPv6", 15)) {
            Ok(v) => v,
            Err(_) => return None,
        };
        let enable_pooling = match read_opt_bool(slot(j, "enablePooling", 16)) {
            Ok(v) => v,
            Err(_) => return None,
        };
        let keepalive_time = match read_opt_u64(slot(j, "keepaliveTime", 17)) {
            Ok(v) => v,
            Err(_) => return None,
        };
        let max_connections = match read_opt_u32(slot(j, "maxConnections", 18)) {
            Ok(v) => v,
            Err(_) => return None,
        };
        let max_connection_uses = match read_opt_u32(slot(j, "maxConnectionUses", 19)) {
            Ok(v) => v,
            Err(_) => return None,
        };
        let max_connection_lifetime = match read_opt_u64(slot(j, "maxConnectionLifetime", 20)) {
            Ok(v) => v,
            Err(_) => return None,
        };
        let tcp_keepalive = match read_opt_bool(slot(j, "tcpKeepalive", 21)) {
            Ok(v) => v,
            Err(_) => return None,
        };
        let tcp_keepalive_time = match read_opt_u64(slot(j, "tcpKeepaliveTime", 22)) {
            Ok(v) => v,
            Err(_) => return None,
        };
        let tcp_keepalive_interval = match read_opt_u64(slot(j, "tcpKeepaliveInterval", 23)) {
            Ok(v) => v,
            Err(_) => return None,
        };
        let tcp_keepalive_probes = match read_opt_u32(slot(j, "tcpKeepaliveProbes", 24)) {
            Ok(v) => v,
            Err(_) => return None,
        };
        let edge_auth_secret = match read_opt_text(slot(j, "edgeAuthSecret", 25)) {
            Ok(v) => v,
            Err(_) => return None,
        };
        Some(
            BackendNodeData {
                name,
                host,
                port,
                connect_timeout,
                first_byte_timeout,
                between_bytes_timeout,
                use_tls,
                verify_certificate,
                sni_hostname,
                ca_certificate,
                client_certificate,
                client_key,
                min_tls_version,
                max_tls_version,
                override_host,
                prefer_ipv6,
                enable_pooling,
                keepalive_time,
                max_connections,
                max_connection_uses,
                max_connection_lifetime,
                tcp_keepalive,
                tcp_keepalive_time,
                tcp_keepalive_interval,
                tcp_keepalive_probes,
                edge_auth_secret,
            },
        )
    }

    /// Writes a backend payload as a JSON object.
    pub fn to_json(&self) -> (r: Json)
        ensures
            r@ == encode_backend_node_data(self@),
    {
        let mut members: Vec<Member> = Vec::new();
        members.push(make_member("name", write_text(&self.name)));
        members.push(make_member("host", write_text(&self.host)));
        members.push(make_member("port", write_opt_u16(&self.port)));
        members.push(make_member("connectTimeout", write_opt_u64(&self.connect_timeout)));
        members.push(make_member("firstByteTimeout", write_opt_u64(&self.first_byte_timeout)));
        members.push(
            make_member("betweenBytesTimeout", write_opt_u64(&self.between_bytes_timeout)),
        );
        members.push(make_member("useTLS", write_opt_bool(&self.use_tls)));
        members.push(make_member("verifyCertificate", write_opt_bool(&self.verify_certificate)));
        members.push(make_member("sniHostname", write_opt_text(&self.sni_hostname)));
        members.push(make_member("caCertificate", write_opt_text(&self.ca_certificate)));
        members.push(make_member("clientCertificate", write_opt_text(&self.client_certificate)));
        members.push(make_member("clientKey", write_opt_text(&self.client_key)));
        members.push(make_member("minTLSVersion", write_opt_text(&self.min_tls_version)));
        members.push(make_member("maxTLSVersion", write_opt_text(&self.max_tls_version)));
        members.push(make_member("overrideHost", write_opt_text(&self.override_host)));
        members.push(make_member("preferIPv6", write_opt_bool(&self.prefer_ipv6)));
        members.push(make_member("enablePooling", write_opt_bool(&self.enable_pooling)));
        members.push(make_member("keepaliveTime", write_opt_u64(&self.keepalive_time)));
        members.push(make_member("maxConnections", write_opt_u32(&self.max_connections)));
        members.push(make_member("maxConnectionUses", write_opt_u32(&self.max_connection_uses)));
        members.push(
            make_member("maxConnectionLifetime", write_opt_u64(&self.max_connection_lifetime)),
        );
        members.push(make_member("tcpKeepalive", write_opt_bool(&self.tcp_keepalive)));
        members.push(make_member("tcpKeepaliveTime", write_opt_u64(&self.tcp_keepalive_time)));
        members.push(
            make_member("tcpKeepaliveInterval", write_opt_u64(&self.tcp_keepalive_interval)),
        );
        members.push(make_member("tcpKeepaliveProbes", write_opt_u32(&self.tcp_keepalive_probes)));
        members.push(make_member("edgeAuthSecret", write_opt_text(&self.edge_auth_secret)));
        let r = make_object(members);
        proof {
            assert(r@->Object_0 =~= encode_backend_node_data(self@)->Object_0);
        }
        r
    }
}

/// What a lookup by name finds in the object that writes a backend payload.
proof fn lemma_backend_node_data_slots(v: BackendNodeDataView)
    ensures
        field_slot(encode_backend_node_data(v), "name"@, 0) == Some(JsonView::Text(v.name)),
        field_slot(encode_backend_node_data(v), "host"@, 1) == Some(JsonView::Text(v.host)),
        field_slot(encode_backend_node_data(v), "port"@, 2) == Some(json_opt_u16(v.port)),
        field_slot(encode_backend_node_data(v), "connectTimeout"@, 3) == Some(
            json_opt_u64(v.connect_timeout),
        ),
        field_slot(encode_backend_node_data(v), "firstByteTimeout"@, 4) == Some(
            json_opt_u64(v.first_byte_timeout),
        ),
        field_slot(encode_backend_node_data(v), "betweenBytesTimeout"@, 5) == Some(
            json_opt_u64(v.between_bytes_timeout),
        ),
        field_slot(encode_backend_node_data(v), "useTLS"@, 6) == Some(json_opt_bool(v.use_tls)),
        field_slot(encode_backend_node_data(v), "verifyCertificate"@, 7) == Some(
            json_opt_bool(v.verify_certificate),
        ),
        field_slot(encode_backend_node_data(v), "sniHostname"@, 8) == Some(
            json_opt_text(v.sni_hostname),
        ),
        field_slot(encode_backend_node_data(v), "caCertificate"@, 9) == Some(
            json_opt_text(v.ca_certificate),
        ),
        field_slot(encode_backend_node_data(v), "clientCertificate"@, 10) == Some(
            json_opt_text(v.client_certificate),
        ),
        field_slot(encode_backend_node_data(v), "clientKey"@, 11) == Some(
            json_opt_text(v.client_key),
        ),
        field_slot(encode_backend_node_data(v), "minTLSVersion"@, 12) == Some(
            json_opt_text(v.min_tls_version),
        ),
        field_slot(encode_backend_node_data(v), "maxTLSVersion"@, 13) == Some(
            json_opt_text(v.max_tls_version),
        ),
        field_slot(encode_backend_node_data(v), "overrideHost"@, 14) == Some(
            json_opt_text(v.override_host),
        ),
        field_slot(encode_backend_node_data(v), "preferIPv6"@, 15) == Some(
            json_opt_bool(v.prefer_ipv6),
        ),
        field_slot(encode_backend_node_data(v), "enablePooling"@, 16) == Some(
            json_opt_bool(v.enable_pooling),
        ),
        field_slot(encode_backend_node_data(v), "keepaliveTime"@, 17) == Some(
            json_opt_u64(v.keepalive_time),
        ),
        field_slot(encode_backend_node_data(v), "maxConnections"@, 18) == Some(
            json_opt_u32(v.max_connections),
        ),
        field_slot(encode_backend_node_data(v), "maxConnectionUses"@, 19) == Some(
            json_opt_u32(v.max_connection_uses),
        ),
        field_slot(encode_backend_node_data(v), "maxConnectionLifetime"@, 20) == Some(
            json_opt_u64(v.max_connection_lifetime),
        ),
        field_slot(encode_backend_node_data(v), "tcpKeepalive"@, 21) == Some(
            json_opt_bool(v.tcp_keepalive),
        ),
        field_slot(encode_backend_node_data(v), "tcpKeepaliveTime"@, 22) == Some(
            json_opt_u64(v.tcp_keepalive_time),
        ),
        field_slot(encode_backend_node_data(v), "tcpKeepaliveInterval"@, 23) == Some(
            json_opt_u64(v.tcp_keepalive_interval),
        ),
        field_slot(encode_backend_node_data(v), "tcpKeepaliveProbes"@, 24) == Some(
            json_opt_u32(v.tcp_keepalive_probes),
        ),
        field_slot(encode_backend_node_data(v), "edgeAuthSecret"@, 25) == Some(
            json_opt_text(v.edge_auth_secret),
        ),
{
    let from_edge_auth_secret = with_member(
        member_view("edgeAuthSecret"@, json_opt_text(v.edge_auth_secret)),
        Seq::empty(),
    );
    let from_tcp_keepalive_probes = with_member(
        member_view("tcpKeepaliveProbes"@, json_opt_u32(v.tcp_keepalive_probes)),
        from_edge_auth_secret,
    );
    let from_tcp_keepalive_interval = with_member(
        member_view("tcpKeepaliveInterval"@, json_opt_u64(v.tcp_keepalive_interval)),
        from_tcp_keepalive_probes,
    );
    let from_tcp_keepalive_time = with_member(
        member_view("tcpKeepaliveTime"@, json_opt_u64(v.tcp_keepalive_time)),
        from_tcp_keepalive_interval,
    );
    let from_tcp_keepalive = with_member(
        member_view("tcpKeepalive"@, json_opt_bool(v.tcp_keepalive)),
        from_tcp_keepalive_time,
    );
    let from_max_connection_lifetime = with_member(
        member_view("maxConnectionLifetime"@, json_opt_u64(v.max_connection_lifetime)),
        from_tcp_keepalive,
    );
    let from_max_connection_uses = with_member(
        member_view("maxConnectionUses"@, json_opt_u32(v.max_connection_uses)),
        from_max_connection_lifetime,
    );
    let from_max_connections = with_member(
        member_view("maxConnections"@, json_opt_u32(v.max_connections)),
        from_max_connection_uses,
    );
    let from_keepalive_time = with_member(
        member_view("keepaliveTime"@, json_opt_u64(v.keepalive_time)),
        from_max_connections,
    );
    let from_enable_pooling = with_member(
        member_view("enablePooling"@, json_opt_bool(v.enable_pooling)),
        from_keepalive_time,
    );
    let from_prefer_ipv6 = with_member(
        member_view("preferIPv6"@, json_opt_bool(v.prefer_ipv6)),
        from_enable_pooling,
    );
    let from_override_host = with_member(
        member_view("overrideHost"@, json_opt_text(v.override_host)),
        from_prefer_ipv6,
    );
    let from_max_tls_version = with_member(
        member_view("maxTLSVersion"@, json_opt_text(v.max_tls_version)),
        from_override_host,
    );
    let from_min_tls_version = with_member(
        member_view("minTLSVersion"@, json_opt_text(v.min_tls_version)),
        from_max_tls_version,
    );
    let from_client_key = with_member(
        member_view("clientKey"@, json_opt_text(v.client_key)),
        from_min_tls_version,
    );
    let from_client_certificate = with_member(
        member_view("clientCertificate"@, json_opt_text(v.client_certificate)),
        from_client_key,
    );
    let from_ca_certificate = with_member(
        member_view("caCertificate"@, json_opt_text(v.ca_certificate)),
        from_client_certificate,
    );
    let from_sni_hostname = with_member(
        member_view("sniHostname"@, json_opt_text(v.sni_hostname)),
        from_ca_certificate,
    );
    let from_verify_certificate = with_member(
        member_view("verifyCertificate"@, json_opt_bool(v.verify_certificate)),
        from_sni_hostname,
    );
    let from_use_tls = with_member(
        member_view("useTLS"@, json_opt_bool(v.use_tls)),
        from_verify_certificate,
    );
    let from_between_bytes_timeout = with_member(
        member_view("betweenBytesTimeout"@, json_opt_u64(v.between_bytes_timeout)),
        from_use_tls,
    );
    let from_first_byte_timeout = with_member(
        member_view("firstByteTimeout"@, json_opt_u64(v.first_byte_timeout)),
        from_between_bytes_timeout,
    );
    let from_connect_timeout = with_member(
        member_view("connectTimeout"@, json_opt_u64(v.connect_timeout)),
        from_first_byte_timeout,
    );
    let from_port = with_member(member_view("port"@, json_opt_u16(v.port)), from_connect_timeout);
    let from_host = with_member(member_view("host"@, JsonView::Text(v.host)), from_port);
    let from_name = with_member(member_view("name"@, JsonView::Text(v.name)), from_host);
    assert(encode_backend_node_data(v)->Object_0 =~= from_name);
    lemma_lookup_steps();
    reveal_strlit("name");
    reveal_strlit("host");
    reveal_strlit("port");
    reveal_strlit("connectTimeout");
    reveal_strlit("firstByteTimeout");
    reveal_strlit("betweenBytesTimeout");
    reveal_strlit("useTLS");
    reveal_strlit("verifyCertificate");
    reveal_strlit("sniHostname");
    reveal_strlit("caCertificate");
    reveal_strlit("clientCertificate");
    reveal_strlit("clientKey");
    reveal_strlit("minTLSVersion");
    reveal_strlit("maxTLSVersion");
    reveal_strlit("overrideHost");
    reveal_strlit("preferIPv6");
    reveal_strlit("enablePooling");
    reveal_strlit("keepaliveTime");
    reveal_strlit("maxConnections");
    reveal_strlit("maxConnectionUses");
    reveal_strlit("maxConnectionLifetime");
    reveal_strlit("tcpKeepalive");
    reveal_strlit("tcpKeepaliveTime");
    reveal_strlit("tcpKeepaliveInterval");
    reveal_strlit("tcpKeepaliveProbes");
    reveal_strlit("edgeAuthSecret");
    assert("name"@.len() == 4 && "name"@[0] == 'n');
    assert("host"@.len() == 4 && "host"@[0] == 'h');
    assert("port"@.len() == 4 && "port"@[0] == 'p');
    assert("connectTimeout"@.len() == 14 && "connectTimeout"@[0] == 'c');
    assert("firstByteTimeout"@.len() == 16 && "firstByteTimeout"@[0] == 'f');
    assert("betweenBytesTimeout"@.len() == 19);
    assert("useTLS"@.len() == 6);
    assert("verifyCertificate"@.len() == 17 && "verifyCertificate"@[0] == 'v');
    assert("sniHostname"@.len() == 11);
    assert("caCertificate"@.len() == 13 && "caCertificate"@[0] == 'c');
    assert("clientCertificate"@.len() == 17 && "clientCertificate"@[0] == 'c');
    assert("clientKey"@.len() == 9);
    assert("minTLSVersion"@.len() == 13
        && "minTLSVersion"@[0] == 'm'
        && "minTLSVersion"@[1] == 'i');
    assert("maxTLSVersion"@.len() == 13
        && "maxTLSVersion"@[0] == 'm'
        && "maxTLSVersion"@[1] == 'a');
    assert("overrideHost"@.len() == 12 && "overrideHost"@[0] == 'o');
    assert("preferIPv6"@.len() == 10);
    assert("enablePooling"@.len() == 13 && "enablePooling"@[0] == 'e');
    assert("keepaliveTime"@.len() == 13 && "keepaliveTime"@[0] == 'k');
    assert("maxConnections"@.len() == 14 && "maxConnections"@[0] == 'm');
    assert("maxConnectionUses"@.len() == 17 && "maxConnectionUses"@[0] == 'm');
    assert("maxConnectionLifetime"@.len() == 21);
    assert("tcpKeepalive"@.len() == 12 && "tcpKeepalive"@[0] == 't');
    assert("tcpKeepaliveTime"@.len() == 16 && "tcpKeepaliveTime"@[0] == 't');
    assert("tcpKeepaliveInterval"@.len() == 20);
    assert("tcpKeepaliveProbes"@.len() == 18);
    assert("edgeAuthSecret"@.len() == 14 && "edgeAuthSecret"@[0] == 'e');
}

/// Reading a record gives a backend payload back where each field's slot holds
/// what writes the field.
proof fn lemma_backend_node_data_from_slots(v: BackendNodeDataView, j: JsonView)
    requires
        is_record(j, 26),
        field_slot(j, "name"@, 0) == Some(JsonView::Text(v.name)),
        field_slot(j, "host"@, 1) == Some(JsonView::Text(v.host)),
        field_slot(j, "port"@, 2) == Some(json_opt_u16(v.port)),
        field_slot(j, "connectTimeout"@, 3) == Some(json_opt_u64(v.connect_timeout)),
        field_slot(j, "firstByteTimeout"@, 4) == Some(json_opt_u64(v.first_byte_timeout)),
        field_slot(j, "betweenBytesTimeout"@, 5) == Some(json_opt_u64(v.between_bytes_timeout)),
        field_slot(j, "useTLS"@, 6) == Some(json_opt_bool(v.use_tls)),
        field_slot(j, "verifyCertificate"@, 7) == Some(json_opt_bool(v.verify_certificate)),
        field_slot(j, "sniHostname"@, 8) == Some(json_opt_text(v.sni_hostname)),
        field_slot(j, "caCertificate"@, 9) == Some(json_opt_text(v.ca_certificate)),
        field_slot(j, "clientCertificate"@, 10) == Some(json_opt_text(v.client_certificate)),
        field_slot(j, "clientKey"@, 11) == Some(json_opt_text(v.client_key)),
        field_slot(j, "minTLSVersion"@, 12) == Some(json_opt_text(v.min_tls_version)),
        field_slot(j, "maxTLSVersion"@, 13) == Some(json_opt_text(v.max_tls_version)),
        field_slot(j, "overrideHost"@, 14) == Some(json_opt_text(v.override_host)),
        field_slot(j, "preferIPv6"@, 15) == Some(json_opt_bool(v.prefer_ipv6)),
        field_slot(j, "enablePooling"@, 16) == Some(json_opt_bool(v.enable_pooling)),
        field_slot(j, "keepaliveTime"@, 17) == Some(json_opt_u64(v.keepalive_time)),
        field_slot(j, "maxConnections"@, 18) == Some(json_opt_u32(v.max_connections)),
        field_slot(j, "maxConnectionUses"@, 19) == Some(json_opt_u32(v.max_connection_uses)),
        field_slot(j, "maxConnectionLifetime"@, 20) == Some(
            json_opt_u64(v.max_connection_lifetime),
        ),
        field_slot(j, "tcpKeepalive"@, 21) == Some(json_opt_bool(v.tcp_keepalive)),
        field_slot(j, "tcpKeepaliveTime"@, 22) == Some(json_opt_u64(v.tcp_keepalive_time)),
        field_slot(j, "tcpKeepaliveInterval"@, 23) == Some(json_opt_u64(v.tcp_keepalive_interval)),
        field_slot(j, "tcpKeepaliveProbes"@, 24) == Some(json_opt_u32(v.tcp_keepalive_probes)),
        field_slot(j, "edgeAuthSecret"@, 25) == Some(json_opt_text(v.edge_auth_secret)),
    ensures
        parse_backend_node_data(j) == Some(v),
{
    lemma_opt_u16_round_trip(v.port);
    lemma_opt_u64_round_trip(v.connect_timeout);
    lemma_opt_u64_round_trip(v.first_byte_timeout);
    lemma_opt_u64_round_trip(v.between_bytes_timeout);
    lemma_opt_bool_round_trip(v.use_tls);
    lemma_opt_bool_round_trip(v.verify_certificate);
    lemma_opt_text_round_trip(v.sni_hostname);
    lemma_opt_text_round_trip(v.ca_certificate);
    lemma_opt_text_round_trip(v.client_certificate);
    lemma_opt_text_round_trip(v.client_key);
    lemma_opt_text_round_trip(v.min_tls_version);
    lemma_opt_text_round_trip(v.max_tls_version);
    lemma_opt_text_round_trip(v.override_host);
    lemma_opt_bool_round_trip(v.prefer_ipv6);
    lemma_opt_bool_round_trip(v.enable_pooling);
    lemma_opt_u64_round_trip(v.keepalive_time);
    lemma_opt_u32_round_trip(v.max_connections);
    lemma_opt_u32_round_trip(v.max_connection_uses);
    lemma_opt_u64_round_trip(v.max_connection_lifetime);
    lemma_opt_bool_round_trip(v.tcp_keepalive);
    lemma_opt_u64_round_trip(v.tcp_keepalive_time);
    lemma_opt_u64_round_trip(v.tcp_keepalive_interval);
    lemma_opt_u32_round_trip(v.tcp_keepalive_probes);
    lemma_opt_text_round_trip(v.edge_auth_secret);
}

/// Reading a backend payload that was written gives the same back.
pub proof fn law_backend_node_data_round_trip(v: BackendNodeDataView)
    ensures
        parse_backend_node_data(encode_backend_node_data(v)) == Some(v),
{
    lemma_backend_node_data_slots(v);
    lemma_backend_node_data_from_slots(v, encode_backend_node_data(v));
}

/// The payload of a `rateLimit` node.
#[derive(Debug, Clone, PartialEq, Eq)]
pub struct RateLimitNodeData {
    /// The most requests allowed in one window.
    pub limit: u32,
    /// The window: `second`, `minute` or `hour`.
    pub window_unit: String,
    /// What identifies a client: `ip`, `fingerprint`, `header` or `path`.
    pub key_by: String,
    /// The header to key by where `key_by` is `header`.
    pub header_name: Option<String>,
}

/// The mathematical view of [`RateLimitNodeData`]: texts are sequences of
/// characters.
pub struct RateLimitNodeDataView {
    pub limit: u32,
    pub window_unit: Seq<char>,
    pub key_by: Seq<char>,
    pub header_name: Option<Seq<char>>,
}

impl View for RateLimitNodeData {
    type V = RateLimitNodeDataView;

    open spec fn view(&self) -> RateLimitNodeDataView {
        RateLimitNodeDataView {
            limit: self.limit,
            window_unit: self.window_unit@,
            key_by: self.key_by@,
            header_name: opt_text(self.header_name),
        }
    }
}

/// Reads a rate limit payload from a JSON value: `None` where the value does
/// not fit the schema.
pub open spec fn parse_rate_limit_node_data(j: JsonView) -> Option<RateLimitNodeDataView> {
    let limit = u32_field(field_slot(j, "limit"@, 0));
    let window_unit = text_field(field_slot(j, "windowUnit"@, 1));
    let key_by = text_field(field_slot(j, "keyBy"@, 2));
    let header_name = opt_text_field(field_slot(j, "headerName"@, 3));
    if is_record(j, 4)
        && limit is Some
        && window_unit is Some
        && key_by is Some
        && header_name is Some {
        Some(
            RateLimitNodeDataView {
                limit: limit->0,
                window_unit: window_unit->0,
                key_by: key_by->0,
                header_name: header_name->0,
            },
        )
    } else {
        None
    }
}

/// The JSON object that writes a rate limit payload: a member for every field,
/// in the fields' order; a field that is not given is written as `null`.
pub open spec fn encode_rate_limit_node_data(v: RateLimitNodeDataView) -> JsonView {
    JsonView::Object(
        seq![
            member_view("limit"@, json_uint(v.limit as nat)),
            member_view("windowUnit"@, JsonView::Text(v.window_unit)),
            member_view("keyBy"@, JsonView::Text(v.key_by)),
            member_view("headerName"@, json_opt_text(v.header_name)),
        ],
    )
}

impl RateLimitNodeData {
    /// Reads a rate limit payload from a JSON value. The value is an object
    /// with the fields' names, or an array of the fields' values in order; a
    /// field that may be absent may also be `null`. `None` where the value
    /// does not fit.
    pub fn from_json(j: &Json) -> (r: Option<RateLimitNodeData>)
        ensures
            match r {
                Some(d) => parse_rate_limit_node_data(j@) == Some(d@),
                None => parse_rate_limit_node_data(j@) is None,
            },
    {
        if !check_record(j, 4) {
            return None;
        }
        let limit = match read_u32(slot(j, "limit", 0)) {
            Some(v) => v,
            None => return None,
        };
        let window_unit = match read_text(slot(j, "windowUnit", 1)) {
            Some(v) => v,
            None => return None,
        };
        let key_by = match read_text(slot(j, "keyBy", 2)) {
            Some(v) => v,
            None => return None,
        };
        let header_name = match read_opt_text(slot(j, "headerName", 3)) {
            Ok(v) => v,
            Err(_) => return None,
        };
        Some(RateLimitNodeData { limit, window_unit, key_by, header_name })
    }

    /// Writes a rate limit payload as a JSON object.
    pub fn to_json(&self) -> (r: Json)
        ensures
            r@ == encode_rate_limit_node_data(self@),
    {
        let mut members: Vec<Member> = Vec::new();
        members.push(make_member("limit", write_uint(self.limit as u64)));
        members.push(make_member("windowUnit", write_text(&self.window_unit)));
        members.push(make_member("keyBy", write_text(&self.key_by)));
        members.push(make_member("headerName", write_opt_text(&self.header_name)));
        let r = make_object(members);
        proof {
            assert(r@->Object_0 =~= encode_rate_limit_node_data(self@)->Object_0);
        }
        r
    }
}

/// What a lookup by name finds in the object that writes a rate limit payload.
proof fn lemma_rate_limit_node_data_slots(v: RateLimitNodeDataView)
    ensures
        field_slot(encode_rate_limit_node_data(v), "limit"@, 0) == Some(json_uint(v.limit as nat)),
        field_slot(encode_rate_limit_node_data(v), "windowUnit"@, 1) == Some(
            JsonView::Text(v.window_unit),
        ),
        field_slot(encode_rate_limit_node_data(v), "keyBy"@, 2) == Some(JsonView::Text(v.key_by)),
        field_slot(encode_rate_limit_node_data(v), "headerName"@, 3) == Some(
            json_opt_text(v.header_name),
        ),
{
    let from_header_name = with_member(
        member_view("headerName"@, json_opt_text(v.header_name)),
        Seq::empty(),
    );
    let from_key_by = with_member(
        member_view("keyBy"@, JsonView::Text(v.key_by)),
        from_header_name,
    );
    let from_window_unit = with_member(
        member_view("windowUnit"@, JsonView::Text(v.window_unit)),
        from_key_by,
    );
    let from_limit = with_member(
        member_view("limit"@, json_uint(v.limit as nat)),
        from_window_unit,
    );
    assert(encode_rate_limit_node_data(v)->Object_0 =~= from_limit);
    lemma_lookup_steps();
    reveal_strlit("limit");
    reveal_strlit("windowUnit");
    reveal_strlit("keyBy");
    reveal_strlit("headerName");
    assert("limit"@.len() == 5 && "limit"@[0] == 'l');
    assert("windowUnit"@.len() == 10 && "windowUnit"@[0] == 'w');
    assert("keyBy"@.len() == 5 && "keyBy"@[0] == 'k');
    assert("headerName"@.len() == 10 && "headerName"@[0] == 'h');
}

/// Reading a record gives a rate limit payload back where each field's slot
/// holds what writes the field.
proof fn lemma_rate_limit_node_data_from_slots(v: RateLimitNodeDataView, j: JsonView)
    requires
        is_record(j, 4),
        field_slot(j, "limit"@, 0) == Some(json_uint(v.limit as nat)),
        field_slot(j, "windowUnit"@, 1) == Some(JsonView::Text(v.window_unit)),
        field_slot(j, "keyBy"@, 2) == Some(JsonView::Text(v.key_by)),
        field_slot(j, "headerName"@, 3) == Some(json_opt_text(v.header_name)),
    ensures
        parse_rate_limit_node_data(j) == Some(v),
{
    lemma_u32_round_trip(v.limit);
    lemma_opt_text_round_trip(v.header_name);
}

/// Reading a rate limit payload that was written gives the same back.
pub proof fn law_rate_limit_node_data_round_trip(v: RateLimitNodeDataView)
    ensures
        parse_rate_limit_node_data(encode_rate_limit_node_data(v)) == Some(v),
{
    lemma_rate_limit_node_data_slots(v);
    lemma_rate_limit_node_data_from_slots(v, encode_rate_limit_node_data(v));
}

/// The payload of a `header` node: one change to the outgoing request's
/// headers.
#[derive(Debug, Clone, PartialEq, Eq)]
pub struct HeaderNodeData {
    /// `set`, `append` or `remove`.
    pub operation: String,
    /// The header's name.
    pub name: String,
    /// The header's value, for `set` and `append`.
    pub value: Option<String>,
}

/// The mathematical view of [`HeaderNodeData`]: texts are sequences of
/// characters.
pub struct HeaderNodeDataView {
    pub operation: Seq<char>,
    pub name: Seq<char>,
    pub value: Option<Seq<char>>,
}

impl View for HeaderNodeData {
    type V = HeaderNodeDataView;

    open spec fn view(&self) -> HeaderNodeDataView {
        HeaderNodeDataView {
            operation: self.operation@,
            name: self.name@,
            value: opt_text(self.value),
        }
    }
}

/// Reads a header payload from a JSON value: `None` where the value does not
/// fit the schema.
pub open spec fn parse_header_node_data(j: JsonView) -> Option<HeaderNodeDataView> {
    let operation = text_field(field_slot(j, "operation"@, 0));
    let name = text_field(field_slot(j, "name"@, 1));
    let value = opt_text_field(field_slot(j, "value"@, 2));
    if is_record(j, 3)
        && operation is Some
        && name is Some
        && value is Some {
        Some(
            HeaderNodeDataView {
                operation: operation->0,
                name: name->0,
                value: value->0,
            },
        )
    } else {
        None
    }
}

/// The JSON object that writes a header payload: a member for every field, in
/// the fields' order; a field that is not given is written as `null`.
pub open spec fn encode_header_node_data(v: HeaderNodeDataView) -> JsonView {
    JsonView::Object(
        seq![
            member_view("operation"@, JsonView::Text(v.operation)),
            member_view("name"@, JsonView::Text(v.name)),
            member_view("value"@, json_opt_text(v.value)),
        ],
    )
}

impl HeaderNodeData {
    /// Reads a header payload from a JSON value. The value is an object with
    /// the fields' names, or an array of the fields' values in order; a field
    /// that may be absent may also be `null`. `None` where the value does not
    /// fit.
    pub fn from_json(j: &Json) -> (r: Option<HeaderNodeData>)
        ensures
            match r {
                Some(d) => parse_header_node_data(j@) == Some(d@),
                None => parse_header_node_data(j@) is None,
            },
    {
        if !check_record(j, 3) {
            return None;
        }
        let operation = match read_text(slot(j, "operation", 0)) {
            Some(v) => v,
            None => return None,
        };
        let name = match read_text(slot(j, "name", 1)) {
            Some(v) => v,
            None => return None,
        };
        let value = match read_opt_text(slot(j, "value", 2)) {
            Ok(v) => v,
            Err(_) => return None,
        };
        Some(HeaderNodeData { operation, name, value })
    }

    /// Writes a header payload as a JSON object.
    pub fn to_json(&self) -> (r: Json)
        ensures
            r@ == encode_header_node_data(self@),
    {
        let mut members: Vec<Member> = Vec::new();
        members.push(make_member("operation", write_text(&self.operation)));
        members.push(make_member("name", write_text(&self.name)));
        members.push(make_member("value", write_opt_text(&self.value)));
        let r = make_object(members);
        proof {
            assert(r@->Object_0 =~= encode_header_node_data(self@)->Object_0);
        }
        r
    }
}

/// What a lookup by name finds in the object that writes a header payload.
proof fn lemma_header_node_data_slots(v: HeaderNodeDataView)
    ensures
        field_slot(encode_header_node_data(v), "operation"@, 0) == Some(
            JsonView::Text(v.operation),
        ),
        field_slot(encode_header_node_data(v), "name"@, 1) == Some(JsonView::Text(v.name)),
        field_slot(encode_header_node_data(v), "value"@, 2) == Some(json_opt_text(v.value)),
{
    let from_value = with_member(member_view("value"@, json_opt_text(v.value)), Seq::empty());
    let from_name = with_member(member_view("name"@, JsonView::Text(v.name)), from_value);
    let from_operation = with_member(
        member_view("operation"@, JsonView::Text(v.operation)),
        from_name,
    );
    assert(encode_header_node_data(v)->Object_0 =~= from_operation);
    lemma_lookup_steps();
    reveal_strlit("operation");
    reveal_strlit("name");
    reveal_strlit("value");
    assert("operation"@.len() == 9);
    assert("name"@.len() == 4);
    assert("value"@.len() == 5);
}

/// Reading a record gives a header payload back where each field's slot holds
/// what writes the field.
proof fn lemma_header_node_data_from_slots(v: HeaderNodeDataView, j: JsonView)
    requires
        is_record(j, 3),
        field_slot(j, "operation"@, 0) == Some(JsonView::Text(v.operation)),
        field_slot(j, "name"@, 1) == Some(JsonView::Text(v.name)),
        field_slot(j, "value"@, 2) == Some(json_opt_text(v.value)),
    ensures
        parse_header_node_data(j) == Some(v),
{
    lemma_opt_text_round_trip(v.value);
}

/// Reading a header payload that was written gives the same back.
pub proof fn law_header_node_data_round_trip(v: HeaderNodeDataView)
    ensures
        parse_header_node_data(encode_header_node_data(v)) == Some(v),
{
    lemma_header_node_data_slots(v);
    lemma_header_node_data_from_slots(v, encode_header_node_data(v));
}

/// The payload of a `cache` node.
#[derive(Debug, Clone, PartialEq, Eq)]
pub struct CacheNodeData {
    /// `configure` or `pass`.
    pub mode: String,
    /// The time to live.
    pub ttl: Option<u64>,
    /// The unit of `ttl`: `seconds`, `minutes`, `hours` or `days`.
    pub ttl_unit: Option<String>,
    /// How long a stale response may be served while it is refreshed.
    pub stale_while_revalidate: Option<u64>,
    /// The unit of `stale_while_revalidate`.
    pub swr_unit: Option<String>,
    /// Surrogate keys, separated by spaces.
    pub surrogate_keys: Option<String>,
}

/// The mathematical view of [`CacheNodeData`]: texts are sequences of
/// characters.
pub struct CacheNodeDataView {
    pub mode: Seq<char>,
    pub ttl: Option<u64>,
    pub ttl_unit: Option<Seq<char>>,
    pub stale_while_revalidate: Option<u64>,
    pub swr_unit: Option<Seq<char>>,
    pub surrogate_keys: Option<Seq<char>>,
}

impl View for CacheNodeData {
    type V = CacheNodeDataView;

    open spec fn view(&self) -> CacheNodeDataView {
        CacheNodeDataView {
            mode: self.mode@,
            ttl: self.ttl,
            ttl_unit: opt_text(self.ttl_unit),
            stale_while_revalidate: self.stale_while_revalidate,
            swr_unit: opt_text(self.swr_unit),
            surrogate_keys: opt_text(self.surrogate_keys),
        }
    }
}

/// Reads a cache payload from a JSON value: `None` where the value does not
/// fit the schema.
pub open spec fn parse_cache_node_data(j: JsonView) -> Option<CacheNodeDataView> {
    let mode = text_field(field_slot(j, "mode"@, 0));
    let ttl = opt_u64_field(field_slot(j, "ttl"@, 1));
    let ttl_unit = opt_text_field(field_slot(j, "ttlUnit"@, 2));
    let stale_while_revalidate = opt_u64_field(field_slot(j, "staleWhileRevalidate"@, 3));
    let swr_unit = opt_text_field(field_slot(j, "swrUnit"@, 4));
    let surrogate_keys = opt_text_field(field_slot(j, "surrogateKeys"@, 5));
    if is_record(j, 6)
        && mode is Some
        && ttl is Some
        && ttl_unit is Some
        && stale_while_revalidate is Some
        && swr_unit is Some
        && surrogate_keys is Some {
        Some(
            CacheNodeDataView {
                mode: mode->0,
                ttl: ttl->0,
                ttl_unit: ttl_unit->0,
                stale_while_revalidate: stale_while_revalidate->0,
                swr_unit: swr_unit->0,
                surrogate_keys: surrogate_keys->0,
            },
        )
    } else {
        None
    }
}

/// The JSON object that writes a cache payload: a member for every field, in
/// the fields' order; a field that is not given is written as `null`.
pub open spec fn encode_cache_node_data(v: CacheNodeDataView) -> JsonView {
    JsonView::Object(
        seq![
            member_view("mode"@, JsonView::Text(v.mode)),
            member_view("ttl"@, json_opt_u64(v.ttl)),
            member_view("ttlUnit"@, json_opt_text(v.ttl_unit)),
            member_view("staleWhileRevalidate"@, json_opt_u64(v.stale_while_revalidate)),
            member_view("swrUnit"@, json_opt_text(v.swr_unit)),
            member_view("surrogateKeys"@, json_opt_text(v.surrogate_keys)),
        ],
    )
}

impl CacheNodeData {
    /// Reads a cache payload from a JSON value. The value is an object with
    /// the fields' names, or an array of the fields' values in order; a field
    /// that may be absent may also be `null`. `None` where the value does not
    /// fit.
    pub fn from_json(j: &Json) -> (r: Option<CacheNodeData>)
        ensures
            match r {
                Some(d) => parse_cache_node_data(j@) == Some(d@),
                None => parse_cache_node_data(j@) is None,
            },
    {
        if !check_record(j, 6) {
            return None;
        }
        let mode = match read_text(slot(j, "mode", 0)) {
            Some(v) => v,
            None => return None,
        };
        let ttl = match read_opt_u64(slot(j, "ttl", 1)) {
            Ok(v) => v,
            Err(_) => return None,
        };
        let ttl_unit = match read_opt_text(slot(j, "ttlUnit", 2)) {
            Ok(v) => v,
            Err(_) => return None,
        };
        let stale_while_revalidate = match read_opt_u64(slot(j, "staleWhileRevalidate", 3)) {
            Ok(v) => v,
            Err(_) => return None,
        };
        let swr_unit = match read_opt_text(slot(j, "swrUnit", 4)) {
            Ok(v) => v,
            Err(_) => return None,
        };
        let surrogate_keys = match read_opt_text(slot(j, "surrogateKeys", 5)) {
            Ok(v) => v,
            Err(_) => return None,
        };
        Some(
            CacheNodeData {
                mode,
                ttl,
                ttl_unit,
                stale_while_revalidate,
                swr_unit,
                surrogate_keys,
            },
        )
    }

    /// Writes a cache payload as a JSON object.
    pub fn to_json(&self) -> (r: Json)
        ensures
            r@ == encode_cache_node_data(self@),
    {
        let mut members: Vec<Member> = Vec::new();
        members.push(make_member("mode", write_text(&self.mode)));
        members.push(make_member("ttl", write_opt_u64(&self.ttl)));
        members.push(make_member("ttlUnit", write_opt_text(&self.ttl_unit)));
        members.push(
            make_member("staleWhileRevalidate", write_opt_u64(&self.stale_while_revalidate)),
        );
        members.push(make_member("swrUnit", write_opt_text(&self.swr_unit)));
        members.push(make_member("surrogateKeys", write_opt_text(&self.surrogate_keys)));
        let r = make_object(members);
        proof {
            assert(r@->Object_0 =~= encode_cache_node_data(self@)->Object_0);
        }
        r
    }
}

/// What a lookup by name finds in the object that writes a cache payload.
proof fn lemma_cache_node_data_slots(v: CacheNodeDataView)
    ensures
        field_slot(encode_cache_node_data(v), "mode"@, 0) == Some(JsonView::Text(v.mode)),
        field_slot(encode_cache_node_data(v), "ttl"@, 1) == Some(json_opt_u64(v.ttl)),
        field_slot(encode_cache_node_data(v), "ttlUnit"@, 2) == Some(json_opt_text(v.ttl_unit)),
        field_slot(encode_cache_node_data(v), "staleWhileRevalidate"@, 3) == Some(
            json_opt_u64(v.stale_while_revalidate),
        ),
        field_slot(encode_cache_node_data(v), "swrUnit"@, 4) == Some(json_opt_text(v.swr_unit)),
        field_slot(encode_cache_node_data(v), "surrogateKeys"@, 5) == Some(
            json_opt_text(v.surrogate_keys),
        ),
{
    let from_surrogate_keys = with_member(
        member_view("surrogateKeys"@, json_opt_text(v.surrogate_keys)),
        Seq::empty(),
    );
    let from_swr_unit = with_member(
        member_view("swrUnit"@, json_opt_text(v.swr_unit)),
        from_surrogate_keys,
    );
    let from_stale_while_revalidate = with_member(
        member_view("staleWhileRevalidate"@, json_opt_u64(v.stale_while_revalidate)),
        from_swr_unit,
    );
    let from_ttl_unit = with_member(
        member_view("ttlUnit"@, json_opt_text(v.ttl_unit)),
        from_stale_while_revalidate,
    );
    let from_ttl = with_member(member_view("ttl"@, json_opt_u64(v.ttl)), from_ttl_unit);
    let from_mode = with_member(member_view("mode"@, JsonView::Text(v.mode)), from_ttl);
    assert(encode_cache_node_data(v)->Object_0 =~= from_mode);
    lemma_lookup_steps();
    reveal_strlit("mode");
    reveal_strlit("ttl");
    reveal_strlit("ttlUnit");
    reveal_strlit("staleWhileRevalidate");
    reveal_strlit("swrUnit");
    reveal_strlit("surrogateKeys");
    assert("mode"@.len() == 4);
    assert("ttl"@.len() == 3);
    assert("ttlUnit"@.len() == 7 && "ttlUnit"@[0] == 't');
    assert("staleWhileRevalidate"@.len() == 20);
    assert("swrUnit"@.len() == 7 && "swrUnit"@[0] == 's');
    assert("surrogateKeys"@.len() == 13);
}

/// Reading a record gives a cache payload back where each field's slot holds
/// what writes the field.
proof fn lemma_cache_node_data_from_slots(v: CacheNodeDataView, j: JsonView)
    requires
        is_record(j, 6),
        field_slot(j, "mode"@, 0) == Some(JsonView::Text(v.mode)),
        field_slot(j, "ttl"@, 1) == Some(json_opt_u64(v.ttl)),
        field_slot(j, "ttlUnit"@, 2) == Some(json_opt_text(v.ttl_unit)),
        field_slot(j, "staleWhileRevalidate"@, 3) == Some(json_opt_u64(v.stale_while_revalidate)),
        field_slot(j, "swrUnit"@, 4) == Some(json_opt_text(v.swr_unit)),
        field_slot(j, "surrogateKeys"@, 5) == Some(json_opt_text(v.surrogate_keys)),
    ensures
        parse_cache_node_data(j) == Some(v),
{
    lemma_opt_u64_round_trip(v.ttl);
    lemma_opt_text_round_trip(v.ttl_unit);
    lemma_opt_u64_round_trip(v.stale_while_revalidate);
    lemma_opt_text_round_trip(v.swr_unit);
    lemma_opt_text_round_trip(v.surrogate_keys);
}

/// Reading a cache payload that was written gives the same back.
pub proof fn law_cache_node_data_round_trip(v: CacheNodeDataView)
    ensures
        parse_cache_node_data(encode_cache_node_data(v)) == Some(v),
{
    lemma_cache_node_data_slots(v);
    lemma_cache_node_data_from_slots(v, encode_cache_node_data(v));
}

/// The payload of a `redirect` node.
#[derive(Debug, Clone, PartialEq, Eq)]
pub struct RedirectNodeData {
    /// The target of the redirect.
    pub url: String,
    /// The response status.
    pub status_code: Option<u16>,
    /// Whether the redirect keeps the request's query string.
    pub preserve_query: Option<bool>,
}

/// The mathematical view of [`RedirectNodeData`]: texts are sequences of
/// characters.
pub struct RedirectNodeDataView {
    pub url: Seq<char>,
    pub status_code: Option<u16>,
    pub preserve_query: Option<bool>,
}

impl View for RedirectNodeData {
    type V = RedirectNodeDataView;

    open spec fn view(&self) -> RedirectNodeDataView {
        RedirectNodeDataView {
            url: self.url@,
            status_code: self.status_code,
            preserve_query: self.preserve_query,
        }
    }
}

/// Reads a redirect payload from a JSON value: `None` where the value does not
/// fit the schema.
pub open spec fn parse_redirect_node_data(j: JsonView) -> Option<RedirectNodeDataView> {
    let url = text_field(field_slot(j, "url"@, 0));
    let status_code = opt_u16_field(field_slot(j, "statusCode"@, 1));
    let preserve_query = opt_bool_field(field_slot(j, "preserveQuery"@, 2));
    if is_record(j, 3)
        && url is Some
        && status_code is Some
        && preserve_query is Some {
        Some(
            RedirectNodeDataView {
                url: url->0,
                status_code: status_code->0,
                preserve_query: preserve_query->0,
            },
        )
    } else {
        None
    }
}

/// The JSON object that writes a redirect payload: a member for every field,
/// in the fields' order; a field that is not given is written as `null`.
pub open spec fn encode_redirect_node_data(v: RedirectNodeDataView) -> JsonView {
    JsonView::Object(
        seq![
            member_view("url"@, JsonView::Text(v.url)),
            member_view("statusCode"@, json_opt_u16(v.status_code)),
            member_view("preserveQuery"@, json_opt_bool(v.preserve_query)),
        ],
    )
}

impl RedirectNodeData {
    /// Reads a redirect payload from a JSON value. The value is an object with
    /// the fields' names, or an array of the fields' values in order; a field
    /// that may be absent may also be `null`. `None` where the value does not
    /// fit.
    pub fn from_json(j: &Json) -> (r: Option<RedirectNodeData>)
        ensures
            match r {
                Some(d) => parse_redirect_node_data(j@) == Some(d@),
                None => parse_redirect_node_data(j@) is None,
            },
    {
        if !check_record(j, 3) {
            return None;
        }
        let url = match read_text(slot(j, "url", 0)) {
            Some(v) => v,
            None => return None,
        };
        let status_code = match read_opt_u16(slot(j, "statusCode", 1)) {
            Ok(v) => v,
            Err(_) => return None,
        };
        let preserve_query = match read_opt_bool(slot(j, "preserveQuery", 2)) {
            Ok(v) => v,
            Err(_) => return None,
        };
        Some(RedirectNodeData { url, status_code, preserve_query })
    }

    /// Writes a redirect payload as a JSON object.
    pub fn to_json(&self) -> (r: Json)
        ensures
            r@ == encode_redirect_node_data(self@),
    {
        let mut members: Vec<Member> = Vec::new();
        members.push(make_member("url", write_text(&self.url)));
        members.push(make_member("statusCode", write_opt_u16(&self.status_code)));
        members.push(make_member("preserveQuery", write_opt_bool(&self.preserve_query)));
        let r = make_object(members);
        proof {
            assert(r@->Object_0 =~= encode_redirect_node_data(self@)->Object_0);
        }
        r
    }
}

/// What a lookup by name finds in the object that writes a redirect payload.
proof fn lemma_redirect_node_data_slots(v: RedirectNodeDataView)
    ensures
        field_slot(encode_redirect_node_data(v), "url"@, 0) == Some(JsonView::Text(v.url)),
        field_slot(encode_redirect_node_data(v), "statusCode"@, 1) == Some(
            json_opt_u16(v.status_code),
        ),
        field_slot(encode_redirect_node_data(v), "preserveQuery"@, 2) == Some(
            json_opt_bool(v.preserve_query),
        ),
{
    let from_preserve_query = with_member(
        member_view("preserveQuery"@, json_opt_bool(v.preserve_query)),
        Seq::empty(),
    );
    let from_status_code = with_member(
        member_view("statusCode"@, json_opt_u16(v.status_code)),
        from_preserve_query,
    );
    let from_url = with_member(member_view("url"@, JsonView::Text(v.url)), from_status_code);
    assert(encode_redirect_node_data(v)->Object_0 =~= from_url);
    lemma_lookup_steps();
    reveal_strlit("url");
    reveal_strlit("statusCode");
    reveal_strlit("preserveQuery");
    assert("url"@.len() == 3);
    assert("statusCode"@.len() == 10);
    assert("preserveQuery"@.len() == 13);
}

/// Reading a record gives a redirect payload back where each field's slot
/// holds what writes the field.
proof fn lemma_redirect_node_data_from_slots(v: RedirectNodeDataView, j: JsonView)
    requires
        is_record(j, 3),
        field_slot(j, "url"@, 0) == Some(JsonView::Text(v.url)),
        field_slot(j, "statusCode"@, 1) == Some(json_opt_u16(v.status_code)),
        field_slot(j, "preserveQuery"@, 2) == Some(json_opt_bool(v.preserve_query)),
    ensures
        parse_redirect_node_data(j) == Some(v),
{
    lemma_opt_u16_round_trip(v.status_code);
    lemma_opt_bool_round_trip(v.preserve_query);
}

/// Reading a redirect payload that was written gives the same back.
pub proof fn law_redirect_node_data_round_trip(v: RedirectNodeDataView)
    ensures
        parse_redirect_node_data(encode_redirect_node_data(v)) == Some(v),
{
    lemma_redirect_node_data_slots(v);
    lemma_redirect_node_data_from_slots(v, encode_redirect_node_data(v));
}

/// The payload of a `transform` node.
#[derive(Debug, Clone, PartialEq, Eq)]
pub struct TransformNodeData {
    /// The transformation's name.
    pub operation: String,
    /// The field to transform.
    pub field: String,
    /// The pattern of an `extract` transformation.
    pub pattern: Option<String>,
    /// The variable that takes the result.
    pub output_var: Option<String>,
}

/// The mathematical view of [`TransformNodeData`]: texts are sequences of
/// characters.
pub struct TransformNodeDataView {
    pub operation: Seq<char>,
    pub field: Seq<char>,
    pub pattern: Option<Seq<char>>,
    pub output_var: Option<Seq<char>>,
}

impl View for TransformNodeData {
    type V = TransformNodeDataView;

    open spec fn view(&self) -> TransformNodeDataView {
        TransformNodeDataView {
            operation: self.operation@,
            field: self.field@,
            pattern: opt_text(self.pattern),
            output_var: opt_text(self.output_var),
        }
    }
}

/// Reads a transform payload from a JSON value: `None` where the value does
/// not fit the schema.
pub open spec fn parse_transform_node_data(j: JsonView) -> Option<TransformNodeDataView> {
    let operation = text_field(field_slot(j, "operation"@, 0));
    let field = text_field(field_slot(j, "field"@, 1));
    let pattern = opt_text_field(field_slot(j, "pattern"@, 2));
    let output_var = opt_text_field(field_slot(j, "outputVar"@, 3));
    if is_record(j, 4)
        && operation is Some
        && field is Some
        && pattern is Some
        && output_var is Some {
        Some(
            TransformNodeDataView {
                operation: operation->0,
                field: field->0,
                pattern: pattern->0,
                output_var: output_var->0,
            },
        )
    } else {
        None
    }
}

/// The JSON object that writes a transform payload: a member for every field,
/// in the fields' order; a field that is not given is written as `null`.
pub open spec fn encode_transform_node_data(v: TransformNodeDataView) -> JsonView {
    JsonView::Object(
        seq![
            member_view("operation"@, JsonView::Text(v.operation)),
            member_view("field"@, JsonView::Text(v.field)),
            member_view("pattern"@, json_opt_text(v.pattern)),
            member_view("outputVar"@, json_opt_text(v.output_var)),
        ],
    )
}

impl TransformNodeData {
    /// Reads a transform payload from a JSON value. The value is an object
    /// with the fields' names, or an array of the fields' values in order; a
    /// field that may be absent may also be `null`. `None` where the value
    /// does not fit.
    pub fn from_json(j: &Json) -> (r: Option<TransformNodeData>)
        ensures
            match r {
                Some(d) => parse_transform_node_data(j@) == Some(d@),
                None => parse_transform_node_data(j@) is None,
            },
    {
        if !check_record(j, 4) {
            return None;
        }
        let operation = match read_text(slot(j, "operation", 0)) {
            Some(v) => v,
            None => return None,
        };
        let field = match read_text(slot(j, "field", 1)) {
            Some(v) => v,
            None => return None,
        };
        let pattern = match read_opt_text(slot(j, "pattern", 2)) {
            Ok(v) => v,
            Err(_) => return None,
        };
        let output_var = match read_opt_text(slot(j, "outputVar", 3)) {
            Ok(v) => v,
            Err(_) => return None,
        };
        Some(TransformNodeData { operation, field, pattern, output_var })
    }

    /// Writes a transform payload as a JSON object.
    pub fn to_json(&self) -> (r: Json)
        ensures
            r@ == encode_transform_node_data(self@),
    {
        let mut members: Vec<Member> = Vec::new();
        members.push(make_member("operation", write_text(&self.operation)));
        members.push(make_member("field", write_text(&self.field)));
        members.push(make_member("pattern", write_opt_text(&self.pattern)));
        members.push(make_member("outputVar", write_opt_text(&self.output_var)));
        let r = make_object(members);
        proof {
            assert(r@->Object_0 =~= encode_transform_node_data(self@)->Object_0);
        }
        r
    }
}

/// What a lookup by name finds in the object that writes a transform payload.
proof fn lemma_transform_node_data_slots(v: TransformNodeDataView)
    ensures
        field_slot(encode_transform_node_data(v), "operation"@, 0) == Some(
            JsonView::Text(v.operation),
        ),
        field_slot(encode_transform_node_data(v), "field"@, 1) == Some(JsonView::Text(v.field)),
        field_slot(encode_transform_node_data(v), "pattern"@, 2) == Some(json_opt_text(v.pattern)),
        field_slot(encode_transform_node_data(v), "outputVar"@, 3) == Some(
            json_opt_text(v.output_var),
        ),
{
    let from_output_var = with_member(
        member_view("outputVar"@, json_opt_text(v.output_var)),
        Seq::empty(),
    );
    let from_pattern = with_member(
        member_view("pattern"@, json_opt_text(v.pattern)),
        from_output_var,
    );
    let from_field = with_member(member_view("field"@, JsonView::Text(v.field)), from_pattern);
    let from_operation = with_member(
        member_view("operation"@, JsonView::Text(v.operation)),
        from_field,
    );
    assert(encode_transform_node_data(v)->Object_0 =~= from_operation);
    lemma_lookup_steps();
    reveal_strlit("operation");
    reveal_strlit("field");
    reveal_strlit("pattern");
    reveal_strlit("outputVar");
    assert("operation"@.len() == 9 && "operation"@[1] == 'p');
    assert("field"@.len() == 5);
    assert("pattern"@.len() == 7);
    assert("outputVar"@.len() == 9 && "outputVar"@[1] == 'u');
}

/// Reading a record gives a transform payload back where each field's slot
/// holds what writes the field.
proof fn lemma_transform_node_data_from_slots(v: TransformNodeDataView, j: JsonView)
    requires
        is_record(j, 4),
        field_slot(j, "operation"@, 0) == Some(JsonView::Text(v.operation)),
        field_slot(j, "field"@, 1) == Some(JsonView::Text(v.field)),
        field_slot(j, "pattern"@, 2) == Some(json_opt_text(v.pattern)),
        field_slot(j, "outputVar"@, 3) == Some(json_opt_text(v.output_var)),
    ensures
        parse_transform_node_data(j) == Some(v),
{
    lemma_opt_text_round_trip(v.pattern);
    lemma_opt_text_round_trip(v.output_var);
}

/// Reading a transform payload that was written gives the same back.
pub proof fn law_transform_node_data_round_trip(v: TransformNodeDataView)
    ensures
        parse_transform_node_data(encode_transform_node_data(v)) == Some(v),
{
    lemma_transform_node_data_slots(v);
    lemma_transform_node_data_from_slots(v, encode_transform_node_data(v));
}

// ---------------------------------------------------------------------------
// Graph structure
// ---------------------------------------------------------------------------

/// Where the editor draws a node. Evaluation ignores it; it is kept so that a
/// graph survives a round trip. Each coordinate is a number literal.
#[derive(Debug, Clone, PartialEq, Eq)]
pub struct NodePosition {
    /// The horizontal coordinate.
    pub x: String,
    /// The vertical coordinate.
    pub y: String,
}

/// The mathematical view of [`NodePosition`]: texts are sequences of
/// characters.
pub struct NodePositionView {
    pub x: Seq<char>,
    pub y: Seq<char>,
}

impl View for NodePosition {
    type V = NodePositionView;

    open spec fn view(&self) -> NodePositionView {
        NodePositionView {
            x: self.x@,
            y: self.y@,
        }
    }
}

/// Reads a node position from a JSON value: `None` where the value does not
/// fit the schema.
pub open spec fn parse_node_position(j: JsonView) -> Option<NodePositionView> {
    let x = number_field(field_slot(j, "x"@, 0));
    let y = number_field(field_slot(j, "y"@, 1));
    if is_record(j, 2)
        && x is Some
        && y is Some {
        Some(
            NodePositionView {
                x: x->0,
                y: y->0,
            },
        )
    } else {
        None
    }
}

/// The JSON object that writes a node position: a member for every field, in
/// the fields' order; a field that is not given is written as `null`.
pub open spec fn encode_node_position(v: NodePositionView) -> JsonView {
    JsonView::Object(
        seq![
            member_view("x"@, JsonView::Number(v.x)),
            member_view("y"@, JsonView::Number(v.y)),
        ],
    )
}

impl NodePosition {
    /// Reads a node position from a JSON value. The value is an object with
    /// the fields' names, or an array of the fields' values in order; a field
    /// that may be absent may also be `null`. `None` where the value does not
    /// fit.
    pub fn from_json(j: &Json) -> (r: Option<NodePosition>)
        ensures
            match r {
                Some(d) => parse_node_position(j@) == Some(d@),
                None => parse_node_position(j@) is None,
            },
    {
        if !check_record(j, 2) {
            return None;
        }
        let x = match read_number(slot(j, "x", 0)) {
            Some(v) => v,
            None => return None,
        };
        let y = match read_number(slot(j, "y", 1)) {
            Some(v) => v,
            None => return None,
        };
        Some(NodePosition { x, y })
    }

    /// Writes a node position as a JSON object.
    pub fn to_json(&self) -> (r: Json)
        ensures
            r@ == encode_node_position(self@),
    {
        let mut members: Vec<Member> = Vec::new();
        members.push(make_member("x", write_number(&self.x)));
        members.push(make_member("y", write_number(&self.y)));
        let r = make_object(members);
        proof {
            assert(r@->Object_0 =~= encode_node_position(self@)->Object_0);
        }
        r
    }
}

/// What a lookup by name finds in the object that writes a node position.
proof fn lemma_node_position_slots(v: NodePositionView)
    ensures
        field_slot(encode_node_position(v), "x"@, 0) == Some(JsonView::Number(v.x)),
        field_slot(encode_node_position(v), "y"@, 1) == Some(JsonView::Number(v.y)),
{
    let from_y = with_member(member_view("y"@, JsonView::Number(v.y)), Seq::empty());
    let from_x = with_member(member_view("x"@, JsonView::Number(v.x)), from_y);
    assert(encode_node_position(v)->Object_0 =~= from_x);
    lemma_lookup_steps();
    reveal_strlit("x");
    reveal_strlit("y");
    assert("x"@.len() == 1 && "x"@[0] == 'x');
    assert("y"@.len() == 1 && "y"@[0] == 'y');
}

/// Reading a record gives a node position back where each field's slot holds
/// what writes the field.
proof fn lemma_node_position_from_slots(v: NodePositionView, j: JsonView)
    requires
        is_record(j, 2),
        field_slot(j, "x"@, 0) == Some(JsonView::Number(v.x)),
        field_slot(j, "y"@, 1) == Some(JsonView::Number(v.y)),
    ensures
        parse_node_position(j) == Some(v),
{
}

/// Reading a node position that was written gives the same back.
pub proof fn law_node_position_round_trip(v: NodePositionView)
    ensures
        parse_node_position(encode_node_position(v)) == Some(v),
{
    lemma_node_position_slots(v);
    lemma_node_position_from_slots(v, encode_node_position(v));
}

/// A required record: the field must be given and fit the schema.
pub open spec fn record_field_node_position(slot: Option<JsonView>) -> Option<NodePositionView> {
    match slot {
        Some(v) => parse_node_position(v),
        None => None,
    }
}

fn read_node_position(slot: Option<&Json>) -> (r: Option<NodePosition>)
    ensures
        match r {
            Some(d) => record_field_node_position(opt_json(slot)) == Some(d@),
            None => record_field_node_position(opt_json(slot)) is None,
        },
{
    match slot {
        Some(v) => NodePosition::from_json(v),
        None => None,
    }
}

/// A node of the graph.
#[derive(Debug, Clone, PartialEq, Eq)]
pub struct GraphNode {
    /// The node's identifier, unique in a well-formed graph.
    pub id: String,
    /// The node's kind, which selects the schema of `data`.
    pub node_type: String,
    /// Where the editor draws the node.
    pub position: NodePosition,
    /// The node's payload.
    pub data: Json,
}

/// The mathematical view of [`GraphNode`]: texts are sequences of characters.
pub struct GraphNodeView {
    pub id: Seq<char>,
    pub node_type: Seq<char>,
    pub position: NodePositionView,
    pub data: JsonView,
}

impl View for GraphNode {
    type V = GraphNodeView;

    open spec fn view(&self) -> GraphNodeView {
        GraphNodeView {
            id: self.id@,
            node_type: self.node_type@,
            position: self.position@,
            data: self.data@,
        }
    }
}

/// Reads a node from a JSON value: `None` where the value does not fit the
/// schema.
pub open spec fn parse_graph_node(j: JsonView) -> Option<GraphNodeView> {
    let id = text_field(field_slot(j, "id"@, 0));
    let node_type = text_field(field_slot(j, "type"@, 1));
    let position = record_field_node_position(field_slot(j, "position"@, 2));
    let data = any_field(field_slot(j, "data"@, 3));
    if is_record(j, 4)
        && id is Some
        && node_type is Some
        && position is Some
        && data is Some {
        Some(
            GraphNodeView {
                id: id->0,
                node_type: node_type->0,
                position: position->0,
                data: data->0,
            },
        )
    } else {
        None
    }
}

/// The JSON object that writes a node: a member for every field, in the
/// fields' order; a field that is not given is written as `null`.
pub open spec fn encode_graph_node(v: GraphNodeView) -> JsonView {
    JsonView::Object(
        seq![
            member_view("id"@, JsonView::Text(v.id)),
            member_view("type"@, JsonView::Text(v.node_type)),
            member_view("position"@, encode_node_position(v.position)),
            member_view("data"@, v.data),
        ],
    )
}

impl GraphNode {
    /// Reads a node from a JSON value. The value is an object with the fields'
    /// names, or an array of the fields' values in order; a field that may be
    /// absent may also be `null`. `None` where the value does not fit.
    pub fn from_json(j: &Json) -> (r: Option<GraphNode>)
        ensures
            match r {
                Some(d) => parse_graph_node(j@) == Some(d@),
                None => parse_graph_node(j@) is None,
            },
    {
        if !check_record(j, 4) {
            return None;
        }
        let id = match read_text(slot(j, "id", 0)) {
            Some(v) => v,
            None => return None,
        };
        let node_type = match read_text(slot(j, "type", 1)) {
            Some(v) => v,
            None => return None,
        };
        let position = match read_node_position(slot(j, "position", 2)) {
            Some(v) => v,
            None => return None,
        };
        let data = match read_any(slot(j, "data", 3)) {
            Some(v) => v,
            None => return None,
        };
        Some(GraphNode { id, node_type, position, data })
    }

    /// Writes a node as a JSON object.
    pub fn to_json(&self) -> (r: Json)
        ensures
            r@ == encode_graph_node(self@),
    {
        let mut members: Vec<Member> = Vec::new();
        members.push(make_member("id", write_text(&self.id)));
        members.push(make_member("type", write_text(&self.node_type)));
        members.push(make_member("position", self.position.to_json()));
        members.push(make_member("data", copy_json(&self.data)));
        let r = make_object(members);
        proof {
            assert(r@->Object_0 =~= encode_graph_node(self@)->Object_0);
        }
        r
    }
}

/// What a lookup by name finds in the object that writes a node.
proof fn lemma_graph_node_slots(v: GraphNodeView)
    ensures
        field_slot(encode_graph_node(v), "id"@, 0) == Some(JsonView::Text(v.id)),
        field_slot(encode_graph_node(v), "type"@, 1) == Some(JsonView::Text(v.node_type)),
        field_slot(encode_graph_node(v), "position"@, 2) == Some(encode_node_position(v.position)),
        field_slot(encode_graph_node(v), "data"@, 3) == Some(v.data),
{
    let from_data = with_member(member_view("data"@, v.data), Seq::empty());
    let from_position = with_member(
        member_view("position"@, encode_node_position(v.position)),
        from_data,
    );
    let from_node_type = with_member(
        member_view("type"@, JsonView::Text(v.node_type)),
        from_position,
    );
    let from_id = with_member(member_view("id"@, JsonView::Text(v.id)), from_node_type);
    assert(encode_graph_node(v)->Object_0 =~= from_id);
    lemma_lookup_steps();
    reveal_strlit("id");
    reveal_strlit("type");
    reveal_strlit("position");
    reveal_strlit("data");
    assert("id"@.len() == 2);
    assert("type"@.len() == 4 && "type"@[0] == 't');
    assert("position"@.len() == 8);
    assert("data"@.len() == 4 && "data"@[0] == 'd');
}

/// Reading a record gives a node back where each field's slot holds what
/// writes the field.
proof fn lemma_graph_node_from_slots(v: GraphNodeView, j: JsonView)
    requires
        is_record(j, 4),
        field_slot(j, "id"@, 0) == Some(JsonView::Text(v.id)),
        field_slot(j, "type"@, 1) == Some(JsonView::Text(v.node_type)),
        field_slot(j, "position"@, 2) == Some(encode_node_position(v.position)),
        field_slot(j, "data"@, 3) == Some(v.data),
    ensures
        parse_graph_node(j) == Some(v),
{
    law_node_position_round_trip(v.position);
}

/// Reading a node that was written gives the same back.
pub proof fn law_graph_node_round_trip(v: GraphNodeView)
    ensures
        parse_graph_node(encode_graph_node(v)) == Some(v),
{
    lemma_graph_node_slots(v);
    lemma_graph_node_from_slots(v, encode_graph_node(v));
}

/// A required list: an array whose every element fits the schema.
pub open spec fn parse_graph_node_list(slot: Option<JsonView>) -> Option<Seq<GraphNodeView>> {
    match slot {
        Some(JsonView::Array(items)) => if forall|i: int|
            0 <= i < items.len() ==> (#[trigger] parse_graph_node(items[i])) is Some {
            Some(Seq::new(items.len(), |i: int| parse_graph_node(items[i])->0))
        } else {
            None
        },
        _ => None,
    }
}

/// The JSON array that writes a list, element by element.
pub open spec fn encode_graph_node_list(list: Seq<GraphNodeView>) -> JsonView {
    JsonView::Array(list.map_values(|x: GraphNodeView| encode_graph_node(x)))
}

fn read_graph_node_list(slot: Option<&Json>) -> (r: Option<Vec<GraphNode>>)
    ensures
        match r {
            Some(list) => parse_graph_node_list(opt_json(slot)) == Some(
                list@.map_values(|x: GraphNode| x@),
            ),
            None => parse_graph_node_list(opt_json(slot)) is None,
        },
{
    match slot {
        Some(Json::Array(items)) => {
            let ghost views = slot->0@->Array_0;
            let mut out: Vec<GraphNode> = Vec::new();
            let mut i: usize = 0;
            while i < items.len()
                invariant
                    i <= items.len(),
                    opt_json(slot) == Some(JsonView::Array(views)),
                    views.len() == items@.len(),
                    forall|k: int| 0 <= k < views.len() ==> views[k] == items@[k]@,
                    out@.len() == i,
                    forall|k: int|
                        0 <= k < i ==> parse_graph_node(views[k]) == Some(#[trigger] out@[k]@),
                decreases items.len() - i,
            {
                match GraphNode::from_json(&items[i]) {
                    Some(item) => {
                        out.push(item);
                    },
                    None => {
                        proof {
                            assert(parse_graph_node(views[i as int]) is None);
                        }
                        return None;
                    },
                }
                i += 1;
            }
            proof {
                assert forall|k: int| 0 <= k < views.len() implies
                    (#[trigger] parse_graph_node(views[k])) is Some by {
                    assert(parse_graph_node(views[k]) == Some(out@[k]@));
                }
                let expected = Seq::new(views.len(), |k: int| parse_graph_node(views[k])->0);
                let got = out@.map_values(|x: GraphNode| x@);
                assert(got.len() == expected.len());
                assert forall|k: int| 0 <= k < got.len() implies got[k] == expected[k] by {
                    assert(parse_graph_node(views[k]) == Some(out@[k]@));
                }
                assert(got =~= expected);
            }
            Some(out)
        },
        _ => None,
    }
}

fn write_graph_node_list(list: &Vec<GraphNode>) -> (r: Json)
    ensures
        r@ == encode_graph_node_list(list@.map_values(|x: GraphNode| x@)),
{
    let mut items: Vec<Json> = Vec::new();
    let mut i: usize = 0;
    while i < list.len()
        invariant
            i <= list.len(),
            items@.len() == i,
            forall|k: int| 0 <= k < i ==> (#[trigger] items@[k])@ == encode_graph_node(list@[k]@),
        decreases list.len() - i,
    {
        items.push(list[i].to_json());
        i += 1;
    }
    let ghost expected = encode_graph_node_list(list@.map_values(|x: GraphNode| x@));
    let r = Json::Array(items);
    proof {
        assert(r@->Array_0 =~= expected->Array_0);
    }
    r
}

/// Reading a list that was written gives the same list back.
pub proof fn lemma_graph_node_list_round_trip(list: Seq<GraphNodeView>)
    ensures
        parse_graph_node_list(Some(encode_graph_node_list(list))) == Some(list),
{
    let items = encode_graph_node_list(list)->Array_0;
    assert forall|i: int| 0 <= i < items.len() implies
        (#[trigger] parse_graph_node(items[i])) == Some(list[i]) by {
        law_graph_node_round_trip(list[i]);
    }
    assert(Seq::new(items.len(), |i: int| parse_graph_node(items[i])->0) =~= list);
}

/// An edge from an output port of one node to another node.
#[derive(Debug, Clone, PartialEq, Eq)]
pub struct GraphEdge {
    /// The edge's identifier.
    pub id: String,
    /// The identifier of the node the edge leaves.
    pub source: String,
    /// The identifier of the node the edge enters.
    pub target: String,
    /// The output port of the source node.
    pub source_handle: Option<String>,
    /// The input port of the target node.
    pub target_handle: Option<String>,
    /// How the editor draws the edge.
    pub edge_type: Option<String>,
}

/// The mathematical view of [`GraphEdge`]: texts are sequences of characters.
pub struct GraphEdgeView {
    pub id: Seq<char>,
    pub source: Seq<char>,
    pub target: Seq<char>,
    pub source_handle: Option<Seq<char>>,
    pub target_handle: Option<Seq<char>>,
    pub edge_type: Option<Seq<char>>,
}

impl View for GraphEdge {
    type V = GraphEdgeView;

    open spec fn view(&self) -> GraphEdgeView {
        GraphEdgeView {
            id: self.id@,
            source: self.source@,
            target: self.target@,
            source_handle: opt_text(self.source_handle),
            target_handle: opt_text(self.target_handle),
            edge_type: opt_text(self.edge_type),
        }
    }
}

/// Reads an edge from a JSON value: `None` where the value does not fit the
/// schema.
pub open spec fn parse_graph_edge(j: JsonView) -> Option<GraphEdgeView> {
    let id = text_field(field_slot(j, "id"@, 0));
    let source = text_field(field_slot(j, "source"@, 1));
    let target = text_field(field_slot(j, "target"@, 2));
    let source_handle = opt_text_field(field_slot(j, "sourceHandle"@, 3));
    let target_handle = opt_text_field(field_slot(j, "targetHandle"@, 4));
    let edge_type = opt_text_field(field_slot(j, "type"@, 5));
    if is_record(j, 6)
        && id is Some
        && source is Some
        && target is Some
        && source_handle is Some
        && target_handle is Some
        && edge_type is Some {
        Some(
            GraphEdgeView {
                id: id->0,
                source: source->0,
                target: target->0,
                source_handle: source_handle->0,
                target_handle: target_handle->0,
                edge_type: edge_type->0,
            },
        )
    } else {
        None
    }
}

/// The JSON object that writes an edge: a member for every field, in the
/// fields' order; a field that is not given is written as `null`.
pub open spec fn encode_graph_edge(v: GraphEdgeView) -> JsonView {
    JsonView::Object(
        seq![
            member_view("id"@, JsonView::Text(v.id)),
            member_view("source"@, JsonView::Text(v.source)),
            member_view("target"@, JsonView::Text(v.target)),
            member_view("sourceHandle"@, json_opt_text(v.source_handle)),
            member_view("targetHandle"@, json_opt_text(v.target_handle)),
            member_view("type"@, json_opt_text(v.edge_type)),
        ],
    )
}

impl GraphEdge {
    /// Reads an edge from a JSON value. The value is an object with the
    /// fields' names, or an array of the fields' values in order; a field that
    /// may be absent may also be `null`. `None` where the value does not fit.
    pub fn from_json(j: &Json) -> (r: Option<GraphEdge>)
        ensures
            match r {
                Some(d) => parse_graph_edge(j@) == Some(d@),
                None => parse_graph_edge(j@) is None,
            },
    {
        if !check_record(j, 6) {
            return None;
        }
        let id = match read_text(slot(j, "id", 0)) {
            Some(v) => v,
            None => return None,
        };
        let source = match read_text(slot(j, "source", 1)) {
            Some(v) => v,
            None => return None,
        };
        let target = match read_text(slot(j, "target", 2)) {
            Some(v) => v,
            None => return None,
        };
        let source_handle = match read_opt_text(slot(j, "sourceHandle", 3)) {
            Ok(v) => v,
            Err(_) => return None,
        };
        let target_handle = match read_opt_text(slot(j, "targetHandle", 4)) {
            Ok(v) => v,
            Err(_) => return None,
        };
        let edge_type = match read_opt_text(slot(j, "type", 5)) {
            Ok(v) => v,
            Err(_) => return None,
        };
        Some(GraphEdge { id, source, target, source_handle, target_handle, edge_type })
    }

    /// Writes an edge as a JSON object.
    pub fn to_json(&self) -> (r: Json)
        ensures
            r@ == encode_graph_edge(self@),
    {
        let mut members: Vec<Member> = Vec::new();
        members.push(make_member("id", write_text(&self.id)));
        members.push(make_member("source", write_text(&self.source)));
        members.push(make_member("target", write_text(&self.target)));
        members.push(make_member("sourceHandle", write_opt_text(&self.source_handle)));
        members.push(make_member("targetHandle", write_opt_text(&self.target_handle)));
        members.push(make_member("type", write_opt_text(&self.edge_type)));
        let r = make_object(members);
        proof {
            assert(r@->Object_0 =~= encode_graph_edge(self@)->Object_0);
        }
        r
    }
}

/// What a lookup by name finds in the object that writes an edge.
proof fn lemma_graph_edge_slots(v: GraphEdgeView)
    ensures
        field_slot(encode_graph_edge(v), "id"@, 0) == Some(JsonView::Text(v.id)),
        field_slot(encode_graph_edge(v), "source"@, 1) == Some(JsonView::Text(v.source)),
        field_slot(encode_graph_edge(v), "target"@, 2) == Some(JsonView::Text(v.target)),
        field_slot(encode_graph_edge(v), "sourceHandle"@, 3) == Some(
            json_opt_text(v.source_handle),
        ),
        field_slot(encode_graph_edge(v), "targetHandle"@, 4) == Some(
            json_opt_text(v.target_handle),
        ),
        field_slot(encode_graph_edge(v), "type"@, 5) == Some(json_opt_text(v.edge_type)),
{
    let from_edge_type = with_member(
        member_view("type"@, json_opt_text(v.edge_type)),
        Seq::empty(),
    );
    let from_target_handle = with_member(
        member_view("targetHandle"@, json_opt_text(v.target_handle)),
        from_edge_type,
    );
    let from_source_handle = with_member(
        member_view("sourceHandle"@, json_opt_text(v.source_handle)),
        from_target_handle,
    );
    let from_target = with_member(
        member_view("target"@, JsonView::Text(v.target)),
        from_source_handle,
    );
    let from_source = with_member(member_view("source"@, JsonView::Text(v.source)), from_target);
    let from_id = with_member(member_view("id"@, JsonView::Text(v.id)), from_source);
    assert(encode_graph_edge(v)->Object_0 =~= from_id);
    lemma_lookup_steps();
    reveal_strlit("id");
    reveal_strlit("source");
    reveal_strlit("target");
    reveal_strlit("sourceHandle");
    reveal_strlit("targetHandle");
    reveal_strlit("type");
    assert("id"@.len() == 2);
    assert("source"@.len() == 6 && "source"@[0] == 's');
    assert("target"@.len() == 6 && "target"@[0] == 't');
    assert("sourceHandle"@.len() == 12 && "sourceHandle"@[0] == 's');
    assert("targetHandle"@.len() == 12 && "targetHandle"@[0] == 't');
    assert("type"@.len() == 4);
}

/// Reading a record gives an edge back where each field's slot holds what
/// writes the field.
proof fn lemma_graph_edge_from_slots(v: GraphEdgeView, j: JsonView)
    requires
        is_record(j, 6),
        field_slot(j, "id"@, 0) == Some(JsonView::Text(v.id)),
        field_slot(j, "source"@, 1) == Some(JsonView::Text(v.source)),
        field_slot(j, "target"@, 2) == Some(JsonView::Text(v.target)),
        field_slot(j, "sourceHandle"@, 3) == Some(json_opt_text(v.source_handle)),
        field_slot(j, "targetHandle"@, 4) == Some(json_opt_text(v.target_handle)),
        field_slot(j, "type"@, 5) == Some(json_opt_text(v.edge_type)),
    ensures
        parse_graph_edge(j) == Some(v),
{
    lemma_opt_text_round_trip(v.source_handle);
    lemma_opt_text_round_trip(v.target_handle);
    lemma_opt_text_round_trip(v.edge_type);
}

/// Reading an edge that was written gives the same back.
pub proof fn law_graph_edge_round_trip(v: GraphEdgeView)
    ensures
        parse_graph_edge(encode_graph_edge(v)) == Some(v),
{
    lemma_graph_edge_slots(v);
    lemma_graph_edge_from_slots(v, encode_graph_edge(v));
}

/// A required list: an array whose every element fits the schema.
pub open spec fn parse_graph_edge_list(slot: Option<JsonView>) -> Option<Seq<GraphEdgeView>> {
    match slot {
        Some(JsonView::Array(items)) => if forall|i: int|
            0 <= i < items.len() ==> (#[trigger] parse_graph_edge(items[i])) is Some {
            Some(Seq::new(items.len(), |i: int| parse_graph_edge(items[i])->0))
        } else {
            None
        },
        _ => None,
    }
}

/// The JSON array that writes a list, element by element.
pub open spec fn encode_graph_edge_list(list: Seq<GraphEdgeView>) -> JsonView {
    JsonView::Array(list.map_values(|x: GraphEdgeView| encode_graph_edge(x)))
}

fn read_graph_edge_list(slot: Option<&Json>) -> (r: Option<Vec<GraphEdge>>)
    ensures
        match r {
            Some(list) => parse_graph_edge_list(opt_json(slot)) == Some(
                list@.map_values(|x: GraphEdge| x@),
            ),
            None => parse_graph_edge_list(opt_json(slot)) is None,
        },
{
    match slot {
        Some(Json::Array(items)) => {
            let ghost views = slot->0@->Array_0;
            let mut out: Vec<GraphEdge> = Vec::new();
            let mut i: usize = 0;
            while i < items.len()
                invariant
                    i <= items.len(),
                    opt_json(slot) == Some(JsonView::Array(views)),
                    views.len() == items@.len(),
                    forall|k: int| 0 <= k < views.len() ==> views[k] == items@[k]@,
                    out@.len() == i,
                    forall|k: int|
                        0 <= k < i ==> parse_graph_edge(views[k]) == Some(#[trigger] out@[k]@),
                decreases items.len() - i,
            {
                match GraphEdge::from_json(&items[i]) {
                    Some(item) => {
                        out.push(item);
                    },
                    None => {
                        proof {
                            assert(parse_graph_edge(views[i as int]) is None);
                        }
                        return None;
                    },
                }
                i += 1;
            }
            proof {
                assert forall|k: int| 0 <= k < views.len() implies
                    (#[trigger] parse_graph_edge(views[k])) is Some by {
                    assert(parse_graph_edge(views[k]) == Some(out@[k]@));
                }
                let expected = Seq::new(views.len(), |k: int| parse_graph_edge(views[k])->0);
                let got = out@.map_values(|x: GraphEdge| x@);
                assert(got.len() == expected.len());
                assert forall|k: int| 0 <= k < got.len() implies got[k] == expected[k] by {
                    assert(parse_graph_edge(views[k]) == Some(out@[k]@));
                }
                assert(got =~= expected);
            }
            Some(out)
        },
        _ => None,
    }
}

fn write_graph_edge_list(list: &Vec<GraphEdge>) -> (r: Json)
    ensures
        r@ == encode_graph_edge_list(list@.map_values(|x: GraphEdge| x@)),
{
    let mut items: Vec<Json> = Vec::new();
    let mut i: usize = 0;
    while i < list.len()
        invariant
            i <= list.len(),
            items@.len() == i,
            forall|k: int| 0 <= k < i ==> (#[trigger] items@[k])@ == encode_graph_edge(list@[k]@),
        decreases list.len() - i,
    {
        items.push(list[i].to_json());
        i += 1;
    }
    let ghost expected = encode_graph_edge_list(list@.map_values(|x: GraphEdge| x@));
    let r = Json::Array(items);
    proof {
        assert(r@->Array_0 =~= expected->Array_0);
    }
    r
}

/// Reading a list that was written gives the same list back.
pub proof fn lemma_graph_edge_list_round_trip(list: Seq<GraphEdgeView>)
    ensures
        parse_graph_edge_list(Some(encode_graph_edge_list(list))) == Some(list),
{
    let items = encode_graph_edge_list(list)->Array_0;
    assert forall|i: int| 0 <= i < items.len() implies
        (#[trigger] parse_graph_edge(items[i])) == Some(list[i]) by {
        law_graph_edge_round_trip(list[i]);
    }
    assert(Seq::new(items.len(), |i: int| parse_graph_edge(items[i])->0) =~= list);
}

/// A whole graph: its nodes and its edges, in the order they were declared.
#[derive(Debug, Clone, PartialEq, Eq)]
pub struct GraphPayload {
    /// The nodes.
    pub nodes: Vec<GraphNode>,
    /// The edges.
    pub edges: Vec<GraphEdge>,
}

/// The mathematical view of [`GraphPayload`]: texts are sequences of
/// characters.
pub struct GraphPayloadView {
    pub nodes: Seq<GraphNodeView>,
    pub edges: Seq<GraphEdgeView>,
}

impl View for GraphPayload {
    type V = GraphPayloadView;

    open spec fn view(&self) -> GraphPayloadView {
        GraphPayloadView {
            nodes: self.nodes@.map_values(|x: GraphNode| x@),
            edges: self.edges@.map_values(|x: GraphEdge| x@),
        }
    }
}

/// Reads a graph from a JSON value: `None` where the value does not fit the
/// schema.
pub open spec fn parse_graph_payload(j: JsonView) -> Option<GraphPayloadView> {
    let nodes = parse_graph_node_list(field_slot(j, "nodes"@, 0));
    let edges = parse_graph_edge_list(field_slot(j, "edges"@, 1));
    if is_record(j, 2)
        && nodes is Some
        && edges is Some {
        Some(
            GraphPayloadView {
                nodes: nodes->0,
                edges: edges->0,
            },
        )
    } else {
        None
    }
}

/// The JSON object that writes a graph: a member for every field, in the
/// fields' order; a field that is not given is written as `null`.
pub open spec fn encode_graph_payload(v: GraphPayloadView) -> JsonView {
    JsonView::Object(
        seq![
            member_view("nodes"@, encode_graph_node_list(v.nodes)),
            member_view("edges"@, encode_graph_edge_list(v.edges)),
        ],
    )
}

impl GraphPayload {
    /// Reads a graph from a JSON value. The value is an object with the
    /// fields' names, or an array of the fields' values in order; a field that
    /// may be absent may also be `null`. `None` where the value does not fit.
    pub fn from_json(j: &Json) -> (r: Option<GraphPayload>)
        ensures
            match r {
                Some(d) => parse_graph_payload(j@) == Some(d@),
                None => parse_graph_payload(j@) is None,
            },
    {
        if !check_record(j, 2) {
            return None;
        }
        let nodes = match read_graph_node_list(slot(j, "nodes", 0)) {
            Some(v) => v,
            None => return None,
        };
        let edges = match read_graph_edge_list(slot(j, "edges", 1)) {
            Some(v) => v,
            None => return None,
        };
        Some(GraphPayload { nodes, edges })
    }

    /// Writes a graph as a JSON object.
    pub fn to_json(&self) -> (r: Json)
        ensures
            r@ == encode_graph_payload(self@),
    {
        let mut members: Vec<Member> = Vec::new();
        members.push(make_member("nodes", write_graph_node_list(&self.nodes)));
        members.push(make_member("edges", write_graph_edge_list(&self.edges)));
        let r = make_object(members);
        proof {
            assert(r@->Object_0 =~= encode_graph_payload(self@)->Object_0);
        }
        r
    }
}

/// What a lookup by name finds in the object that writes a graph.
proof fn lemma_graph_payload_slots(v: GraphPayloadView)
    ensures
        field_slot(encode_graph_payload(v), "nodes"@, 0) == Some(encode_graph_node_list(v.nodes)),
        field_slot(encode_graph_payload(v), "edges"@, 1) == Some(encode_graph_edge_list(v.edges)),
{
    let from_edges = with_member(
        member_view("edges"@, encode_graph_edge_list(v.edges)),
        Seq::empty(),
    );
    let from_nodes = with_member(
        member_view("nodes"@, encode_graph_node_list(v.nodes)),
        from_edges,
    );
    assert(encode_graph_payload(v)->Object_0 =~= from_nodes);
    lemma_lookup_steps();
    reveal_strlit("nodes");
    reveal_strlit("edges");
    assert("nodes"@.len() == 5 && "nodes"@[0] == 'n');
    assert("edges"@.len() == 5 && "edges"@[0] == 'e');
}

/// Reading a record gives a graph back where each field's slot holds what
/// writes the field.
proof fn lemma_graph_payload_from_slots(v: GraphPayloadView, j: JsonView)
    requires
        is_record(j, 2),
        field_slot(j, "nodes"@, 0) == Some(encode_graph_node_list(v.nodes)),
        field_slot(j, "edges"@, 1) == Some(encode_graph_edge_list(v.edges)),
    ensures
        parse_graph_payload(j) == Some(v),
{
    lemma_graph_node_list_round_trip(v.nodes);
    lemma_graph_edge_list_round_trip(v.edges);
}

/// Reading a graph that was written gives the same back.
pub proof fn law_graph_payload_round_trip(v: GraphPayloadView)
    ensures
        parse_graph_payload(encode_graph_payload(v)) == Some(v),
{
    lemma_graph_payload_slots(v);
    lemma_graph_payload_from_slots(v, encode_graph_payload(v));
}

} // verus!
