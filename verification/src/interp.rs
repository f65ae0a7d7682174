//! The graph interpreter.
//!
//! Evaluation starts at the graph's `request` node and follows one edge per
//! node until a terminal node gives the result or the path ends. A node that
//! needs something from outside (a geolocation or device lookup, a numeric
//! comparison, a call of the rate service) makes the evaluation stop with a
//! question; the host answers it and evaluates again with the answer added.
//! Given the graph, the request and the answers, the evaluation is a
//! function: [`run_graph`].

use crate::condition::{
    condition_holds, effective_field, effective_field_name, evaluate_rule_group, group_matches,
    is_numeric, is_numeric_operator, logic_of, operator_of, test_condition, NumericOrder,
};
use crate::rate_limit::{
    is_exceeded, plan_rate_check, rate_check_of, reply_exceeded, RateCheck, RateCheckView,
    RateReply,
};
use crate::request::{
    field_lookup, field_of, field_value, get_field_value, lookup_of, DeviceInfo, DeviceInfoView,
    GeoInfo, GeoInfoView, Lookup, RequestInfo, RequestInfoView,
};
use crate::text::{copy_string, opt_str, opt_text, str_eq, text_or_empty, uppercase};
use crate::types::{
    parse_action_node_data, parse_backend_node_data, parse_condition_node_data,
    parse_header_node_data, parse_rate_limit_node_data, parse_redirect_node_data,
    parse_rule_group_node_data, ActionNodeData, ActionNodeDataView, BackendNodeData,
    BackendNodeDataView, ConditionNodeData, GraphEdge, GraphEdgeView, GraphNode, GraphNodeView,
    GraphPayload, GraphPayloadView, HeaderNodeData, HeaderNodeDataView, RateLimitNodeData,
    RedirectNodeData, RedirectNodeDataView, RuleGroupConditionView, RuleGroupNodeData,
};
use vstd::hash_map::StringHashMap;
use vstd::prelude::*;

verus! {

// ---------------------------------------------------------------------------
// Results
// ---------------------------------------------------------------------------

/// The result of evaluating a graph for a request.
#[derive(Debug, Clone, PartialEq, Eq)]
pub enum GraphResult {
    /// Send the request to this backend.
    Route(BackendNodeData),
    /// Answer with an error response.
    Block { status_code: u16, message: String },
    /// Answer with a redirect.
    Redirect { url: String, status_code: u16, preserve_query: bool },
    /// Let the request pass to the default backend.
    Allow,
    /// The path through the graph ended without a decision.
    NoMatch,
}

/// The mathematical view of a [`GraphResult`].
pub enum GraphResultView {
    Route(BackendNodeDataView),
    Block { status_code: u16, message: Seq<char> },
    Redirect { url: Seq<char>, status_code: u16, preserve_query: bool },
    Allow,
    NoMatch,
}

impl View for GraphResult {
    type V = GraphResultView;

    open spec fn view(&self) -> GraphResultView {
        match self {
            GraphResult::Route(data) => GraphResultView::Route(data@),
            GraphResult::Block { status_code, message } => GraphResultView::Block {
                status_code: *status_code,
                message: message@,
            },
            GraphResult::Redirect { url, status_code, preserve_query } => {
                GraphResultView::Redirect {
                    url: url@,
                    status_code: *status_code,
                    preserve_query: *preserve_query,
                }
            },
            GraphResult::Allow => GraphResultView::Allow,
            GraphResult::NoMatch => GraphResultView::NoMatch,
        }
    }
}

/// One change to the headers of the request that goes to the backend.
#[derive(Debug, Clone, PartialEq, Eq)]
pub enum HeaderMod {
    /// Give the header this one value.
    SetValue { name: String, value: String },
    /// Add this value to the header.
    Append { name: String, value: String },
    /// Take the header out.
    Remove { name: String },
}

/// The mathematical view of a [`HeaderMod`].
pub enum HeaderModView {
    SetValue { name: Seq<char>, value: Seq<char> },
    Append { name: Seq<char>, value: Seq<char> },
    Remove { name: Seq<char> },
}

impl View for HeaderMod {
    type V = HeaderModView;

    open spec fn view(&self) -> HeaderModView {
        match self {
            HeaderMod::SetValue { name, value } => HeaderModView::SetValue {
                name: name@,
                value: value@,
            },
            HeaderMod::Append { name, value } => HeaderModView::Append {
                name: name@,
                value: value@,
            },
            HeaderMod::Remove { name } => HeaderModView::Remove { name: name@ },
        }
    }
}

/// The views of a list of header changes.
pub open spec fn mods_view(mods: Seq<HeaderMod>) -> Seq<HeaderModView> {
    mods.map_values(|m: HeaderMod| m@)
}

// ---------------------------------------------------------------------------
// Answers and questions
// ---------------------------------------------------------------------------

/// How two texts relate as numbers, as the host found it.
#[derive(Debug, Clone, PartialEq, Eq)]
pub struct Comparison {
    /// The left text.
    pub left: String,
    /// The right text.
    pub right: String,
    /// How the two relate.
    pub order: NumericOrder,
}

/// The mathematical view of a [`Comparison`].
pub struct ComparisonView {
    pub left: Seq<char>,
    pub right: Seq<char>,
    pub order: NumericOrder,
}

impl View for Comparison {
    type V = ComparisonView;

    open spec fn view(&self) -> ComparisonView {
        ComparisonView { left: self.left@, right: self.right@, order: self.order }
    }
}

/// What the rate service answered for the rate limit at one node.
#[derive(Debug, Clone, Copy, PartialEq, Eq)]
pub struct RateAnswer {
    /// The position of the `rateLimit` node among the graph's nodes.
    pub node: usize,
    /// The service's reply.
    pub reply: RateReply,
}

/// What the host has learned from outside for one request. It starts empty
/// and grows by one answer for each question that an evaluation asks.
#[derive(Debug, Clone, PartialEq, Eq)]
pub struct Answers {
    /// The geolocation lookup: `None` until it was made, then its result.
    pub geo: Option<Option<GeoInfo>>,
    /// The device lookup: `None` until it was made, then its result.
    pub device: Option<Option<DeviceInfo>>,
    /// The numeric comparisons made so far.
    pub comparisons: Vec<Comparison>,
    /// The replies of the rate service so far.
    pub rates: Vec<RateAnswer>,
}

/// The mathematical view of [`Answers`].
pub struct AnswersView {
    pub geo: Option<Option<GeoInfoView>>,
    pub device: Option<Option<DeviceInfoView>>,
    pub comparisons: Seq<ComparisonView>,
    pub rates: Seq<RateAnswer>,
}

impl View for Answers {
    type V = AnswersView;

    open spec fn view(&self) -> AnswersView {
        AnswersView {
            geo: match self.geo {
                Some(Some(g)) => Some(Some(g@)),
                Some(None) => Some(None),
                None => None,
            },
            device: match self.device {
                Some(Some(d)) => Some(Some(d@)),
                Some(None) => Some(None),
                None => None,
            },
            comparisons: self.comparisons@.map_values(|c: Comparison| c@),
            rates: self.rates@,
        }
    }
}

/// What an evaluation needs from outside before it can go on.
#[derive(Debug, Clone, PartialEq, Eq)]
pub enum Question {
    /// The geolocation of the client address.
    Geo,
    /// The device detection of the user agent.
    Device,
    /// How `left` and `right` relate as numbers.
    Compare { left: String, right: String },
    /// The rate service's reply to `check`, for the `rateLimit` node at
    /// position `node`.
    Rate { node: usize, check: RateCheck },
}

/// The mathematical view of a [`Question`].
pub enum QuestionView {
    Geo,
    Device,
    Compare { left: Seq<char>, right: Seq<char> },
    Rate { node: usize, check: RateCheckView },
}

impl View for Question {
    type V = QuestionView;

    open spec fn view(&self) -> QuestionView {
        match self {
            Question::Geo => QuestionView::Geo,
            Question::Device => QuestionView::Device,
            Question::Compare { left, right } => QuestionView::Compare {
                left: left@,
                right: right@,
            },
            Question::Rate { node, check } => QuestionView::Rate { node: *node, check: check@ },
        }
    }
}

/// How an evaluation ended: with a result, or with a question to the host.
#[derive(Debug, Clone, PartialEq, Eq)]
pub enum Evaluation {
    /// The graph's result for the request.
    Done(GraphResult),
    /// The evaluation needs this answer; add it and evaluate again.
    Ask(Question),
}

/// The mathematical view of an [`Evaluation`].
pub enum EvaluationView {
    Done(GraphResultView),
    Ask(QuestionView),
}

impl View for Evaluation {
    type V = EvaluationView;

    open spec fn view(&self) -> EvaluationView {
        match self {
            Evaluation::Done(result) => EvaluationView::Done(result@),
            Evaluation::Ask(question) => EvaluationView::Ask(question@),
        }
    }
}

impl Answers {
    /// No answers yet.
    pub fn new() -> (r: Answers)
        ensures
            r@.geo is None,
            r@.device is None,
            r@.comparisons.len() == 0,
            r@.rates.len() == 0,
    {
        Answers { geo: None, device: None, comparisons: Vec::new(), rates: Vec::new() }
    }
}

/// The comparison recorded for `left` and `right`, the first where there are
/// several.
pub open spec fn find_comparison(
    list: Seq<ComparisonView>,
    left: Seq<char>,
    right: Seq<char>,
) -> Option<NumericOrder>
    decreases list.len(),
{
    if list.len() == 0 {
        None
    } else if list[0].left == left && list[0].right == right {
        Some(list[0].order)
    } else {
        find_comparison(list.skip(1), left, right)
    }
}

/// The reply recorded for the rate limit at `node`, the first where there are
/// several.
pub open spec fn find_rate(list: Seq<RateAnswer>, node: usize) -> Option<RateReply>
    decreases list.len(),
{
    if list.len() == 0 {
        None
    } else if list[0].node == node {
        Some(list[0].reply)
    } else {
        find_rate(list.skip(1), node)
    }
}

/// The result of a lookup that was made; `None` also where it was not made.
pub open spec fn known<T>(answer: Option<Option<T>>) -> Option<T> {
    match answer {
        Some(found) => found,
        None => None,
    }
}

/// Whether `answers` holds the answer to `question`.
pub open spec fn answered(answers: AnswersView, question: QuestionView) -> bool {
    match question {
        QuestionView::Geo => answers.geo is Some,
        QuestionView::Device => answers.device is Some,
        QuestionView::Compare { left, right } => {
            find_comparison(answers.comparisons, left, right) is Some
        },
        QuestionView::Rate { node, check } => find_rate(answers.rates, node) is Some,
    }
}

fn lookup_comparison(list: &Vec<Comparison>, left: &str, right: &str) -> (r: Option<NumericOrder>)
    ensures
        r == find_comparison(list@.map_values(|c: Comparison| c@), left@, right@),
{
    let ghost all = list@.map_values(|c: Comparison| c@);
    let mut i: usize = 0;
    proof {
        assert(all.skip(0) =~= all);
    }
    while i < list.len()
        invariant
            i <= list.len(),
            all == list@.map_values(|c: Comparison| c@),
            find_comparison(all, left@, right@) == find_comparison(
                all.skip(i as int),
                left@,
                right@,
            ),
        decreases list.len() - i,
    {
        proof {
            let rest = all.skip(i as int);
            assert(rest[0] == list@[i as int]@);
            assert(rest.skip(1) =~= all.skip(i + 1));
        }
        if str_eq(list[i].left.as_str(), left) && str_eq(list[i].right.as_str(), right) {
            return Some(list[i].order);
        }
        i += 1;
    }
    None
}

fn lookup_rate(list: &Vec<RateAnswer>, node: usize) -> (r: Option<RateReply>)
    ensures
        r == find_rate(list@, node),
{
    let mut i: usize = 0;
    proof {
        assert(list@.skip(0) =~= list@);
    }
    while i < list.len()
        invariant
            i <= list.len(),
            find_rate(list@, node) == find_rate(list@.skip(i as int), node),
        decreases list.len() - i,
    {
        proof {
            let rest = list@.skip(i as int);
            assert(rest[0] == list@[i as int]);
            assert(rest.skip(1) =~= list@.skip(i + 1));
        }
        if list[i].node == node {
            return Some(list[i].reply);
        }
        i += 1;
    }
    None
}

// ---------------------------------------------------------------------------
// Conditions under answers
// ---------------------------------------------------------------------------

/// What one condition comes to under the answers known so far.
pub enum Verdict {
    /// The condition's result.
    Holds(bool),
    /// The condition cannot be decided before this is answered.
    Needs(QuestionView),
}

/// What a condition comes to.
///
/// A field that is read from a lookup needs the lookup's answer first. A
/// numeric comparison then needs to know how the field's value, or the empty
/// text where it has none, relates to the condition's value.
pub open spec fn condition_verdict(
    field: Seq<char>,
    operator: Seq<char>,
    value: Seq<char>,
    header_name: Option<Seq<char>>,
    req: RequestInfoView,
    answers: AnswersView,
) -> Verdict {
    let name = effective_field(field, header_name);
    let lookup = lookup_of(field_of(name));
    if lookup == Lookup::Geo && answers.geo is None {
        Verdict::Needs(QuestionView::Geo)
    } else if lookup == Lookup::Device && answers.device is None {
        Verdict::Needs(QuestionView::Device)
    } else {
        let actual = field_value(name, req, known(answers.geo), known(answers.device));
        let op = operator_of(operator);
        if is_numeric(op) {
            match find_comparison(answers.comparisons, text_or_empty(actual), value) {
                Some(order) => Verdict::Holds(condition_holds(op, value, actual, order)),
                None => Verdict::Needs(
                    QuestionView::Compare { left: text_or_empty(actual), right: value },
                ),
            }
        } else {
            Verdict::Holds(condition_holds(op, value, actual, NumericOrder::Unordered))
        }
    }
}

/// The verdict of an inline condition of a rule group.
pub open spec fn inline_verdict(
    c: RuleGroupConditionView,
    req: RequestInfoView,
    answers: AnswersView,
) -> Verdict {
    condition_verdict(c.field, c.operator, c.value, c.header_name, req, answers)
}

/// The first question among the verdicts of a group's conditions, in order.
pub open spec fn first_need(
    conditions: Seq<RuleGroupConditionView>,
    req: RequestInfoView,
    answers: AnswersView,
) -> Option<QuestionView>
    decreases conditions.len(),
{
    if conditions.len() == 0 {
        None
    } else {
        match inline_verdict(conditions[0], req, answers) {
            Verdict::Needs(q) => Some(q),
            Verdict::Holds(_) => first_need(conditions.skip(1), req, answers),
        }
    }
}

/// The results of a group's conditions, in order. It is meant for conditions
/// that all have one.
pub open spec fn group_results(
    conditions: Seq<RuleGroupConditionView>,
    req: RequestInfoView,
    answers: AnswersView,
) -> Seq<bool> {
    Seq::new(conditions.len(), |i: int| inline_verdict(conditions[i], req, answers)->Holds_0)
}

enum Outcome {
    Holds(bool),
    Needs(Question),
}

impl Outcome {
    spec fn verdict(self) -> Verdict {
        match self {
            Outcome::Holds(b) => Verdict::Holds(b),
            Outcome::Needs(q) => Verdict::Needs(q@),
        }
    }
}

fn known_geo(answers: &Answers) -> (r: Option<&GeoInfo>)
    ensures
        crate::request::opt_geo(r) == known(answers@.geo),
{
    match &answers.geo {
        Some(Some(g)) => Some(g),
        _ => None,
    }
}

fn known_device(answers: &Answers) -> (r: Option<&DeviceInfo>)
    ensures
        crate::request::opt_device(r) == known(answers@.device),
{
    match &answers.device {
        Some(Some(d)) => Some(d),
        _ => None,
    }
}

fn judge_condition(
    field: &str,
    operator: &str,
    value: &str,
    header_name: &Option<String>,
    req: &RequestInfo,
    answers: &Answers,
) -> (r: Outcome)
    ensures
        r.verdict() == condition_verdict(
            field@,
            operator@,
            value@,
            opt_text(*header_name),
            req@,
            answers@,
        ),
{
    let name = effective_field_name(field, header_name);
    match field_lookup(name) {
        Lookup::Geo => {
            if answers.geo.is_none() {
                return Outcome::Needs(Question::Geo);
            }
        },
        Lookup::Device => {
            if answers.device.is_none() {
                return Outcome::Needs(Question::Device);
            }
        },
        Lookup::Request => {},
    }
    let actual = get_field_value(name, req, known_geo(answers), known_device(answers));
    let actual_ref: Option<&str> = match &actual {
        Some(s) => Some(s.as_str()),
        None => None,
    };
    if is_numeric_operator(operator) {
        let left: &str = match actual_ref {
            Some(s) => s,
            None => "",
        };
        proof {
            reveal_strlit("");
            assert(left@ =~= text_or_empty(opt_text(actual)));
        }
        match lookup_comparison(&answers.comparisons, left, value) {
            Some(order) => Outcome::Holds(test_condition(operator, value, actual_ref, order)),
            None => Outcome::Needs(
                Question::Compare { left: copy_string(left), right: copy_string(value) },
            ),
        }
    } else {
        Outcome::Holds(test_condition(operator, value, actual_ref, NumericOrder::Unordered))
    }
}

// ---------------------------------------------------------------------------
// The graph's structure
// ---------------------------------------------------------------------------

/// The position of the node with this identifier: the last one, where
/// several nodes share it.
pub open spec fn find_node(nodes: Seq<GraphNodeView>, id: Seq<char>) -> Option<int>
    decreases nodes.len(),
{
    if nodes.len() == 0 {
        None
    } else if nodes.last().id == id {
        Some(nodes.len() - 1)
    } else {
        find_node(nodes.drop_last(), id)
    }
}

/// The identifiers of the nodes differ from one another, as they do in a
/// well-formed graph.
pub open spec fn unique_ids(nodes: Seq<GraphNodeView>) -> bool {
    forall|i: int, j: int| 0 <= i < j < nodes.len() ==> nodes[i].id != nodes[j].id
}

/// The positions of the edges that leave the node `source`, among the first
/// `upto` edges, in declaration order.
pub open spec fn outgoing(edges: Seq<GraphEdgeView>, source: Seq<char>, upto: int) -> Seq<int>
    decreases upto,
{
    if upto <= 0 {
        Seq::empty()
    } else if edges[upto - 1].source == source {
        outgoing(edges, source, upto - 1).push(upto - 1)
    } else {
        outgoing(edges, source, upto - 1)
    }
}

/// Whether an edge leaves by the output port `handle`; with no port asked
/// for, every edge does.
pub open spec fn leaves_by(edge: GraphEdgeView, handle: Option<Seq<char>>) -> bool {
    match handle {
        Some(h) => edge.source_handle == Some(h),
        None => true,
    }
}

/// The first of `candidates` that leaves by `handle`.
pub open spec fn first_leaving(
    edges: Seq<GraphEdgeView>,
    candidates: Seq<int>,
    handle: Option<Seq<char>>,
) -> Option<int>
    decreases candidates.len(),
{
    if candidates.len() == 0 {
        None
    } else if leaves_by(edges[candidates[0]], handle) {
        Some(candidates[0])
    } else {
        first_leaving(edges, candidates.skip(1), handle)
    }
}

/// The edge to follow from the node `source` by the port `handle`: the first
/// in declaration order of the edges that leave `source` by that port.
pub open spec fn edge_to_follow(
    g: GraphPayloadView,
    source: Seq<char>,
    handle: Option<Seq<char>>,
) -> Option<int> {
    first_leaving(g.edges, outgoing(g.edges, source, g.edges.len() as int), handle)
}

/// The node that following from `source` by `handle` leads to; `None` where
/// no edge leaves by that port, or the edge's target is no node of the graph.
pub open spec fn next_node(
    g: GraphPayloadView,
    source: Seq<char>,
    handle: Option<Seq<char>>,
) -> Option<int> {
    match edge_to_follow(g, source, handle) {
        Some(e) => find_node(g.nodes, g.edges[e].target),
        None => None,
    }
}

/// Whether the node at `i` is an entry point: a `request` node that a lookup
/// of its identifier finds.
pub open spec fn is_entry(nodes: Seq<GraphNodeView>, i: int) -> bool {
    &&& 0 <= i < nodes.len()
    &&& nodes[i].node_type == "request"@
    &&& find_node(nodes, nodes[i].id) == Some(i)
}

/// The entry point among the first `upto` nodes: the first in declaration
/// order.
pub open spec fn entry_before(nodes: Seq<GraphNodeView>, upto: int) -> Option<int>
    decreases upto,
{
    if upto <= 0 {
        None
    } else {
        match entry_before(nodes, upto - 1) {
            Some(i) => Some(i),
            None => if is_entry(nodes, upto - 1) {
                Some(upto - 1)
            } else {
                None
            },
        }
    }
}

/// The graph's entry point, where it has one.
pub open spec fn entry_node(nodes: Seq<GraphNodeView>) -> Option<int> {
    entry_before(nodes, nodes.len() as int)
}

// ---------------------------------------------------------------------------
// One node
// ---------------------------------------------------------------------------

/// What evaluating one node comes to.
pub enum Step {
    /// The node is terminal: this is the graph's result.
    Finish(GraphResultView),
    /// The node needs this answer first.
    Ask(QuestionView),
    /// Go on by the output port `handle`, by any edge where it is `None`,
    /// after noting `change`.
    Follow { handle: Option<Seq<char>>, change: Option<HeaderModView> },
}

/// An optional number, or a default.
pub open spec fn or_u16(value: Option<u16>, default: u16) -> u16 {
    match value {
        Some(v) => v,
        None => default,
    }
}

/// An optional flag, or a default.
pub open spec fn or_bool(value: Option<bool>, default: bool) -> bool {
    match value {
        Some(v) => v,
        None => default,
    }
}

/// An optional text, or a default.
pub open spec fn or_text(value: Option<Seq<char>>, default: Seq<char>) -> Seq<char> {
    match value {
        Some(v) => v,
        None => default,
    }
}

/// The result of an `action` node. Any action but `allow` and `redirect`
/// blocks.
pub open spec fn action_result(data: ActionNodeDataView) -> GraphResultView {
    if data.action == "allow"@ {
        GraphResultView::Allow
    } else if data.action == "redirect"@ {
        GraphResultView::Redirect {
            url: or_text(data.url, "/"@),
            status_code: or_u16(data.status_code, 302),
            preserve_query: or_bool(data.preserve_query, true),
        }
    } else {
        GraphResultView::Block {
            status_code: or_u16(data.status_code, 403),
            message: or_text(data.message, "Blocked"@),
        }
    }
}

/// The result of a `redirect` node.
pub open spec fn redirect_result(data: RedirectNodeDataView) -> GraphResultView {
    GraphResultView::Redirect {
        url: data.url,
        status_code: or_u16(data.status_code, 302),
        preserve_query: or_bool(data.preserve_query, true),
    }
}

/// The header change that a `header` node notes; none for an operation that
/// is not `set`, `append` or `remove`.
pub open spec fn header_change(data: HeaderNodeDataView) -> Option<HeaderModView> {
    if data.operation == "set"@ {
        Some(HeaderModView::SetValue { name: data.name, value: or_text(data.value, Seq::empty()) })
    } else if data.operation == "append"@ {
        Some(HeaderModView::Append { name: data.name, value: or_text(data.value, Seq::empty()) })
    } else if data.operation == "remove"@ {
        Some(HeaderModView::Remove { name: data.name })
    } else {
        None
    }
}

/// The response to a node whose payload does not say what to do.
pub open spec fn invalid_config(message: Seq<char>) -> GraphResultView {
    GraphResultView::Block { status_code: 500, message }
}

/// What evaluating the node at position `index` comes to.
///
/// A payload that does not fit its kind's schema is handled per kind: an
/// `action` or `redirect` node blocks with status 500, a `rateLimit` node goes
/// on by `ok`, and a node of any other kind is passed through: it goes on by
/// any edge. So is a node of an unknown kind.
pub open spec fn node_step(
    node: GraphNodeView,
    index: int,
    req: RequestInfoView,
    answers: AnswersView,
) -> Step {
    if node.node_type == "request"@ {
        Step::Follow { handle: None, change: None }
    } else if node.node_type == "ruleGroup"@ {
        match parse_rule_group_node_data(node.data) {
            Some(data) => match first_need(data.conditions, req, answers) {
                Some(q) => Step::Ask(q),
                None => if group_matches(
                    logic_of(uppercase(data.logic)),
                    group_results(data.conditions, req, answers),
                ) {
                    Step::Follow { handle: Some("match"@), change: None }
                } else {
                    Step::Follow { handle: Some("noMatch"@), change: None }
                },
            },
            None => Step::Follow { handle: None, change: None },
        }
    } else if node.node_type == "condition"@ {
        match parse_condition_node_data(node.data) {
            Some(data) => match condition_verdict(
                data.field,
                data.operator,
                data.value,
                data.header_name,
                req,
                answers,
            ) {
                Verdict::Needs(q) => Step::Ask(q),
                Verdict::Holds(true) => Step::Follow { handle: Some("true"@), change: None },
                Verdict::Holds(false) => Step::Follow { handle: Some("false"@), change: None },
            },
            None => Step::Follow { handle: None, change: None },
        }
    } else if node.node_type == "action"@ {
        match parse_action_node_data(node.data) {
            Some(data) => Step::Finish(action_result(data)),
            None => Step::Finish(invalid_config("Invalid action config"@)),
        }
    } else if node.node_type == "backend"@ {
        match parse_backend_node_data(node.data) {
            Some(data) => Step::Finish(GraphResultView::Route(data)),
            None => Step::Follow { handle: None, change: None },
        }
    } else if node.node_type == "rateLimit"@ {
        match parse_rate_limit_node_data(node.data) {
            Some(data) => match find_rate(answers.rates, index as usize) {
                Some(reply) => if reply_exceeded(reply) {
                    Step::Follow { handle: Some("exceeded"@), change: None }
                } else {
                    Step::Follow { handle: Some("ok"@), change: None }
                },
                None => Step::Ask(
                    QuestionView::Rate { node: index as usize, check: rate_check_of(data, req) },
                ),
            },
            None => Step::Follow { handle: Some("ok"@), change: None },
        }
    } else if node.node_type == "header"@ {
        match parse_header_node_data(node.data) {
            Some(data) => Step::Follow { handle: Some("next"@), change: header_change(data) },
            None => Step::Follow { handle: None, change: None },
        }
    } else if node.node_type == "redirect"@ {
        match parse_redirect_node_data(node.data) {
            Some(data) => Step::Finish(redirect_result(data)),
            None => Step::Finish(invalid_config("Invalid redirect config"@)),
        }
    } else {
        Step::Follow { handle: None, change: None }
    }
}

// ---------------------------------------------------------------------------
// A whole evaluation
// ---------------------------------------------------------------------------

/// How an evaluation ended, with what it noted on the way.
pub struct Run {
    /// The result, or the question that stopped the evaluation.
    pub outcome: EvaluationView,
    /// The header changes noted, in the order of the nodes passed.
    pub mods: Seq<HeaderModView>,
    /// The number of nodes evaluated.
    pub steps: nat,
}

/// With `change` noted after `mods`.
pub open spec fn with_change(
    mods: Seq<HeaderModView>,
    change: Option<HeaderModView>,
) -> Seq<HeaderModView> {
    match change {
        Some(c) => mods.push(c),
        None => mods,
    }
}

/// The evaluation that starts at the node at `node`, having noted `mods` and
/// evaluated `steps` nodes, with `fuel` more nodes allowed. A path that
/// returns to a node runs out of fuel and ends without a decision.
pub open spec fn run_from(
    g: GraphPayloadView,
    req: RequestInfoView,
    answers: AnswersView,
    node: int,
    fuel: nat,
    mods: Seq<HeaderModView>,
    steps: nat,
) -> Run
    decreases fuel,
{
    if fuel == 0 {
        Run { outcome: EvaluationView::Done(GraphResultView::NoMatch), mods, steps }
    } else {
        match node_step(g.nodes[node], node, req, answers) {
            Step::Finish(result) => Run {
                outcome: EvaluationView::Done(result),
                mods,
                steps: steps + 1,
            },
            Step::Ask(question) => Run {
                outcome: EvaluationView::Ask(question),
                mods,
                steps: steps + 1,
            },
            Step::Follow { handle, change } => match next_node(g, g.nodes[node].id, handle) {
                Some(next) => run_from(
                    g,
                    req,
                    answers,
                    next,
                    (fuel - 1) as nat,
                    with_change(mods, change),
                    steps + 1,
                ),
                None => Run {
                    outcome: EvaluationView::Done(GraphResultView::NoMatch),
                    mods: with_change(mods, change),
                    steps: steps + 1,
                },
            },
        }
    }
}

/// The evaluation of a graph for a request under the answers known so far.
/// A graph without an entry point gives no match. Each node of the graph may
/// be evaluated once.
pub open spec fn run_graph(g: GraphPayloadView, req: RequestInfoView, answers: AnswersView) -> Run {
    match entry_node(g.nodes) {
        Some(entry) => run_from(g, req, answers, entry, g.nodes.len(), Seq::empty(), 0),
        None => Run {
            outcome: EvaluationView::Done(GraphResultView::NoMatch),
            mods: Seq::empty(),
            steps: 0,
        },
    }
}

/// The header changes that the host applies to the outgoing request: those
/// noted on the way to a `Route`, and none for any other result.
pub open spec fn applied_mods(
    result: GraphResultView,
    mods: Seq<HeaderModView>,
) -> Seq<HeaderModView> {
    if result is Route {
        mods
    } else {
        Seq::empty()
    }
}

/// The header changes that are kept of an evaluation: those noted on the way
/// to a `Route`. What was noted on the way to any other result, or to a
/// question, is discarded.
pub open spec fn kept_mods(run: Run) -> Seq<HeaderModView> {
    match run.outcome {
        EvaluationView::Done(result) => applied_mods(result, run.mods),
        EvaluationView::Ask(_) => Seq::empty(),
    }
}

// ---------------------------------------------------------------------------
// The interpreter
// ---------------------------------------------------------------------------

/// Positions as mathematical integers.
pub open spec fn as_ints(positions: Seq<usize>) -> Seq<int> {
    positions.map_values(|p: usize| p as int)
}

/// An optional position as a mathematical integer.
pub open spec fn opt_int(position: Option<usize>) -> Option<int> {
    match position {
        Some(p) => Some(p as int),
        None => None,
    }
}

/// The position that a map of identifiers holds for `id`.
pub open spec fn position_in(ids: Map<Seq<char>, usize>, id: Seq<char>) -> Option<int> {
    if ids.contains_key(id) {
        Some(ids[id] as int)
    } else {
        None
    }
}

/// The node at `i` is the one that a lookup of its identifier finds.
pub open spec fn owns_id(nodes: Seq<GraphNodeView>, i: int) -> bool {
    0 <= i < nodes.len() && find_node(nodes, nodes[i].id) == Some(i)
}

/// A node that a lookup finds stands in the graph, has the identifier looked
/// up, and is the one that a lookup of its own identifier finds.
pub proof fn lemma_found_node(nodes: Seq<GraphNodeView>, id: Seq<char>)
    ensures
        find_node(nodes, id) matches Some(k) ==> 0 <= k < nodes.len() && nodes[k].id == id
            && owns_id(nodes, k),
        find_node(nodes, id) is None ==> forall|i: int|
            0 <= i < nodes.len() ==> (#[trigger] nodes[i]).id != id,
    decreases nodes.len(),
{
    if nodes.len() > 0 && nodes.last().id != id {
        let front = nodes.drop_last();
        lemma_found_node(front, id);
        assert forall|i: int| 0 <= i < front.len() implies front[i] == nodes[i] by {}
        if find_node(nodes, id) is None {
            assert forall|i: int| 0 <= i < nodes.len() implies (#[trigger] nodes[i]).id != id by {
                if i < front.len() {
                    assert(front[i] == nodes[i]);
                }
            }
        }
    }
}

/// The map from each identifier to the position of its node. Of several
/// nodes with one identifier the last one is the one found.
fn index_nodes(nodes: &Vec<GraphNode>) -> (ids: StringHashMap<usize>)
    ensures
        forall|id: Seq<char>| #[trigger]
            position_in(ids@, id) == find_node(nodes@.map_values(|n: GraphNode| n@), id),
{
    let ghost all = nodes@.map_values(|n: GraphNode| n@);
    let mut ids: StringHashMap<usize> = StringHashMap::new();
    let mut i: usize = 0;
    proof {
        assert(all.take(0).len() == 0);
    }
    while i < nodes.len()
        invariant
            i <= nodes.len(),
            all == nodes@.map_values(|n: GraphNode| n@),
            forall|id: Seq<char>| #[trigger]
                position_in(ids@, id) == find_node(all.take(i as int), id),
        decreases nodes.len() - i,
    {
        let ghost before = ids@;
        ids.insert(nodes[i].id.clone(), i);
        proof {
            let front = all.take(i + 1);
            assert(front.last() == nodes@[i as int]@);
            assert(front.drop_last() =~= all.take(i as int));
            assert forall|id: Seq<char>| #[trigger]
                position_in(ids@, id) == find_node(front, id) by {
                assert(position_in(before, id) == find_node(all.take(i as int), id));
            }
        }
        i += 1;
    }
    proof {
        assert(all.take(nodes@.len() as int) =~= all);
    }
    ids
}

/// Adds `x` at the end of the list at position `i`.
fn push_at(lists: &mut Vec<Vec<usize>>, i: usize, x: usize)
    requires
        i < old(lists)@.len(),
    ensures
        final(lists)@.len() == old(lists)@.len(),
        final(lists)@[i as int]@ == old(lists)@[i as int]@.push(x),
        forall|k: int| 0 <= k < old(lists)@.len() && k != i ==> final(lists)@[k] == old(lists)@[k],
{
    lists[i].push(x);
}

/// For each node that owns its identifier, the edges that leave it, in
/// declaration order. `ids` is the map of the nodes' identifiers.
fn index_edges(graph: &GraphPayload, ids: &StringHashMap<usize>) -> (lists: Vec<Vec<usize>>)
    requires
        forall|id: Seq<char>| #[trigger] position_in(ids@, id) == find_node(graph@.nodes, id),
    ensures
        lists@.len() == graph@.nodes.len(),
        forall|i: int|
            owns_id(graph@.nodes, i) ==> as_ints(#[trigger] lists@[i]@) == outgoing(
                graph@.edges,
                graph@.nodes[i].id,
                graph@.edges.len() as int,
            ),
        forall|i: int, k: int|
            0 <= i < lists@.len() && 0 <= k < lists@[i]@.len() ==> (#[trigger] lists@[i]@[k])
                < graph@.edges.len(),
{
    let ghost g = graph@;
    let mut lists: Vec<Vec<usize>> = Vec::new();
    let mut i: usize = 0;
    while i < graph.nodes.len()
        invariant
            i <= graph.nodes.len(),
            lists@.len() == i,
            forall|k: int| 0 <= k < i ==> (#[trigger] lists@[k])@.len() == 0,
        decreases graph.nodes.len() - i,
    {
        lists.push(Vec::new());
        i += 1;
    }
    let mut e: usize = 0;
    proof {
        assert forall|k: int| owns_id(g.nodes, k) implies as_ints(#[trigger] lists@[k]@)
            == outgoing(g.edges, g.nodes[k].id, 0) by {
            assert(as_ints(lists@[k]@) =~= Seq::<int>::empty());
        }
    }
    while e < graph.edges.len()
        invariant
            e <= graph.edges.len(),
            g == graph@,
            lists@.len() == g.nodes.len(),
            forall|id: Seq<char>| #[trigger] position_in(ids@, id) == find_node(g.nodes, id),
            forall|k: int|
                owns_id(g.nodes, k) ==> as_ints(#[trigger] lists@[k]@) == outgoing(
                    g.edges,
                    g.nodes[k].id,
                    e as int,
                ),
            forall|k: int, j: int|
                0 <= k < lists@.len() && 0 <= j < lists@[k]@.len() ==> (#[trigger] lists@[k]@[j])
                    < g.edges.len(),
        decreases graph.edges.len() - e,
    {
        let ghost before = lists@;
        let ghost source = g.edges[e as int].source;
        proof {
            assert(g.edges[e as int] == graph.edges@[e as int]@);
            assert(position_in(ids@, source) == find_node(g.nodes, source));
            lemma_found_node(g.nodes, source);
        }
        match ids.get(graph.edges[e].source.as_str()) {
            Some(found) => {
                let at: usize = *found;
                push_at(&mut lists, at, e);
                proof {
                    assert(as_ints(lists@[at as int]@) =~= as_ints(before[at as int]@).push(
                        e as int,
                    ));
                    assert forall|k: int| owns_id(g.nodes, k) implies as_ints(#[trigger] lists@[k]@)
                        == outgoing(g.edges, g.nodes[k].id, e + 1) by {
                        if k != at {
                            assert(lists@[k] == before[k]);
                            assert(g.nodes[k].id != source);
                        }
                    }
                    assert forall|k: int, j: int|
                        0 <= k < lists@.len() && 0 <= j < lists@[k]@.len() implies (
                    #[trigger] lists@[k]@[j]) < g.edges.len() by {
                        if k != at {
                            assert(lists@[k] == before[k]);
                        } else if j < before[k]@.len() {
                            assert(lists@[k]@[j] == before[k]@[j]);
                        }
                    }
                }
            },
            None => {
                proof {
                    assert forall|k: int| owns_id(g.nodes, k) implies as_ints(#[trigger] lists@[k]@)
                        == outgoing(g.edges, g.nodes[k].id, e + 1) by {
                        assert(g.nodes[k].id != source);
                    }
                }
            },
        }
        e += 1;
    }
    lists
}

fn leaves(edge: &GraphEdge, handle: Option<&str>) -> (r: bool)
    ensures
        r == leaves_by(edge@, opt_str(handle)),
{
    match handle {
        Some(h) => match &edge.source_handle {
            Some(s) => str_eq(s.as_str(), h),
            None => false,
        },
        None => true,
    }
}

fn copy_header_mod(m: &HeaderMod) -> (r: HeaderMod)
    ensures
        r@ == m@,
{
    match m {
        HeaderMod::SetValue { name, value } => HeaderMod::SetValue {
            name: name.clone(),
            value: value.clone(),
        },
        HeaderMod::Append { name, value } => HeaderMod::Append {
            name: name.clone(),
            value: value.clone(),
        },
        HeaderMod::Remove { name } => HeaderMod::Remove { name: name.clone() },
    }
}

fn copy_header_mods(mods: &Vec<HeaderMod>) -> (r: Vec<HeaderMod>)
    ensures
        mods_view(r@) == mods_view(mods@),
{
    let mut out: Vec<HeaderMod> = Vec::new();
    let mut i: usize = 0;
    while i < mods.len()
        invariant
            i <= mods.len(),
            out@.len() == i,
            forall|k: int| 0 <= k < i ==> out@[k]@ == mods@[k]@,
        decreases mods.len() - i,
    {
        out.push(copy_header_mod(&mods[i]));
        i += 1;
    }
    proof {
        assert(mods_view(out@) =~= mods_view(mods@));
    }
    out
}

enum Move {
    Finish(GraphResult),
    Ask(Question),
    Follow { handle: Option<&'static str>, change: Option<HeaderMod> },
}

impl Move {
    spec fn step(self) -> Step {
        match self {
            Move::Finish(result) => Step::Finish(result@),
            Move::Ask(question) => Step::Ask(question@),
            Move::Follow { handle, change } => Step::Follow {
                handle: opt_str(handle),
                change: match change {
                    Some(c) => Some(c@),
                    None => None,
                },
            },
        }
    }
}

fn unwrap_text(value: Option<String>, default: &str) -> (r: String)
    ensures
        r@ == or_text(opt_text(value), default@),
{
    match value {
        Some(v) => v,
        None => copy_string(default),
    }
}

fn unwrap_u16(value: Option<u16>, default: u16) -> (r: u16)
    ensures
        r == or_u16(value, default),
{
    match value {
        Some(v) => v,
        None => default,
    }
}

fn unwrap_bool(value: Option<bool>, default: bool) -> (r: bool)
    ensures
        r == or_bool(value, default),
{
    match value {
        Some(v) => v,
        None => default,
    }
}

fn decide_action(data: ActionNodeData) -> (r: GraphResult)
    ensures
        r@ == action_result(data@),
{
    if str_eq(data.action.as_str(), "allow") {
        GraphResult::Allow
    } else if str_eq(data.action.as_str(), "redirect") {
        GraphResult::Redirect {
            url: unwrap_text(data.url, "/"),
            status_code: unwrap_u16(data.status_code, 302),
            preserve_query: unwrap_bool(data.preserve_query, true),
        }
    } else {
        GraphResult::Block {
            status_code: unwrap_u16(data.status_code, 403),
            message: unwrap_text(data.message, "Blocked"),
        }
    }
}

fn decide_redirect(data: RedirectNodeData) -> (r: GraphResult)
    ensures
        r@ == redirect_result(data@),
{
    GraphResult::Redirect {
        url: data.url,
        status_code: unwrap_u16(data.status_code, 302),
        preserve_query: unwrap_bool(data.preserve_query, true),
    }
}

fn note_header(data: HeaderNodeData) -> (r: Option<HeaderMod>)
    ensures
        (match r {
            Some(c) => Some(c@),
            None => None,
        }) == header_change(data@),
{
    proof {
        reveal_strlit("");
        assert(""@ =~= Seq::<char>::empty());
    }
    if str_eq(data.operation.as_str(), "set") {
        Some(HeaderMod::SetValue { name: data.name, value: unwrap_text(data.value, "") })
    } else if str_eq(data.operation.as_str(), "append") {
        Some(HeaderMod::Append { name: data.name, value: unwrap_text(data.value, "") })
    } else if str_eq(data.operation.as_str(), "remove") {
        Some(HeaderMod::Remove { name: data.name })
    } else {
        None
    }
}

fn judge_group(data: &RuleGroupNodeData, req: &RequestInfo, answers: &Answers) -> (r: Move)
    ensures
        r.step() == (match first_need(data@.conditions, req@, answers@) {
            Some(q) => Step::Ask(q),
            None => if group_matches(
                logic_of(uppercase(data@.logic)),
                group_results(data@.conditions, req@, answers@),
            ) {
                Step::Follow { handle: Some("match"@), change: None }
            } else {
                Step::Follow { handle: Some("noMatch"@), change: None }
            },
        }),
{
    let ghost all = data@.conditions;
    let mut results: Vec<bool> = Vec::new();
    let mut i: usize = 0;
    proof {
        assert(all.skip(0) =~= all);
    }
    while i < data.conditions.len()
        invariant
            i <= data.conditions.len(),
            all == data@.conditions,
            all.len() == data.conditions@.len(),
            first_need(all, req@, answers@) == first_need(all.skip(i as int), req@, answers@),
            results@.len() == i,
            forall|k: int|
                0 <= k < i ==> inline_verdict(all[k], req@, answers@) == Verdict::Holds(
                    #[trigger] results@[k],
                ),
        decreases data.conditions.len() - i,
    {
        let c = &data.conditions[i];
        proof {
            let rest = all.skip(i as int);
            assert(rest[0] == all[i as int]);
            assert(all[i as int] == c@);
            assert(rest.skip(1) =~= all.skip(i + 1));
        }
        match judge_condition(
            c.field.as_str(),
            c.operator.as_str(),
            c.value.as_str(),
            &c.header_name,
            req,
            answers,
        ) {
            Outcome::Needs(q) => {
                return Move::Ask(q);
            },
            Outcome::Holds(b) => {
                results.push(b);
            },
        }
        i += 1;
    }
    proof {
        assert(results@ =~= group_results(all, req@, answers@));
    }
    if evaluate_rule_group(data.logic.as_str(), &results) {
        Move::Follow { handle: Some("match"), change: None }
    } else {
        Move::Follow { handle: Some("noMatch"), change: None }
    }
}

fn evaluate_node(node: &GraphNode, index: usize, req: &RequestInfo, answers: &Answers) -> (r: Move)
    ensures
        r.step() == node_step(node@, index as int, req@, answers@),
{
    let kind = node.node_type.as_str();
    if str_eq(kind, "request") {
        Move::Follow { handle: None, change: None }
    } else if str_eq(kind, "ruleGroup") {
        match RuleGroupNodeData::from_json(&node.data) {
            Some(data) => judge_group(&data, req, answers),
            None => Move::Follow { handle: None, change: None },
        }
    } else if str_eq(kind, "condition") {
        match ConditionNodeData::from_json(&node.data) {
            Some(data) => match judge_condition(
                data.field.as_str(),
                data.operator.as_str(),
                data.value.as_str(),
                &data.header_name,
                req,
                answers,
            ) {
                Outcome::Needs(q) => Move::Ask(q),
                Outcome::Holds(true) => Move::Follow { handle: Some("true"), change: None },
                Outcome::Holds(false) => Move::Follow { handle: Some("false"), change: None },
            },
            None => Move::Follow { handle: None, change: None },
        }
    } else if str_eq(kind, "action") {
        match ActionNodeData::from_json(&node.data) {
            Some(data) => Move::Finish(decide_action(data)),
            None => Move::Finish(
                GraphResult::Block {
                    status_code: 500,
                    message: copy_string("Invalid action config"),
                },
            ),
        }
    } else if str_eq(kind, "backend") {
        match BackendNodeData::from_json(&node.data) {
            Some(data) => Move::Finish(GraphResult::Route(data)),
            None => Move::Follow { handle: None, change: None },
        }
    } else if str_eq(kind, "rateLimit") {
        match RateLimitNodeData::from_json(&node.data) {
            Some(data) => match lookup_rate(&answers.rates, index) {
                Some(reply) => if is_exceeded(reply) {
                    Move::Follow { handle: Some("exceeded"), change: None }
                } else {
                    Move::Follow { handle: Some("ok"), change: None }
                },
                None => Move::Ask(
                    Question::Rate { node: index, check: plan_rate_check(&data, req) },
                ),
            },
            None => Move::Follow { handle: Some("ok"), change: None },
        }
    } else if str_eq(kind, "header") {
        match HeaderNodeData::from_json(&node.data) {
            Some(data) => Move::Follow { handle: Some("next"), change: note_header(data) },
            None => Move::Follow { handle: None, change: None },
        }
    } else if str_eq(kind, "redirect") {
        match RedirectNodeData::from_json(&node.data) {
            Some(data) => Move::Finish(decide_redirect(data)),
            None => Move::Finish(
                GraphResult::Block {
                    status_code: 500,
                    message: copy_string("Invalid redirect config"),
                },
            ),
        }
    } else {
        Move::Follow { handle: None, change: None }
    }
}

/// Evaluates a graph for requests.
///
/// It borrows the graph and holds two indices built once: a hash map from
/// each node identifier to its node, and for each node the edges that leave
/// it in declaration order. It also holds the header changes kept of the
/// last evaluation.
pub struct GraphInterpreter<'a> {
    graph: &'a GraphPayload,
    nodes: StringHashMap<usize>,
    edges_from: Vec<Vec<usize>>,
    entry: Option<usize>,
    header_mods: Vec<HeaderMod>,
    steps: usize,
}

impl<'a> GraphInterpreter<'a> {
    #[verifier::type_invariant]
    spec fn indexed(self) -> bool {
        let g = self.graph@;
        &&& forall|id: Seq<char>| #[trigger] position_in(self.nodes@, id) == find_node(g.nodes, id)
        &&& self.edges_from@.len() == g.nodes.len()
        &&& forall|i: int|
            owns_id(g.nodes, i) ==> as_ints(#[trigger] self.edges_from@[i]@) == outgoing(
                g.edges,
                g.nodes[i].id,
                g.edges.len() as int,
            )
        &&& forall|i: int, k: int|
            0 <= i < g.nodes.len() && 0 <= k < self.edges_from@[i]@.len() ==> (
            #[trigger] self.edges_from@[i]@[k]) < g.edges.len()
        &&& opt_int(self.entry) == entry_node(g.nodes)
        &&& self.entry matches Some(k) ==> owns_id(g.nodes, k as int)
    }

    /// The graph that the interpreter evaluates.
    pub closed spec fn graph(&self) -> GraphPayloadView {
        self.graph@
    }

    /// The header changes kept of the last evaluation, in the order of the
    /// nodes it passed: those noted on the way to a `Route`, and none where
    /// the evaluation ended otherwise.
    pub closed spec fn mods(&self) -> Seq<HeaderModView> {
        mods_view(self.header_mods@)
    }

    /// The number of nodes that the last evaluation evaluated.
    pub closed spec fn steps_taken(&self) -> nat {
        self.steps as nat
    }

    /// Builds the interpreter of a graph.
    pub fn new(graph: &'a GraphPayload) -> (r: Self)
        ensures
            r.graph() == graph@,
            r.mods() == Seq::<HeaderModView>::empty(),
            r.steps_taken() == 0,
    {
        let ghost g = graph@;
        let nodes = index_nodes(&graph.nodes);
        let edges_from = index_edges(graph, &nodes);
        let mut entry: Option<usize> = None;
        let mut i: usize = 0;
        while i < graph.nodes.len()
            invariant
                i <= graph.nodes.len(),
                g == graph@,
                forall|id: Seq<char>| #[trigger] position_in(nodes@, id) == find_node(g.nodes, id),
                opt_int(entry) == entry_before(g.nodes, i as int),
                entry matches Some(k) ==> owns_id(g.nodes, k as int),
            decreases graph.nodes.len() - i,
        {
            proof {
                assert(g.nodes[i as int] == graph.nodes@[i as int]@);
                assert(position_in(nodes@, g.nodes[i as int].id) == find_node(
                    g.nodes,
                    g.nodes[i as int].id,
                ));
            }
            if entry.is_none() && str_eq(graph.nodes[i].node_type.as_str(), "request") {
                match nodes.get(graph.nodes[i].id.as_str()) {
                    Some(found) => {
                        if *found == i {
                            entry = Some(i);
                        }
                    },
                    None => {},
                }
            }
            i += 1;
        }
        GraphInterpreter { graph, nodes, edges_from, entry, header_mods: Vec::new(), steps: 0 }
    }

    /// Whether the graph holds a `rateLimit` node, so that an evaluation may
    /// ask for the rate service.
    pub fn has_rate_limit(&self) -> (r: bool)
        ensures
            r == exists|i: int|
                0 <= i < self.graph().nodes.len() && (#[trigger] self.graph().nodes[i]).node_type
                    == "rateLimit"@,
    {
        let ghost nodes = self.graph@.nodes;
        let mut i: usize = 0;
        while i < self.graph.nodes.len()
            invariant
                i <= self.graph.nodes.len(),
                nodes == self.graph@.nodes,
                forall|k: int| 0 <= k < i ==> (#[trigger] nodes[k]).node_type != "rateLimit"@,
            decreases self.graph.nodes.len() - i,
        {
            proof {
                assert(nodes[i as int] == self.graph.nodes@[i as int]@);
            }
            if str_eq(self.graph.nodes[i].node_type.as_str(), "rateLimit") {
                return true;
            }
            i += 1;
        }
        false
    }

    /// The number of nodes that the last evaluation evaluated. It never
    /// exceeds the number of nodes of the graph.
    pub fn steps(&self) -> (r: usize)
        ensures
            r == self.steps_taken(),
    {
        self.steps
    }

    /// The header changes to apply to the request that goes to the backend:
    /// those that the last evaluation noted on its way to a `Route`, in the
    /// order of the nodes it passed. After an evaluation that ended with any
    /// other result, or with a question, there are none.
    pub fn get_header_mods(&self) -> (r: Vec<HeaderMod>)
        ensures
            mods_view(r@) == self.mods(),
    {
        copy_header_mods(&self.header_mods)
    }

    /// Forgets the header changes noted by the last evaluation.
    pub fn clear_header_mods(&mut self)
        ensures
            final(self).graph() == old(self).graph(),
            final(self).mods() == Seq::<HeaderModView>::empty(),
            final(self).steps_taken() == old(self).steps_taken(),
    {
        proof {
            use_type_invariant(&*self);
        }
        self.header_mods = Vec::new();
    }

    fn follow(&self, index: usize, handle: Option<&str>) -> (r: Option<usize>)
        requires
            owns_id(self.graph().nodes, index as int),
        ensures
            opt_int(r) == next_node(
                self.graph(),
                self.graph().nodes[index as int].id,
                opt_str(handle),
            ),
            r matches Some(k) ==> owns_id(self.graph().nodes, k as int),
    {
        proof {
            use_type_invariant(self);
        }
        let ghost g = self.graph@;
        let candidates = &self.edges_from[index];
        let ghost all = as_ints(candidates@);
        let mut k: usize = 0;
        proof {
            assert(all.skip(0) =~= all);
        }
        while k < candidates.len()
            invariant
                k <= candidates.len(),
                g == self.graph@,
                g == self.graph(),
                owns_id(g.nodes, index as int),
                all == as_ints(candidates@),
                all == outgoing(g.edges, g.nodes[index as int].id, g.edges.len() as int),
                forall|id: Seq<char>| #[trigger]
                    position_in(self.nodes@, id) == find_node(g.nodes, id),
                forall|j: int| 0 <= j < candidates@.len() ==> candidates@[j] < g.edges.len(),
                first_leaving(g.edges, all, opt_str(handle)) == first_leaving(
                    g.edges,
                    all.skip(k as int),
                    opt_str(handle),
                ),
            decreases candidates.len() - k,
        {
            let e = candidates[k];
            proof {
                let rest = all.skip(k as int);
                assert(rest[0] == e as int);
                assert(rest.skip(1) =~= all.skip(k + 1));
                assert(g.edges[e as int] == self.graph.edges@[e as int]@);
            }
            if leaves(&self.graph.edges[e], handle) {
                let ghost target = g.edges[e as int].target;
                proof {
                    assert(position_in(self.nodes@, target) == find_node(g.nodes, target));
                    lemma_found_node(g.nodes, target);
                }
                return match self.nodes.get(self.graph.edges[e].target.as_str()) {
                    Some(found) => Some(*found),
                    None => None,
                };
            }
            k += 1;
        }
        None
    }

    fn run(&self, req: &RequestInfo, answers: &Answers) -> (r: (Evaluation, Vec<HeaderMod>, usize))
        ensures
            r.0@ == run_graph(self.graph(), req@, answers@).outcome,
            mods_view(r.1@) == run_graph(self.graph(), req@, answers@).mods,
            r.2 == run_graph(self.graph(), req@, answers@).steps,
            r.2 <= self.graph().nodes.len(),
    {
        proof {
            use_type_invariant(self);
        }
        let ghost g = self.graph@;
        let mut mods: Vec<HeaderMod> = Vec::new();
        let mut node: usize = match self.entry {
            Some(entry) => entry,
            None => {
                proof {
                    assert(mods_view(mods@) =~= Seq::<HeaderModView>::empty());
                }
                return (Evaluation::Done(GraphResult::NoMatch), mods, 0);
            },
        };
        let total: usize = self.graph.nodes.len();
        let mut fuel: usize = total;
        let mut steps: usize = 0;
        proof {
            assert(mods_view(mods@) =~= Seq::<HeaderModView>::empty());
        }
        loop
            invariant
                g == self.graph@,
                g == self.graph(),
                g.nodes.len() == total,
                owns_id(g.nodes, node as int),
                steps + fuel == total,
                run_graph(g, req@, answers@) == run_from(
                    g,
                    req@,
                    answers@,
                    node as int,
                    fuel as nat,
                    mods_view(mods@),
                    steps as nat,
                ),
            decreases fuel,
        {
            if fuel == 0 {
                return (Evaluation::Done(GraphResult::NoMatch), mods, steps);
            }
            proof {
                assert(g.nodes[node as int] == self.graph.nodes@[node as int]@);
            }
            match evaluate_node(&self.graph.nodes[node], node, req, answers) {
                Move::Finish(result) => {
                    return (Evaluation::Done(result), mods, steps + 1);
                },
                Move::Ask(question) => {
                    return (Evaluation::Ask(question), mods, steps + 1);
                },
                Move::Follow { handle, change } => {
                    let ghost before = mods_view(mods@);
                    let ghost noted = (Move::Follow { handle, change }).step()->change;
                    match change {
                        Some(c) => {
                            mods.push(c);
                        },
                        None => {},
                    }
                    proof {
                        assert(mods_view(mods@) =~= with_change(before, noted));
                    }
                    match self.follow(node, handle) {
                        Some(next) => {
                            node = next;
                            fuel -= 1;
                            steps += 1;
                        },
                        None => {
                            return (Evaluation::Done(GraphResult::NoMatch), mods, steps + 1);
                        },
                    }
                },
            }
        }
    }

    /// Evaluates the graph for a request, under the answers that the host has
    /// so far.
    ///
    /// The outcome is the graph's result, or the first question whose answer
    /// is missing. The header changes noted on the way to a `Route` replace
    /// those of the evaluation before; with any other outcome what was noted
    /// is discarded and none are kept. At most as many nodes are evaluated as
    /// the graph has, so an evaluation ends on every graph.
    pub fn evaluate(&mut self, req: &RequestInfo, answers: &Answers) -> (r: Evaluation)
        ensures
            final(self).graph() == old(self).graph(),
            r@ == run_graph(old(self).graph(), req@, answers@).outcome,
            final(self).mods() == kept_mods(run_graph(old(self).graph(), req@, answers@)),
            final(self).steps_taken() == run_graph(old(self).graph(), req@, answers@).steps,
            final(self).steps_taken() <= old(self).graph().nodes.len(),
    {
        proof {
            use_type_invariant(&*self);
        }
        let (outcome, mods, steps) = self.run(req, answers);
        let kept = match &outcome {
            Evaluation::Done(GraphResult::Route(_)) => mods,
            _ => Vec::new(),
        };
        proof {
            if !(outcome@ matches EvaluationView::Done(result) && result is Route) {
                assert(mods_view(kept@) =~= Seq::<HeaderModView>::empty());
            }
        }
        self.header_mods = kept;
        self.steps = steps;
        outcome
    }
}

// ---------------------------------------------------------------------------
// What holds of every evaluation
// ---------------------------------------------------------------------------

/// An evaluation that starts with `fuel` nodes allowed evaluates at most
/// `fuel` more nodes.
pub proof fn lemma_steps_within_fuel(
    g: GraphPayloadView,
    req: RequestInfoView,
    answers: AnswersView,
    node: int,
    fuel: nat,
    mods: Seq<HeaderModView>,
    steps: nat,
)
    ensures
        steps <= run_from(g, req, answers, node, fuel, mods, steps).steps <= steps + fuel,
    decreases fuel,
{
    if fuel > 0 {
        match node_step(g.nodes[node], node, req, answers) {
            Step::Follow { handle, change } => match next_node(g, g.nodes[node].id, handle) {
                Some(next) => {
                    lemma_steps_within_fuel(
                        g,
                        req,
                        answers,
                        next,
                        (fuel - 1) as nat,
                        with_change(mods, change),
                        steps + 1,
                    );
                },
                None => {},
            },
            _ => {},
        }
    }
}

/// Every evaluation ends, on every graph, a cyclic one included: it
/// evaluates at most as many nodes as the graph has.
pub proof fn law_evaluation_is_bounded(
    g: GraphPayloadView,
    req: RequestInfoView,
    answers: AnswersView,
)
    ensures
        run_graph(g, req, answers).steps <= g.nodes.len(),
{
    match entry_node(g.nodes) {
        Some(entry) => {
            lemma_steps_within_fuel(g, req, answers, entry, g.nodes.len(), Seq::empty(), 0);
        },
        None => {},
    }
}

/// Where identifiers are unique, a lookup by a node's identifier finds that
/// node; and so the entry point is the first `request` node.
pub proof fn law_lookup_finds_each_node(nodes: Seq<GraphNodeView>, i: int)
    requires
        unique_ids(nodes),
        0 <= i < nodes.len(),
    ensures
        find_node(nodes, nodes[i].id) == Some(i),
        is_entry(nodes, i) == (nodes[i].node_type == "request"@),
    decreases nodes.len(),
{
    if i < nodes.len() - 1 {
        let front = nodes.drop_last();
        assert(nodes.last() == nodes[nodes.len() - 1]);
        assert(front[i] == nodes[i]);
        assert forall|a: int, b: int| 0 <= a < b < front.len() implies front[a].id
            != front[b].id by {
            assert(front[a] == nodes[a]);
            assert(front[b] == nodes[b]);
        }
        law_lookup_finds_each_node(front, i);
    }
}

/// On a graph without cycles the bound on the number of nodes is idle: an
/// evaluation comes out the same under every bound that is large enough.
///
/// A graph is without cycles where its nodes can be ranked so that every
/// edge that an evaluation may follow leads to a node of lower rank. Then an
/// evaluation from a node needs no more fuel than the node's rank plus one.
pub proof fn law_bound_is_idle_without_cycles(
    g: GraphPayloadView,
    req: RequestInfoView,
    answers: AnswersView,
    rank: spec_fn(int) -> nat,
    node: int,
    fuel: nat,
    more: nat,
    mods: Seq<HeaderModView>,
    steps: nat,
)
    requires
        forall|i: int, handle: Option<Seq<char>>|
            (#[trigger] next_node(g, g.nodes[i].id, handle)) matches Some(j) ==> rank(j) < rank(i),
        rank(node) < fuel,
    ensures
        run_from(g, req, answers, node, fuel + more, mods, steps) == run_from(
            g,
            req,
            answers,
            node,
            fuel,
            mods,
            steps,
        ),
    decreases fuel,
{
    match node_step(g.nodes[node], node, req, answers) {
        Step::Follow { handle, change } => match next_node(g, g.nodes[node].id, handle) {
            Some(next) => {
                law_bound_is_idle_without_cycles(
                    g,
                    req,
                    answers,
                    rank,
                    next,
                    (fuel - 1) as nat,
                    more,
                    with_change(mods, change),
                    steps + 1,
                );
                assert((fuel + more - 1) as nat == (fuel - 1) as nat + more);
            },
            None => {},
        },
        _ => {},
    }
}

/// A rule group without conditions goes on by `match`, whatever its logic.
pub proof fn law_empty_rule_group_matches(
    node: GraphNodeView,
    index: int,
    req: RequestInfoView,
    answers: AnswersView,
)
    requires
        node.node_type == "ruleGroup"@,
        parse_rule_group_node_data(node.data) matches Some(data) && data.conditions.len() == 0,
    ensures
        node_step(node, index, req, answers) == (Step::Follow {
            handle: Some("match"@),
            change: None,
        }),
{
    reveal_strlit("ruleGroup");
    reveal_strlit("request");
    assert(node.node_type.len() == 9);
    assert(node.node_type != "request"@);
}

/// An `action` node whose payload does not fit the schema blocks the request
/// with status 500.
pub proof fn law_malformed_action_blocks(
    g: GraphPayloadView,
    req: RequestInfoView,
    answers: AnswersView,
    node: int,
    fuel: nat,
    mods: Seq<HeaderModView>,
    steps: nat,
)
    requires
        fuel > 0,
        g.nodes[node].node_type == "action"@,
        parse_action_node_data(g.nodes[node].data) is None,
    ensures
        run_from(g, req, answers, node, fuel, mods, steps).outcome == EvaluationView::Done(
            GraphResultView::Block { status_code: 500, message: "Invalid action config"@ },
        ),
{
    reveal_strlit("action");
    reveal_strlit("request");
    reveal_strlit("ruleGroup");
    reveal_strlit("condition");
    let kind = g.nodes[node].node_type;
    assert(kind.len() == 6);
    assert(kind[0] == 'a');
    assert(kind != "request"@);
    assert(kind != "ruleGroup"@);
    assert(kind != "condition"@);
}

/// A `redirect` node whose payload does not fit the schema blocks the request
/// with status 500.
pub proof fn law_malformed_redirect_blocks(
    g: GraphPayloadView,
    req: RequestInfoView,
    answers: AnswersView,
    node: int,
    fuel: nat,
    mods: Seq<HeaderModView>,
    steps: nat,
)
    requires
        fuel > 0,
        g.nodes[node].node_type == "redirect"@,
        parse_redirect_node_data(g.nodes[node].data) is None,
    ensures
        run_from(g, req, answers, node, fuel, mods, steps).outcome == EvaluationView::Done(
            GraphResultView::Block { status_code: 500, message: "Invalid redirect config"@ },
        ),
{
    reveal_strlit("redirect");
    reveal_strlit("request");
    reveal_strlit("ruleGroup");
    reveal_strlit("condition");
    reveal_strlit("action");
    reveal_strlit("backend");
    reveal_strlit("rateLimit");
    reveal_strlit("header");
    let kind = g.nodes[node].node_type;
    assert(kind.len() == 8);
    assert(kind[2] == 'd');
    assert(kind != "request"@);
    assert(kind != "ruleGroup"@);
    assert(kind != "condition"@);
    assert(kind != "action"@);
    assert(kind != "backend"@);
    assert(kind != "rateLimit"@);
    assert(kind != "header"@);
}

/// A rate limit fails open: where the payload of a `rateLimit` node does not
/// fit the schema, or the rate service failed, the evaluation goes on by `ok`.
pub proof fn law_rate_limit_fails_open(
    node: GraphNodeView,
    index: int,
    req: RequestInfoView,
    answers: AnswersView,
)
    requires
        node.node_type == "rateLimit"@,
        parse_rate_limit_node_data(node.data) is None || find_rate(answers.rates, index as usize)
            == Some(RateReply::Failed),
    ensures
        node_step(node, index, req, answers) == (Step::Follow {
            handle: Some("ok"@),
            change: None,
        }),
{
    reveal_strlit("rateLimit");
    reveal_strlit("request");
    reveal_strlit("ruleGroup");
    reveal_strlit("condition");
    reveal_strlit("action");
    reveal_strlit("backend");
    let kind = node.node_type;
    assert(kind.len() == 9);
    assert(kind[1] == 'a');
    assert(kind != "request"@);
    assert("ruleGroup"@[1] == 'u');
    assert(kind != "ruleGroup"@);
    assert("condition"@[1] == 'o');
    assert(kind != "condition"@);
    assert(kind != "action"@);
    assert(kind != "backend"@);
}

/// A path that cannot go on ends without a decision: where no edge leaves
/// the node by the port asked for, or where the edge to follow leads to a
/// node that the graph does not hold, the result is `NoMatch`.
pub proof fn law_dead_end_is_no_match(
    g: GraphPayloadView,
    req: RequestInfoView,
    answers: AnswersView,
    node: int,
    fuel: nat,
    mods: Seq<HeaderModView>,
    steps: nat,
)
    requires
        fuel > 0,
        node_step(g.nodes[node], node, req, answers) is Follow,
        ({
            let handle = node_step(g.nodes[node], node, req, answers)->handle;
            match edge_to_follow(g, g.nodes[node].id, handle) {
                Some(e) => find_node(g.nodes, g.edges[e].target) is None,
                None => true,
            }
        }),
    ensures
        run_from(g, req, answers, node, fuel, mods, steps).outcome == EvaluationView::Done(
            GraphResultView::NoMatch,
        ),
{
}

/// Header changes are kept in the order of the nodes passed: what an
/// evaluation has noted so far stays, in its order, at the front of what it
/// has noted in the end.
pub proof fn law_header_mods_in_traversal_order(
    g: GraphPayloadView,
    req: RequestInfoView,
    answers: AnswersView,
    node: int,
    fuel: nat,
    mods: Seq<HeaderModView>,
    steps: nat,
)
    ensures
        mods.is_prefix_of(run_from(g, req, answers, node, fuel, mods, steps).mods),
    decreases fuel,
{
    if fuel > 0 {
        match node_step(g.nodes[node], node, req, answers) {
            Step::Follow { handle, change } => {
                let noted = with_change(mods, change);
                assert(mods.is_prefix_of(noted));
                match next_node(g, g.nodes[node].id, handle) {
                    Some(next) => {
                        law_header_mods_in_traversal_order(
                            g,
                            req,
                            answers,
                            next,
                            (fuel - 1) as nat,
                            noted,
                            steps + 1,
                        );
                    },
                    None => {},
                }
            },
            _ => {},
        }
    }
}

/// Header changes reach the outgoing request only on the way to a backend:
/// for a result that is no `Route` none is applied, and for a `Route` all
/// are, in their order.
pub proof fn law_header_mods_only_for_route(result: GraphResultView, mods: Seq<HeaderModView>)
    ensures
        result is Route ==> applied_mods(result, mods) == mods,
        !(result is Route) ==> applied_mods(result, mods).len() == 0,
{
}

/// Of an evaluation that did not end with a `Route` no header change is
/// kept; of one that did, all are kept, in the order they were noted.
pub proof fn law_header_mods_discarded_unless_routed(run: Run)
    ensures
        (run.outcome matches EvaluationView::Done(result) && result is Route) ==> kept_mods(run)
            == run.mods,
        !(run.outcome matches EvaluationView::Done(result) && result is Route) ==> kept_mods(
            run,
        ).len() == 0,
{
}

/// The first question of a group's conditions is one that the answers do not
/// hold.
proof fn lemma_first_need_is_open(
    conditions: Seq<RuleGroupConditionView>,
    req: RequestInfoView,
    answers: AnswersView,
)
    ensures
        first_need(conditions, req, answers) matches Some(q) ==> !answered(answers, q),
    decreases conditions.len(),
{
    if conditions.len() > 0 {
        lemma_first_need_is_open(conditions.skip(1), req, answers);
    }
}

/// An evaluation never asks what it was told: the question it stops with is
/// one that the answers do not hold. So each round of question and answer
/// adds to the answers, and the host's rounds come to an end.
pub proof fn law_question_is_open(
    g: GraphPayloadView,
    req: RequestInfoView,
    answers: AnswersView,
    node: int,
    fuel: nat,
    mods: Seq<HeaderModView>,
    steps: nat,
)
    ensures
        run_from(g, req, answers, node, fuel, mods, steps).outcome matches EvaluationView::Ask(q)
            ==> !answered(answers, q),
    decreases fuel,
{
    if fuel > 0 {
        let n = g.nodes[node];
        match node_step(n, node, req, answers) {
            Step::Follow { handle, change } => match next_node(g, n.id, handle) {
                Some(next) => {
                    law_question_is_open(
                        g,
                        req,
                        answers,
                        next,
                        (fuel - 1) as nat,
                        with_change(mods, change),
                        steps + 1,
                    );
                },
                None => {},
            },
            Step::Ask(q) => {
                if n.node_type != "request"@ && n.node_type == "ruleGroup"@ {
                    lemma_first_need_is_open(
                        parse_rule_group_node_data(n.data)->0.conditions,
                        req,
                        answers,
                    );
                }
            },
            Step::Finish(_) => {},
        }
    }
}

/// The question that an evaluation of a graph stops with is one that the
/// answers do not hold.
pub proof fn law_asked_question_is_open(
    g: GraphPayloadView,
    req: RequestInfoView,
    answers: AnswersView,
)
    ensures
        run_graph(g, req, answers).outcome matches EvaluationView::Ask(q) ==> !answered(answers, q),
{
    match entry_node(g.nodes) {
        Some(entry) => {
            law_question_is_open(g, req, answers, entry, g.nodes.len(), Seq::empty(), 0);
        },
        None => {},
    }
}

} // verus!
