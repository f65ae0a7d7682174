use std::collections::HashMap;

use vce_rules::condition::{
    classify_logic, combine_results, evaluate_condition, evaluate_rule_group, logic_from_upper,
    test_condition, Logic, NumericOrder,
};
use vce_rules::interp::{
    Answers, Comparison, Evaluation, GraphInterpreter, GraphResult, HeaderMod, Question, RateAnswer,
};
use vce_rules::loader::json_from_text;
use vce_rules::rate_limit::{
    get_rate_limit_key, is_exceeded, plan_rate_check, RateCheck, RateReply, RateWindow,
};
use vce_rules::request::{
    get_field_value, DeviceInfo, GeoInfo, HeaderEntry, RequestInfo, UtcOffset,
};
use vce_rules::text::split_trimmed;
use vce_rules::types::{ConditionNodeData, GraphPayload, RateLimitNodeData};

// ---------------------------------------------------------------------------
// A host that answers the evaluation's questions
// ---------------------------------------------------------------------------

struct Host {
    geo: Option<GeoInfo>,
    device: Option<DeviceInfo>,
    counters: HashMap<String, u32>,
    rate_service_down: bool,
    geo_lookups: u32,
    device_lookups: u32,
    rate_calls: Vec<RateCheck>,
}

fn host() -> Host {
    Host {
        geo: None,
        device: None,
        counters: HashMap::new(),
        rate_service_down: false,
        geo_lookups: 0,
        device_lookups: 0,
        rate_calls: Vec::new(),
    }
}

fn compare_numbers(left: &str, right: &str) -> NumericOrder {
    match (left.parse::<f64>(), right.parse::<f64>()) {
        (Ok(a), Ok(b)) => {
            if a < b {
                NumericOrder::Less
            } else if a > b {
                NumericOrder::Greater
            } else if a == b {
                NumericOrder::Equal
            } else {
                NumericOrder::Unordered
            }
        }
        _ => NumericOrder::Unordered,
    }
}

impl Host {
    fn check_rate(&mut self, check: &RateCheck) -> RateReply {
        self.rate_calls.push(check.clone());
        if self.rate_service_down {
            return RateReply::Failed;
        }
        let count = self.counters.entry(check.key.clone()).or_insert(0);
        *count += check.delta;
        if *count > check.limit {
            RateReply::Exceeded
        } else {
            RateReply::Within
        }
    }

    fn evaluate(&mut self, interpreter: &mut GraphInterpreter, req: &RequestInfo) -> GraphResult {
        let mut answers = Answers::new();
        loop {
            match interpreter.evaluate(req, &answers) {
                Evaluation::Done(result) => return result,
                Evaluation::Ask(Question::Geo) => {
                    assert!(answers.geo.is_none(), "asked twice for the geolocation");
                    self.geo_lookups += 1;
                    answers.geo = Some(self.geo.clone());
                }
                Evaluation::Ask(Question::Device) => {
                    assert!(answers.device.is_none(), "asked twice for the device");
                    self.device_lookups += 1;
                    answers.device = Some(self.device.clone());
                }
                Evaluation::Ask(Question::Compare { left, right }) => {
                    let order = compare_numbers(&left, &right);
                    answers.comparisons.push(Comparison { left, right, order });
                }
                Evaluation::Ask(Question::Rate { node, check }) => {
                    assert!(answers.rates.iter().all(|a| a.node != node), "asked twice for one rate limit");
                    let reply = self.check_rate(&check);
                    answers.rates.push(RateAnswer { node, reply });
                }
            }
        }
    }
}

fn graph(text: &str) -> GraphPayload {
    GraphPayload::from_json(&json_from_text(text).unwrap()).unwrap()
}

fn request(path: &str, headers: &[(&str, &str)]) -> RequestInfo {
    RequestInfo {
        method: "GET".to_string(),
        path: path.to_string(),
        url: format!("https://www.example.com{}", path),
        headers: headers
            .iter()
            .map(|(n, v)| HeaderEntry { name: n.to_string(), value: v.to_string() })
            .collect(),
        client_ip: None,
        ddos_detected: None,
        pop: None,
    }
}

fn run(graph_text: &str, req: &RequestInfo) -> (GraphResult, Vec<HeaderMod>) {
    let g = graph(graph_text);
    let mut interpreter = GraphInterpreter::new(&g);
    let result = host().evaluate(&mut interpreter, req);
    let mods = interpreter.get_header_mods();
    (result, mods)
}

fn condition(operator: &str, value: &str) -> ConditionNodeData {
    ConditionNodeData {
        field: "path".to_string(),
        operator: operator.to_string(),
        value: value.to_string(),
        header_name: None,
    }
}

fn holds(operator: &str, value: &str, field: Option<&str>) -> bool {
    let order = compare_numbers(field.unwrap_or(""), value);
    evaluate_condition(&condition(operator, value), field, order)
}

fn geo() -> GeoInfo {
    GeoInfo {
        as_number: "64496".to_string(),
        country_code: "DE".to_string(),
        country_code3: "DEU".to_string(),
        continent: "EU".to_string(),
        city: "berlin".to_string(),
        region: Some("BE".to_string()),
        postal_code: "10115".to_string(),
        latitude: "52.52".to_string(),
        longitude: "13.405".to_string(),
        metro_code: "0".to_string(),
        utc_offset: Some(UtcOffset { hours: 1, minutes: 0 }),
        conn_speed: "Broadband".to_string(),
        conn_type: "Wired".to_string(),
        proxy_type: "Hosting".to_string(),
        proxy_description: "CloudHosting".to_string(),
    }
}

fn device() -> DeviceInfo {
    DeviceInfo {
        is_bot: Some(true),
        is_mobile: Some(false),
        is_tablet: None,
        is_desktop: Some(true),
        is_smarttv: None,
        is_gameconsole: None,
        device_name: Some("Googlebot".to_string()),
        brand: None,
        model: None,
        user_agent_name: Some("Chrome".to_string()),
        user_agent_major_version: Some("120".to_string()),
        user_agent_minor_version: None,
        os_name: Some("Linux".to_string()),
        os_major_version: Some("6".to_string()),
        os_minor_version: Some("1".to_string()),
    }
}

const ADMIN_GRAPH: &str = r#"{
    "nodes": [
        {"id": "1", "type": "request", "position": {"x": 0, "y": 0}, "data": {}},
        {"id": "2", "type": "condition", "position": {"x": 1, "y": 0},
         "data": {"field": "path", "operator": "startsWith", "value": "/admin"}},
        {"id": "3", "type": "action", "position": {"x": 2, "y": 0},
         "data": {"action": "block", "statusCode": 401, "message": "Admins only"}},
        {"id": "4", "type": "backend", "position": {"x": 2, "y": 1},
         "data": {"name": "origin", "host": "origin.example.com"}}
    ],
    "edges": [
        {"id": "e1", "source": "1", "target": "2"},
        {"id": "e2", "source": "2", "sourceHandle": "true", "target": "3"},
        {"id": "e3", "source": "2", "sourceHandle": "false", "target": "4"}
    ]
}"#;

// ---------------------------------------------------------------------------
// Traversal
// ---------------------------------------------------------------------------

#[test]
fn condition_node_branches_on_true_and_false() {
    let (result, _) = run(ADMIN_GRAPH, &request("/admin/users", &[]));
    assert_eq!(result, GraphResult::Block { status_code: 401, message: "Admins only".to_string() });
    let (result, _) = run(ADMIN_GRAPH, &request("/public", &[]));
    match result {
        GraphResult::Route(backend) => {
            assert_eq!(backend.name, "origin");
            assert_eq!(backend.host, "origin.example.com");
        }
        other => panic!("unexpected: {:?}", other),
    }
}

#[test]
fn cyclic_graph_ends_within_the_depth_bound() {
    let text = r#"{
        "nodes": [
            {"id": "r", "type": "request", "position": {"x": 0, "y": 0}, "data": {}},
            {"id": "a", "type": "header", "position": {"x": 0, "y": 0},
             "data": {"operation": "set", "name": "X-A", "value": "1"}},
            {"id": "b", "type": "header", "position": {"x": 0, "y": 0},
             "data": {"operation": "set", "name": "X-B", "value": "2"}}
        ],
        "edges": [
            {"id": "e1", "source": "r", "target": "a"},
            {"id": "e2", "source": "a", "sourceHandle": "next", "target": "b"},
            {"id": "e3", "source": "b", "sourceHandle": "next", "target": "a"}
        ]
    }"#;
    let g = graph(text);
    let mut interpreter = GraphInterpreter::new(&g);
    let result = host().evaluate(&mut interpreter, &request("/", &[]));
    assert_eq!(result, GraphResult::NoMatch);
    assert_eq!(interpreter.steps(), 3);
    assert!(interpreter.steps() <= g.nodes.len());
}

#[test]
fn graph_without_request_node_gives_no_match() {
    let text = r#"{"nodes": [{"id": "4", "type": "backend", "position": {"x": 0, "y": 0},
        "data": {"name": "origin", "host": "example.com"}}], "edges": []}"#;
    let g = graph(text);
    let mut interpreter = GraphInterpreter::new(&g);
    assert_eq!(host().evaluate(&mut interpreter, &request("/", &[])), GraphResult::NoMatch);
    assert_eq!(interpreter.steps(), 0);
}

#[test]
fn dangling_edge_target_gives_no_match() {
    let text = r#"{
        "nodes": [{"id": "1", "type": "request", "position": {"x": 0, "y": 0}, "data": {}}],
        "edges": [{"id": "e1", "source": "1", "target": "missing"}]
    }"#;
    let (result, _) = run(text, &request("/", &[]));
    assert_eq!(result, GraphResult::NoMatch);
}

#[test]
fn missing_handle_gives_no_match() {
    // the condition is false and only a `true` edge leaves it
    let text = r#"{
        "nodes": [
            {"id": "1", "type": "request", "position": {"x": 0, "y": 0}, "data": {}},
            {"id": "2", "type": "condition", "position": {"x": 0, "y": 0},
             "data": {"field": "path", "operator": "equals", "value": "/x"}},
            {"id": "3", "type": "action", "position": {"x": 0, "y": 0}, "data": {"action": "allow"}}
        ],
        "edges": [
            {"id": "e1", "source": "1", "target": "2"},
            {"id": "e2", "source": "2", "sourceHandle": "true", "target": "3"}
        ]
    }"#;
    assert_eq!(run(text, &request("/y", &[])).0, GraphResult::NoMatch);
    assert_eq!(run(text, &request("/x", &[])).0, GraphResult::Allow);
}

#[test]
fn first_declared_edge_wins() {
    let text = r#"{
        "nodes": [
            {"id": "1", "type": "request", "position": {"x": 0, "y": 0}, "data": {}},
            {"id": "a", "type": "action", "position": {"x": 0, "y": 0}, "data": {"action": "allow"}},
            {"id": "b", "type": "action", "position": {"x": 0, "y": 0}, "data": {"action": "block"}}
        ],
        "edges": [
            {"id": "e1", "source": "1", "sourceHandle": "request", "target": "b"},
            {"id": "e2", "source": "1", "sourceHandle": "request", "target": "a"}
        ]
    }"#;
    assert_eq!(
        run(text, &request("/", &[])).0,
        GraphResult::Block { status_code: 403, message: "Blocked".to_string() }
    );
}

#[test]
fn last_node_of_an_identifier_is_the_one_found() {
    let text = r#"{
        "nodes": [
            {"id": "1", "type": "request", "position": {"x": 0, "y": 0}, "data": {}},
            {"id": "t", "type": "action", "position": {"x": 0, "y": 0}, "data": {"action": "allow"}},
            {"id": "t", "type": "action", "position": {"x": 0, "y": 0},
             "data": {"action": "block", "statusCode": 418, "message": "second"}}
        ],
        "edges": [{"id": "e1", "source": "1", "target": "t"}]
    }"#;
    assert_eq!(
        run(text, &request("/", &[])).0,
        GraphResult::Block { status_code: 418, message: "second".to_string() }
    );
}

#[test]
fn edge_from_an_unknown_node_is_ignored() {
    let text = r#"{
        "nodes": [
            {"id": "1", "type": "request", "position": {"x": 0, "y": 0}, "data": {}},
            {"id": "2", "type": "action", "position": {"x": 0, "y": 0}, "data": {"action": "allow"}}
        ],
        "edges": [
            {"id": "e0", "source": "nowhere", "target": "2"},
            {"id": "e1", "source": "1", "target": "2"},
            {"id": "e2", "source": "2", "target": "nowhere"}
        ]
    }"#;
    let g = graph(text);
    let mut interpreter = GraphInterpreter::new(&g);
    assert_eq!(host().evaluate(&mut interpreter, &request("/", &[])), GraphResult::Allow);
    assert_eq!(interpreter.steps(), 2);
}

#[test]
fn unknown_kind_is_passed_through() {
    let text = r#"{
        "nodes": [
            {"id": "1", "type": "request", "position": {"x": 0, "y": 0}, "data": {}},
            {"id": "2", "type": "cache", "position": {"x": 0, "y": 0}, "data": {"mode": "pass"}},
            {"id": "3", "type": "action", "position": {"x": 0, "y": 0}, "data": {"action": "allow"}}
        ],
        "edges": [
            {"id": "e1", "source": "1", "target": "2"},
            {"id": "e2", "source": "2", "sourceHandle": "next", "target": "3"}
        ]
    }"#;
    assert_eq!(run(text, &request("/", &[])).0, GraphResult::Allow);
}

fn single_node_graph(kind: &str, data: &str) -> String {
    format!(
        r#"{{
        "nodes": [
            {{"id": "1", "type": "request", "position": {{"x": 0, "y": 0}}, "data": {{}}}},
            {{"id": "2", "type": "{}", "position": {{"x": 0, "y": 0}}, "data": {}}},
            {{"id": "ok", "type": "action", "position": {{"x": 0, "y": 0}}, "data": {{"action": "allow"}}}},
            {{"id": "no", "type": "action", "position": {{"x": 0, "y": 0}},
              "data": {{"action": "block", "statusCode": 429, "message": "Slow down"}}}}
        ],
        "edges": [
            {{"id": "e1", "source": "1", "target": "2"}},
            {{"id": "e2", "source": "2", "sourceHandle": "exceeded", "target": "no"}},
            {{"id": "e3", "source": "2", "sourceHandle": "noMatch", "target": "no"}},
            {{"id": "e4", "source": "2", "sourceHandle": "false", "target": "no"}},
            {{"id": "e5", "source": "2", "sourceHandle": "ok", "target": "ok"}},
            {{"id": "e6", "source": "2", "sourceHandle": "match", "target": "ok"}},
            {{"id": "e7", "source": "2", "sourceHandle": "true", "target": "ok"}},
            {{"id": "e8", "source": "2", "sourceHandle": "next", "target": "ok"}}
        ]
    }}"#,
        kind, data
    )
}

fn slow_down() -> GraphResult {
    GraphResult::Block { status_code: 429, message: "Slow down".to_string() }
}

#[test]
fn malformed_action_blocks_with_500() {
    let text = single_node_graph("action", r#"{"statusCode": 403}"#);
    assert_eq!(
        run(&text, &request("/", &[])).0,
        GraphResult::Block { status_code: 500, message: "Invalid action config".to_string() }
    );
    let text = single_node_graph("action", r#"{"action": "block", "statusCode": "403"}"#);
    assert_eq!(
        run(&text, &request("/", &[])).0,
        GraphResult::Block { status_code: 500, message: "Invalid action config".to_string() }
    );
}

#[test]
fn malformed_redirect_blocks_with_500() {
    let text = single_node_graph("redirect", r#"{"statusCode": 301}"#);
    assert_eq!(
        run(&text, &request("/", &[])).0,
        GraphResult::Block { status_code: 500, message: "Invalid redirect config".to_string() }
    );
}

#[test]
fn malformed_rate_limit_fails_open() {
    let text = single_node_graph("rateLimit", r#"{"limit": -1, "windowUnit": "second", "keyBy": "ip"}"#);
    assert_eq!(run(&text, &request("/", &[])).0, GraphResult::Allow);
}

#[test]
fn malformed_header_node_is_passed_through() {
    // without its payload the node goes on by the first edge, whatever its port
    let text = single_node_graph("header", r#"{"operation": "set"}"#);
    let (result, mods) = run(&text, &request("/", &[]));
    assert_eq!(result, slow_down());
    assert!(mods.is_empty());
}

#[test]
fn malformed_condition_rule_group_and_backend_are_passed_through() {
    // without its payload a node goes on by the first edge, whatever its port
    for kind in ["condition", "ruleGroup", "backend"] {
        let text = single_node_graph(kind, r#"{"unexpected": true}"#);
        assert_eq!(run(&text, &request("/", &[])).0, slow_down(), "{}", kind);
    }
    // a malformed node that no edge leaves ends the path
    let text = r#"{
        "nodes": [
            {"id": "1", "type": "request", "position": {"x": 0, "y": 0}, "data": {}},
            {"id": "2", "type": "backend", "position": {"x": 0, "y": 0}, "data": {"name": "origin"}}
        ],
        "edges": [{"id": "e1", "source": "1", "target": "2"}]
    }"#;
    assert_eq!(run(text, &request("/", &[])).0, GraphResult::NoMatch);
}

#[test]
fn action_node_results() {
    let allow = single_node_graph("action", r#"{"action": "allow"}"#);
    assert_eq!(run(&allow, &request("/", &[])).0, GraphResult::Allow);
    let block = single_node_graph("action", r#"{"action": "block"}"#);
    assert_eq!(
        run(&block, &request("/", &[])).0,
        GraphResult::Block { status_code: 403, message: "Blocked".to_string() }
    );
    let other = single_node_graph("action", r#"{"action": "challenge", "statusCode": 418, "message": "tea"}"#);
    assert_eq!(
        run(&other, &request("/", &[])).0,
        GraphResult::Block { status_code: 418, message: "tea".to_string() }
    );
    let redirect = single_node_graph("action", r#"{"action": "redirect"}"#);
    assert_eq!(
        run(&redirect, &request("/", &[])).0,
        GraphResult::Redirect { url: "/".to_string(), status_code: 302, preserve_query: true }
    );
    let redirect = single_node_graph(
        "action",
        r#"{"action": "redirect", "url": "https://b.example/", "statusCode": 308, "preserveQuery": false}"#,
    );
    assert_eq!(
        run(&redirect, &request("/", &[])).0,
        GraphResult::Redirect { url: "https://b.example/".to_string(), status_code: 308, preserve_query: false }
    );
}

#[test]
fn redirect_node_result() {
    let text = single_node_graph("redirect", r#"{"url": "/moved"}"#);
    assert_eq!(
        run(&text, &request("/", &[])).0,
        GraphResult::Redirect { url: "/moved".to_string(), status_code: 302, preserve_query: true }
    );
}

// ---------------------------------------------------------------------------
// Header changes
// ---------------------------------------------------------------------------

fn header_graph(terminal: &str) -> String {
    format!(
        r#"{{
        "nodes": [
            {{"id": "r", "type": "request", "position": {{"x": 0, "y": 0}}, "data": {{}}}},
            {{"id": "h1", "type": "header", "position": {{"x": 0, "y": 0}},
              "data": {{"operation": "set", "name": "X-Request-ID", "value": "abc123"}}}},
            {{"id": "h2", "type": "header", "position": {{"x": 0, "y": 0}},
              "data": {{"operation": "append", "name": "X-Forwarded-For", "value": "192.168.1.1"}}}},
            {{"id": "h3", "type": "header", "position": {{"x": 0, "y": 0}},
              "data": {{"operation": "remove", "name": "X-Debug"}}}},
            {{"id": "h4", "type": "header", "position": {{"x": 0, "y": 0}},
              "data": {{"operation": "rename", "name": "X-Other"}}}},
            {{"id": "h5", "type": "header", "position": {{"x": 0, "y": 0}},
              "data": {{"operation": "set", "name": "X-Empty"}}}},
            {{"id": "t", {}}}
        ],
        "edges": [
            {{"id": "e0", "source": "r", "target": "h1"}},
            {{"id": "e1", "source": "h1", "sourceHandle": "next", "target": "h2"}},
            {{"id": "e2", "source": "h2", "sourceHandle": "next", "target": "h3"}},
            {{"id": "e3", "source": "h3", "sourceHandle": "next", "target": "h4"}},
            {{"id": "e4", "source": "h4", "sourceHandle": "next", "target": "h5"}},
            {{"id": "e5", "source": "h5", "sourceHandle": "next", "target": "t"}}
        ]
    }}"#,
        terminal
    )
}

fn expected_mods() -> Vec<HeaderMod> {
    vec![
        HeaderMod::SetValue { name: "X-Request-ID".to_string(), value: "abc123".to_string() },
        HeaderMod::Append { name: "X-Forwarded-For".to_string(), value: "192.168.1.1".to_string() },
        HeaderMod::Remove { name: "X-Debug".to_string() },
        HeaderMod::SetValue { name: "X-Empty".to_string(), value: "".to_string() },
    ]
}

#[test]
fn header_mods_are_kept_in_traversal_order_for_a_route() {
    let text = header_graph(
        r#""type": "backend", "position": {"x": 0, "y": 0}, "data": {"name": "origin", "host": "example.com"}"#,
    );
    let g = graph(&text);
    let mut interpreter = GraphInterpreter::new(&g);
    let result = host().evaluate(&mut interpreter, &request("/", &[]));
    assert!(matches!(result, GraphResult::Route(_)));
    assert_eq!(interpreter.get_header_mods(), expected_mods());
    interpreter.clear_header_mods();
    assert!(interpreter.get_header_mods().is_empty());
}

#[test]
fn header_mods_are_not_applied_for_other_results() {
    for terminal in [
        r#""type": "action", "position": {"x": 0, "y": 0}, "data": {"action": "block"}"#,
        r#""type": "action", "position": {"x": 0, "y": 0}, "data": {"action": "allow"}"#,
        r#""type": "redirect", "position": {"x": 0, "y": 0}, "data": {"url": "/x"}"#,
        r#""type": "header", "position": {"x": 0, "y": 0}, "data": {"operation": "remove", "name": "X"}"#,
    ] {
        let text = header_graph(terminal);
        let g = graph(&text);
        let mut interpreter = GraphInterpreter::new(&g);
        let result = host().evaluate(&mut interpreter, &request("/", &[]));
        assert!(!matches!(result, GraphResult::Route(_)));
        assert!(interpreter.get_header_mods().is_empty());
    }
}

#[test]
fn header_mods_are_discarded_with_any_other_outcome() {
    let text = r#"{
        "nodes": [
            {"id": "r", "type": "request", "position": {"x": 0, "y": 0}, "data": {}},
            {"id": "h", "type": "header", "position": {"x": 0, "y": 0},
             "data": {"operation": "set", "name": "X-Seen", "value": "1"}},
            {"id": "c", "type": "condition", "position": {"x": 0, "y": 0},
             "data": {"field": "country", "operator": "equals", "value": "DE"}},
            {"id": "b", "type": "backend", "position": {"x": 0, "y": 0},
             "data": {"name": "origin", "host": "example.com"}},
            {"id": "x", "type": "action", "position": {"x": 0, "y": 0}, "data": {"action": "block"}}
        ],
        "edges": [
            {"id": "e1", "source": "r", "target": "h"},
            {"id": "e2", "source": "h", "sourceHandle": "next", "target": "c"},
            {"id": "e3", "source": "c", "sourceHandle": "true", "target": "b"},
            {"id": "e4", "source": "c", "sourceHandle": "false", "target": "x"}
        ]
    }"#;
    let g = graph(text);
    let mut interpreter = GraphInterpreter::new(&g);
    let req = request("/", &[]);
    let seen = vec![HeaderMod::SetValue { name: "X-Seen".to_string(), value: "1".to_string() }];

    let mut answers = Answers::new();
    answers.geo = Some(Some(geo()));
    assert!(matches!(interpreter.evaluate(&req, &answers), Evaluation::Done(GraphResult::Route(_))));
    assert_eq!(interpreter.get_header_mods(), seen);

    // an evaluation that stops with a question keeps none
    assert_eq!(interpreter.evaluate(&req, &Answers::new()), Evaluation::Ask(Question::Geo));
    assert!(interpreter.get_header_mods().is_empty());

    // nor does one that blocks, though it passed the header node
    assert!(matches!(interpreter.evaluate(&req, &answers), Evaluation::Done(GraphResult::Route(_))));
    answers.geo = Some(None);
    assert!(matches!(interpreter.evaluate(&req, &answers), Evaluation::Done(GraphResult::Block { .. })));
    assert!(interpreter.get_header_mods().is_empty());
}

#[test]
fn each_evaluation_notes_its_own_header_mods() {
    let text = header_graph(
        r#""type": "backend", "position": {"x": 0, "y": 0}, "data": {"name": "origin", "host": "example.com"}"#,
    );
    let g = graph(&text);
    let mut interpreter = GraphInterpreter::new(&g);
    let first = host().evaluate(&mut interpreter, &request("/", &[]));
    let first_mods = interpreter.get_header_mods();
    let second = host().evaluate(&mut interpreter, &request("/", &[]));
    assert_eq!(first, second);
    assert_eq!(first_mods, interpreter.get_header_mods());
    assert_eq!(first_mods.len(), 4);
}

// ---------------------------------------------------------------------------
// Conditions
// ---------------------------------------------------------------------------

#[test]
fn starts_with_on_the_path() {
    assert!(holds("startsWith", "/admin", Some("/admin/users")));
    assert!(!holds("startsWith", "/admin", Some("/public")));
    assert!(holds("starts", "/admin", Some("/admin")));
    assert!(holds("startsWith", "", Some("/x")));
}

#[test]
fn operator_table() {
    assert!(holds("equals", "/a", Some("/a")));
    assert!(!holds("equals", "/a", Some("/A")));
    assert!(holds("notEquals", "/a", Some("/b")));
    assert!(holds("!=", "/a", Some("/b")));
    assert!(!holds("notEquals", "/a", Some("/a")));
    assert!(holds("endsWith", ".php", Some("/index.php")));
    assert!(holds("ends", ".php", Some("/index.php")));
    assert!(!holds("endsWith", ".php", Some("/index.html")));
    assert!(holds("contains", "/api/", Some("/v1/api/users")));
    assert!(!holds("contains", "/api/", Some("/v1/users")));
    assert!(holds("notContains", "/api/", Some("/v1/users")));
    assert!(!holds("notContains", "/api/", Some("/v1/api/users")));
    assert!(holds("contains", "", Some("")));
    assert!(!holds("frobnicate", "/a", Some("/a")));
}

#[test]
fn missing_value_counts_as_empty() {
    assert!(holds("equals", "", None));
    assert!(!holds("equals", "x", None));
    assert!(holds("notEquals", "x", None));
    assert!(holds("notContains", "x", None));
    assert!(holds("in", "a, ,b", None));
}

#[test]
fn exists_and_not_exists() {
    assert!(holds("exists", "", Some("x")));
    assert!(!holds("exists", "", Some("")));
    assert!(!holds("exists", "", None));
    assert!(holds("notExists", "", None));
    assert!(holds("notExists", "", Some("")));
    assert!(!holds("notExists", "", Some("x")));
}

#[test]
fn in_and_not_in_trim_the_members() {
    assert!(holds("in", "US, CA ,GB", Some("CA")));
    assert!(holds("in", "US, CA ,GB", Some("GB")));
    assert!(!holds("in", "US, CA ,GB", Some(" CA")));
    assert!(!holds("in", "US,CA,GB", Some("DE")));
    assert!(holds("notIn", "US,CA,GB", Some("DE")));
    assert!(holds("!in", "US,CA,GB", Some("DE")));
    assert!(!holds("notIn", "US,CA,GB", Some("US")));
    assert!(holds("in", "", Some("")));
}

fn listed_as_whitespace(code: u32) -> bool {
    matches!(
        code,
        0x0009..=0x000d
            | 0x0020
            | 0x0085
            | 0x00a0
            | 0x1680
            | 0x2000..=0x200a
            | 0x2028
            | 0x2029
            | 0x202f
            | 0x205f
            | 0x3000
    )
}

#[test]
fn trimming_takes_off_exactly_the_whitespace_characters() {
    // every character there is, on both sides of one that is no whitespace
    for code in 0..=0x10ffffu32 {
        let c = match char::from_u32(code) {
            Some(c) if c != ',' => c,
            _ => continue,
        };
        let text = vec![c, 'x', c];
        let parts = split_trimmed(&text, ',');
        let trimmed = parts == vec![(1, 2)];
        assert_eq!(trimmed, listed_as_whitespace(code), "U+{:04X}", code);
    }
    assert!(holds("in", "a,\u{2003}b\u{3000}\t,c", Some("b")));
    assert!(!holds("in", "a,\u{200b}b,c", Some("b")));
    assert!(!holds("in", "a,\u{feff}b,c", Some("b")));
    assert!(!holds("in", "a,\u{180e}b,c", Some("b")));
}

#[test]
fn split_trimmed_gives_the_bounds_of_each_part() {
    let text: Vec<char> = " a , ,b b,".chars().collect();
    assert_eq!(split_trimmed(&text, ','), vec![(1, 2), (5, 5), (6, 9), (10, 10)]);
    assert_eq!(split_trimmed(&Vec::new(), ','), vec![(0, 0)]);
}

#[test]
fn matches_uses_regular_expressions() {
    assert!(holds("matches", r"^/api/v\d+/", Some("/api/v2/users")));
    assert!(!holds("matches", r"^/api/v\d+/", Some("/api/vx/users")));
    assert!(holds("matches", "bot", Some("Googlebot/2.1")));
    // an invalid expression matches nothing
    assert!(!holds("matches", "foo(bar", Some("foo(bar")));
}

#[test]
fn in_cidr_matches_addresses_in_the_networks() {
    let list = "10.0.0.0/8,192.168.0.0/16";
    assert!(holds("inCidr", list, Some("10.1.2.3")));
    assert!(!holds("inCidr", list, Some("8.8.8.8")));
    assert!(holds("inCidr", list, Some("192.168.255.255")));
    assert!(!holds("inCidr", list, Some("192.169.0.0")));
    assert!(holds("inCidr", " 10.0.0.0/8 , bogus", Some("10.255.255.255")));
    assert!(!holds("inCidr", list, Some("not an address")));
    assert!(!holds("inCidr", list, None));
    assert!(!holds("inCidr", list, Some("::1")));
    assert!(holds("inCidr", "fd00::/8", Some("fd12:3456::1")));
    assert!(!holds("inCidr", "fd00::/8", Some("fe80::1")));
    assert!(holds("inCidr", "0.0.0.0/0", Some("203.0.113.9")));
    assert!(holds("inCidr", "203.0.113.9/32", Some("203.0.113.9")));
    assert!(!holds("inCidr", "203.0.113.9/32", Some("203.0.113.8")));
    // the host bits of the network's address do not matter
    assert!(holds("inCidr", "172.16.123.123/16", Some("172.16.0.1")));
}

#[test]
fn numeric_comparisons() {
    assert!(holds("greaterThan", "100", Some("250")));
    assert!(holds(">", "100", Some("1e3")));
    assert!(!holds("greaterThan", "100", Some("100")));
    assert!(holds("greaterOrEqual", "100", Some("100.0")));
    assert!(holds(">=", "100", Some("100")));
    assert!(holds("lessThan", "100", Some("-5")));
    assert!(holds("<", "100", Some("99.9")));
    assert!(holds("lessOrEqual", "100", Some("100")));
    assert!(holds("<=", "100", Some("7")));
    assert!(!holds("lessOrEqual", "100", Some("101")));
    // what is no number compares with nothing
    assert!(!holds("greaterThan", "100", Some("abc")));
    assert!(!holds("lessThan", "100", Some("abc")));
    assert!(!holds("lessOrEqual", "abc", Some("1")));
    assert!(!holds("greaterOrEqual", "1", None));
}

#[test]
fn numeric_order_decides_the_numeric_comparisons() {
    for (operator, less, equal, greater) in [
        ("greaterThan", false, false, true),
        ("lessThan", true, false, false),
        ("greaterOrEqual", false, true, true),
        ("lessOrEqual", true, true, false),
    ] {
        assert_eq!(test_condition(operator, "1", Some("2"), NumericOrder::Less), less);
        assert_eq!(test_condition(operator, "1", Some("2"), NumericOrder::Equal), equal);
        assert_eq!(test_condition(operator, "1", Some("2"), NumericOrder::Greater), greater);
        assert!(!test_condition(operator, "1", Some("2"), NumericOrder::Unordered));
    }
}

// ---------------------------------------------------------------------------
// Rule groups
// ---------------------------------------------------------------------------

#[test]
fn empty_rule_group_matches_for_every_logic() {
    for logic in ["AND", "OR", "NOT", "and", "xor", ""] {
        assert!(evaluate_rule_group(logic, &vec![]));
    }
    for kind in [Logic::And, Logic::Or, Logic::Not] {
        assert!(combine_results(kind, &vec![]));
    }
    let text = single_node_graph("ruleGroup", r#"{"logic": "NOT", "conditions": []}"#);
    assert_eq!(run(&text, &request("/", &[])).0, GraphResult::Allow);
}

#[test]
fn all_false_conditions() {
    let results = vec![false, false, false];
    assert!(!evaluate_rule_group("AND", &results));
    assert!(!evaluate_rule_group("OR", &results));
    assert!(evaluate_rule_group("NOT", &results));
    assert!(!combine_results(Logic::And, &vec![false]));
    assert!(!combine_results(Logic::Or, &vec![false]));
    assert!(combine_results(Logic::Not, &vec![false]));
}

#[test]
fn mixed_conditions() {
    let results = vec![true, false];
    assert!(!evaluate_rule_group("AND", &results));
    assert!(evaluate_rule_group("OR", &results));
    assert!(!evaluate_rule_group("NOT", &results));
    assert!(evaluate_rule_group("AND", &vec![true, true]));
}

#[test]
fn logic_ignores_case_and_defaults_to_and() {
    assert_eq!(classify_logic("or"), Logic::Or);
    assert_eq!(classify_logic("Or"), Logic::Or);
    assert_eq!(classify_logic("not"), Logic::Not);
    assert_eq!(classify_logic("AND"), Logic::And);
    assert_eq!(classify_logic("nand"), Logic::And);
    assert_eq!(logic_from_upper("OR"), Logic::Or);
    assert_eq!(logic_from_upper("NOT"), Logic::Not);
    assert_eq!(logic_from_upper("AND"), Logic::And);
    assert_eq!(logic_from_upper("or"), Logic::And);
    assert!(evaluate_rule_group("or", &vec![false, true]));
    assert!(!evaluate_rule_group("nand", &vec![false, true]));
}

#[test]
fn rule_group_node_branches_on_match() {
    let data = r#"{"name": "API Auth Check", "logic": "AND", "conditions": [
        {"id": "c1", "field": "header", "operator": "exists", "value": "", "headerName": "Authorization"},
        {"id": "c2", "field": "header", "operator": "startsWith", "value": "Bearer ", "headerName": "Authorization"}
    ]}"#;
    let text = single_node_graph("ruleGroup", data);
    assert_eq!(run(&text, &request("/", &[("authorization", "Bearer abc")])).0, GraphResult::Allow);
    assert_eq!(run(&text, &request("/", &[("authorization", "Basic abc")])).0, slow_down());
    assert_eq!(run(&text, &request("/", &[])).0, slow_down());
}

// ---------------------------------------------------------------------------
// Fields
// ---------------------------------------------------------------------------

fn field(name: &str, req: &RequestInfo) -> Option<String> {
    get_field_value(name, req, None, None)
}

#[test]
fn request_basics() {
    let mut req = request("/a/b", &[("Host", "www.example.com")]);
    req.url = "https://www.example.com/a/b?x=1&y=?".to_string();
    req.method = "POST".to_string();
    assert_eq!(field("path", &req), Some("/a/b".to_string()));
    assert_eq!(field("query", &req), Some("?x=1&y=?".to_string()));
    assert_eq!(field("method", &req), Some("POST".to_string()));
    assert_eq!(field("host", &req), Some("www.example.com".to_string()));
    assert_eq!(field("scheme", &req), Some("https".to_string()));
    assert_eq!(field("query", &request("/a", &[])), None);
}

#[test]
fn header_fallbacks() {
    let req = request(
        "/",
        &[
            ("fastly-orig-host", "orig.example.com"),
            ("X-Forwarded-Proto", "http"),
            ("tls-client-protocol", "TLSv1.3"),
            ("tls-ja3-md5", "aaa"),
            ("fastly-client-ja3-md5", "bbb"),
            ("User-Agent", "curl/8"),
            ("X-Custom", "first"),
            ("x-custom", "second"),
        ],
    );
    assert_eq!(field("host", &req), Some("orig.example.com".to_string()));
    assert_eq!(field("scheme", &req), Some("http".to_string()));
    assert_eq!(field("tlsVersion", &req), Some("TLSv1.3".to_string()));
    assert_eq!(field("tls-version", &req), Some("TLSv1.3".to_string()));
    assert_eq!(field("ja3", &req), Some("bbb".to_string()));
    assert_eq!(field("ja4", &req), None);
    assert_eq!(field("userAgent", &req), Some("curl/8".to_string()));
    assert_eq!(field("user-agent", &req), Some("curl/8".to_string()));
    // a name that is none of the known ones is a header's name
    assert_eq!(field("X-CUSTOM", &req), Some("first".to_string()));
    assert_eq!(field("x-missing", &req), None);
    assert_eq!(field("not a header name", &req), None);
}

#[test]
fn client_ip_fallback_chain() {
    let mut req = request(
        "/",
        &[("Fastly-Client-IP", "198.51.100.7"), ("X-Forwarded-For", " 203.0.113.5 , 10.0.0.1")],
    );
    req.client_ip = Some("192.0.2.1".to_string());
    assert_eq!(field("clientIp", &req), Some("192.0.2.1".to_string()));
    req.client_ip = None;
    assert_eq!(field("client-ip", &req), Some("198.51.100.7".to_string()));
    let req = request("/", &[("X-Forwarded-For", " 203.0.113.5 , 10.0.0.1")]);
    assert_eq!(field("ip", &req), Some("203.0.113.5".to_string()));
    let req = request("/", &[("X-Forwarded-For", "203.0.113.9")]);
    assert_eq!(field("ip", &req), Some("203.0.113.9".to_string()));
    assert_eq!(field("ip", &request("/", &[])), None);
}

#[test]
fn datacenter_and_ddos() {
    let mut req = request("/", &[]);
    assert_eq!(field("datacenter", &req), None);
    assert_eq!(field("ddosDetected", &req), None);
    req.pop = Some("FRA".to_string());
    req.ddos_detected = Some(true);
    assert_eq!(field("pop", &req), Some("FRA".to_string()));
    assert_eq!(field("ddosDetected", &req), Some("true".to_string()));
    req.ddos_detected = Some(false);
    assert_eq!(field("ddosDetected", &req), Some("false".to_string()));
    let req = request("/", &[("fastly-pop", "AMS")]);
    assert_eq!(field("datacenter", &req), Some("AMS".to_string()));
}

#[test]
fn geo_fields() {
    let req = request("/", &[("Fastly-Client-Geo-Country", "FR"), ("fastly-client-geo-asn", "1")]);
    let g = geo();
    let get = |name: &str| get_field_value(name, &req, Some(&g), None);
    assert_eq!(get("country"), Some("DE".to_string()));
    assert_eq!(get("countryCode3"), Some("DEU".to_string()));
    assert_eq!(get("asn"), Some("64496".to_string()));
    assert_eq!(get("continent"), Some("EU".to_string()));
    assert_eq!(get("city"), Some("berlin".to_string()));
    assert_eq!(get("region"), Some("BE".to_string()));
    assert_eq!(get("postalCode"), Some("10115".to_string()));
    assert_eq!(get("latitude"), Some("52.52".to_string()));
    assert_eq!(get("longitude"), Some("13.405".to_string()));
    assert_eq!(get("metroCode"), Some("0".to_string()));
    assert_eq!(get("utcOffset"), Some("1".to_string()));
    assert_eq!(get("connSpeed"), Some("Broadband".to_string()));
    assert_eq!(get("connType"), Some("Wired".to_string()));
    assert_eq!(get("proxyType"), Some("Hosting".to_string()));
    assert_eq!(get("proxyDescription"), Some("CloudHosting".to_string()));
    assert_eq!(get("isHostingProvider"), Some("true".to_string()));
    // without a lookup result the headers stand in where there are any
    assert_eq!(field("country", &req), Some("FR".to_string()));
    assert_eq!(field("asn", &req), Some("1".to_string()));
    assert_eq!(field("city", &req), None);
    assert_eq!(field("countryCode3", &req), None);
    assert_eq!(field("isHostingProvider", &req), Some("false".to_string()));
}

#[test]
fn utc_offset_text() {
    let req = request("/", &[]);
    let mut g = geo();
    let mut offset = |hours: i8, minutes: i8| {
        g.utc_offset = Some(UtcOffset { hours, minutes });
        get_field_value("utcOffset", &req, Some(&g), None).unwrap()
    };
    assert_eq!(offset(0, 0), "0");
    assert_eq!(offset(5, 0), "5");
    assert_eq!(offset(-8, 0), "-8");
    assert_eq!(offset(5, 30), "5:30");
    assert_eq!(offset(-3, -30), "-3:30");
    assert_eq!(offset(5, 5), "5:05");
    assert_eq!(offset(12, 45), "12:45");
    assert_eq!(offset(-12, -59), "-12:59");
    g.utc_offset = None;
    assert_eq!(get_field_value("utcOffset", &req, Some(&g), None), None);
}

#[test]
fn hosting_provider_ignores_case() {
    let req = request("/", &[]);
    let mut g = geo();
    for (description, expected) in [("Hosting", "true"), ("WEBHOSTING", "true"), ("Vpn", "false"), ("", "false")] {
        g.proxy_description = description.to_string();
        assert_eq!(
            get_field_value("isHostingProvider", &req, Some(&g), None),
            Some(expected.to_string()),
            "{}",
            description
        );
    }
}

#[test]
fn device_fields() {
    let req = request("/", &[]);
    let d = device();
    let get = |name: &str| get_field_value(name, &req, None, Some(&d));
    assert_eq!(get("isBot"), Some("true".to_string()));
    assert_eq!(get("botName"), Some("Googlebot".to_string()));
    assert_eq!(get("isMobile"), Some("false".to_string()));
    assert_eq!(get("isTablet"), Some("false".to_string()));
    assert_eq!(get("isDesktop"), Some("true".to_string()));
    assert_eq!(get("isSmartTV"), Some("false".to_string()));
    assert_eq!(get("isGameConsole"), Some("false".to_string()));
    assert_eq!(get("deviceName"), Some("Googlebot".to_string()));
    assert_eq!(get("deviceBrand"), None);
    assert_eq!(get("deviceModel"), None);
    assert_eq!(get("browserName"), Some("Chrome".to_string()));
    assert_eq!(get("browserVersion"), Some("120.0".to_string()));
    assert_eq!(get("osName"), Some("Linux".to_string()));
    assert_eq!(get("osVersion"), Some("6.1".to_string()));
    // without a lookup result
    assert_eq!(field("isBot", &req), Some("false".to_string()));
    assert_eq!(field("botName", &req), None);
    assert_eq!(field("browserVersion", &req), None);
    let mut human = device();
    human.is_bot = Some(false);
    assert_eq!(get_field_value("botName", &req, None, Some(&human)), None);
    human.is_bot = None;
    assert_eq!(get_field_value("botName", &req, None, Some(&human)), None);
}

// ---------------------------------------------------------------------------
// Lookups and comparisons in an evaluation
// ---------------------------------------------------------------------------

#[test]
fn geolocation_is_looked_up_once_and_only_where_needed() {
    let data = r#"{"logic": "OR", "conditions": [
        {"id": "c1", "field": "country", "operator": "in", "value": "DE, AT"},
        {"id": "c2", "field": "city", "operator": "equals", "value": "vienna"},
        {"id": "c3", "field": "isBot", "operator": "equals", "value": "true"}
    ]}"#;
    let text = single_node_graph("ruleGroup", data);
    let g = graph(&text);
    let mut interpreter = GraphInterpreter::new(&g);
    let mut h = host();
    h.geo = Some(geo());
    assert_eq!(h.evaluate(&mut interpreter, &request("/", &[])), GraphResult::Allow);
    assert_eq!(h.geo_lookups, 1);
    assert_eq!(h.device_lookups, 1);

    // a path that reads no geolocation field asks for none
    let g = graph(ADMIN_GRAPH);
    let mut interpreter = GraphInterpreter::new(&g);
    let mut h = host();
    h.evaluate(&mut interpreter, &request("/admin", &[]));
    assert_eq!(h.geo_lookups, 0);
    assert_eq!(h.device_lookups, 0);
}

#[test]
fn evaluation_asks_before_it_decides() {
    let data = r#"{"field": "country", "operator": "equals", "value": "DE"}"#;
    let text = single_node_graph("condition", data);
    let g = graph(&text);
    let mut interpreter = GraphInterpreter::new(&g);
    let req = request("/", &[("fastly-client-geo-country", "DE")]);
    let mut answers = Answers::new();
    assert_eq!(interpreter.evaluate(&req, &answers), Evaluation::Ask(Question::Geo));
    // the lookup found nothing: the header stands in
    answers.geo = Some(None);
    assert_eq!(interpreter.evaluate(&req, &answers), Evaluation::Done(GraphResult::Allow));
    answers.geo = Some(Some(GeoInfo { country_code: "US".to_string(), ..geo() }));
    assert_eq!(interpreter.evaluate(&req, &answers), Evaluation::Done(slow_down()));
}

#[test]
fn numeric_condition_asks_for_the_comparison() {
    let data = r#"{"field": "header", "headerName": "Content-Length", "operator": "greaterThan", "value": "1000"}"#;
    let text = single_node_graph("condition", data);
    let g = graph(&text);
    let mut interpreter = GraphInterpreter::new(&g);
    let req = request("/", &[("content-length", "2048")]);
    let mut answers = Answers::new();
    assert_eq!(
        interpreter.evaluate(&req, &answers),
        Evaluation::Ask(Question::Compare { left: "2048".to_string(), right: "1000".to_string() })
    );
    answers.comparisons.push(Comparison {
        left: "2048".to_string(),
        right: "1000".to_string(),
        order: NumericOrder::Greater,
    });
    assert_eq!(interpreter.evaluate(&req, &answers), Evaluation::Done(GraphResult::Allow));
    assert_eq!(host().evaluate(&mut interpreter, &req), GraphResult::Allow);
    assert_eq!(host().evaluate(&mut interpreter, &request("/", &[("content-length", "12")])), slow_down());
    assert_eq!(host().evaluate(&mut interpreter, &request("/", &[])), slow_down());
}

// ---------------------------------------------------------------------------
// Rate limits
// ---------------------------------------------------------------------------

fn rate_limit(limit: u32, unit: &str, key_by: &str, header_name: Option<&str>) -> RateLimitNodeData {
    RateLimitNodeData {
        limit,
        window_unit: unit.to_string(),
        key_by: key_by.to_string(),
        header_name: header_name.map(|h| h.to_string()),
    }
}

#[test]
fn third_request_of_a_key_exceeds_a_limit_of_two() {
    let text = single_node_graph("rateLimit", r#"{"limit": 2, "windowUnit": "second", "keyBy": "ip"}"#);
    let g = graph(&text);
    let mut interpreter = GraphInterpreter::new(&g);
    assert!(interpreter.has_rate_limit());
    let mut h = host();
    let mut alice = request("/", &[]);
    alice.client_ip = Some("192.0.2.1".to_string());
    let mut bob = request("/", &[]);
    bob.client_ip = Some("192.0.2.2".to_string());
    assert_eq!(h.evaluate(&mut interpreter, &alice), GraphResult::Allow);
    assert_eq!(h.evaluate(&mut interpreter, &alice), GraphResult::Allow);
    assert_eq!(h.evaluate(&mut interpreter, &alice), slow_down());
    // another key is not affected
    assert_eq!(h.evaluate(&mut interpreter, &bob), GraphResult::Allow);
    assert_eq!(h.rate_calls.len(), 4);
    assert_eq!(
        h.rate_calls[0],
        RateCheck {
            key: "192.0.2.1".to_string(),
            delta: 1,
            window: RateWindow::OneSecond,
            limit: 2,
            penalty_secs: 120,
        }
    );
}

#[test]
fn rate_service_failure_fails_open() {
    let text = single_node_graph("rateLimit", r#"{"limit": 0, "windowUnit": "minute", "keyBy": "path"}"#);
    let g = graph(&text);
    let mut interpreter = GraphInterpreter::new(&g);
    let mut h = host();
    h.rate_service_down = true;
    assert_eq!(h.evaluate(&mut interpreter, &request("/", &[])), GraphResult::Allow);
    h.rate_service_down = false;
    assert_eq!(h.evaluate(&mut interpreter, &request("/", &[])), slow_down());
    assert!(is_exceeded(RateReply::Exceeded));
    assert!(!is_exceeded(RateReply::Within));
    assert!(!is_exceeded(RateReply::Failed));
}

#[test]
fn graph_without_rate_limit_needs_no_rate_service() {
    let g = graph(ADMIN_GRAPH);
    assert!(!GraphInterpreter::new(&g).has_rate_limit());
}

#[test]
fn window_limit_and_penalty() {
    let req = request("/p", &[]);
    let check = plan_rate_check(&rate_limit(7, "second", "path", None), &req);
    assert_eq!((check.window, check.limit, check.penalty_secs, check.delta), (RateWindow::OneSecond, 7, 120, 1));
    let check = plan_rate_check(&rate_limit(7, "minute", "path", None), &req);
    assert_eq!((check.window, check.limit, check.penalty_secs), (RateWindow::SixtySeconds, 7, 120));
    // an hourly limit is spread over windows of a minute
    let check = plan_rate_check(&rate_limit(600, "hour", "path", None), &req);
    assert_eq!((check.window, check.limit, check.penalty_secs), (RateWindow::SixtySeconds, 10, 600));
    let check = plan_rate_check(&rate_limit(59, "hour", "path", None), &req);
    assert_eq!(check.limit, 0);
    let check = plan_rate_check(&rate_limit(7, "day", "path", None), &req);
    assert_eq!((check.window, check.limit, check.penalty_secs), (RateWindow::SixtySeconds, 7, 120));
}

#[test]
fn rate_limit_keys() {
    let mut req = request(
        "/login",
        &[("X-Api-Key", "k-1"), ("tls-ja4", "ja4-value"), ("fastly-client-ja3-md5", "ja3-value")],
    );
    req.client_ip = Some("192.0.2.1".to_string());
    assert_eq!(get_rate_limit_key(&rate_limit(1, "second", "ip", None), &req), "192.0.2.1");
    assert_eq!(get_rate_limit_key(&rate_limit(1, "second", "fingerprint", None), &req), "ja4-value");
    assert_eq!(get_rate_limit_key(&rate_limit(1, "second", "header", Some("x-api-key")), &req), "k-1");
    assert_eq!(get_rate_limit_key(&rate_limit(1, "second", "header", Some("x-other")), &req), "unknown");
    assert_eq!(get_rate_limit_key(&rate_limit(1, "second", "header", None), &req), "unknown");
    assert_eq!(get_rate_limit_key(&rate_limit(1, "second", "path", None), &req), "/login");
    assert_eq!(get_rate_limit_key(&rate_limit(1, "second", "cookie", None), &req), "unknown");
    let req = request("/", &[("fastly-client-ja3-md5", "ja3-value")]);
    assert_eq!(get_rate_limit_key(&rate_limit(1, "second", "fingerprint", None), &req), "ja3-value");
    assert_eq!(get_rate_limit_key(&rate_limit(1, "second", "ip", None), &req), "unknown");
    assert_eq!(get_rate_limit_key(&rate_limit(1, "second", "fingerprint", None), &request("/", &[])), "unknown");
}
