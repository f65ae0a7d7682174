use base64::{engine::general_purpose::STANDARD as BASE64, Engine};
use flate2::write::GzEncoder;
use flate2::Compression;
use std::io::Write;

use vce_rules::auth::{edge_auth_header, rules_hash};
use vce_rules::backend::{cleaned_host, resolve_backend};
use vce_rules::interp::GraphResult;
use vce_rules::json::{get, Json, Member};
use vce_rules::loader::{decompress_graph, graph_from_json, json_from_text, json_to_text, VcePayload};
use vce_rules::response::{
    action_label, backend_failure, load_failure, redirect_location, response_status,
    unconfigured_message, STATUS_FORBIDDEN, STATUS_FOUND,
};
use vce_rules::types::{
    ActionNodeData, BackendNodeData, ConditionNodeData, GraphEdge, GraphNode, GraphPayload,
    NodePosition, RateLimitNodeData, RedirectNodeData, RuleGroupCondition, RuleGroupNodeData,
};

fn parse(text: &str) -> Json {
    json_from_text(text).unwrap()
}

fn backend(text: &str) -> BackendNodeData {
    BackendNodeData::from_json(&parse(text)).unwrap()
}

// ---------------------------------------------------------------------------
// Backend route resolver
// ---------------------------------------------------------------------------

#[test]
fn host_is_cleaned() {
    assert_eq!(cleaned_host("origin.example.com"), "origin.example.com");
    assert_eq!(cleaned_host("https://origin.example.com/"), "origin.example.com");
    assert_eq!(cleaned_host("http://origin.example.com///"), "origin.example.com");
    assert_eq!(cleaned_host("https://https://http://http://x/"), "x");
    // the plain prefix is taken off after the secure one, not before it
    assert_eq!(cleaned_host("http://https://x"), "https://x");
    assert_eq!(cleaned_host("https://a/b/"), "a/b");
    assert_eq!(cleaned_host("///"), "");
    assert_eq!(cleaned_host(""), "");
}

#[test]
fn minimal_backend_descriptor() {
    let d = resolve_backend(&backend(r#"{"name": "simple", "host": "https://example.com/"}"#), 1234567890123);
    assert_eq!(d.unique_name, "dyn_simple_1234567890123");
    assert_eq!(d.target, "example.com:443");
    assert_eq!(d.override_host, "example.com");
    assert!(d.use_tls);
    assert_eq!(d.check_certificate, None);
    assert_eq!(d.sni_hostname, Some("example.com".to_string()));
    assert_eq!(d.ca_certificate, None);
    assert_eq!(d.client_certificate, None);
    assert_eq!(d.client_key, None);
    assert!(!d.prefer_ipv6);
    assert_eq!(d.enable_pooling, None);
    assert_eq!(d.connect_timeout_ms, None);
    assert!(!d.tcp_keepalive);
    assert_eq!(d.tcp_keepalive_time_secs, None);
}

#[test]
fn full_backend_descriptor() {
    let data = backend(
        r#"{
        "name": "production-origin",
        "host": "http://origin.prod.example.com/",
        "port": 8443,
        "connectTimeout": 1000,
        "firstByteTimeout": 15000,
        "betweenBytesTimeout": 10000,
        "useTLS": true,
        "verifyCertificate": true,
        "sniHostname": "sni.example.com",
        "caCertificate": "",
        "clientCertificate": "CERT",
        "clientKey": "KEY",
        "overrideHost": "backend.internal",
        "preferIPv6": true,
        "enablePooling": false,
        "keepaliveTime": 120000,
        "maxConnections": 50,
        "maxConnectionUses": 0,
        "maxConnectionLifetime": 1800000,
        "tcpKeepalive": true,
        "tcpKeepaliveTime": 60,
        "tcpKeepaliveInterval": 0,
        "tcpKeepaliveProbes": 5
    }"#,
    );
    let d = resolve_backend(&data, 0);
    assert_eq!(d.unique_name, "dyn_production-origin_0");
    assert_eq!(d.target, "origin.prod.example.com:8443");
    assert_eq!(d.override_host, "backend.internal");
    assert_eq!(d.connect_timeout_ms, Some(1000));
    assert_eq!(d.first_byte_timeout_ms, Some(15000));
    assert_eq!(d.between_bytes_timeout_ms, Some(10000));
    assert!(d.use_tls);
    assert_eq!(d.check_certificate, Some("origin.prod.example.com".to_string()));
    assert_eq!(d.sni_hostname, Some("sni.example.com".to_string()));
    assert_eq!(d.ca_certificate, None);
    assert_eq!(d.client_certificate, Some("CERT".to_string()));
    assert_eq!(d.client_key, Some("KEY".to_string()));
    assert!(d.prefer_ipv6);
    assert_eq!(d.enable_pooling, Some(false));
    assert_eq!(d.keepalive_time_ms, Some(120000));
    assert_eq!(d.max_connections, Some(50));
    assert_eq!(d.max_connection_uses, Some(0));
    assert_eq!(d.max_lifetime_ms, Some(1800000));
    assert!(d.tcp_keepalive);
    assert_eq!(d.tcp_keepalive_time_secs, Some(60));
    assert_eq!(d.tcp_keepalive_interval_secs, None);
    assert_eq!(d.tcp_keepalive_probes, Some(5));
}

#[test]
fn host_override_wins_for_host_header_and_sni() {
    let data = BackendNodeData {
        override_host: Some("public.example.com".to_string()),
        ..backend(r#"{"name": "o", "host": "10.0.0.1"}"#)
    };
    let d = resolve_backend(&data, 1);
    assert_eq!(d.target, "10.0.0.1:443");
    assert_eq!(d.override_host, "public.example.com");
    assert!(d.use_tls);
    assert_eq!(d.sni_hostname, Some("public.example.com".to_string()));
    // the certificate is checked against the cleaned host
    let checked = BackendNodeData { verify_certificate: Some(true), ..data.clone() };
    assert_eq!(resolve_backend(&checked, 1).check_certificate, Some("10.0.0.1".to_string()));
    // a name given for server name indication wins over the override
    let named = BackendNodeData { sni_hostname: Some("sni.example.com".to_string()), ..data.clone() };
    assert_eq!(resolve_backend(&named, 1).sni_hostname, Some("sni.example.com".to_string()));
    // an empty name counts as not given
    let empty = BackendNodeData { sni_hostname: Some(String::new()), ..data.clone() };
    assert_eq!(resolve_backend(&empty, 1).sni_hostname, Some("public.example.com".to_string()));
    // without an override the cleaned host is named
    let plain = backend(r#"{"name": "o", "host": "https://origin.example.com/"}"#);
    let d = resolve_backend(&plain, 1);
    assert_eq!(d.override_host, "origin.example.com");
    assert_eq!(d.sni_hostname, Some("origin.example.com".to_string()));
    // without TLS no name is sent
    let off = BackendNodeData { use_tls: Some(false), ..data };
    assert_eq!(resolve_backend(&off, 1).sni_hostname, None);
}

#[test]
fn tls_settings_apply_only_with_tls() {
    let data = backend(
        r#"{"name": "plain", "host": "example.com", "port": 80, "useTLS": false,
        "verifyCertificate": true, "sniHostname": "sni", "caCertificate": "CA",
        "clientCertificate": "CERT", "clientKey": "KEY"}"#,
    );
    let d = resolve_backend(&data, 1);
    assert!(!d.use_tls);
    assert_eq!(d.target, "example.com:80");
    assert_eq!(d.check_certificate, None);
    assert_eq!(d.sni_hostname, None);
    assert_eq!(d.ca_certificate, None);
    assert_eq!(d.client_certificate, None);
    assert_eq!(d.client_key, None);
}

#[test]
fn client_certificate_needs_its_key() {
    let d = resolve_backend(&backend(r#"{"name": "a", "host": "h", "clientCertificate": "CERT"}"#), 1);
    assert_eq!((d.client_certificate, d.client_key), (None, None));
    let d = resolve_backend(&backend(r#"{"name": "a", "host": "h", "clientCertificate": "CERT", "clientKey": ""}"#), 1);
    assert_eq!((d.client_certificate, d.client_key), (None, None));
    let d = resolve_backend(&backend(r#"{"name": "a", "host": "h", "clientKey": "KEY"}"#), 1);
    assert_eq!((d.client_certificate, d.client_key), (None, None));
}

#[test]
fn tcp_keepalive_settings() {
    let off = backend(r#"{"name": "a", "host": "h", "tcpKeepaliveTime": 60, "tcpKeepaliveProbes": 3}"#);
    let d = resolve_backend(&off, 1);
    assert!(!d.tcp_keepalive);
    assert_eq!((d.tcp_keepalive_time_secs, d.tcp_keepalive_probes), (None, None));
    // the seconds are taken in 32 bits
    let wide = backend(
        r#"{"name": "a", "host": "h", "tcpKeepalive": true, "tcpKeepaliveTime": 4294967296,
        "tcpKeepaliveInterval": 4294967371, "tcpKeepaliveProbes": 0}"#,
    );
    let d = resolve_backend(&wide, 1);
    assert!(d.tcp_keepalive);
    assert_eq!(d.tcp_keepalive_time_secs, None);
    assert_eq!(d.tcp_keepalive_interval_secs, Some(75));
    assert_eq!(d.tcp_keepalive_probes, None);
}

#[test]
fn connection_name_takes_the_stamp() {
    let data = backend(r#"{"name": "n", "host": "h"}"#);
    assert_eq!(resolve_backend(&data, 7).unique_name, "dyn_n_7");
    assert_eq!(resolve_backend(&data, 10).unique_name, "dyn_n_10");
    assert_eq!(
        resolve_backend(&data, u128::MAX).unique_name,
        "dyn_n_340282366920938463463374607431768211455"
    );
}

// ---------------------------------------------------------------------------
// Edge authentication
// ---------------------------------------------------------------------------

#[test]
fn edge_auth_header_is_signed() {
    let mut data = backend(r#"{"name": "a", "host": "h", "edgeAuthSecret": "s3cret"}"#);
    assert_eq!(
        edge_auth_header(&data, 1700000000, "LHR"),
        Some("1700000000,LHR,0x44f5a82a8655906a9e1ead84e4e4764011470f4d5a676680382dc8cccce35814".to_string())
    );
    data.edge_auth_secret = Some("k".to_string());
    assert_eq!(
        edge_auth_header(&data, 42, ""),
        Some("42,,0x77675074be8e9a05248b07d4fe657ebdda063299708b8d7908e907639440ee93".to_string())
    );
}

#[test]
fn no_secret_no_edge_auth_header() {
    let mut data = backend(r#"{"name": "a", "host": "h"}"#);
    assert_eq!(edge_auth_header(&data, 1700000000, "LHR"), None);
    data.edge_auth_secret = Some(String::new());
    assert_eq!(edge_auth_header(&data, 1700000000, "LHR"), None);
}

#[test]
fn rules_hash_is_sixteen_hex_digits() {
    assert_eq!(rules_hash("raw:e30="), "1aa25c3debc904aa");
    assert_ne!(rules_hash("raw:e30="), rules_hash("raw:e31="));
}

// ---------------------------------------------------------------------------
// Responses
// ---------------------------------------------------------------------------

#[test]
fn action_labels() {
    let route = GraphResult::Route(backend(r#"{"name": "origin-eu", "host": "h"}"#));
    assert_eq!(action_label(&route), "routed:origin-eu");
    assert_eq!(action_label(&GraphResult::Block { status_code: 403, message: "no".to_string() }), "blocked");
    assert_eq!(
        action_label(&GraphResult::Redirect { url: "/".to_string(), status_code: 308, preserve_query: true }),
        "redirect:308"
    );
    assert_eq!(action_label(&GraphResult::Allow), "allowed");
    assert_eq!(action_label(&GraphResult::NoMatch), "nomatch");
    assert_eq!(backend_failure("origin-eu"), "failopen:backend_error:origin-eu");
    assert_eq!(load_failure(), "failopen:graph_load_error");
}

#[test]
fn redirect_keeps_the_query_where_asked() {
    assert_eq!(redirect_location("/new", Some("a=1&b=2"), true), "/new?a=1&b=2");
    assert_eq!(redirect_location("/new?x=y", Some("a=1"), true), "/new?x=y&a=1");
    assert_eq!(redirect_location("/new", Some("a=1"), false), "/new");
    assert_eq!(redirect_location("/new", None, true), "/new");
    assert_eq!(redirect_location("/new", Some(""), true), "/new?");
}

#[test]
fn status_falls_back_where_it_is_no_http_status() {
    assert_eq!(response_status(403, STATUS_FORBIDDEN), 403);
    assert_eq!(response_status(451, STATUS_FORBIDDEN), 451);
    assert_eq!(response_status(100, STATUS_FORBIDDEN), 100);
    assert_eq!(response_status(999, STATUS_FORBIDDEN), 999);
    assert_eq!(response_status(99, STATUS_FORBIDDEN), 403);
    assert_eq!(response_status(1000, STATUS_FORBIDDEN), 403);
    assert_eq!(response_status(0, STATUS_FOUND), 302);
    assert_eq!(response_status(301, STATUS_FOUND), 301);
}

#[test]
fn messages_for_a_missing_backend() {
    assert_eq!(
        unconfigured_message("allowed"),
        "No backend configured. Add a Backend node to your graph to route traffic."
    );
    assert_eq!(
        unconfigured_message("nomatch"),
        "No matching rule in graph. Ensure your graph has a complete path from Request to Backend."
    );
    assert_eq!(
        unconfigured_message("failopen:graph_load_error"),
        "Graph evaluation error. Check your graph configuration."
    );
    assert_eq!(
        unconfigured_message("failopen:backend_error:origin"),
        "Graph evaluation error. Check your graph configuration."
    );
    assert_eq!(unconfigured_message("other"), "Backend not configured.");
}

// ---------------------------------------------------------------------------
// Schema
// ---------------------------------------------------------------------------

#[test]
fn record_may_be_an_array_of_its_fields() {
    let data = ConditionNodeData::from_json(&parse(r#"["path", "equals", "/x", null]"#)).unwrap();
    assert_eq!(data.field, "path");
    assert_eq!(data.operator, "equals");
    assert_eq!(data.value, "/x");
    assert_eq!(data.header_name, None);
    // an array must hold every field
    assert!(ConditionNodeData::from_json(&parse(r#"["path", "equals", "/x"]"#)).is_none());
    assert!(ConditionNodeData::from_json(&parse(r#"["path", "equals", "/x", null, null]"#)).is_none());
    assert!(ConditionNodeData::from_json(&parse(r#""path""#)).is_none());
    assert!(ConditionNodeData::from_json(&parse("null")).is_none());
}

#[test]
fn numbers_must_be_whole_and_in_range() {
    let port = |text: &str| BackendNodeData::from_json(&parse(text)).map(|b| b.port);
    assert_eq!(port(r#"{"name": "a", "host": "h", "port": 65535}"#), Some(Some(65535)));
    assert_eq!(port(r#"{"name": "a", "host": "h", "port": 0}"#), Some(Some(0)));
    assert_eq!(port(r#"{"name": "a", "host": "h", "port": null}"#), Some(None));
    assert_eq!(port(r#"{"name": "a", "host": "h", "port": 65536}"#), None);
    assert_eq!(port(r#"{"name": "a", "host": "h", "port": -1}"#), None);
    assert_eq!(port(r#"{"name": "a", "host": "h", "port": 443.0}"#), None);
    assert_eq!(port(r#"{"name": "a", "host": "h", "port": 4e2}"#), None);
    assert_eq!(port(r#"{"name": "a", "host": "h", "port": "443"}"#), None);
    let limit = |text: &str| RateLimitNodeData::from_json(&parse(text)).map(|r| r.limit);
    assert_eq!(limit(r#"{"limit": 4294967295, "windowUnit": "second", "keyBy": "ip"}"#), Some(4294967295));
    assert_eq!(limit(r#"{"limit": 4294967296, "windowUnit": "second", "keyBy": "ip"}"#), None);
    assert_eq!(limit(r#"{"limit": null, "windowUnit": "second", "keyBy": "ip"}"#), None);
    assert_eq!(limit(r#"{"windowUnit": "second", "keyBy": "ip"}"#), None);
    let timeout = |text: &str| BackendNodeData::from_json(&parse(text)).map(|b| b.connect_timeout);
    assert_eq!(
        timeout(r#"{"name": "a", "host": "h", "connectTimeout": 18446744073709551615}"#),
        Some(Some(18446744073709551615))
    );
    assert_eq!(timeout(r#"{"name": "a", "host": "h", "connectTimeout": 18446744073709551616}"#), None);
}

#[test]
fn fields_have_their_types() {
    assert!(ActionNodeData::from_json(&parse(r#"{"action": "block", "message": 5}"#)).is_none());
    assert!(ActionNodeData::from_json(&parse(r#"{"action": "block", "preserveQuery": "yes"}"#)).is_none());
    assert!(ActionNodeData::from_json(&parse(r#"{"action": null}"#)).is_none());
    assert!(RedirectNodeData::from_json(&parse(r#"{"url": "/x", "extra": [1, 2]}"#)).is_some());
    assert!(RuleGroupNodeData::from_json(&parse(r#"{"logic": "AND", "conditions": {}}"#)).is_none());
    assert!(RuleGroupNodeData::from_json(&parse(r#"{"logic": "AND", "conditions": [{"id": "c"}]}"#)).is_none());
    assert!(RuleGroupNodeData::from_json(&parse(r#"{"logic": "AND"}"#)).is_none());
}

#[test]
fn stored_payload_schema() {
    let payload = VcePayload::from_json(&parse(
        r#"{"version": "1.2.0", "deployedAt": "2024-05-01T10:00:00Z", "rules_packed": "raw:e30="}"#,
    ))
    .unwrap();
    assert_eq!(payload.version, "1.2.0");
    assert_eq!(payload.deployed_at, "2024-05-01T10:00:00Z");
    assert_eq!(payload.rules_packed, "raw:e30=");
}

#[test]
fn json_values_are_handed_over_as_they_are_written() {
    let j = parse(r#"{"a": [1, -2, 2.5, 1e300, true, null, "x"], "b": {"c": "d"}}"#);
    let items = get(&j, "a").unwrap();
    assert_eq!(
        items,
        &Json::Array(vec![
            Json::Number("1".to_string()),
            Json::Number("-2".to_string()),
            Json::Number("2.5".to_string()),
            Json::Number("1e+300".to_string()),
            Json::Bool(true),
            Json::Null,
            Json::Text("x".to_string()),
        ])
    );
    assert_eq!(
        get(&j, "b").unwrap(),
        &Json::Object(vec![Member { name: "c".to_string(), value: Json::Text("d".to_string()) }])
    );
    assert!(get(&j, "c").is_none());
    assert!(get(items, "a").is_none());
    assert_eq!(parse(&json_to_text(&j)), j);
    assert_eq!(json_to_text(&parse(r#"{ "k" : [ 1 , "two" , null ] }"#)), r#"{"k":[1,"two",null]}"#);
}

// ---------------------------------------------------------------------------
// Round trip
// ---------------------------------------------------------------------------

fn sample_graph() -> GraphPayload {
    let node = |id: &str, kind: &str, x: &str, y: &str, data: Json| GraphNode {
        id: id.to_string(),
        node_type: kind.to_string(),
        position: NodePosition { x: x.to_string(), y: y.to_string() },
        data,
    };
    let edge = |id: &str, source: &str, handle: Option<&str>, target: &str| GraphEdge {
        id: id.to_string(),
        source: source.to_string(),
        target: target.to_string(),
        source_handle: handle.map(|h| h.to_string()),
        target_handle: None,
        edge_type: Some("smoothstep".to_string()),
    };
    let group = RuleGroupNodeData {
        name: Some("Block Admin \u{1F512}".to_string()),
        logic: "AND".to_string(),
        conditions: vec![RuleGroupCondition {
            id: "c1".to_string(),
            field: "path".to_string(),
            operator: "startsWith".to_string(),
            value: "/admin \"quoted\"".to_string(),
            header_name: None,
        }],
    };
    let origin = backend(r#"{"name": "origin", "host": "example.com", "port": 8443, "maxConnections": 0}"#);
    GraphPayload {
        nodes: vec![
            node("1", "request", "0", "0", parse("{}")),
            node("2", "ruleGroup", "200.5", "-17", group.to_json()),
            node("3", "action", "400", "50", parse(r#"{"action": "block", "statusCode": 403}"#)),
            node("4", "backend", "400", "1.25", origin.to_json()),
            node("5", "note", "1", "2", parse(r#"[1, "two", null, {"three": [3.0]}]"#)),
        ],
        edges: vec![
            edge("e1", "1", None, "2"),
            edge("e2", "2", Some("match"), "3"),
            edge("e3", "2", Some("noMatch"), "4"),
        ],
    }
}

#[test]
fn graph_survives_the_raw_encoding() {
    let original = sample_graph();
    let text = json_to_text(&original.to_json());
    let packed = format!("raw:{}", BASE64.encode(&text));
    assert_eq!(decompress_graph(&packed).unwrap(), original);
}

#[test]
fn graph_survives_the_compressed_encoding() {
    let original = sample_graph();
    let text = json_to_text(&original.to_json());
    let mut encoder = GzEncoder::new(Vec::new(), Compression::default());
    encoder.write_all(text.as_bytes()).unwrap();
    let packed = BASE64.encode(encoder.finish().unwrap());
    assert_eq!(decompress_graph(&packed).unwrap(), original);
}

#[test]
fn graph_survives_its_json_document() {
    let original = sample_graph();
    assert_eq!(graph_from_json(&original.to_json()).unwrap(), original);
    assert_eq!(GraphPayload::from_json(&original.to_json()), Some(original));
}

#[test]
fn payloads_survive_their_json_documents() {
    let origin = backend(
        r#"{"name": "origin", "host": "example.com", "port": 8443, "useTLS": false,
        "connectTimeout": 18446744073709551615, "maxConnections": 4294967295, "edgeAuthSecret": "s"}"#,
    );
    assert_eq!(BackendNodeData::from_json(&origin.to_json()), Some(origin.clone()));
    assert_eq!(BackendNodeData::from_json(&parse(&json_to_text(&origin.to_json()))), Some(origin));
    let action = ActionNodeData {
        action: "redirect".to_string(),
        status_code: Some(301),
        message: None,
        url: Some("/x?y".to_string()),
        preserve_query: Some(false),
    };
    assert_eq!(ActionNodeData::from_json(&parse(&json_to_text(&action.to_json()))), Some(action));
    let limit = RateLimitNodeData {
        limit: 0,
        window_unit: "hour".to_string(),
        key_by: "header".to_string(),
        header_name: Some("X-Api-Key".to_string()),
    };
    assert_eq!(RateLimitNodeData::from_json(&parse(&json_to_text(&limit.to_json()))), Some(limit));
}
