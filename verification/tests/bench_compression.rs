use base64::{engine::general_purpose::STANDARD as BASE64, Engine};
use flate2::write::GzEncoder;
use flate2::Compression;
use std::io::Write;

use vce_rules::json::Json;
use vce_rules::loader::{decompress_graph, json_from_text, json_to_text};
use vce_rules::types::{
    ActionNodeData, ConditionNodeData, GraphEdge, GraphNode, GraphPayload, HeaderNodeData,
    NodePosition, RateLimitNodeData, RuleGroupNodeData,
};

fn condition(field: &str, operator: &str, value: &str) -> Json {
    ConditionNodeData {
        field: field.to_string(),
        operator: operator.to_string(),
        value: value.to_string(),
        header_name: None,
    }
    .to_json()
}

fn group(logic: &str) -> Json {
    RuleGroupNodeData { name: None, logic: logic.to_string(), conditions: vec![] }.to_json()
}

/// Generate a test graph with the specified number of nodes
fn generate_test_graph(num_nodes: usize) -> GraphPayload {
    let mut graph = GraphPayload { nodes: Vec::new(), edges: Vec::new() };

    // Always start with a Request node
    graph.nodes.push(GraphNode {
        id: "0".to_string(),
        node_type: "request".to_string(),
        position: NodePosition { x: "0".to_string(), y: "0".to_string() },
        data: json_from_text("{}").unwrap(),
    });

    // Generate a variety of nodes to simulate realistic graphs
    for i in 1..num_nodes {
        let (kind, data) = match i % 8 {
            0 => ("condition", condition("path", "startsWith", "/admin")),
            1 => ("condition", condition("clientIp", "inCidr", "192.168.0.0/16,10.0.0.0/8,172.16.0.0/12")),
            2 => ("condition", condition("userAgent", "contains", "bot")),
            3 => ("ruleGroup", group("AND")),
            4 => ("ruleGroup", group("OR")),
            5 => (
                "rateLimit",
                RateLimitNodeData {
                    limit: 100,
                    window_unit: "minute".to_string(),
                    key_by: "ip".to_string(),
                    header_name: None,
                }
                .to_json(),
            ),
            6 => (
                "action",
                ActionNodeData {
                    action: "block".to_string(),
                    status_code: Some(403),
                    message: Some("Access denied by security policy".to_string()),
                    url: None,
                    preserve_query: None,
                }
                .to_json(),
            ),
            7 => (
                "header",
                HeaderNodeData {
                    operation: "set".to_string(),
                    name: "X-Security-Check".to_string(),
                    value: Some("passed".to_string()),
                }
                .to_json(),
            ),
            _ => unreachable!(),
        };
        graph.nodes.push(GraphNode {
            id: i.to_string(),
            node_type: kind.to_string(),
            position: NodePosition { x: (i * 200).to_string(), y: ((i % 8) * 100).to_string() },
            data,
        });
    }

    // Add some edges to make the graph realistic
    // Connect request to first condition
    if graph.nodes.len() > 1 {
        graph.edges.push(edge(0, 1));
    }

    // Add more edges for larger graphs
    for i in 2..graph.nodes.len().min(20) {
        graph.edges.push(edge(i - 1, i));
    }

    graph
}

fn edge(from: usize, to: usize) -> GraphEdge {
    GraphEdge {
        id: format!("e{}-{}", from, to),
        source: from.to_string(),
        target: to.to_string(),
        source_handle: None,
        target_handle: None,
        edge_type: None,
    }
}

/// Compress data with gzip
fn gzip_compress(data: &[u8]) -> Vec<u8> {
    let mut encoder = GzEncoder::new(Vec::new(), Compression::default());
    encoder.write_all(data).unwrap();
    encoder.finish().unwrap()
}

/// Format bytes as human-readable string
fn format_bytes(bytes: usize) -> String {
    if bytes >= 1024 * 1024 {
        format!("{:.2} MB", bytes as f64 / (1024.0 * 1024.0))
    } else if bytes >= 1024 {
        format!("{:.2} KB", bytes as f64 / 1024.0)
    } else {
        format!("{} B", bytes)
    }
}

fn json_texts(graph: &GraphPayload) -> (String, String, serde_json::Value) {
    let json_str = json_to_text(&graph.to_json());
    let value: serde_json::Value = serde_json::from_str(&json_str).unwrap();
    let json_pretty = serde_json::to_string_pretty(&value).unwrap();
    (json_str, json_pretty, value)
}

/// Run benchmark for a single graph
fn benchmark_graph(graph: &GraphPayload) {
    // Serialize to JSON
    let (json_str, json_pretty, value) = json_texts(graph);

    // Serialize to RON
    let ron_str = ron::to_string(&value).unwrap();
    let ron_pretty = ron::ser::to_string_pretty(&value, ron::ser::PrettyConfig::default()).unwrap();

    // Compress each format
    let json_compressed = gzip_compress(json_str.as_bytes());
    let json_pretty_compressed = gzip_compress(json_pretty.as_bytes());
    let ron_compressed = gzip_compress(ron_str.as_bytes());
    let ron_pretty_compressed = gzip_compress(ron_pretty.as_bytes());

    // Calculate compression ratios
    let json_ratio = 100.0 - (json_compressed.len() as f64 / json_str.len() as f64 * 100.0);
    let json_pretty_ratio =
        100.0 - (json_pretty_compressed.len() as f64 / json_pretty.len() as f64 * 100.0);
    let ron_ratio = 100.0 - (ron_compressed.len() as f64 / ron_str.len() as f64 * 100.0);
    let ron_pretty_ratio =
        100.0 - (ron_pretty_compressed.len() as f64 / ron_pretty.len() as f64 * 100.0);

    println!("\n{}", "=".repeat(80));
    println!(
        "Graph: {} nodes, {} edges",
        graph.nodes.len(),
        graph.edges.len()
    );
    println!("{}", "=".repeat(80));

    println!("\n{:<25} {:>15} {:>15} {:>12}", "Format", "Raw Size", "Compressed", "Ratio");
    println!("{}", "-".repeat(70));

    println!(
        "{:<25} {:>15} {:>15} {:>11.1}%",
        "JSON (compact)",
        format_bytes(json_str.len()),
        format_bytes(json_compressed.len()),
        json_ratio
    );

    println!(
        "{:<25} {:>15} {:>15} {:>11.1}%",
        "JSON (pretty)",
        format_bytes(json_pretty.len()),
        format_bytes(json_pretty_compressed.len()),
        json_pretty_ratio
    );

    println!(
        "{:<25} {:>15} {:>15} {:>11.1}%",
        "RON (compact)",
        format_bytes(ron_str.len()),
        format_bytes(ron_compressed.len()),
        ron_ratio
    );

    println!(
        "{:<25} {:>15} {:>15} {:>11.1}%",
        "RON (pretty)",
        format_bytes(ron_pretty.len()),
        format_bytes(ron_pretty_compressed.len()),
        ron_pretty_ratio
    );

    // Compare JSON vs RON compressed
    println!("\n{}", "-".repeat(70));
    println!("Comparison (compressed):");

    let json_vs_ron = json_compressed.len() as f64 / ron_compressed.len() as f64;
    if json_vs_ron < 1.0 {
        println!(
            "  JSON compact is {:.1}% SMALLER than RON compact",
            (1.0 - json_vs_ron) * 100.0
        );
    } else {
        println!(
            "  RON compact is {:.1}% SMALLER than JSON compact",
            (json_vs_ron - 1.0) * 100.0
        );
    }

    let json_pretty_vs_ron_pretty =
        json_pretty_compressed.len() as f64 / ron_pretty_compressed.len() as f64;
    if json_pretty_vs_ron_pretty < 1.0 {
        println!(
            "  JSON pretty is {:.1}% SMALLER than RON pretty",
            (1.0 - json_pretty_vs_ron_pretty) * 100.0
        );
    } else {
        println!(
            "  RON pretty is {:.1}% SMALLER than JSON pretty",
            (json_pretty_vs_ron_pretty - 1.0) * 100.0
        );
    }

    // Config Store fit check (8KB limit)
    let config_store_limit = 8000;
    println!("\n{}", "-".repeat(70));
    println!("Config Store fit check (8KB limit):");
    println!(
        "  JSON compact compressed: {} ({})",
        if json_compressed.len() <= config_store_limit {
            "FITS"
        } else {
            "TOO LARGE"
        },
        format_bytes(json_compressed.len())
    );
    println!(
        "  RON compact compressed:  {} ({})",
        if ron_compressed.len() <= config_store_limit {
            "FITS"
        } else {
            "TOO LARGE"
        },
        format_bytes(ron_compressed.len())
    );

    // What is stored can be loaded again
    let stored = BASE64.encode(&json_compressed);
    assert_eq!(&decompress_graph(&stored).unwrap(), graph);
}

#[test]
fn bench_compression_comparison() {
    println!("\n");
    println!("{}", "=".repeat(80));
    println!("         RON vs JSON Serialization & Compression Benchmark");
    println!("{}", "=".repeat(80));

    // Test different graph sizes
    let sizes = [5, 10, 20, 50, 100];

    for &size in &sizes {
        let graph = generate_test_graph(size);
        benchmark_graph(&graph);
    }

    println!("\n{}", "=".repeat(80));
    println!("                              SUMMARY");
    println!("{}", "=".repeat(80));
    println!("\nKey findings:");
    println!("- Compare compressed sizes to determine optimal storage format");
    println!("- Config Store limit is 8KB per value");
    println!("- Base64 encoding adds ~33% overhead after compression");
    println!("\nRecommendation:");
    println!("- Use whichever format compresses smaller for your typical graph size");
    println!("- Consider parsing speed if frequently deserializing");
}

#[test]
fn bench_with_base64_overhead() {
    println!("\n");
    println!("{}", "=".repeat(80));
    println!("     RON vs JSON with Base64 Encoding (Actual Config Store Format)");
    println!("{}", "=".repeat(80));

    let sizes = [10, 50, 100];

    for &size in &sizes {
        let graph = generate_test_graph(size);

        // Serialize
        let (json_str, _, value) = json_texts(&graph);
        let ron_str = ron::to_string(&value).unwrap();

        // Compress
        let json_compressed = gzip_compress(json_str.as_bytes());
        let ron_compressed = gzip_compress(ron_str.as_bytes());

        // Base64 encode (this is what goes in Config Store)
        let json_b64 = BASE64.encode(&json_compressed);
        let ron_b64 = BASE64.encode(&ron_compressed);

        println!("\n{} nodes:", size);
        println!(
            "  JSON: {} raw -> {} compressed -> {} base64",
            format_bytes(json_str.len()),
            format_bytes(json_compressed.len()),
            format_bytes(json_b64.len())
        );
        println!(
            "  RON:  {} raw -> {} compressed -> {} base64",
            format_bytes(ron_str.len()),
            format_bytes(ron_compressed.len()),
            format_bytes(ron_b64.len())
        );

        let config_store_limit = 8000;
        println!(
            "  Config Store: JSON {} | RON {}",
            if json_b64.len() <= config_store_limit {
                "FITS"
            } else {
                "TOO LARGE"
            },
            if ron_b64.len() <= config_store_limit {
                "FITS"
            } else {
                "TOO LARGE"
            }
        );

        // Winner
        if json_b64.len() < ron_b64.len() {
            println!(
                "  Winner: JSON ({:.1}% smaller)",
                (1.0 - json_b64.len() as f64 / ron_b64.len() as f64) * 100.0
            );
        } else if ron_b64.len() < json_b64.len() {
            println!(
                "  Winner: RON ({:.1}% smaller)",
                (1.0 - ron_b64.len() as f64 / json_b64.len() as f64) * 100.0
            );
        } else {
            println!("  Winner: TIE");
        }

        // What is stored can be loaded again
        assert_eq!(decompress_graph(&json_b64).unwrap(), graph);
    }
}
