use protobench::endpoint::Protocol;
use protobench::payload::StreamResponse;
use protobench::report::{
    banner, label, name, print_summary, progress_len, stage_line, suite, summary_row,
    summary_title, Figures, Outcome, TestKind, TestResult,
};
use protobench::tally::Tally;

fn figures(latency_ms: &str, rate: &str) -> Figures {
    Figures { latency_ms: latency_ms.to_string(), rate: rate.to_string() }
}

fn outcomes() -> Vec<Outcome> {
    vec![
        Outcome::SmallPayload { received: 20 },
        Outcome::LargePayload { received: 1_048_576 },
        Outcome::ServerStream { counted: Tally { chunks: 100, bytes: 1_024_000 } },
        Outcome::ClientStream { reply: "1024000:100".to_string() },
        Outcome::ClientStreamCounted {
            response: StreamResponse { total_bytes: 1_024_000, total_chunks: 100 },
        },
        Outcome::BidiStream { counted: Tally { chunks: 49, bytes: 512_000 } },
        Outcome::ManyRequests,
    ]
}

#[test]
fn tests_are_named() {
    let names: Vec<String> = suite().into_iter().map(name).collect();
    assert_eq!(
        names,
        vec![
            "Small payload (20 B)",
            "Large payload (1024 KB)",
            "Server stream (100x10 KB)",
            "Client stream (100x10 KB)",
            "Bidi stream (50 each way)",
            "Many requests (1000)",
        ]
    );
    assert!(names.iter().all(|n| n.len() <= 30));
    let labels: Vec<String> = suite().into_iter().map(label).collect();
    assert_eq!(
        labels,
        vec![
            "Small payload (20 B):    ",
            "Large payload (1024 KB):  ",
            "Server stream (100 x 10 KB): ",
            "Client stream (100 x 10 KB): ",
            "Bidi stream (50 each way): ",
            "Many requests (1000 reqs):  ",
        ]
    );
    let stages: Vec<&str> = suite().into_iter().map(stage_line).collect();
    assert_eq!(
        stages,
        vec![
            "[1/6] Small payload...",
            "[2/6] Large payload...",
            "[3/6] Server streaming...",
            "[4/6] Client streaming...",
            "[5/6] Bidirectional streaming...",
            "[6/6] Many small requests...",
        ]
    );
}

#[test]
fn progress_has_its_length() {
    let lens: Vec<Option<u64>> = suite().into_iter().map(progress_len).collect();
    assert_eq!(lens, vec![None, None, Some(100), Some(100), Some(100), Some(1000)]);
}

#[test]
fn headings_name_the_transport() {
    assert_eq!(banner(Protocol::Http3), "=== HTTP/3 Benchmark ===\n");
    assert_eq!(banner(Protocol::Grpc), "=== gRPC Benchmark ===\n");
    assert_eq!(banner(Protocol::Http2), "=== HTTP/2 Benchmark ===\n");
    assert_eq!(summary_title(Protocol::Http3), "HTTP/3 Benchmark Results");
    assert_eq!(summary_title(Protocol::Grpc), "gRPC Benchmark Results");
}

#[test]
fn outcomes_tell_what_was_moved() {
    let moved: Vec<Option<usize>> = outcomes().iter().map(|o| o.moved_bytes()).collect();
    assert_eq!(
        moved,
        vec![
            None,
            Some(2_097_152),
            Some(1_024_000),
            Some(1_024_000),
            Some(1_024_000),
            Some(1_024_000),
            None,
        ]
    );
    assert!(outcomes().iter().all(|o| o.adds_up()));
    assert!(!Outcome::LargePayload { received: usize::MAX }.adds_up());
    let full = Tally { chunks: 0, bytes: usize::MAX };
    assert!(!Outcome::BidiStream { counted: full }.adds_up());
    assert!(Outcome::ServerStream { counted: full }.adds_up());
}

#[test]
fn lines_are_worded() {
    let lines: Vec<String> = outcomes().iter().map(|o| o.line(&figures("1.50", "12.3"))).collect();
    assert_eq!(
        lines,
        vec![
            "  1.50ms  (sent 20 B, recv 20 B)",
            "  1.50ms  (12.3 MB/s)",
            "  1.50ms  (12.3 MB/s, 100 chunks, 1024000 B)",
            "  1.50ms  (12.3 MB/s, server resp: 1024000:100)",
            "  1.50ms  (12.3 MB/s, server got 100 chunks, 1024000 B)",
            "  1.50ms  (12.3 MB/s, sent 50, recv 49 chunks)",
            "  1.50ms  (12.3 req/s)",
        ]
    );
}

#[test]
fn labelled_lines_are_worded() {
    let lines: Vec<String> = outcomes()
        .iter()
        .map(|o| o.labelled_line(&figures("1.50", "12.3")))
        .collect();
    assert_eq!(
        lines,
        vec![
            "Small payload (20 B):    1.50ms  (sent 20 B, recv 20 B)",
            "Large payload (1024 KB):  1.50ms  (12.3 MB/s)",
            "Server stream (100 x 10 KB): 1.50ms  (12.3 MB/s, 100 chunks, 1024000 B total)",
            "Client stream (100 x 10 KB): 1.50ms  (12.3 MB/s, server resp: 1024000:100)",
            "Client stream (100 x 10 KB): 1.50ms  (12.3 MB/s, server got 100 chunks, 1024000 B)",
            "Bidi stream (50 each way): 1.50ms  (12.3 MB/s, sent 50, recv 49 chunks)",
            "Many requests (1000 reqs):  1.50ms  (12.3 req/s)",
        ]
    );
}

#[test]
fn results_hold_what_the_summary_shows() {
    let result = outcomes()[2].result(figures("8.25", "118.4"));
    assert_eq!(result.name, "Server stream (100x10 KB)");
    assert_eq!(result.latency_ms, "8.25");
    assert_eq!(result.throughput_mbs, Some("118.4".to_string()));
    assert_eq!(result.details, "100 chunks, 1024000 B");
    let result = outcomes()[6].result(figures("500.00", "2000"));
    assert_eq!(result.throughput_mbs, None);
    assert_eq!(result.details, "2000 req/s");
    assert_eq!(outcomes()[1].result(figures("1.00", "2.0")).details, "");
    assert_eq!(outcomes()[0].kind(), TestKind::SmallPayload);
    assert_eq!(outcomes()[0].result(figures("1.00", "2.0")).throughput_mbs, None);
    assert_eq!(outcomes()[5].details("x"), "sent 50, recv 49 chunks");
}

/// The summary, drawn up with the formatting of the standard library.
fn formatted(title: &str, results: &[TestResult]) -> String {
    let mut out = format!("\n{}\n{}\n{}\n", "=".repeat(72), title, "=".repeat(72));
    out += &format!("{:<30} {:>10} {:>14}   {}\n", "Test", "Latency", "Throughput", "Details");
    out += &format!("{}\n", "-".repeat(72));
    for r in results {
        let latency = format!("{}ms", r.latency_ms);
        let throughput = match &r.throughput_mbs {
            Some(t) => format!("{} MB/s", t),
            None => "-".to_string(),
        };
        out += &format!("{:<30} {:>10} {:>14}   {}\n", r.name, latency, throughput, r.details);
    }
    out += &format!("{}\n", "=".repeat(72));
    out
}

#[test]
fn summaries_are_drawn_up() {
    let mut results = Vec::new();
    for outcome in outcomes() {
        results.push(outcome.result(figures("123456.78", "9.9")));
    }
    let title = summary_title(Protocol::Grpc);
    assert_eq!(print_summary(&title, &results), formatted(&title, &results));
    assert_eq!(print_summary("", &Vec::new()), formatted("", &[]));
}

#[test]
fn details_line_up() {
    for outcome in outcomes() {
        let result = outcome.result(figures("12.34", "56.7"));
        let row = summary_row(&result);
        assert_eq!(&row[59..], result.details);
    }
}
