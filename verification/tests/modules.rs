use kaspa_ng_core::modules::database::{
    format_log_line, indexer_table_names, table_rows, Database, TableRow, LOG_LIMIT,
    LOG_POLL_INTERVAL_SECS, POLL_INTERVAL_SECS,
};
use kaspa_ng_core::modules::explorer::{
    address_error_line, bind_failed_line, file_for_path, file_to_serve, requested_path,
    spawn_failed_line,
};
use kaspa_ng_core::modules::k_social::{
    choose_file, root_asset_name, start_fault_line, FileChoice, StartFault,
};
use kaspa_ng_core::modules::explorer::{
    content_type_for_path, effective_port, explorer_server_url, explorer_start_url,
    extract_explorer_path, percent_decode, response_header, sanitize_path,
};
use kaspa_ng_core::modules::k_social::{
    byte_range, canned_header, content_length, content_length_of, content_type_of, file_for,
    file_header, forward_request, header_end, k_indexer_health, k_indexer_health_request,
    k_indexer_unwell, k_runtime_config_script, normalize_k_node_url, parse_request, push_log,
    request_complete, route, Canned, Probe, Route, Span, MAX_LOG_LINES,
};
use kaspa_ng_core::launcher::{Base, Candidate};
use kaspa_ng_core::modules::settings::{
    all_ready, change_current_network, host_for_stratum, local_ip_for_stratum, endpoints_to_probe, may_look, next_ready_step, Endpoint, ReadyStep,
    READY_DEADLINE_MS, READY_POLL_MS,
};
use kaspa_ng_core::modules::transfer::{
    copied_after, copy_wants_more, WriteOutcome, WriteState, WriteStep, COPY_CHUNK,
    WRITE_PAUSE_MS, WRITE_RETRIES,
};
use kaspa_ng_core::network::Network;
use kaspa_ng_core::services::self_hosted_db::{LogService, TableStats};
use kaspa_ng_core::settings::{
    Effective, ExplorerEndpoint, ExplorerNetworkProfiles, SelfHostedSettings, Settings,
};
use std::collections::VecDeque;

// ------------------------------------------------------------- explorer

#[test]
fn percent_escapes_are_decoded() {
    assert_eq!(percent_decode("/a%20b"), "/a b");
    assert_eq!(percent_decode("%41%42c"), "ABc");
    assert_eq!(percent_decode("%2e%2E"), "..");
    assert_eq!(percent_decode("%e9"), "\u{e9}");
    assert_eq!(percent_decode("plain"), "plain");
    assert_eq!(percent_decode(""), "");
}

#[test]
fn broken_percent_escapes_are_kept() {
    assert_eq!(percent_decode("%"), "%");
    assert_eq!(percent_decode("%4"), "%4");
    assert_eq!(percent_decode("%zz"), "%zz");
    assert_eq!(percent_decode("%4g!"), "%4g!");
    assert_eq!(percent_decode("%%41"), "%%41");
    assert_eq!(percent_decode("%-1"), "%-1");
    assert_eq!(percent_decode("%+5"), "\u{5}");
    assert_eq!(percent_decode("100%"), "100%");
}

#[test]
fn paths_never_lead_out_of_the_root() {
    assert_eq!(sanitize_path("/"), "/");
    assert_eq!(sanitize_path(""), "/");
    assert_eq!(sanitize_path("/index.html?x=1"), "/index.html");
    assert_eq!(sanitize_path("/a/../../etc/passwd"), "/a/etc/passwd");
    assert_eq!(sanitize_path("/%2e%2e/%2e%2e/secret"), "/secret");
    assert_eq!(sanitize_path("//a///b/./c/"), "/a/b/c");
    assert_eq!(sanitize_path("a%2Fb"), "/a/b");
    assert_eq!(sanitize_path("/..%2f..%2fx"), "/x");
    assert_eq!(sanitize_path("/a?b/../c"), "/a");
    assert_eq!(sanitize_path("/.../x"), "/.../x");
}

#[test]
fn content_types_by_extension() {
    let cases = [
        ("index.html", "text/html; charset=utf-8"),
        ("/root/app.js", "application/javascript; charset=utf-8"),
        ("a/b/style.css", "text/css; charset=utf-8"),
        ("data.json", "application/json; charset=utf-8"),
        ("logo.svg", "image/svg+xml"),
        ("p.png", "image/png"),
        ("p.jpg", "image/jpeg"),
        ("p.jpeg", "image/jpeg"),
        ("p.gif", "image/gif"),
        ("p.webp", "image/webp"),
        ("favicon.ico", "image/x-icon"),
        ("f.woff", "font/woff"),
        ("f.woff2", "font/woff2"),
        ("f.ttf", "font/ttf"),
        ("f.otf", "font/otf"),
        ("archive.tar.gz", "application/octet-stream"),
        ("noext", "application/octet-stream"),
        (".html", "application/octet-stream"),
        ("dir.html/file", "application/octet-stream"),
        ("a.HTML", "application/octet-stream"),
        ("", "application/octet-stream"),
        ("..", "application/octet-stream"),
        ("x.", "application/octet-stream"),
        ("dir/page.html/", "text/html; charset=utf-8"),
    ];
    for (path, want) in cases {
        assert_eq!(content_type_for_path(path), want, "{path:?}");
    }
}

#[test]
fn explorer_urls() {
    assert_eq!(effective_port(0), 51963);
    assert_eq!(effective_port(8080), 8080);
    assert_eq!(explorer_server_url(51963), "http://127.0.0.1:51963/");
    let base = "http://127.0.0.1:51963/";
    assert_eq!(explorer_start_url(base, ""), base);
    assert_eq!(explorer_start_url(base, " / "), base);
    assert_eq!(explorer_start_url(base, "/blocks/1"), "http://127.0.0.1:51963/blocks/1");
    assert_eq!(explorer_start_url(base, "tx"), "http://127.0.0.1:51963/tx");
    assert_eq!(explorer_start_url(base, "//x"), "http://127.0.0.1:51963//x");
    assert_eq!(
        response_header("text/html; charset=utf-8", 42),
        "HTTP/1.1 200 OK\r\nContent-Type: text/html; charset=utf-8\r\nContent-Length: 42\r\nCache-Control: no-cache\r\n\r\n"
    );
}

#[test]
fn shown_path_is_read_from_the_address() {
    let base = "http://127.0.0.1:51963/";
    assert_eq!(extract_explorer_path("http://127.0.0.1:51963/", base).as_deref(), Some("/"));
    assert_eq!(extract_explorer_path("http://127.0.0.1:51963/blocks/7", base).as_deref(), Some("/blocks/7"));
    assert_eq!(extract_explorer_path("http://127.0.0.1:51963//x", base).as_deref(), Some("/x"));
    assert_eq!(extract_explorer_path("https://kaspa.org/", base), None);
    assert_eq!(extract_explorer_path("abab/x", "ab").as_deref(), Some("/x"));
    assert_eq!(extract_explorer_path("abc", "").as_deref(), Some("/abc"));
    assert_eq!(extract_explorer_path("", "").as_deref(), Some("/"));
}

// ------------------------------------------------------------- database

#[test]
fn database_view_addresses() {
    let mut s = SelfHostedSettings::default();
    assert_eq!(Database::api_url(&s), "http://127.0.0.1:19111/status");
    s.api_bind = "0.0.0.0".to_string();
    s.api_port = 8080;
    assert_eq!(Database::api_url(&s), "http://127.0.0.1:8080/status");
    s.api_bind = "10.0.0.2".to_string();
    assert_eq!(
        Database::logs_url(&s, LogService::KIndexer, 1000),
        "http://10.0.0.2:8080/logs/k-indexer?limit=1000"
    );
    assert_eq!(Database::resolve_api_host("[::]"), "127.0.0.1");
}

#[test]
fn starting_database_is_told_from_a_broken_one() {
    assert!(Database::is_indexer_initializing_error(
        "HTTP 503: {\"error\":\"Unable to collect indexer metrics\"}"
    ));
    assert!(!Database::is_indexer_initializing_error("HTTP 500: Unable to collect indexer metrics"));
    assert!(!Database::is_indexer_initializing_error("503 Service Unavailable"));
    assert!(!Database::is_indexer_initializing_error(""));
}

#[test]
fn polls_are_made_when_due() {
    let s = SelfHostedSettings::default();
    let mut d = Database::new();
    assert_eq!((d.poll_interval_secs, d.log_poll_interval_secs, d.log_limit), (8, 2, 1000));
    assert_eq!((POLL_INTERVAL_SECS, LOG_POLL_INTERVAL_SECS, LOG_LIMIT), (8, 2, 1000));
    assert_eq!(d.log_service, LogService::Postgres);
    assert!(d.log_autoscroll);
    assert_eq!(d.schedule_fetch(&s, None).as_deref(), Some("http://127.0.0.1:19111/status"));
    assert!(d.polls.in_flight);
    assert_eq!(d.schedule_fetch(&s, Some(100)), None);
    d.fetch_finished();
    assert_eq!(d.schedule_fetch(&s, Some(7)), None);
    assert!(!d.polls.in_flight);
    assert!(d.schedule_fetch(&s, Some(8)).is_some());
    d.log_service = LogService::Indexer;
    assert_eq!(
        d.schedule_logs_fetch(&s, Some(2)).as_deref(),
        Some("http://127.0.0.1:19111/logs/indexer?limit=1000")
    );
    assert_eq!(d.schedule_logs_fetch(&s, None), None);
    d.logs_fetch_finished();
    assert_eq!(d.schedule_logs_fetch(&s, Some(1)), None);
    assert!(d.polls.in_flight);
}

#[test]
fn log_lines_are_shown_with_time_and_level() {
    assert_eq!(format_log_line("2024-01-01T00:00:00Z", "WARN", "hello"), "2024-01-01T00:00:00Z [WARN] hello");
}

// ------------------------------------------------------------- k-social

#[test]
fn view_log_keeps_the_newest_lines() {
    assert_eq!(MAX_LOG_LINES, 200);
    let mut logs = VecDeque::new();
    for i in 0..205 {
        push_log(&mut logs, format!("{i}"));
    }
    assert_eq!(logs.len(), 200);
    assert_eq!(logs.front().unwrap(), "5");
    assert_eq!(logs.back().unwrap(), "204");
}

#[test]
fn node_urls_become_web_socket_urls() {
    assert_eq!(normalize_k_node_url("wrpcs://node:1".to_string()), "wss://node:1");
    assert_eq!(normalize_k_node_url("wrpc://node:1".to_string()), "ws://node:1");
    assert_eq!(normalize_k_node_url("ws://node".to_string()), "ws://node");
    assert_eq!(normalize_k_node_url("wss://node".to_string()), "wss://node");
    assert_eq!(normalize_k_node_url("127.0.0.1:17110".to_string()), "ws://127.0.0.1:17110");
    assert_eq!(normalize_k_node_url("".to_string()), "ws://");
}

#[test]
fn config_script_points_at_the_local_proxy() {
    let script = k_runtime_config_script("10.0.0.1", 3000, Network::Testnet12, "ws://node:17210");
    assert!(script.starts_with("\n(() => {\n  try {\n    const key = \"kaspa_user_settings\";"));
    assert!(script.contains("parsed.customIndexerUrl = \"http://127.0.0.1:51964/api\";"));
    assert!(script.contains("parsed.customKaspaNodeUrl = \"ws://node:17210\";"));
    assert!(script.contains("parsed.selectedNetwork = \"testnet-10\";"));
    assert!(script.contains("      apiBaseUrl: \"http://127.0.0.1:51964/api\",\n      kaspaNodeUrl: \"ws://node:17210\",\n      network: \"testnet-10\"\n    };"));
    assert!(script.ends_with("  } catch (_) {}\n})();\n"));
    assert!(!script.contains("10.0.0.1"));
    assert!(k_runtime_config_script("h", 1, Network::Mainnet, "x").contains("network: \"mainnet\""));
}

#[test]
fn requests_are_read() {
    let r = parse_request("GET /user/a.svg?x=1 HTTP/1.1\r\nHost: h\r\nRange: bytes=0-9 \r\n\r\n");
    assert_eq!(r.method, "GET");
    assert_eq!(r.path, "/user/a.svg?x=1");
    assert_eq!(r.normalized, "/user/a.svg");
    assert!(r.keep_alive);
    assert_eq!(r.range.as_deref(), Some("bytes=0-9"));
    let empty = parse_request("");
    assert_eq!((empty.method.as_str(), empty.path.as_str(), empty.normalized.as_str()), ("", "/", "/"));
    assert!(empty.keep_alive);
    assert_eq!(empty.range, None);
}

#[test]
fn keep_alive_follows_version_and_header() {
    let keep = |text: &str| parse_request(text).keep_alive;
    assert!(keep("GET / HTTP/1.1\r\n\r\n"));
    assert!(!keep("GET / HTTP/1.1\r\nConnection: close\r\n\r\n"));
    assert!(!keep("GET / HTTP/1.1\r\nconnection:  CLOSE \r\n\r\n"));
    assert!(keep("GET / HTTP/1.1\r\nConnection: keep-alive\r\n\r\n"));
    assert!(!keep("GET / HTTP/1.0\r\n\r\n"));
    assert!(keep("GET / http/1.0\r\nConnection: Keep-Alive\r\n\r\n"));
    assert!(!keep("GET / HTTP/1.0\r\nConnection: close\r\n\r\n"));
    assert!(keep("GET /\r\n\r\n"));
}

#[test]
fn requests_are_routed() {
    assert_eq!(route("/registerSW.js"), Route::ServiceWorkerStub);
    assert_eq!(route("/sw.js"), Route::ServiceWorkerGone);
    assert_eq!(route("/workbox-abc.js"), Route::ServiceWorkerGone);
    assert_eq!(route("/api"), Route::Api);
    assert_eq!(route("/api/"), Route::Api);
    assert_eq!(route("/api/posts"), Route::Api);
    assert_eq!(route("/apiary"), Route::File);
    assert_eq!(route("/"), Route::File);
    assert_eq!(route("/index.html"), Route::File);
    assert_eq!(file_for("/"), "index.html");
    assert_eq!(file_for(""), "index.html");
    assert_eq!(file_for("//user/a.svg"), "user/a.svg");
}

#[test]
fn social_content_types() {
    assert_eq!(content_type_of("app.wasm"), "application/wasm");
    assert_eq!(content_type_of("index.html"), "text/html; charset=utf-8");
    assert_eq!(content_type_of("a.gif"), "application/octet-stream");
    assert_eq!(content_type_of("a.json"), "application/json; charset=utf-8");
    assert_eq!(content_type_of("x"), "application/octet-stream");
}

#[test]
fn ranges_are_kept_within_the_file() {
    let span = |from, to, partial| Span { from, to, partial };
    assert_eq!(byte_range(None, 100), span(0, 99, false));
    assert_eq!(byte_range(Some("bytes=10-19"), 100), span(10, 19, true));
    assert_eq!(byte_range(Some("bytes=10-"), 100), span(10, 99, true));
    assert_eq!(byte_range(Some("bytes= 10 - 500 "), 100), span(10, 99, true));
    assert_eq!(byte_range(Some("bytes=99-"), 100), span(99, 99, true));
    assert_eq!(byte_range(Some("bytes=100-"), 100), span(0, 99, false));
    assert_eq!(byte_range(Some("bytes=-5"), 100), span(0, 99, false));
    assert_eq!(byte_range(Some("bytes=abc-5"), 100), span(0, 99, false));
    assert_eq!(byte_range(Some("items=1-2"), 100), span(0, 99, false));
    assert_eq!(byte_range(Some("bytes=5-x"), 100), span(5, 99, true));
    assert_eq!(byte_range(Some("bytes=50-10"), 100), span(50, 10, true));
    assert_eq!(byte_range(Some("bytes=0-0"), 0), span(0, 0, false));
    assert_eq!(byte_range(None, 0), span(0, 0, false));
    assert_eq!(content_length_of(span(0, 99, false)), 100);
    assert_eq!(content_length_of(span(10, 19, true)), 10);
    assert_eq!(content_length_of(span(50, 10, true)), 1);
    assert_eq!(content_length_of(span(0, 0, false)), 1);
    assert_eq!(content_length_of(span(0, u64::MAX, false)), u64::MAX);
}

#[test]
fn file_answers() {
    let whole = file_header(true, "text/html; charset=utf-8", Span { from: 0, to: 99, partial: false }, 100, true);
    assert_eq!(
        whole,
        "HTTP/1.1 200 OK\r\nContent-Type: text/html; charset=utf-8\r\nContent-Length: 100\r\nAccept-Ranges: bytes\r\nCache-Control: no-store, no-cache, must-revalidate\r\nPragma: no-cache\r\nExpires: 0\r\nConnection: keep-alive\r\nKeep-Alive: timeout=5, max=100\r\n\r\n"
    );
    let part = file_header(true, "image/png", Span { from: 10, to: 19, partial: true }, 100, false);
    assert_eq!(
        part,
        "HTTP/1.1 206 Partial Content\r\nContent-Type: image/png\r\nContent-Length: 10\r\nAccept-Ranges: bytes\r\nCache-Control: no-store, no-cache, must-revalidate\r\nPragma: no-cache\r\nExpires: 0\r\nConnection: close\r\nContent-Range: bytes 10-19/100\r\n\r\n"
    );
    let missing = file_header(false, "text/html; charset=utf-8", Span { from: 0, to: 9, partial: false }, 10, false);
    assert!(missing.starts_with("HTTP/1.1 404 Not Found\r\n"));
}

#[test]
fn canned_answers() {
    assert_eq!(
        canned_header(Canned::ServiceWorkerStub, false),
        "HTTP/1.1 200 OK\r\nContent-Type: application/javascript; charset=utf-8\r\nContent-Length: 39\r\nCache-Control: no-store, no-cache, must-revalidate\r\nPragma: no-cache\r\nExpires: 0\r\nConnection: close\r\n\r\n"
    );
    assert_eq!(Canned::ServiceWorkerStub.body(), "/* kaspa-ng: service worker disabled */");
    assert_eq!(
        canned_header(Canned::ServiceWorkerGone, true),
        "HTTP/1.1 404 Not Found\r\nContent-Type: application/javascript; charset=utf-8\r\nContent-Length: 36\r\nCache-Control: no-store, no-cache, must-revalidate\r\nPragma: no-cache\r\nExpires: 0\r\nConnection: keep-alive\r\nKeep-Alive: timeout=5, max=100\r\n"
    );
    assert_eq!(
        canned_header(Canned::ApiUnavailable, false),
        "HTTP/1.1 502 Bad Gateway\r\nContent-Type: application/json; charset=utf-8\r\nContent-Length: 37\r\nConnection: close\r\n\r\n"
    );
    assert_eq!(Canned::ApiUnavailable.body(), "{\"error\":\"K-indexer API unavailable\"}");
    assert_eq!(
        canned_header(Canned::OpenFailed, false),
        "HTTP/1.1 500 Internal Server Error\r\nContent-Type: text/plain; charset=utf-8\r\nContent-Length: 14\r\nConnection: close\r\n\r\n"
    );
}

#[test]
fn requests_are_handed_on_without_the_api_prefix() {
    let head = "POST /api/posts?x=1 HTTP/1.1\r\nHost: 127.0.0.1:51964\r\nContent-Type: application/json\r\nConnection: keep-alive\r\nX-Test: a:b";
    assert_eq!(
        forward_request(head, "10.0.0.1", 3000),
        "POST /posts?x=1 HTTP/1.1\r\nContent-Type: application/json\r\nX-Test: a:b\r\nHost: 10.0.0.1:3000\r\nConnection: close\r\n\r\n"
    );
    assert_eq!(
        forward_request("GET /api HTTP/1.0", "h", 1),
        "GET / HTTP/1.0\r\nHost: h:1\r\nConnection: close\r\n\r\n"
    );
    assert_eq!(
        forward_request("GET /api?q=1", "h", 1),
        "GET / HTTP/1.1\r\nHost: h:1\r\nConnection: close\r\n\r\n"
    );
    assert_eq!(
        forward_request("", "h", 1),
        "GET / HTTP/1.1\r\nHost: h:1\r\nConnection: close\r\n\r\n"
    );
    assert_eq!(
        forward_request("GET /other HTTP/1.1\r\nnocolon\r\n HOST : x", "h", 1),
        "GET /other HTTP/1.1\r\nnocolon\r\nHost: h:1\r\nConnection: close\r\n\r\n"
    );
}

#[test]
fn health_answers_are_read() {
    let ok = k_indexer_health("HTTP/1.1 200 OK\r\nContent-Length: 2\r\n\r\nok");
    assert!(ok.ready);
    assert_eq!(ok.status, "ready (HTTP/1.1 200 OK)");
    let also = k_indexer_health("HTTP/1.1 299");
    assert!(also.ready);
    let down = k_indexer_health("HTTP/1.1 503 Service Unavailable\r\n\r\n");
    assert!(!down.ready);
    assert_eq!(down.status, "not ready (HTTP 503)");
    let moved = k_indexer_health("HTTP/1.1 300 x");
    assert_eq!(moved.status, "not ready (HTTP 300)");
    for bad in ["garbage", "HTTP/1.1 abc", "HTTP/1.1 70000 x", ""] {
        let h = k_indexer_health(bad);
        assert!(!h.ready);
        assert_eq!(h.status, "connected, invalid HTTP response");
    }
    assert_eq!(k_indexer_unwell(Probe::Unreachable).status, "unreachable");
    assert_eq!(k_indexer_unwell(Probe::RequestFailed).status, "connected, request failed");
    assert_eq!(k_indexer_unwell(Probe::EmptyResponse).status, "connected, empty response");
    assert_eq!(
        k_indexer_health_request("127.0.0.1", 3000),
        "GET /health HTTP/1.1\r\nHost: 127.0.0.1:3000\r\nConnection: close\r\n\r\n"
    );
}

#[test]
fn requests_are_framed() {
    assert_eq!(header_end(&b"GET / HTTP/1.1\r\nA: b\r\n\r\nbody".to_vec()), Some(24));
    assert_eq!(header_end(&b"\r\n\r\n".to_vec()), Some(4));
    assert_eq!(header_end(&b"a\r\n\r\nb\r\n\r\n".to_vec()), Some(5));
    assert_eq!(header_end(&b"GET / HTTP/1.1\r\nA: b\r\n".to_vec()), None);
    assert_eq!(header_end(&b"\r\n\r".to_vec()), None);
    assert_eq!(header_end(&Vec::new()), None);
    assert_eq!(content_length("POST / HTTP/1.1\r\nContent-Length: 12\r\n\r\n"), 12);
    assert_eq!(content_length("POST / HTTP/1.1\r\ncontent-length:7\r\nContent-Length: 9\r\n"), 9);
    assert_eq!(content_length("POST / HTTP/1.1\r\nContent-Length: x\r\n"), 0);
    assert_eq!(content_length("POST / HTTP/1.1\r\nContent-Length: 5\r\nContent-Length: x\r\n"), 0);
    assert_eq!(content_length("GET / HTTP/1.1\r\n"), 0);
    assert!(!request_complete(10, None, 0));
    assert!(request_complete(24, Some(24), 0));
    assert!(!request_complete(24, Some(24), 1));
    assert!(request_complete(30, Some(24), 6));
    assert!(!request_complete(29, Some(24), 6));
}

// ------------------------------------------------------- table overview

fn stats(name: &str, rows: i64, bytes: i64) -> TableStats {
    TableStats { table_name: name.to_string(), live_rows: rows, total_size_bytes: bytes }
}

#[test]
fn indexer_tables_are_listed_in_order() {
    let names = indexer_table_names();
    assert_eq!(
        names,
        vec![
            "vars",
            "blocks",
            "block_parent",
            "subnetworks",
            "transactions",
            "transactions_acceptances",
            "blocks_transactions",
            "transactions_inputs",
            "transactions_outputs",
            "addresses_transactions",
            "scripts_transactions",
            "k_vars",
            "k_broadcasts",
            "k_votes",
            "k_mentions",
            "k_blocks",
            "k_follows",
            "k_contents",
            "k_hashtags",
        ]
    );
}

#[test]
fn unreported_tables_keep_their_order() {
    let rows = table_rows(&Vec::new());
    let names: Vec<&str> = rows.iter().map(|r| r.name).collect();
    assert_eq!(names, indexer_table_names());
    assert!(rows.iter().all(|r| r.metrics.is_none()));
}

#[test]
fn reported_tables_come_largest_first() {
    let tables = vec![
        stats("blocks", 10, 500),
        stats("transactions", 70, 9000),
        stats("k_votes", 3, 500),
        stats("unknown_table", 1, 1_000_000),
        stats("vars", 2, 0),
    ];
    let rows = table_rows(&tables);
    assert_eq!(rows.len(), indexer_table_names().len());
    assert_eq!(rows[0], TableRow { name: "transactions", metrics: Some((70, 9000)) });
    // Tables of one size stay in the order of the list.
    assert_eq!(rows[1], TableRow { name: "blocks", metrics: Some((10, 500)) });
    assert_eq!(rows[2], TableRow { name: "k_votes", metrics: Some((3, 500)) });
    assert_eq!(rows[3], TableRow { name: "vars", metrics: Some((2, 0)) });
    // The others follow as they are listed.
    assert_eq!(rows[4], TableRow { name: "block_parent", metrics: None });
    assert_eq!(rows[5], TableRow { name: "subnetworks", metrics: None });
    assert_eq!(rows[rows.len() - 1], TableRow { name: "k_hashtags", metrics: None });
    assert!(rows.iter().all(|r| r.name != "unknown_table"));
}

#[test]
fn last_report_of_a_table_counts() {
    let tables = vec![stats("blocks", 1, 10), stats("blocks", 2, 20)];
    let rows = table_rows(&tables);
    assert_eq!(rows[0], TableRow { name: "blocks", metrics: Some((2, 20)) });
    assert_eq!(rows.iter().filter(|r| r.name == "blocks").count(), 1);
}

#[test]
fn tables_of_negative_size_come_after_unreported_ones() {
    let tables = vec![stats("vars", 1, -5), stats("blocks", 1, 7)];
    let rows = table_rows(&tables);
    assert_eq!(rows[0], TableRow { name: "blocks", metrics: Some((1, 7)) });
    assert_eq!(rows[rows.len() - 1], TableRow { name: "vars", metrics: Some((1, -5)) });
    assert!(rows[1..rows.len() - 1].iter().all(|r| r.metrics.is_none()));
}

// ------------------------------------------------------ starting servers

fn at(base: Base, path: &str) -> Candidate {
    Candidate { base, path: path.to_string() }
}

#[test]
fn explorer_build_is_looked_for_in_six_places() {
    assert_eq!(
        kaspa_ng_core::modules::explorer::explorer_root_candidates(),
        vec![
            at(Base::WorkingDir, "kaspa-explorer-ng/build/client"),
            at(Base::WorkingDir, "kaspa-explorer-ng/build"),
            at(Base::WorkingDir, "kaspa-explorer-ng/dist"),
            at(Base::ExeDir, "kaspa-explorer-ng/build/client"),
            at(Base::ExeDir, "kaspa-explorer-ng/build"),
            at(Base::ExeDir, "kaspa-explorer-ng/dist"),
        ]
    );
    assert_eq!(kaspa_ng_core::modules::explorer::BUILD_MARKER, "index.html");
}

#[test]
fn front_end_build_is_looked_for_up_to_four_levels_up() {
    assert_eq!(
        kaspa_ng_core::modules::k_social::k_build_root_candidates(),
        vec![
            at(Base::WorkingDir, "K/dist"),
            at(Base::WorkingAncestor(1), "K/dist"),
            at(Base::WorkingAncestor(2), "K/dist"),
            at(Base::WorkingAncestor(3), "K/dist"),
            at(Base::WorkingAncestor(4), "K/dist"),
            at(Base::ExeDir, "K/dist"),
            at(Base::ExeAncestor(1), "K/dist"),
            at(Base::ExeAncestor(2), "K/dist"),
            at(Base::ExeAncestor(3), "K/dist"),
            at(Base::ExeAncestor(4), "K/dist"),
        ]
    );
    assert_eq!(kaspa_ng_core::modules::k_social::BUILD_MARKER, "index.html");
}

#[test]
fn server_start_faults_in_words() {
    assert_eq!(
        bind_failed_line(51963, "in use"),
        "Explorer server bind failed on 127.0.0.1:51963 (in use). Close other instances or free the port."
    );
    assert_eq!(address_error_line("gone"), "Explorer server address error: gone");
    assert_eq!(spawn_failed_line("no threads"), "Explorer server spawn failed: no threads");
    assert_eq!(
        start_fault_line(StartFault::Bind { port: 51964 }, "in use"),
        "K-Social server bind failed on 127.0.0.1:51964 (in use)"
    );
    assert_eq!(
        start_fault_line(StartFault::Nonblocking, "e"),
        "K-Social server nonblocking setup failed: e"
    );
    assert_eq!(start_fault_line(StartFault::Address, "e"), "K-Social server address error: e");
    assert_eq!(start_fault_line(StartFault::Spawn, ""), "K-Social server spawn failed: ");
}

// -------------------------------------------------------------- transfer

#[test]
fn nothing_to_write_is_finished_at_once() {
    assert_eq!(WriteState::begin(0), WriteStep::Finished);
    assert_eq!(WriteState::begin(1), WriteStep::Write { from: 0 });
    assert_eq!(WriteState::new(), WriteState { sent: 0, retries: 0 });
}

#[test]
fn partial_writes_go_on_where_they_stopped() {
    let mut state = WriteState::new();
    assert_eq!(state.after_write(10, WriteOutcome::Wrote(4)), WriteStep::Write { from: 4 });
    assert_eq!(state.after_write(10, WriteOutcome::Wrote(5)), WriteStep::Write { from: 9 });
    assert_eq!(state.after_write(10, WriteOutcome::Wrote(1)), WriteStep::Finished);
    assert_eq!(state, WriteState { sent: 10, retries: 0 });
}

#[test]
fn busy_socket_is_tried_three_more_times() {
    assert_eq!(WRITE_RETRIES, 3);
    assert_eq!(WRITE_PAUSE_MS, 15);
    assert_eq!(COPY_CHUNK, 64 * 1024);
    let mut state = WriteState::new();
    assert_eq!(state.after_write(10, WriteOutcome::Wrote(2)), WriteStep::Write { from: 2 });
    for n in 1..=3u8 {
        assert_eq!(
            state.after_write(10, WriteOutcome::Busy),
            WriteStep::Pause { ms: 15, from: 2 }
        );
        assert_eq!(state, WriteState { sent: 2, retries: n });
    }
    assert_eq!(state.after_write(10, WriteOutcome::Busy), WriteStep::GiveUp);
    assert_eq!(state, WriteState { sent: 2, retries: 3 });
}

#[test]
fn a_write_that_gets_through_forgives_the_retries() {
    let mut state = WriteState::new();
    state.after_write(10, WriteOutcome::Busy);
    state.after_write(10, WriteOutcome::Busy);
    assert_eq!(state.retries, 2);
    assert_eq!(state.after_write(10, WriteOutcome::Wrote(1)), WriteStep::Write { from: 1 });
    assert_eq!(state.retries, 0);
    for _ in 0..3 {
        assert!(matches!(state.after_write(10, WriteOutcome::Busy), WriteStep::Pause { .. }));
    }
    assert_eq!(state.after_write(10, WriteOutcome::Busy), WriteStep::GiveUp);
}

#[test]
fn failed_and_empty_writes_end_the_transfer() {
    let mut state = WriteState::new();
    assert_eq!(state.after_write(10, WriteOutcome::Wrote(0)), WriteStep::WroteNothing);
    assert_eq!(state, WriteState::new());
    assert_eq!(state.after_write(10, WriteOutcome::Failed), WriteStep::GiveUp);
    assert_eq!(state, WriteState::new());
}

#[test]
fn a_write_beyond_the_end_finishes() {
    let mut state = WriteState { sent: 8, retries: 1 };
    assert_eq!(state.after_write(10, WriteOutcome::Wrote(usize::MAX)), WriteStep::Finished);
    assert_eq!(state, WriteState { sent: 10, retries: 0 });
}

#[test]
fn file_is_copied_until_it_ends_or_enough_was_sent() {
    assert!(copy_wants_more(0, 1));
    assert!(!copy_wants_more(1, 1));
    assert!(!copy_wants_more(2, 1));
    assert!(!copy_wants_more(0, 0));
    assert_eq!(copied_after(10, 0), None);
    assert_eq!(copied_after(10, 5), Some(15));
    assert_eq!(copied_after(u64::MAX - 1, 5), Some(u64::MAX));
    assert_eq!(copied_after(u64::MAX - 5, 5), Some(u64::MAX));
}

// ------------------------------------------------- waiting for services

#[test]
fn self_hosted_services_are_probed_on_four_ports() {
    let mut settings = SelfHostedSettings::default();
    settings.api_bind = " 0.0.0.0 ".to_string();
    settings.db_host = "db.local".to_string();
    let effective = Effective {
        db_name: "kaspa".to_string(),
        db_port: 5433,
        api_port: 8080,
        indexer_listen: String::new(),
        explorer_rest_port: 8000,
        explorer_socket_port: 8001,
    };
    let endpoint = |host: &str, port: u16| Endpoint { host: host.to_string(), port };
    assert_eq!(
        endpoints_to_probe(&settings, &effective),
        vec![
            endpoint("127.0.0.1", 8000),
            endpoint("127.0.0.1", 8001),
            endpoint("127.0.0.1", 8080),
            endpoint("db.local", 5433),
        ]
    );
    settings.api_bind = "192.168.1.5".to_string();
    assert_eq!(endpoints_to_probe(&settings, &effective)[2], endpoint("192.168.1.5", 8080));
}

#[test]
fn services_are_ready_when_all_answer() {
    assert!(all_ready(&vec![true, true, true, true]));
    assert!(!all_ready(&vec![true, true, false, true]));
    assert!(all_ready(&vec![]));
    assert_eq!(next_ready_step(0, &vec![true, true, true, true]), ReadyStep::Ready);
    assert_eq!(next_ready_step(0, &vec![true, false]), ReadyStep::Sleep { ms: 350 });
    assert_eq!(READY_POLL_MS, 350);
}

#[test]
fn services_are_given_up_after_fifteen_seconds() {
    assert_eq!(READY_DEADLINE_MS, 15_000);
    assert!(may_look(14_999));
    assert!(!may_look(15_000));
    assert_eq!(next_ready_step(14_999, &vec![false]), ReadyStep::Sleep { ms: 350 });
    assert_eq!(next_ready_step(15_000, &vec![false]), ReadyStep::GiveUp);
    // Beyond the deadline no look counts.
    assert_eq!(next_ready_step(15_000, &vec![true]), ReadyStep::GiveUp);
    assert_eq!(next_ready_step(u64::MAX, &vec![true]), ReadyStep::GiveUp);
}

#[test]
fn a_change_of_the_network_takes_synced_endpoints_along() {
    let mut settings = Settings::default();
    let before = settings.clone();
    change_current_network(&mut settings, Network::Testnet12, None);
    let mut expected = before.clone();
    expected.node.network = Network::Testnet12;
    assert_eq!(settings, expected);
    let endpoint = ExplorerEndpoint::new("http://10.0.0.1:1", "http://10.0.0.1:2", "/ws");
    let profiles = ExplorerNetworkProfiles {
        mainnet: endpoint.clone(),
        testnet10: endpoint.clone(),
        testnet12: endpoint,
    };
    change_current_network(&mut settings, Network::Mainnet, Some(profiles.clone()));
    let mut expected = before;
    expected.explorer.self_hosted = profiles;
    assert_eq!(settings, expected);
}

// ------------------------------------------------------- choosing files

#[test]
fn explorer_reads_the_path_of_a_request() {
    assert_eq!(requested_path("GET /blocks?x=1 HTTP/1.1\r\nHost: a\r\n\r\n"), "/blocks?x=1");
    assert_eq!(requested_path("GET   /a   HTTP/1.1"), "/a");
    assert_eq!(requested_path("GET"), "/");
    assert_eq!(requested_path(""), "/");
    assert_eq!(requested_path("\r\nGET /late HTTP/1.1"), "/");
    assert_eq!(requested_path("GET /first\nGET /second"), "/first");
}

#[test]
fn explorer_requests_agree_with_the_standard_library() {
    for request in ["GET /a HTTP/1.1\r\n\r\n", "", "\n", "POST", " GET\t/x y", "a b\rc d"] {
        let expected =
            request.lines().next().and_then(|line| line.split_whitespace().nth(1)).unwrap_or("/");
        assert_eq!(requested_path(request), expected, "{request:?}");
    }
}

#[test]
fn explorer_answers_with_its_page_where_no_file_lies() {
    assert_eq!(file_for_path("/assets/a.js"), "assets/a.js");
    assert_eq!(file_for_path("///a"), "a");
    assert_eq!(file_for_path("/"), "");
    assert_eq!(file_to_serve("/assets/a.js", true, true), "assets/a.js");
    assert_eq!(file_to_serve("/assets/a.js", false, false), "index.html");
    assert_eq!(file_to_serve("/assets", true, false), "index.html");
    assert_eq!(file_to_serve("/", true, true), "index.html");
    assert_eq!(file_to_serve("/", true, false), "index.html");
}

#[test]
fn file_names_are_the_last_parts_of_paths() {
    assert_eq!(root_asset_name("user/Kaspa-logo.svg"), Some("Kaspa-logo.svg".to_string()));
    assert_eq!(root_asset_name("a.js"), Some("a.js".to_string()));
    assert_eq!(root_asset_name("a/b/"), Some("b".to_string()));
    assert_eq!(root_asset_name("a//b//"), Some("b".to_string()));
    assert_eq!(root_asset_name("a/."), Some("a".to_string()));
    assert_eq!(root_asset_name("a/./"), Some("a".to_string()));
    assert_eq!(root_asset_name("a/.."), None);
    assert_eq!(root_asset_name("a/../"), None);
    assert_eq!(root_asset_name(".."), None);
    assert_eq!(root_asset_name("."), None);
    assert_eq!(root_asset_name("./."), None);
    assert_eq!(root_asset_name(""), None);
    assert_eq!(root_asset_name("..."), Some("...".to_string()));
    assert_eq!(root_asset_name("a/..b"), Some("..b".to_string()));
}

#[test]
fn file_names_agree_with_the_standard_library() {
    for path in
        ["user/logo.svg", "a", "a/", "a/.", "a/..", "", ".", "..", "./a", "a/./b/.", "x//y", "..a/b.."]
    {
        let expected = std::path::Path::new(path)
            .file_name()
            .map(|name| name.to_string_lossy().into_owned());
        assert_eq!(root_asset_name(path), expected, "{path:?}");
    }
}

#[test]
fn a_missing_file_is_looked_for_in_the_root() {
    assert_eq!(choose_file(true, true, None), FileChoice::Asked);
    assert_eq!(choose_file(true, true, Some(true)), FileChoice::Asked);
    // What lies there and is no file is not replaced.
    assert_eq!(choose_file(true, false, Some(true)), FileChoice::Fallback);
    assert_eq!(choose_file(false, false, Some(true)), FileChoice::RootAsset);
    assert_eq!(choose_file(false, false, Some(false)), FileChoice::Fallback);
    assert_eq!(choose_file(false, false, None), FileChoice::Fallback);
    assert!(FileChoice::Asked.is_found());
    assert!(FileChoice::RootAsset.is_found());
    assert!(!FileChoice::Fallback.is_found());
}

// ------------------------------------------------ the address for miners

#[test]
fn miners_are_told_the_address_of_the_machine() {
    assert_eq!(host_for_stratum(Some((false, "192.168.1.7"))), "192.168.1.7");
    assert_eq!(host_for_stratum(Some((true, "fe80::1"))), "[fe80::1]");
    assert_eq!(host_for_stratum(None), "127.0.0.1");
}

#[test]
fn the_address_of_this_machine_is_an_address() {
    let host = local_ip_for_stratum();
    if host.starts_with('[') {
        assert!(host.ends_with(']'));
        let bare = &host[1..host.len() - 1];
        assert!(bare.contains(':'));
        assert!(bare.chars().all(|c| c.is_ascii_hexdigit() || c == ':' || c == '.'));
    } else {
        let parts: Vec<&str> = host.split('.').collect();
        assert_eq!(parts.len(), 4, "{host}");
        assert!(parts.iter().all(|p| p.parse::<u8>().is_ok()), "{host}");
    }
}
