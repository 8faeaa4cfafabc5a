use kaspa_ng_core::bridge::Tone;
use kaspa_ng_core::bridge::{
    absorb_line, apply_block_details, is_bridge_table_line, make_room, parse_block_details,
    parse_block_event, push_log_line, record_block, summarize, BlockDetails, BlockStatus,
    BridgeBlock, BLOCK_BUFFER_LINES, BLOCK_BUFFER_MARGIN, LOG_BUFFER_LINES, LOG_BUFFER_MARGIN,
};

fn block(hash: &str, status: BlockStatus) -> BridgeBlock {
    BridgeBlock {
        timestamp: None,
        hash: hash.to_string(),
        status,
        worker: None,
        wallet: None,
        line: String::new(),
    }
}

#[test]
fn table_lines_begin_with_a_border() {
    assert!(is_bridge_table_line("+-----+"));
    assert!(is_bridge_table_line("   | a | b |"));
    assert!(!is_bridge_table_line("text | more"));
    assert!(!is_bridge_table_line(""));
    assert!(!is_bridge_table_line("   "));
}

#[test]
fn found_block_is_read_with_all_its_fields() {
    let line = "2024-05-01T10:20:30.123Z INFO BLOCK FOUND! Hash: abc123, Worker: rig1 Wallet: kaspa:qq1, Nonce: 42";
    let b = parse_block_event(line).unwrap();
    assert_eq!(b.status, BlockStatus::Found);
    assert_eq!(b.hash, "abc123");
    assert_eq!(b.timestamp.as_deref(), Some("2024-05-01T10:20:30.123Z"));
    assert_eq!(b.worker.as_deref(), Some("rig1"));
    assert_eq!(b.wallet.as_deref(), Some("kaspa:qq1"));
    assert_eq!(b.line, line);
}

#[test]
fn status_is_read_from_the_wording() {
    let status = |line: &str| parse_block_event(line).map(|b| b.status);
    assert_eq!(status("BLOCK FOUND! Hash: h"), Some(BlockStatus::Found));
    assert_eq!(status("BLOCK ACCEPTED BY KASPA NODE Hash: h"), Some(BlockStatus::Accepted));
    assert_eq!(status("BLOCK REJECTED BY KASPA NODE Hash: h"), Some(BlockStatus::Rejected));
    assert_eq!(status("BLOCK REJECTED BY KASPA NODE (STALE) Hash: h"), Some(BlockStatus::RejectedStale));
    assert_eq!(status("BLOCK REJECTED BY KASPA NODE: INVALID Hash: h"), Some(BlockStatus::RejectedInvalid));
    assert_eq!(status("nothing about blocks Hash: h"), None);
    assert_eq!(status("BLOCK FOUND! but no hash"), None);
    assert_eq!(status("BLOCK FOUND! Hash:   "), None);
}

#[test]
fn status_names_are_those_shown() {
    assert_eq!(BlockStatus::Found.as_str(), "Found");
    assert_eq!(BlockStatus::Accepted.as_str(), "Accepted");
    assert_eq!(BlockStatus::Rejected.as_str(), "Rejected");
    assert_eq!(BlockStatus::RejectedStale.as_str(), "Rejected (Stale)");
    assert_eq!(BlockStatus::RejectedInvalid.as_str(), "Rejected (Invalid)");
}

#[test]
fn hash_is_freed_of_punctuation() {
    let hash = |line: &str| parse_block_details(line).and_then(|d| d.hash);
    assert_eq!(hash("Hash: \"abc\","), Some("abc".to_string()));
    assert_eq!(hash("x Hash:abc) y"), Some("abc".to_string()));
    assert_eq!(hash("Hash: ]"), None);
    assert_eq!(hash("hash: abc"), None);
}

#[test]
fn timestamp_needs_a_colon_and_only_time_marks() {
    let ts = |line: &str| parse_block_event(line).unwrap().timestamp;
    assert_eq!(ts("10:20:30 BLOCK FOUND! Hash: h"), Some("10:20:30".to_string()));
    assert_eq!(ts("20240501 BLOCK FOUND! Hash: h"), None);
    assert_eq!(ts("INFO: BLOCK FOUND! Hash: h"), None);
    assert_eq!(ts("  2024-05-01T10:20:30Z BLOCK FOUND! Hash: h"), Some("2024-05-01T10:20:30Z".to_string()));
}

#[test]
fn details_are_read_from_several_spellings() {
    let d = parse_block_details("worker=rig7, wallet=\"kaspa:abc\" Nonce: 1").unwrap();
    assert_eq!(d.hash, None);
    assert_eq!(d.worker.as_deref(), Some("rig7"));
    assert_eq!(d.wallet.as_deref(), Some("kaspa:abc"));
    let e = parse_block_details("Worker: big rig Wallet: w1 Hash: h9").unwrap();
    assert_eq!(e.worker.as_deref(), Some("big rig"));
    assert_eq!(e.wallet.as_deref(), Some("w1"));
    assert_eq!(e.hash.as_deref(), Some("h9"));
    assert_eq!(parse_block_details("nothing here"), None);
    assert_eq!(parse_block_details("Worker: , next"), None);
}

#[test]
fn first_label_with_a_value_wins() {
    let d = parse_block_details("worker: second Worker: first").unwrap();
    assert_eq!(d.worker.as_deref(), Some("first"));
}

#[test]
fn same_hash_updates_in_place() {
    let mut blocks = Vec::new();
    for line in [
        "10:00:00 BLOCK FOUND! Hash: abc Worker: rig1",
        "10:00:01 BLOCK ACCEPTED BY KASPA NODE Hash: abc",
    ] {
        record_block(&mut blocks, parse_block_event(line).unwrap());
    }
    assert_eq!(blocks.len(), 1);
    assert_eq!(blocks[0].hash, "abc");
    assert_eq!(blocks[0].status, BlockStatus::Accepted);
    assert_eq!(blocks[0].timestamp.as_deref(), Some("10:00:01"));
    assert_eq!(blocks[0].worker.as_deref(), Some("rig1"));
    assert_eq!(blocks[0].line, "10:00:01 BLOCK ACCEPTED BY KASPA NODE Hash: abc");
}

#[test]
fn later_event_without_fields_keeps_what_is_known() {
    let mut blocks = vec![BridgeBlock {
        timestamp: Some("t0".into()),
        hash: "h".into(),
        status: BlockStatus::Found,
        worker: Some("w".into()),
        wallet: Some("k".into()),
        line: "first".into(),
    }];
    let mut event = block("h", BlockStatus::RejectedStale);
    event.line = "second".into();
    record_block(&mut blocks, event);
    assert_eq!(
        blocks,
        vec![BridgeBlock {
            timestamp: Some("t0".into()),
            hash: "h".into(),
            status: BlockStatus::RejectedStale,
            worker: Some("w".into()),
            wallet: Some("k".into()),
            line: "second".into(),
        }]
    );
}

#[test]
fn different_hashes_make_different_blocks() {
    let mut blocks = Vec::new();
    record_block(&mut blocks, block("a", BlockStatus::Found));
    record_block(&mut blocks, block("b", BlockStatus::Found));
    record_block(&mut blocks, block("a", BlockStatus::Accepted));
    assert_eq!(blocks.len(), 2);
    assert_eq!(blocks[0].status, BlockStatus::Accepted);
    assert_eq!(blocks[1].status, BlockStatus::Found);
}

#[test]
fn full_block_list_drops_the_oldest_margin() {
    assert_eq!(BLOCK_BUFFER_LINES, 256);
    assert_eq!(BLOCK_BUFFER_MARGIN, 32);
    let mut blocks = Vec::new();
    for i in 0..257 {
        record_block(&mut blocks, block(&format!("h{i}"), BlockStatus::Found));
    }
    assert_eq!(blocks.len(), 257);
    record_block(&mut blocks, block("new", BlockStatus::Found));
    assert_eq!(blocks.len(), 257 - 32 + 1);
    assert_eq!(blocks[0].hash, "h32");
    assert_eq!(blocks.last().unwrap().hash, "new");
}

#[test]
fn details_go_to_their_block_or_to_the_last_one() {
    let mut blocks = vec![block("a", BlockStatus::Accepted), block("b", BlockStatus::Found)];
    let last = Some("a".to_string());
    apply_block_details(
        &mut blocks,
        &last,
        BlockDetails { hash: None, worker: Some("rig".into()), wallet: None },
    );
    assert_eq!(blocks[0].worker.as_deref(), Some("rig"));
    assert_eq!(blocks[0].status, BlockStatus::Accepted);
    apply_block_details(
        &mut blocks,
        &last,
        BlockDetails { hash: Some("b".into()), worker: None, wallet: Some("w".into()) },
    );
    assert_eq!(blocks[1].wallet.as_deref(), Some("w"));
    assert_eq!(blocks.len(), 2);
}

#[test]
fn details_of_an_unknown_block_make_a_found_block() {
    let mut blocks = Vec::new();
    apply_block_details(
        &mut blocks,
        &None,
        BlockDetails { hash: Some("z".into()), worker: Some("r".into()), wallet: None },
    );
    assert_eq!(
        blocks,
        vec![BridgeBlock {
            timestamp: None,
            hash: "z".into(),
            status: BlockStatus::Found,
            worker: Some("r".into()),
            wallet: None,
            line: String::new(),
        }]
    );
    apply_block_details(&mut blocks, &None, BlockDetails { hash: None, worker: Some("x".into()), wallet: None });
    assert_eq!(blocks.len(), 1);
    assert_eq!(blocks[0].worker.as_deref(), Some("r"));
}

#[test]
fn absorbing_lines_keeps_one_entry_per_hash() {
    let mut blocks = Vec::new();
    let mut last = None;
    absorb_line(&mut blocks, &mut last, "BLOCK FOUND! Hash: abc");
    assert_eq!(last.as_deref(), Some("abc"));
    absorb_line(&mut blocks, &mut last, "  Worker: rig1, Wallet: kaspa:x");
    absorb_line(&mut blocks, &mut last, "BLOCK ACCEPTED BY KASPA NODE Hash: abc");
    absorb_line(&mut blocks, &mut last, "unrelated output");
    assert_eq!(blocks.len(), 1);
    assert_eq!(blocks[0].status, BlockStatus::Accepted);
    assert_eq!(blocks[0].worker.as_deref(), Some("rig1"));
    assert_eq!(blocks[0].wallet.as_deref(), Some("kaspa:x"));
}

#[test]
fn summary_counts_by_status() {
    let blocks = vec![
        block("a", BlockStatus::Accepted),
        block("b", BlockStatus::Rejected),
        block("c", BlockStatus::RejectedStale),
        block("d", BlockStatus::Found),
        block("e", BlockStatus::Accepted),
        block("f", BlockStatus::RejectedInvalid),
    ];
    let s = summarize(&blocks);
    assert_eq!((s.total, s.accepted, s.rejected, s.found), (6, 2, 3, 1));
    let none = summarize(&Vec::new());
    assert_eq!((none.total, none.accepted, none.rejected, none.found), (0, 0, 0, 0));
}

#[test]
fn log_buffer_drops_a_margin_when_over_full() {
    assert_eq!(LOG_BUFFER_LINES, 4096);
    assert_eq!(LOG_BUFFER_MARGIN, 128);
    let mut logs: Vec<String> = (0..4097).map(|i| i.to_string()).collect();
    push_log_line(&mut logs, "new".to_string());
    assert_eq!(logs.len(), 4097 - 128 + 1);
    assert_eq!(logs[0], "128");
    assert_eq!(logs.last().unwrap(), "new");
    let mut few: Vec<String> = (0..4096).map(|i| i.to_string()).collect();
    push_log_line(&mut few, "new".to_string());
    assert_eq!(few.len(), 4097);
    assert_eq!(few[0], "0");
}

#[test]
fn make_room_leaves_short_lists_alone() {
    let mut v = vec![1, 2, 3];
    make_room(&mut v, 3, 2);
    assert_eq!(v, vec![1, 2, 3]);
    let mut w = vec![1, 2, 3, 4];
    make_room(&mut w, 3, 2);
    assert_eq!(w, vec![3, 4]);
}

#[test]
fn statuses_are_shown_in_three_tones() {
    assert_eq!(BlockStatus::Accepted.status_tone(), Tone::Good);
    assert_eq!(BlockStatus::Rejected.status_tone(), Tone::Bad);
    assert_eq!(BlockStatus::RejectedStale.status_tone(), Tone::Bad);
    assert_eq!(BlockStatus::RejectedInvalid.status_tone(), Tone::Bad);
    assert_eq!(BlockStatus::Found.status_tone(), Tone::Pending);
    for status in [
        BlockStatus::Found,
        BlockStatus::Accepted,
        BlockStatus::Rejected,
        BlockStatus::RejectedStale,
        BlockStatus::RejectedInvalid,
    ] {
        let by_name = if status.as_str().starts_with("Accepted") {
            Tone::Good
        } else if status.as_str().starts_with("Rejected") {
            Tone::Bad
        } else {
            Tone::Pending
        };
        assert_eq!(status.status_tone(), by_name);
    }
}
