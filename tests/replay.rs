use slp_validate::parse::{validate_replay, Finding};
use slp_validate::session::Notice;
use slp_validate::types::Issue;
use slp_validate::utils::ParseError;

const SIGNATURE: [u8; 11] = [0x7b, 0x55, 0x03, 0x72, 0x61, 0x77, 0x5b, 0x24, 0x55, 0x23, 0x6c];
const META_HEADER: [u8; 11] = [0x55, 0x08, 0x6d, 0x65, 0x74, 0x61, 0x64, 0x61, 0x74, 0x61, 0x7b];
const ONE: u32 = 0x3F80_0000;
const SIXTY: u32 = 0x4270_0000;

fn be16(out: &mut Vec<u8>, v: u16) {
    out.extend_from_slice(&v.to_be_bytes());
}

fn be32(out: &mut Vec<u8>, v: u32) {
    out.extend_from_slice(&v.to_be_bytes());
}

/// Payload table for version 3.16.0 payloads.
fn payload_table() -> Vec<u8> {
    let sizes: [(u8, u16); 7] =
        [(0x36, 760), (0x37, 64), (0x38, 84), (0x39, 2), (0x3A, 12), (0x3B, 44), (0x3C, 8)];
    let mut out = vec![0x35, 1 + 3 * sizes.len() as u8];
    for (code, size) in sizes {
        out.push(code);
        be16(&mut out, size);
    }
    out
}

/// A 3.16.0 match-start payload with the given (type, character) per slot.
fn game_start(slots: [(u8, u8); 4]) -> Vec<u8> {
    let mut p = vec![0u8; 760];
    p[0] = 3;
    p[1] = 16;
    p[2] = 0;
    p[18..20].copy_from_slice(&31u16.to_be_bytes());
    for (i, (kind, character)) in slots.iter().enumerate() {
        let b = 100 + 36 * i;
        p[b] = *character;
        p[b + 1] = *kind;
        p[b + 2] = 4;
    }
    for i in 0..4 {
        p[320 + 8 * i + 3] = 1;
        p[324 + 8 * i + 3] = 1;
    }
    p
}

fn frame_start(idx: i32) -> Vec<u8> {
    let mut out = vec![0x3A];
    be32(&mut out, idx as u32);
    be32(&mut out, 0);
    be32(&mut out, 0);
    out
}

fn frame_end(idx: i32) -> Vec<u8> {
    let mut out = vec![0x3C];
    be32(&mut out, idx as u32);
    be32(&mut out, idx as u32);
    out
}

fn pre(idx: i32, port: u8, nana: bool) -> Vec<u8> {
    let mut out = vec![0x37];
    be32(&mut out, idx as u32);
    out.push(port);
    out.push(nana as u8);
    be32(&mut out, 0);
    be16(&mut out, 14);
    be32(&mut out, 0);
    be32(&mut out, 0);
    be32(&mut out, ONE);
    for _ in 0..5 {
        be32(&mut out, 0);
    }
    be32(&mut out, 0);
    be16(&mut out, 0);
    be32(&mut out, 0);
    be32(&mut out, 0);
    out.push(0);
    be32(&mut out, 0);
    out.push(0);
    assert_eq!(out.len(), 65);
    out
}

fn post(idx: i32, port: u8, nana: bool, internal: u8) -> Vec<u8> {
    let mut out = vec![0x38];
    be32(&mut out, idx as u32);
    out.push(port);
    out.push(nana as u8);
    out.push(internal);
    be16(&mut out, 14);
    be32(&mut out, 0);
    be32(&mut out, 0);
    be32(&mut out, ONE);
    be32(&mut out, 0);
    be32(&mut out, SIXTY);
    out.extend_from_slice(&[0, 0, 0, 4]);
    out.resize(85, 0);
    out
}

fn game_end() -> Vec<u8> {
    vec![0x39, 0, 0]
}

fn metadata(last_frame: i32) -> Vec<u8> {
    let mut out = META_HEADER.to_vec();
    out.extend_from_slice(&[0x55, 7]);
    out.extend_from_slice(b"startAt");
    out.extend_from_slice(&[0x53, 0x55, 4]);
    out.extend_from_slice(b"2023");
    out.extend_from_slice(&[0x55, 9]);
    out.extend_from_slice(b"lastFrame");
    out.push(0x6C);
    be32(&mut out, last_frame as u32);
    out.extend_from_slice(&[0x7D, 0x7D]);
    out
}

fn replay(table: Vec<u8>, slots: [(u8, u8); 4], events: Vec<Vec<u8>>, last_frame: i32) -> Vec<u8> {
    let mut stream = table;
    stream.push(0x36);
    stream.extend_from_slice(&game_start(slots));
    for e in events {
        stream.extend_from_slice(&e);
    }
    let mut out = SIGNATURE.to_vec();
    be32(&mut out, stream.len() as u32);
    out.extend_from_slice(&stream);
    out.extend_from_slice(&metadata(last_frame));
    out
}

const FOX: u8 = 2;
const FOX_INTERNAL: u8 = 1;
const ICE_CLIMBERS: u8 = 14;
const POPO_INTERNAL: u8 = 10;
const NANA_INTERNAL: u8 = 11;
const DUEL: [(u8, u8); 4] = [(0, FOX), (0, FOX), (3, 0), (3, 0)];

fn duel_frame(idx: i32) -> Vec<Vec<u8>> {
    vec![
        frame_start(idx),
        pre(idx, 0, false),
        pre(idx, 1, false),
        post(idx, 0, false, FOX_INTERNAL),
        post(idx, 1, false, FOX_INTERNAL),
        frame_end(idx),
    ]
}

fn is_ordering(f: &Finding) -> bool {
    matches!(f, Finding::Order(Notice::UnexpectedOrder { .. }) | Finding::Order(Notice::FrameJump { .. }))
}

#[test]
fn minimal_replay_end_to_end() {
    let mut events = duel_frame(-123);
    events.push(game_end());
    let file = replay(payload_table(), DUEL, events, -123);
    let summary = validate_replay(&file).unwrap();
    assert_eq!(summary.actual_frames, 1);
    assert_eq!(summary.last_frame, Some(-123));
    assert_eq!(summary.expected_frames, Some(1));
    assert_eq!(summary.start_at, Some(b"2023".to_vec()));
    assert!(summary.findings.is_empty(), "{:?}", summary.findings);
    assert_eq!((summary.version.major, summary.version.minor, summary.version.build), (3, 16, 0));
}

#[test]
fn synthetic_duel_has_no_ordering_errors() {
    let n = 50;
    let mut events = Vec::new();
    for k in 0..n {
        events.extend(duel_frame(-123 + k));
    }
    events.push(game_end());
    let file = replay(payload_table(), DUEL, events, -123 + n - 1);
    let summary = validate_replay(&file).unwrap();
    assert_eq!(summary.actual_frames, n as u64);
    assert_eq!(summary.expected_frames, Some(n as i64));
    assert!(summary.findings.is_empty(), "{:?}", summary.findings);
}

#[test]
fn companion_absent_for_one_frame_is_tolerated() {
    let roster = [(0, ICE_CLIMBERS), (0, FOX), (3, 0), (3, 0)];
    let mut events = Vec::new();
    for k in 0..3 {
        let idx = -123 + k;
        events.push(frame_start(idx));
        events.push(pre(idx, 0, false));
        events.push(pre(idx, 0, true));
        events.push(pre(idx, 1, false));
        events.push(post(idx, 0, false, POPO_INTERNAL));
        if k != 1 {
            events.push(post(idx, 0, true, NANA_INTERNAL));
        }
        events.push(post(idx, 1, false, FOX_INTERNAL));
        events.push(frame_end(idx));
    }
    events.push(game_end());
    let file = replay(payload_table(), roster, events, -121);
    let summary = validate_replay(&file).unwrap();
    assert_eq!(summary.actual_frames, 3);
    assert!(!summary.findings.iter().any(is_ordering), "{:?}", summary.findings);
}

#[test]
fn stray_companion_record_is_an_error() {
    let mut events = Vec::new();
    events.push(frame_start(-123));
    events.push(pre(-123, 0, false));
    events.push(pre(-123, 0, true));
    events.push(pre(-123, 1, false));
    events.push(post(-123, 0, false, FOX_INTERNAL));
    events.push(post(-123, 0, true, FOX_INTERNAL));
    events.push(post(-123, 1, false, FOX_INTERNAL));
    events.push(frame_end(-123));
    events.push(game_end());
    let file = replay(payload_table(), DUEL, events, -123);
    let summary = validate_replay(&file).unwrap();
    let f = &summary.findings;
    assert!(f.iter().any(|x| matches!(x, Finding::Record { issue: Issue::CompanionMismatch { character: FOX }, .. })));
    assert!(f.iter().any(|x| matches!(x, Finding::Record { issue: Issue::CompanionFlag { character: FOX_INTERNAL }, .. })));
    assert!(f.iter().any(|x| matches!(x, Finding::Order(Notice::UnexpectedOrder { .. }))));
}

#[test]
fn rollback_in_a_replay_is_reported_without_error() {
    let mut events = Vec::new();
    for idx in [-123, -122, -121, -124, -123, -122] {
        events.extend(duel_frame(idx));
    }
    events.push(game_end());
    let file = replay(payload_table(), DUEL, events, -122);
    let summary = validate_replay(&file).unwrap();
    assert_eq!(summary.actual_frames, 6);
    assert_eq!(summary.findings.len(), 1, "{:?}", summary.findings);
    assert!(matches!(summary.findings[0], Finding::Order(Notice::Rollback { from: -121, to: -124, .. })));
}

#[test]
fn bad_payload_table_length_is_fatal_and_next_file_still_validates() {
    let mut table = payload_table();
    table[1] = 5;
    table.truncate(6);
    let bad = replay(table, DUEL, duel_frame(-123), -123);
    assert_eq!(validate_replay(&bad).unwrap_err(), ParseError::PayloadTableLength);
    let mut events = duel_frame(-123);
    events.push(game_end());
    let good = replay(payload_table(), DUEL, events, -123);
    assert!(validate_replay(&good).is_ok());
}

#[test]
fn wrong_signature_is_fatal() {
    let mut file = replay(payload_table(), DUEL, duel_frame(-123), -123);
    file[0] = 0;
    assert_eq!(validate_replay(&file).unwrap_err(), ParseError::BadSignature);
}

#[test]
fn short_file_is_an_error_not_a_crash() {
    assert_eq!(validate_replay(&SIGNATURE[..5]).unwrap_err(), ParseError::UnexpectedEnd);
    let file = replay(payload_table(), DUEL, duel_frame(-123), -123);
    assert_eq!(validate_replay(&file[..200]).unwrap_err(), ParseError::UnexpectedEnd);
}

#[test]
fn wrong_metadata_header_is_fatal() {
    let mut file = replay(payload_table(), DUEL, duel_frame(-123), -123);
    let n = file.len();
    let meta_len = metadata(-123).len();
    file[n - meta_len] = 0;
    assert_eq!(validate_replay(&file).unwrap_err(), ParseError::BadMetadataHeader);
}

#[test]
fn missing_game_start_is_fatal() {
    let mut file = replay(payload_table(), DUEL, duel_frame(-123), -123);
    let at = 15 + payload_table().len();
    file[at] = 0x3A;
    assert_eq!(validate_replay(&file).unwrap_err(), ParseError::MissingGameStart);
}

#[test]
fn unlisted_event_code_is_fatal() {
    let mut events = duel_frame(-123);
    events.insert(1, vec![0x42]);
    let file = replay(payload_table(), DUEL, events, -123);
    assert_eq!(validate_replay(&file).unwrap_err(), ParseError::UnlistedEvent(0x42));
}

#[test]
fn unknown_but_listed_event_is_skipped_by_its_size() {
    let mut table = payload_table();
    table[1] += 3;
    table.extend_from_slice(&[0x50, 0, 3]);
    let mut events = duel_frame(-123);
    events.insert(2, vec![0x50, 9, 9, 9]);
    events.push(game_end());
    let file = replay(table, DUEL, events, -123);
    let summary = validate_replay(&file).unwrap();
    assert_eq!(summary.findings.len(), 1, "{:?}", summary.findings);
    assert!(matches!(summary.findings[0], Finding::UnknownEvent { code: 0x50, .. }));
}

#[test]
fn frame_jump_in_a_replay_is_reported() {
    let mut events = duel_frame(-123);
    events.extend(duel_frame(-118));
    events.push(game_end());
    let file = replay(payload_table(), DUEL, events, -118);
    let summary = validate_replay(&file).unwrap();
    assert!(summary.findings.iter().any(|x| matches!(x, Finding::Order(Notice::FrameJump { previous: -123, current: -118, .. }))));
}

#[test]
fn events_after_game_end_are_not_read() {
    let mut events = duel_frame(-123);
    events.push(game_end());
    events.extend(duel_frame(-122));
    let file = replay(payload_table(), DUEL, events, -122);
    let summary = validate_replay(&file).unwrap();
    assert_eq!(summary.actual_frames, 1);
}

#[test]
fn missing_item_slot_with_items_is_tolerated() {
    let mut events = duel_frame(-123);
    let mut item = vec![0x3B];
    item.resize(45, 0);
    events.insert(3, item.clone());
    events.insert(3, item);
    events.push(game_end());
    let file = replay(payload_table(), DUEL, events, -123);
    let summary = validate_replay(&file).unwrap();
    assert!(summary.findings.is_empty(), "{:?}", summary.findings);
}
