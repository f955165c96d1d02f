use slp_validate::events::EventSizes;
use slp_validate::frame::{FrameEnd, FrameStart};
use slp_validate::game_start::{ControllerFix, GameStart, MatchType};
use slp_validate::itemframe::ItemFrame;
use slp_validate::metadata::read_metadata;
use slp_validate::order::{build_expected_order, count_active, EventType, Expected};
use slp_validate::player::{Player, PlayerType};
use slp_validate::postframe::PostFrame;
use slp_validate::preframe::PreFrame;
use slp_validate::session::{Notice, OrderState};
use slp_validate::types::{Issue, State, Vec2};
use slp_validate::utils::{ParseError, Tournament, Version};

fn bits(x: f32) -> [u8; 4] {
    x.to_bits().to_be_bytes()
}

#[test]
fn version_order_is_strict_and_total() {
    let v1 = Version::new(1, 2, 3);
    let v2 = Version::new(1, 3, 0);
    let v3 = Version::new(2, 0, 0);
    assert!(v2.at_least(v1.major, v1.minor, v1.build));
    assert!(!v1.at_least(v2.major, v2.minor, v2.build));
    assert!(v3.at_least(v1.major, v1.minor, v1.build));
    assert!(!v2.at_least(v3.major, v3.minor, v3.build));
    assert!(v2.at_least(1, 3, 0));
    assert!(!v2.at_least(1, 3, 1));
}

#[test]
fn version_as_u32_is_big_endian() {
    assert_eq!(Version::new(3, 16, 0).as_u32(), 0x0310_0000);
    assert_eq!(Version::new(1, 2, 3).as_u32(), 0x0102_0300);
}

#[test]
fn default_version_is_first_release() {
    let v = Version::default();
    assert_eq!((v.major, v.minor, v.build), (0, 1, 0));
}

#[test]
fn frame_start_counter_is_gated_at_3_10() {
    let bytes = [0, 0, 0, 5, 9, 9, 9, 9, 0, 0, 1, 0];
    let new = FrameStart::new(&bytes, Version::new(3, 10, 0)).unwrap();
    assert_eq!(new.frame_idx, 5);
    assert_eq!(new.frame_counter, Some(256));
    let old = FrameStart::new(&bytes, Version::new(3, 9, 9)).unwrap();
    assert_eq!(old.frame_counter, None);
    assert_eq!(FrameStart::new(&bytes[..8], Version::new(3, 9, 0)).unwrap().frame_idx, 5);
    assert_eq!(FrameStart::new(&bytes[..8], Version::new(3, 10, 0)), Err(ParseError::UnexpectedEnd));
}

#[test]
fn frame_end_finalized_is_gated_at_3_7() {
    let bytes = [0xFF, 0xFF, 0xFF, 0x85, 0xFF, 0xFF, 0xFF, 0x80];
    let f = FrameEnd::new(&bytes, Version::new(3, 7, 0)).unwrap();
    assert_eq!(f.frame_idx, -123);
    assert_eq!(f.latest_finalized, Some(-128));
    assert_eq!(FrameEnd::new(&bytes, Version::new(3, 6, 0)).unwrap().latest_finalized, None);
    assert_eq!(FrameEnd::new(&bytes[..3], Version::new(1, 0, 0)), Err(ParseError::UnexpectedEnd));
}

#[test]
fn payload_table_reads_entries_and_later_ones_win() {
    let bytes = [0x35, 10, 0x36, 0x01, 0x2C, 0x37, 0, 64, 0x36, 0, 9];
    let (t, next) = EventSizes::parse(&bytes, 0).unwrap();
    assert_eq!(next, 11);
    assert_eq!(t.size_of(0x36), Some(9));
    assert_eq!(t.size_of(0x37), Some(64));
    assert_eq!(t.size_of(0x38), None);
}

#[test]
fn payload_table_length_five_is_rejected() {
    let bytes = [0x35, 5, 0x36, 0, 1, 0x37];
    assert_eq!(EventSizes::parse(&bytes, 0).unwrap_err(), ParseError::PayloadTableLength);
    assert_eq!(EventSizes::parse(&[0x35, 0], 0).unwrap_err(), ParseError::PayloadTableLength);
}

#[test]
fn payload_table_must_come_first() {
    assert_eq!(EventSizes::parse(&[0x36, 1], 0).unwrap_err(), ParseError::NotPayloadTable);
    assert_eq!(EventSizes::parse(&[0x35, 4, 0x36], 0).unwrap_err(), ParseError::UnexpectedEnd);
    assert_eq!(EventSizes::parse(&[], 0).unwrap_err(), ParseError::UnexpectedEnd);
}

fn pre_bytes(port: u8, nana: bool, state: u16, orientation: f32, stick_x: f32) -> Vec<u8> {
    let mut b = vec![0u8; 64];
    b[0..4].copy_from_slice(&7i32.to_be_bytes());
    b[4] = port;
    b[5] = nana as u8;
    b[10..12].copy_from_slice(&state.to_be_bytes());
    b[20..24].copy_from_slice(&bits(orientation));
    b[24..28].copy_from_slice(&bits(stick_x));
    b[58] = 0xF6;
    b[59..63].copy_from_slice(&bits(12.5));
    b[63] = 3;
    b
}

fn roster(characters: [u8; 4]) -> Vec<Player> {
    let mut out = Vec::new();
    for (i, c) in characters.iter().enumerate() {
        let mut p = Player::default();
        p.port = i as u8;
        p.player_type = if i < 2 { PlayerType::Human } else { PlayerType::Empty };
        p.character = *c;
        out.push(p);
    }
    out
}

#[test]
fn pre_frame_fields_follow_version_gates() {
    let players = roster([2, 2, 0, 0]);
    let b = pre_bytes(1, false, 14, 1.0, 0.5);
    let full = PreFrame::new(&b, Version::new(3, 15, 0), &players).unwrap();
    assert_eq!(full.frame_index, 7);
    assert_eq!(full.port, 1);
    assert_eq!(full.action_state, State::Known(14));
    assert_eq!(full.raw_stick_x, Some(-10));
    assert_eq!(full.percent, Some(12.5f32.to_bits()));
    assert_eq!(full.raw_stick_y, Some(3));
    let mid = PreFrame::new(&b[..63], Version::new(1, 4, 0), &players).unwrap();
    assert_eq!(mid.percent, Some(12.5f32.to_bits()));
    assert_eq!(mid.raw_stick_y, None);
    let old = PreFrame::new(&b[..58], Version::new(1, 0, 0), &players).unwrap();
    assert_eq!((old.raw_stick_x, old.percent, old.raw_stick_y), (None, None, None));
    assert_eq!(PreFrame::new(&b[..60], Version::new(1, 4, 0), &players), Err(ParseError::UnexpectedEnd));
    assert!(full.validate().is_empty());
}

#[test]
fn pre_frame_warnings() {
    let players = roster([2, 2, 0, 0]);
    let b = pre_bytes(0, false, 14, 0.5, 1.5);
    let f = PreFrame::new(&b, Version::new(3, 15, 0), &players).unwrap();
    let issues = f.validate();
    assert_eq!(
        issues,
        vec![
            Issue::Orientation { bits: 0.5f32.to_bits() },
            Issue::Joystick { stick: Vec2 { x: 1.5f32.to_bits(), y: 0 } },
        ]
    );
    let mut b2 = pre_bytes(0, false, 14, -1.0, -1.0);
    b2[59..63].copy_from_slice(&bits(1000.0));
    b2[44..48].copy_from_slice(&0x80u32.to_be_bytes());
    b2[40..44].copy_from_slice(&bits(-0.5));
    let f2 = PreFrame::new(&b2, Version::new(3, 15, 0), &players).unwrap();
    assert_eq!(
        f2.validate(),
        vec![
            Issue::EngineTrigger { bits: (-0.5f32).to_bits() },
            Issue::EngineButtons { buttons: 0x80 },
            Issue::Percent { bits: 1000.0f32.to_bits() },
        ]
    );
}

#[test]
fn pre_frame_unknown_state_and_zelda_fallback() {
    let players = roster([2, 18, 0, 0]);
    let fox = PreFrame::new(&pre_bytes(0, false, 0x7FFF, 1.0, 0.0), Version::new(3, 15, 0), &players).unwrap();
    assert_eq!(fox.action_state, State::Unknown(0x7FFF));
    assert_eq!(fox.validate(), vec![Issue::UnknownState { state: 0x7FFF }]);
    // 0x15B is one of Sheik's own states, which a Zelda player can reach by transforming
    let sheik_state = PreFrame::new(&pre_bytes(1, false, 0x15B, 1.0, 0.0), Version::new(3, 15, 0), &players).unwrap();
    assert!(matches!(sheik_state.action_state, State::Known(0x15B)));
}

#[test]
fn companion_pre_record_needs_companion_character() {
    let players = roster([14, 2, 0, 0]);
    let nana = PreFrame::new(&pre_bytes(0, true, 14, 1.0, 0.0), Version::new(3, 15, 0), &players).unwrap();
    assert!(!nana.companion_mismatch(&players));
    let stray = PreFrame::new(&pre_bytes(1, true, 14, 1.0, 0.0), Version::new(3, 15, 0), &players).unwrap();
    assert!(stray.companion_mismatch(&players));
    assert!(Issue::CompanionMismatch { character: 2 }.is_error());
    assert!(!Issue::Percent { bits: 0 }.is_error());
}

fn post_bytes(nana: bool, character: u8, shield: f32, attack: u8, l_cancel: u8, hurtbox: u8) -> Vec<u8> {
    let mut b = vec![0u8; 84];
    b[0..4].copy_from_slice(&(-5i32).to_be_bytes());
    b[4] = 1;
    b[5] = nana as u8;
    b[6] = character;
    b[7..9].copy_from_slice(&14u16.to_be_bytes());
    b[17..21].copy_from_slice(&bits(1.0));
    b[25..29].copy_from_slice(&bits(shield));
    b[29] = attack;
    b[37..42].copy_from_slice(&[1, 2, 3, 4, 5]);
    b[50] = l_cancel;
    b[51] = hurtbox;
    b[56..60].copy_from_slice(&bits(-2.0));
    b[68..72].copy_from_slice(&bits(3.0));
    b
}

#[test]
fn post_frame_fields_follow_version_gates() {
    let b = post_bytes(false, 1, 60.0, 0, 0, 0);
    let full = PostFrame::new(&b, Version::new(3, 16, 0)).unwrap();
    assert_eq!(full.frame_index, -5);
    assert_eq!(full.flags, Some(0x05_0403_0201));
    assert_eq!(full.ground_velocity, Some(Vec2 { x: 3.0f32.to_bits(), y: (-2.0f32).to_bits() }));
    assert_eq!(full.is_grounded, Some(true));
    assert!(full.instance_id.is_some());
    let v2 = PostFrame::new(&b[..51], Version::new(2, 0, 0)).unwrap();
    assert_eq!(v2.l_cancel, Some(0));
    assert_eq!((v2.hurtbox_state, v2.air_velocity, v2.instance_id), (None, None, None));
    let v0 = PostFrame::new(&b[..33], Version::new(0, 1, 0)).unwrap();
    assert_eq!((v0.state_frame, v0.flags), (None, None));
    assert_eq!(PostFrame::new(&b[..71], Version::new(3, 5, 0)), Err(ParseError::UnexpectedEnd));
    assert!(full.validate().is_empty());
}

#[test]
fn post_frame_warnings() {
    let b = post_bytes(true, 1, 61.0, 200, 3, 3);
    let f = PostFrame::new(&b, Version::new(3, 16, 0)).unwrap();
    assert_eq!(
        f.validate(),
        vec![
            Issue::CompanionFlag { character: 1 },
            Issue::ShieldHealth { bits: 61.0f32.to_bits() },
            Issue::UnknownAttack { attack: 200 },
            Issue::LCancel { value: 3 },
            Issue::Hurtbox { value: 3 },
        ]
    );
    let nana = PostFrame::new(&post_bytes(true, 11, 0.0, 0, 1, 2), Version::new(3, 16, 0)).unwrap();
    assert!(nana.validate().is_empty());
}

#[test]
fn item_frame_gates_and_unknown_item() {
    let mut b = vec![0u8; 44];
    b[4..6].copy_from_slice(&0x0F00u16.to_be_bytes());
    b[39] = 1;
    b[41] = 0xFF;
    let f = ItemFrame::new(&b, Version::new(3, 16, 0)).unwrap();
    assert_eq!(f.launched, Some(true));
    assert_eq!(f.owner, Some(-1));
    assert_eq!(f.validate(), vec![Issue::UnknownItem { item: 0x0F00 }]);
    let old = ItemFrame::new(&b[..37], Version::new(3, 0, 0)).unwrap();
    assert_eq!((old.missile_type, old.owner, old.instance_id), (None, None, None));
    b[4] = 0;
    b[5] = 1;
    assert!(ItemFrame::new(&b, Version::new(3, 16, 0)).unwrap().validate().is_empty());
    assert_eq!(ItemFrame::new(&b[..41], Version::new(3, 6, 0)), Err(ParseError::UnexpectedEnd));
}

fn start_bytes(version: [u8; 3]) -> Vec<u8> {
    let mut p = vec![0u8; 760];
    p[0..3].copy_from_slice(&version);
    p[12] = 1;
    p[18..20].copy_from_slice(&31u16.to_be_bytes());
    p[20..24].copy_from_slice(&480u32.to_be_bytes());
    p[100] = 14;
    p[101] = 0;
    p[102] = 4;
    p[136] = 40;
    p[137] = 1;
    p[140] = 7;
    p[172 + 1] = 9;
    p[208 + 1] = 3;
    p[320 + 3] = 2;
    p[324 + 3] = 5;
    p[416] = 1;
    p[419] = 8;
    p[420..423].copy_from_slice(b"abc");
    p[544..550].copy_from_slice(&[b'A', b'B', 0x81, 0x94, b'1', b'2']);
    p[701..714].copy_from_slice(b"mode.ranked-1");
    p[752..756].copy_from_slice(&3u32.to_be_bytes());
    p
}

#[test]
fn game_start_full_version() {
    let (g, v, players, issues) = GameStart::parse(&start_bytes([3, 16, 0])).unwrap();
    assert_eq!((v.major, v.minor, v.build), (3, 16, 0));
    assert!(g.teams);
    assert_eq!(g.stage, 31);
    assert_eq!(g.timer, 480);
    assert_eq!(g.pal, Some(true));
    assert_eq!(g.netplay, Some(true));
    assert_eq!(g.match_id, "mode.ranked-1");
    assert_eq!(g.match_type, MatchType::Ranked);
    assert_eq!(g.game_number, Some(3));
    assert_eq!(g.tiebreak_number, Some(0));
    assert_eq!(players.len(), 4);
    assert_eq!(players[0].character, 14);
    assert_eq!(players[1].character, 21);
    assert_eq!(players[1].player_type, PlayerType::CPU);
    assert_eq!(players[0].display_name.as_deref(), Some("abc"));
    assert_eq!(players[0].connect_code.as_deref(), Some("AB#12"));
    let ucf = players[0].ucf.unwrap();
    assert_eq!(ucf.dashback, ControllerFix::Dween);
    assert_eq!(ucf.shield_drop, ControllerFix::UCF);
    assert_eq!(
        issues,
        vec![
            Issue::TeamShade { slot: 1, code: 7 },
            Issue::PlayerType { slot: 2, code: 9 },
            Issue::ControllerFix { slot: 0, code: 5 },
        ]
    );
}

#[test]
fn game_start_stops_at_first_failed_gate() {
    let b = start_bytes([1, 4, 0]);
    let (g, _, players, _) = GameStart::parse(&b[..416]).unwrap();
    assert_eq!(g.pal, None);
    assert_eq!(g.frozen_stadium, None);
    assert_eq!(g.match_id, "");
    assert_eq!(g.match_type, MatchType::Unknown);
    assert!(players[0].ucf.is_some());
    assert_eq!(players[0].display_name, None);
    let (g0, _, players0, _) = GameStart::parse(&start_bytes([0, 1, 0])[..320]).unwrap();
    assert_eq!(g0.pal, None);
    assert!(players0[0].ucf.is_none());
    assert_eq!(GameStart::parse(&b[..415]).unwrap_err(), ParseError::UnexpectedEnd);
}

#[test]
fn game_start_unknown_stage_and_short_match_id() {
    let mut b = start_bytes([3, 14, 0]);
    b[18..20].copy_from_slice(&1000u16.to_be_bytes());
    b[701..752].fill(0);
    b[701..705].copy_from_slice(b"mode");
    let (g, _, _, issues) = GameStart::parse(&b).unwrap();
    assert_eq!(g.match_type, MatchType::Unknown);
    assert_eq!(issues[0], Issue::UnknownStage { stage: 1000 });
}

#[test]
fn expected_order_for_companion_roster() {
    let players = roster([14, 2, 0, 0]);
    let order = build_expected_order(&players);
    let e = |port: u8, nana: bool, kind: EventType| Expected { port, nana, kind };
    assert_eq!(
        order,
        vec![
            e(0, false, EventType::FrameStart),
            e(0, false, EventType::PreFrame),
            e(0, true, EventType::PreFrame),
            e(1, false, EventType::PreFrame),
            e(0, false, EventType::Item),
            e(0, false, EventType::PostFrame),
            e(0, true, EventType::PostFrame),
            e(1, false, EventType::PostFrame),
            e(0, false, EventType::FrameEnd),
        ]
    );
    assert_eq!(count_active(&players), 2);
}

fn frame_cycle(state: &mut OrderState, order: &Vec<Expected>, idx: i32, notices: &mut Vec<Notice>) {
    state.observe_frame_start(order, idx, 0, notices);
    for port in 0..2u8 {
        state.observe_record(order, 2, Expected { port, nana: false, kind: EventType::PreFrame }, idx, 0, notices);
    }
    for port in 0..2u8 {
        state.observe_record(order, 2, Expected { port, nana: false, kind: EventType::PostFrame }, idx, 0, notices);
    }
    state.observe_record(order, 2, Expected { port: 0, nana: false, kind: EventType::FrameEnd }, idx, 0, notices);
}

#[test]
fn rollback_sequence_is_a_notice_not_an_error() {
    let players = roster([2, 2, 0, 0]);
    let order = build_expected_order(&players);
    let mut state = OrderState::new();
    let mut notices = Vec::new();
    frame_cycle(&mut state, &order, 9, &mut notices);
    notices.clear();
    for idx in [10, 11, 12, 9, 10, 11] {
        frame_cycle(&mut state, &order, idx, &mut notices);
    }
    assert_eq!(notices, vec![Notice::Rollback { pos: 0, from: 12, to: 9 }]);
}

#[test]
fn frame_jumps_are_errors() {
    let order = build_expected_order(&roster([2, 2, 0, 0]));
    let mut state = OrderState { cursor: 0, need_sync: false, prev_frame: 10 };
    let mut notices = Vec::new();
    state.observe_frame_start(&order, 15, 3, &mut notices);
    assert_eq!(notices, vec![Notice::FrameJump { pos: 3, previous: 10, current: 15 }]);
    let mut state = OrderState { cursor: 0, need_sync: false, prev_frame: 50 };
    let mut notices = Vec::new();
    state.observe_frame_start(&order, 10, 4, &mut notices);
    assert_eq!(
        notices,
        vec![
            Notice::FrameJump { pos: 4, previous: 50, current: 10 },
            Notice::Rollback { pos: 4, from: 50, to: 10 },
        ]
    );
}

#[test]
fn ordering_error_is_reported_once_until_next_frame() {
    let order = build_expected_order(&roster([2, 2, 0, 0]));
    let mut state = OrderState::new();
    let mut notices = Vec::new();
    state.observe_frame_start(&order, -123, 0, &mut notices);
    let post = Expected { port: 1, nana: false, kind: EventType::PostFrame };
    state.observe_record(&order, 2, post, -123, 5, &mut notices);
    state.observe_record(&order, 2, post, -123, 6, &mut notices);
    assert_eq!(notices.len(), 1);
    assert!(state.need_sync);
    state.observe_frame_start(&order, -122, 7, &mut notices);
    assert_eq!(notices.len(), 2);
    assert!(matches!(notices[1], Notice::UnexpectedOrder { got: EventType::FrameStart, .. }));
    assert!(!state.need_sync);
    assert_eq!(state.cursor, 1);
}

#[test]
fn ordering_is_only_enforced_for_one_on_one() {
    let order = build_expected_order(&roster([2, 2, 0, 0]));
    let mut state = OrderState::new();
    let mut notices = Vec::new();
    state.observe_frame_start(&order, -123, 0, &mut notices);
    let post = Expected { port: 1, nana: false, kind: EventType::PostFrame };
    state.observe_record(&order, 3, post, -123, 5, &mut notices);
    assert!(notices.is_empty());
}

#[test]
fn event_type_codes() {
    assert_eq!(EventType::from_code(0x35), EventType::EventPayloads);
    assert_eq!(EventType::from_code(0x3C), EventType::FrameEnd);
    assert_eq!(EventType::from_code(0x10), EventType::MessageSplitter);
    assert_eq!(EventType::from_code(0x42), EventType::Unknown);
}

#[test]
fn metadata_walk_finds_both_keys() {
    let mut m = vec![0x55, 7];
    m.extend_from_slice(b"startAt");
    m.extend_from_slice(&[0x53, 0x55, 2, b'h', b'i']);
    m.extend_from_slice(&[0x55, 9]);
    m.extend_from_slice(b"lastFrame");
    m.extend_from_slice(&[0x49, 0x01, 0x00, 0x7D]);
    let md = read_metadata(&m, 0);
    assert_eq!(md.last_frame, Some(256));
    assert_eq!(md.start_at, Some(b"hi".to_vec()));
    let mut nested = vec![0x55, 7];
    nested.extend_from_slice(b"players");
    nested.extend_from_slice(&[0x7B, 0x7D]);
    assert_eq!(read_metadata(&nested, 0).last_frame, None);
}

#[test]
fn tournament_legality() {
    let mut p = Player::default();
    assert!(p.is_legal());
    p.player_type = PlayerType::Human;
    p.starting_stocks = 4;
    p.character = 2;
    assert!(p.is_legal());
    p.character = 26;
    assert!(!p.is_legal());
    p.character = 2;
    p.bitfield = 2;
    assert!(!p.is_legal());
    p.bitfield = 1;
    p.player_type = PlayerType::CPU;
    assert!(!p.is_legal());
}

#[test]
fn post_frame_unknown_state_for_its_character() {
    let mut b = post_bytes(false, 1, 0.0, 0, 0, 0);
    b[7..9].copy_from_slice(&0x7FFFu16.to_be_bytes());
    let f = PostFrame::new(&b, Version::new(3, 16, 0)).unwrap();
    assert_eq!(f.validate(), vec![Issue::UnknownState { state: 0x7FFF }]);
}
