//! Validation of one whole replay held in memory.
use vstd::prelude::*;
use vstd::slice::slice_subrange;

use crate::events::{spec_event_sizes, EventSizes};
use crate::frame::{frame_end_size, frame_start_size, spec_frame_end, spec_frame_start, FrameEnd, FrameStart};
use crate::game_start::{
    game_start_fields, game_start_issues, game_start_size, player_fields, version_of, GameStart,
};
use crate::itemframe::{item_frame_issues, item_frame_size, spec_item_frame, ItemFrame};
use crate::metadata::{read_metadata, scan};
use crate::order::{
    active_count, build_expected_order, count_active, expected_order, spec_event_type, slot,
    EventType, Expected,
};
use crate::player::{Player, ICE_CLIMBERS};
use crate::postframe::{post_frame_issues, post_frame_size, spec_post_frame, PostFrame};
use crate::preframe::{pre_frame_issues, pre_frame_size, roster_character, spec_pre_frame, PreFrame};
use crate::reader::{fits, get_u32, get_u8, u32_at};
use crate::session::{
    next_after_record, next_after_start, record_notices, start_notices, Notice, OrderState,
};
use crate::types::Issue;
use crate::utils::{ParseError, Version};

verus! {

/// Code of the match-start event.
pub const GAME_START: u8 = 0x36;

/// Bytes before the event stream: the signature and the stream's length.
pub const ENVELOPE: usize = 15;

/// Offset between the last frame's index and the number of frames, which
/// aligns the frame count with the in-game timer.
pub const FRAME_OFFSET: i64 = 124;

/// The replay signature that opens every file.
pub open spec fn signature() -> Seq<u8> {
    seq![0x7bu8, 0x55u8, 0x03u8, 0x72u8, 0x61u8, 0x77u8, 0x5bu8, 0x24u8, 0x55u8, 0x23u8, 0x6cu8]
}

/// The key and type marker that open the metadata block: `U\x08metadata{`.
pub open spec fn metadata_header() -> Seq<u8> {
    seq![0x55u8, 0x08u8, 0x6du8, 0x65u8, 0x74u8, 0x61u8, 0x64u8, 0x61u8, 0x74u8, 0x61u8, 0x7bu8]
}

/// One thing that validation reports and goes on.
#[derive(Debug, Clone, Copy, PartialEq, Eq)]
pub enum Finding {
    /// From the event-order matcher.
    Order(Notice),
    /// A finding on the record of the event at file position `pos`.
    Record { pos: usize, issue: Issue },
    /// A finding on the match-start record.
    Setup(Issue),
    /// An event whose code names no known event; it was passed over.
    UnknownEvent { pos: usize, code: u8 },
}

pub open spec fn order_findings(n: Seq<Notice>) -> Seq<Finding> {
    n.map_values(|x: Notice| Finding::Order(x))
}

pub open spec fn record_findings(pos: int, i: Seq<Issue>) -> Seq<Finding> {
    i.map_values(|x: Issue| Finding::Record { pos: pos as usize, issue: x })
}

pub open spec fn setup_findings(i: Seq<Issue>) -> Seq<Finding> {
    i.map_values(|x: Issue| Finding::Setup(x))
}

/// What a start marker's payload `p` does: the matcher's new state, the
/// frame count, the findings.
pub open spec fn start_step(p: Seq<u8>, v: Version, order: Seq<Expected>, pos: int, st: OrderState, frames: nat) -> Result<(OrderState, nat, Seq<Finding>), ParseError> {
    if p.len() < frame_start_size(v) {
        Err(ParseError::UnexpectedEnd)
    } else {
        let idx = spec_frame_start(p, v).frame_idx;
        Ok((next_after_start(st, order, idx), frames + 1, order_findings(start_notices(st, order, idx, pos as usize))))
    }
}

/// What a pre-record's payload `p` does.
pub open spec fn pre_step(p: Seq<u8>, v: Version, players: Seq<Player>, order: Seq<Expected>, active: nat, pos: int, st: OrderState) -> Result<(OrderState, Seq<Finding>), ParseError> {
    if p.len() < pre_frame_size(v) {
        Err(ParseError::UnexpectedEnd)
    } else {
        let f = spec_pre_frame(p, v, players);
        let got = slot(f.port, f.nana, EventType::PreFrame);
        let c = roster_character(players, f.port);
        Ok((next_after_record(st, order, active, got),
            (if f.nana && c != ICE_CLIMBERS {
                record_findings(pos, seq![Issue::CompanionMismatch { character: c }])
            } else {
                Seq::empty()
            }) + record_findings(pos, pre_frame_issues(f)) + order_findings(
            record_notices(st, order, active, got, f.frame_index, pos as usize))))
    }
}

/// What a post-record's payload `p` does.
pub open spec fn post_step(p: Seq<u8>, v: Version, order: Seq<Expected>, active: nat, pos: int, st: OrderState) -> Result<(OrderState, Seq<Finding>), ParseError> {
    if p.len() < post_frame_size(v) {
        Err(ParseError::UnexpectedEnd)
    } else {
        let f = spec_post_frame(p, v);
        let got = slot(f.port, f.nana, EventType::PostFrame);
        Ok((next_after_record(st, order, active, got),
            record_findings(pos, post_frame_issues(f)) + order_findings(
            record_notices(st, order, active, got, f.frame_index, pos as usize))))
    }
}

/// What an item record's payload `p` does.
pub open spec fn item_step(p: Seq<u8>, v: Version, order: Seq<Expected>, active: nat, pos: int, st: OrderState) -> Result<(OrderState, Seq<Finding>), ParseError> {
    if p.len() < item_frame_size(v) {
        Err(ParseError::UnexpectedEnd)
    } else {
        let f = spec_item_frame(p, v);
        let got = slot(0, false, EventType::Item);
        Ok((next_after_record(st, order, active, got),
            record_findings(pos, item_frame_issues(f)) + order_findings(
            record_notices(st, order, active, got, f.frame_index, pos as usize))))
    }
}

/// What an end marker's payload `p` does.
pub open spec fn end_step(p: Seq<u8>, v: Version, order: Seq<Expected>, active: nat, pos: int, st: OrderState) -> Result<(OrderState, Seq<Finding>), ParseError> {
    if p.len() < frame_end_size(v) {
        Err(ParseError::UnexpectedEnd)
    } else {
        let f = spec_frame_end(p, v);
        let got = slot(0, false, EventType::FrameEnd);
        Ok((next_after_record(st, order, active, got), order_findings(
            record_notices(st, order, active, got, f.frame_idx, pos as usize))))
    }
}

pub open spec fn with_frames(r: Result<(OrderState, Seq<Finding>), ParseError>, frames: nat) -> Result<(OrderState, nat, Seq<Finding>), ParseError> {
    match r {
        Ok((st, f)) => Ok((st, frames, f)),
        Err(e) => Err(e),
    }
}

/// What the payload `p` of an event with code `code` does.
pub open spec fn payload_step(
    code: u8,
    p: Seq<u8>,
    v: Version,
    players: Seq<Player>,
    order: Seq<Expected>,
    active: nat,
    pos: int,
    st: OrderState,
    frames: nat,
) -> Result<(OrderState, nat, Seq<Finding>), ParseError> {
    let kind = spec_event_type(code);
    if kind == EventType::FrameStart {
        start_step(p, v, order, pos, st, frames)
    } else if kind == EventType::PreFrame {
        with_frames(pre_step(p, v, players, order, active, pos, st), frames)
    } else if kind == EventType::PostFrame {
        with_frames(post_step(p, v, order, active, pos, st), frames)
    } else if kind == EventType::Item {
        with_frames(item_step(p, v, order, active, pos, st), frames)
    } else if kind == EventType::FrameEnd {
        with_frames(end_step(p, v, order, active, pos, st), frames)
    } else if kind == EventType::Unknown {
        Ok((st, frames, seq![Finding::UnknownEvent { pos: pos as usize, code }]))
    } else {
        Ok((st, frames, Seq::empty()))
    }
}

/// What one event does: the position after it, the matcher's new state, the
/// frame count, the findings, and whether it ends the stream.
#[verifier::opaque]
pub open spec fn event_step(
    s: Seq<u8>,
    table: Seq<Option<u16>>,
    v: Version,
    players: Seq<Player>,
    order: Seq<Expected>,
    active: nat,
    pos: int,
    st: OrderState,
    frames: nat,
) -> Result<(int, OrderState, nat, Seq<Finding>, bool), ParseError> {
    let code = s[pos];
    match table[code as int] {
        None => Err(ParseError::UnlistedEvent(code)),
        Some(size) => {
            let b = pos + 1 + size;
            if b > s.len() {
                Err(ParseError::UnexpectedEnd)
            } else {
                match payload_step(code, s.subrange(pos + 1, b), v, players, order, active, pos, st, frames) {
                    Err(e) => Err(e),
                    Ok((st2, f2, new)) => Ok((b, st2, f2, new, spec_event_type(code) == EventType::GameEnd)),
                }
            }
        },
    }
}

/// The event stream from `pos` to `end`: events are read one after the other
/// until `end`, the end of the bytes, or the match-end event.
pub open spec fn event_loop(
    s: Seq<u8>,
    table: Seq<Option<u16>>,
    v: Version,
    players: Seq<Player>,
    end: int,
    pos: int,
    st: OrderState,
    frames: nat,
    found: Seq<Finding>,
) -> Result<(OrderState, nat, Seq<Finding>), ParseError>
    decreases s.len() - pos,
{
    if pos < 0 || pos >= end || pos >= s.len() {
        Ok((st, frames, found))
    } else {
        match event_step(s, table, v, players, expected_order(players), active_count(players), pos, st, frames) {
            Err(e) => Err(e),
            Ok((n, st2, f2, new, ended)) => if ended || n <= pos || n > s.len() {
                Ok((st2, f2, found + new))
            } else {
                event_loop(s, table, v, players, end, n, st2, f2, found + new)
            },
        }
    }
}

/// Everything that decides a replay's validation before its event stream:
/// where the metadata starts, the payload table, the match-start payload
/// and where the stream goes on after it; or the fatal error.
pub open spec fn preamble(s: Seq<u8>) -> Result<(int, Seq<Option<u16>>, Seq<u8>, int), ParseError> {
    if s.len() < 11 {
        Err(ParseError::UnexpectedEnd)
    } else if s.subrange(0, 11) != signature() {
        Err(ParseError::BadSignature)
    } else if s.len() < 15 {
        Err(ParseError::UnexpectedEnd)
    } else {
        let meta = u32_at(s, 11) + 15;
        if meta + 11 > s.len() {
            Err(ParseError::UnexpectedEnd)
        } else if s.subrange(meta, meta + 11) != metadata_header() {
            Err(ParseError::BadMetadataHeader)
        } else {
            match spec_event_sizes(s, 15) {
                Err(e) => Err(e),
                Ok((t, next)) => if !fits(s, next, 1) || s[next] != GAME_START {
                    Err(ParseError::MissingGameStart)
                } else {
                    match t[GAME_START as int] {
                        None => Err(ParseError::UnlistedEvent(GAME_START)),
                        Some(size) => if next + 1 + size > s.len() {
                            Err(ParseError::UnexpectedEnd)
                        } else {
                            let p = s.subrange(next + 1, next + 1 + size);
                            if p.len() < 3 || p.len() < game_start_size(version_of(p)) {
                                Err(ParseError::UnexpectedEnd)
                            } else {
                                Ok((meta, t, p, next + 1 + size))
                            }
                        },
                    }
                },
            }
        }
    }
}

/// The outcome of validating one replay.
#[derive(Debug, Clone)]
pub struct Summary {
    pub version: Version,
    pub game_start: GameStart,
    pub players: Vec<Player>,
    /// The last frame's index, from the metadata.
    pub last_frame: Option<i64>,
    /// The start time's text bytes, from the metadata.
    pub start_at: Option<Vec<u8>>,
    /// The number of frames that the metadata implies: the last frame's
    /// index plus 124.
    pub expected_frames: Option<i64>,
    /// The number of start markers in the stream.
    pub actual_frames: u64,
    /// Everything reported, in stream order.
    pub findings: Vec<Finding>,
}

fn matches_at(s: &[u8], at: usize, expected: &[u8]) -> (r: bool)
    requires
        at + expected@.len() <= s@.len(),
    ensures
        r == (s@.subrange(at as int, at + expected@.len()) == expected@),
{
    let len = s.len();
    let mut k: usize = 0;
    while k < expected.len()
        invariant
            len == s@.len(),
            at + expected@.len() <= s@.len(),
            k <= expected@.len(),
            forall|j: int| 0 <= j < k ==> s@[at + j] == expected@[j],
        decreases expected@.len() - k,
    {
        if s[at + k] != expected[k] {
            proof {
                assert(s@.subrange(at as int, at + expected@.len())[k as int] != expected@[k as int]);
            }
            return false;
        }
        k = k + 1;
    }
    proof {
        assert(s@.subrange(at as int, at + expected@.len()) =~= expected@);
    }
    true
}

fn push_order(findings: &mut Vec<Finding>, notices: &Vec<Notice>)
    ensures
        final(findings)@ == old(findings)@ + order_findings(notices@),
{
    let ghost start = findings@;
    let mut i: usize = 0;
    while i < notices.len()
        invariant
            i <= notices@.len(),
            findings@ == start + order_findings(notices@.subrange(0, i as int)),
        decreases notices@.len() - i,
    {
        findings.push(Finding::Order(notices[i]));
        proof {
            assert(order_findings(notices@.subrange(0, i + 1)) =~= order_findings(
                notices@.subrange(0, i as int),
            ).push(Finding::Order(notices@[i as int])));
            assert(findings@ =~= start + order_findings(notices@.subrange(0, i + 1)));
        }
        i = i + 1;
    }
    proof {
        assert(notices@.subrange(0, i as int) =~= notices@);
    }
}

fn push_record(findings: &mut Vec<Finding>, pos: usize, issues: &Vec<Issue>)
    ensures
        final(findings)@ == old(findings)@ + record_findings(pos as int, issues@),
{
    let ghost start = findings@;
    let mut i: usize = 0;
    while i < issues.len()
        invariant
            i <= issues@.len(),
            findings@ == start + record_findings(pos as int, issues@.subrange(0, i as int)),
        decreases issues@.len() - i,
    {
        findings.push(Finding::Record { pos, issue: issues[i] });
        proof {
            assert(record_findings(pos as int, issues@.subrange(0, i + 1)) =~= record_findings(
                pos as int,
                issues@.subrange(0, i as int),
            ).push(Finding::Record { pos, issue: issues@[i as int] }));
            assert(findings@ =~= start + record_findings(pos as int, issues@.subrange(0, i + 1)));
        }
        i = i + 1;
    }
    proof {
        assert(issues@.subrange(0, i as int) =~= issues@);
    }
}

fn push_setup(findings: &mut Vec<Finding>, issues: &Vec<Issue>)
    ensures
        final(findings)@ == old(findings)@ + setup_findings(issues@),
{
    let ghost start = findings@;
    let mut i: usize = 0;
    while i < issues.len()
        invariant
            i <= issues@.len(),
            findings@ == start + setup_findings(issues@.subrange(0, i as int)),
        decreases issues@.len() - i,
    {
        findings.push(Finding::Setup(issues[i]));
        proof {
            assert(setup_findings(issues@.subrange(0, i + 1)) =~= setup_findings(
                issues@.subrange(0, i as int),
            ).push(Finding::Setup(issues@[i as int])));
            assert(findings@ =~= start + setup_findings(issues@.subrange(0, i + 1)));
        }
        i = i + 1;
    }
    proof {
        assert(issues@.subrange(0, i as int) =~= issues@);
    }
}

} // verus!

verus! {

fn do_start(p: &[u8], v: Version, order: &Vec<Expected>, pos: usize, st: &mut OrderState, frames: &mut u64, findings: &mut Vec<Finding>) -> (r: Result<(), ParseError>)
    requires
        old(st).wf(order@),
        *old(frames) < u64::MAX,
    ensures
        final(st).wf(order@),
        match start_step(p@, v, order@, pos as int, *old(st), *old(frames) as nat) {
            Err(e) => r == Err::<(), ParseError>(e),
            Ok((st2, f2, new)) => r is Ok && *final(st) == st2 && *final(frames) == f2 && final(findings)@ == old(findings)@ + new,
        },
{
    let f = match FrameStart::new(p, v) {
        Ok(x) => x,
        Err(e) => return Err(e),
    };
    let mut notices: Vec<Notice> = Vec::new();
    st.observe_frame_start(order, f.frame_idx, pos, &mut notices);
    proof {
        assert(notices@ =~= start_notices(*old(st), order@, f.frame_idx, pos));
    }
    push_order(findings, &notices);
    *frames = *frames + 1;
    Ok(())
}

fn do_pre(p: &[u8], v: Version, players: &Vec<Player>, order: &Vec<Expected>, active: usize, pos: usize, st: &mut OrderState, findings: &mut Vec<Finding>) -> (r: Result<(), ParseError>)
    requires
        old(st).wf(order@),
    ensures
        final(st).wf(order@),
        match pre_step(p@, v, players@, order@, active as nat, pos as int, *old(st)) {
            Err(e) => r == Err::<(), ParseError>(e),
            Ok((st2, new)) => r is Ok && *final(st) == st2 && final(findings)@ == old(findings)@ + new,
        },
{
    let ghost f0 = findings@;
    let f = match PreFrame::new(p, v, players) {
        Ok(x) => x,
        Err(e) => return Err(e),
    };
    let c = crate::preframe::character_on(players, f.port);
    let mut first: Vec<Issue> = Vec::new();
    if f.companion_mismatch(players) {
        first.push(Issue::CompanionMismatch { character: c });
    }
    push_record(findings, pos, &first);
    let issues = f.validate();
    push_record(findings, pos, &issues);
    let mut notices: Vec<Notice> = Vec::new();
    let got = Expected { port: f.port, nana: f.nana, kind: EventType::PreFrame };
    st.observe_record(order, active, got, f.frame_index, pos, &mut notices);
    proof {
        assert(notices@ =~= record_notices(*old(st), order@, active as nat, got, f.frame_index, pos));
    }
    push_order(findings, &notices);
    proof {
        let mis = if f.nana && c != ICE_CLIMBERS {
            record_findings(pos as int, seq![Issue::CompanionMismatch { character: c }])
        } else {
            Seq::empty()
        };
        assert(record_findings(pos as int, first@) =~= mis);
        assert(findings@ =~= f0 + (mis + record_findings(pos as int, pre_frame_issues(f))
            + order_findings(notices@)));
    }
    Ok(())
}

fn do_post(p: &[u8], v: Version, order: &Vec<Expected>, active: usize, pos: usize, st: &mut OrderState, findings: &mut Vec<Finding>) -> (r: Result<(), ParseError>)
    requires
        old(st).wf(order@),
    ensures
        final(st).wf(order@),
        match post_step(p@, v, order@, active as nat, pos as int, *old(st)) {
            Err(e) => r == Err::<(), ParseError>(e),
            Ok((st2, new)) => r is Ok && *final(st) == st2 && final(findings)@ == old(findings)@ + new,
        },
{
    let ghost f0 = findings@;
    let f = match PostFrame::new(p, v) {
        Ok(x) => x,
        Err(e) => return Err(e),
    };
    let issues = f.validate();
    push_record(findings, pos, &issues);
    let mut notices: Vec<Notice> = Vec::new();
    let got = Expected { port: f.port, nana: f.nana, kind: EventType::PostFrame };
    st.observe_record(order, active, got, f.frame_index, pos, &mut notices);
    proof {
        assert(notices@ =~= record_notices(*old(st), order@, active as nat, got, f.frame_index, pos));
    }
    push_order(findings, &notices);
    proof {
        assert(findings@ =~= f0 + (record_findings(pos as int, post_frame_issues(f))
            + order_findings(notices@)));
    }
    Ok(())
}

fn do_item(p: &[u8], v: Version, order: &Vec<Expected>, active: usize, pos: usize, st: &mut OrderState, findings: &mut Vec<Finding>) -> (r: Result<(), ParseError>)
    requires
        old(st).wf(order@),
    ensures
        final(st).wf(order@),
        match item_step(p@, v, order@, active as nat, pos as int, *old(st)) {
            Err(e) => r == Err::<(), ParseError>(e),
            Ok((st2, new)) => r is Ok && *final(st) == st2 && final(findings)@ == old(findings)@ + new,
        },
{
    let ghost f0 = findings@;
    let f = match ItemFrame::new(p, v) {
        Ok(x) => x,
        Err(e) => return Err(e),
    };
    let issues = f.validate();
    push_record(findings, pos, &issues);
    let mut notices: Vec<Notice> = Vec::new();
    let got = Expected { port: 0, nana: false, kind: EventType::Item };
    st.observe_record(order, active, got, f.frame_index, pos, &mut notices);
    proof {
        assert(notices@ =~= record_notices(*old(st), order@, active as nat, got, f.frame_index, pos));
    }
    push_order(findings, &notices);
    proof {
        assert(findings@ =~= f0 + (record_findings(pos as int, item_frame_issues(f))
            + order_findings(notices@)));
    }
    Ok(())
}

fn do_end(p: &[u8], v: Version, order: &Vec<Expected>, active: usize, pos: usize, st: &mut OrderState, findings: &mut Vec<Finding>) -> (r: Result<(), ParseError>)
    requires
        old(st).wf(order@),
    ensures
        final(st).wf(order@),
        match end_step(p@, v, order@, active as nat, pos as int, *old(st)) {
            Err(e) => r == Err::<(), ParseError>(e),
            Ok((st2, new)) => r is Ok && *final(st) == st2 && final(findings)@ == old(findings)@ + new,
        },
{
    let f = match FrameEnd::new(p, v) {
        Ok(x) => x,
        Err(e) => return Err(e),
    };
    let mut notices: Vec<Notice> = Vec::new();
    let got = Expected { port: 0, nana: false, kind: EventType::FrameEnd };
    st.observe_record(order, active, got, f.frame_idx, pos, &mut notices);
    proof {
        assert(notices@ =~= record_notices(*old(st), order@, active as nat, got, f.frame_idx, pos));
    }
    push_order(findings, &notices);
    Ok(())
}

/// Decodes the event at `pos` and follows it: the position after it and
/// whether it ends the stream.
fn step_event(
    s: &[u8],
    table: &EventSizes,
    v: Version,
    players: &Vec<Player>,
    order: &Vec<Expected>,
    active: usize,
    pos: usize,
    st: &mut OrderState,
    frames: &mut u64,
    findings: &mut Vec<Finding>,
) -> (r: Result<(usize, bool), ParseError>)
    requires
        pos < s@.len(),
        table.wf(),
        old(st).wf(order@),
        *old(frames) <= pos,
    ensures
        match event_step(s@, table@, v, players@, order@, active as nat, pos as int, *old(st), *old(frames) as nat) {
            Err(e) => r == Err::<(usize, bool), ParseError>(e),
            Ok((n, st2, f2, new, ended)) => {
                &&& r == Ok::<(usize, bool), ParseError>((n as usize, ended))
                &&& *final(st) == st2
                &&& *final(frames) == f2
                &&& final(findings)@ == old(findings)@ + new
                &&& pos < n <= s@.len()
                &&& f2 <= n
            },
        },
        final(st).wf(order@),
{
    reveal(event_step);
    let code = get_u8(s, pos);
    let size = match table.size_of(code) {
        Some(x) => x,
        None => return Err(ParseError::UnlistedEvent(code)),
    };
    if size as usize > s.len() - pos - 1 {
        return Err(ParseError::UnexpectedEnd);
    }
    let b = pos + 1 + size as usize;
    let p = slice_subrange(s, pos + 1, b);
    let kind = EventType::from_code(code);
    let ghost f0 = findings@;
    let done = if kind.same(&EventType::FrameStart) {
        do_start(p, v, order, pos, st, frames, findings)
    } else if kind.same(&EventType::PreFrame) {
        do_pre(p, v, players, order, active, pos, st, findings)
    } else if kind.same(&EventType::PostFrame) {
        do_post(p, v, order, active, pos, st, findings)
    } else if kind.same(&EventType::Item) {
        do_item(p, v, order, active, pos, st, findings)
    } else if kind.same(&EventType::FrameEnd) {
        do_end(p, v, order, active, pos, st, findings)
    } else if kind.same(&EventType::Unknown) {
        findings.push(Finding::UnknownEvent { pos, code });
        Ok(())
    } else {
        proof {
            assert(findings@ =~= f0 + Seq::<Finding>::empty());
        }
        Ok(())
    };
    match done {
        Ok(()) => Ok((b, kind.same(&EventType::GameEnd))),
        Err(e) => Err(e),
    }
}

} // verus!

verus! {

/// The number of frames that a last frame index implies, where it fits.
pub open spec fn frames_from_last(last: Option<i64>) -> Option<i64> {
    match last {
        Some(n) => if n <= i64::MAX - FRAME_OFFSET {
            Some((n + FRAME_OFFSET) as i64)
        } else {
            None
        },
        None => None,
    }
}

/// The metadata values that the walk from `at` finds.
pub open spec fn metadata_fields(s: Seq<u8>, at: int, last: Option<i64>, start: Option<Vec<u8>>) -> bool {
    let (l, b) = scan(s, at, None, None);
    &&& match l {
        Some(n) => last == Some(n as i64),
        None => last is None,
    }
    &&& match b {
        Some(x) => start matches Some(v) && v@ == x,
        None => start is None,
    }
}

/// `ps` is the roster that the match-start payload `p` gives.
pub open spec fn roster_of(ps: Seq<Player>, p: Seq<u8>) -> bool {
    &&& ps.len() == 4
    &&& forall|i: int| 0 <= i < 4 ==> player_fields(#[trigger] ps[i], p, i, version_of(p))
}

/// Validates a whole replay held in memory.
///
/// The file must open with the replay signature, the metadata block must
/// open with its key and type marker where the stream's length puts it, the
/// event payload table must be well formed, and a match-start event must
/// follow it; each of these is fatal, as is any read past the end of the
/// bytes or an event code that the table does not list. Everything else
/// is reported in `findings` and validation goes on to the match-end event
/// or the metadata block.
pub fn validate_replay(s: &[u8]) -> (r: Result<Summary, ParseError>)
    ensures
        preamble(s@) matches Err(e) ==> r == Err::<Summary, ParseError>(e),
        preamble(s@) matches Ok((meta, t, p, start)) ==> {
            let v = version_of(p);
            let setup = setup_findings(game_start_issues(p, v));
            &&& r matches Ok(sum) ==> {
                &&& sum.version == v
                &&& game_start_fields(sum.game_start, p, v)
                &&& roster_of(sum.players@, p)
                &&& metadata_fields(s@, meta + 11, sum.last_frame, sum.start_at)
                &&& sum.expected_frames == frames_from_last(sum.last_frame)
                &&& event_loop(s@, t, v, sum.players@, meta, start, OrderState::spec_new(), 0, setup)
                    matches Ok((st, frames, found)) && sum.actual_frames == frames && sum.findings@
                    == found
            }
            &&& r matches Err(e) ==> exists|ps: Seq<Player>|
                #[trigger] roster_of(ps, p) && event_loop(s@, t, v, ps, meta, start, OrderState::spec_new(), 0, setup)
                    == Err::<(OrderState, nat, Seq<Finding>), ParseError>(e)
        },
{
    let sig: [u8; 11] = [0x7b, 0x55, 0x03, 0x72, 0x61, 0x77, 0x5b, 0x24, 0x55, 0x23, 0x6c];
    let head: [u8; 11] = [0x55, 0x08, 0x6d, 0x65, 0x74, 0x61, 0x64, 0x61, 0x74, 0x61, 0x7b];
    proof {
        assert(sig@ =~= signature());
        assert(head@ =~= metadata_header());
    }
    let len = s.len();
    if len < 11 {
        return Err(ParseError::UnexpectedEnd);
    }
    if !matches_at(s, 0, sig.as_slice()) {
        return Err(ParseError::BadSignature);
    }
    if len < 15 {
        return Err(ParseError::UnexpectedEnd);
    }
    let meta64: u64 = get_u32(s, 11) as u64 + 15;
    if meta64 + 11 > len as u64 {
        return Err(ParseError::UnexpectedEnd);
    }
    let meta = meta64 as usize;
    if !matches_at(s, meta, head.as_slice()) {
        return Err(ParseError::BadMetadataHeader);
    }
    let md = read_metadata(s, meta + 11);
    let (table, next) = match EventSizes::parse(s, ENVELOPE) {
        Ok(x) => x,
        Err(e) => return Err(e),
    };
    if next >= len || get_u8(s, next) != GAME_START {
        return Err(ParseError::MissingGameStart);
    }
    let size = match table.size_of(GAME_START) {
        Some(x) => x,
        None => return Err(ParseError::UnlistedEvent(GAME_START)),
    };
    if size as usize > len - next - 1 {
        return Err(ParseError::UnexpectedEnd);
    }
    let start = next + 1 + size as usize;
    let raw = slice_subrange(s, next + 1, start);
    let (game_start, version, players, issues) = match GameStart::parse(raw) {
        Ok(x) => x,
        Err(e) => return Err(e),
    };
    let ghost p = raw@;
    proof {
        assert(version == version_of(p));
        assert(roster_of(players@, p));
        assert(s@.subrange(0, 11) == signature());
        assert(s@.subrange(meta as int, meta + 11) == metadata_header());
        assert(meta as int == u32_at(s@, 11) + 15);
        assert(preamble(s@) == Ok::<(int, Seq<Option<u16>>, Seq<u8>, int), ParseError>((meta as int, table@, p, start as int)));
    }
    let mut findings: Vec<Finding> = Vec::new();
    push_setup(&mut findings, &issues);
    proof {
        assert(findings@ =~= setup_findings(game_start_issues(p, version)));
    }
    let order = build_expected_order(&players);
    let active = count_active(&players);
    let mut st = OrderState::new();
    let mut frames: u64 = 0;
    let mut pos: usize = start;
    let ghost setup = findings@;
    loop
        invariant_except_break
            event_loop(s@, table@, version, players@, meta as int, pos as int, st, frames as nat, findings@)
                == event_loop(s@, table@, version, players@, meta as int, start as int, OrderState::spec_new(), 0, setup),
        invariant
            table.wf(),
            setup == setup_findings(game_start_issues(p, version_of(p))),
            roster_of(players@, p),
            preamble(s@) == Ok::<(int, Seq<Option<u16>>, Seq<u8>, int), ParseError>((meta as int, table@, p, start as int)),
            version == version_of(p),
            order@ == expected_order(players@),
            active == active_count(players@),
            st.wf(order@),
            frames <= pos,
            pos <= len,
            len == s@.len(),
        ensures
            event_loop(s@, table@, version, players@, meta as int, start as int, OrderState::spec_new(), 0, setup)
                == Ok::<(OrderState, nat, Seq<Finding>), ParseError>((st, frames as nat, findings@)),
        decreases len - pos,
    {
        if pos >= meta || pos >= len {
            break;
        }
        let ghost st0 = st;
        let ghost fr0 = frames;
        let ghost fd0 = findings@;
        match step_event(s, &table, version, &players, &order, active, pos, &mut st, &mut frames, &mut findings) {
            Err(e) => {
                proof {
                    assert(event_loop(s@, table@, version, players@, meta as int, pos as int, st0, fr0 as nat, fd0)
                        == Err::<(OrderState, nat, Seq<Finding>), ParseError>(e));
                    assert(event_loop(s@, table@, version, players@, meta as int, start as int, OrderState::spec_new(), 0, setup)
                        == Err::<(OrderState, nat, Seq<Finding>), ParseError>(e));
                    assert(roster_of(players@, p));
                    let setup2 = setup_findings(game_start_issues(p, version_of(p)));
                    assert(setup == setup2);
                    assert(exists|ps: Seq<Player>| #[trigger] roster_of(ps, p) && event_loop(s@, table@, version_of(p), ps, meta as int, start as int, OrderState::spec_new(), 0, setup2)
                        == Err::<(OrderState, nat, Seq<Finding>), ParseError>(e));
                }
                return Err(e);
            },
            Ok((n, ended)) => {
                pos = n;
                if ended {
                    break;
                }
            },
        }
    }
    let expected_frames = match md.last_frame {
        Some(n) => if n <= i64::MAX - FRAME_OFFSET {
            Some(n + FRAME_OFFSET)
        } else {
            None
        },
        None => None,
    };
    Ok(
        Summary {
            version,
            game_start,
            players,
            last_frame: md.last_frame,
            start_at: md.start_at,
            expected_frames,
            actual_frames: frames,
            findings,
        },
    )
}

} // verus!
