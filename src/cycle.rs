//! Properties of whole frames of events: what the order matcher reports
//! over complete cycles of a one-on-one, with and without a companion unit.
use vstd::prelude::*;

use crate::order::{
    active_count, expected_order, player_slots, roster_slots, slot, EventType, Expected,
};
use crate::player::{Player, ICE_CLIMBERS};
use crate::session::{
    lemma_run_append, run, run_notices, start_notices, start_out_of_order, frame_jump, landing,
    next_after_start, Notice, Observed, OrderState, FIRST_FRAME, MAX_ROLLBACK,
};

verus! {

/// A record event of the cycle at frame `k`.
pub open spec fn rec(port: u8, nana: bool, kind: EventType, k: i32) -> Observed {
    Observed::Record { got: slot(port, nana, kind), frame: k }
}

/// A roster of four slots, slot `i` on port `i`, where exactly the slots `p`
/// and `q` play.
pub open spec fn duel_roster(ps: Seq<Player>, p: int, q: int) -> bool {
    &&& ps.len() == 4
    &&& 0 <= p < q < 4
    &&& forall|i: int| 0 <= i < 4 ==> ps[i].port == i
    &&& forall|i: int| 0 <= i < 4 ==> (ps[i].spec_active() <==> (i == p || i == q))
}

/// One frame at index `k` of a one-on-one between ports `p` and `q` with no
/// companion unit and no item.
pub open spec fn duel_frame(p: u8, q: u8, k: i32) -> Seq<Observed> {
    seq![
        Observed::Start { idx: k },
        rec(p, false, EventType::PreFrame, k),
        rec(q, false, EventType::PreFrame, k),
        rec(p, false, EventType::PostFrame, k),
        rec(q, false, EventType::PostFrame, k),
        rec(0, false, EventType::FrameEnd, k),
    ]
}

/// `n` consecutive frames of such a one-on-one, from frame index `k` on.
pub open spec fn duel_frames(p: u8, q: u8, k: int, n: nat) -> Seq<Observed>
    decreases n,
{
    if n == 0 {
        Seq::empty()
    } else {
        duel_frame(p, q, k as i32) + duel_frames(p, q, k + 1, (n - 1) as nat)
    }
}

proof fn lemma_roster_slots_four(ps: Seq<Player>, kind: EventType)
    requires
        ps.len() == 4,
    ensures
        roster_slots(ps, kind) == player_slots(ps[0], kind) + player_slots(ps[1], kind)
            + player_slots(ps[2], kind) + player_slots(ps[3], kind),
{
    let head3 = ps.drop_last();
    let head2 = head3.drop_last();
    let head1 = head2.drop_last();
    let head0 = head1.drop_last();
    assert(head0.len() == 0);
    assert(head1.last() == ps[0] && head2.last() == ps[1] && head3.last() == ps[2] && ps.last() == ps[3]);
    assert(roster_slots(head0, kind) =~= Seq::empty());
    assert(roster_slots(head1, kind) == roster_slots(head0, kind) + player_slots(ps[0], kind));
    assert(roster_slots(head1, kind) =~= player_slots(ps[0], kind));
    assert(roster_slots(head2, kind) == roster_slots(head1, kind) + player_slots(ps[1], kind));
    assert(roster_slots(head3, kind) == roster_slots(head2, kind) + player_slots(ps[2], kind));
    assert(roster_slots(ps, kind) == roster_slots(head3, kind) + player_slots(ps[3], kind));
    assert(roster_slots(ps, kind) =~= player_slots(ps[0], kind) + player_slots(ps[1], kind)
        + player_slots(ps[2], kind) + player_slots(ps[3], kind));
}

proof fn lemma_active_four(ps: Seq<Player>)
    requires
        ps.len() == 4,
    ensures
        active_count(ps) == (if ps[0].spec_active() { 1nat } else { 0nat }) + (if ps[1].spec_active() {
            1nat
        } else {
            0nat
        }) + (if ps[2].spec_active() { 1nat } else { 0nat }) + (if ps[3].spec_active() {
            1nat
        } else {
            0nat
        }),
{
    let head3 = ps.drop_last();
    let head2 = head3.drop_last();
    let head1 = head2.drop_last();
    let head0 = head1.drop_last();
    assert(head0.len() == 0);
    assert(head1.last() == ps[0] && head2.last() == ps[1] && head3.last() == ps[2] && ps.last() == ps[3]);
    assert(active_count(head0) == 0);
    assert(active_count(head1) == active_count(head0) + (if ps[0].spec_active() { 1nat } else { 0nat }));
    assert(active_count(head2) == active_count(head1) + (if ps[1].spec_active() { 1nat } else { 0nat }));
    assert(active_count(head3) == active_count(head2) + (if ps[2].spec_active() { 1nat } else { 0nat }));
    assert(active_count(ps) == active_count(head3) + (if ps[3].spec_active() { 1nat } else { 0nat }));
}

/// The cycle of a one-on-one without companion: start, two pre-records, the
/// item slot, two post-records, end.
pub proof fn lemma_duel_order(ps: Seq<Player>, p: int, q: int)
    requires
        duel_roster(ps, p, q),
        ps[p].character != ICE_CLIMBERS,
        ps[q].character != ICE_CLIMBERS,
    ensures
        active_count(ps) == 2,
        expected_order(ps) == seq![
            slot(0, false, EventType::FrameStart),
            slot(p as u8, false, EventType::PreFrame),
            slot(q as u8, false, EventType::PreFrame),
            slot(0, false, EventType::Item),
            slot(p as u8, false, EventType::PostFrame),
            slot(q as u8, false, EventType::PostFrame),
            slot(0, false, EventType::FrameEnd),
        ],
{
    lemma_roster_slots_four(ps, EventType::PreFrame);
    lemma_roster_slots_four(ps, EventType::PostFrame);
    lemma_active_four(ps);
    assert(expected_order(ps) =~= seq![
        slot(0, false, EventType::FrameStart),
        slot(p as u8, false, EventType::PreFrame),
        slot(q as u8, false, EventType::PreFrame),
        slot(0, false, EventType::Item),
        slot(p as u8, false, EventType::PostFrame),
        slot(q as u8, false, EventType::PostFrame),
        slot(0, false, EventType::FrameEnd),
    ]);
}

} // verus!

verus! {

proof fn lemma_duel_frame(o: Seq<Expected>, p: u8, q: u8, s: OrderState, k: i32)
    requires
        o == seq![
            slot(0, false, EventType::FrameStart),
            slot(p, false, EventType::PreFrame),
            slot(q, false, EventType::PreFrame),
            slot(0, false, EventType::Item),
            slot(p, false, EventType::PostFrame),
            slot(q, false, EventType::PostFrame),
            slot(0, false, EventType::FrameEnd),
        ],
        p != q,
        s.cursor == 0,
        !s.need_sync,
        0 <= k - s.prev_frame <= 1,
    ensures
        run(s, o, 2, duel_frame(p, q, k)) == (OrderState { cursor: 0, need_sync: false, prev_frame: k }),
        run_notices(s, o, 2, duel_frame(p, q, k)) == Seq::<Notice>::empty(),
{
    let e = duel_frame(p, q, k);
    let s1 = OrderState { cursor: 1, need_sync: false, prev_frame: k };
    let s2 = OrderState { cursor: 2, need_sync: false, prev_frame: k };
    let s3 = OrderState { cursor: 3, need_sync: false, prev_frame: k };
    let s5 = OrderState { cursor: 5, need_sync: false, prev_frame: k };
    let s6 = OrderState { cursor: 6, need_sync: false, prev_frame: k };
    let s7 = OrderState { cursor: 0, need_sync: false, prev_frame: k };
    assert(!start_out_of_order(s, o));
    assert(!frame_jump(s.prev_frame, k));
    assert(start_notices(s, o, k, 0) =~= Seq::<Notice>::empty());
    assert(landing(o, 1, slot(p, false, EventType::PreFrame)) == Some(1int));
    assert(landing(o, 2, slot(q, false, EventType::PreFrame)) == Some(2int));
    assert(landing(o, 4, slot(p, false, EventType::PostFrame)) == Some(4int));
    assert(landing(o, 3, slot(p, false, EventType::PostFrame)) == Some(4int));
    assert(landing(o, 5, slot(q, false, EventType::PostFrame)) == Some(5int));
    assert(landing(o, 6, slot(0, false, EventType::FrameEnd)) == Some(6int));
    let t1 = e.drop_first();
    let t2 = t1.drop_first();
    let t3 = t2.drop_first();
    let t4 = t3.drop_first();
    let t5 = t4.drop_first();
    let t6 = t5.drop_first();
    assert(t6.len() == 0);
    assert(t1[0] == e[1] && t2[0] == e[2] && t3[0] == e[3] && t4[0] == e[4] && t5[0] == e[5]);
    assert(run(s7, o, 2, t6) == s7);
    assert(run_notices(s7, o, 2, t6) =~= Seq::<Notice>::empty());
    assert(run(s6, o, 2, t5) == s7);
    assert(run_notices(s6, o, 2, t5) =~= Seq::<Notice>::empty());
    assert(run(s5, o, 2, t4) == s7);
    assert(run_notices(s5, o, 2, t4) =~= Seq::<Notice>::empty());
    assert(run(s3, o, 2, t3) == s7);
    assert(run_notices(s3, o, 2, t3) =~= Seq::<Notice>::empty());
    assert(run(s2, o, 2, t2) == s7);
    assert(run_notices(s2, o, 2, t2) =~= Seq::<Notice>::empty());
    assert(run(s1, o, 2, t1) == s7);
    assert(run_notices(s1, o, 2, t1) =~= Seq::<Notice>::empty());
    assert(next_after_start(s, o, k) == s1);
    assert(run_notices(s, o, 2, e) =~= Seq::<Notice>::empty());
}

/// A one-on-one with no companion unit and no item, followed for `n`
/// consecutive frames from the first frame of a match, gives no report at
/// all, and the matcher is back at the start of the cycle after each frame.
pub proof fn lemma_duel_stream(ps: Seq<Player>, p: int, q: int, n: nat)
    requires
        duel_roster(ps, p, q),
        ps[p].character != ICE_CLIMBERS,
        ps[q].character != ICE_CLIMBERS,
        FIRST_FRAME + n <= i32::MAX,
    ensures
        run_notices(OrderState::spec_new(), expected_order(ps), active_count(ps), duel_frames(
            p as u8,
            q as u8,
            FIRST_FRAME as int,
            n,
        )) == Seq::<Notice>::empty(),
        run(OrderState::spec_new(), expected_order(ps), active_count(ps), duel_frames(
            p as u8,
            q as u8,
            FIRST_FRAME as int,
            n,
        )) == (OrderState {
            cursor: 0,
            need_sync: false,
            prev_frame: if n == 0 {
                FIRST_FRAME
            } else {
                (FIRST_FRAME + n - 1) as i32
            },
        }),
{
    lemma_duel_order(ps, p, q);
    lemma_duel_frames(expected_order(ps), p as u8, q as u8, OrderState::spec_new(), FIRST_FRAME as int, n);
}

proof fn lemma_duel_frames(o: Seq<Expected>, p: u8, q: u8, s: OrderState, k: int, n: nat)
    requires
        o == seq![
            slot(0, false, EventType::FrameStart),
            slot(p, false, EventType::PreFrame),
            slot(q, false, EventType::PreFrame),
            slot(0, false, EventType::Item),
            slot(p, false, EventType::PostFrame),
            slot(q, false, EventType::PostFrame),
            slot(0, false, EventType::FrameEnd),
        ],
        p != q,
        s.cursor == 0,
        !s.need_sync,
        0 <= k - s.prev_frame <= 1,
        k + n <= i32::MAX + 1,
    ensures
        run_notices(s, o, 2, duel_frames(p, q, k, n)) == Seq::<Notice>::empty(),
        run(s, o, 2, duel_frames(p, q, k, n)) == (OrderState {
            cursor: 0,
            need_sync: false,
            prev_frame: if n == 0 {
                s.prev_frame
            } else {
                (k + n - 1) as i32
            },
        }),
    decreases n,
{
    if n == 0 {
        assert(run_notices(s, o, 2, duel_frames(p, q, k, n)) =~= Seq::<Notice>::empty());
    } else {
        let first = duel_frame(p, q, k as i32);
        let rest = duel_frames(p, q, k + 1, (n - 1) as nat);
        lemma_duel_frame(o, p, q, s, k as i32);
        let s1 = OrderState { cursor: 0, need_sync: false, prev_frame: k as i32 };
        lemma_duel_frames(o, p, q, s1, k + 1, (n - 1) as nat);
        lemma_run_append(s, o, 2, first, rest);
        assert(Seq::<Notice>::empty() + Seq::<Notice>::empty() =~= Seq::<Notice>::empty());
    }
}

} // verus!

verus! {

/// The cycle of a one-on-one where the player on the lower port plays the
/// companion character: its companion unit's slots follow its own.
pub proof fn lemma_companion_order(ps: Seq<Player>, p: int, q: int)
    requires
        duel_roster(ps, p, q),
        ps[p].character == ICE_CLIMBERS,
        ps[q].character != ICE_CLIMBERS,
    ensures
        active_count(ps) == 2,
        expected_order(ps) == companion_order(p as u8, q as u8),
{
    lemma_roster_slots_four(ps, EventType::PreFrame);
    lemma_roster_slots_four(ps, EventType::PostFrame);
    lemma_active_four(ps);
    assert(expected_order(ps) =~= companion_order(p as u8, q as u8));
}

pub open spec fn companion_order(p: u8, q: u8) -> Seq<Expected> {
    seq![
        slot(0, false, EventType::FrameStart),
        slot(p, false, EventType::PreFrame),
        slot(p, true, EventType::PreFrame),
        slot(q, false, EventType::PreFrame),
        slot(0, false, EventType::Item),
        slot(p, false, EventType::PostFrame),
        slot(p, true, EventType::PostFrame),
        slot(q, false, EventType::PostFrame),
        slot(0, false, EventType::FrameEnd),
    ]
}

/// A frame at index `k` where the companion unit of port `p` has its
/// pre-record but no post-record.
pub open spec fn frame_without_companion_post(p: u8, q: u8, k: i32) -> Seq<Observed> {
    seq![
        Observed::Start { idx: k },
        rec(p, false, EventType::PreFrame, k),
        rec(p, true, EventType::PreFrame, k),
        rec(q, false, EventType::PreFrame, k),
        rec(p, false, EventType::PostFrame, k),
        rec(q, false, EventType::PostFrame, k),
        rec(0, false, EventType::FrameEnd, k),
    ]
}

/// Where the companion unit's post-record is missing from a frame, the
/// matcher passes over its slot: no report, and the cycle closes as usual.
pub proof fn lemma_companion_absent(ps: Seq<Player>, p: int, q: int, s: OrderState, k: i32)
    requires
        duel_roster(ps, p, q),
        ps[p].character == ICE_CLIMBERS,
        ps[q].character != ICE_CLIMBERS,
        s.cursor == 0,
        !s.need_sync,
        0 <= k - s.prev_frame <= 1,
    ensures
        run_notices(s, expected_order(ps), active_count(ps), frame_without_companion_post(
            p as u8,
            q as u8,
            k,
        )) == Seq::<Notice>::empty(),
        run(s, expected_order(ps), active_count(ps), frame_without_companion_post(
            p as u8,
            q as u8,
            k,
        )) == (OrderState { cursor: 0, need_sync: false, prev_frame: k }),
{
    lemma_companion_order(ps, p, q);
    let o = expected_order(ps);
    let (pp, qq) = (p as u8, q as u8);
    let e = frame_without_companion_post(pp, qq, k);
    let end = OrderState { cursor: 0, need_sync: false, prev_frame: k };
    assert(!start_out_of_order(s, o));
    assert(!frame_jump(s.prev_frame, k));
    assert(start_notices(s, o, k, 0) =~= Seq::<Notice>::empty());
    assert(landing(o, 5, slot(pp, false, EventType::PostFrame)) == Some(5int));
    assert(landing(o, 4, slot(pp, false, EventType::PostFrame)) == Some(5int));
    assert(landing(o, 7, slot(qq, false, EventType::PostFrame)) == Some(7int));
    assert(landing(o, 6, slot(qq, false, EventType::PostFrame)) == Some(7int));
    let t1 = e.drop_first();
    let t2 = t1.drop_first();
    let t3 = t2.drop_first();
    let t4 = t3.drop_first();
    let t5 = t4.drop_first();
    let t6 = t5.drop_first();
    let t7 = t6.drop_first();
    assert(t7.len() == 0);
    assert(t1[0] == e[1] && t2[0] == e[2] && t3[0] == e[3] && t4[0] == e[4] && t5[0] == e[5]
        && t6[0] == e[6]);
    assert(run(end, o, 2, t7) == end);
    assert(run_notices(end, o, 2, t7) =~= Seq::<Notice>::empty());
    let s8 = OrderState { cursor: 8, ..end };
    assert(run(s8, o, 2, t6) == end);
    assert(run_notices(s8, o, 2, t6) =~= Seq::<Notice>::empty());
    let s6 = OrderState { cursor: 6, ..end };
    assert(run(s6, o, 2, t5) == end);
    assert(run_notices(s6, o, 2, t5) =~= Seq::<Notice>::empty());
    let s4 = OrderState { cursor: 4, ..end };
    assert(run(s4, o, 2, t4) == end);
    assert(run_notices(s4, o, 2, t4) =~= Seq::<Notice>::empty());
    let s3 = OrderState { cursor: 3, ..end };
    assert(run(s3, o, 2, t3) == end);
    assert(run_notices(s3, o, 2, t3) =~= Seq::<Notice>::empty());
    let s2 = OrderState { cursor: 2, ..end };
    assert(run(s2, o, 2, t2) == end);
    assert(run_notices(s2, o, 2, t2) =~= Seq::<Notice>::empty());
    let s1 = OrderState { cursor: 1, ..end };
    assert(run(s1, o, 2, t1) == end);
    assert(run_notices(s1, o, 2, t1) =~= Seq::<Notice>::empty());
    assert(next_after_start(s, o, k) == s1);
    assert(run_notices(s, o, 2, e) =~= Seq::<Notice>::empty());
}

/// A frame at index `k` of a one-on-one where port `p` sends a companion
/// post-record though it plays no companion character.
pub open spec fn frame_with_stray_companion_post(p: u8, q: u8, k: i32) -> Seq<Observed> {
    seq![
        Observed::Start { idx: k },
        rec(p, false, EventType::PreFrame, k),
        rec(q, false, EventType::PreFrame, k),
        rec(p, false, EventType::PostFrame, k),
        rec(p, true, EventType::PostFrame, k),
        rec(q, false, EventType::PostFrame, k),
        rec(0, false, EventType::FrameEnd, k),
    ]
}

/// A companion post-record from a player without the companion character is
/// reported as an ordering error, once, at the slot it took.
pub proof fn lemma_stray_companion(ps: Seq<Player>, p: int, q: int, s: OrderState, k: i32)
    requires
        duel_roster(ps, p, q),
        ps[p].character != ICE_CLIMBERS,
        ps[q].character != ICE_CLIMBERS,
        s.cursor == 0,
        !s.need_sync,
        0 <= k - s.prev_frame <= 1,
    ensures
        run_notices(s, expected_order(ps), active_count(ps), frame_with_stray_companion_post(
            p as u8,
            q as u8,
            k,
        )) == seq![
            Notice::UnexpectedOrder {
                pos: 0,
                expected: Some(slot(q as u8, false, EventType::PostFrame)),
                got: EventType::PostFrame,
                frame: k,
                got_frame: k,
            },
        ],
{
    lemma_duel_order(ps, p, q);
    let o = expected_order(ps);
    let (pp, qq) = (p as u8, q as u8);
    let e = frame_with_stray_companion_post(pp, qq, k);
    let base = OrderState { cursor: 0, need_sync: false, prev_frame: k };
    let synced = OrderState { cursor: 0, need_sync: true, prev_frame: k };
    let err = seq![
        Notice::UnexpectedOrder {
            pos: 0,
            expected: Some(slot(qq, false, EventType::PostFrame)),
            got: EventType::PostFrame,
            frame: k,
            got_frame: k,
        },
    ];
    assert(!start_out_of_order(s, o));
    assert(!frame_jump(s.prev_frame, k));
    assert(start_notices(s, o, k, 0) =~= Seq::<Notice>::empty());
    assert(landing(o, 4, slot(pp, false, EventType::PostFrame)) == Some(4int));
    assert(landing(o, 3, slot(pp, false, EventType::PostFrame)) == Some(4int));
    assert(landing(o, 5, slot(pp, true, EventType::PostFrame)) is None);
    assert(landing(o, 6, slot(qq, false, EventType::PostFrame)) is None);
    assert(landing(o, 7, slot(0, false, EventType::FrameEnd)) is None);
    let t1 = e.drop_first();
    let t2 = t1.drop_first();
    let t3 = t2.drop_first();
    let t4 = t3.drop_first();
    let t5 = t4.drop_first();
    let t6 = t5.drop_first();
    let t7 = t6.drop_first();
    assert(t7.len() == 0);
    assert(t1[0] == e[1] && t2[0] == e[2] && t3[0] == e[3] && t4[0] == e[4] && t5[0] == e[5]
        && t6[0] == e[6]);
    assert(run_notices(synced, o, 2, t7) =~= Seq::<Notice>::empty());
    let s7 = OrderState { cursor: 7, ..synced };
    assert(run_notices(s7, o, 2, t6) =~= Seq::<Notice>::empty());
    let s6 = OrderState { cursor: 6, ..synced };
    assert(run_notices(s6, o, 2, t5) =~= Seq::<Notice>::empty());
    let s5 = OrderState { cursor: 5, ..base };
    assert(run_notices(s5, o, 2, t4) =~= err);
    let s3 = OrderState { cursor: 3, ..base };
    assert(run_notices(s3, o, 2, t3) =~= err);
    let s2 = OrderState { cursor: 2, ..base };
    assert(run_notices(s2, o, 2, t2) =~= err);
    assert(run_notices(OrderState { cursor: 1, ..base }, o, 2, t1) =~= err);
    let s1 = OrderState { cursor: 1, ..base };
    assert(next_after_start(s, o, k) == s1);
    assert(run_notices(s, o, 2, e) =~= err);
}

/// A start marker in turn whose frame index moves back by one to ten frames
/// reports a rollback and nothing else.
pub proof fn lemma_rollback_reported(s: OrderState, o: Seq<Expected>, idx: i32, pos: usize)
    requires
        !start_out_of_order(s, o),
        -MAX_ROLLBACK <= idx - s.prev_frame < 0,
    ensures
        start_notices(s, o, idx, pos) == seq![Notice::Rollback { pos, from: s.prev_frame, to: idx }],
{
    assert(start_notices(s, o, idx, pos) =~= seq![
        Notice::Rollback { pos, from: s.prev_frame, to: idx },
    ]);
}

/// A start marker that moves the frame index more than one frame forward, or
/// back by more than ten frames, reports a frame jump.
pub proof fn lemma_jump_reported(s: OrderState, o: Seq<Expected>, idx: i32, pos: usize)
    requires
        idx - s.prev_frame > 1 || idx - s.prev_frame < -MAX_ROLLBACK,
    ensures
        start_notices(s, o, idx, pos).contains(
            Notice::FrameJump { pos, previous: s.prev_frame, current: idx },
        ),
{
    let n = start_notices(s, o, idx, pos);
    let first = if start_out_of_order(s, o) {
        1int
    } else {
        0int
    };
    assert(n[first] == Notice::FrameJump { pos, previous: s.prev_frame, current: idx });
}

} // verus!

verus! {

/// The cycle of a one-on-one where the player on the higher port plays the
/// companion character.
pub open spec fn companion_order_high(p: u8, q: u8) -> Seq<Expected> {
    seq![
        slot(0, false, EventType::FrameStart),
        slot(p, false, EventType::PreFrame),
        slot(q, false, EventType::PreFrame),
        slot(q, true, EventType::PreFrame),
        slot(0, false, EventType::Item),
        slot(p, false, EventType::PostFrame),
        slot(q, false, EventType::PostFrame),
        slot(q, true, EventType::PostFrame),
        slot(0, false, EventType::FrameEnd),
    ]
}

/// A frame at index `k` where the companion unit of port `q` has its
/// pre-record but no post-record, `q` being the higher port.
pub open spec fn frame_without_companion_post_high(p: u8, q: u8, k: i32) -> Seq<Observed> {
    seq![
        Observed::Start { idx: k },
        rec(p, false, EventType::PreFrame, k),
        rec(q, false, EventType::PreFrame, k),
        rec(q, true, EventType::PreFrame, k),
        rec(p, false, EventType::PostFrame, k),
        rec(q, false, EventType::PostFrame, k),
        rec(0, false, EventType::FrameEnd, k),
    ]
}

/// Where the companion unit's post-record is missing from a frame and the
/// companion character plays on the higher port, the end marker passes
/// over the companion's slot: no report, and the cycle closes as usual.
pub proof fn lemma_companion_absent_high(ps: Seq<Player>, p: int, q: int, s: OrderState, k: i32)
    requires
        duel_roster(ps, p, q),
        ps[p].character != ICE_CLIMBERS,
        ps[q].character == ICE_CLIMBERS,
        s.cursor == 0,
        !s.need_sync,
        0 <= k - s.prev_frame <= 1,
    ensures
        run_notices(s, expected_order(ps), active_count(ps), frame_without_companion_post_high(
            p as u8,
            q as u8,
            k,
        )) == Seq::<Notice>::empty(),
        run(s, expected_order(ps), active_count(ps), frame_without_companion_post_high(
            p as u8,
            q as u8,
            k,
        )) == (OrderState { cursor: 0, need_sync: false, prev_frame: k }),
{
    lemma_roster_slots_four(ps, EventType::PreFrame);
    lemma_roster_slots_four(ps, EventType::PostFrame);
    lemma_active_four(ps);
    let (pp, qq) = (p as u8, q as u8);
    assert(expected_order(ps) =~= companion_order_high(pp, qq));
    let o = expected_order(ps);
    let e = frame_without_companion_post_high(pp, qq, k);
    let end = OrderState { cursor: 0, need_sync: false, prev_frame: k };
    assert(!start_out_of_order(s, o));
    assert(!frame_jump(s.prev_frame, k));
    assert(start_notices(s, o, k, 0) =~= Seq::<Notice>::empty());
    assert(landing(o, 5, slot(pp, false, EventType::PostFrame)) == Some(5int));
    assert(landing(o, 4, slot(pp, false, EventType::PostFrame)) == Some(5int));
    assert(landing(o, 8, slot(0, false, EventType::FrameEnd)) == Some(8int));
    assert(landing(o, 7, slot(0, false, EventType::FrameEnd)) == Some(8int));
    let t1 = e.drop_first();
    let t2 = t1.drop_first();
    let t3 = t2.drop_first();
    let t4 = t3.drop_first();
    let t5 = t4.drop_first();
    let t6 = t5.drop_first();
    let t7 = t6.drop_first();
    assert(t7.len() == 0);
    assert(t1[0] == e[1] && t2[0] == e[2] && t3[0] == e[3] && t4[0] == e[4] && t5[0] == e[5]
        && t6[0] == e[6]);
    assert(run(end, o, 2, t7) == end);
    assert(run_notices(end, o, 2, t7) =~= Seq::<Notice>::empty());
    let s7 = OrderState { cursor: 7, ..end };
    assert(run(s7, o, 2, t6) == end);
    assert(run_notices(s7, o, 2, t6) =~= Seq::<Notice>::empty());
    let s6 = OrderState { cursor: 6, ..end };
    assert(run(s6, o, 2, t5) == end);
    assert(run_notices(s6, o, 2, t5) =~= Seq::<Notice>::empty());
    let s4 = OrderState { cursor: 4, ..end };
    assert(run(s4, o, 2, t4) == end);
    assert(run_notices(s4, o, 2, t4) =~= Seq::<Notice>::empty());
    let s3 = OrderState { cursor: 3, ..end };
    assert(run(s3, o, 2, t3) == end);
    assert(run_notices(s3, o, 2, t3) =~= Seq::<Notice>::empty());
    let s2 = OrderState { cursor: 2, ..end };
    assert(run(s2, o, 2, t2) == end);
    assert(run_notices(s2, o, 2, t2) =~= Seq::<Notice>::empty());
    let s1 = OrderState { cursor: 1, ..end };
    assert(run(s1, o, 2, t1) == end);
    assert(run_notices(s1, o, 2, t1) =~= Seq::<Notice>::empty());
    assert(next_after_start(s, o, k) == s1);
    assert(run_notices(s, o, 2, e) =~= Seq::<Notice>::empty());
}

} // verus!
