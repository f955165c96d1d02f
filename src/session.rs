//! The event-order matcher: follows the stream's events against the
//! per-frame cycle, tells rollbacks from frame jumps, and recovers after
//! an out-of-order event.
use vstd::prelude::*;

use crate::order::{EventType, Expected};

verus! {

/// Frame index of the first frame of every match; the frame before it is
/// taken to be this one, so the first start marker is no jump.
pub const FIRST_FRAME: i32 = -123;

/// A rollback may rewind at most this many frames.
pub const MAX_ROLLBACK: i32 = 10;

/// What the order matcher reports while it follows the stream.
#[derive(Debug, Clone, Copy, PartialEq, Eq)]
pub enum Notice {
    /// An event arrived where the cycle held another (error).
    UnexpectedOrder { pos: usize, expected: Option<Expected>, got: EventType, frame: i32, got_frame: i32 },
    /// A start marker moved more than one frame forward, or further back
    /// than a rollback can reach (error).
    FrameJump { pos: usize, previous: i32, current: i32 },
    /// A start marker moved back: a network rollback (information).
    Rollback { pos: usize, from: i32, to: i32 },
}

/// The matcher's position in the per-frame cycle.
#[derive(Debug, Clone, Copy, PartialEq, Eq)]
pub struct OrderState {
    /// Index of the slot of the cycle that the next event should fill.
    pub cursor: usize,
    /// Set after an ordering error until the next start marker, so that one
    /// misplaced event is reported once.
    pub need_sync: bool,
    /// Index of the frame that the last start marker opened.
    pub prev_frame: i32,
}

/// A slot that may stay empty: the companion unit's records (it may be
/// absent for a frame) and the item slot (a frame may hold no item).
pub open spec fn skippable(e: Expected) -> bool {
    e.nana || e.kind == EventType::Item
}

/// The slot, from `i` on, that the record `got` fills: `i` itself where it
/// matches, else the first match after a run of slots that may stay empty.
pub open spec fn landing(order: Seq<Expected>, i: int, got: Expected) -> Option<int>
    decreases order.len() - i,
{
    if i < 0 || i >= order.len() {
        None
    } else if order[i] == got {
        Some(i)
    } else if skippable(order[i]) {
        landing(order, i + 1, got)
    } else {
        None
    }
}

proof fn lemma_landing_bounds(order: Seq<Expected>, i: int, got: Expected)
    ensures
        landing(order, i, got) matches Some(j) ==> i <= j < order.len() && order[j] == got,
    decreases order.len() - i,
{
    if 0 <= i < order.len() && order[i] != got && skippable(order[i]) {
        lemma_landing_bounds(order, i + 1, got);
    }
}

pub open spec fn slot_at(order: Seq<Expected>, i: int) -> Option<Expected> {
    if 0 <= i < order.len() {
        Some(order[i])
    } else {
        None
    }
}

/// True where a record outside the cycle is reported: it fills no slot,
/// no report is pending, and the match is a one-on-one.
pub open spec fn record_error(s: OrderState, order: Seq<Expected>, active: nat, got: Expected) -> bool {
    landing(order, s.cursor as int, got) is None && !s.need_sync && active == 2
}

pub open spec fn step_cursor(at: int, len: int) -> usize {
    if at + 1 <= len {
        (at + 1) as usize
    } else {
        len as usize
    }
}

/// The state after a pre-record, post-record, item or end marker `got`.
pub open spec fn next_after_record(
    s: OrderState,
    order: Seq<Expected>,
    active: nat,
    got: Expected,
) -> OrderState {
    let at = match landing(order, s.cursor as int, got) {
        Some(i) => i,
        None => s.cursor as int,
    };
    OrderState {
        cursor: if got.kind == EventType::FrameEnd {
            0
        } else if got.kind == EventType::Item {
            at as usize
        } else {
            step_cursor(at, order.len() as int)
        },
        need_sync: s.need_sync || record_error(s, order, active, got),
        prev_frame: s.prev_frame,
    }
}

/// What a pre-record, post-record, item or end marker `got` reports.
pub open spec fn record_notices(
    s: OrderState,
    order: Seq<Expected>,
    active: nat,
    got: Expected,
    got_frame: i32,
    pos: usize,
) -> Seq<Notice> {
    if record_error(s, order, active, got) {
        seq![
            Notice::UnexpectedOrder {
                pos,
                expected: slot_at(order, s.cursor as int),
                got: got.kind,
                frame: s.prev_frame,
                got_frame,
            },
        ]
    } else {
        Seq::empty()
    }
}

/// True where a start marker comes out of turn: a report is pending, or the
/// cursor is at neither the start slot nor a companion slot.
pub open spec fn start_out_of_order(s: OrderState, order: Seq<Expected>) -> bool {
    s.need_sync || !(s.cursor < order.len() && (order[s.cursor as int].kind == EventType::FrameStart
        || order[s.cursor as int].nana))
}

/// True where the frame index moves more than one frame forward or further
/// back than a rollback reaches.
pub open spec fn frame_jump(previous: i32, current: i32) -> bool {
    current - previous > 1 || current - previous < -MAX_ROLLBACK
}

/// The state after a start marker for frame `idx`.
pub open spec fn next_after_start(s: OrderState, order: Seq<Expected>, idx: i32) -> OrderState {
    let base = if start_out_of_order(s, order) {
        0int
    } else {
        s.cursor as int
    };
    OrderState { cursor: step_cursor(base, order.len() as int), need_sync: false, prev_frame: idx }
}

/// What a start marker for frame `idx` reports, in this order: an ordering
/// error, a frame jump, a rollback.
pub open spec fn start_notices(s: OrderState, order: Seq<Expected>, idx: i32, pos: usize) -> Seq<
    Notice,
> {
    (if start_out_of_order(s, order) {
        seq![
            Notice::UnexpectedOrder {
                pos,
                expected: slot_at(order, s.cursor as int),
                got: EventType::FrameStart,
                frame: s.prev_frame,
                got_frame: idx,
            },
        ]
    } else {
        Seq::empty()
    }) + (if frame_jump(s.prev_frame, idx) {
        seq![Notice::FrameJump { pos, previous: s.prev_frame, current: idx }]
    } else {
        Seq::empty()
    }) + (if idx < s.prev_frame {
        seq![Notice::Rollback { pos, from: s.prev_frame, to: idx }]
    } else {
        Seq::empty()
    })
}

/// Finds the slot that `got` fills from `cursor` on.
fn find_landing(order: &Vec<Expected>, cursor: usize, got: &Expected) -> (r: Option<usize>)
    requires
        cursor <= order@.len(),
    ensures
        match landing(order@, cursor as int, *got) {
            Some(i) => r == Some(i as usize),
            None => r is None,
        },
{
    let mut j: usize = cursor;
    while j < order.len()
        invariant
            cursor <= j <= order@.len(),
            landing(order@, cursor as int, *got) == landing(order@, j as int, *got),
        decreases order@.len() - j,
    {
        let e = order[j];
        if e.same(got) {
            return Some(j);
        }
        if !(e.nana || e.kind.same(&EventType::Item)) {
            return None;
        }
        j = j + 1;
    }
    None
}

impl OrderState {
    pub open spec fn wf(self, order: Seq<Expected>) -> bool {
        self.cursor <= order.len()
    }

    pub open spec fn spec_new() -> OrderState {
        OrderState { cursor: 0, need_sync: false, prev_frame: FIRST_FRAME }
    }

    /// The state at the start of a match's event stream.
    pub fn new() -> (r: OrderState)
        ensures
            r == OrderState::spec_new(),
    {
        OrderState { cursor: 0, need_sync: false, prev_frame: FIRST_FRAME }
    }

    /// Follows a start marker for frame `idx`, seen at file position `pos`.
    pub fn observe_frame_start(
        &mut self,
        order: &Vec<Expected>,
        idx: i32,
        pos: usize,
        notices: &mut Vec<Notice>,
    )
        requires
            old(self).wf(order@),
        ensures
            *final(self) == next_after_start(*old(self), order@, idx),
            final(self).wf(order@),
            final(notices)@ == old(notices)@ + start_notices(*old(self), order@, idx, pos),
    {
        let ghost s0 = *self;
        let ghost n0 = notices@;
        let out_of_order = self.need_sync || !(self.cursor < order.len() && (order[self.cursor].kind.same(
            &EventType::FrameStart,
        ) || order[self.cursor].nana));
        if out_of_order {
            let expected = if self.cursor < order.len() {
                Some(order[self.cursor])
            } else {
                None
            };
            notices.push(
                Notice::UnexpectedOrder {
                    pos,
                    expected,
                    got: EventType::FrameStart,
                    frame: self.prev_frame,
                    got_frame: idx,
                },
            );
            self.cursor = 0;
            self.need_sync = false;
        }
        let previous = self.prev_frame;
        let delta: i64 = idx as i64 - previous as i64;
        if delta > 1 || delta < -(MAX_ROLLBACK as i64) {
            notices.push(Notice::FrameJump { pos, previous, current: idx });
        }
        if idx < previous {
            notices.push(Notice::Rollback { pos, from: previous, to: idx });
        }
        if self.cursor < order.len() {
            self.cursor = self.cursor + 1;
        }
        self.prev_frame = idx;
        proof {
            assert(notices@ =~= n0 + start_notices(s0, order@, idx, pos));
        }
    }

    /// Follows a pre-record, post-record, item or end marker `got` whose own
    /// frame index is `got_frame`, seen at file position `pos`, in a match
    /// where `active` roster entries play.
    pub fn observe_record(
        &mut self,
        order: &Vec<Expected>,
        active: usize,
        got: Expected,
        got_frame: i32,
        pos: usize,
        notices: &mut Vec<Notice>,
    )
        requires
            old(self).wf(order@),
        ensures
            *final(self) == next_after_record(*old(self), order@, active as nat, got),
            final(self).wf(order@),
            final(notices)@ == old(notices)@ + record_notices(
                *old(self),
                order@,
                active as nat,
                got,
                got_frame,
                pos,
            ),
    {
        let ghost s0 = *self;
        let ghost n0 = notices@;
        let found = find_landing(order, self.cursor, &got);
        proof {
            lemma_landing_bounds(order@, self.cursor as int, got);
        }
        let at = match found {
            Some(i) => i,
            None => self.cursor,
        };
        if found.is_none() && !self.need_sync && active == 2 {
            let expected = if self.cursor < order.len() {
                Some(order[self.cursor])
            } else {
                None
            };
            notices.push(
                Notice::UnexpectedOrder {
                    pos,
                    expected,
                    got: got.kind,
                    frame: self.prev_frame,
                    got_frame,
                },
            );
            self.need_sync = true;
        }
        if got.kind.same(&EventType::FrameEnd) {
            self.cursor = 0;
        } else if got.kind.same(&EventType::Item) {
            self.cursor = at;
        } else if at < order.len() {
            self.cursor = at + 1;
        } else {
            self.cursor = order.len();
        }
        proof {
            assert(notices@ =~= n0 + record_notices(s0, order@, active as nat, got, got_frame, pos));
        }
    }
}

} // verus!

verus! {

/// One event as the order matcher sees it.
#[derive(Debug, Clone, Copy, PartialEq, Eq)]
pub enum Observed {
    /// A start marker for frame `idx`.
    Start { idx: i32 },
    /// Any other record of the cycle, with its own frame index.
    Record { got: Expected, frame: i32 },
}

pub open spec fn step(s: OrderState, order: Seq<Expected>, active: nat, e: Observed) -> OrderState {
    match e {
        Observed::Start { idx } => next_after_start(s, order, idx),
        Observed::Record { got, frame } => next_after_record(s, order, active, got),
    }
}

pub open spec fn step_notices(s: OrderState, order: Seq<Expected>, active: nat, e: Observed) -> Seq<
    Notice,
> {
    match e {
        Observed::Start { idx } => start_notices(s, order, idx, 0),
        Observed::Record { got, frame } => record_notices(s, order, active, got, frame, 0),
    }
}

/// The state after the matcher follows the events `evs` from `s`.
pub open spec fn run(s: OrderState, order: Seq<Expected>, active: nat, evs: Seq<Observed>) -> OrderState
    decreases evs.len(),
{
    if evs.len() == 0 {
        s
    } else {
        run(step(s, order, active, evs[0]), order, active, evs.drop_first())
    }
}

/// What the matcher reports while it follows the events `evs` from `s`.
pub open spec fn run_notices(
    s: OrderState,
    order: Seq<Expected>,
    active: nat,
    evs: Seq<Observed>,
) -> Seq<Notice>
    decreases evs.len(),
{
    if evs.len() == 0 {
        Seq::empty()
    } else {
        step_notices(s, order, active, evs[0]) + run_notices(
            step(s, order, active, evs[0]),
            order,
            active,
            evs.drop_first(),
        )
    }
}

/// Following two runs of events one after the other is following their concatenation.
pub proof fn lemma_run_append(
    s: OrderState,
    order: Seq<Expected>,
    active: nat,
    a: Seq<Observed>,
    b: Seq<Observed>,
)
    ensures
        run(s, order, active, a + b) == run(run(s, order, active, a), order, active, b),
        run_notices(s, order, active, a + b) == run_notices(s, order, active, a) + run_notices(
            run(s, order, active, a),
            order,
            active,
            b,
        ),
    decreases a.len(),
{
    if a.len() == 0 {
        assert(a + b =~= b);
        assert(Seq::<Notice>::empty() + run_notices(s, order, active, b) =~= run_notices(
            s,
            order,
            active,
            b,
        ));
    } else {
        let s1 = step(s, order, active, a[0]);
        lemma_run_append(s1, order, active, a.drop_first(), b);
        assert((a + b).drop_first() =~= a.drop_first() + b);
        assert((a + b)[0] == a[0]);
        assert(run_notices(s, order, active, a + b) =~= step_notices(s, order, active, a[0]) + (
        run_notices(s1, order, active, a.drop_first()) + run_notices(
            run(s1, order, active, a.drop_first()),
            order,
            active,
            b,
        )));
    }
}

} // verus!
