//! Event codes and the per-frame cycle of events that a roster implies.
use vstd::prelude::*;

use crate::player::{Player, ICE_CLIMBERS};

verus! {

/// The one-byte codes that open each event of the stream.
#[derive(Debug, Clone, Copy, PartialEq, Eq, Hash, Default)]
pub enum EventType {
    EventPayloads,
    GameStart,
    PreFrame,
    PostFrame,
    GameEnd,
    FrameStart,
    Item,
    FrameEnd,
    GeckoList,
    MessageSplitter,
    #[default]
    Unknown,
}

pub open spec fn spec_event_type(code: u8) -> EventType {
    if code == 0x35 {
        EventType::EventPayloads
    } else if code == 0x36 {
        EventType::GameStart
    } else if code == 0x37 {
        EventType::PreFrame
    } else if code == 0x38 {
        EventType::PostFrame
    } else if code == 0x39 {
        EventType::GameEnd
    } else if code == 0x3A {
        EventType::FrameStart
    } else if code == 0x3B {
        EventType::Item
    } else if code == 0x3C {
        EventType::FrameEnd
    } else if code == 0x3D {
        EventType::GeckoList
    } else if code == 0x10 {
        EventType::MessageSplitter
    } else {
        EventType::Unknown
    }
}

impl EventType {
    /// The event type that a code names; codes of no known event give `Unknown`.
    pub fn from_code(code: u8) -> (r: EventType)
        ensures
            r == spec_event_type(code),
    {
        if code == 0x35 {
            EventType::EventPayloads
        } else if code == 0x36 {
            EventType::GameStart
        } else if code == 0x37 {
            EventType::PreFrame
        } else if code == 0x38 {
            EventType::PostFrame
        } else if code == 0x39 {
            EventType::GameEnd
        } else if code == 0x3A {
            EventType::FrameStart
        } else if code == 0x3B {
            EventType::Item
        } else if code == 0x3C {
            EventType::FrameEnd
        } else if code == 0x3D {
            EventType::GeckoList
        } else if code == 0x10 {
            EventType::MessageSplitter
        } else {
            EventType::Unknown
        }
    }

    pub fn same(&self, other: &EventType) -> (r: bool)
        ensures
            r == (*self == *other),
    {
        match (self, other) {
            (EventType::EventPayloads, EventType::EventPayloads) => true,
            (EventType::GameStart, EventType::GameStart) => true,
            (EventType::PreFrame, EventType::PreFrame) => true,
            (EventType::PostFrame, EventType::PostFrame) => true,
            (EventType::GameEnd, EventType::GameEnd) => true,
            (EventType::FrameStart, EventType::FrameStart) => true,
            (EventType::Item, EventType::Item) => true,
            (EventType::FrameEnd, EventType::FrameEnd) => true,
            (EventType::GeckoList, EventType::GeckoList) => true,
            (EventType::MessageSplitter, EventType::MessageSplitter) => true,
            (EventType::Unknown, EventType::Unknown) => true,
            _ => false,
        }
    }
}

/// One slot of the per-frame event cycle: the port, whether the record is
/// the companion unit's, and the kind of event.
#[derive(Debug, Clone, Copy, PartialEq, Eq)]
pub struct Expected {
    pub port: u8,
    pub nana: bool,
    pub kind: EventType,
}

impl Expected {
    pub fn same(&self, other: &Expected) -> (r: bool)
        ensures
            r == (*self == *other),
    {
        self.port == other.port && self.nana == other.nana && self.kind.same(&other.kind)
    }
}

pub open spec fn slot(port: u8, nana: bool, kind: EventType) -> Expected {
    Expected { port, nana, kind }
}

/// The slots that one roster entry contributes for the record kind `kind`.
pub open spec fn player_slots(p: Player, kind: EventType) -> Seq<Expected> {
    if p.spec_active() {
        if p.character == ICE_CLIMBERS {
            seq![slot(p.port, false, kind), slot(p.port, true, kind)]
        } else {
            seq![slot(p.port, false, kind)]
        }
    } else {
        Seq::empty()
    }
}

/// The slots that a roster contributes for `kind`, in roster order.
pub open spec fn roster_slots(ps: Seq<Player>, kind: EventType) -> Seq<Expected>
    decreases ps.len(),
{
    if ps.len() == 0 {
        Seq::empty()
    } else {
        roster_slots(ps.drop_last(), kind) + player_slots(ps.last(), kind)
    }
}

/// The full-frame cycle of a roster: start marker, pre-records, the item
/// slot, post-records, end marker.
pub open spec fn expected_order(ps: Seq<Player>) -> Seq<Expected> {
    seq![slot(0, false, EventType::FrameStart)] + roster_slots(ps, EventType::PreFrame) + seq![
        slot(0, false, EventType::Item),
    ] + roster_slots(ps, EventType::PostFrame) + seq![slot(0, false, EventType::FrameEnd)]
}

/// The number of roster entries that play.
pub open spec fn active_count(ps: Seq<Player>) -> nat
    decreases ps.len(),
{
    if ps.len() == 0 {
        0
    } else {
        active_count(ps.drop_last()) + if ps.last().spec_active() {
            1nat
        } else {
            0nat
        }
    }
}

fn push_player_slots(out: &mut Vec<Expected>, p: &Player, kind: EventType)
    ensures
        final(out)@ == old(out)@ + player_slots(*p, kind),
{
    if p.player_type.plays() {
        out.push(Expected { port: p.port, nana: false, kind });
        if p.character == ICE_CLIMBERS {
            out.push(Expected { port: p.port, nana: true, kind });
        }
    }
    proof {
        assert(final(out)@ =~= old(out)@ + player_slots(*p, kind));
    }
}

fn push_roster_slots(out: &mut Vec<Expected>, players: &Vec<Player>, kind: EventType)
    ensures
        final(out)@ == old(out)@ + roster_slots(players@, kind),
{
    let ghost start = out@;
    let mut i: usize = 0;
    while i < players.len()
        invariant
            i <= players@.len(),
            out@ == start + roster_slots(players@.subrange(0, i as int), kind),
        decreases players@.len() - i,
    {
        push_player_slots(out, &players[i], kind);
        proof {
            let next = players@.subrange(0, i + 1);
            assert(next.drop_last() =~= players@.subrange(0, i as int));
            assert(out@ =~= start + roster_slots(next, kind));
        }
        i = i + 1;
    }
    proof {
        assert(players@.subrange(0, i as int) =~= players@);
    }
}

/// Builds the cycle of events that one full frame of this roster holds.
pub fn build_expected_order(players: &Vec<Player>) -> (r: Vec<Expected>)
    ensures
        r@ == expected_order(players@),
{
    let mut out: Vec<Expected> = Vec::new();
    out.push(Expected { port: 0, nana: false, kind: EventType::FrameStart });
    push_roster_slots(&mut out, players, EventType::PreFrame);
    out.push(Expected { port: 0, nana: false, kind: EventType::Item });
    push_roster_slots(&mut out, players, EventType::PostFrame);
    out.push(Expected { port: 0, nana: false, kind: EventType::FrameEnd });
    proof {
        assert(out@ =~= expected_order(players@));
    }
    out
}

/// Counts the roster entries that play.
pub fn count_active(players: &Vec<Player>) -> (r: usize)
    ensures
        r == active_count(players@),
{
    let mut n: usize = 0;
    let mut i: usize = 0;
    while i < players.len()
        invariant
            i <= players@.len(),
            n == active_count(players@.subrange(0, i as int)),
            n <= i,
        decreases players@.len() - i,
    {
        proof {
            let next = players@.subrange(0, i + 1);
            assert(next.drop_last() =~= players@.subrange(0, i as int));
        }
        if players[i].player_type.plays() {
            n = n + 1;
        }
        i = i + 1;
    }
    proof {
        assert(players@.subrange(0, i as int) =~= players@);
    }
    n
}

} // verus!
