//! Value types shared by the record decoders.
use vstd::prelude::*;

verus! {

/// A pair of single-precision values (a position, a velocity, stick
/// coordinates), each held as its IEEE-754 bit pattern.
#[derive(Debug, Clone, Copy, PartialEq, Eq, Default)]
pub struct Vec2 {
    pub x: u32,
    pub y: u32,
}

/// An action-state code, with whether the state table resolves it.
#[derive(Debug, Clone, Copy, PartialEq, Eq)]
pub enum State {
    Known(u16),
    Unknown(u16),
}

impl Default for State {
    fn default() -> (r: Self)
        ensures
            r == State::Unknown(0xFFFF),
    {
        State::Unknown(0xFFFF)
    }
}

/// A finding on one decoded record; all but `CompanionMismatch` are warnings.
#[derive(Debug, Clone, Copy, PartialEq, Eq)]
pub enum Issue {
    /// The action state resolves for no character of the record.
    UnknownState { state: u16 },
    /// A companion pre-record from a player whose character has no companion
    /// unit: the roster and the data disagree (error).
    CompanionMismatch { character: u8 },
    /// A post-record flagged as the companion's for another character.
    CompanionFlag { character: u8 },
    Orientation { bits: u32 },
    Joystick { stick: Vec2 },
    CStick { stick: Vec2 },
    EngineTrigger { bits: u32 },
    EngineButtons { buttons: u32 },
    ControllerL { bits: u32 },
    ControllerR { bits: u32 },
    Percent { bits: u32 },
    ShieldHealth { bits: u32 },
    UnknownAttack { attack: u8 },
    FlagBits { flags: u64 },
    LCancel { value: u8 },
    Hurtbox { value: u8 },
    UnknownItem { item: u16 },
    PlayerType { slot: u8, code: u8 },
    TeamShade { slot: u8, code: u8 },
    TeamId { slot: u8, code: u8 },
    ControllerFix { slot: u8, code: u8 },
    UnknownStage { stage: u16 },
}

impl Issue {
    pub open spec fn spec_is_error(self) -> bool {
        self is CompanionMismatch
    }

    /// True for findings that are errors rather than warnings.
    pub fn is_error(&self) -> (r: bool)
        ensures
            r == self.spec_is_error(),
    {
        match self {
            Issue::CompanionMismatch { .. } => true,
            _ => false,
        }
    }
}

/// `i` alone where `c` holds, else nothing.
pub open spec fn issue_if(c: bool, i: Issue) -> Seq<Issue> {
    if c {
        seq![i]
    } else {
        Seq::empty()
    }
}

pub fn push_issue_if(out: &mut Vec<Issue>, c: bool, i: Issue)
    ensures
        final(out)@ == old(out)@ + issue_if(c, i),
{
    if c {
        out.push(i);
    }
    proof {
        assert(final(out)@ =~= old(out)@ + issue_if(c, i));
    }
}

} // verus!
