//! The per-player record written before a frame's physics step.
use vstd::prelude::*;

use crate::float_bits::{
    in_minus_one_one, in_zero_one, in_zero_thousand, is_unit_sign, minus_one_one, unit_sign,
    zero_one, zero_thousand,
};
use crate::frame::same_prefix;
use crate::lookup::{resolve_state_css, state_known_css};
use crate::player::{Player, ICE_CLIMBERS, SHEIK, ZELDA};
use crate::reader::{
    get_i32, get_i8, get_u16, get_u32, get_u8, get_vec2, i32_at, u16_at, u32_at, u8_at, vec2_at,
};
use crate::types::{issue_if, push_issue_if, Issue, State, Vec2};
use crate::utils::{ParseError, Version};

verus! {

/// Character id used for a port that the roster does not hold.
pub const NO_CHARACTER: u8 = 0xFF;

/// Engine-button bits that no input sets.
pub const UNUSED_BUTTON_BITS: u32 = 0x7F00_E080;

/// A player's state before the frame's physics step. Single-precision values
/// are held as their IEEE-754 bit patterns.
#[derive(Debug, Default, Clone, PartialEq)]
pub struct PreFrame {
    pub frame_index: i32,
    pub port: u8,
    pub nana: bool,
    pub random_seed: u32,
    pub action_state: State,
    pub position: Vec2,
    pub orientation: u32,
    pub joystick: Vec2,
    pub cstick: Vec2,
    pub engine_trigger: u32,
    pub engine_buttons: u32,
    pub controller_buttons: u16,
    pub controller_l: u32,
    pub controller_r: u32,
    /// Added v1.2.0.
    pub raw_stick_x: Option<i8>,
    /// Added v1.4.0.
    pub percent: Option<u32>,
    /// Added v3.15.0.
    pub raw_stick_y: Option<i8>,
}

/// The select-screen id of the character on `port`.
pub open spec fn roster_character(players: Seq<Player>, port: u8) -> u8 {
    if (port as int) < players.len() {
        players[port as int].character
    } else {
        NO_CHARACTER
    }
}

/// The state `code` for character `c`; Zelda's states are also looked up as
/// Sheik's, her alternate form.
pub open spec fn resolved_state(code: u16, c: u8) -> State {
    if state_known_css(code, c) || (c == ZELDA && state_known_css(code, SHEIK)) {
        State::Known(code)
    } else {
        State::Unknown(code)
    }
}

/// Bytes that a pre-record takes under version `v`.
pub open spec fn pre_frame_size(v: Version) -> int {
    if v.spec_at_least(3, 15, 0) {
        64
    } else if v.spec_at_least(1, 4, 0) {
        63
    } else if v.spec_at_least(1, 2, 0) {
        59
    } else {
        58
    }
}

/// The pre-record that the bytes `s` hold under version `v`, for the roster `players`.
pub open spec fn spec_pre_frame(s: Seq<u8>, v: Version, players: Seq<Player>) -> PreFrame {
    PreFrame {
        frame_index: i32_at(s, 0),
        port: u8_at(s, 4),
        nana: u8_at(s, 5) == 1,
        random_seed: u32_at(s, 6),
        action_state: resolved_state(u16_at(s, 10), roster_character(players, u8_at(s, 4))),
        position: vec2_at(s, 12),
        orientation: u32_at(s, 20),
        joystick: vec2_at(s, 24),
        cstick: vec2_at(s, 32),
        engine_trigger: u32_at(s, 40),
        engine_buttons: u32_at(s, 44),
        controller_buttons: u16_at(s, 48),
        controller_l: u32_at(s, 50),
        controller_r: u32_at(s, 54),
        raw_stick_x: if v.spec_at_least(1, 2, 0) {
            Some(u8_at(s, 58) as i8)
        } else {
            None
        },
        percent: if v.spec_at_least(1, 4, 0) {
            Some(u32_at(s, 59))
        } else {
            None
        },
        raw_stick_y: if v.spec_at_least(3, 15, 0) {
            Some(u8_at(s, 63) as i8)
        } else {
            None
        },
    }
}

/// The warnings that a pre-record raises, in this order.
pub open spec fn pre_frame_issues(f: PreFrame) -> Seq<Issue> {
    Seq::empty() + issue_if(f.action_state is Unknown, Issue::UnknownState { state: f.action_state->Unknown_0 })
        + issue_if(!is_unit_sign(f.orientation), Issue::Orientation { bits: f.orientation })
        + issue_if(
        !in_minus_one_one(f.joystick.x) || !in_minus_one_one(f.joystick.y),
        Issue::Joystick { stick: f.joystick },
    ) + issue_if(
        !in_minus_one_one(f.cstick.x) || !in_minus_one_one(f.cstick.y),
        Issue::CStick { stick: f.cstick },
    ) + issue_if(!in_zero_one(f.engine_trigger), Issue::EngineTrigger { bits: f.engine_trigger })
        + issue_if(
        f.engine_buttons & UNUSED_BUTTON_BITS != 0,
        Issue::EngineButtons { buttons: f.engine_buttons },
    ) + issue_if(!in_zero_one(f.controller_l), Issue::ControllerL { bits: f.controller_l })
        + issue_if(!in_zero_one(f.controller_r), Issue::ControllerR { bits: f.controller_r })
        + issue_if(
        f.percent is Some && !in_zero_thousand(f.percent->Some_0),
        Issue::Percent { bits: f.percent->Some_0 },
    )
}

pub fn character_on(players: &Vec<Player>, port: u8) -> (r: u8)
    ensures
        r == roster_character(players@, port),
{
    if (port as usize) < players.len() {
        players[port as usize].character
    } else {
        NO_CHARACTER
    }
}

impl PreFrame {
    /// Decodes a pre-record from its payload; the action state is looked up
    /// for the character that the roster holds on the record's port.
    pub fn new(stream: &[u8], version: Version, players: &Vec<Player>) -> (r: Result<PreFrame, ParseError>)
        ensures
            r is Ok <==> stream@.len() >= pre_frame_size(version),
            r is Ok ==> r->Ok_0 == spec_pre_frame(stream@, version, players@),
            r is Err ==> r->Err_0 == ParseError::UnexpectedEnd,
    {
        let s = stream;
        if s.len() < 58 {
            return Err(ParseError::UnexpectedEnd);
        }
        let raw_stick_x = if version.at_least(1, 2, 0) {
            if s.len() < 59 {
                return Err(ParseError::UnexpectedEnd);
            }
            Some(get_i8(s, 58))
        } else {
            None
        };
        let percent = if version.at_least(1, 4, 0) {
            if s.len() < 63 {
                return Err(ParseError::UnexpectedEnd);
            }
            Some(get_u32(s, 59))
        } else {
            None
        };
        let raw_stick_y = if version.at_least(3, 15, 0) {
            if s.len() < 64 {
                return Err(ParseError::UnexpectedEnd);
            }
            Some(get_i8(s, 63))
        } else {
            None
        };
        let port = get_u8(s, 4);
        let character = character_on(players, port);
        let code = get_u16(s, 10);
        let action_state = if resolve_state_css(code, character) || (character == ZELDA
            && resolve_state_css(code, SHEIK)) {
            State::Known(code)
        } else {
            State::Unknown(code)
        };
        Ok(
            PreFrame {
                frame_index: get_i32(s, 0),
                port,
                nana: get_u8(s, 5) == 1,
                random_seed: get_u32(s, 6),
                action_state,
                position: get_vec2(s, 12),
                orientation: get_u32(s, 20),
                joystick: get_vec2(s, 24),
                cstick: get_vec2(s, 32),
                engine_trigger: get_u32(s, 40),
                engine_buttons: get_u32(s, 44),
                controller_buttons: get_u16(s, 48),
                controller_l: get_u32(s, 50),
                controller_r: get_u32(s, 54),
                raw_stick_x,
                percent,
                raw_stick_y,
            },
        )
    }

    /// The warnings on this record's values.
    pub fn validate(&self) -> (r: Vec<Issue>)
        ensures
            r@ == pre_frame_issues(*self),
    {
        let mut out: Vec<Issue> = Vec::new();
        let unknown = match self.action_state {
            State::Unknown(_) => true,
            State::Known(_) => false,
        };
        let state = match self.action_state {
            State::Unknown(x) => x,
            State::Known(x) => x,
        };
        push_issue_if(&mut out, unknown, Issue::UnknownState { state });
        push_issue_if(&mut out, !unit_sign(self.orientation), Issue::Orientation { bits: self.orientation });
        push_issue_if(
            &mut out,
            !minus_one_one(self.joystick.x) || !minus_one_one(self.joystick.y),
            Issue::Joystick { stick: self.joystick },
        );
        push_issue_if(
            &mut out,
            !minus_one_one(self.cstick.x) || !minus_one_one(self.cstick.y),
            Issue::CStick { stick: self.cstick },
        );
        push_issue_if(
            &mut out,
            !zero_one(self.engine_trigger),
            Issue::EngineTrigger { bits: self.engine_trigger },
        );
        push_issue_if(
            &mut out,
            self.engine_buttons & UNUSED_BUTTON_BITS != 0,
            Issue::EngineButtons { buttons: self.engine_buttons },
        );
        push_issue_if(&mut out, !zero_one(self.controller_l), Issue::ControllerL { bits: self.controller_l });
        push_issue_if(&mut out, !zero_one(self.controller_r), Issue::ControllerR { bits: self.controller_r });
        let (has_percent, percent) = match self.percent {
            Some(p) => (true, p),
            None => (false, 0),
        };
        push_issue_if(
            &mut out,
            has_percent && !zero_thousand(percent),
            Issue::Percent { bits: percent },
        );
        proof {
            assert(Seq::<Issue>::empty() =~= Seq::<Issue>::empty());
        }
        out
    }

    /// True where this is a companion record from a player whose character
    /// has no companion unit.
    pub fn companion_mismatch(&self, players: &Vec<Player>) -> (r: bool)
        ensures
            r == (self.nana && roster_character(players@, self.port) != ICE_CLIMBERS),
    {
        self.nana && character_on(players, self.port) != ICE_CLIMBERS
    }
}

/// A pre-record is read from exactly the bytes that its version implies:
/// payloads that agree on those bytes decode alike, whatever follows; and
/// each gated field is present only where every earlier one is.
pub proof fn lemma_pre_frame_layout(a: Seq<u8>, b: Seq<u8>, v: Version, players: Seq<Player>)
    requires
        same_prefix(a, b, pre_frame_size(v)),
    ensures
        spec_pre_frame(a, v, players) == spec_pre_frame(b, v, players),
        spec_pre_frame(a, v, players).raw_stick_y is Some ==> spec_pre_frame(a, v, players).percent is Some,
        spec_pre_frame(a, v, players).percent is Some ==> spec_pre_frame(a, v, players).raw_stick_x is Some,
{
    assert(forall|i: int| 0 <= i < 58 ==> a[i] == b[i]);
}

} // verus!
