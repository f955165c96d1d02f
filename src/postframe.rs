//! The per-player record written after a frame's physics step.
use vstd::prelude::*;

use crate::float_bits::{
    in_zero_sixty, in_zero_thousand, is_unit_sign, unit_sign, zero_sixty, zero_thousand,
};
use crate::frame::same_prefix;
use crate::lookup::{attack_known, resolve_attack, resolve_state_internal, state_known_internal};
use crate::reader::{
    get_i32, get_u16, get_u32, get_u8, get_vec2, i32_at, u16_at, u32_at, u8_at, vec2_at,
};
use crate::types::{issue_if, push_issue_if, Issue, Vec2};
use crate::utils::{ParseError, Version};

verus! {

/// In-game id of Nana, the companion unit.
pub const NANA_INTERNAL: u8 = 11;

/// A player's state after the frame's physics step. Single-precision values
/// are held as their IEEE-754 bit patterns; `character` is the in-game id.
#[derive(Debug, Default, Clone, PartialEq)]
pub struct PostFrame {
    pub frame_index: i32,
    pub port: u8,
    pub nana: bool,
    pub character: u8,
    pub action_state: u16,
    pub position: Vec2,
    pub orientation: u32,
    pub percent: u32,
    pub shield_health: u32,
    pub last_attack_landed: u8,
    pub combo_count: u8,
    pub last_hit_by: u8,
    pub stocks: u8,
    /// Added v0.2.0.
    pub state_frame: Option<u32>,
    /// Added v2.0.0, with the five fields after it.
    pub flags: Option<u64>,
    pub misc_as: Option<u32>,
    pub is_grounded: Option<bool>,
    pub last_ground_id: Option<u16>,
    pub jumps_remaining: Option<u8>,
    pub l_cancel: Option<u8>,
    /// Added v3.1.0.
    pub hurtbox_state: Option<u8>,
    /// Added v3.5.0, with the two velocities after it.
    pub air_velocity: Option<Vec2>,
    pub knockback: Option<Vec2>,
    /// Its vertical part is the air velocity's.
    pub ground_velocity: Option<Vec2>,
    /// Added v3.8.0.
    pub hitlag_remaining: Option<u32>,
    /// Added v3.11.0.
    pub animation_index: Option<u32>,
    /// Added v3.16.0, with the field after it.
    pub instance_hit_by: Option<u16>,
    pub instance_id: Option<u16>,
}

/// The 40-bit state-flag field at `i`, its five bytes lowest first.
pub open spec fn flags_at(s: Seq<u8>, i: int) -> u64 {
    (s[i] as u64) | ((s[i + 1] as u64) << 8u64) | ((s[i + 2] as u64) << 16u64) | ((s[i + 3] as u64)
        << 24u64) | ((s[i + 4] as u64) << 32u64)
}

fn get_flags(b: &[u8], i: usize) -> (r: u64)
    requires
        i + 5 <= b@.len(),
        i <= 1000,
    ensures
        r == flags_at(b@, i as int),
{
    (b[i] as u64) | ((b[i + 1] as u64) << 8u64) | ((b[i + 2] as u64) << 16u64) | ((b[i + 3] as u64)
        << 24u64) | ((b[i + 4] as u64) << 32u64)
}

/// Bytes that a post-record takes under version `v`.
pub open spec fn post_frame_size(v: Version) -> int {
    if v.spec_at_least(3, 16, 0) {
        84
    } else if v.spec_at_least(3, 11, 0) {
        80
    } else if v.spec_at_least(3, 8, 0) {
        76
    } else if v.spec_at_least(3, 5, 0) {
        72
    } else if v.spec_at_least(3, 1, 0) {
        52
    } else if v.spec_at_least(2, 0, 0) {
        51
    } else if v.spec_at_least(0, 2, 0) {
        37
    } else {
        33
    }
}

pub open spec fn gated<T>(on: bool, t: T) -> Option<T> {
    if on {
        Some(t)
    } else {
        None
    }
}

/// The post-record that the bytes `s` hold under version `v`.
pub open spec fn spec_post_frame(s: Seq<u8>, v: Version) -> PostFrame {
    let v2 = v.spec_at_least(2, 0, 0);
    let v35 = v.spec_at_least(3, 5, 0);
    let v316 = v.spec_at_least(3, 16, 0);
    PostFrame {
        frame_index: i32_at(s, 0),
        port: u8_at(s, 4),
        nana: u8_at(s, 5) != 0,
        character: u8_at(s, 6),
        action_state: u16_at(s, 7),
        position: vec2_at(s, 9),
        orientation: u32_at(s, 17),
        percent: u32_at(s, 21),
        shield_health: u32_at(s, 25),
        last_attack_landed: u8_at(s, 29),
        combo_count: u8_at(s, 30),
        last_hit_by: u8_at(s, 31),
        stocks: u8_at(s, 32),
        state_frame: gated(v.spec_at_least(0, 2, 0), u32_at(s, 33)),
        flags: gated(v2, flags_at(s, 37)),
        misc_as: gated(v2, u32_at(s, 42)),
        is_grounded: gated(v2, u8_at(s, 46) == 0),
        last_ground_id: gated(v2, u16_at(s, 47)),
        jumps_remaining: gated(v2, u8_at(s, 49)),
        l_cancel: gated(v2, u8_at(s, 50)),
        hurtbox_state: gated(v.spec_at_least(3, 1, 0), u8_at(s, 51)),
        air_velocity: gated(v35, vec2_at(s, 52)),
        knockback: gated(v35, vec2_at(s, 60)),
        ground_velocity: gated(v35, Vec2 { x: u32_at(s, 68), y: u32_at(s, 56) }),
        hitlag_remaining: gated(v.spec_at_least(3, 8, 0), u32_at(s, 72)),
        animation_index: gated(v.spec_at_least(3, 11, 0), u32_at(s, 76)),
        instance_hit_by: gated(v316, u16_at(s, 80)),
        instance_id: gated(v316, u16_at(s, 82)),
    }
}

/// The warnings that a post-record raises, in this order.
pub open spec fn post_frame_issues(f: PostFrame) -> Seq<Issue> {
    Seq::empty() + issue_if(
        f.nana && f.character != NANA_INTERNAL,
        Issue::CompanionFlag { character: f.character },
    ) + issue_if(
        !state_known_internal(f.action_state, f.character),
        Issue::UnknownState { state: f.action_state },
    ) + issue_if(!is_unit_sign(f.orientation), Issue::Orientation { bits: f.orientation })
        + issue_if(!in_zero_thousand(f.percent), Issue::Percent { bits: f.percent }) + issue_if(
        !in_zero_sixty(f.shield_health),
        Issue::ShieldHealth { bits: f.shield_health },
    ) + issue_if(
        !attack_known(f.last_attack_landed),
        Issue::UnknownAttack { attack: f.last_attack_landed },
    ) + issue_if(
        f.flags is Some && f.flags->Some_0 >> 40u64 != 0,
        Issue::FlagBits { flags: f.flags->Some_0 },
    ) + issue_if(
        f.l_cancel is Some && f.l_cancel->Some_0 > 2,
        Issue::LCancel { value: f.l_cancel->Some_0 },
    ) + issue_if(
        f.hurtbox_state is Some && f.hurtbox_state->Some_0 > 2,
        Issue::Hurtbox { value: f.hurtbox_state->Some_0 },
    )
}

impl PostFrame {
    /// Decodes a post-record from its payload.
    pub fn new(stream: &[u8], version: Version) -> (r: Result<PostFrame, ParseError>)
        ensures
            r is Ok <==> stream@.len() >= post_frame_size(version),
            r is Ok ==> r->Ok_0 == spec_post_frame(stream@, version),
            r is Err ==> r->Err_0 == ParseError::UnexpectedEnd,
    {
        let s = stream;
        let len = s.len();
        if len < 33 {
            return Err(ParseError::UnexpectedEnd);
        }
        let v02 = version.at_least(0, 2, 0);
        let v2 = version.at_least(2, 0, 0);
        let v31 = version.at_least(3, 1, 0);
        let v35 = version.at_least(3, 5, 0);
        let v38 = version.at_least(3, 8, 0);
        let v311 = version.at_least(3, 11, 0);
        let v316 = version.at_least(3, 16, 0);
        if (v02 && len < 37) || (v2 && len < 51) || (v31 && len < 52) || (v35 && len < 72) || (v38
            && len < 76) || (v311 && len < 80) || (v316 && len < 84) {
            return Err(ParseError::UnexpectedEnd);
        }
        let air_velocity = if v35 {
            Some(get_vec2(s, 52))
        } else {
            None
        };
        let knockback = if v35 {
            Some(get_vec2(s, 60))
        } else {
            None
        };
        let ground_velocity = if v35 {
            Some(Vec2 { x: get_u32(s, 68), y: get_u32(s, 56) })
        } else {
            None
        };
        Ok(
            PostFrame {
                frame_index: get_i32(s, 0),
                port: get_u8(s, 4),
                nana: get_u8(s, 5) != 0,
                character: get_u8(s, 6),
                action_state: get_u16(s, 7),
                position: get_vec2(s, 9),
                orientation: get_u32(s, 17),
                percent: get_u32(s, 21),
                shield_health: get_u32(s, 25),
                last_attack_landed: get_u8(s, 29),
                combo_count: get_u8(s, 30),
                last_hit_by: get_u8(s, 31),
                stocks: get_u8(s, 32),
                state_frame: if v02 {
                    Some(get_u32(s, 33))
                } else {
                    None
                },
                flags: if v2 {
                    Some(get_flags(s, 37))
                } else {
                    None
                },
                misc_as: if v2 {
                    Some(get_u32(s, 42))
                } else {
                    None
                },
                is_grounded: if v2 {
                    Some(get_u8(s, 46) == 0)
                } else {
                    None
                },
                last_ground_id: if v2 {
                    Some(get_u16(s, 47))
                } else {
                    None
                },
                jumps_remaining: if v2 {
                    Some(get_u8(s, 49))
                } else {
                    None
                },
                l_cancel: if v2 {
                    Some(get_u8(s, 50))
                } else {
                    None
                },
                hurtbox_state: if v31 {
                    Some(get_u8(s, 51))
                } else {
                    None
                },
                air_velocity,
                knockback,
                ground_velocity,
                hitlag_remaining: if v38 {
                    Some(get_u32(s, 72))
                } else {
                    None
                },
                animation_index: if v311 {
                    Some(get_u32(s, 76))
                } else {
                    None
                },
                instance_hit_by: if v316 {
                    Some(get_u16(s, 80))
                } else {
                    None
                },
                instance_id: if v316 {
                    Some(get_u16(s, 82))
                } else {
                    None
                },
            },
        )
    }

    /// The warnings on this record's values.
    pub fn validate(&self) -> (r: Vec<Issue>)
        ensures
            r@ == post_frame_issues(*self),
    {
        let mut out: Vec<Issue> = Vec::new();
        push_issue_if(
            &mut out,
            self.nana && self.character != NANA_INTERNAL,
            Issue::CompanionFlag { character: self.character },
        );
        push_issue_if(
            &mut out,
            !resolve_state_internal(self.action_state, self.character),
            Issue::UnknownState { state: self.action_state },
        );
        push_issue_if(&mut out, !unit_sign(self.orientation), Issue::Orientation { bits: self.orientation });
        push_issue_if(&mut out, !zero_thousand(self.percent), Issue::Percent { bits: self.percent });
        push_issue_if(
            &mut out,
            !zero_sixty(self.shield_health),
            Issue::ShieldHealth { bits: self.shield_health },
        );
        push_issue_if(
            &mut out,
            !resolve_attack(self.last_attack_landed),
            Issue::UnknownAttack { attack: self.last_attack_landed },
        );
        let (has_flags, flags) = match self.flags {
            Some(f) => (true, f),
            None => (false, 0),
        };
        push_issue_if(&mut out, has_flags && flags >> 40u64 != 0, Issue::FlagBits { flags });
        let (has_l, l) = match self.l_cancel {
            Some(x) => (true, x),
            None => (false, 0),
        };
        push_issue_if(&mut out, has_l && l > 2, Issue::LCancel { value: l });
        let (has_h, h) = match self.hurtbox_state {
            Some(x) => (true, x),
            None => (false, 0),
        };
        push_issue_if(&mut out, has_h && h > 2, Issue::Hurtbox { value: h });
        out
    }
}

/// A post-record is read from exactly the bytes that its version implies:
/// payloads that agree on those bytes decode alike, whatever follows; and
/// each gated field is present only where every earlier one is.
pub proof fn lemma_post_frame_layout(a: Seq<u8>, b: Seq<u8>, v: Version)
    requires
        same_prefix(a, b, post_frame_size(v)),
    ensures
        spec_post_frame(a, v) == spec_post_frame(b, v),
        ({
            let r = spec_post_frame(a, v);
            &&& r.instance_id is Some ==> r.animation_index is Some
            &&& r.animation_index is Some ==> r.hitlag_remaining is Some
            &&& r.hitlag_remaining is Some ==> r.ground_velocity is Some
            &&& r.air_velocity is Some ==> r.hurtbox_state is Some
            &&& r.hurtbox_state is Some ==> r.l_cancel is Some
            &&& r.flags is Some ==> r.state_frame is Some
        }),
{
    assert(forall|i: int| 0 <= i < 33 ==> a[i] == b[i]);
}

} // verus!
