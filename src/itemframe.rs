//! The per-frame record of an item or projectile.
use vstd::prelude::*;

use crate::frame::same_prefix;
use crate::lookup::{item_known, resolve_item};
use crate::postframe::gated;
use crate::reader::{
    get_i32, get_i8, get_u16, get_u32, get_u8, get_vec2, i32_at, u16_at, u32_at, u8_at, vec2_at,
};
use crate::types::{issue_if, Issue, Vec2};
use crate::utils::{ParseError, Version};

verus! {

/// The state of one item or projectile in a frame. Single-precision values
/// are held as their IEEE-754 bit patterns.
#[derive(Debug, Default, Clone, PartialEq)]
pub struct ItemFrame {
    pub frame_index: i32,
    /// The id of the item's type.
    pub item_id: u16,
    pub state: u8,
    pub orientation: u32,
    pub velocity: Vec2,
    pub position: Vec2,
    pub damage_taken: u16,
    pub expiration_timer: u32,
    /// A unique id given to each spawned item.
    pub spawn_id: u32,
    /// Added v3.2.0, with the three fields after it.
    pub missile_type: Option<u8>,
    pub turnip_type: Option<u8>,
    pub launched: Option<bool>,
    pub charge_power: Option<u8>,
    /// Added v3.6.0.
    pub owner: Option<i8>,
    /// Added v3.16.0.
    pub instance_id: Option<u16>,
}

/// Bytes that an item record takes under version `v`.
pub open spec fn item_frame_size(v: Version) -> int {
    if v.spec_at_least(3, 16, 0) {
        44
    } else if v.spec_at_least(3, 6, 0) {
        42
    } else if v.spec_at_least(3, 2, 0) {
        41
    } else {
        37
    }
}

/// The item record that the bytes `s` hold under version `v`.
pub open spec fn spec_item_frame(s: Seq<u8>, v: Version) -> ItemFrame {
    let v32 = v.spec_at_least(3, 2, 0);
    ItemFrame {
        frame_index: i32_at(s, 0),
        item_id: u16_at(s, 4),
        state: u8_at(s, 6),
        orientation: u32_at(s, 7),
        velocity: vec2_at(s, 11),
        position: vec2_at(s, 19),
        damage_taken: u16_at(s, 27),
        expiration_timer: u32_at(s, 29),
        spawn_id: u32_at(s, 33),
        missile_type: gated(v32, u8_at(s, 37)),
        turnip_type: gated(v32, u8_at(s, 38)),
        launched: gated(v32, u8_at(s, 39) != 0),
        charge_power: gated(v32, u8_at(s, 40)),
        owner: gated(v.spec_at_least(3, 6, 0), u8_at(s, 41) as i8),
        instance_id: gated(v.spec_at_least(3, 16, 0), u16_at(s, 42)),
    }
}

/// The warnings that an item record raises.
pub open spec fn item_frame_issues(f: ItemFrame) -> Seq<Issue> {
    issue_if(!item_known(f.item_id), Issue::UnknownItem { item: f.item_id })
}

impl ItemFrame {
    /// Decodes an item record from its payload.
    pub fn new(stream: &[u8], version: Version) -> (r: Result<ItemFrame, ParseError>)
        ensures
            r is Ok <==> stream@.len() >= item_frame_size(version),
            r is Ok ==> r->Ok_0 == spec_item_frame(stream@, version),
            r is Err ==> r->Err_0 == ParseError::UnexpectedEnd,
    {
        let s = stream;
        let len = s.len();
        let v32 = version.at_least(3, 2, 0);
        let v36 = version.at_least(3, 6, 0);
        let v316 = version.at_least(3, 16, 0);
        if len < 37 || (v32 && len < 41) || (v36 && len < 42) || (v316 && len < 44) {
            return Err(ParseError::UnexpectedEnd);
        }
        Ok(
            ItemFrame {
                frame_index: get_i32(s, 0),
                item_id: get_u16(s, 4),
                state: get_u8(s, 6),
                orientation: get_u32(s, 7),
                velocity: get_vec2(s, 11),
                position: get_vec2(s, 19),
                damage_taken: get_u16(s, 27),
                expiration_timer: get_u32(s, 29),
                spawn_id: get_u32(s, 33),
                missile_type: if v32 {
                    Some(get_u8(s, 37))
                } else {
                    None
                },
                turnip_type: if v32 {
                    Some(get_u8(s, 38))
                } else {
                    None
                },
                launched: if v32 {
                    Some(get_u8(s, 39) != 0)
                } else {
                    None
                },
                charge_power: if v32 {
                    Some(get_u8(s, 40))
                } else {
                    None
                },
                owner: if v36 {
                    Some(get_i8(s, 41))
                } else {
                    None
                },
                instance_id: if v316 {
                    Some(get_u16(s, 42))
                } else {
                    None
                },
            },
        )
    }

    /// The warnings on this record's values: an item id that no item has.
    pub fn validate(&self) -> (r: Vec<Issue>)
        ensures
            r@ == item_frame_issues(*self),
    {
        let mut out: Vec<Issue> = Vec::new();
        if !resolve_item(self.item_id) {
            out.push(Issue::UnknownItem { item: self.item_id });
        }
        proof {
            assert(out@ =~= item_frame_issues(*self));
        }
        out
    }
}

/// An item record is read from exactly the bytes that its version implies:
/// payloads that agree on those bytes decode alike, whatever follows; and
/// each gated field is present only where every earlier one is.
pub proof fn lemma_item_frame_layout(a: Seq<u8>, b: Seq<u8>, v: Version)
    requires
        same_prefix(a, b, item_frame_size(v)),
    ensures
        spec_item_frame(a, v) == spec_item_frame(b, v),
        ({
            let r = spec_item_frame(a, v);
            &&& r.instance_id is Some ==> r.owner is Some
            &&& r.owner is Some ==> r.charge_power is Some
        }),
{
    assert(forall|i: int| 0 <= i < 37 ==> a[i] == b[i]);
}

} // verus!
