//! Lookups in the game's tables of characters, action states, attacks,
//! items and stages.
use vstd::prelude::*;

use ssbm_utils::enums::character::Character;
use ssbm_utils::enums::stage::StageID;
use ssbm_utils::enums::{Attack, Item, State};

verus! {

/// The character code that the character-select id `id` names; ids past the
/// roster name the game's default, Young Link (21).
pub open spec fn css_character(id: u8) -> u8 {
    if id <= 32 {
        id
    } else {
        21
    }
}

/// Relies on `Character::try_from_css`, which maps the ids 0 to 32 each to the
/// variant whose discriminant is that id and fails on any other id, and on
/// `Character`'s default, `YoungLink` (21).
#[verifier::external_body]
pub(crate) fn character_from_css(id: u8) -> (r: u8)
    ensures
        r == css_character(id),
{
    Character::try_from_css(id).unwrap_or_default() as u8
}

/// Whether the action-state table resolves `state` for the character with
/// select-screen id `css`.
pub uninterp spec fn state_known_css(state: u16, css: u8) -> bool;

/// Whether the action-state table resolves `state` for the character with
/// in-game id `internal`.
pub uninterp spec fn state_known_internal(state: u16, internal: u8) -> bool;

/// Whether `code` is an attack id of the stale-move queue.
pub uninterp spec fn attack_known(code: u8) -> bool;

/// Whether `code` is an item id.
pub uninterp spec fn item_known(code: u16) -> bool;

/// Whether `code` is a stage id.
pub uninterp spec fn stage_known(code: u16) -> bool;

/// Relies on `State::from_state_and_char`, with the character taken from its
/// select-screen id by `Character::try_from_css` (none where that fails):
/// states below 341 are shared by all characters and always resolve.
#[verifier::external_body]
pub(crate) fn resolve_state_css(state: u16, css: u8) -> (r: bool)
    ensures
        r == state_known_css(state, css),
        state < 341 ==> r,
{
    !matches!(State::from_state_and_char(state, Character::try_from_css(css).ok()), State::Unknown(_))
}

/// Relies on `State::from_state_and_char`, with the character taken from its
/// in-game id by `Character::try_from_internal` (none where that fails):
/// states below 341 are shared by all characters and always resolve.
#[verifier::external_body]
pub(crate) fn resolve_state_internal(state: u16, internal: u8) -> (r: bool)
    ensures
        r == state_known_internal(state, internal),
        state < 341 ==> r,
{
    !matches!(
        State::from_state_and_char(state, Character::try_from_internal(internal).ok()),
        State::Unknown(_)
    )
}

/// Relies on `Attack::from_repr`, which finds the attack with that id.
#[verifier::external_body]
pub(crate) fn resolve_attack(code: u8) -> (r: bool)
    ensures
        r == attack_known(code),
{
    Attack::from_repr(code).is_some()
}

/// Relies on `Item::from_repr`, which finds the item with that id.
#[verifier::external_body]
pub(crate) fn resolve_item(code: u16) -> (r: bool)
    ensures
        r == item_known(code),
{
    Item::from_repr(code).is_some()
}

/// Relies on `StageID::from_repr`, which finds the stage with that id.
#[verifier::external_body]
pub(crate) fn resolve_stage(code: u16) -> (r: bool)
    ensures
        r == stage_known(code),
{
    StageID::from_repr(code).is_some()
}

} // verus!
