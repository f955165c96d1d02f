//! Roster slots and their kinds.
use vstd::prelude::*;

use crate::game_start::UCFToggles;
use crate::utils::Tournament;

verus! {

/// Character-select id of the Ice Climbers, the one character with a companion unit.
pub const ICE_CLIMBERS: u8 = 14;

/// Character-select id of Zelda, whose alternate form is Sheik.
pub const ZELDA: u8 = 18;

/// Character-select id of Sheik.
pub const SHEIK: u8 = 19;

#[derive(Debug, Clone, Copy, PartialEq, Eq, Default)]
pub enum PlayerType {
    Human,
    CPU,
    Demo,
    #[default]
    Empty,
}

#[derive(Debug, Clone, Copy, PartialEq, Eq, Default)]
pub enum TeamShade {
    #[default]
    Normal,
    Light,
    Dark,
}

#[derive(Debug, Clone, Copy, PartialEq, Eq, Default)]
pub enum TeamID {
    #[default]
    Red,
    Blue,
    Green,
}

pub open spec fn spec_player_type(code: u8) -> Option<PlayerType> {
    if code == 0 {
        Some(PlayerType::Human)
    } else if code == 1 {
        Some(PlayerType::CPU)
    } else if code == 2 {
        Some(PlayerType::Demo)
    } else if code == 3 {
        Some(PlayerType::Empty)
    } else {
        None
    }
}

pub open spec fn spec_team_shade(code: u8) -> Option<TeamShade> {
    if code == 0 {
        Some(TeamShade::Normal)
    } else if code == 1 {
        Some(TeamShade::Light)
    } else if code == 2 {
        Some(TeamShade::Dark)
    } else {
        None
    }
}

pub open spec fn spec_team_id(code: u8) -> Option<TeamID> {
    if code == 0 {
        Some(TeamID::Red)
    } else if code == 1 {
        Some(TeamID::Blue)
    } else if code == 2 {
        Some(TeamID::Green)
    } else {
        None
    }
}

impl PlayerType {
    pub fn from_code(code: u8) -> (r: Option<PlayerType>)
        ensures
            r == spec_player_type(code),
    {
        if code == 0 {
            Some(PlayerType::Human)
        } else if code == 1 {
            Some(PlayerType::CPU)
        } else if code == 2 {
            Some(PlayerType::Demo)
        } else if code == 3 {
            Some(PlayerType::Empty)
        } else {
            None
        }
    }

    /// True for the kinds of participant that play: human and CPU.
    pub open spec fn spec_plays(self) -> bool {
        self == PlayerType::Human || self == PlayerType::CPU
    }

    pub fn plays(&self) -> (r: bool)
        ensures
            r == self.spec_plays(),
    {
        match self {
            PlayerType::Human => true,
            PlayerType::CPU => true,
            _ => false,
        }
    }
}

impl TeamShade {
    pub fn from_code(code: u8) -> (r: Option<TeamShade>)
        ensures
            r == spec_team_shade(code),
    {
        if code == 0 {
            Some(TeamShade::Normal)
        } else if code == 1 {
            Some(TeamShade::Light)
        } else if code == 2 {
            Some(TeamShade::Dark)
        } else {
            None
        }
    }
}

impl TeamID {
    pub fn from_code(code: u8) -> (r: Option<TeamID>)
        ensures
            r == spec_team_id(code),
    {
        if code == 0 {
            Some(TeamID::Red)
        } else if code == 1 {
            Some(TeamID::Blue)
        } else if code == 2 {
            Some(TeamID::Green)
        } else {
            None
        }
    }
}

/// One of the four roster slots of a match.
///
/// `character` is the character-select id; the three ratios are the raw
/// IEEE-754 single-precision bit patterns of the values in the file.
#[derive(Debug, Clone, PartialEq, Default)]
pub struct Player {
    pub port: u8,
    pub player_type: PlayerType,
    pub character: u8,
    pub starting_stocks: u8,
    pub costume: u8,
    pub team_shade: TeamShade,
    pub handicap: u8,
    pub team_id: TeamID,
    pub bitfield: u8,
    pub cpu_level: u8,
    pub damage_start: u16,
    pub damage_spawn: u16,
    pub offense_ratio: u32,
    pub defense_ratio: u32,
    pub model_scale: u32,
    pub ucf: Option<UCFToggles>,
    pub connect_code: Option<String>,
    pub display_name: Option<String>,
}

/// True for the character-select ids of the characters that tournaments
/// never allow: Master Hand, the two wireframes and Giga Bowser.
pub open spec fn is_boss_character(c: u8) -> bool {
    26 <= c <= 29
}

impl Player {
    /// A slot that plays in the match contributes frame records.
    pub open spec fn spec_active(&self) -> bool {
        self.player_type.spec_plays()
    }
}

impl Tournament for Player {
    open spec fn spec_is_legal(&self) -> bool {
        self.player_type == PlayerType::Empty || (self.player_type == PlayerType::Human
            && !is_boss_character(self.character) && self.starting_stocks == 4 && self.handicap
            == 0 && self.bitfield < 2 && self.damage_spawn == 0 && self.damage_start == 0)
    }

    fn is_legal(&self) -> (r: bool) {
        match self.player_type {
            PlayerType::Empty => true,
            PlayerType::Human => {
                !(26 <= self.character && self.character <= 29) && self.starting_stocks == 4
                    && self.handicap == 0 && self.bitfield < 2 && self.damage_spawn == 0
                    && self.damage_start == 0
            },
            _ => false,
        }
    }
}

} // verus!
