//! The match-start record: settings, the four roster slots, and the
//! chain of version-gated extras that follows them.
use vstd::prelude::*;

use crate::lookup::{character_from_css, css_character, resolve_stage, stage_known};
use crate::player::{
    spec_player_type, spec_team_id, spec_team_shade, Player, PlayerType, TeamID, TeamShade,
};
use crate::frame::same_prefix;
use crate::postframe::gated;
use crate::reader::{get_u16, get_u32, get_u8, u16_at, u32_at, until_zero, zero_terminated};
use crate::text::{
    ascii_hash, decode_shift_jis, decode_utf8, replace_fullwidth_hash, shift_jis_text,
    string_from_chars, utf8_text,
};
use crate::types::{issue_if, push_issue_if, Issue};
use crate::utils::{ParseError, Version};

verus! {

/// The scene that the match was started from.
#[derive(Debug, Clone, Copy, PartialEq, Eq, Default)]
pub enum Mode {
    VS,
    Online,
    #[default]
    Unknown,
}

/// Kind of online match, from the sixth character of the match id.
#[derive(Debug, Clone, Copy, PartialEq, Eq, Default)]
pub enum MatchType {
    Unranked,
    Ranked,
    Direct,
    #[default]
    Unknown,
}

/// A controller-fix setting.
#[derive(Debug, Clone, Copy, PartialEq, Eq, Default)]
pub enum ControllerFix {
    Off,
    #[default]
    UCF,
    Dween,
}

#[derive(Debug, Clone, Copy, PartialEq, Eq, Default)]
pub enum Timer {
    #[default]
    Untimed,
    CountDown,
    CountUp,
}

#[derive(Debug, Clone, Copy, PartialEq, Eq, Default)]
pub enum VsMode {
    #[default]
    Time,
    Stock,
    Coin,
    Bonus,
}

/// Controller-fix toggles of one player.
#[derive(Debug, Default, Clone, Copy, PartialEq, Eq)]
pub struct UCFToggles {
    pub dashback: ControllerFix,
    pub shield_drop: ControllerFix,
}

pub open spec fn spec_match_type(code: u8) -> MatchType {
    if code == 117 {
        MatchType::Unranked
    } else if code == 114 {
        MatchType::Ranked
    } else if code == 100 {
        MatchType::Direct
    } else {
        MatchType::Unknown
    }
}

pub open spec fn spec_controller_fix(code: u8) -> Option<ControllerFix> {
    if code == 0 {
        Some(ControllerFix::Off)
    } else if code == 1 {
        Some(ControllerFix::UCF)
    } else if code == 2 {
        Some(ControllerFix::Dween)
    } else {
        None
    }
}

impl MatchType {
    /// The match type that an ASCII code names: `u`, `r` and `d`.
    pub fn from_code(code: u8) -> (r: MatchType)
        ensures
            r == spec_match_type(code),
    {
        if code == 117 {
            MatchType::Unranked
        } else if code == 114 {
            MatchType::Ranked
        } else if code == 100 {
            MatchType::Direct
        } else {
            MatchType::Unknown
        }
    }
}

impl ControllerFix {
    pub fn from_code(code: u8) -> (r: Option<ControllerFix>)
        ensures
            r == spec_controller_fix(code),
    {
        if code == 0 {
            Some(ControllerFix::Off)
        } else if code == 1 {
            Some(ControllerFix::UCF)
        } else if code == 2 {
            Some(ControllerFix::Dween)
        } else {
            None
        }
    }
}

} // verus!

verus! {

/// The match settings and roster that open a replay. `damage_ratio` is held
/// as its IEEE-754 bit pattern and `timer` in seconds.
#[derive(Debug, Clone, PartialEq, Default)]
pub struct GameStart {
    /// Random seed at the start of the match.
    pub random_seed: u32,
    /// True if teams mode is active, whatever the number of players.
    pub teams: bool,
    /// Stage id.
    pub stage: u16,
    /// The timer setting, in seconds.
    pub timer: u32,
    /// Damage ratio of the settings menu.
    pub damage_ratio: u32,
    /// True if PAL; added v1.5.0.
    pub pal: Option<bool>,
    /// True if the stadium is frozen; added v2.0.0.
    pub frozen_stadium: Option<bool>,
    /// True if played online; added v3.7.0.
    pub netplay: Option<bool>,
    /// Match id; added v3.14.0, empty before.
    pub match_id: String,
    /// Kind of online match, from the match id; added v3.14.0.
    pub match_type: MatchType,
    /// Which game of the match this is, from 1; added v3.14.0.
    pub game_number: Option<u32>,
    /// Which tiebreak game of the match this is; added v3.14.0.
    pub tiebreak_number: Option<u32>,
}

} // verus!

verus! {

/// The version that the first three bytes of a match-start payload give.
pub open spec fn version_of(s: Seq<u8>) -> Version {
    Version { major: s[0], minor: s[1], build: s[2] }
}

/// Bytes that a match-start record takes under version `v`: each gate either
/// ends the record or adds its fields.
pub open spec fn game_start_size(v: Version) -> int {
    if v.spec_at_least(3, 14, 0) {
        760
    } else if v.spec_at_least(3, 12, 0) {
        701
    } else if v.spec_at_least(3, 11, 0) {
        700
    } else if v.spec_at_least(3, 9, 0) {
        584
    } else if v.spec_at_least(3, 7, 0) {
        420
    } else if v.spec_at_least(2, 0, 0) {
        418
    } else if v.spec_at_least(1, 5, 0) {
        417
    } else if v.spec_at_least(1, 3, 0) {
        416
    } else if v.spec_at_least(1, 0, 0) {
        352
    } else {
        320
    }
}

/// Offset of roster slot `i`'s block.
pub open spec fn slot_base(i: int) -> int {
    100 + 36 * i
}

pub open spec fn type_or_empty(code: u8) -> PlayerType {
    match spec_player_type(code) {
        Some(t) => t,
        None => PlayerType::Empty,
    }
}

pub open spec fn shade_or_normal(code: u8) -> TeamShade {
    match spec_team_shade(code) {
        Some(t) => t,
        None => TeamShade::Normal,
    }
}

pub open spec fn team_or_red(code: u8) -> TeamID {
    match spec_team_id(code) {
        Some(t) => t,
        None => TeamID::Red,
    }
}

pub open spec fn fix_or_ucf(code: u8) -> ControllerFix {
    match spec_controller_fix(code) {
        Some(t) => t,
        None => ControllerFix::UCF,
    }
}

/// The controller-fix toggles of slot `i`: the low bytes of two 32-bit words.
pub open spec fn ucf_at(s: Seq<u8>, i: int) -> UCFToggles {
    UCFToggles {
        dashback: fix_or_ucf(s[320 + 8 * i + 3]),
        shield_drop: fix_or_ucf(s[324 + 8 * i + 3]),
    }
}

/// The display name of slot `i`.
pub open spec fn display_name_at(s: Seq<u8>, i: int) -> Seq<char> {
    shift_jis_text(until_zero(s.subrange(420 + 31 * i, 451 + 31 * i)))
}

/// The connect code of slot `i`, its full-width number sign made ASCII.
pub open spec fn connect_code_at(s: Seq<u8>, i: int) -> Seq<char> {
    ascii_hash(shift_jis_text(until_zero(s.subrange(544 + 10 * i, 554 + 10 * i))))
}

/// `p` is roster slot `i` as the match-start bytes `s` give it under `v`.
pub open spec fn player_fields(p: Player, s: Seq<u8>, i: int, v: Version) -> bool {
    let b = slot_base(i);
    &&& p.port == i
    &&& p.character == css_character(s[b])
    &&& p.player_type == type_or_empty(s[b + 1])
    &&& p.starting_stocks == s[b + 2]
    &&& p.costume == s[b + 3]
    &&& p.team_shade == shade_or_normal(s[b + 4])
    &&& p.handicap == s[b + 5]
    &&& p.team_id == team_or_red(s[b + 6])
    &&& p.bitfield == s[b + 7]
    &&& p.cpu_level == s[b + 8]
    &&& p.damage_start == u16_at(s, b + 9)
    &&& p.damage_spawn == u16_at(s, b + 11)
    &&& p.offense_ratio == u32_at(s, b + 13)
    &&& p.defense_ratio == u32_at(s, b + 17)
    &&& p.model_scale == u32_at(s, b + 21)
    &&& p.ucf == gated(v.spec_at_least(1, 0, 0), ucf_at(s, i))
    &&& if v.spec_at_least(3, 9, 0) {
        &&& p.display_name matches Some(n) && n@ == display_name_at(s, i)
        &&& p.connect_code matches Some(c) && c@ == connect_code_at(s, i)
    } else {
        p.display_name is None && p.connect_code is None
    }
}

/// The warnings on roster slot `i`: an unknown kind, and for a slot that
/// plays an unknown team shade or team.
pub open spec fn player_issues(s: Seq<u8>, i: int) -> Seq<Issue> {
    let b = slot_base(i);
    let plays = type_or_empty(s[b + 1]).spec_plays();
    issue_if(spec_player_type(s[b + 1]) is None, Issue::PlayerType { slot: i as u8, code: s[b + 1] })
        + issue_if(plays && spec_team_shade(s[b + 4]) is None, Issue::TeamShade { slot: i as u8, code: s[b + 4] })
        + issue_if(plays && spec_team_id(s[b + 6]) is None, Issue::TeamId { slot: i as u8, code: s[b + 6] })
}

/// The warnings on slot `i`'s controller-fix toggles, where `v` has them.
pub open spec fn ucf_issues(s: Seq<u8>, i: int, v: Version) -> Seq<Issue> {
    if v.spec_at_least(1, 0, 0) {
        issue_if(
            spec_controller_fix(s[320 + 8 * i + 3]) is None,
            Issue::ControllerFix { slot: i as u8, code: s[320 + 8 * i + 3] },
        ) + issue_if(
            spec_controller_fix(s[324 + 8 * i + 3]) is None,
            Issue::ControllerFix { slot: i as u8, code: s[324 + 8 * i + 3] },
        )
    } else {
        Seq::empty()
    }
}

pub open spec fn players_issues(s: Seq<u8>, n: int) -> Seq<Issue>
    decreases n,
{
    if n <= 0 {
        Seq::empty()
    } else {
        players_issues(s, n - 1) + player_issues(s, n - 1)
    }
}

pub open spec fn ucfs_issues(s: Seq<u8>, v: Version, n: int) -> Seq<Issue>
    decreases n,
{
    if n <= 0 {
        Seq::empty()
    } else {
        ucfs_issues(s, v, n - 1) + ucf_issues(s, n - 1, v)
    }
}

/// Every warning of a match-start record, in this order: the stage, each
/// slot's kind and team, each slot's controller fixes.
pub open spec fn game_start_issues(s: Seq<u8>, v: Version) -> Seq<Issue> {
    issue_if(!stage_known(u16_at(s, 18)), Issue::UnknownStage { stage: u16_at(s, 18) })
        + players_issues(s, 4) + ucfs_issues(s, v, 4)
}

/// The bytes of the match id.
pub open spec fn match_id_bytes(s: Seq<u8>) -> Seq<u8> {
    until_zero(s.subrange(701, 752))
}

/// The match type that a match id gives by its sixth character.
pub open spec fn match_type_of(id: Seq<u8>) -> MatchType {
    if id.len() > 5 {
        spec_match_type(id[5])
    } else {
        MatchType::Unknown
    }
}

/// `g` holds the match settings that the bytes `s` give under `v`.
pub open spec fn game_start_fields(g: GameStart, s: Seq<u8>, v: Version) -> bool {
    let v314 = v.spec_at_least(3, 14, 0);
    &&& g.random_seed == u32_at(s, 316)
    &&& g.teams == (s[12] != 0)
    &&& g.stage == u16_at(s, 18)
    &&& g.timer == u32_at(s, 20)
    &&& g.damage_ratio == u32_at(s, 52)
    &&& g.pal == gated(v.spec_at_least(1, 5, 0), s[416] != 0)
    &&& g.frozen_stadium == gated(v.spec_at_least(2, 0, 0), s[417] != 0)
    &&& g.netplay == gated(v.spec_at_least(3, 7, 0), s[419] == 8)
    &&& g.match_id@ == (if v314 { utf8_text(match_id_bytes(s)) } else { Seq::empty() })
    &&& g.match_type == (if v314 { match_type_of(match_id_bytes(s)) } else { MatchType::Unknown })
    &&& g.game_number == gated(v314, u32_at(s, 752))
    &&& g.tiebreak_number == gated(v314, u32_at(s, 756))
}

fn game_start_len(v: &Version) -> (r: usize)
    ensures
        r == game_start_size(*v),
{
    if v.at_least(3, 14, 0) {
        760
    } else if v.at_least(3, 12, 0) {
        701
    } else if v.at_least(3, 11, 0) {
        700
    } else if v.at_least(3, 9, 0) {
        584
    } else if v.at_least(3, 7, 0) {
        420
    } else if v.at_least(2, 0, 0) {
        418
    } else if v.at_least(1, 5, 0) {
        417
    } else if v.at_least(1, 3, 0) {
        416
    } else if v.at_least(1, 0, 0) {
        352
    } else {
        320
    }
}

/// Decodes the zero-terminated Shift_JIS field of `n` bytes at `at`.
fn read_text(raw: &[u8], at: usize, n: usize) -> (r: Vec<char>)
    requires
        at + n <= raw@.len(),
    ensures
        r@ == shift_jis_text(until_zero(raw@.subrange(at as int, at + n))),
{
    let bytes = zero_terminated(raw, at, n);
    decode_shift_jis(bytes.as_slice())
}

fn fix_from(code: u8, slot: u8, issues: &mut Vec<Issue>) -> (r: ControllerFix)
    ensures
        r == fix_or_ucf(code),
        final(issues)@ == old(issues)@ + issue_if(
            spec_controller_fix(code) is None,
            Issue::ControllerFix { slot, code },
        ),
{
    let f = ControllerFix::from_code(code);
    push_issue_if(issues, f.is_none(), Issue::ControllerFix { slot, code });
    match f {
        Some(x) => x,
        None => ControllerFix::UCF,
    }
}

fn parse_player(
    raw: &[u8],
    i: usize,
    v: Version,
    issues: &mut Vec<Issue>,
    ucf_issues_out: &mut Vec<Issue>,
) -> (r: Player)
    requires
        i < 4,
        raw@.len() >= game_start_size(v),
    ensures
        player_fields(r, raw@, i as int, v),
        final(issues)@ == old(issues)@ + player_issues(raw@, i as int),
        final(ucf_issues_out)@ == old(ucf_issues_out)@ + ucf_issues(raw@, i as int, v),
{
    let b: usize = 100 + 36 * i;
    let slot = i as u8;
    let type_code = get_u8(raw, b + 1);
    let kind = PlayerType::from_code(type_code);
    push_issue_if(issues, kind.is_none(), Issue::PlayerType { slot, code: type_code });
    let player_type = match kind {
        Some(t) => t,
        None => PlayerType::Empty,
    };
    let plays = player_type.plays();
    let shade_code = get_u8(raw, b + 4);
    let shade = TeamShade::from_code(shade_code);
    push_issue_if(issues, plays && shade.is_none(), Issue::TeamShade { slot, code: shade_code });
    let team_code = get_u8(raw, b + 6);
    let team = TeamID::from_code(team_code);
    push_issue_if(issues, plays && team.is_none(), Issue::TeamId { slot, code: team_code });
    let ghost ucf0 = ucf_issues_out@;
    let ucf = if v.at_least(1, 0, 0) {
        let dashback = fix_from(get_u8(raw, 320 + 8 * i + 3), slot, ucf_issues_out);
        let shield_drop = fix_from(get_u8(raw, 324 + 8 * i + 3), slot, ucf_issues_out);
        Some(UCFToggles { dashback, shield_drop })
    } else {
        proof {
            assert(ucf_issues_out@ =~= ucf0 + ucf_issues(raw@, i as int, v));
        }
        None
    };
    let (display_name, connect_code) = if v.at_least(3, 9, 0) {
        let name = read_text(raw, 420 + 31 * i, 31);
        let code = read_text(raw, 544 + 10 * i, 10);
        let code = replace_fullwidth_hash(&code);
        (Some(string_from_chars(&name)), Some(string_from_chars(&code)))
    } else {
        (None, None)
    };
    Player {
        port: slot,
        player_type,
        character: character_from_css(get_u8(raw, b)),
        starting_stocks: get_u8(raw, b + 2),
        costume: get_u8(raw, b + 3),
        team_shade: match shade {
            Some(t) => t,
            None => TeamShade::Normal,
        },
        handicap: get_u8(raw, b + 5),
        team_id: match team {
            Some(t) => t,
            None => TeamID::Red,
        },
        bitfield: get_u8(raw, b + 7),
        cpu_level: get_u8(raw, b + 8),
        damage_start: get_u16(raw, b + 9),
        damage_spawn: get_u16(raw, b + 11),
        offense_ratio: get_u32(raw, b + 13),
        defense_ratio: get_u32(raw, b + 17),
        model_scale: get_u32(raw, b + 21),
        ucf,
        connect_code,
        display_name,
    }
}

impl GameStart {
    /// Decodes a match-start payload: its version, the settings, the four
    /// roster slots and the warnings on them. Each version gate that the
    /// replay's version fails ends the record; the fields after it stay absent.
    pub fn parse(raw: &[u8]) -> (r: Result<(GameStart, Version, Vec<Player>, Vec<Issue>), ParseError>)
        ensures
            r is Ok <==> raw@.len() >= 3 && raw@.len() >= game_start_size(version_of(raw@)),
            r is Err ==> r->Err_0 == ParseError::UnexpectedEnd,
            r matches Ok((g, v, ps, issues)) ==> {
                &&& v == version_of(raw@)
                &&& game_start_fields(g, raw@, v)
                &&& ps@.len() == 4
                &&& forall|i: int| 0 <= i < 4 ==> player_fields(#[trigger] ps@[i], raw@, i, v)
                &&& issues@ == game_start_issues(raw@, v)
            },
    {
        if raw.len() < 3 {
            return Err(ParseError::UnexpectedEnd);
        }
        let version = Version::new(get_u8(raw, 0), get_u8(raw, 1), get_u8(raw, 2));
        if raw.len() < game_start_len(&version) {
            return Err(ParseError::UnexpectedEnd);
        }
        let v = version;
        let stage = get_u16(raw, 18);
        let mut issues: Vec<Issue> = Vec::new();
        push_issue_if(&mut issues, !resolve_stage(stage), Issue::UnknownStage { stage });
        let mut ucf_list: Vec<Issue> = Vec::new();
        let mut players: Vec<Player> = Vec::new();
        let mut i: usize = 0;
        while i < 4
            invariant
                i <= 4,
                raw@.len() >= game_start_size(v),
                raw@.len() >= 3,
                v == version_of(raw@),
                players@.len() == i,
                forall|j: int| 0 <= j < i ==> player_fields(#[trigger] players@[j], raw@, j, v),
                issues@ == issue_if(!stage_known(u16_at(raw@, 18)), Issue::UnknownStage { stage: u16_at(raw@, 18) })
                    + players_issues(raw@, i as int),
                ucf_list@ == ucfs_issues(raw@, v, i as int),
            decreases 4 - i,
        {
            let p = parse_player(raw, i, v, &mut issues, &mut ucf_list);
            players.push(p);
            proof {
                assert(players_issues(raw@, i + 1) == players_issues(raw@, i as int) + player_issues(raw@, i as int));
            }
            i = i + 1;
        }
        let ghost before = issues@;
        issues.append(&mut ucf_list);
        let v314 = v.at_least(3, 14, 0);
        let (match_id, match_type, game_number, tiebreak_number) = if v314 {
            let id = zero_terminated(raw, 701, 51);
            let match_type = if id.len() > 5 {
                MatchType::from_code(id[5])
            } else {
                MatchType::Unknown
            };
            (decode_utf8(id.as_slice()), match_type, Some(get_u32(raw, 752)), Some(get_u32(raw, 756)))
        } else {
            (String::new(), MatchType::Unknown, None, None)
        };
        let g = GameStart {
            random_seed: get_u32(raw, 316),
            teams: get_u8(raw, 12) != 0,
            stage,
            timer: get_u32(raw, 20),
            damage_ratio: get_u32(raw, 52),
            pal: if v.at_least(1, 5, 0) {
                Some(get_u8(raw, 416) != 0)
            } else {
                None
            },
            frozen_stadium: if v.at_least(2, 0, 0) {
                Some(get_u8(raw, 417) != 0)
            } else {
                None
            },
            netplay: if v.at_least(3, 7, 0) {
                Some(get_u8(raw, 419) == 8)
            } else {
                None
            },
            match_id,
            match_type,
            game_number,
            tiebreak_number,
        };
        Ok((g, v, players, issues))
    }
}

} // verus!

verus! {

/// A match-start record is read from exactly the bytes that its version
/// implies: payloads that agree on those bytes give the same settings, the
/// same roster and the same warnings, whatever follows them.
pub proof fn lemma_game_start_window(a: Seq<u8>, b: Seq<u8>, g: GameStart, p: Player, i: int)
    requires
        a.len() >= 3,
        same_prefix(a, b, game_start_size(version_of(a))),
        0 <= i < 4,
    ensures
        version_of(a) == version_of(b),
        game_start_fields(g, a, version_of(a)) <==> game_start_fields(g, b, version_of(b)),
        player_fields(p, a, i, version_of(a)) <==> player_fields(p, b, i, version_of(b)),
        game_start_issues(a, version_of(a)) == game_start_issues(b, version_of(b)),
{
    let v = version_of(a);
    assert(a[0] == b[0] && a[1] == b[1] && a[2] == b[2]);
    assert(forall|k: int| 0 <= k < 320 ==> a[k] == b[k]);
    if v.spec_at_least(3, 9, 0) {
        assert(a.subrange(420 + 31 * i, 451 + 31 * i) =~= b.subrange(420 + 31 * i, 451 + 31 * i));
        assert(a.subrange(544 + 10 * i, 554 + 10 * i) =~= b.subrange(544 + 10 * i, 554 + 10 * i));
    }
    if v.spec_at_least(3, 14, 0) {
        assert(a.subrange(701, 752) =~= b.subrange(701, 752));
    }
    assert(players_issues(a, 4) == players_issues(b, 4)) by {
        assert(players_issues(a, 0) == players_issues(b, 0));
        assert(players_issues(a, 1) == players_issues(b, 1));
        assert(players_issues(a, 2) == players_issues(b, 2));
        assert(players_issues(a, 3) == players_issues(b, 3));
    }
    assert(ucfs_issues(a, v, 4) == ucfs_issues(b, v, 4)) by {
        assert(ucfs_issues(a, v, 0) == ucfs_issues(b, v, 0));
        assert(ucfs_issues(a, v, 1) == ucfs_issues(b, v, 1));
        assert(ucfs_issues(a, v, 2) == ucfs_issues(b, v, 2));
        assert(ucfs_issues(a, v, 3) == ucfs_issues(b, v, 3));
    }
}

/// The match-start gates form one chain: a field is present only where
/// every field gated before it is.
pub proof fn lemma_game_start_gates(g: GameStart, p: Player, s: Seq<u8>, v: Version, i: int)
    requires
        game_start_fields(g, s, v),
        player_fields(p, s, i, v),
    ensures
        g.tiebreak_number is Some ==> p.display_name is Some,
        p.display_name is Some ==> g.netplay is Some,
        g.netplay is Some ==> g.frozen_stadium is Some,
        g.frozen_stadium is Some ==> g.pal is Some,
        g.pal is Some ==> p.ucf is Some,
{
}

} // verus!
