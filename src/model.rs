//! Per-match performance records, as handed to the aggregation.
use vstd::prelude::*;
use crate::ratio::Ratio;
use crate::selection::Mode;

verus! {

/// The outcome of a match for one player.
#[derive(Clone, Copy, Debug, PartialEq, Eq, Structural)]
pub enum Standing {
    Victory,
    Defeat,
    Unknown,
}

/// The platform an account plays on.
#[derive(Clone, Copy, Debug, PartialEq, Eq, Structural)]
pub enum Platform {
    Xbox,
    Playstation,
    Steam,
    Stadia,
    Unknown,
}

#[derive(Debug, Clone)]
pub struct Player {
    pub member_id: String,
    pub character_id: String,
    pub platform: Platform,
}

/// An inventory item (a weapon) as named in the game's catalog.
#[derive(Debug, Clone)]
pub struct Item {
    pub id: u32,
    pub name: String,
    pub description: String,
    pub item_type: u32,
    pub item_sub_type: u32,
}

impl Item {
    /// A field-by-field copy.
    pub fn duplicate(&self) -> (r: Item)
        ensures
            r == *self,
    {
        Item {
            id: self.id,
            name: self.name.clone(),
            description: self.description.clone(),
            item_type: self.item_type,
            item_sub_type: self.item_sub_type,
        }
    }
}

/// Kills made with one weapon.
#[derive(Debug, Clone)]
pub struct WeaponStat {
    pub weapon: Item,
    pub kills: u32,
    pub precision_kills: u32,
    pub precision_kills_percent: Ratio,
    pub activity_count: u32,
}

impl WeaponStat {
    /// A field-by-field copy.
    pub fn duplicate(&self) -> (r: WeaponStat)
        ensures
            r == *self,
    {
        WeaponStat {
            weapon: self.weapon.duplicate(),
            kills: self.kills,
            precision_kills: self.precision_kills,
            precision_kills_percent: self.precision_kills_percent,
            activity_count: self.activity_count,
        }
    }
}

/// A commendation as named in the game's catalog.
#[derive(Debug, Clone)]
pub struct Medal {
    pub id: String,
    pub icon_image_path: Option<String>,
    pub tier: u32,
    pub name: String,
    pub description: String,
}

impl Medal {
    /// A field-by-field copy.
    pub fn duplicate(&self) -> (r: Medal)
        ensures
            r == *self,
    {
        let icon_image_path = match &self.icon_image_path {
            Some(p) => Some(p.clone()),
            None => None,
        };
        Medal {
            id: self.id.clone(),
            icon_image_path,
            tier: self.tier,
            name: self.name.clone(),
            description: self.description.clone(),
        }
    }
}

/// How many times a medal was earned.
#[derive(Debug, Clone)]
pub struct MedalStat {
    pub medal: Medal,
    pub count: u32,
}

/// The richer per-match breakdown that only some records carry.
#[derive(Debug)]
pub struct ExtendedCrucibleStats {
    pub precision_kills: u32,
    pub weapon_kills_ability: u32,
    pub weapon_kills_grenade: u32,
    pub weapon_kills_melee: u32,
    pub weapon_kills_super: u32,
    pub all_medals_earned: u32,
    pub weapons: Vec<WeaponStat>,
    pub medals: Vec<MedalStat>,
}

/// The statistics of one player in one match.
#[derive(Debug)]
pub struct CrucibleStats {
    pub assists: u32,
    pub score: u32,
    pub kills: u32,
    pub deaths: u32,
    pub average_score_per_kill: Ratio,
    pub average_score_per_life: Ratio,
    pub completed: u32,
    pub opponents_defeated: u32,
    pub efficiency: Ratio,
    pub kills_deaths_ratio: Ratio,
    pub kills_deaths_assists: Ratio,
    pub activity_duration_seconds: u32,
    pub standing: Standing,
    pub team: u32,
    pub completion_reason: u32,
    pub start_seconds: u32,
    pub time_played_seconds: u32,
    pub player_count: u32,
    pub team_score: u32,
    pub extended: Option<ExtendedCrucibleStats>,
}

/// What a match was: where, when (seconds since the Unix epoch, UTC) and how it was played.
#[derive(Debug)]
pub struct ActivityDetail {
    pub id: i64,
    pub period: i64,
    pub map_name: String,
    pub mode: Mode,
    pub platform: Platform,
    pub director_activity_hash: u32,
    pub reference_id: u32,
}

/// One player's record of one match.
#[derive(Debug)]
pub struct CruciblePlayerPerformance {
    pub player: Player,
    pub activity_detail: ActivityDetail,
    pub stats: CrucibleStats,
}

} // verus!
