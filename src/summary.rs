//! The roll-up of an ordered list of match records into one summary.
use vstd::prelude::*;
use crate::merge::{
    medal_ids_unique, medals_after, medals_fit_after, merge_medals, merge_weapons,
    weapon_ids_unique, weapons_after, weapons_fit_after,
};
use crate::model::{
    CruciblePlayerPerformance, ExtendedCrucibleStats, MedalStat, Standing, WeaponStat,
};
use crate::rank::{
    lemma_rank_insert_is_insert, lemma_rank_sorted_same_entries, rank_sorted, sort_by_rank,
};
use crate::ratio::{
    calculate_efficiency, calculate_kills_deaths_assists, calculate_kills_deaths_ratio,
    spec_efficiency, spec_kills_deaths_assists, spec_kills_deaths_ratio, spec_percent, percent,
    zero_ratio, Ratio,
};
use crate::streak::{lemma_streak_bounded, streak_of, StreakTracker};

verus! {

/// A per-match count that is summed (and, for the first five, maximised) over the records.
#[derive(Clone, Copy, Debug, PartialEq, Eq, Structural)]
pub enum Stat {
    Assists,
    Score,
    Kills,
    Deaths,
    OpponentsDefeated,
    ActivityDurationSeconds,
    TimePlayedSeconds,
}

/// A per-match ratio whose largest value is kept.
#[derive(Clone, Copy, Debug, PartialEq, Eq, Structural)]
pub enum RatioStat {
    Efficiency,
    KillsDeathsRatio,
    KillsDeathsAssists,
}

/// A count of the extended breakdown, summed and maximised over the records that carry one.
#[derive(Clone, Copy, Debug, PartialEq, Eq, Structural)]
pub enum ExtStat {
    PrecisionKills,
    WeaponKillsAbility,
    WeaponKillsGrenade,
    WeaponKillsMelee,
    WeaponKillsSuper,
    AllMedalsEarned,
}

pub open spec fn stat(p: CruciblePlayerPerformance, k: Stat) -> u32 {
    match k {
        Stat::Assists => p.stats.assists,
        Stat::Score => p.stats.score,
        Stat::Kills => p.stats.kills,
        Stat::Deaths => p.stats.deaths,
        Stat::OpponentsDefeated => p.stats.opponents_defeated,
        Stat::ActivityDurationSeconds => p.stats.activity_duration_seconds,
        Stat::TimePlayedSeconds => p.stats.time_played_seconds,
    }
}

pub open spec fn ratio_stat(p: CruciblePlayerPerformance, k: RatioStat) -> Ratio {
    match k {
        RatioStat::Efficiency => p.stats.efficiency,
        RatioStat::KillsDeathsRatio => p.stats.kills_deaths_ratio,
        RatioStat::KillsDeathsAssists => p.stats.kills_deaths_assists,
    }
}

pub open spec fn ext_stat(e: ExtendedCrucibleStats, k: ExtStat) -> u32 {
    match k {
        ExtStat::PrecisionKills => e.precision_kills,
        ExtStat::WeaponKillsAbility => e.weapon_kills_ability,
        ExtStat::WeaponKillsGrenade => e.weapon_kills_grenade,
        ExtStat::WeaponKillsMelee => e.weapon_kills_melee,
        ExtStat::WeaponKillsSuper => e.weapon_kills_super,
        ExtStat::AllMedalsEarned => e.all_medals_earned,
    }
}

/// The sum of a count over the records.
pub open spec fn stat_total(s: Seq<CruciblePlayerPerformance>, k: Stat) -> int
    decreases s.len(),
{
    if s.len() == 0 {
        0
    } else {
        stat_total(s.drop_last(), k) + stat(s.last(), k)
    }
}

/// The largest value of a count over the records, or zero when there are none.
pub open spec fn stat_highest(s: Seq<CruciblePlayerPerformance>, k: Stat) -> int
    decreases s.len(),
{
    if s.len() == 0 {
        0
    } else {
        let h = stat_highest(s.drop_last(), k);
        if stat(s.last(), k) > h {
            stat(s.last(), k) as int
        } else {
            h
        }
    }
}

/// The largest value of a ratio over the records (the earliest of equal values), or zero.
pub open spec fn ratio_highest(s: Seq<CruciblePlayerPerformance>, k: RatioStat) -> Ratio
    decreases s.len(),
{
    if s.len() == 0 {
        zero_ratio()
    } else {
        ratio_highest(s.drop_last(), k).spec_max(ratio_stat(s.last(), k))
    }
}

/// The sum of an extended count over the records that carry the extended breakdown.
pub open spec fn ext_total(s: Seq<CruciblePlayerPerformance>, k: ExtStat) -> int
    decreases s.len(),
{
    if s.len() == 0 {
        0
    } else {
        ext_total(s.drop_last(), k) + match s.last().stats.extended {
            Some(e) => ext_stat(e, k) as int,
            None => 0,
        }
    }
}

/// The largest extended count over the records that carry the extended breakdown, or zero.
pub open spec fn ext_highest(s: Seq<CruciblePlayerPerformance>, k: ExtStat) -> int
    decreases s.len(),
{
    if s.len() == 0 {
        0
    } else {
        let h = ext_highest(s.drop_last(), k);
        match s.last().stats.extended {
            Some(e) => if ext_stat(e, k) > h {
                ext_stat(e, k) as int
            } else {
                h
            },
            None => h,
        }
    }
}

/// How many records have the given standing.
pub open spec fn count_standing(s: Seq<CruciblePlayerPerformance>, st: Standing) -> int
    decreases s.len(),
{
    if s.len() == 0 {
        0
    } else {
        count_standing(s.drop_last(), st) + if s.last().stats.standing == st {
            1int
        } else {
            0
        }
    }
}

pub open spec fn standings(s: Seq<CruciblePlayerPerformance>) -> Seq<Standing> {
    s.map_values(|p: CruciblePlayerPerformance| p.stats.standing)
}

/// Some record carries the extended breakdown.
pub open spec fn has_extended(s: Seq<CruciblePlayerPerformance>) -> bool {
    exists|i: int| 0 <= i < s.len() && s[i].stats.extended is Some
}

pub open spec fn weapons_of(p: CruciblePlayerPerformance) -> Seq<WeaponStat> {
    match p.stats.extended {
        Some(e) => e.weapons@,
        None => Seq::empty(),
    }
}

pub open spec fn medals_of(p: CruciblePlayerPerformance) -> Seq<MedalStat> {
    match p.stats.extended {
        Some(e) => e.medals@,
        None => Seq::empty(),
    }
}

/// The weapon entries of all records merged by weapon id, in order of first appearance.
pub open spec fn weapon_table(s: Seq<CruciblePlayerPerformance>) -> Seq<WeaponStat>
    decreases s.len(),
{
    if s.len() == 0 {
        Seq::empty()
    } else {
        weapons_after(weapon_table(s.drop_last()), weapons_of(s.last()))
    }
}

/// The medal entries of all records merged by medal id, in order of first appearance.
pub open spec fn medal_table(s: Seq<CruciblePlayerPerformance>) -> Seq<MedalStat>
    decreases s.len(),
{
    if s.len() == 0 {
        Seq::empty()
    } else {
        medals_after(medal_table(s.drop_last()), medals_of(s.last()))
    }
}

pub open spec fn weapons_fit(s: Seq<CruciblePlayerPerformance>) -> bool
    decreases s.len(),
{
    if s.len() == 0 {
        true
    } else {
        weapons_fit(s.drop_last()) && weapons_fit_after(
            weapon_table(s.drop_last()),
            weapons_of(s.last()),
        )
    }
}

pub open spec fn medals_fit(s: Seq<CruciblePlayerPerformance>) -> bool
    decreases s.len(),
{
    if s.len() == 0 {
        true
    } else {
        medals_fit(s.drop_last()) && medals_fit_after(medal_table(s.drop_last()), medals_of(s.last()))
    }
}

/// Every count of the summary fits in `u32`.
pub open spec fn totals_fit(s: Seq<CruciblePlayerPerformance>) -> bool {
    &&& s.len() <= u32::MAX
    &&& forall|k: Stat| #[trigger] stat_total(s, k) <= u32::MAX
    &&& forall|k: ExtStat| #[trigger] ext_total(s, k) <= u32::MAX
    &&& weapons_fit(s)
    &&& medals_fit(s)
}

/// The highest value of a count is at least the value of every record and, when there are
/// records, is the value of one of them.
pub proof fn lemma_stat_highest_is_max(s: Seq<CruciblePlayerPerformance>, k: Stat)
    ensures
        forall|i: int| 0 <= i < s.len() ==> stat(#[trigger] s[i], k) <= stat_highest(s, k),
        s.len() == 0 ==> stat_highest(s, k) == 0,
        s.len() > 0 ==> exists|i: int| 0 <= i < s.len() && stat(#[trigger] s[i], k) == stat_highest(s, k),
    decreases s.len(),
{
    if s.len() > 0 {
        let d = s.drop_last();
        lemma_stat_highest_is_max(d, k);
        assert forall|i: int| 0 <= i < s.len() implies stat(#[trigger] s[i], k) <= stat_highest(s, k) by {
            if i < d.len() {
                assert(s[i] == d[i]);
            }
        }
        if stat(s.last(), k) > stat_highest(d, k) || d.len() == 0 {
            assert(stat(s[s.len() - 1], k) == stat_highest(s, k));
        } else {
            let j = choose|j: int| 0 <= j < d.len() && stat(#[trigger] d[j], k) == stat_highest(d, k);
            assert(s[j] == d[j]);
        }
    }
}

/// The highest value of an extended count is at least its value in every record that carries
/// the extended breakdown and, when one does, is its value in one of them.
pub proof fn lemma_ext_highest_is_max(s: Seq<CruciblePlayerPerformance>, k: ExtStat)
    ensures
        forall|i: int|
            0 <= i < s.len() && (#[trigger] s[i]).stats.extended is Some ==> ext_stat(
                s[i].stats.extended->Some_0,
                k,
            ) <= ext_highest(s, k),
        !has_extended(s) ==> ext_highest(s, k) == 0,
        has_extended(s) ==> exists|i: int|
            0 <= i < s.len() && (#[trigger] s[i]).stats.extended is Some && ext_stat(
                s[i].stats.extended->Some_0,
                k,
            ) == ext_highest(s, k),
    decreases s.len(),
{
    if s.len() > 0 {
        let d = s.drop_last();
        assert(s =~= d.push(s.last()));
        lemma_has_extended_push(d, s.last());
        lemma_ext_highest_is_max(d, k);
        assert forall|i: int|
            0 <= i < s.len() && (#[trigger] s[i]).stats.extended is Some implies ext_stat(
                s[i].stats.extended->Some_0,
                k,
            ) <= ext_highest(s, k) by {
            if i < d.len() {
                assert(s[i] == d[i]);
            }
        }
        match s.last().stats.extended {
            Some(e) => {
                if ext_stat(e, k) > ext_highest(d, k) || !has_extended(d) {
                    assert(s[s.len() - 1] == s.last());
                } else {
                    let j = choose|j: int|
                        0 <= j < d.len() && (#[trigger] d[j]).stats.extended is Some && ext_stat(
                            d[j].stats.extended->Some_0,
                            k,
                        ) == ext_highest(d, k);
                    assert(s[j] == d[j]);
                }
            },
            None => {
                if has_extended(d) {
                    let j = choose|j: int|
                        0 <= j < d.len() && (#[trigger] d[j]).stats.extended is Some && ext_stat(
                            d[j].stats.extended->Some_0,
                            k,
                        ) == ext_highest(d, k);
                    assert(s[j] == d[j]);
                }
            },
        }
    }
}

proof fn lemma_ratio_not_lt_trans(x: Ratio, h: Ratio, y: Ratio)
    requires
        !h.spec_lt(x),
        h.spec_lt(y),
    ensures
        !y.spec_lt(x),
{
    let (xn, xd, hn, hd, yn, yd) = (
        x.spec_num(),
        x.spec_den(),
        h.spec_num(),
        h.spec_den(),
        y.spec_num(),
        y.spec_den(),
    );
    assert(xn * yd <= yn * xd) by (nonlinear_arith)
        requires
            xd > 0,
            hd > 0,
            yd > 0,
            xn >= 0,
            hn >= 0,
            yn >= 0,
            hn * xd >= xn * hd,
            hn * yd < yn * hd,
    {
        assert(hn * xd * yd >= xn * hd * yd);
        assert(hn * yd * xd < yn * hd * xd);
        assert(xn * yd * hd <= yn * xd * hd);
    }
}

/// The highest value of a ratio is not below the value of any record and, when it is not
/// zero, is the value of one of them.
pub proof fn lemma_ratio_highest_is_max(s: Seq<CruciblePlayerPerformance>, k: RatioStat)
    ensures
        forall|i: int|
            0 <= i < s.len() ==> !ratio_highest(s, k).spec_lt(ratio_stat(#[trigger] s[i], k)),
        ratio_highest(s, k) == zero_ratio() || exists|i: int|
            0 <= i < s.len() && ratio_stat(#[trigger] s[i], k) == ratio_highest(s, k),
    decreases s.len(),
{
    if s.len() > 0 {
        let d = s.drop_last();
        let h = ratio_highest(d, k);
        let y = ratio_stat(s.last(), k);
        lemma_ratio_highest_is_max(d, k);
        assert forall|i: int|
            0 <= i < s.len() implies !ratio_highest(s, k).spec_lt(
            ratio_stat(#[trigger] s[i], k),
        ) by {
            if i < d.len() {
                assert(s[i] == d[i]);
                if h.spec_lt(y) {
                    lemma_ratio_not_lt_trans(ratio_stat(s[i], k), h, y);
                }
            } else {
                assert(s[i] == s.last());
                assert(!y.spec_lt(y));
            }
        }
        if h.spec_lt(y) {
            assert(s[s.len() - 1] == s.last());
        } else if h != zero_ratio() {
            let j = choose|j: int| 0 <= j < d.len() && ratio_stat(#[trigger] d[j], k) == h;
            assert(s[j] == d[j]);
        }
    }
}

/// Ranking a weapon list with one entry per id leaves one entry per id.
pub proof fn lemma_ranked_weapons_unique(t: Seq<WeaponStat>)
    requires
        weapon_ids_unique(t),
    ensures
        weapon_ids_unique(rank_sorted(t)),
    decreases t.len(),
{
    if t.len() > 0 {
        let d = t.drop_first();
        let x = t[0];
        lemma_ranked_weapons_unique(d);
        lemma_rank_sorted_same_entries(d);
        let r = rank_sorted(d);
        assert forall|k: int| 0 <= k < r.len() implies r[k].weapon.id != x.weapon.id by {
            assert(r.contains(r[k]));
            assert(d.contains(r[k]));
            let m = choose|m: int| 0 <= m < d.len() && d[m] == r[k];
            assert(t[m + 1] == r[k]);
        }
        let i = lemma_rank_insert_is_insert(r, x);
        let u = r.insert(i, x);
        assert forall|a: int, b: int| 0 <= a < b < u.len() implies u[a].weapon.id != u[b].weapon.id by {
            if a < i && b < i {
                assert(u[a] == r[a] && u[b] == r[b]);
            } else if a < i && b == i {
                assert(u[a] == r[a]);
            } else if a < i {
                assert(u[a] == r[a] && u[b] == r[b - 1]);
            } else if a == i {
                assert(u[b] == r[b - 1]);
            } else {
                assert(u[a] == r[a - 1] && u[b] == r[b - 1]);
            }
        }
    }
}

/// Ranking a medal list with one entry per id leaves one entry per id.
pub proof fn lemma_ranked_medals_unique(t: Seq<MedalStat>)
    requires
        medal_ids_unique(t),
    ensures
        medal_ids_unique(rank_sorted(t)),
    decreases t.len(),
{
    if t.len() > 0 {
        let d = t.drop_first();
        let x = t[0];
        lemma_ranked_medals_unique(d);
        lemma_rank_sorted_same_entries(d);
        let r = rank_sorted(d);
        assert forall|k: int| 0 <= k < r.len() implies r[k].medal.id@ != x.medal.id@ by {
            assert(r.contains(r[k]));
            assert(d.contains(r[k]));
            let m = choose|m: int| 0 <= m < d.len() && d[m] == r[k];
            assert(t[m + 1] == r[k]);
        }
        let i = lemma_rank_insert_is_insert(r, x);
        let u = r.insert(i, x);
        assert forall|a: int, b: int| 0 <= a < b < u.len() implies u[a].medal.id@ != u[b].medal.id@ by {
            if a < i && b < i {
                assert(u[a] == r[a] && u[b] == r[b]);
            } else if a < i && b == i {
                assert(u[a] == r[a]);
            } else if a < i {
                assert(u[a] == r[a] && u[b] == r[b - 1]);
            } else if a == i {
                assert(u[b] == r[b - 1]);
            } else {
                assert(u[a] == r[a - 1] && u[b] == r[b - 1]);
            }
        }
    }
}

/// The count of a standing never exceeds the number of records.
proof fn lemma_count_standing_bounded(s: Seq<CruciblePlayerPerformance>, st: Standing)
    ensures
        0 <= count_standing(s, st) <= s.len(),
    decreases s.len(),
{
    if s.len() > 0 {
        lemma_count_standing_bounded(s.drop_last(), st);
    }
}

/// What fits for a list of records fits for each of its prefixes.
proof fn lemma_totals_fit_prefix(s: Seq<CruciblePlayerPerformance>, i: int)
    requires
        totals_fit(s),
        0 <= i <= s.len(),
    ensures
        totals_fit(s.take(i)),
    decreases s.len(),
{
    if i == s.len() {
        assert(s.take(i) =~= s);
    } else {
        let d = s.drop_last();
        assert forall|k: Stat| #[trigger] stat_total(d, k) <= u32::MAX by {
            assert(stat_total(s, k) <= u32::MAX);
        }
        assert forall|k: ExtStat| #[trigger] ext_total(d, k) <= u32::MAX by {
            assert(ext_total(s, k) <= u32::MAX);
        }
        assert(totals_fit(d));
        assert(d.take(i) =~= s.take(i));
        lemma_totals_fit_prefix(d, i);
    }
}

/// The extended part of a summary of `s`.
pub open spec fn is_extended_summary_of(
    e: ExtendedCruciblePlayerPerformances,
    s: Seq<CruciblePlayerPerformance>,
) -> bool {
    &&& e.precision_kills == ext_total(s, ExtStat::PrecisionKills)
    &&& e.weapon_kills_ability == ext_total(s, ExtStat::WeaponKillsAbility)
    &&& e.weapon_kills_grenade == ext_total(s, ExtStat::WeaponKillsGrenade)
    &&& e.weapon_kills_melee == ext_total(s, ExtStat::WeaponKillsMelee)
    &&& e.weapon_kills_super == ext_total(s, ExtStat::WeaponKillsSuper)
    &&& e.all_medals_earned == ext_total(s, ExtStat::AllMedalsEarned)
    &&& e.highest_precision_kills == ext_highest(s, ExtStat::PrecisionKills)
    &&& e.highest_weapon_kills_ability == ext_highest(s, ExtStat::WeaponKillsAbility)
    &&& e.highest_weapon_kills_grenade == ext_highest(s, ExtStat::WeaponKillsGrenade)
    &&& e.highest_weapon_kills_melee == ext_highest(s, ExtStat::WeaponKillsMelee)
    &&& e.highest_weapon_kills_super == ext_highest(s, ExtStat::WeaponKillsSuper)
    &&& e.highest_all_medals_earned == ext_highest(s, ExtStat::AllMedalsEarned)
}

/// Sums, maxima and merged entries of the records that carry the extended breakdown.
#[derive(Debug)]
pub struct ExtendedCruciblePlayerPerformances {
    pub precision_kills: u32,
    pub weapon_kills_ability: u32,
    pub weapon_kills_grenade: u32,
    pub weapon_kills_melee: u32,
    pub weapon_kills_super: u32,
    pub all_medals_earned: u32,
    pub highest_precision_kills: u32,
    pub highest_weapon_kills_ability: u32,
    pub highest_weapon_kills_grenade: u32,
    pub highest_weapon_kills_melee: u32,
    pub highest_weapon_kills_super: u32,
    pub highest_all_medals_earned: u32,
    pub weapons: Vec<WeaponStat>,
    pub medals: Vec<MedalStat>,
}

/// Running sums and maxima of the per-match counts and ratios.
struct Totals {
    assists: u32,
    score: u32,
    kills: u32,
    deaths: u32,
    opponents_defeated: u32,
    activity_duration_seconds: u32,
    time_played_seconds: u32,
    highest_assists: u32,
    highest_score: u32,
    highest_kills: u32,
    highest_deaths: u32,
    highest_opponents_defeated: u32,
    highest_efficiency: Ratio,
    highest_kills_deaths_ratio: Ratio,
    highest_kills_deaths_assists: Ratio,
}

spec fn totals_inv(a: Totals, s: Seq<CruciblePlayerPerformance>) -> bool {
    &&& a.assists == stat_total(s, Stat::Assists)
    &&& a.score == stat_total(s, Stat::Score)
    &&& a.kills == stat_total(s, Stat::Kills)
    &&& a.deaths == stat_total(s, Stat::Deaths)
    &&& a.opponents_defeated == stat_total(s, Stat::OpponentsDefeated)
    &&& a.activity_duration_seconds == stat_total(s, Stat::ActivityDurationSeconds)
    &&& a.time_played_seconds == stat_total(s, Stat::TimePlayedSeconds)
    &&& a.highest_assists == stat_highest(s, Stat::Assists)
    &&& a.highest_score == stat_highest(s, Stat::Score)
    &&& a.highest_kills == stat_highest(s, Stat::Kills)
    &&& a.highest_deaths == stat_highest(s, Stat::Deaths)
    &&& a.highest_opponents_defeated == stat_highest(s, Stat::OpponentsDefeated)
    &&& a.highest_efficiency == ratio_highest(s, RatioStat::Efficiency)
    &&& a.highest_kills_deaths_ratio == ratio_highest(s, RatioStat::KillsDeathsRatio)
    &&& a.highest_kills_deaths_assists == ratio_highest(s, RatioStat::KillsDeathsAssists)
}

impl Totals {
    fn add(&mut self, p: &CruciblePlayerPerformance, Ghost(s): Ghost<Seq<CruciblePlayerPerformance>>)
        requires
            totals_inv(*old(self), s),
            totals_fit(s.push(*p)),
        ensures
            totals_inv(*final(self), s.push(*p)),
    {
        let ghost t = s.push(*p);
        proof {
            assert(t.drop_last() =~= s);
            assert(stat_total(t, Stat::Assists) <= u32::MAX);
            assert(stat_total(t, Stat::Score) <= u32::MAX);
            assert(stat_total(t, Stat::Kills) <= u32::MAX);
            assert(stat_total(t, Stat::Deaths) <= u32::MAX);
            assert(stat_total(t, Stat::OpponentsDefeated) <= u32::MAX);
            assert(stat_total(t, Stat::ActivityDurationSeconds) <= u32::MAX);
            assert(stat_total(t, Stat::TimePlayedSeconds) <= u32::MAX);
        }
        let st = &p.stats;
        self.assists = self.assists + st.assists;
        self.score = self.score + st.score;
        self.kills = self.kills + st.kills;
        self.deaths = self.deaths + st.deaths;
        self.opponents_defeated = self.opponents_defeated + st.opponents_defeated;
        self.activity_duration_seconds = self.activity_duration_seconds
            + st.activity_duration_seconds;
        self.time_played_seconds = self.time_played_seconds + st.time_played_seconds;
        if st.assists > self.highest_assists {
            self.highest_assists = st.assists;
        }
        if st.score > self.highest_score {
            self.highest_score = st.score;
        }
        if st.kills > self.highest_kills {
            self.highest_kills = st.kills;
        }
        if st.deaths > self.highest_deaths {
            self.highest_deaths = st.deaths;
        }
        if st.opponents_defeated > self.highest_opponents_defeated {
            self.highest_opponents_defeated = st.opponents_defeated;
        }
        self.highest_efficiency = self.highest_efficiency.max(st.efficiency);
        self.highest_kills_deaths_ratio = self.highest_kills_deaths_ratio.max(
            st.kills_deaths_ratio,
        );
        self.highest_kills_deaths_assists = self.highest_kills_deaths_assists.max(
            st.kills_deaths_assists,
        );
    }
}

/// Wins, losses and runs of them.
struct Outcomes {
    wins: u32,
    losses: u32,
    streak: StreakTracker,
}

spec fn outcomes_inv(a: Outcomes, s: Seq<CruciblePlayerPerformance>) -> bool {
    &&& a.wins == count_standing(s, Standing::Victory)
    &&& a.losses == count_standing(s, Standing::Defeat)
    &&& a.streak@ == streak_of(standings(s))
}

impl Outcomes {
    fn add(&mut self, p: &CruciblePlayerPerformance, Ghost(s): Ghost<Seq<CruciblePlayerPerformance>>)
        requires
            outcomes_inv(*old(self), s),
            s.len() < u32::MAX,
        ensures
            outcomes_inv(*final(self), s.push(*p)),
    {
        let ghost t = s.push(*p);
        proof {
            assert(t.drop_last() =~= s);
            lemma_count_standing_bounded(s, Standing::Victory);
            lemma_count_standing_bounded(s, Standing::Defeat);
            lemma_streak_bounded(standings(s));
            assert(standings(t).drop_last() =~= standings(s));
        }
        match p.stats.standing {
            Standing::Victory => {
                self.wins = self.wins + 1;
            },
            Standing::Defeat => {
                self.losses = self.losses + 1;
            },
            Standing::Unknown => {},
        }
        self.streak.record(p.stats.standing);
    }
}

/// Adds the counts of one extended breakdown; the merge tables are left to the caller.
fn add_extended_counts(
    x: &mut ExtendedCruciblePlayerPerformances,
    e: &ExtendedCrucibleStats,
    p: &CruciblePlayerPerformance,
    Ghost(s): Ghost<Seq<CruciblePlayerPerformance>>,
)
    requires
        is_extended_summary_of(*old(x), s),
        totals_fit(s.push(*p)),
        p.stats.extended == Some(*e),
    ensures
        is_extended_summary_of(*final(x), s.push(*p)),
        final(x).weapons == old(x).weapons,
        final(x).medals == old(x).medals,
{
    let ghost t = s.push(*p);
    proof {
        assert(t.drop_last() =~= s);
        assert(ext_total(t, ExtStat::PrecisionKills) <= u32::MAX);
        assert(ext_total(t, ExtStat::WeaponKillsAbility) <= u32::MAX);
        assert(ext_total(t, ExtStat::WeaponKillsGrenade) <= u32::MAX);
        assert(ext_total(t, ExtStat::WeaponKillsMelee) <= u32::MAX);
        assert(ext_total(t, ExtStat::WeaponKillsSuper) <= u32::MAX);
        assert(ext_total(t, ExtStat::AllMedalsEarned) <= u32::MAX);
    }
    x.precision_kills = x.precision_kills + e.precision_kills;
    x.weapon_kills_ability = x.weapon_kills_ability + e.weapon_kills_ability;
    x.weapon_kills_grenade = x.weapon_kills_grenade + e.weapon_kills_grenade;
    x.weapon_kills_melee = x.weapon_kills_melee + e.weapon_kills_melee;
    x.weapon_kills_super = x.weapon_kills_super + e.weapon_kills_super;
    x.all_medals_earned = x.all_medals_earned + e.all_medals_earned;
    if e.precision_kills > x.highest_precision_kills {
        x.highest_precision_kills = e.precision_kills;
    }
    if e.weapon_kills_ability > x.highest_weapon_kills_ability {
        x.highest_weapon_kills_ability = e.weapon_kills_ability;
    }
    if e.weapon_kills_grenade > x.highest_weapon_kills_grenade {
        x.highest_weapon_kills_grenade = e.weapon_kills_grenade;
    }
    if e.weapon_kills_melee > x.highest_weapon_kills_melee {
        x.highest_weapon_kills_melee = e.weapon_kills_melee;
    }
    if e.weapon_kills_super > x.highest_weapon_kills_super {
        x.highest_weapon_kills_super = e.weapon_kills_super;
    }
    if e.all_medals_earned > x.highest_all_medals_earned {
        x.highest_all_medals_earned = e.all_medals_earned;
    }
}

/// One more record changes whether any record carries the extended breakdown only by its own.
proof fn lemma_has_extended_push(s: Seq<CruciblePlayerPerformance>, p: CruciblePlayerPerformance)
    ensures
        has_extended(s.push(p)) == (has_extended(s) || p.stats.extended is Some),
{
    let t = s.push(p);
    if has_extended(s) {
        let i = choose|i: int| 0 <= i < s.len() && s[i].stats.extended is Some;
        assert(t[i] == s[i]);
    }
    if p.stats.extended is Some {
        assert(t[s.len() as int] == p);
    }
    if has_extended(t) {
        let i = choose|i: int| 0 <= i < t.len() && t[i].stats.extended is Some;
        if i < s.len() {
            assert(t[i] == s[i]);
        }
    }
}

/// The running state of one aggregation; the weapon and medal lists of `ext` are the merge
/// tables.
struct Accumulator {
    totals: Totals,
    outcomes: Outcomes,
    has_extended: bool,
    ext: ExtendedCruciblePlayerPerformances,
}

/// `a` holds what the records of `s` add up to.
spec fn acc_inv(a: Accumulator, s: Seq<CruciblePlayerPerformance>) -> bool {
    &&& totals_inv(a.totals, s)
    &&& outcomes_inv(a.outcomes, s)
    &&& a.has_extended == has_extended(s)
    &&& is_extended_summary_of(a.ext, s)
    &&& a.ext.weapons@ == weapon_table(s)
    &&& weapon_ids_unique(a.ext.weapons@)
    &&& a.ext.medals@ == medal_table(s)
    &&& medal_ids_unique(a.ext.medals@)
}

impl Accumulator {
    fn new() -> (r: Accumulator)
        ensures
            acc_inv(r, Seq::empty()),
    {
        let r = Accumulator {
            totals: Totals {
                assists: 0,
                score: 0,
                kills: 0,
                deaths: 0,
                opponents_defeated: 0,
                activity_duration_seconds: 0,
                time_played_seconds: 0,
                highest_assists: 0,
                highest_score: 0,
                highest_kills: 0,
                highest_deaths: 0,
                highest_opponents_defeated: 0,
                highest_efficiency: Ratio::zero(),
                highest_kills_deaths_ratio: Ratio::zero(),
                highest_kills_deaths_assists: Ratio::zero(),
            },
            outcomes: Outcomes { wins: 0, losses: 0, streak: StreakTracker::new() },
            has_extended: false,
            ext: ExtendedCruciblePlayerPerformances {
                precision_kills: 0,
                weapon_kills_ability: 0,
                weapon_kills_grenade: 0,
                weapon_kills_melee: 0,
                weapon_kills_super: 0,
                all_medals_earned: 0,
                highest_precision_kills: 0,
                highest_weapon_kills_ability: 0,
                highest_weapon_kills_grenade: 0,
                highest_weapon_kills_melee: 0,
                highest_weapon_kills_super: 0,
                highest_all_medals_earned: 0,
                weapons: Vec::new(),
                medals: Vec::new(),
            },
        };
        assert(standings(Seq::empty()) =~= Seq::<Standing>::empty());
        r
    }

    /// Folds the next record in.
    fn add(&mut self, p: &CruciblePlayerPerformance, Ghost(s): Ghost<Seq<CruciblePlayerPerformance>>)
        requires
            acc_inv(*old(self), s),
            totals_fit(s.push(*p)),
        ensures
            acc_inv(*final(self), s.push(*p)),
    {
        let ghost t = s.push(*p);
        proof {
            assert(t.drop_last() =~= s);
            lemma_has_extended_push(s, *p);
        }
        self.totals.add(p, Ghost(s));
        self.outcomes.add(p, Ghost(s));
        match &p.stats.extended {
            Some(e) => {
                self.has_extended = true;
                add_extended_counts(&mut self.ext, e, p, Ghost(s));
                merge_medals(&mut self.ext.medals, &e.medals);
                merge_weapons(&mut self.ext.weapons, &e.weapons);
            },
            None => {
                proof {
                    assert(t.drop_last() =~= s);
                    assert(weapons_after(weapon_table(s), Seq::empty()) == weapon_table(s));
                    assert(medals_after(medal_table(s), Seq::empty()) == medal_table(s));
                }
            },
        }
    }
}

/// `value` per match: `value / total`, or zero when there are no matches.
pub open spec fn spec_per_game(value: u32, total: u32) -> Ratio {
    if total == 0 {
        zero_ratio()
    } else {
        Ratio { num: value as u64, den: total as u64 }
    }
}

/// The summary of an ordered list of one player's match records.
#[derive(Debug)]
pub struct CruciblePlayerPerformances {
    pub performances: Vec<CruciblePlayerPerformance>,
    pub total_activities: u32,
    pub wins: u32,
    pub losses: u32,
    pub win_rate: Ratio,
    pub assists: u32,
    pub score: u32,
    pub kills: u32,
    pub deaths: u32,
    pub opponents_defeated: u32,
    pub efficiency: Ratio,
    pub kills_deaths_ratio: Ratio,
    pub kills_deaths_assists: Ratio,
    pub activity_duration_seconds: u32,
    pub time_played_seconds: u32,
    pub highest_assists: u32,
    pub highest_score: u32,
    pub highest_kills: u32,
    pub highest_deaths: u32,
    pub highest_opponents_defeated: u32,
    pub highest_efficiency: Ratio,
    pub highest_kills_deaths_ratio: Ratio,
    pub highest_kills_deaths_assists: Ratio,
    pub longest_win_streak: u32,
    pub longest_loss_streak: u32,
    pub extended: Option<ExtendedCruciblePlayerPerformances>,
}

impl CruciblePlayerPerformances {
    pub fn get_performances(&self) -> (r: &Vec<CruciblePlayerPerformance>)
        ensures
            r@ == self.performances@,
    {
        &self.performances
    }

    /// Summarises `performances`, taken in chronological order.
    pub fn with_performances(performances: Vec<CruciblePlayerPerformance>) -> (r:
        CruciblePlayerPerformances)
        requires
            totals_fit(performances@),
        ensures
            r.performances@ == performances@,
            r.total_activities == performances@.len(),
            r.wins == count_standing(performances@, Standing::Victory),
            r.losses == count_standing(performances@, Standing::Defeat),
            r.win_rate == spec_percent(r.wins, r.total_activities),
            r.assists == stat_total(performances@, Stat::Assists),
            r.score == stat_total(performances@, Stat::Score),
            r.kills == stat_total(performances@, Stat::Kills),
            r.deaths == stat_total(performances@, Stat::Deaths),
            r.opponents_defeated == stat_total(performances@, Stat::OpponentsDefeated),
            r.activity_duration_seconds == stat_total(
                performances@,
                Stat::ActivityDurationSeconds,
            ),
            r.time_played_seconds == stat_total(performances@, Stat::TimePlayedSeconds),
            r.efficiency == spec_efficiency(r.kills, r.deaths, r.assists),
            r.kills_deaths_ratio == spec_kills_deaths_ratio(r.kills, r.deaths),
            r.kills_deaths_assists == spec_kills_deaths_assists(r.kills, r.deaths, r.assists),
            r.highest_assists == stat_highest(performances@, Stat::Assists),
            r.highest_score == stat_highest(performances@, Stat::Score),
            r.highest_kills == stat_highest(performances@, Stat::Kills),
            r.highest_deaths == stat_highest(performances@, Stat::Deaths),
            r.highest_opponents_defeated == stat_highest(performances@, Stat::OpponentsDefeated),
            r.highest_efficiency == ratio_highest(performances@, RatioStat::Efficiency),
            r.highest_kills_deaths_ratio == ratio_highest(
                performances@,
                RatioStat::KillsDeathsRatio,
            ),
            r.highest_kills_deaths_assists == ratio_highest(
                performances@,
                RatioStat::KillsDeathsAssists,
            ),
            r.longest_win_streak == streak_of(standings(performances@)).longest_win,
            r.longest_loss_streak == streak_of(standings(performances@)).longest_loss,
            r.extended is Some <==> has_extended(performances@),
            r.extended matches Some(e) ==> {
                &&& is_extended_summary_of(e, performances@)
                &&& e.weapons@ == rank_sorted(weapon_table(performances@))
                &&& e.medals@ == rank_sorted(medal_table(performances@))
                &&& weapon_ids_unique(e.weapons@)
                &&& medal_ids_unique(e.medals@)
            },
    {
        let mut acc = Accumulator::new();
        let mut i: usize = 0;
        assert(performances@.take(0) =~= Seq::<CruciblePlayerPerformance>::empty());
        while i < performances.len()
            invariant
                i <= performances.len(),
                totals_fit(performances@),
                acc_inv(acc, performances@.take(i as int)),
            decreases performances.len() - i,
        {
            proof {
                assert(performances@.take(i + 1) =~= performances@.take(i as int).push(
                    performances@[i as int],
                ));
                lemma_totals_fit_prefix(performances@, i + 1);
            }
            acc.add(&performances[i], Ghost(performances@.take(i as int)));
            i = i + 1;
        }
        assert(performances@.take(i as int) =~= performances@);
        proof {
            lemma_ranked_weapons_unique(acc.ext.weapons@);
            lemma_ranked_medals_unique(acc.ext.medals@);
        }
        let total_activities = performances.len() as u32;
        let Accumulator { totals: t, outcomes: o, has_extended, ext } = acc;
        let extended = if has_extended {
            let ExtendedCruciblePlayerPerformances {
                precision_kills,
                weapon_kills_ability,
                weapon_kills_grenade,
                weapon_kills_melee,
                weapon_kills_super,
                all_medals_earned,
                highest_precision_kills,
                highest_weapon_kills_ability,
                highest_weapon_kills_grenade,
                highest_weapon_kills_melee,
                highest_weapon_kills_super,
                highest_all_medals_earned,
                weapons,
                medals,
            } = ext;
            Some(
                ExtendedCruciblePlayerPerformances {
                    precision_kills,
                    weapon_kills_ability,
                    weapon_kills_grenade,
                    weapon_kills_melee,
                    weapon_kills_super,
                    all_medals_earned,
                    highest_precision_kills,
                    highest_weapon_kills_ability,
                    highest_weapon_kills_grenade,
                    highest_weapon_kills_melee,
                    highest_weapon_kills_super,
                    highest_all_medals_earned,
                    weapons: sort_by_rank(weapons),
                    medals: sort_by_rank(medals),
                },
            )
        } else {
            None
        };
        CruciblePlayerPerformances {
            performances,
            total_activities,
            wins: o.wins,
            losses: o.losses,
            win_rate: percent(o.wins, total_activities),
            assists: t.assists,
            score: t.score,
            kills: t.kills,
            deaths: t.deaths,
            opponents_defeated: t.opponents_defeated,
            efficiency: calculate_efficiency(t.kills, t.deaths, t.assists),
            kills_deaths_ratio: calculate_kills_deaths_ratio(t.kills, t.deaths),
            kills_deaths_assists: calculate_kills_deaths_assists(t.kills, t.deaths, t.assists),
            activity_duration_seconds: t.activity_duration_seconds,
            time_played_seconds: t.time_played_seconds,
            highest_assists: t.highest_assists,
            highest_score: t.highest_score,
            highest_kills: t.highest_kills,
            highest_deaths: t.highest_deaths,
            highest_opponents_defeated: t.highest_opponents_defeated,
            highest_efficiency: t.highest_efficiency,
            highest_kills_deaths_ratio: t.highest_kills_deaths_ratio,
            highest_kills_deaths_assists: t.highest_kills_deaths_assists,
            longest_win_streak: o.streak.longest_win,
            longest_loss_streak: o.streak.longest_loss,
            extended,
        }
    }

    /// `value` divided by the number of matches, or zero when there are none.
    pub fn stat_per_game(&self, value: u32) -> (r: Ratio)
        ensures
            r == spec_per_game(value, self.total_activities),
    {
        if self.total_activities == 0 {
            return Ratio::zero();
        }
        Ratio { num: value as u64, den: self.total_activities as u64 }
    }
}

} // verus!
