use dcli::model::{
    ActivityDetail, CruciblePlayerPerformance, CrucibleStats, ExtendedCrucibleStats, Item, Medal,
    MedalStat, Platform, Player, Standing, WeaponStat,
};
use dcli::ratio::Ratio;
use dcli::selection::Mode;
use dcli::summary::CruciblePlayerPerformances;

fn ratio(num: u64, den: u64) -> Ratio {
    Ratio { num, den }
}

fn value(r: Ratio) -> f64 {
    if r.den == 0 {
        0.0
    } else {
        r.num as f64 / r.den as f64
    }
}

fn record(kills: u32, deaths: u32, assists: u32, standing: Standing) -> CruciblePlayerPerformance {
    CruciblePlayerPerformance {
        player: Player {
            member_id: "4611686018429783292".to_string(),
            character_id: "2305843009264966985".to_string(),
            platform: Platform::Xbox,
        },
        activity_detail: ActivityDetail {
            id: 7_000_000_001,
            period: 1_609_459_200,
            map_name: "Javelin-4".to_string(),
            mode: Mode::Control,
            platform: Platform::Xbox,
            director_activity_hash: 2_000_000_001,
            reference_id: 3_000_000_001,
        },
        stats: CrucibleStats {
            assists,
            score: kills * 100,
            kills,
            deaths,
            average_score_per_kill: ratio(100, 1),
            average_score_per_life: ratio(0, 1),
            completed: 1,
            opponents_defeated: kills + assists,
            efficiency: dcli::ratio::calculate_efficiency(kills, deaths, assists),
            kills_deaths_ratio: dcli::ratio::calculate_kills_deaths_ratio(kills, deaths),
            kills_deaths_assists: dcli::ratio::calculate_kills_deaths_assists(kills, deaths, assists),
            activity_duration_seconds: 600,
            standing,
            team: 17,
            completion_reason: 0,
            start_seconds: 0,
            time_played_seconds: 590,
            player_count: 12,
            team_score: 100,
            extended: None,
        },
    }
}

fn weapon(id: u32, kills: u32, precision_kills: u32) -> WeaponStat {
    WeaponStat {
        weapon: Item {
            id,
            name: format!("weapon {}", id),
            description: String::new(),
            item_type: 3,
            item_sub_type: 6,
        },
        kills,
        precision_kills,
        precision_kills_percent: dcli::ratio::percent(precision_kills, kills),
        activity_count: 1,
    }
}

fn medal(id: &str, count: u32) -> MedalStat {
    MedalStat {
        medal: Medal {
            id: id.to_string(),
            icon_image_path: None,
            tier: 1,
            name: id.to_string(),
            description: String::new(),
        },
        count,
    }
}

fn extended(weapons: Vec<WeaponStat>, medals: Vec<MedalStat>) -> ExtendedCrucibleStats {
    ExtendedCrucibleStats {
        precision_kills: 1,
        weapon_kills_ability: 1,
        weapon_kills_grenade: 2,
        weapon_kills_melee: 3,
        weapon_kills_super: 4,
        all_medals_earned: 5,
        weapons,
        medals,
    }
}

fn with_standings(standings: &[Standing]) -> Vec<CruciblePlayerPerformance> {
    standings.iter().map(|s| record(1, 1, 1, *s)).collect()
}

#[test]
fn empty_input_gives_zero_summary() {
    let s = CruciblePlayerPerformances::with_performances(Vec::new());
    assert_eq!(s.total_activities, 0);
    assert_eq!(value(s.win_rate), 0.0);
    assert_eq!(s.wins, 0);
    assert_eq!(s.losses, 0);
    assert!(s.extended.is_none());
    assert_eq!(s.longest_win_streak, 0);
    assert_eq!(s.longest_loss_streak, 0);
    assert_eq!(value(s.efficiency), 0.0);
    assert!(s.get_performances().is_empty());
}

#[test]
fn sums_and_maxima_over_records() {
    let recs = vec![
        record(10, 5, 2, Standing::Victory),
        record(3, 8, 7, Standing::Defeat),
        record(15, 2, 1, Standing::Victory),
    ];
    let s = CruciblePlayerPerformances::with_performances(recs);
    assert_eq!(s.kills, 28);
    assert_eq!(s.deaths, 15);
    assert_eq!(s.assists, 10);
    assert_eq!(s.score, 2800);
    assert_eq!(s.opponents_defeated, 38);
    assert_eq!(s.activity_duration_seconds, 1800);
    assert_eq!(s.time_played_seconds, 1770);
    assert_eq!(s.highest_kills, 15);
    assert_eq!(s.highest_deaths, 8);
    assert_eq!(s.highest_assists, 7);
    assert_eq!(s.highest_score, 1500);
    assert_eq!(s.highest_opponents_defeated, 16);
    assert_eq!(value(s.highest_kills_deaths_ratio), 7.5);
    assert_eq!(value(s.highest_efficiency), 8.0);
    assert_eq!(value(s.highest_kills_deaths_assists), 7.75);
    assert_eq!(s.get_performances().len(), 3);
    assert_eq!(s.get_performances()[1].stats.kills, 3);
}

#[test]
fn aggregate_ratios_come_from_totals() {
    let recs = vec![record(10, 5, 2, Standing::Victory), record(2, 1, 0, Standing::Defeat)];
    let s = CruciblePlayerPerformances::with_performances(recs);
    // from totals 12 / 6 / 2, not from averaging 2.0 and 2.0
    assert_eq!(value(s.kills_deaths_ratio), 2.0);
    assert!((value(s.efficiency) - 14.0 / 6.0).abs() < 1e-9);
    assert!((value(s.kills_deaths_assists) - 13.0 / 6.0).abs() < 1e-9);
}

#[test]
fn win_rate_of_seven_in_ten() {
    let mut st = vec![Standing::Victory; 7];
    st.extend(vec![Standing::Defeat; 3]);
    let s = CruciblePlayerPerformances::with_performances(with_standings(&st));
    assert_eq!(s.total_activities, 10);
    assert_eq!(s.wins, 7);
    assert_eq!(s.losses, 3);
    assert_eq!(value(s.win_rate), 70.0);
}

#[test]
fn streaks_of_wins_and_losses() {
    let s = CruciblePlayerPerformances::with_performances(with_standings(&[
        Standing::Victory, Standing::Victory, Standing::Defeat, Standing::Victory, Standing::Victory, Standing::Victory,
    ]));
    assert_eq!(s.longest_win_streak, 3);
    assert_eq!(s.longest_loss_streak, 1);
}

#[test]
fn unknown_standing_stops_a_run() {
    let s = CruciblePlayerPerformances::with_performances(with_standings(&[
        Standing::Victory, Standing::Victory, Standing::Unknown, Standing::Victory,
    ]));
    assert_eq!(s.longest_win_streak, 2);
    assert_eq!(s.wins, 3);
    assert_eq!(s.losses, 0);
}

#[test]
fn losing_runs_are_counted() {
    let s = CruciblePlayerPerformances::with_performances(with_standings(&[
        Standing::Defeat, Standing::Defeat, Standing::Defeat, Standing::Victory, Standing::Defeat,
    ]));
    assert_eq!(s.longest_loss_streak, 3);
    assert_eq!(s.longest_win_streak, 1);
}

#[test]
fn zero_medal_count_counts_as_one() {
    let mut a = record(1, 1, 1, Standing::Victory);
    a.stats.extended = Some(extended(vec![], vec![medal("medal_a", 0)]));
    let s = CruciblePlayerPerformances::with_performances(vec![a]);
    let e = s.extended.unwrap();
    assert_eq!(e.medals.len(), 1);
    assert_eq!(e.medals[0].count, 1);

    let mut a = record(1, 1, 1, Standing::Victory);
    a.stats.extended = Some(extended(vec![], vec![medal("medal_a", 0)]));
    let mut b = record(1, 1, 1, Standing::Victory);
    b.stats.extended = Some(extended(vec![], vec![medal("medal_a", 0)]));
    let s = CruciblePlayerPerformances::with_performances(vec![a, b]);
    let e = s.extended.unwrap();
    assert_eq!(e.medals.len(), 1);
    assert_eq!(e.medals[0].count, 2);
}

#[test]
fn same_weapon_merges_into_one_entry() {
    let mut a = record(3, 1, 0, Standing::Victory);
    a.stats.extended = Some(extended(vec![weapon(1234, 3, 1)], vec![]));
    let mut b = record(3, 1, 0, Standing::Defeat);
    b.stats.extended = Some(extended(vec![weapon(1234, 3, 1)], vec![]));
    let s = CruciblePlayerPerformances::with_performances(vec![a, b]);
    let e = s.extended.unwrap();
    assert_eq!(e.weapons.len(), 1);
    let w = &e.weapons[0];
    assert_eq!(w.weapon.id, 1234);
    assert_eq!(w.kills, 6);
    assert_eq!(w.precision_kills, 2);
    assert_eq!(w.activity_count, 2);
    assert!((value(w.precision_kills_percent) - 33.33).abs() < 0.01);
}

#[test]
fn merged_lists_are_ranked_largest_first() {
    let mut a = record(3, 1, 0, Standing::Victory);
    a.stats.extended = Some(extended(
        vec![weapon(1, 2, 0), weapon(2, 9, 3), weapon(3, 2, 1)],
        vec![medal("a", 1), medal("b", 4)],
    ));
    let mut b = record(3, 1, 0, Standing::Victory);
    b.stats.extended = Some(extended(vec![weapon(1, 8, 0)], vec![medal("a", 2), medal("c", 3)]));
    let s = CruciblePlayerPerformances::with_performances(vec![a, b]);
    let e = s.extended.unwrap();
    let ids: Vec<u32> = e.weapons.iter().map(|w| w.weapon.id).collect();
    assert_eq!(ids, vec![1, 2, 3]);
    assert_eq!(e.weapons[0].kills, 10);
    let medals: Vec<(String, u32)> = e.medals.iter().map(|m| (m.medal.id.clone(), m.count)).collect();
    // "a" (3) and "c" (3) tie: the first to appear comes first
    assert_eq!(
        medals,
        vec![("b".to_string(), 4), ("a".to_string(), 3), ("c".to_string(), 3)]
    );
}

#[test]
fn single_weapon_entry_is_kept_as_given() {
    let mut w = weapon(5, 4, 1);
    w.precision_kills_percent = ratio(999, 1);
    w.activity_count = 3;
    let mut a = record(3, 1, 0, Standing::Victory);
    a.stats.extended = Some(extended(vec![w], vec![]));
    let s = CruciblePlayerPerformances::with_performances(vec![a]);
    let e = s.extended.unwrap();
    assert_eq!(e.weapons[0].precision_kills_percent, ratio(999, 1));
    assert_eq!(e.weapons[0].activity_count, 3);
}

#[test]
fn extended_absent_without_detail() {
    let recs = vec![record(4, 2, 1, Standing::Victory), record(6, 3, 0, Standing::Defeat)];
    let s = CruciblePlayerPerformances::with_performances(recs);
    assert!(s.extended.is_none());
    assert_eq!(s.kills, 10);
    assert_eq!(s.deaths, 5);
}

#[test]
fn extended_sums_skip_records_without_detail() {
    let mut a = record(4, 2, 1, Standing::Victory);
    a.stats.extended = Some(extended(vec![], vec![]));
    let b = record(6, 3, 0, Standing::Defeat);
    let mut c = record(1, 1, 1, Standing::Victory);
    let mut x = extended(vec![], vec![]);
    x.weapon_kills_melee = 7;
    x.precision_kills = 4;
    c.stats.extended = Some(x);
    let s = CruciblePlayerPerformances::with_performances(vec![a, b, c]);
    let e = s.extended.unwrap();
    assert_eq!(e.weapon_kills_melee, 10);
    assert_eq!(e.highest_weapon_kills_melee, 7);
    assert_eq!(e.precision_kills, 5);
    assert_eq!(e.highest_precision_kills, 4);
    assert_eq!(e.weapon_kills_super, 8);
    assert_eq!(e.highest_weapon_kills_super, 4);
    assert_eq!(e.all_medals_earned, 10);
    assert_eq!(s.kills, 11);
}

#[test]
fn stat_per_game_divides_by_matches() {
    let s = CruciblePlayerPerformances::with_performances(with_standings(&[
        Standing::Victory,
        Standing::Defeat,
        Standing::Victory,
        Standing::Victory,
    ]));
    assert_eq!(value(s.stat_per_game(10)), 2.5);
    let e = CruciblePlayerPerformances::with_performances(Vec::new());
    assert_eq!(value(e.stat_per_game(10)), 0.0);
}
