use dcli::ratio::{
    calculate_efficiency, calculate_kills_deaths_assists, calculate_kills_deaths_ratio, percent,
    Ratio,
};
use dcli::selection::{parse_and_validate_mode, parse_and_validate_moment, Mode, Moment};
use dcli::streak::StreakTracker;
use dcli::model::Standing;

#[test]
fn crucible_modes_are_accepted() {
    assert_eq!(parse_and_validate_mode("all_pvp"), Ok(Mode::AllPvP));
    assert_eq!(parse_and_validate_mode("trials_of_osiris"), Ok(Mode::TrialsOfOsiris));
    assert_eq!(parse_and_validate_mode("quickplay"), Ok(Mode::PvPQuickplay));
}

#[test]
fn other_modes_are_refused() {
    assert_eq!(
        parse_and_validate_mode("raid"),
        Err("Unsupported mode specified : raid".to_string())
    );
    assert_eq!(parse_and_validate_mode("bogus"), Err("Unknown mode : bogus".to_string()));
    assert_eq!(Mode::from_name("patrol"), Ok(Mode::Patrol));
    assert!(!Mode::Gambit.is_crucible());
}

#[test]
fn moments_that_open_a_span_are_accepted() {
    assert_eq!(parse_and_validate_moment("weekly"), Ok(Moment::Weekly));
    assert_eq!(parse_and_validate_moment("all_time"), Ok(Moment::AllTime));
    assert_eq!(
        parse_and_validate_moment("next_xur"),
        Err("Unsupported moment specified : next_xur".to_string())
    );
    assert_eq!(parse_and_validate_moment("later"), Err("Unknown moment : later".to_string()));
}

#[test]
fn ratios_are_zero_without_deaths() {
    assert_eq!(calculate_efficiency(5, 0, 3), Ratio { num: 0, den: 1 });
    assert_eq!(calculate_kills_deaths_ratio(5, 0), Ratio { num: 0, den: 1 });
    assert_eq!(calculate_kills_deaths_assists(5, 0, 3), Ratio { num: 0, den: 1 });
    assert_eq!(calculate_efficiency(5, 2, 3), Ratio { num: 8, den: 2 });
    assert_eq!(calculate_kills_deaths_ratio(5, 2), Ratio { num: 5, den: 2 });
    assert_eq!(calculate_kills_deaths_assists(5, 2, 3), Ratio { num: 13, den: 4 });
    assert_eq!(percent(1, 3), Ratio { num: 100, den: 3 });
    assert_eq!(percent(1, 0), Ratio { num: 0, den: 1 });
}

#[test]
fn ratio_order_is_by_value() {
    let a = Ratio { num: 1, den: 2 };
    let b = Ratio { num: 2, den: 3 };
    assert!(a.lt(&b));
    assert!(!b.lt(&a));
    assert_eq!(a.max(b), b);
    assert!(!Ratio { num: 2, den: 4 }.lt(&a));
    assert!(Ratio { num: 5, den: 0 }.lt(&a));
}

#[test]
fn streak_tracker_follows_outcomes() {
    let mut t = StreakTracker::new();
    t.record(Standing::Defeat);
    t.record(Standing::Defeat);
    t.record(Standing::Unknown);
    t.record(Standing::Defeat);
    assert_eq!(t.longest_loss, 2);
    assert_eq!(t.streak, -1);
}
