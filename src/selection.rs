//! Game modes and time moments, and the checks on which of them a query accepts.
use vstd::prelude::*;

verus! {

fn text_is(s: &String, lit: &str) -> (r: bool)
    ensures
        r == (s@ == lit@),
{
    let l = lit.to_owned();
    *s == l
}

/// An activity mode that matches can be filtered by.
#[derive(Clone, Copy, Debug, PartialEq, Eq, Structural)]
pub enum Mode {
    Unspecified,
    Story,
    Strike,
    Raid,
    AllPvP,
    Patrol,
    AllPvE,
    Control,
    Clash,
    CrimsonDoubles,
    Nightfall,
    IronBanner,
    Mayhem,
    Supremacy,
    PrivateMatchesAll,
    Survival,
    Countdown,
    TrialsOfTheNine,
    Doubles,
    AllDoubles,
    PrivateMatchesClash,
    PrivateMatchesControl,
    PrivateMatchesSurvival,
    PrivateMatchesRumble,
    Showdown,
    Lockdown,
    Scorched,
    ScorchedTeam,
    Gambit,
    Breakthrough,
    ClashQuickplay,
    Rumble,
    Elimination,
    PvPCompetitive,
    PvPQuickplay,
    TrialsOfOsiris,
}

impl Mode {
    /// The name by which the value is given on a command line.
    pub open spec fn spec_name(self) -> Seq<char> {
        match self {
            Mode::Unspecified => "none"@,
            Mode::Story => "story"@,
            Mode::Strike => "strike"@,
            Mode::Raid => "raid"@,
            Mode::AllPvP => "all_pvp"@,
            Mode::Patrol => "patrol"@,
            Mode::AllPvE => "all_pve"@,
            Mode::Control => "control"@,
            Mode::Clash => "clash"@,
            Mode::CrimsonDoubles => "crimson_doubles"@,
            Mode::Nightfall => "nightfall"@,
            Mode::IronBanner => "iron_banner"@,
            Mode::Mayhem => "mayhem"@,
            Mode::Supremacy => "supremacy"@,
            Mode::PrivateMatchesAll => "private"@,
            Mode::Survival => "survival"@,
            Mode::Countdown => "countdown"@,
            Mode::TrialsOfTheNine => "trials_of_the_nine"@,
            Mode::Doubles => "doubles"@,
            Mode::AllDoubles => "all_doubles"@,
            Mode::PrivateMatchesClash => "private_clash"@,
            Mode::PrivateMatchesControl => "private_control"@,
            Mode::PrivateMatchesSurvival => "private_survival"@,
            Mode::PrivateMatchesRumble => "private_rumble"@,
            Mode::Showdown => "showdown"@,
            Mode::Lockdown => "lockdown"@,
            Mode::Scorched => "scorched"@,
            Mode::ScorchedTeam => "scorched_team"@,
            Mode::Gambit => "gambit"@,
            Mode::Breakthrough => "breakthrough"@,
            Mode::ClashQuickplay => "clash_quickplay"@,
            Mode::Rumble => "rumble"@,
            Mode::Elimination => "elimination"@,
            Mode::PvPCompetitive => "pvp_competitive"@,
            Mode::PvPQuickplay => "quickplay"@,
            Mode::TrialsOfOsiris => "trials_of_osiris"@,
        }
    }

    /// The mode is one of player-versus-player play.
    pub open spec fn spec_is_crucible(self) -> bool {
        match self {
            Mode::AllPvP
            | Mode::Control
            | Mode::Clash
            | Mode::CrimsonDoubles
            | Mode::IronBanner
            | Mode::Mayhem
            | Mode::Supremacy
            | Mode::PrivateMatchesAll
            | Mode::Survival
            | Mode::Countdown
            | Mode::TrialsOfTheNine
            | Mode::Doubles
            | Mode::AllDoubles
            | Mode::PrivateMatchesClash
            | Mode::PrivateMatchesControl
            | Mode::PrivateMatchesSurvival
            | Mode::PrivateMatchesRumble
            | Mode::Showdown
            | Mode::Lockdown
            | Mode::Scorched
            | Mode::ScorchedTeam
            | Mode::Breakthrough
            | Mode::ClashQuickplay
            | Mode::Rumble
            | Mode::Elimination
            | Mode::PvPCompetitive
            | Mode::PvPQuickplay
            | Mode::TrialsOfOsiris => true,
            _ => false,
        }
    }

    /// Reads a value from its name.
    pub fn from_name(src: &str) -> (r: Result<Mode, String>)
        ensures
            match r {
                Ok(v) => v.spec_name() == src@,
                Err(e) => (forall|v: Mode| v.spec_name() != src@) && e@ == "Unknown mode : "@ + src@,
            },
    {
        let s = src.to_owned();
        if text_is(&s, "none") {
            return Ok(Mode::Unspecified);
        }
        if text_is(&s, "story") {
            return Ok(Mode::Story);
        }
        if text_is(&s, "strike") {
            return Ok(Mode::Strike);
        }
        if text_is(&s, "raid") {
            return Ok(Mode::Raid);
        }
        if text_is(&s, "all_pvp") {
            return Ok(Mode::AllPvP);
        }
        if text_is(&s, "patrol") {
            return Ok(Mode::Patrol);
        }
        if text_is(&s, "all_pve") {
            return Ok(Mode::AllPvE);
        }
        if text_is(&s, "control") {
            return Ok(Mode::Control);
        }
        if text_is(&s, "clash") {
            return Ok(Mode::Clash);
        }
        if text_is(&s, "crimson_doubles") {
            return Ok(Mode::CrimsonDoubles);
        }
        if text_is(&s, "nightfall") {
            return Ok(Mode::Nightfall);
        }
        if text_is(&s, "iron_banner") {
            return Ok(Mode::IronBanner);
        }
        if text_is(&s, "mayhem") {
            return Ok(Mode::Mayhem);
        }
        if text_is(&s, "supremacy") {
            return Ok(Mode::Supremacy);
        }
        if text_is(&s, "private") {
            return Ok(Mode::PrivateMatchesAll);
        }
        if text_is(&s, "survival") {
            return Ok(Mode::Survival);
        }
        if text_is(&s, "countdown") {
            return Ok(Mode::Countdown);
        }
        if text_is(&s, "trials_of_the_nine") {
            return Ok(Mode::TrialsOfTheNine);
        }
        if text_is(&s, "doubles") {
            return Ok(Mode::Doubles);
        }
        if text_is(&s, "all_doubles") {
            return Ok(Mode::AllDoubles);
        }
        if text_is(&s, "private_clash") {
            return Ok(Mode::PrivateMatchesClash);
        }
        if text_is(&s, "private_control") {
            return Ok(Mode::PrivateMatchesControl);
        }
        if text_is(&s, "private_survival") {
            return Ok(Mode::PrivateMatchesSurvival);
        }
        if text_is(&s, "private_rumble") {
            return Ok(Mode::PrivateMatchesRumble);
        }
        if text_is(&s, "showdown") {
            return Ok(Mode::Showdown);
        }
        if text_is(&s, "lockdown") {
            return Ok(Mode::Lockdown);
        }
        if text_is(&s, "scorched") {
            return Ok(Mode::Scorched);
        }
        if text_is(&s, "scorched_team") {
            return Ok(Mode::ScorchedTeam);
        }
        if text_is(&s, "gambit") {
            return Ok(Mode::Gambit);
        }
        if text_is(&s, "breakthrough") {
            return Ok(Mode::Breakthrough);
        }
        if text_is(&s, "clash_quickplay") {
            return Ok(Mode::ClashQuickplay);
        }
        if text_is(&s, "rumble") {
            return Ok(Mode::Rumble);
        }
        if text_is(&s, "elimination") {
            return Ok(Mode::Elimination);
        }
        if text_is(&s, "pvp_competitive") {
            return Ok(Mode::PvPCompetitive);
        }
        if text_is(&s, "quickplay") {
            return Ok(Mode::PvPQuickplay);
        }
        if text_is(&s, "trials_of_osiris") {
            return Ok(Mode::TrialsOfOsiris);
        }
        let mut e = "Unknown mode : ".to_owned();
        e.append(src);
        Err(e)
    }

    pub fn is_crucible(&self) -> (r: bool)
        ensures
            r == self.spec_is_crucible(),
    {
        match self {
            Mode::AllPvP
            | Mode::Control
            | Mode::Clash
            | Mode::CrimsonDoubles
            | Mode::IronBanner
            | Mode::Mayhem
            | Mode::Supremacy
            | Mode::PrivateMatchesAll
            | Mode::Survival
            | Mode::Countdown
            | Mode::TrialsOfTheNine
            | Mode::Doubles
            | Mode::AllDoubles
            | Mode::PrivateMatchesClash
            | Mode::PrivateMatchesControl
            | Mode::PrivateMatchesSurvival
            | Mode::PrivateMatchesRumble
            | Mode::Showdown
            | Mode::Lockdown
            | Mode::Scorched
            | Mode::ScorchedTeam
            | Mode::Breakthrough
            | Mode::ClashQuickplay
            | Mode::Rumble
            | Mode::Elimination
            | Mode::PvPCompetitive
            | Mode::PvPQuickplay
            | Mode::TrialsOfOsiris => true,
            _ => false,
        }
    }
}

/// A point in time from which matches can be selected.
#[derive(Clone, Copy, Debug, PartialEq, Eq, Structural)]
pub enum Moment {
    Now,
    CurrentDaily,
    NextDaily,
    CurrentWeekly,
    NextWeekly,
    CurrentXur,
    NextXur,
    CurrentTrials,
    NextTrials,
    Daily,
    Weekend,
    Weekly,
    Day,
    Week,
    Month,
    AllTime,
    Custom,
}

impl Moment {
    /// The name by which the value is given on a command line.
    pub open spec fn spec_name(self) -> Seq<char> {
        match self {
            Moment::Now => "now"@,
            Moment::CurrentDaily => "current_daily"@,
            Moment::NextDaily => "next_daily"@,
            Moment::CurrentWeekly => "current_weekly"@,
            Moment::NextWeekly => "next_weekly"@,
            Moment::CurrentXur => "current_xur"@,
            Moment::NextXur => "next_xur"@,
            Moment::CurrentTrials => "current_trials"@,
            Moment::NextTrials => "next_trials"@,
            Moment::Daily => "daily"@,
            Moment::Weekend => "weekend"@,
            Moment::Weekly => "weekly"@,
            Moment::Day => "day"@,
            Moment::Week => "week"@,
            Moment::Month => "month"@,
            Moment::AllTime => "all_time"@,
            Moment::Custom => "custom"@,
        }
    }

    /// The moment can open a span of matches to summarise.
    pub open spec fn spec_is_span_start(self) -> bool {
        match self {
            Moment::Daily
            | Moment::Weekend
            | Moment::Weekly
            | Moment::Day
            | Moment::Week
            | Moment::Month
            | Moment::AllTime
            | Moment::Custom => true,
            _ => false,
        }
    }

    /// Reads a value from its name.
    pub fn from_name(src: &str) -> (r: Result<Moment, String>)
        ensures
            match r {
                Ok(v) => v.spec_name() == src@,
                Err(e) => (forall|v: Moment| v.spec_name() != src@) && e@ == "Unknown moment : "@ + src@,
            },
    {
        let s = src.to_owned();
        if text_is(&s, "now") {
            return Ok(Moment::Now);
        }
        if text_is(&s, "current_daily") {
            return Ok(Moment::CurrentDaily);
        }
        if text_is(&s, "next_daily") {
            return Ok(Moment::NextDaily);
        }
        if text_is(&s, "current_weekly") {
            return Ok(Moment::CurrentWeekly);
        }
        if text_is(&s, "next_weekly") {
            return Ok(Moment::NextWeekly);
        }
        if text_is(&s, "current_xur") {
            return Ok(Moment::CurrentXur);
        }
        if text_is(&s, "next_xur") {
            return Ok(Moment::NextXur);
        }
        if text_is(&s, "current_trials") {
            return Ok(Moment::CurrentTrials);
        }
        if text_is(&s, "next_trials") {
            return Ok(Moment::NextTrials);
        }
        if text_is(&s, "daily") {
            return Ok(Moment::Daily);
        }
        if text_is(&s, "weekend") {
            return Ok(Moment::Weekend);
        }
        if text_is(&s, "weekly") {
            return Ok(Moment::Weekly);
        }
        if text_is(&s, "day") {
            return Ok(Moment::Day);
        }
        if text_is(&s, "week") {
            return Ok(Moment::Week);
        }
        if text_is(&s, "month") {
            return Ok(Moment::Month);
        }
        if text_is(&s, "all_time") {
            return Ok(Moment::AllTime);
        }
        if text_is(&s, "custom") {
            return Ok(Moment::Custom);
        }
        let mut e = "Unknown moment : ".to_owned();
        e.append(src);
        Err(e)
    }
}

/// Reads a mode and accepts it only where it is a player-versus-player mode.
pub fn parse_and_validate_mode(src: &str) -> (r: Result<Mode, String>)
    ensures
        match r {
            Ok(m) => m.spec_name() == src@ && m.spec_is_crucible(),
            Err(e) => ((forall|m: Mode| m.spec_name() != src@) && e@ == "Unknown mode : "@ + src@)
                || (exists|m: Mode|
                m.spec_name() == src@ && !m.spec_is_crucible() && e@
                    == "Unsupported mode specified : "@ + src@),
        },
{
    let mode = Mode::from_name(src)?;
    if !mode.is_crucible() {
        let mut e = "Unsupported mode specified : ".to_owned();
        e.append(src);
        return Err(e);
    }
    Ok(mode)
}

/// Reads a moment and accepts it only where it can open a span of matches.
pub fn parse_and_validate_moment(src: &str) -> (r: Result<Moment, String>)
    ensures
        match r {
            Ok(m) => m.spec_name() == src@ && m.spec_is_span_start(),
            Err(e) => ((forall|m: Moment| m.spec_name() != src@) && e@ == "Unknown moment : "@ + src@)
                || (exists|m: Moment|
                m.spec_name() == src@ && !m.spec_is_span_start() && e@
                    == "Unsupported moment specified : "@ + src@),
        },
{
    let moment = Moment::from_name(src)?;
    match moment {
        Moment::Daily | Moment::Weekend | Moment::Weekly | Moment::Day | Moment::Week
        | Moment::Month | Moment::AllTime | Moment::Custom => {},
        _ => {
            let mut e = "Unsupported moment specified : ".to_owned();
            e.append(src);
            return Err(e);
        },
    }
    Ok(moment)
}

} // verus!
