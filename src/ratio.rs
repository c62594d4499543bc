//! Exact non-negative rationals for the rates and ratios of a summary.
use vstd::prelude::*;

verus! {

/// A non-negative rational `num / den`; a zero denominator stands for the value zero.
#[derive(Clone, Copy, Debug, PartialEq, Eq, Structural)]
pub struct Ratio {
    pub num: u64,
    pub den: u64,
}

impl Ratio {
    /// Numerator of the value, with a zero denominator read as `0 / 1`.
    pub open spec fn spec_num(self) -> int {
        if self.den == 0 {
            0
        } else {
            self.num as int
        }
    }

    /// Denominator of the value, with a zero denominator read as `0 / 1`.
    pub open spec fn spec_den(self) -> int {
        if self.den == 0 {
            1
        } else {
            self.den as int
        }
    }

    /// `self` is strictly less than `other` as a rational number.
    pub open spec fn spec_lt(self, other: Ratio) -> bool {
        self.spec_num() * other.spec_den() < other.spec_num() * self.spec_den()
    }

    /// The larger of two values; the first is kept when neither is larger.
    pub open spec fn spec_max(self, other: Ratio) -> Ratio {
        if self.spec_lt(other) {
            other
        } else {
            self
        }
    }

    pub fn zero() -> (r: Ratio)
        ensures
            r == zero_ratio(),
    {
        Ratio { num: 0, den: 1 }
    }

    pub fn lt(&self, other: &Ratio) -> (r: bool)
        ensures
            r == self.spec_lt(*other),
    {
        let a: u128 = if self.den == 0 { 0 } else { self.num as u128 };
        let b: u128 = if self.den == 0 { 1 } else { self.den as u128 };
        let c: u128 = if other.den == 0 { 0 } else { other.num as u128 };
        let d: u128 = if other.den == 0 { 1 } else { other.den as u128 };
        proof {
            lemma_product_fits(a as int, d as int);
            lemma_product_fits(c as int, b as int);
        }
        a * d < c * b
    }

    pub fn max(self, other: Ratio) -> (r: Ratio)
        ensures
            r == self.spec_max(other),
    {
        if self.lt(&other) {
            other
        } else {
            self
        }
    }
}

pub open spec fn zero_ratio() -> Ratio {
    Ratio { num: 0, den: 1 }
}

proof fn lemma_product_fits(a: int, b: int)
    requires
        0 <= a <= u64::MAX,
        0 <= b <= u64::MAX,
    ensures
        0 <= a * b <= u128::MAX,
{
    assert(0 <= a * b <= u64::MAX * u64::MAX) by (nonlinear_arith)
        requires
            0 <= a <= u64::MAX,
            0 <= b <= u64::MAX,
    ;
}

/// `part / whole * 100`, or zero when `whole` is zero.
pub open spec fn spec_percent(part: u32, whole: u32) -> Ratio {
    if whole == 0 {
        zero_ratio()
    } else {
        Ratio { num: (part as u64 * 100) as u64, den: whole as u64 }
    }
}

/// `(kills + assists) / deaths`, or zero when `deaths` is zero.
pub open spec fn spec_efficiency(kills: u32, deaths: u32, assists: u32) -> Ratio {
    if deaths == 0 {
        zero_ratio()
    } else {
        Ratio { num: (kills as u64 + assists as u64) as u64, den: deaths as u64 }
    }
}

/// `kills / deaths`, or zero when `deaths` is zero.
pub open spec fn spec_kills_deaths_ratio(kills: u32, deaths: u32) -> Ratio {
    if deaths == 0 {
        zero_ratio()
    } else {
        Ratio { num: kills as u64, den: deaths as u64 }
    }
}

/// `(kills + assists / 2) / deaths`, or zero when `deaths` is zero.
pub open spec fn spec_kills_deaths_assists(kills: u32, deaths: u32, assists: u32) -> Ratio {
    if deaths == 0 {
        zero_ratio()
    } else {
        Ratio { num: (2 * kills as u64 + assists as u64) as u64, den: (2 * deaths as u64) as u64 }
    }
}

pub fn percent(part: u32, whole: u32) -> (r: Ratio)
    ensures
        r == spec_percent(part, whole),
{
    if whole == 0 {
        Ratio::zero()
    } else {
        Ratio { num: part as u64 * 100, den: whole as u64 }
    }
}

pub fn calculate_efficiency(kills: u32, deaths: u32, assists: u32) -> (r: Ratio)
    ensures
        r == spec_efficiency(kills, deaths, assists),
{
    if deaths == 0 {
        Ratio::zero()
    } else {
        Ratio { num: kills as u64 + assists as u64, den: deaths as u64 }
    }
}

pub fn calculate_kills_deaths_ratio(kills: u32, deaths: u32) -> (r: Ratio)
    ensures
        r == spec_kills_deaths_ratio(kills, deaths),
{
    if deaths == 0 {
        Ratio::zero()
    } else {
        Ratio { num: kills as u64, den: deaths as u64 }
    }
}

pub fn calculate_kills_deaths_assists(kills: u32, deaths: u32, assists: u32) -> (r: Ratio)
    ensures
        r == spec_kills_deaths_assists(kills, deaths, assists),
{
    if deaths == 0 {
        Ratio::zero()
    } else {
        Ratio { num: 2 * kills as u64 + assists as u64, den: 2 * deaths as u64 }
    }
}

} // verus!
