//! # Sample win ratio (matched-pairs approach)
//!
//! The exact, count-based part of the analysis: the win and loss totals of a
//! set of matched pairs, the sample win ratio `Nw / Nl` and the proportion of
//! wins `Nw / (Nw + Nl)`, each kept as a fraction of counts together with the
//! sentinel that stands for a zero denominator.

use vstd::prelude::*;

verus! {

/// Number of matched pairs in each outcome category of a win-loss comparison.
#[derive(Debug, Clone, Copy, PartialEq, Eq, Structural)]
pub struct WinLossCounts {
    /// Na: the patient in the treatment group dies first (a loss).
    pub n_a: u32,
    /// Nb: the patient in the control group dies first (a win).
    pub n_b: u32,
    /// Nc: deaths are not comparable and the patient in the treatment group
    /// is hospitalized first (a loss).
    pub n_c: u32,
    /// Nd: deaths are not comparable and the patient in the control group
    /// is hospitalized first (a win).
    pub n_d: u32,
}

/// A non-negative rational number, `numerator / denominator`.
#[derive(Debug, Clone, Copy, PartialEq, Eq, Structural)]
pub struct Fraction {
    pub numerator: u64,
    pub denominator: u64,
}

impl WinLossCounts {
    /// Nw, the total number of wins.
    pub open spec fn spec_n_wins(self) -> int {
        self.n_b + self.n_d
    }

    /// Nl, the total number of losses.
    pub open spec fn spec_n_losses(self) -> int {
        self.n_a + self.n_c
    }

    /// Creates the counts of the four categories.
    pub fn new(n_a: u32, n_b: u32, n_c: u32, n_d: u32) -> (r: Self)
        ensures
            r.n_a == n_a,
            r.n_b == n_b,
            r.n_c == n_c,
            r.n_d == n_d,
    {
        WinLossCounts { n_a, n_b, n_c, n_d }
    }

    /// The total number of wins, `Nb + Nd`; it must fit in a `u32`.
    pub fn n_wins(&self) -> (r: u32)
        requires
            self.spec_n_wins() <= u32::MAX,
        ensures
            r == self.spec_n_wins(),
    {
        self.n_b + self.n_d
    }

    /// The total number of losses, `Na + Nc`; it must fit in a `u32`.
    pub fn n_losses(&self) -> (r: u32)
        requires
            self.spec_n_losses() <= u32::MAX,
        ensures
            r == self.spec_n_losses(),
    {
        self.n_a + self.n_c
    }
}

/// The sample win ratio `Nw / Nl`, or `None` when there are no losses
/// (the ratio is then unbounded).
pub open spec fn spec_sample_win_ratio(counts: WinLossCounts) -> Option<Fraction> {
    if counts.spec_n_losses() == 0 {
        None
    } else {
        Some(
            Fraction {
                numerator: counts.spec_n_wins() as u64,
                denominator: counts.spec_n_losses() as u64,
            },
        )
    }
}

/// The proportion of wins `n_w / (n_w + n_l)`, which is `0 / 1` when there
/// are no pairs at all.
pub open spec fn spec_win_proportion(n_w: u32, n_l: u32) -> Fraction {
    if n_w + n_l == 0 {
        Fraction { numerator: 0, denominator: 1 }
    } else {
        Fraction { numerator: n_w as u64, denominator: (n_w + n_l) as u64 }
    }
}

/// The sample win ratio `R = Nw / Nl = (Nb + Nd) / (Na + Nc)` as an exact
/// fraction; `None` stands for the unbounded ratio when `Nl == 0`.
pub fn exact_sample_win_ratio(counts: &WinLossCounts) -> (r: Option<Fraction>)
    ensures
        r == spec_sample_win_ratio(*counts),
        r is None <==> counts.spec_n_losses() == 0,
{
    let n_w: u64 = counts.n_b as u64 + counts.n_d as u64;
    let n_l: u64 = counts.n_a as u64 + counts.n_c as u64;
    if n_l == 0 {
        None
    } else {
        Some(Fraction { numerator: n_w, denominator: n_l })
    }
}

/// The proportion of wins `pw = Nw / (Nw + Nl)` as an exact fraction, with
/// `0 / 1` when both totals are zero.
pub fn exact_win_proportion(n_w: u32, n_l: u32) -> (r: Fraction)
    ensures
        r == spec_win_proportion(n_w, n_l),
        r.denominator > 0,
        r.numerator <= r.denominator,
{
    let total: u64 = n_w as u64 + n_l as u64;
    if total == 0 {
        Fraction { numerator: 0, denominator: 1 }
    } else {
        Fraction { numerator: n_w as u64, denominator: total }
    }
}

/// The win ratio is the odds of the win proportion: with at least one loss,
/// `pw / (1 - pw) == Nw / Nl`, here in cross-multiplied form over the exact
/// fractions. This is the transform that carries bounds on the proportion
/// over to bounds on the ratio.
pub proof fn lemma_win_ratio_is_odds_of_proportion(counts: WinLossCounts)
    requires
        counts.spec_n_wins() <= u32::MAX,
        counts.spec_n_losses() <= u32::MAX,
        counts.spec_n_losses() > 0,
    ensures
        ({
            let ratio = spec_sample_win_ratio(counts)->Some_0;
            let p = spec_win_proportion(
                counts.spec_n_wins() as u32,
                counts.spec_n_losses() as u32,
            );
            &&& spec_sample_win_ratio(counts) is Some
            &&& p.numerator * ratio.denominator == ratio.numerator * (p.denominator
                - p.numerator)
        }),
{
}

/// The totals, the exact win ratio and the exact win proportion depend on
/// their inputs alone: two evaluations on equal inputs give equal results.
pub proof fn lemma_results_depend_on_inputs_alone(
    a: WinLossCounts,
    b: WinLossCounts,
    n_w1: u32,
    n_l1: u32,
    n_w2: u32,
    n_l2: u32,
)
    requires
        a == b,
        n_w1 == n_w2,
        n_l1 == n_l2,
    ensures
        a.spec_n_wins() == b.spec_n_wins(),
        a.spec_n_losses() == b.spec_n_losses(),
        spec_sample_win_ratio(a) == spec_sample_win_ratio(b),
        spec_win_proportion(n_w1, n_l1) == spec_win_proportion(n_w2, n_l2),
{
}

} // verus!
