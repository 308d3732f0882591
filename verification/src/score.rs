//! The five weighting factors and the fixed-point score computed from them.

use vstd::prelude::*;

verus! {

/// Symbolic base value of the score, before any damping.
pub const BASE_GCV: u64 = 314_159;

/// Fixed-point scale: the denominator of every damping step, and thereby the
/// largest value a factor may take.
pub const SCALE: u64 = 1000;

/// The five weighting factors, each in parts per thousand.
#[derive(Clone, Copy, Debug, PartialEq, Eq, Structural)]
pub struct GCVFactors {
    pub utility: u32,
    pub network: u32,
    pub trust: u32,
    pub contribution: u32,
    pub governance: u32,
}

impl GCVFactors {
    /// A set of factors is valid when none of them exceeds the scale. There is
    /// no partial validity: one factor out of range invalidates the set.
    pub open spec fn is_valid(self) -> bool {
        &&& self.utility <= SCALE
        &&& self.network <= SCALE
        &&& self.trust <= SCALE
        &&& self.contribution <= SCALE
        &&& self.governance <= SCALE
    }

    /// Whether at least one of the five factors is zero.
    pub open spec fn has_zero(self) -> bool {
        ||| self.utility == 0
        ||| self.network == 0
        ||| self.trust == 0
        ||| self.contribution == 0
        ||| self.governance == 0
    }
}

/// One damping step: the running value scaled by a factor in parts per
/// thousand, truncated towards zero.
pub open spec fn damp(value: nat, factor: nat) -> nat {
    (value * factor) / (SCALE as nat)
}

/// The score of a set of factors: the base value damped by each factor in the
/// order utility, network, trust, contribution, governance, truncating after
/// every step.
pub open spec fn gcv_score(f: GCVFactors) -> nat {
    let after_utility = damp(BASE_GCV as nat, f.utility as nat);
    let after_network = damp(after_utility, f.network as nat);
    let after_trust = damp(after_network, f.trust as nat);
    let after_contribution = damp(after_trust, f.contribution as nat);
    damp(after_contribution, f.governance as nat)
}

/// A damping step never increases the value when the factor is within the
/// scale, is the identity at the scale itself, and annihilates at zero.
pub proof fn lemma_damp(value: nat, factor: nat)
    ensures
        factor <= SCALE ==> value * factor <= value * SCALE && damp(value, factor) <= value,
        damp(value, SCALE as nat) == value,
        damp(value, 0) == 0,
        damp(0, factor) == 0,
{
    assert(factor <= 1000 ==> value * factor <= value * 1000 && (value * factor) / 1000 <= value)
        by (nonlinear_arith);
    assert((value * 1000) / 1000 == value) by (nonlinear_arith);
    assert(value * 0 == 0 && 0 * factor == 0) by (nonlinear_arith);
}

/// Checks that every factor lies within the scale.
pub fn validate_factors(f: &GCVFactors) -> (valid: bool)
    ensures
        valid == f.is_valid(),
{
    let max: u32 = 1000;
    f.utility <= max && f.network <= max && f.trust <= max && f.contribution <= max
        && f.governance <= max
}

/// Applies one factor to the running value.
fn apply_factor(value: u64, factor: u32) -> (damped: u64)
    requires
        value <= BASE_GCV,
        factor <= SCALE,
    ensures
        damped == damp(value as nat, factor as nat),
        damped <= value,
{
    proof {
        lemma_damp(value as nat, factor as nat);
    }
    value * (factor as u64) / SCALE
}

/// Computes the score of a valid set of factors with five sequential
/// multiply-then-truncate steps.
pub fn compute_gcv(f: &GCVFactors) -> (score: u64)
    requires
        f.is_valid(),
    ensures
        score == gcv_score(*f),
        score <= BASE_GCV,
{
    let mut value: u64 = BASE_GCV;
    value = apply_factor(value, f.utility);
    value = apply_factor(value, f.network);
    value = apply_factor(value, f.trust);
    value = apply_factor(value, f.contribution);
    value = apply_factor(value, f.governance);
    value
}

/// The score of valid factors never exceeds the base value.
pub proof fn lemma_score_bounded(f: GCVFactors)
    requires
        f.is_valid(),
    ensures
        gcv_score(f) <= BASE_GCV,
{
    let after_utility = damp(BASE_GCV as nat, f.utility as nat);
    let after_network = damp(after_utility, f.network as nat);
    let after_trust = damp(after_network, f.trust as nat);
    let after_contribution = damp(after_trust, f.contribution as nat);
    lemma_damp(BASE_GCV as nat, f.utility as nat);
    lemma_damp(after_utility, f.network as nat);
    lemma_damp(after_network, f.trust as nat);
    lemma_damp(after_trust, f.contribution as nat);
    lemma_damp(after_contribution, f.governance as nat);
}

/// With every factor at the scale, each step is the identity and the score is
/// the base value itself.
pub proof fn lemma_full_factors_score_base(f: GCVFactors)
    requires
        f.utility == SCALE,
        f.network == SCALE,
        f.trust == SCALE,
        f.contribution == SCALE,
        f.governance == SCALE,
    ensures
        gcv_score(f) == BASE_GCV,
{
    lemma_damp(BASE_GCV as nat, 0);
}

/// A factor at the scale leaves the score as if its step were skipped; in
/// particular a single factor below the scale damps the base value once.
pub proof fn lemma_single_factor(f: GCVFactors)
    ensures
        f.network == SCALE && f.trust == SCALE && f.contribution == SCALE && f.governance == SCALE
            ==> gcv_score(f) == damp(BASE_GCV as nat, f.utility as nat),
        f.utility == SCALE && f.trust == SCALE && f.contribution == SCALE && f.governance == SCALE
            ==> gcv_score(f) == damp(BASE_GCV as nat, f.network as nat),
        f.utility == SCALE && f.network == SCALE && f.contribution == SCALE && f.governance
            == SCALE ==> gcv_score(f) == damp(BASE_GCV as nat, f.trust as nat),
        f.utility == SCALE && f.network == SCALE && f.trust == SCALE && f.governance == SCALE
            ==> gcv_score(f) == damp(BASE_GCV as nat, f.contribution as nat),
        f.utility == SCALE && f.network == SCALE && f.trust == SCALE && f.contribution == SCALE
            ==> gcv_score(f) == damp(BASE_GCV as nat, f.governance as nat),
{
    lemma_damp(BASE_GCV as nat, 0);
    lemma_damp(damp(BASE_GCV as nat, f.utility as nat), 0);
    lemma_damp(damp(BASE_GCV as nat, f.network as nat), 0);
    lemma_damp(damp(BASE_GCV as nat, f.trust as nat), 0);
    lemma_damp(damp(BASE_GCV as nat, f.contribution as nat), 0);
}

/// A single zero factor brings the score to zero, whatever the other factors
/// are.
pub proof fn lemma_zero_factor_scores_zero(f: GCVFactors)
    requires
        f.has_zero(),
    ensures
        gcv_score(f) == 0,
{
    let after_utility = damp(BASE_GCV as nat, f.utility as nat);
    let after_network = damp(after_utility, f.network as nat);
    let after_trust = damp(after_network, f.trust as nat);
    let after_contribution = damp(after_trust, f.contribution as nat);
    lemma_damp(BASE_GCV as nat, f.utility as nat);
    lemma_damp(after_utility, f.network as nat);
    lemma_damp(after_network, f.trust as nat);
    lemma_damp(after_trust, f.contribution as nat);
    lemma_damp(after_contribution, f.governance as nat);
}

} // verus!
