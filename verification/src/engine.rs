//! The request pipeline: decode, guard, validate, score.

use vstd::prelude::*;

use crate::context::{decode, spec_decode, Epoch, UsageContext};
use crate::error::GcvError;
use crate::guard::{epoch_guard, verdict, GuardResult};
use crate::score::{compute_gcv, gcv_score, lemma_score_bounded, validate_factors, GCVFactors};
use crate::score::{lemma_full_factors_score_base, lemma_zero_factor_scores_zero, BASE_GCV, SCALE};

verus! {

/// The outcome of an accepted request.
pub open spec fn accepted(score: nat) -> Result<nat, GcvError> {
    Ok(score)
}

/// The outcome of a request rejected with `error`.
pub open spec fn rejected(error: GcvError) -> Result<nat, GcvError> {
    Err(error)
}

/// The outcome of a request, stage by stage: a decode error if either code is
/// unknown; otherwise a policy denial if the guard denies the pair; otherwise
/// a validation error if a factor is out of range; otherwise the score.
pub open spec fn evaluation(epoch_code: u32, context_code: u32, factors: GCVFactors) -> Result<
    nat,
    GcvError,
> {
    match spec_decode(epoch_code, context_code) {
        Err(error) => rejected(error),
        Ok((epoch, context)) => if verdict(epoch, context) is Deny {
            rejected(GcvError::PolicyDenied)
        } else if !factors.is_valid() {
            rejected(GcvError::ValidationError)
        } else {
            accepted(gcv_score(factors))
        },
    }
}

/// What the scalar entry point returns: the score of an accepted request, and
/// the sentinel 0 for a request rejected for any reason.
pub open spec fn guarded_gcv(epoch_code: u32, context_code: u32, factors: GCVFactors) -> nat {
    match evaluation(epoch_code, context_code, factors) {
        Ok(score) => score,
        Err(_) => 0,
    }
}

/// Runs a request through the pipeline and reports either its score or the
/// stage that rejected it.
pub fn evaluate_gcv(epoch_code: u32, context_code: u32, factors: &GCVFactors) -> (outcome: Result<
    u64,
    GcvError,
>)
    ensures
        outcome matches Ok(score) ==> evaluation(epoch_code, context_code, *factors) == accepted(
            score as nat,
        ),
        outcome matches Err(error) ==> evaluation(epoch_code, context_code, *factors) == rejected(
            error,
        ),
{
    let (epoch, context) = match decode(epoch_code, context_code) {
        Ok(decoded) => decoded,
        Err(error) => return Err(error),
    };
    match epoch_guard(epoch, context) {
        GuardResult::Deny => return Err(GcvError::PolicyDenied),
        GuardResult::Allow | GuardResult::Flag => {},
    }
    if !validate_factors(factors) {
        return Err(GcvError::ValidationError);
    }
    Ok(compute_gcv(factors))
}

/// The scalar entry point: seven plain integers in, one out. Returns the
/// score of an accepted request and 0 for a rejected one; a request whose
/// score is legitimately 0 cannot be told from a rejected one here (use
/// [`evaluate_gcv`] for that).
pub fn calculate_gcv_epoch_guarded(
    epoch_code: u32,
    context_code: u32,
    utility: u32,
    network: u32,
    trust: u32,
    contribution: u32,
    governance: u32,
) -> (result: u64)
    ensures
        result == guarded_gcv(
            epoch_code,
            context_code,
            (GCVFactors { utility, network, trust, contribution, governance }),
        ),
        result <= BASE_GCV,
{
    let factors = GCVFactors { utility, network, trust, contribution, governance };
    proof {
        lemma_guarded_gcv_bounded(epoch_code, context_code, factors);
    }
    match evaluate_gcv(epoch_code, context_code, &factors) {
        Ok(score) => score,
        Err(_) => 0,
    }
}

/// A request is accepted exactly when both codes decode, the guard does not
/// deny the decoded pair, and the factors are valid; each rejection names the
/// first stage that failed.
pub proof fn lemma_evaluation_stages(epoch_code: u32, context_code: u32, factors: GCVFactors)
    ensures
        evaluation(epoch_code, context_code, factors) == rejected(GcvError::DecodeError)
            <==> epoch_code >= 3 || context_code >= 4,
        evaluation(epoch_code, context_code, factors) == rejected(GcvError::PolicyDenied)
            <==> epoch_code < 3 && context_code < 4 && (context_code >= 2 || (epoch_code == 0
            && context_code == 1)),
        evaluation(epoch_code, context_code, factors) == rejected(GcvError::ValidationError)
            <==> epoch_code < 3 && (context_code == 0 || (context_code == 1 && epoch_code != 0))
            && !factors.is_valid(),
        evaluation(epoch_code, context_code, factors) == accepted(gcv_score(factors))
            <==> epoch_code < 3 && (context_code == 0 || (context_code == 1 && epoch_code != 0))
            && factors.is_valid(),
{
}

/// The result never exceeds the base value.
pub proof fn lemma_guarded_gcv_bounded(epoch_code: u32, context_code: u32, factors: GCVFactors)
    ensures
        guarded_gcv(epoch_code, context_code, factors) <= BASE_GCV,
{
    if factors.is_valid() {
        lemma_score_bounded(factors);
    }
}

/// With all five factors at the scale, every allowed request yields exactly
/// the base value.
pub proof fn lemma_full_factors_yield_base(epoch: Epoch, context: UsageContext, factors: GCVFactors)
    requires
        verdict(epoch, context) is Allow,
        factors.utility == SCALE,
        factors.network == SCALE,
        factors.trust == SCALE,
        factors.contribution == SCALE,
        factors.governance == SCALE,
    ensures
        guarded_gcv(epoch.spec_code(), context.spec_code(), factors) == BASE_GCV,
{
    lemma_full_factors_score_base(factors);
}

/// A zero factor makes the result zero, whatever the other factors, the epoch
/// and the context are; where the request is accepted, zero is its score.
pub proof fn lemma_zero_factor_yields_zero(epoch_code: u32, context_code: u32, factors: GCVFactors)
    requires
        factors.has_zero(),
    ensures
        guarded_gcv(epoch_code, context_code, factors) == 0,
        evaluation(epoch_code, context_code, factors) is Ok ==> evaluation(
            epoch_code,
            context_code,
            factors,
        ) == accepted(0),
{
    lemma_zero_factor_scores_zero(factors);
}

/// A factor above the scale makes the result zero, whatever the other
/// factors, the epoch and the context are.
pub proof fn lemma_out_of_range_factor_rejected(
    epoch_code: u32,
    context_code: u32,
    factors: GCVFactors,
)
    requires
        factors.utility > SCALE || factors.network > SCALE || factors.trust > SCALE
            || factors.contribution > SCALE || factors.governance > SCALE,
    ensures
        guarded_gcv(epoch_code, context_code, factors) == 0,
        evaluation(epoch_code, context_code, factors) is Err,
{
}

/// An epoch code of 3 or more, or a context code of 4 or more, makes the
/// result zero independently of every other argument.
pub proof fn lemma_unknown_code_rejected(epoch_code: u32, context_code: u32, factors: GCVFactors)
    requires
        epoch_code >= 3 || context_code >= 4,
    ensures
        guarded_gcv(epoch_code, context_code, factors) == 0,
        evaluation(epoch_code, context_code, factors) == rejected(GcvError::DecodeError),
{
}

/// A request for external pricing or for an investment claim yields zero in
/// every epoch and for all factors.
pub proof fn lemma_financial_context_yields_zero(
    epoch_code: u32,
    context: UsageContext,
    factors: GCVFactors,
)
    requires
        context.is_financial(),
    ensures
        guarded_gcv(epoch_code, context.spec_code(), factors) == 0,
        evaluation(epoch_code, context.spec_code(), factors) is Err,
{
}

} // verus!
