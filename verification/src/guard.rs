//! The policy guard: which usage contexts each epoch permits.

use vstd::prelude::*;

use crate::context::{Epoch, UsageContext};

verus! {

/// Verdict of the policy guard.
///
/// `Flag` is reserved for later tables; the present one never produces it.
#[derive(Clone, Copy, Debug, PartialEq, Eq, Structural)]
pub enum GuardResult {
    Allow,
    Flag,
    Deny,
}

/// Whether `epoch` permits a computation for `context`.
///
/// Internal utility is always permitted, reference use once the network has
/// left its enclosed phase, and the financial contexts never.
pub open spec fn permits(epoch: Epoch, context: UsageContext) -> bool {
    match context {
        UsageContext::InternalUtility => true,
        UsageContext::ReferenceOnly => epoch !is Enclosed,
        UsageContext::ExternalPricing => false,
        UsageContext::InvestmentClaim => false,
    }
}

/// The verdict of the policy table on an (epoch, context) pair.
pub open spec fn verdict(epoch: Epoch, context: UsageContext) -> GuardResult {
    if permits(epoch, context) {
        GuardResult::Allow
    } else {
        GuardResult::Deny
    }
}

/// The contexts that `epoch` allows.
pub open spec fn allowed_contexts(epoch: Epoch) -> Set<UsageContext> {
    Set::new(|context: UsageContext| verdict(epoch, context) is Allow)
}

/// Looks an (epoch, context) pair up in the policy table. Every pair has a
/// row of its own; nothing is allowed by default.
#[verifier::when_used_as_spec(verdict)]
pub fn epoch_guard(epoch: Epoch, context: UsageContext) -> (result: GuardResult)
    ensures
        result == verdict(epoch, context),
{
    match epoch {
        Epoch::Enclosed => match context {
            UsageContext::InternalUtility => GuardResult::Allow,
            UsageContext::ReferenceOnly => GuardResult::Deny,
            UsageContext::ExternalPricing => GuardResult::Deny,
            UsageContext::InvestmentClaim => GuardResult::Deny,
        },
        Epoch::Transition => match context {
            UsageContext::InternalUtility => GuardResult::Allow,
            UsageContext::ReferenceOnly => GuardResult::Allow,
            UsageContext::ExternalPricing => GuardResult::Deny,
            UsageContext::InvestmentClaim => GuardResult::Deny,
        },
        Epoch::Open => match context {
            UsageContext::InternalUtility => GuardResult::Allow,
            UsageContext::ReferenceOnly => GuardResult::Allow,
            UsageContext::ExternalPricing => GuardResult::Deny,
            UsageContext::InvestmentClaim => GuardResult::Deny,
        },
    }
}

/// The table is total over `Allow` and `Deny`: no pair is flagged, and a
/// financial context is denied in every epoch.
pub proof fn lemma_guard_total(epoch: Epoch, context: UsageContext)
    ensures
        verdict(epoch, context) is Allow || verdict(epoch, context) is Deny,
        verdict(epoch, context) !is Flag,
        context.is_financial() ==> verdict(epoch, context) is Deny,
{
}

/// The allowed contexts only widen as the network matures: what the enclosed
/// phase allows, the transition phase allows too, and the open phase allows
/// exactly what the transition phase does.
pub proof fn lemma_allowed_contexts_widen()
    ensures
        allowed_contexts(Epoch::Enclosed).subset_of(allowed_contexts(Epoch::Transition)),
        allowed_contexts(Epoch::Open) == allowed_contexts(Epoch::Transition),
        allowed_contexts(Epoch::Enclosed) == set![UsageContext::InternalUtility],
        allowed_contexts(Epoch::Transition) == set![
            UsageContext::InternalUtility,
            UsageContext::ReferenceOnly,
        ],
{
    assert(allowed_contexts(Epoch::Open) =~= allowed_contexts(Epoch::Transition));
    assert(allowed_contexts(Epoch::Enclosed) =~= set![UsageContext::InternalUtility]);
    assert(allowed_contexts(Epoch::Transition) =~= set![
        UsageContext::InternalUtility,
        UsageContext::ReferenceOnly,
    ]);
}

/// A context allowed in one epoch stays allowed in every later one, and a
/// financial context never becomes allowed.
pub proof fn lemma_permission_is_monotonic(earlier: Epoch, later: Epoch, context: UsageContext)
    requires
        earlier.spec_code() <= later.spec_code(),
    ensures
        verdict(earlier, context) is Allow ==> verdict(later, context) is Allow,
        context.is_financial() ==> verdict(later, context) is Deny,
{
}

} // verus!
