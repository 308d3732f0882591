use gcv_engine::{epoch_guard, Epoch, GuardResult, UsageContext};

const EPOCHS: [Epoch; 3] = [Epoch::Enclosed, Epoch::Transition, Epoch::Open];
const CONTEXTS: [UsageContext; 4] = [
    UsageContext::InternalUtility,
    UsageContext::ReferenceOnly,
    UsageContext::ExternalPricing,
    UsageContext::InvestmentClaim,
];

fn allowed(epoch: Epoch) -> Vec<UsageContext> {
    CONTEXTS
        .iter()
        .copied()
        .filter(|context| epoch_guard(epoch, *context) == GuardResult::Allow)
        .collect()
}

#[test]
fn enclosed_row() {
    assert_eq!(epoch_guard(Epoch::Enclosed, UsageContext::InternalUtility), GuardResult::Allow);
    assert_eq!(epoch_guard(Epoch::Enclosed, UsageContext::ReferenceOnly), GuardResult::Deny);
    assert_eq!(epoch_guard(Epoch::Enclosed, UsageContext::ExternalPricing), GuardResult::Deny);
    assert_eq!(epoch_guard(Epoch::Enclosed, UsageContext::InvestmentClaim), GuardResult::Deny);
}

#[test]
fn transition_row() {
    assert_eq!(epoch_guard(Epoch::Transition, UsageContext::InternalUtility), GuardResult::Allow);
    assert_eq!(epoch_guard(Epoch::Transition, UsageContext::ReferenceOnly), GuardResult::Allow);
    assert_eq!(epoch_guard(Epoch::Transition, UsageContext::ExternalPricing), GuardResult::Deny);
    assert_eq!(epoch_guard(Epoch::Transition, UsageContext::InvestmentClaim), GuardResult::Deny);
}

#[test]
fn open_row() {
    assert_eq!(epoch_guard(Epoch::Open, UsageContext::InternalUtility), GuardResult::Allow);
    assert_eq!(epoch_guard(Epoch::Open, UsageContext::ReferenceOnly), GuardResult::Allow);
    assert_eq!(epoch_guard(Epoch::Open, UsageContext::ExternalPricing), GuardResult::Deny);
    assert_eq!(epoch_guard(Epoch::Open, UsageContext::InvestmentClaim), GuardResult::Deny);
}

#[test]
fn guard_never_flags() {
    for epoch in EPOCHS {
        for context in CONTEXTS {
            let verdict = epoch_guard(epoch, context);
            assert!(verdict == GuardResult::Allow || verdict == GuardResult::Deny);
            assert_ne!(verdict, GuardResult::Flag);
        }
    }
}

#[test]
fn financial_contexts_are_denied_in_every_epoch() {
    for epoch in EPOCHS {
        assert_eq!(epoch_guard(epoch, UsageContext::ExternalPricing), GuardResult::Deny);
        assert_eq!(epoch_guard(epoch, UsageContext::InvestmentClaim), GuardResult::Deny);
    }
}

#[test]
fn allowed_contexts_widen_with_maturity() {
    let enclosed = allowed(Epoch::Enclosed);
    let transition = allowed(Epoch::Transition);
    let open = allowed(Epoch::Open);
    assert_eq!(enclosed, vec![UsageContext::InternalUtility]);
    assert_eq!(transition, vec![UsageContext::InternalUtility, UsageContext::ReferenceOnly]);
    assert!(enclosed.iter().all(|context| transition.contains(context)));
    assert_eq!(open, transition);
}
