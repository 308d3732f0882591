//! The two enumerations a request is keyed on, and their wire codes.

use vstd::prelude::*;

use crate::error::GcvError;

verus! {

/// Maturity phase of the network.
#[derive(Clone, Copy, Debug, PartialEq, Eq, Structural)]
pub enum Epoch {
    Enclosed,
    Transition,
    Open,
}

/// The purpose the caller declares for the computed value.
#[derive(Clone, Copy, Debug, PartialEq, Eq, Structural)]
pub enum UsageContext {
    InternalUtility,
    ReferenceOnly,
    ExternalPricing,
    InvestmentClaim,
}

impl Epoch {
    /// The wire code of an epoch; it also orders the phases by maturity.
    pub open spec fn spec_code(self) -> u32 {
        match self {
            Epoch::Enclosed => 0,
            Epoch::Transition => 1,
            Epoch::Open => 2,
        }
    }

    /// The epoch a wire code stands for, if any.
    pub open spec fn spec_from_code(code: u32) -> Option<Epoch> {
        if code == 0 {
            Some(Epoch::Enclosed)
        } else if code == 1 {
            Some(Epoch::Transition)
        } else if code == 2 {
            Some(Epoch::Open)
        } else {
            None
        }
    }

    #[verifier::when_used_as_spec(spec_code)]
    pub fn code(self) -> (code: u32)
        ensures
            code == self.spec_code(),
    {
        match self {
            Epoch::Enclosed => 0,
            Epoch::Transition => 1,
            Epoch::Open => 2,
        }
    }

    /// Decodes a wire code. Codes outside the mapping are rejected, never
    /// clamped or defaulted.
    #[verifier::when_used_as_spec(spec_from_code)]
    pub fn from_code(code: u32) -> (epoch: Option<Epoch>)
        ensures
            epoch == Epoch::spec_from_code(code),
    {
        match code {
            0 => Some(Epoch::Enclosed),
            1 => Some(Epoch::Transition),
            2 => Some(Epoch::Open),
            _ => None,
        }
    }

    /// Decoding inverts encoding, and nothing but an epoch's own code decodes
    /// to it: the mapping is a bijection between the epochs and the codes
    /// 0, 1 and 2.
    pub proof fn lemma_code_round_trip(code: u32, epoch: Epoch)
        ensures
            Epoch::spec_from_code(code) == Some(epoch) <==> epoch.spec_code() == code,
            Epoch::spec_from_code(code) is Some <==> code < 3,
    {
    }
}

impl UsageContext {
    /// The wire code of a usage context.
    pub open spec fn spec_code(self) -> u32 {
        match self {
            UsageContext::InternalUtility => 0,
            UsageContext::ReferenceOnly => 1,
            UsageContext::ExternalPricing => 2,
            UsageContext::InvestmentClaim => 3,
        }
    }

    /// The usage context a wire code stands for, if any.
    pub open spec fn spec_from_code(code: u32) -> Option<UsageContext> {
        if code == 0 {
            Some(UsageContext::InternalUtility)
        } else if code == 1 {
            Some(UsageContext::ReferenceOnly)
        } else if code == 2 {
            Some(UsageContext::ExternalPricing)
        } else if code == 3 {
            Some(UsageContext::InvestmentClaim)
        } else {
            None
        }
    }

    /// Whether the context presents the value as a price or an investment.
    pub open spec fn is_financial(self) -> bool {
        self is ExternalPricing || self is InvestmentClaim
    }

    #[verifier::when_used_as_spec(spec_code)]
    pub fn code(self) -> (code: u32)
        ensures
            code == self.spec_code(),
    {
        match self {
            UsageContext::InternalUtility => 0,
            UsageContext::ReferenceOnly => 1,
            UsageContext::ExternalPricing => 2,
            UsageContext::InvestmentClaim => 3,
        }
    }

    /// Decodes a wire code. Codes outside the mapping are rejected, never
    /// clamped or defaulted.
    #[verifier::when_used_as_spec(spec_from_code)]
    pub fn from_code(code: u32) -> (context: Option<UsageContext>)
        ensures
            context == UsageContext::spec_from_code(code),
    {
        match code {
            0 => Some(UsageContext::InternalUtility),
            1 => Some(UsageContext::ReferenceOnly),
            2 => Some(UsageContext::ExternalPricing),
            3 => Some(UsageContext::InvestmentClaim),
            _ => None,
        }
    }

    /// Decoding inverts encoding, and nothing but a context's own code decodes
    /// to it: the mapping is a bijection between the contexts and the codes
    /// 0 to 3.
    pub proof fn lemma_code_round_trip(code: u32, context: UsageContext)
        ensures
            UsageContext::spec_from_code(code) == Some(context) <==> context.spec_code() == code,
            UsageContext::spec_from_code(code) is Some <==> code < 4,
    {
    }
}

/// What decoding a pair of wire codes yields: both values, or a decode error
/// as soon as either code is outside its mapping.
pub open spec fn spec_decode(epoch_code: u32, context_code: u32) -> Result<
    (Epoch, UsageContext),
    GcvError,
> {
    match (Epoch::spec_from_code(epoch_code), UsageContext::spec_from_code(context_code)) {
        (Some(epoch), Some(context)) => Ok((epoch, context)),
        _ => Err(GcvError::DecodeError),
    }
}

/// Decodes the epoch and the usage context of a request.
#[verifier::when_used_as_spec(spec_decode)]
pub fn decode(epoch_code: u32, context_code: u32) -> (decoded: Result<
    (Epoch, UsageContext),
    GcvError,
>)
    ensures
        decoded == spec_decode(epoch_code, context_code),
{
    let epoch = match Epoch::from_code(epoch_code) {
        Some(epoch) => epoch,
        None => return Err(GcvError::DecodeError),
    };
    let context = match UsageContext::from_code(context_code) {
        Some(context) => context,
        None => return Err(GcvError::DecodeError),
    };
    Ok((epoch, context))
}

/// Decoding succeeds exactly on the epoch codes below 3 paired with the
/// context codes below 4, and on those it is injective: the decoded pair
/// carries the very codes it was decoded from. The only error is a decode
/// error.
pub proof fn lemma_decode_total_and_injective(epoch_code: u32, context_code: u32)
    ensures
        spec_decode(epoch_code, context_code) is Ok <==> epoch_code < 3 && context_code < 4,
        spec_decode(epoch_code, context_code) matches Err(error) ==> error
            == GcvError::DecodeError,
        spec_decode(epoch_code, context_code) matches Ok((epoch, context)) ==> epoch.spec_code()
            == epoch_code && context.spec_code() == context_code,
{
}

} // verus!
