//! The reasons for which a request is turned away.

use vstd::prelude::*;

verus! {

/// Why a request produced no score.
///
/// The stages run in a fixed order (decoding, policy guard, factor
/// validation), and the first stage that fails names the error.
#[derive(Clone, Copy, Debug, PartialEq, Eq, Structural)]
pub enum GcvError {
    /// The epoch code or the context code is not part of its mapping.
    DecodeError,
    /// The policy guard denied the (epoch, context) pair.
    PolicyDenied,
    /// At least one factor exceeds the fixed-point scale.
    ValidationError,
}

} // verus!
