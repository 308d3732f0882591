//! A guarded composite-value engine.
//!
//! The engine computes a symbolic, non-financial composite score (the GCV)
//! from five parts-per-thousand weighting factors. A score is only computed
//! once a policy guard, keyed on the network's maturity phase and the caller's
//! declared usage context, has permitted it.
//!
//! Every function in this crate is a pure function of its arguments, and every
//! contract is stated over the spec functions exported beside it.

pub mod context;
pub mod engine;
pub mod error;
pub mod guard;
pub mod score;

pub use context::{decode, Epoch, UsageContext};
pub use engine::{calculate_gcv_epoch_guarded, evaluate_gcv};
pub use error::GcvError;
pub use guard::{epoch_guard, GuardResult};
pub use score::{compute_gcv, validate_factors, GCVFactors, BASE_GCV, SCALE};
