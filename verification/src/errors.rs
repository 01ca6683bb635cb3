use vstd::prelude::*;

verus! {

/// Every failure the core can report.
///
/// - `Configuration`: invalid cost parameters at build time, or an output
///   width that is not a positive multiple of the engine word size.
/// - `Allocation`: the requested ROM memory could not be obtained.
/// - `Uninitialized`: a hash was requested before any ROM was published.
/// - `Validation`: an empty batch was submitted.
#[derive(Clone, Copy, Debug, PartialEq, Eq, Structural)]
pub enum EngineError {
    Configuration,
    Allocation,
    Uninitialized,
    Validation,
}

} // verus!
