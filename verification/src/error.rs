//! Error types used across the library.
use vstd::prelude::*;

verus! {

/// Errors that can occur when constructing or operating on an indicator.
#[derive(Debug, Clone, Copy, PartialEq, Eq)]
pub enum Error {
    /// A period (window length) must be at least one.
    PeriodZero,
    /// A specific minimum period requirement was not met (e.g. MACD needs slow > fast).
    InvalidPeriod { message: &'static str },
    /// A non-finite value (NaN or infinity) was passed where a finite price was expected.
    NonFiniteInput,
    /// A candle whose components do not form a valid bar (e.g. high < low) was provided.
    InvalidCandle { message: &'static str },
    /// A multiplier or factor must be strictly positive.
    NonPositiveMultiplier,
    /// A cross-section tick violated one of its invariants.
    InvalidCrossSection { message: &'static str },
}

/// Convenience alias for `Result<T, wickra_core::Error>`.
pub type Result<T> = core::result::Result<T, Error>;

} // verus!
