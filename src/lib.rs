//! Character spans: half-open windows `[start, end)` into a sequence of
//! characters that the caller owns.
pub mod span;

pub use span::Span;
