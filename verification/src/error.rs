//! The recoverable failures that the engine reports to its caller.

use vstd::prelude::*;

verus! {

/// Why an input was turned away. The value that was being built or edited is
/// left as it was.
#[derive(Clone, Copy, Debug, PartialEq, Eq, Structural, Hash)]
pub enum EngineError {
    /// A cycle duration of zero milliseconds was offered.
    InvalidDuration,
    /// A text was offered as a colour that is not six hexadecimal digits,
    /// with or without a leading `#`.
    MalformedColorText,
}

} // verus!
