use vstd::prelude::*;

verus! {

/// Errors encountered during validation of caller-supplied values.
#[derive(Clone, Copy, Debug, PartialEq, Eq)]
pub enum ValidationError {
    /// The value is too large.
    ValueTooLarge {
        /// Name of the value.
        name: &'static str,
        /// Value that failed validation.
        value: u8,
        /// Limit that the value exceeded.
        limit: u8,
        /// Whether the limit is inclusive or not.
        inclusive: bool,
    },
}

} // verus!
