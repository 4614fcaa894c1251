use vstd::prelude::*;

verus! {

/// Everything a protocol operation can fail with. Each failure is terminal
/// for the operation that raised it; nothing is retried internally.
#[derive(Clone, Copy, Debug, PartialEq, Eq, Structural)]
pub enum PokerError {
    /// Decoding a value from its transport encoding failed.
    MalformedInput,
    /// An ownership, shuffle or reveal-token proof failed its check.
    InvalidProof,
    /// A handle is not present in the table it was looked up in.
    MissingHandle,
    /// A deck position lookup at or past the deck size.
    IndexOutOfRange,
    /// Aggregation was called with zero inputs.
    EmptyAggregation,
    /// A fully aggregated reveal token decodes to no canonical card.
    RevealMismatch,
    /// The entropy source could not supply bytes.
    RandomnessFailure,
}

impl PokerError {
    /// A short, stable description of the failure.
    pub fn describe(&self) -> (r: &'static str)
        ensures
            r@.len() > 0,
    {
        let r = match self {
            PokerError::MalformedInput => "malformed input",
            PokerError::InvalidProof => "invalid proof",
            PokerError::MissingHandle => "missing object",
            PokerError::IndexOutOfRange => "card index out of range",
            PokerError::EmptyAggregation => "empty aggregation",
            PokerError::RevealMismatch => "reveal failed",
            PokerError::RandomnessFailure => "randomness source failure",
        };
        proof {
            reveal_strlit("malformed input");
            reveal_strlit("invalid proof");
            reveal_strlit("missing object");
            reveal_strlit("card index out of range");
            reveal_strlit("empty aggregation");
            reveal_strlit("reveal failed");
            reveal_strlit("randomness source failure");
        }
        r
    }
}

} // verus!
