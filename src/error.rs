use vstd::prelude::*;

verus! {

/// Error returned when converting an integer into a `Precision` fails.
#[derive(Clone, Copy, Debug, PartialEq, Eq, Structural)]
#[non_exhaustive]
pub struct TryFromIntError {}

impl TryFromIntError {
    pub open spec fn spec_out_of_bounds() -> TryFromIntError {
        TryFromIntError {}
    }

    pub(crate) fn out_of_bounds() -> (r: TryFromIntError)
        ensures
            r == TryFromIntError::spec_out_of_bounds(),
    {
        TryFromIntError {}
    }

    /// Human-readable description of the error.
    pub fn to_string(&self) -> (r: String)
        ensures
            r@ == "out of bounds"@,
    {
        "out of bounds".to_string()
    }
}

/// Categories of merging error, used with `TryMergeError`.
#[derive(Clone, Copy, Debug, PartialEq, Eq, Structural)]
pub enum TryMergeErrorKind {
    /// Hyperloglogs have different precisions.
    Precision,
    /// Hyperloglogs use different hashers.
    Hasher,
}

/// Error returned when a checked merge fails.
#[derive(Clone, Copy, Debug, PartialEq, Eq, Structural)]
pub struct TryMergeError {
    pub(crate) kind: TryMergeErrorKind,
}

impl TryMergeError {
    /// The category of this error.
    pub closed spec fn spec_kind(&self) -> TryMergeErrorKind {
        self.kind
    }

    pub(crate) fn with_kind(kind: TryMergeErrorKind) -> (r: TryMergeError)
        ensures
            r.spec_kind() == kind,
    {
        TryMergeError { kind }
    }

    /// Returns the corresponding `TryMergeErrorKind` for this error.
    pub fn kind(&self) -> (r: TryMergeErrorKind)
        ensures
            r == self.spec_kind(),
    {
        self.kind
    }

    /// Human-readable description of the error.
    pub fn to_string(&self) -> (r: String)
        ensures
            self.spec_kind() == TryMergeErrorKind::Precision ==> r@ == "incompatible precisions"@,
            self.spec_kind() == TryMergeErrorKind::Hasher ==> r@ == "incompatible hashers"@,
    {
        match self.kind {
            TryMergeErrorKind::Precision => "incompatible precisions".to_string(),
            TryMergeErrorKind::Hasher => "incompatible hashers".to_string(),
        }
    }
}

} // verus!
