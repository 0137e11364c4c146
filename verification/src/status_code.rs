//! The closed taxonomy of operational outcomes.
//!
//! Every error node resolves to exactly one [`StatusCode`]. The numeric
//! encoding is stable across versions: collaborators use it as a wire and
//! header contract, and the renderer uses it to decide whether a message
//! is masked before it reaches an untrusted client.

use vstd::prelude::*;

verus! {

/// A closed set of named operational outcomes with a stable numeric
/// encoding.
///
/// `Unknown` and `Internal` are the classifications whose messages are
/// masked for untrusted callers.
#[derive(Clone, Copy, Debug, PartialEq, Eq, Hash, Structural)]
pub enum StatusCode {
    /// No explicit classification exists; always masked.
    Unknown,
    /// An internal failure; always masked.
    Internal,
    /// The caller supplied invalid arguments.
    InvalidArguments,
    /// The requested operation is not supported.
    Unsupported,
    /// The underlying storage is unavailable.
    StorageUnavailable,
}

impl StatusCode {
    /// The stable numeric encoding of this classification.
    pub open spec fn spec_num(self) -> u32 {
        match self {
            StatusCode::Unknown => 0,
            StatusCode::Internal => 1,
            StatusCode::InvalidArguments => 2,
            StatusCode::Unsupported => 3,
            StatusCode::StorageUnavailable => 4,
        }
    }

    /// The canonical header-safe name of this classification.
    pub open spec fn spec_name(self) -> Seq<char> {
        match self {
            StatusCode::Unknown => "Unknown"@,
            StatusCode::Internal => "Internal"@,
            StatusCode::InvalidArguments => "InvalidArguments"@,
            StatusCode::Unsupported => "Unsupported"@,
            StatusCode::StorageUnavailable => "StorageUnavailable"@,
        }
    }

    /// True of the classifications whose messages are masked before they
    /// reach an untrusted caller.
    pub open spec fn spec_is_masked(self) -> bool {
        self == StatusCode::Unknown || self == StatusCode::Internal
    }

    /// Returns the stable numeric encoding of this classification.
    pub fn as_u32(&self) -> (n: u32)
        ensures
            n == self.spec_num(),
    {
        match self {
            StatusCode::Unknown => 0,
            StatusCode::Internal => 1,
            StatusCode::InvalidArguments => 2,
            StatusCode::Unsupported => 3,
            StatusCode::StorageUnavailable => 4,
        }
    }

    /// Recovers a classification from its numeric encoding; `None` exactly
    /// on numbers outside the encoding.
    pub fn from_u32(n: u32) -> (c: Option<StatusCode>)
        ensures
            match c {
                Some(code) => code.spec_num() == n,
                None => forall|code: StatusCode| code.spec_num() != n,
            },
    {
        if n == 0 {
            Some(StatusCode::Unknown)
        } else if n == 1 {
            Some(StatusCode::Internal)
        } else if n == 2 {
            Some(StatusCode::InvalidArguments)
        } else if n == 3 {
            Some(StatusCode::Unsupported)
        } else if n == 4 {
            Some(StatusCode::StorageUnavailable)
        } else {
            assert(forall|code: StatusCode| code.spec_num() != n);
            None
        }
    }

    /// Returns the canonical header-safe name of this classification.
    pub fn name(&self) -> (s: &'static str)
        ensures
            s@ == self.spec_name(),
    {
        match self {
            StatusCode::Unknown => "Unknown",
            StatusCode::Internal => "Internal",
            StatusCode::InvalidArguments => "InvalidArguments",
            StatusCode::Unsupported => "Unsupported",
            StatusCode::StorageUnavailable => "StorageUnavailable",
        }
    }

    /// Returns whether this classification is masked for untrusted
    /// callers.
    pub fn is_masked(&self) -> (m: bool)
        ensures
            m == self.spec_is_masked(),
    {
        match self {
            StatusCode::Unknown => true,
            StatusCode::Internal => true,
            _ => false,
        }
    }
}

/// Every classification's canonical name is non-empty.
pub proof fn lemma_name_nonempty(c: StatusCode)
    ensures
        c.spec_name().len() > 0,
{
    reveal_strlit("Unknown");
    reveal_strlit("Internal");
    reveal_strlit("InvalidArguments");
    reveal_strlit("Unsupported");
    reveal_strlit("StorageUnavailable");
}

/// The numeric encoding is injective: it never sends two distinct
/// classifications to one number.
pub proof fn lemma_status_encoding_injective(a: StatusCode, b: StatusCode)
    ensures
        a.spec_num() == b.spec_num() ==> a == b,
{
}

impl Default for StatusCode {
    /// The default classification of an error that supplies none of its
    /// own is `Unknown`.
    fn default() -> (c: Self)
        ensures
            c == StatusCode::Unknown,
    {
        StatusCode::Unknown
    }
}

} // verus!
