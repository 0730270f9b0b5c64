//! The failure conditions that the library surfaces to its callers.

use vstd::prelude::*;

verus! {

/// Every failure that the extraction core can report.
///
/// Lifecycle misuse, range violations and malformed metadata are decided
/// by verified code; `AllocationFailure` and `ForeignCallFailure` are
/// reported by the host shell when a boundary call itself goes wrong, and
/// travel through the library untouched.
#[derive(Clone, Copy, Debug, PartialEq, Eq, Structural)]
pub enum RawFileError {
    /// The runtime was used before `configure` succeeded.
    NotConfigured,
    /// `configure` was called a second time.
    AlreadyConfigured,
    /// The runtime, or a handle, was used or torn down after disposal.
    AlreadyDisposed,
    /// A runtime operation was attempted from a thread other than the one
    /// that configured it.
    CrossThreadViolation,
    /// The configured directory does not contain the runtime support files.
    RuntimeDirectoryNotFound,
    /// A scan number outside `[first_scan_number, last_scan_number]` was
    /// requested.
    ScanNumberOutOfRange,
    /// An XML metadata payload did not match the expected vocabulary.
    MalformedMetadata,
    /// The host environment failed to provide a buffer.
    AllocationFailure,
    /// A call across the foreign boundary failed or reported an error.
    ForeignCallFailure,
}

impl RawFileError {
    /// A short, stable description of the failure.
    pub fn message(&self) -> (m: &'static str)
        ensures
            m@ == self.spec_message(),
    {
        proof {
            reveal_strlit("the runtime is not configured");
            reveal_strlit("the runtime is already configured");
            reveal_strlit("the runtime or handle is already disposed");
            reveal_strlit("the runtime was used from a foreign thread");
            reveal_strlit("the runtime support directory was not found");
            reveal_strlit("the requested scan number is out of range");
            reveal_strlit("the metadata payload is malformed");
            reveal_strlit("a host buffer could not be allocated");
            reveal_strlit("a foreign boundary call failed");
        }
        match self {
            RawFileError::NotConfigured => "the runtime is not configured",
            RawFileError::AlreadyConfigured => "the runtime is already configured",
            RawFileError::AlreadyDisposed => "the runtime or handle is already disposed",
            RawFileError::CrossThreadViolation => "the runtime was used from a foreign thread",
            RawFileError::RuntimeDirectoryNotFound => "the runtime support directory was not found",
            RawFileError::ScanNumberOutOfRange => "the requested scan number is out of range",
            RawFileError::MalformedMetadata => "the metadata payload is malformed",
            RawFileError::AllocationFailure => "a host buffer could not be allocated",
            RawFileError::ForeignCallFailure => "a foreign boundary call failed",
        }
    }

    /// The text that `message` returns for each failure.
    pub open spec fn spec_message(&self) -> Seq<char> {
        match self {
            RawFileError::NotConfigured => "the runtime is not configured"@,
            RawFileError::AlreadyConfigured => "the runtime is already configured"@,
            RawFileError::AlreadyDisposed => "the runtime or handle is already disposed"@,
            RawFileError::CrossThreadViolation => "the runtime was used from a foreign thread"@,
            RawFileError::RuntimeDirectoryNotFound => "the runtime support directory was not found"@,
            RawFileError::ScanNumberOutOfRange => "the requested scan number is out of range"@,
            RawFileError::MalformedMetadata => "the metadata payload is malformed"@,
            RawFileError::AllocationFailure => "a host buffer could not be allocated"@,
            RawFileError::ForeignCallFailure => "a foreign boundary call failed"@,
        }
    }
}

} // verus!
