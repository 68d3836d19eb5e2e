//! Status codes crossing the trust boundary, and the harness's own
//! error kinds.

use vstd::prelude::*;

verus! {

/// Status returned by the platform loader and by every boundary entry
/// point.  The set is closed: a callee reports one of these, never an
/// open-ended code.
#[derive(Clone, Copy, Debug, PartialEq, Eq, Structural)]
pub enum BoundaryStatus {
    /// The call (or the instantiation) completed.
    Success,
    /// The signed enclave image could not be located.
    ImageNotFound,
    /// The image's signature did not verify.
    InvalidSignature,
    /// The platform ran out of isolated-memory resources.
    OutOfResources,
    /// The platform cannot attest at all.
    PlatformUnsupported,
    /// A handle argument named no live registry entry.
    InvalidHandle,
    /// A handle argument named a live entry of the wrong type.
    TypeMismatch,
    /// A slice length argument disagreed with the registered length.
    LengthMismatch,
    /// The callee failed internally.
    InternalError,
}

impl BoundaryStatus {
    /// True exactly on the success code.
    pub fn is_success(&self) -> (r: bool)
        ensures
            r <==> *self == BoundaryStatus::Success,
    {
        matches!(self, BoundaryStatus::Success)
    }
}

/// The harness's error kinds.  Every fallible public operation reports
/// one of these; which one, and on which inputs, is pinned down by that
/// operation's contract.
#[derive(Clone, Copy, Debug, PartialEq, Eq, Structural)]
pub enum BenchError {
    /// Instantiating the attested environment failed; carries the
    /// loader's status.  Fatal: no boundary call may follow.
    EnclaveInit { status: BoundaryStatus },
    /// Reading or writing the cached launch token failed.  Never
    /// fatal: the open continues, only re-attestation is slower.
    TokenCache,
    /// A requested block size lies outside the closed variant set.
    UnsupportedBlockSize { requested: usize },
    /// The oblivious-structure factory failed to build the
    /// scenario's client/server pair during Setup.  Fatal to that
    /// scenario; distinct from a parameter fault, which is caught at
    /// planning time.
    SetupFailure,
    /// A boundary call reported a non-success status; aborts the
    /// current scenario.
    BoundaryCall { status: BoundaryStatus },
    /// Malformed scenario parameters, such as a zero-sized corpus.
    Configuration,
}

} // verus!
