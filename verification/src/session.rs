//! The enclave session lifecycle.
//!
//! One attested execution environment per process run: the host
//! resolves the signed image, passes the cached (possibly empty)
//! launch token to the platform loader, and on success owns an open
//! session that must be closed on every exit path.  The loader and
//! the token-cache file are outside collaborators; this module holds
//! the decisions: how a loader outcome becomes a session or an
//! error, when the refreshed token is written back, and that a cache
//! failure is never fatal.

use vstd::prelude::*;
use crate::status::{BenchError, BoundaryStatus};
use crate::token::LaunchToken;

verus! {

/// An attested, loaded execution environment, identified by an
/// opaque session id.  Created only by [`open_finish`]; destroyed
/// exactly once by [`EnclaveSession::close`].
pub struct EnclaveSession {
    eid: u64,
    open: bool,
}

impl EnclaveSession {
    /// The opaque session identifier the loader assigned.
    pub closed spec fn spec_eid(&self) -> u64 {
        self.eid
    }

    /// Whether the environment is still loaded.
    pub closed spec fn is_open(&self) -> bool {
        self.open
    }

    /// Executable form of [`Self::spec_eid`].
    pub fn eid(&self) -> (r: u64)
        ensures
            r == self.spec_eid(),
    {
        self.eid
    }

    /// Release the environment.  Callers close exactly once: the
    /// contract demands an open session and leaves a closed one, so
    /// a double close is a verification error, not a runtime one.
    pub fn close(&mut self)
        requires
            old(self).is_open(),
        ensures
            !final(self).is_open(),
            final(self).spec_eid() == old(self).spec_eid(),
    {
        self.open = false;
    }
}

/// What the platform loader reported for one instantiation request.
pub enum CreateOutcome {
    /// The environment is loaded under id `eid`; `token` is the
    /// token buffer after the call, refreshed when `token_updated`.
    Created { eid: u64, token: LaunchToken, token_updated: bool },
    /// Instantiation failed: bad signature, resource exhaustion, or
    /// a platform that cannot attest.
    Failed { status: BoundaryStatus },
}

/// Turn a loader outcome into an open session, and decide the token
/// write-back: the refreshed token is returned for caching exactly
/// when the loader reported it updated.  A failed instantiation is
/// fatal and carries the loader's status; no boundary call may be
/// issued against it.
pub fn open_finish(outcome: CreateOutcome) -> (r: Result<
    (EnclaveSession, Option<LaunchToken>),
    BenchError,
>)
    requires
        outcome matches CreateOutcome::Created { token, .. } ==> token.wf(),
    ensures
        match outcome {
            CreateOutcome::Created { eid, token, token_updated } => {
                &&& r matches Ok((s, w))
                &&& r matches Ok((s, w)) ==> {
                    &&& s.is_open()
                    &&& s.spec_eid() == eid
                    &&& token_updated ==> (w matches Some(t) && t@ == token@ && t.wf())
                    &&& !token_updated ==> w is None
                }
            },
            CreateOutcome::Failed { status } => r == Err::<
                (EnclaveSession, Option<LaunchToken>),
                BenchError,
            >(BenchError::EnclaveInit { status }),
        },
{
    match outcome {
        CreateOutcome::Created { eid, token, token_updated } => {
            let write_back = if token_updated {
                Some(token)
            } else {
                None
            };
            Ok((EnclaveSession { eid, open: true }, write_back))
        },
        CreateOutcome::Failed { status } => Err(BenchError::EnclaveInit { status }),
    }
}

/// Classify the outcome of the token-cache write-back.  A failed
/// write is reported as a local warning — the open has already
/// succeeded and stays successful; only re-attestation on the next
/// run is slower.
pub fn cache_write_outcome(attempted: bool, wrote: bool) -> (w: Option<BenchError>)
    ensures
        w is Some <==> attempted && !wrote,
        w matches Some(e) ==> e == BenchError::TokenCache,
{
    if attempted && !wrote {
        Some(BenchError::TokenCache)
    } else {
        None
    }
}

} // verus!
