//! The cached launch token.
//!
//! One fixed-size opaque credential blob, cached at a per-user path so
//! that repeated runs skip part of attestation.  The harness never
//! interprets its content; it only validates the length.  An absent or
//! wrong-length cache entry is treated as an empty token, never as an
//! error: losing the token only costs a slower re-attestation.

use vstd::prelude::*;

verus! {

/// The exact byte length of a launch token blob.
pub const LAUNCH_TOKEN_LEN: usize = 1024;

/// The all-zero token passed to the loader when no valid cache entry
/// exists.
pub open spec fn spec_empty_token() -> Seq<u8> {
    Seq::new(LAUNCH_TOKEN_LEN as nat, |i: int| 0u8)
}

/// What a cache read yields as a token: the blob itself when it has
/// exactly the token length, the empty token otherwise (including
/// when the cache file was absent or unreadable).
pub open spec fn spec_cached_token(read: Option<Seq<u8>>) -> Seq<u8> {
    match read {
        Some(b) => if b.len() == LAUNCH_TOKEN_LEN { b } else { spec_empty_token() },
        None => spec_empty_token(),
    }
}

/// A launch token held in memory: always exactly
/// [`LAUNCH_TOKEN_LEN`] bytes.
pub struct LaunchToken {
    bytes: Vec<u8>,
}

impl View for LaunchToken {
    type V = Seq<u8>;

    closed spec fn view(&self) -> Seq<u8> {
        self.bytes@
    }
}

impl LaunchToken {
    /// The length invariant every constructor establishes.
    pub open spec fn wf(&self) -> bool {
        self@.len() == LAUNCH_TOKEN_LEN
    }

    /// The all-zero token.
    pub fn empty() -> (t: Self)
        ensures
            t.wf(),
            t@ == spec_empty_token(),
    {
        let mut bytes: Vec<u8> = Vec::new();
        let mut i: usize = 0;
        while i < LAUNCH_TOKEN_LEN
            invariant
                i <= LAUNCH_TOKEN_LEN,
                bytes@.len() == i,
                forall|j: int| 0 <= j < i ==> bytes@[j] == 0u8,
            decreases LAUNCH_TOKEN_LEN - i,
        {
            bytes.push(0u8);
            i = i + 1;
        }
        proof {
            assert(bytes@ =~= spec_empty_token());
        }
        LaunchToken { bytes }
    }

    /// Interpret the outcome of a cache read: a blob of exactly the
    /// token length is taken as the cached token, anything else falls
    /// back to the empty token.
    pub fn from_cache_read(read: Option<Vec<u8>>) -> (t: Self)
        ensures
            t.wf(),
            match read {
                Some(b) => t@ == spec_cached_token(Some(b@)),
                None => t@ == spec_cached_token(None::<Seq<u8>>),
            },
    {
        match read {
            Some(b) => {
                if b.len() == LAUNCH_TOKEN_LEN {
                    LaunchToken { bytes: b }
                } else {
                    LaunchToken::empty()
                }
            },
            None => LaunchToken::empty(),
        }
    }

    /// Wrap a blob the loader handed back (a possibly refreshed
    /// token).  Callers must have checked the length.
    pub fn from_loader(bytes: Vec<u8>) -> (t: Self)
        requires
            bytes@.len() == LAUNCH_TOKEN_LEN,
        ensures
            t.wf(),
            t@ == bytes@,
    {
        LaunchToken { bytes }
    }

    /// The bytes to write back to the cache file.
    pub fn to_bytes(&self) -> (b: Vec<u8>)
        ensures
            b@ == self@,
    {
        let mut out: Vec<u8> = Vec::new();
        let mut i: usize = 0;
        while i < self.bytes.len()
            invariant
                i <= self.bytes@.len(),
                out@ == self.bytes@.take(i as int),
            decreases self.bytes@.len() - i,
        {
            let byte = self.bytes[i];
            out.push(byte);
            proof {
                assert(out@ =~= self.bytes@.take(i + 1));
            }
            i = i + 1;
        }
        proof {
            assert(out@ =~= self.bytes@);
        }
        out
    }
}

/// Law: the token cache round-trips.  Writing a well-formed token's
/// bytes to the cache and reading them back yields byte-identical
/// content — the fallback to the empty token is taken only on absent
/// or wrong-length blobs, never on a blob this harness wrote itself.
pub proof fn lemma_token_cache_round_trip(b: Seq<u8>)
    requires
        b.len() == LAUNCH_TOKEN_LEN,
    ensures
        spec_cached_token(Some(b)) == b,
{
}

} // verus!
