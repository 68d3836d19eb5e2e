//! Benchmark harness for an oblivious storage map running inside an
//! attested, memory-isolated execution environment.
//!
//! The harness itself is the verified part: the enclave session
//! lifecycle, the launch-token cache, the typed handle registry that
//! replaces raw-address marshaling across the trust boundary, the
//! closed block-size dispatch table, the workload generator, and the
//! per-scenario benchmark state machine.  The oblivious map and ORAM
//! algorithms, the platform loader, and all console I/O are external
//! collaborators driven by a thin host shim.

use vstd::prelude::*;

pub mod block_size;
pub mod marshal;
pub mod orchestrator;
pub mod process;
pub mod report;
pub mod scenario;
pub mod session;
pub mod status;
pub mod token;
pub mod workload;

verus! {

} // verus!
