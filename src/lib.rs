//! A handle on an operating-system shared memory segment that holds one
//! fixed-size value under mutual exclusion, with explicit ownership.
//!
//! The allocate-or-attach protocol is a state machine (`negotiate`) fed with
//! what the operating system answered; the handle (`handle`) carries the
//! segment's identity, its ownership and the lock (`sync`) through which every
//! access goes; `laws` states the protocol's guarantees.

pub mod error;
pub mod handle;
pub mod laws;
pub mod negotiate;
pub mod sync;

pub use error::{CortexError, CortexResult, ErrorKind, Reason};
pub use handle::{teardown_of, Cortex, CortexView, Teardown};
pub use negotiate::{after_map, negotiate_key, CreateOutcome, MapStep, Negotiation, Step, MAX_ATTEMPTS};
pub use sync::CortexSync;
