//! Reading, writing and locking keys on an Infineon Trust M chip over i2c,
//! and checking P-256 signatures against such keys.
//!
//! A conversation with the chip is a [`Session`]: the caller performs what
//! it asks (open the device, one i2c attempt, a pause) and reports the
//! outcome, and the session decides what follows, down to the result.
pub mod error;
pub mod protocol;
pub mod session;
pub mod laws;
pub mod script_laws;
pub mod keyfile;
pub mod signature;
pub mod cli;

pub use cli::{Args, Cmds, LockCmd, ReadCmd, VerifyCmd, WriteCmd};
pub use error::{TrustMDeviceError, TrustMLibError};
pub use keyfile::write_key;
pub use protocol::{TM_ADDR, TM_SLOT1, TM_SLOT2};
pub use session::{lock_keyslot, read_key, Action, Event, Session};
pub use signature::p256_verify;
