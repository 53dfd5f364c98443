//! Transparent instrumentation for byte streams.
//!
//! [`IOStatWrapper`] wraps a reader, writer or seeker, hands every call on
//! to it unchanged, and keeps count of what happened: calls that succeeded
//! and failed, bytes moved, where the cursor should be, and optionally a
//! record of every call with its outcome.

mod forward;
pub mod iop;
pub mod laws;
pub mod log;
pub mod signed_abs;
pub mod stats;
pub mod success_failure_ctr;
pub mod wrapper;

pub use iop::{IopActions, IopInfoPair, IopResults};
pub use log::{NoLog, OperationLog};
pub use signed_abs::{abs_sign_tuple, relative_seek_target, SignedAbsResult};
pub use stats::IOStats;
pub use success_failure_ctr::{CounterInt, CounterView, SuccessFailureCounter};
pub use wrapper::IOStatWrapper;
