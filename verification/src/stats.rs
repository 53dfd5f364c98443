//! The numbers a wrapper keeps, and how each call changes them.
//!
//! This is the mathematical side of the wrapper: every operation of
//! [`crate::IOStatWrapper`] is stated as one step from an [`IOStats`] to the
//! next.

use crate::iop::{IopActions, IopInfoPair, IopResults};
use crate::log::OperationLog;
use crate::success_failure_ctr::{wrapped_sum, CounterInt, CounterView};
use std::io::{ErrorKind, SeekFrom};
use vstd::prelude::*;

verus! {

/// Everything a wrapper knows about the calls that went through it.
pub struct IOStats {
    /// Reads that succeeded and failed.
    pub read_calls: CounterView,
    /// Bytes that reads brought in.
    pub read_bytes: nat,
    /// Seeks that succeeded and failed.
    pub seek_calls: CounterView,
    /// Where the wrapper takes the stream's cursor to be.
    pub seek_pos: nat,
    /// Writes that succeeded and failed.
    pub write_calls: CounterView,
    /// Flushes that succeeded and failed.
    pub flush_calls: CounterView,
    /// Bytes that writes took.
    pub write_bytes: nat,
    /// The records that the log holds, oldest first.
    pub log: Seq<IopInfoPair>,
}

/// A byte total after `moved` more bytes. The total is a `usize` and wraps.
pub open spec fn bytes_after(total: nat, moved: usize) -> nat {
    wrapped_sum(total, moved as nat, usize::modulus())
}

/// A cursor after it has gone `moved` bytes forward. The cursor is a `u64`
/// and wraps.
pub open spec fn cursor_after(position: nat, moved: usize) -> nat {
    wrapped_sum(position, moved as nat, u64::modulus())
}

impl IOStats {
    /// The numbers of a wrapper that has seen no call, with its cursor at
    /// `start_seek_pos`.
    pub open spec fn initial(start_seek_pos: u64) -> IOStats {
        IOStats {
            read_calls: CounterView::zero(),
            read_bytes: 0,
            seek_calls: CounterView::zero(),
            seek_pos: start_seek_pos as nat,
            write_calls: CounterView::zero(),
            flush_calls: CounterView::zero(),
            write_bytes: 0,
            log: Seq::empty(),
        }
    }

    /// Whether every number is one that a wrapper can hold: the call counts
    /// and the cursor in `u64`, the byte totals in `usize`.
    pub open spec fn in_range(self) -> bool {
        &&& self.read_calls.in_range(u64::modulus())
        &&& self.seek_calls.in_range(u64::modulus())
        &&& self.write_calls.in_range(u64::modulus())
        &&& self.flush_calls.in_range(u64::modulus())
        &&& self.seek_pos < u64::modulus()
        &&& self.read_bytes < usize::modulus()
        &&& self.write_bytes < usize::modulus()
    }

    /// The numbers after a read into a buffer of `requested` bytes ended
    /// with `outcome`, in a wrapper that logs to a `C`.
    pub open spec fn after_read<C: OperationLog>(
        self,
        requested: usize,
        outcome: Result<usize, ErrorKind>,
    ) -> IOStats {
        let log = C::with_record(self.log, (IopActions::Read(requested), IopResults::Read(outcome)));
        match outcome {
            Ok(n) => IOStats {
                read_calls: self.read_calls.succeed(1, u64::modulus()),
                read_bytes: bytes_after(self.read_bytes, n),
                seek_pos: cursor_after(self.seek_pos, n),
                log,
                ..self
            },
            Err(_) => IOStats { read_calls: self.read_calls.fail(1, u64::modulus()), log, ..self },
        }
    }

    /// The numbers after a seek to `pos` ended with `outcome`, in a wrapper
    /// that logs to a `C`.
    pub open spec fn after_seek<C: OperationLog>(
        self,
        pos: SeekFrom,
        outcome: Result<u64, ErrorKind>,
    ) -> IOStats {
        let log = C::with_record(self.log, (IopActions::Seek(pos), IopResults::Seek(outcome)));
        match outcome {
            Ok(n) => IOStats {
                seek_calls: self.seek_calls.succeed(1, u64::modulus()),
                seek_pos: n as nat,
                log,
                ..self
            },
            Err(_) => IOStats { seek_calls: self.seek_calls.fail(1, u64::modulus()), log, ..self },
        }
    }

    /// The numbers after a write of a buffer of `requested` bytes ended
    /// with `outcome`, in a wrapper that logs to a `C`.
    pub open spec fn after_write<C: OperationLog>(
        self,
        requested: usize,
        outcome: Result<usize, ErrorKind>,
    ) -> IOStats {
        let log = C::with_record(self.log, (IopActions::Write(requested), IopResults::Write(outcome)));
        match outcome {
            Ok(n) => IOStats {
                write_calls: self.write_calls.succeed(1, u64::modulus()),
                write_bytes: bytes_after(self.write_bytes, n),
                seek_pos: cursor_after(self.seek_pos, n),
                log,
                ..self
            },
            Err(_) => IOStats { write_calls: self.write_calls.fail(1, u64::modulus()), log, ..self },
        }
    }

    /// The numbers after a flush ended with `outcome`, in a wrapper that
    /// logs to a `C`.
    pub open spec fn after_flush<C: OperationLog>(self, outcome: Result<(), ErrorKind>) -> IOStats {
        let log = C::with_record(self.log, (IopActions::Flush, IopResults::Flush(outcome)));
        match outcome {
            Ok(_) => IOStats { flush_calls: self.flush_calls.succeed(1, u64::modulus()), log, ..self },
            Err(_) => IOStats { flush_calls: self.flush_calls.fail(1, u64::modulus()), log, ..self },
        }
    }
}

} // verus!
