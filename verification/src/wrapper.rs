//! The wrapper itself.

use crate::forward;
use crate::iop::{classify, outcome_of, IopActions, IopResults};
use crate::log::OperationLog;
use crate::signed_abs::{moved_by, relative_seek_target};
use crate::stats::IOStats;
use crate::success_failure_ctr::SuccessFailureCounter;
use std::io::{ErrorKind, IoSlice, IoSliceMut, Read, Seek, SeekFrom, Write};
use vstd::prelude::*;

verus! {

/// Whether a seek that ended with `outcome` fits a cursor that stood at
/// `before`.
///
/// Only a successful seek relative to the current position can be held
/// against the cursor: it has to end at exactly `before` plus the offset.
/// Every other call fits.
pub open spec fn seek_agrees(before: nat, pos: SeekFrom, outcome: Result<u64, ErrorKind>) -> bool {
    match (pos, outcome) {
        (SeekFrom::Current(offset), Ok(n)) => moved_by(before, offset) == Some(n),
        _ => true,
    }
}

/// A wrapper around an IO object that tracks operations and statistics.
#[derive(Debug)]
pub struct IOStatWrapper<T, C> {
    inner_io: T,
    iop_log: C,
    read_call_counter: SuccessFailureCounter<u64>,
    read_byte_counter: usize,
    seek_call_counter: SuccessFailureCounter<u64>,
    seek_pos: u64,
    write_call_counter: SuccessFailureCounter<u64>,
    write_flush_counter: SuccessFailureCounter<u64>,
    write_byte_counter: usize,
}

impl<T, C: OperationLog> View for IOStatWrapper<T, C> {
    type V = IOStats;

    closed spec fn view(&self) -> IOStats {
        IOStats {
            read_calls: self.read_call_counter@,
            read_bytes: self.read_byte_counter as nat,
            seek_calls: self.seek_call_counter@,
            seek_pos: self.seek_pos as nat,
            write_calls: self.write_call_counter@,
            flush_calls: self.write_flush_counter@,
            write_bytes: self.write_byte_counter as nat,
            log: self.iop_log.records(),
        }
    }
}

impl<T, C: OperationLog> IOStatWrapper<T, C> {
    /// The wrapped object.
    pub closed spec fn inner(&self) -> T {
        self.inner_io
    }

    /// The numbers of a wrapper are numbers that a wrapper can hold.
    pub proof fn lemma_in_range(&self)
        ensures
            self@.in_range(),
    {
        self.read_call_counter.lemma_in_range();
        self.seek_call_counter.lemma_in_range();
        self.write_call_counter.lemma_in_range();
        self.write_flush_counter.lemma_in_range();
    }

    /// Create a new IOStatWrapper with a manually given seek position.
    ///
    /// The wrapper cannot ask an object where its cursor stands, so the
    /// caller says.
    pub fn new(obj: T, start_seek_pos: u64) -> (wrapper: IOStatWrapper<T, C>)
        ensures
            wrapper.inner() == obj,
            wrapper@ == IOStats::initial(start_seek_pos),
    {
        IOStatWrapper {
            inner_io: obj,
            iop_log: C::empty(),
            read_call_counter: SuccessFailureCounter::default(),
            read_byte_counter: 0,
            seek_call_counter: SuccessFailureCounter::default(),
            seek_pos: start_seek_pos,
            write_call_counter: SuccessFailureCounter::default(),
            write_flush_counter: SuccessFailureCounter::default(),
            write_byte_counter: 0,
        }
    }

    /// Hands back the wrapped object. The statistics are dropped.
    pub fn into_inner(self) -> (obj: T)
        ensures
            obj == self.inner(),
    {
        self.inner_io
    }

    /// Get the IO operation log containing operations and their results.
    pub fn iop_log(&self) -> (log: &C)
        ensures
            log.records() == self@.log,
    {
        &self.iop_log
    }

    /// The reads that succeeded and failed.
    pub fn read_call_counter(&self) -> (counter: &SuccessFailureCounter<u64>)
        ensures
            counter@ == self@.read_calls,
    {
        &self.read_call_counter
    }

    /// The bytes that reads brought in.
    pub fn read_byte_counter(&self) -> (bytes: usize)
        ensures
            bytes == self@.read_bytes,
    {
        self.read_byte_counter
    }

    /// The seeks that succeeded and failed.
    pub fn seek_call_counter(&self) -> (counter: &SuccessFailureCounter<u64>)
        ensures
            counter@ == self@.seek_calls,
    {
        &self.seek_call_counter
    }

    /// Get the current seek position without doing an actual seek operation.
    pub fn seek_pos(&self) -> (position: u64)
        ensures
            position == self@.seek_pos,
    {
        self.seek_pos
    }

    /// The writes that succeeded and failed.
    pub fn write_call_counter(&self) -> (counter: &SuccessFailureCounter<u64>)
        ensures
            counter@ == self@.write_calls,
    {
        &self.write_call_counter
    }

    /// The flushes that succeeded and failed.
    pub fn write_flush_counter(&self) -> (counter: &SuccessFailureCounter<u64>)
        ensures
            counter@ == self@.flush_calls,
    {
        &self.write_flush_counter
    }

    /// The bytes that writes took.
    pub fn write_byte_counter(&self) -> (bytes: usize)
        ensures
            bytes == self@.write_bytes,
    {
        self.write_byte_counter
    }

    /// Takes note of a read into a buffer of `requested` bytes that ended
    /// with `outcome`.
    pub fn record_read(&mut self, requested: usize, outcome: Result<usize, ErrorKind>)
        ensures
            final(self)@ == old(self)@.after_read::<C>(requested, outcome),
            final(self).inner() == old(self).inner(),
    {
        match outcome {
            Ok(n) => {
                self.read_call_counter.increment_success();
                self.read_byte_counter = self.read_byte_counter.wrapping_add(n);
                self.seek_pos = self.seek_pos.wrapping_add(u64::try_from(n).unwrap());
            },
            Err(_) => {
                self.read_call_counter.increment_failure();
            },
        }
        self.iop_log.add_record((IopActions::Read(requested), IopResults::Read(outcome)));
    }

    /// Takes note of a seek to `pos` that ended with `outcome`, and says
    /// whether that outcome fits the cursor as it stood before.
    ///
    /// The cursor follows the stream whether it fits or not: after a
    /// successful seek it stands where the stream said.
    pub fn record_seek(&mut self, pos: SeekFrom, outcome: Result<u64, ErrorKind>) -> (agrees: bool)
        ensures
            final(self)@ == old(self)@.after_seek::<C>(pos, outcome),
            final(self).inner() == old(self).inner(),
            agrees == seek_agrees(old(self)@.seek_pos, pos, outcome),
    {
        let old_pos = self.seek_pos;
        let agrees = match outcome {
            Ok(n) => {
                self.seek_call_counter.increment_success();
                self.seek_pos = n;
                match pos {
                    SeekFrom::Current(offset) => match relative_seek_target(old_pos, offset) {
                        Some(expected) => expected == n,
                        None => false,
                    },
                    _ => true,
                }
            },
            Err(_) => {
                self.seek_call_counter.increment_failure();
                true
            },
        };
        self.iop_log.add_record((IopActions::Seek(pos), IopResults::Seek(outcome)));
        agrees
    }

    /// Takes note of a write of a buffer of `requested` bytes that ended
    /// with `outcome`.
    pub fn record_write(&mut self, requested: usize, outcome: Result<usize, ErrorKind>)
        ensures
            final(self)@ == old(self)@.after_write::<C>(requested, outcome),
            final(self).inner() == old(self).inner(),
    {
        match outcome {
            Ok(n) => {
                self.write_call_counter.increment_success();
                self.write_byte_counter = self.write_byte_counter.wrapping_add(n);
                self.seek_pos = self.seek_pos.wrapping_add(u64::try_from(n).unwrap());
            },
            Err(_) => {
                self.write_call_counter.increment_failure();
            },
        }
        self.iop_log.add_record((IopActions::Write(requested), IopResults::Write(outcome)));
    }

    /// Takes note of a flush that ended with `outcome`.
    pub fn record_flush(&mut self, outcome: Result<(), ErrorKind>)
        ensures
            final(self)@ == old(self)@.after_flush::<C>(outcome),
            final(self).inner() == old(self).inner(),
    {
        match outcome {
            Ok(_) => {
                self.write_flush_counter.increment_success();
            },
            Err(_) => {
                self.write_flush_counter.increment_failure();
            },
        }
        self.iop_log.add_record((IopActions::Flush, IopResults::Flush(outcome)));
    }
}

impl<T: Seek, C: OperationLog> IOStatWrapper<T, C> {
    /// Seeks like [`Seek::seek`], and says besides whether the stream ended
    /// where the cursor arithmetic expects it.
    ///
    /// A `false` means that the wrapper and the stream were out of step
    /// before the call: the starting position given to [`Self::new`] was
    /// wrong, or the stream moved without the wrapper seeing it. That is
    /// not an I/O error, and the result of the seek is not touched by it.
    pub fn seek_checked(&mut self, pos: SeekFrom) -> (checked: (std::io::Result<u64>, bool))
        ensures
            final(self)@ == old(self)@.after_seek::<C>(pos, outcome_of(checked.0)),
            checked.1 == seek_agrees(old(self)@.seek_pos, pos, outcome_of(checked.0)),
    {
        let result = forward::seek(&mut self.inner_io, pos);
        let agrees = self.record_seek(pos, classify(&result));
        (result, agrees)
    }
}

impl<T: Read, C: OperationLog> Read for IOStatWrapper<T, C> {
    /// Reads from the wrapped object and takes note of the outcome.
    fn read(&mut self, buf: &mut [u8]) -> (result: std::io::Result<usize>)
        ensures
            final(self)@ == old(self)@.after_read::<C>(
                old(buf)@.len() as usize,
                outcome_of(result),
            ),
    {
        let requested = buf.len();
        let result = forward::read(&mut self.inner_io, buf);
        self.record_read(requested, classify(&result));
        result
    }

    /// Handed on as it is: the reads that the wrapped object makes of
    /// itself are not counted here.
    fn read_vectored(&mut self, bufs: &mut [IoSliceMut<'_>]) -> (result: std::io::Result<usize>)
        ensures
            final(self)@ == old(self)@,
    {
        forward::read_vectored(&mut self.inner_io, bufs)
    }

    /// Handed on as it is.
    fn read_to_end(&mut self, buf: &mut Vec<u8>) -> (result: std::io::Result<usize>)
        ensures
            final(self)@ == old(self)@,
    {
        forward::read_to_end(&mut self.inner_io, buf)
    }

    /// Handed on as it is.
    fn read_to_string(&mut self, buf: &mut String) -> (result: std::io::Result<usize>)
        ensures
            final(self)@ == old(self)@,
    {
        forward::read_to_string(&mut self.inner_io, buf)
    }

    /// Handed on as it is.
    fn read_exact(&mut self, buf: &mut [u8]) -> (result: std::io::Result<()>)
        ensures
            final(self)@ == old(self)@,
    {
        forward::read_exact(&mut self.inner_io, buf)
    }

    /// The wrapper itself, not the wrapped object: what is read through
    /// the reference is still counted.
    fn by_ref(&mut self) -> (same: &mut Self)
        ensures
            *same == *old(self),
            *final(self) == *final(same),
    {
        self
    }
}

impl<T: Seek, C: OperationLog> Seek for IOStatWrapper<T, C> {
    /// Seeks in the wrapped object and takes note of the outcome. After a
    /// successful seek the cursor stands where the wrapped object said,
    /// whatever was asked for.
    fn seek(&mut self, pos: SeekFrom) -> (result: std::io::Result<u64>)
        ensures
            final(self)@ == old(self)@.after_seek::<C>(pos, outcome_of(result)),
            result matches Ok(n) ==> final(self)@.seek_pos == n,
            result is Err ==> final(self)@.seek_pos == old(self)@.seek_pos,
    {
        let (result, _) = self.seek_checked(pos);
        result
    }

    /// Handed on as it is: if the wrapped object seeks to do this, that
    /// seek is its own.
    fn rewind(&mut self) -> (result: std::io::Result<()>)
        ensures
            final(self)@ == old(self)@,
    {
        forward::rewind(&mut self.inner_io)
    }

    /// Handed on as it is. This asks the wrapped object: for the
    /// wrapper's own cursor see [`IOStatWrapper::seek_pos`].
    fn stream_position(&mut self) -> (result: std::io::Result<u64>)
        ensures
            final(self)@ == old(self)@,
    {
        forward::stream_position(&mut self.inner_io)
    }
}

impl<T: Write, C: OperationLog> Write for IOStatWrapper<T, C> {
    /// Writes to the wrapped object and takes note of the outcome.
    fn write(&mut self, buf: &[u8]) -> (result: std::io::Result<usize>)
        ensures
            final(self)@ == old(self)@.after_write::<C>(buf@.len() as usize, outcome_of(result)),
    {
        let result = forward::write(&mut self.inner_io, buf);
        self.record_write(buf.len(), classify(&result));
        result
    }

    /// Flushes the wrapped object and takes note of the outcome.
    fn flush(&mut self) -> (result: std::io::Result<()>)
        ensures
            final(self)@ == old(self)@.after_flush::<C>(outcome_of(result)),
    {
        let result = forward::flush(&mut self.inner_io);
        self.record_flush(classify(&result));
        result
    }

    /// Handed on as it is.
    fn write_vectored(&mut self, bufs: &[IoSlice<'_>]) -> (result: std::io::Result<usize>)
        ensures
            final(self)@ == old(self)@,
    {
        forward::write_vectored(&mut self.inner_io, bufs)
    }

    /// Handed on as it is.
    fn write_all(&mut self, buf: &[u8]) -> (result: std::io::Result<()>)
        ensures
            final(self)@ == old(self)@,
    {
        forward::write_all(&mut self.inner_io, buf)
    }

    /// Handed on as it is.
    fn write_fmt(&mut self, fmt: std::fmt::Arguments<'_>) -> (result: std::io::Result<()>)
        ensures
            final(self)@ == old(self)@,
    {
        forward::write_fmt(&mut self.inner_io, fmt)
    }

    /// The wrapper itself, not the wrapped object.
    fn by_ref(&mut self) -> (same: &mut Self)
        ensures
            *same == *old(self),
            *final(self) == *final(same),
    {
        self
    }
}

} // verus!
