//! What holds of the wrapper's numbers whatever the calls were.

use crate::log::OperationLog;
use crate::signed_abs::moved_by;
use crate::stats::IOStats;
use crate::success_failure_ctr::CounterView;
use crate::wrapper::seek_agrees;
use std::io::{ErrorKind, SeekFrom};
use vstd::prelude::*;

verus! {

/// A read that succeeded: the size of the buffer it was given, and the
/// number of bytes it brought in.
pub struct ReadDone {
    pub requested: usize,
    pub transferred: usize,
}

/// The numbers after every read of `reads` has succeeded, one after the
/// other, in a wrapper that logs to a `C`.
pub open spec fn after_reads<C: OperationLog>(stats: IOStats, reads: Seq<ReadDone>) -> IOStats
    decreases reads.len(),
{
    if reads.len() == 0 {
        stats
    } else {
        after_reads::<C>(stats, reads.drop_last()).after_read::<C>(
            reads.last().requested,
            Ok(reads.last().transferred),
        )
    }
}

/// The bytes that all of `reads` brought in together.
pub open spec fn total_transferred(reads: Seq<ReadDone>) -> nat
    decreases reads.len(),
{
    if reads.len() == 0 {
        0
    } else {
        total_transferred(reads.drop_last()) + reads.last().transferred as nat
    }
}

/// Successful reads add up: after a run of them the byte total has grown by
/// exactly the bytes they brought in, and the cursor has gone forward by as
/// much. Nothing else that is counted has moved but the tally of
/// successful reads.
///
/// This is for runs that stay within what a `usize` total and a `u64`
/// cursor can hold.
pub proof fn lemma_successful_reads_add_up<C: OperationLog>(stats: IOStats, reads: Seq<ReadDone>)
    requires
        stats.read_bytes + total_transferred(reads) <= usize::MAX,
        stats.seek_pos + total_transferred(reads) <= u64::MAX,
    ensures
        after_reads::<C>(stats, reads).read_bytes == stats.read_bytes + total_transferred(reads),
        after_reads::<C>(stats, reads).seek_pos == stats.seek_pos + total_transferred(reads),
        after_reads::<C>(stats, reads).read_calls.failures == stats.read_calls.failures,
        after_reads::<C>(stats, reads).seek_calls == stats.seek_calls,
        after_reads::<C>(stats, reads).write_calls == stats.write_calls,
        after_reads::<C>(stats, reads).flush_calls == stats.flush_calls,
        after_reads::<C>(stats, reads).write_bytes == stats.write_bytes,
    decreases reads.len(),
{
    if reads.len() > 0 {
        lemma_successful_reads_add_up::<C>(stats, reads.drop_last());
    }
}

/// In a fresh wrapper, a run of successful reads leaves the byte total at
/// exactly the bytes they brought in, and the cursor that far beyond where
/// it started.
pub proof fn lemma_first_reads_add_up<C: OperationLog>(start_seek_pos: u64, reads: Seq<ReadDone>)
    requires
        total_transferred(reads) <= usize::MAX,
        start_seek_pos + total_transferred(reads) <= u64::MAX,
    ensures
        after_reads::<C>(IOStats::initial(start_seek_pos), reads).read_bytes == total_transferred(
            reads,
        ),
        after_reads::<C>(IOStats::initial(start_seek_pos), reads).seek_pos == start_seek_pos
            + total_transferred(reads),
{
    lemma_successful_reads_add_up::<C>(IOStats::initial(start_seek_pos), reads);
}

/// A wrapper starts out with numbers that it can hold.
pub proof fn lemma_initial_in_range(start_seek_pos: u64)
    ensures
        IOStats::initial(start_seek_pos).in_range(),
{
}

/// No call takes the numbers out of what a wrapper can hold, however it
/// ends.
pub proof fn lemma_steps_stay_in_range<C: OperationLog>(
    stats: IOStats,
    requested: usize,
    pos: SeekFrom,
    transfer: Result<usize, ErrorKind>,
    seek: Result<u64, ErrorKind>,
    flush: Result<(), ErrorKind>,
)
    requires
        stats.in_range(),
    ensures
        stats.after_read::<C>(requested, transfer).in_range(),
        stats.after_seek::<C>(pos, seek).in_range(),
        stats.after_write::<C>(requested, transfer).in_range(),
        stats.after_flush::<C>(flush).in_range(),
{
}

/// After a successful seek the cursor stands where the stream said,
/// whatever was asked for and wherever the cursor stood before.
pub proof fn lemma_seek_sets_cursor<C: OperationLog>(stats: IOStats, pos: SeekFrom, reached: u64)
    ensures
        stats.after_seek::<C>(pos, Ok(reached)).seek_pos == reached,
{
}

/// A seek that failed leaves the cursor where it was.
pub proof fn lemma_failed_seek_keeps_cursor<C: OperationLog>(
    stats: IOStats,
    pos: SeekFrom,
    kind: ErrorKind,
)
    ensures
        stats.after_seek::<C>(pos, Err(kind)).seek_pos == stats.seek_pos,
{
}

/// A successful seek relative to the cursor fits the cursor exactly when it
/// ends at the cursor plus the offset, the sum taken in the integers: no
/// offset is special, the most negative one included.
pub proof fn lemma_relative_seek_is_exact(before: nat, offset: i64, reached: u64)
    ensures
        seek_agrees(before, SeekFrom::Current(offset), Ok(reached)) <==> reached == before + offset,
        moved_by(before, offset) matches Some(target) ==> target == before + offset,
        moved_by(before, offset) is Some <==> 0 <= before + offset <= u64::MAX,
{
}

/// The attempts of a counter are its successes and its failures together,
/// as long as that sum is a value of the counter's type.
pub proof fn lemma_attempts_are_successes_and_failures(counter: CounterView, modulus: nat)
    requires
        counter.successes + counter.failures < modulus,
    ensures
        counter.attempts(modulus) == counter.successes + counter.failures,
{
}

/// Beyond that, the attempts are the same sum wrapped around once.
pub proof fn lemma_attempts_wrap(counter: CounterView, modulus: nat)
    requires
        counter.successes < modulus,
        counter.failures < modulus,
        counter.successes + counter.failures >= modulus,
    ensures
        counter.attempts(modulus) == counter.successes + counter.failures - modulus,
{
}

/// While a count stays within its type it never goes down.
pub proof fn lemma_counts_grow(counter: CounterView, amount: nat, modulus: nat)
    requires
        counter.successes + amount < modulus,
        counter.failures + amount < modulus,
    ensures
        counter.succeed(amount, modulus).successes == counter.successes + amount,
        counter.succeed(amount, modulus).failures == counter.failures,
        counter.fail(amount, modulus).failures == counter.failures + amount,
        counter.fail(amount, modulus).successes == counter.successes,
{
}

} // verus!
