//! Where the wrapper keeps its records.
//!
//! Anything that can start out empty and take one record after another
//! will do. A `Vec` keeps the whole history; [`NoLog`] keeps nothing.

use crate::iop::IopInfoPair;
use vstd::prelude::*;

verus! {

/// A container for the records of a wrapper.
pub trait OperationLog: Sized {
    /// The records that the container holds, oldest first.
    spec fn records(&self) -> Seq<IopInfoPair>;

    /// What a container with `history` holds once `record` is handed to it.
    spec fn with_record(history: Seq<IopInfoPair>, record: IopInfoPair) -> Seq<IopInfoPair>;

    /// A container that holds nothing yet.
    fn empty() -> (log: Self)
        ensures
            log.records() == Seq::<IopInfoPair>::empty(),
    ;

    /// Hands one record to the container.
    fn add_record(&mut self, record: IopInfoPair)
        ensures
            final(self).records() == Self::with_record(old(self).records(), record),
    ;
}

impl OperationLog for Vec<IopInfoPair> {
    open spec fn records(&self) -> Seq<IopInfoPair> {
        self@
    }

    open spec fn with_record(history: Seq<IopInfoPair>, record: IopInfoPair) -> Seq<IopInfoPair> {
        history.push(record)
    }

    fn empty() -> (log: Self) {
        Vec::new()
    }

    fn add_record(&mut self, record: IopInfoPair) {
        self.push(record);
    }
}

/// A log that forgets: every record handed to it is dropped.
#[derive(Debug, Clone, Copy, PartialEq, Eq)]
pub struct NoLog;

impl OperationLog for NoLog {
    open spec fn records(&self) -> Seq<IopInfoPair> {
        Seq::empty()
    }

    open spec fn with_record(history: Seq<IopInfoPair>, record: IopInfoPair) -> Seq<IopInfoPair> {
        history
    }

    fn empty() -> (log: Self) {
        NoLog
    }

    fn add_record(&mut self, record: IopInfoPair) {
    }
}

} // verus!
