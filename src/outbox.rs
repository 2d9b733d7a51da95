//! The outbox: audit records whose delivery to the event log failed, oldest
//! first. Each new submission first retries the oldest failed record once,
//! without waiting on its outcome, and then sends the new record; a record
//! whose delivery fails goes to the back of the queue.
//!
//! So one submission costs at most two deliveries, but a record may be
//! retried many times without its outcome reaching anyone, and a new record
//! can be delivered before older queued ones. Draining the whole queue in
//! order before each new record would give the stricter guarantee.

use std::collections::VecDeque;
use vstd::prelude::*;
use crate::types::{TxError, TxRecord};

verus! {

#[derive(Debug, Clone)]
pub struct TxLog {
    pub ie_records: VecDeque<TxRecord>,
}

/// The deliveries to attempt for one submission, in order.
#[derive(Debug, Clone)]
pub struct CapBatch {
    pub retry: Option<TxRecord>,
    pub record: TxRecord,
}

impl TxLog {
    pub fn new() -> (r: TxLog)
        ensures
            r.ie_records@.len() == 0,
    {
        TxLog { ie_records: VecDeque::new() }
    }

    pub fn len(&self) -> (r: usize)
        ensures
            r == self.ie_records@.len(),
    {
        self.ie_records.len()
    }

    /// Starts the submission of `record`: takes the oldest failed record, if
    /// any, to be sent again before `record`.
    pub fn insert_into_cap(&mut self, record: TxRecord) -> (r: CapBatch)
        ensures
            r.record == record,
            old(self).ie_records@.len() == 0 ==> r.retry is None && final(self).ie_records@
                == old(self).ie_records@,
            old(self).ie_records@.len() > 0 ==> r.retry == Some(old(self).ie_records@[0])
                && final(self).ie_records@ == old(self).ie_records@.drop_first(),
    {
        let retry = self.ie_records.pop_front();
        assert(old(self).ie_records@.len() > 0 ==> self.ie_records@ =~= old(self).ie_records@.drop_first());
        CapBatch { retry, record }
    }

    /// Records the outcome of one delivery: a failed record is queued at the
    /// back and reported as `Other`; a delivered one yields its log id.
    pub fn settle(&mut self, record: TxRecord, outcome: Result<u64, ()>) -> (r: Result<
        u64,
        TxError,
    >)
        ensures
            match outcome {
                Ok(id) => r == Ok::<u64, TxError>(id) && final(self).ie_records@ == old(
                    self,
                ).ie_records@,
                Err(_) => r == Err::<u64, TxError>(TxError::Other) && final(self).ie_records@
                    == old(self).ie_records@.push(record),
            },
    {
        match outcome {
            Ok(id) => Ok(id),
            Err(_) => {
                self.ie_records.push_back(record);
                Err(TxError::Other)
            },
        }
    }
}

} // verus!
