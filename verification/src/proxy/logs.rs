//! The journal of completed exchanges.
//!
//! The journal is a plain value. A program in which several connections
//! append keeps it behind a lock, which puts their appends in one order.

use vstd::prelude::*;
use crate::proxy::message::{HttpRequest, HttpResponse, RequestView, ResponseView};

verus! {

/// A request and the response that answered it.
#[derive(Debug, PartialEq, Eq)]
pub struct HttpRecord {
    /// The request, as the client sent it.
    pub request: HttpRequest,
    /// The response, as the client received it.
    pub response: HttpResponse,
}

/// A record as mathematical values.
pub struct RecordView {
    /// The request.
    pub request: RequestView,
    /// The response.
    pub response: ResponseView,
}

impl View for HttpRecord {
    type V = RecordView;

    open spec fn view(&self) -> RecordView {
        RecordView { request: self.request@, response: self.response@ }
    }
}

impl Clone for HttpRecord {
    fn clone(&self) -> (copy: Self)
        ensures
            copy@ == self@,
    {
        HttpRecord { request: self.request.clone(), response: self.response.clone() }
    }
}

/// Records as mathematical values, in order.
pub open spec fn records_view(records: Seq<HttpRecord>) -> Seq<RecordView> {
    records.map_values(|record: HttpRecord| record@)
}

/// The room a new journal has before it grows.
pub const INITIAL_CAPACITY: usize = 1024;

/// An append-only journal of records, in the order in which they were
/// appended.
#[derive(Debug)]
pub struct ProxyLogs {
    records: Vec<HttpRecord>,
}

impl View for ProxyLogs {
    type V = Seq<RecordView>;

    closed spec fn view(&self) -> Seq<RecordView> {
        records_view(self.records@)
    }
}

impl ProxyLogs {
    /// An empty journal.
    pub fn new() -> (logs: Self)
        ensures
            logs@ == Seq::<RecordView>::empty(),
    {
        let logs = Self { records: Vec::with_capacity(INITIAL_CAPACITY) };
        assert(logs@ =~= Seq::<RecordView>::empty());
        logs
    }

    /// Appends a record. Those already there stay, unchanged and in their
    /// order; the new one comes last.
    pub fn append(&mut self, record: HttpRecord)
        ensures
            final(self)@ == old(self)@.push(record@),
    {
        self.records.push(record);
        assert(self@ =~= old(self)@.push(record@));
    }

    /// The number of records.
    pub fn len(&self) -> (n: usize)
        ensures
            n == self@.len(),
    {
        self.records.len()
    }

    /// The record at `index`, counted from the oldest; `None` past the
    /// end.
    pub fn get(&self, index: usize) -> (record: Option<&HttpRecord>)
        ensures
            index < self@.len() ==> (record matches Some(r) && r@ == self@[index as int]),
            index >= self@.len() ==> record is None,
    {
        if index < self.records.len() {
            Some(&self.records[index])
        } else {
            None
        }
    }

    /// A copy of the journal as it stands: every record, oldest first.
    pub fn snapshot(&self) -> (records: Vec<HttpRecord>)
        ensures
            records_view(records@) == self@,
    {
        let mut records: Vec<HttpRecord> = Vec::with_capacity(self.records.len());
        let mut i: usize = 0;
        while i < self.records.len()
            invariant
                i <= self.records.len(),
                records@.len() == i,
                forall|k: int| 0 <= k < i ==> records@[k]@ == self.records@[k]@,
            decreases self.records.len() - i,
        {
            records.push(self.records[i].clone());
            i += 1;
        }
        assert(records_view(records@) =~= self@);
        records
    }
}

} // verus!
