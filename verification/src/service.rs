//! The service's own state: the identifier allocator and the byte budget,
//! bound to the steps of a creation. The store handle is the caller's.
use crate::allocator::IdAllocator;
use crate::failure::Failure;
use crate::ingest::{
    conclude, conclusion_owed, consumed, creation_owed, event_views, ingest_at, joined, payloads,
    total_len, Reassembler, ResponseCreate, StreamEvent,
};
use crate::record::{Data, WireView};
use crate::relay::responses_for;
use vstd::prelude::*;

verus! {

/// What the service keeps between requests.
#[derive(Clone, Debug, PartialEq, Eq)]
pub struct SqliteCruder {
    allocator: IdAllocator,
    buf_len_limit: usize,
}

impl SqliteCruder {
    /// The allocator's base: the last identifier that was committed.
    pub closed spec fn base(&self) -> int {
        self.allocator.base()
    }

    /// The byte budget of a creation.
    pub closed spec fn budget(&self) -> int {
        self.buf_len_limit as int
    }

    /// The service at startup: `max_id` is the largest identifier in the
    /// store, `None` where the store is empty, and becomes the allocator's
    /// base; `buf_len_limit` is the configured byte budget.
    pub fn new(max_id: Option<i32>, buf_len_limit: usize) -> (s: SqliteCruder)
        ensures
            s.base() == match max_id {
                Some(m) => m as int,
                None => 0,
            },
            s.budget() == buf_len_limit as int,
    {
        SqliteCruder { allocator: IdAllocator::new(max_id), buf_len_limit }
    }

    /// The last identifier that was committed.
    pub fn base_id(&self) -> (b: i32)
        ensures
            b as int == self.base(),
    {
        self.allocator.base_id()
    }

    /// The byte budget of a creation.
    pub fn buf_len_limit(&self) -> (l: usize)
        ensures
            l as int == self.budget(),
    {
        self.buf_len_limit
    }

    /// The reassembler for one creation: empty, under the service's budget.
    pub fn begin_create(&self) -> (r: Reassembler)
        ensures
            r.wf(),
            r.limit() == self.budget(),
            r.parts() == Seq::<Seq<u8>>::empty(),
            r.meta() is None,
    {
        Reassembler::new(self.buf_len_limit)
    }

    /// Ends an upload at time `now` against the service's allocator: the
    /// record to write, under the identifier one above the base, or the
    /// reason why there is none. The base does not move.
    pub fn finish_create_at(&self, state: Reassembler, now: i32) -> (r: Result<Data, Failure>)
        requires
            state.wf(),
        ensures
            state.over_budget() ==> r matches Err(Failure::StreamTooLong),
            state.meta() is None ==> r matches Err(Failure::IncompleteMessage),
            !state.over_budget() && state.meta() is Some && self.base() >= i32::MAX ==> r matches Err(
                Failure::IdentifiersExhausted,
            ),
            !state.over_budget() && state.meta() is Some && self.base() < i32::MAX ==> (r is Ok
                && r->Ok_0@ == crate::ingest::assembled(
                state.meta()->0,
                state.parts(),
                self.base() + 1,
                now as int,
            )),
    {
        state.finish_at(&self.allocator, now)
    }

    /// Runs a whole creation whose stream is already at hand, up to the
    /// record to write, at time `now`.
    pub fn create_at(&self, events: Vec<StreamEvent>, now: i32) -> (r: Result<Data, Failure>)
        ensures
            creation_owed(
                consumed(event_views(events@)),
                self.budget(),
                self.base(),
                now as int,
                r,
            ),
    {
        ingest_at(events, self.buf_len_limit, &self.allocator, now)
    }

    /// Runs a whole creation whose stream is already at hand, up to the
    /// record to write, at the current time.
    pub fn create(&self, events: Vec<StreamEvent>) -> (r: Result<Data, Failure>)
        ensures
            exists|t: i32|
                creation_owed(
                    consumed(event_views(events@)),
                    self.budget(),
                    self.base(),
                    t as int,
                    r,
                ),
    {
        let t: i32 = crate::record::now();
        let r = self.create_at(events, t);
        assert(creation_owed(
            consumed(event_views(events@)),
            self.budget(),
            self.base(),
            t as int,
            r,
        ));
        r
    }

    /// Closes a creation once the store has answered: commits the allocator
    /// where the record was written, and only then.
    pub fn conclude_create(&mut self, written: Result<(), String>) -> (r: Result<
        ResponseCreate,
        Failure,
    >)
        ensures
            final(self).budget() == old(self).budget(),
            conclusion_owed(old(self).base(), final(self).base(), written, r),
    {
        conclude(&mut self.allocator, written)
    }
}

/// Creations that follow one another never share an identifier: once a
/// creation has been closed with success, the record of the next one gets
/// the identifier one above the one that was answered.
pub proof fn law_next_creation_gets_next_id(
    before: int,
    after: int,
    answer: Result<ResponseCreate, Failure>,
    chunks: Seq<WireView>,
    limit: int,
    now: int,
    next: Result<Data, Failure>,
)
    requires
        conclusion_owed(before, after, Ok(()), answer),
        answer is Ok,
        creation_owed(chunks, limit, after, now, next),
        next is Ok,
    ensures
        next->Ok_0@.id == answer->Ok_0.id + 1,
        after == answer->Ok_0.id,
{
}

/// A creation that fails at any point leaves the allocator where it was:
/// a failed upload never gets as far as the allocator, and a failed write
/// does not commit.
pub proof fn law_failure_keeps_base(
    before: int,
    after: int,
    written: Result<(), String>,
    answer: Result<ResponseCreate, Failure>,
)
    requires
        conclusion_owed(before, after, written, answer),
        answer is Err,
    ensures
        after == before,
{
}

/// A creation that the store accepts: where at least one chunk came, the
/// payloads fit the budget and an identifier is left, the record to write
/// carries the identifier one above the base, whatever identifier the first
/// chunk brought, the first chunk's name and content type, and all payloads
/// joined in the order of arrival; the answer is a success under that same
/// identifier, and the base has moved up to it.
pub proof fn law_creation_writes_the_upload(
    chunks: Seq<WireView>,
    limit: int,
    base: int,
    after: int,
    now: int,
    record: Result<Data, Failure>,
    answer: Result<ResponseCreate, Failure>,
)
    requires
        chunks.len() > 0,
        total_len(payloads(chunks)) <= limit,
        base < i32::MAX,
        creation_owed(chunks, limit, base, now, record),
        conclusion_owed(base, after, Ok(()), answer),
    ensures
        record is Ok,
        answer is Ok,
        answer->Ok_0.ok,
        answer->Ok_0.id == base + 1,
        after == base + 1,
        record->Ok_0@.id == answer->Ok_0.id,
        record->Ok_0@.name == chunks[0].name,
        record->Ok_0@.mime == chunks[0].mime,
        record->Ok_0@.content == joined(payloads(chunks)),
        now != 0 ==> record->Ok_0@.normalized(),
{
}

/// Reading back what a creation wrote: where the creation succeeded and the
/// store hands back that one record, the answer is exactly one message, a
/// success, that carries the record's identifier and the uploaded bytes in
/// their order, byte for byte. The identifier zero cannot travel, so the
/// base just below it is left out.
pub proof fn law_read_returns_the_upload(
    chunks: Seq<WireView>,
    limit: int,
    base: int,
    now: int,
    record: Result<Data, Failure>,
)
    requires
        creation_owed(chunks, limit, base, now, record),
        record is Ok,
        base != -1,
    ensures
        responses_for(seq![record->Ok_0]).len() == 1,
        responses_for(seq![record->Ok_0])[0].ok,
        responses_for(seq![record->Ok_0])[0].desc is None,
        responses_for(seq![record->Ok_0])[0].results is Some,
        responses_for(seq![record->Ok_0])[0].results->0.id == Some(base + 1),
        responses_for(seq![record->Ok_0])[0].results->0.name == chunks[0].name,
        responses_for(seq![record->Ok_0])[0].results->0.mime == chunks[0].mime,
        responses_for(seq![record->Ok_0])[0].results->0.content == joined(payloads(chunks)),
{
}

} // verus!
