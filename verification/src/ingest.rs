//! Reassembly of an upload: chunks come in one by one, their payloads are
//! counted against a byte budget and kept in order, and at the end of the
//! stream they are joined into one record under a fresh identifier.
use crate::allocator::{next_after, IdAllocator};
use crate::failure::{Failure, FailureKind};
use crate::record::{Data, RecordView, WireRecord, WireView};
use crate::relay::response_for;
use vstd::prelude::*;

verus! {

/// The payloads laid end to end, in order.
pub open spec fn joined(parts: Seq<Seq<u8>>) -> Seq<u8>
    decreases parts.len(),
{
    if parts.len() == 0 {
        Seq::empty()
    } else {
        joined(parts.drop_last()) + parts.last()
    }
}

/// The number of bytes in all payloads together.
pub open spec fn total_len(parts: Seq<Seq<u8>>) -> nat
    decreases parts.len(),
{
    if parts.len() == 0 {
        0
    } else {
        total_len(parts.drop_last()) + parts.last().len()
    }
}

/// The record that an upload yields: the first chunk's metadata around the
/// joined payloads, under the identifier `id`, with unset timestamps taken
/// as `now`. Whatever identifier the client sent is not looked at.
pub open spec fn assembled(meta: WireView, parts: Seq<Seq<u8>>, id: int, now: int) -> RecordView {
    meta.with_content(joined(parts)).to_record(now).with_id(id).normalize(now)
}

/// The payloads of a vector of fragments.
pub open spec fn payloads_of(fragments: Seq<Vec<u8>>) -> Seq<Seq<u8>> {
    Seq::new(fragments.len(), |i: int| fragments[i]@)
}

/// Adding a payload adds it at the end of the join and its length to the total.
pub proof fn lemma_push_part(parts: Seq<Seq<u8>>, part: Seq<u8>)
    ensures
        joined(parts.push(part)) == joined(parts) + part,
        total_len(parts.push(part)) == total_len(parts) + part.len(),
{
    assert(parts.push(part).drop_last() =~= parts);
    assert(parts.push(part).last() == part);
}

/// The join holds as many bytes as the payloads count together: the budget
/// bounds the length of the record's content.
pub proof fn law_content_length(parts: Seq<Seq<u8>>)
    ensures
        joined(parts).len() == total_len(parts),
    decreases parts.len(),
{
    if parts.len() > 0 {
        law_content_length(parts.drop_last());
    }
}

/// What the reassembler has built up so far.
#[derive(Clone, Debug, PartialEq, Eq)]
pub struct Reassembler {
    limit: usize,
    total: usize,
    exceeded: bool,
    fragments: Vec<Vec<u8>>,
    head: Option<WireRecord>,
}

impl Reassembler {
    /// The byte budget.
    pub closed spec fn limit(&self) -> int {
        self.limit as int
    }

    /// The payloads received so far, in order of arrival.
    pub closed spec fn parts(&self) -> Seq<Seq<u8>> {
        payloads_of(self.fragments@)
    }

    /// The metadata of the first chunk, once one has arrived; its payload
    /// is held with the others.
    pub closed spec fn meta(&self) -> Option<WireView> {
        match self.head {
            Some(h) => Some(h@),
            None => None,
        }
    }

    /// Whether the payloads received so far are beyond the budget.
    pub open spec fn over_budget(&self) -> bool {
        total_len(self.parts()) > self.limit()
    }

    /// The bookkeeping agrees with what was received.
    pub closed spec fn wf(&self) -> bool {
        &&& self.exceeded <==> total_len(self.parts()) > self.limit as int
        &&& !self.exceeded ==> self.total as int == total_len(self.parts())
        &&& self.head is Some <==> self.fragments@.len() > 0
        &&& self.head is Some ==> self.head->0@.content.len() == 0
    }

    /// A reassembler that has received nothing, with the given byte budget.
    pub fn new(limit: usize) -> (r: Reassembler)
        ensures
            r.wf(),
            r.limit() == limit as int,
            r.parts() == Seq::<Seq<u8>>::empty(),
            r.meta() is None,
    {
        let r = Reassembler {
            limit,
            total: 0,
            exceeded: false,
            fragments: Vec::new(),
            head: None,
        };
        assert(r.parts() =~= Seq::<Seq<u8>>::empty());
        r
    }

    /// The byte budget.
    pub fn budget(&self) -> (l: usize)
        ensures
            l as int == self.limit(),
    {
        self.limit
    }

    /// How many chunks have been received.
    pub fn chunk_count(&self) -> (n: usize)
        ensures
            n as int == self.parts().len(),
    {
        self.fragments.len()
    }

    /// Takes one chunk. Its payload is put behind those already held; the
    /// first chunk also supplies the record's metadata. Fails with
    /// `StreamTooLong` exactly when the payloads then held exceed the budget.
    pub fn accept(&mut self, chunk: WireRecord) -> (r: Result<(), Failure>)
        requires
            old(self).wf(),
        ensures
            final(self).wf(),
            final(self).limit() == old(self).limit(),
            final(self).parts() == old(self).parts().push(chunk@.content),
            final(self).meta() == if old(self).meta() is Some {
                old(self).meta()
            } else {
                Some(chunk@.with_content(Seq::empty()))
            },
            final(self).over_budget() ==> r matches Err(Failure::StreamTooLong),
            !final(self).over_budget() ==> r is Ok,
    {
        let WireRecord { id, name, mime, created, updated, content } = chunk;
        let len: usize = content.len();
        proof {
            lemma_push_part(old(self).parts(), content@);
        }
        self.fragments.push(content);
        assert(self.parts() =~= old(self).parts().push(content@));
        if self.head.is_none() {
            self.head = Some(WireRecord { id, name, mime, created, updated, content: Vec::new() });
        }
        if self.exceeded {
            return Err(Failure::StreamTooLong);
        }
        if len > self.limit - self.total {
            self.exceeded = true;
            return Err(Failure::StreamTooLong);
        }
        self.total = self.total + len;
        Ok(())
    }

    /// The payloads held, joined into one buffer.
    fn concatenate(fragments: &Vec<Vec<u8>>) -> (out: Vec<u8>)
        ensures
            out@ == joined(payloads_of(fragments@)),
    {
        let mut out: Vec<u8> = Vec::new();
        let mut i: usize = 0;
        while i < fragments.len()
            invariant
                i <= fragments.len(),
                out@ == joined(payloads_of(fragments@).take(i as int)),
            decreases fragments.len() - i,
        {
            let fragment = &fragments[i];
            let ghost before = out@;
            let mut j: usize = 0;
            while j < fragment.len()
                invariant
                    j <= fragment.len(),
                    out@ == before + fragment@.take(j as int),
                decreases fragment.len() - j,
            {
                out.push(fragment[j]);
                j = j + 1;
                assert(out@ =~= before + fragment@.take(j as int));
            }
            proof {
                let all = payloads_of(fragments@);
                assert(fragment@.take(j as int) =~= fragment@);
                assert(all.take(i + 1) =~= all.take(i as int).push(fragment@));
                lemma_push_part(all.take(i as int), fragment@);
            }
            i = i + 1;
        }
        assert(payloads_of(fragments@).take(i as int) =~= payloads_of(fragments@));
        out
    }

    /// Ends the upload at time `now`: the record to be written, or the reason
    /// why there is none. The allocator is read, not advanced: that is for
    /// `conclude`, once the record has been written.
    pub fn finish_at(self, allocator: &IdAllocator, now: i32) -> (r: Result<Data, Failure>)
        requires
            self.wf(),
        ensures
            self.over_budget() ==> r matches Err(Failure::StreamTooLong),
            self.meta() is None ==> r matches Err(Failure::IncompleteMessage),
            !self.over_budget() && self.meta() is Some && allocator.spec_exhausted() ==> r matches Err(
                Failure::IdentifiersExhausted,
            ),
            !self.over_budget() && self.meta() is Some && !allocator.spec_exhausted() ==> (r is Ok
                && r->Ok_0@ == assembled(
                self.meta()->0,
                self.parts(),
                next_after(allocator.base()),
                now as int,
            )),
    {
        let Reassembler { limit: _, total: _, exceeded, fragments, head } = self;
        if exceeded {
            return Err(Failure::StreamTooLong);
        }
        match head {
            None => Err(Failure::IncompleteMessage),
            Some(h) => {
                if allocator.exhausted() {
                    return Err(Failure::IdentifiersExhausted);
                }
                let WireRecord { id, name, mime, created, updated, content: _ } = h;
                let content = Self::concatenate(&fragments);
                let whole = WireRecord { id, name, mime, created, updated, content };
                let mut d = Data::from_wire_at(whole, now);
                d.id = allocator.next();
                d.normalize_at(now);
                Ok(d)
            },
        }
    }
}

/// One item of the inbound stream.
#[derive(Clone, Debug, PartialEq, Eq)]
pub enum StreamEvent {
    /// A chunk arrived.
    Chunk(WireRecord),
    /// The transport reported an error; `broken_pipe` says whether the
    /// client has gone away.
    Fault { broken_pipe: bool },
}

/// Mathematical value of a [`StreamEvent`].
pub enum EventView {
    Chunk(WireView),
    Fault { broken_pipe: bool },
}

impl View for StreamEvent {
    type V = EventView;

    open spec fn view(&self) -> EventView {
        match self {
            StreamEvent::Chunk(c) => EventView::Chunk(c@),
            StreamEvent::Fault { broken_pipe } => EventView::Fault { broken_pipe: *broken_pipe },
        }
    }
}

/// What to do after an item of the stream has been handled.
#[derive(Clone, Debug, PartialEq, Eq)]
pub enum Step {
    /// Wait for the next item.
    Continue,
    /// Read no further and end the upload with what is held.
    Stop,
    /// Give the upload up with this failure; nothing is to be written.
    Abort(Failure),
}

/// The metadata held once `chunk` has been taken: that of the first chunk.
pub open spec fn meta_after(before: Option<WireView>, chunk: WireView) -> Option<WireView> {
    if before is Some {
        before
    } else {
        Some(chunk.with_content(Seq::empty()))
    }
}

/// The views of a sequence of stream items.
pub open spec fn event_views(events: Seq<StreamEvent>) -> Seq<EventView> {
    Seq::new(events.len(), |i: int| events[i]@)
}

/// The chunks that are read from a stream: all that come before the first
/// broken pipe. Other transport errors are passed over.
pub open spec fn consumed(events: Seq<EventView>) -> Seq<WireView>
    decreases events.len(),
{
    if events.len() == 0 {
        Seq::empty()
    } else {
        match events.first() {
            EventView::Chunk(c) => seq![c] + consumed(events.drop_first()),
            EventView::Fault { broken_pipe } => if broken_pipe {
                Seq::empty()
            } else {
                consumed(events.drop_first())
            },
        }
    }
}

/// The payloads of a sequence of chunks.
pub open spec fn payloads(chunks: Seq<WireView>) -> Seq<Seq<u8>> {
    Seq::new(chunks.len(), |i: int| chunks[i].content)
}

/// Whether `r` is the outcome owed to an upload of `chunks` under the byte
/// budget `limit`, ended at time `now` while the allocator's base is `base`:
/// too many bytes fail as `StreamTooLong`, no chunk at all as
/// `IncompleteMessage`, and otherwise the record is the first chunk's
/// metadata around all payloads in order, under the identifier `base + 1`.
pub open spec fn creation_owed(
    chunks: Seq<WireView>,
    limit: int,
    base: int,
    now: int,
    r: Result<Data, Failure>,
) -> bool {
    if total_len(payloads(chunks)) > limit {
        r matches Err(Failure::StreamTooLong)
    } else if chunks.len() == 0 {
        r matches Err(Failure::IncompleteMessage)
    } else if base >= i32::MAX {
        r matches Err(Failure::IdentifiersExhausted)
    } else {
        r is Ok && r->Ok_0@ == assembled(chunks[0], payloads(chunks), next_after(base), now)
    }
}

/// More payloads never make the total smaller.
pub proof fn lemma_total_len_grows(a: Seq<Seq<u8>>, b: Seq<Seq<u8>>)
    ensures
        total_len(a + b) >= total_len(a),
    decreases b.len(),
{
    if b.len() == 0 {
        assert(a + b =~= a);
    } else {
        assert((a + b).drop_last() =~= a + b.drop_last());
        lemma_total_len_grows(a, b.drop_last());
    }
}

impl Reassembler {
    /// Whether what is held is what an upload of `chunks` leaves behind.
    pub open spec fn holds(&self, chunks: Seq<WireView>) -> bool {
        &&& self.parts() == payloads(chunks)
        &&& self.meta() == if chunks.len() > 0 {
            Some(chunks[0].with_content(Seq::empty()))
        } else {
            None
        }
    }

    /// Handles one item of the stream. A chunk is taken as `accept` takes
    /// it, and the upload is aborted exactly when the budget is exceeded. A
    /// broken pipe ends the reading; any other transport error changes
    /// nothing and the reading goes on.
    pub fn step(&mut self, event: StreamEvent) -> (s: Step)
        requires
            old(self).wf(),
        ensures
            final(self).wf(),
            final(self).limit() == old(self).limit(),
            match event@ {
                EventView::Chunk(c) => {
                    &&& final(self).parts() == old(self).parts().push(c.content)
                    &&& final(self).meta() == meta_after(old(self).meta(), c)
                    &&& (final(self).over_budget() ==> s matches Step::Abort(
                        Failure::StreamTooLong,
                    ))
                    &&& (!final(self).over_budget() ==> s is Continue)
                },
                EventView::Fault { broken_pipe } => {
                    &&& final(self).parts() == old(self).parts()
                    &&& final(self).meta() == old(self).meta()
                    &&& (broken_pipe ==> s is Stop)
                    &&& (!broken_pipe ==> s is Continue)
                },
            },
    {
        match event {
            StreamEvent::Chunk(chunk) => match self.accept(chunk) {
                Ok(()) => Step::Continue,
                Err(f) => Step::Abort(f),
            },
            StreamEvent::Fault { broken_pipe } => if broken_pipe {
                Step::Stop
            } else {
                Step::Continue
            },
        }
    }

    /// Ends the upload at the current time. See `finish_at`, which says what
    /// the record is for each reading of the clock.
    pub fn finish(self, allocator: &IdAllocator) -> (r: Result<Data, Failure>)
        requires
            self.wf(),
        ensures
            self.over_budget() ==> r matches Err(Failure::StreamTooLong),
            self.meta() is None ==> r matches Err(Failure::IncompleteMessage),
            !self.over_budget() && self.meta() is Some && allocator.spec_exhausted() ==> r matches Err(
                Failure::IdentifiersExhausted,
            ),
            !self.over_budget() && self.meta() is Some && !allocator.spec_exhausted() ==> (r is Ok
                && exists|t: i32|
                r->Ok_0@ == assembled(
                    self.meta()->0,
                    self.parts(),
                    next_after(allocator.base()),
                    t as int,
                )),
    {
        let t: i32 = crate::record::now();
        let r = self.finish_at(allocator, t);
        assert(!self.over_budget() && self.meta() is Some && !allocator.spec_exhausted() ==> r->Ok_0@
            == assembled(self.meta()->0, self.parts(), next_after(allocator.base()), t as int));
        r
    }
}

/// Runs a whole upload that is already at hand: reads the items in order up
/// to the first broken pipe, gives up as soon as the budget is exceeded, and
/// ends the upload at time `now`.
pub fn ingest_at(events: Vec<StreamEvent>, limit: usize, allocator: &IdAllocator, now: i32) -> (r:
    Result<Data, Failure>)
    ensures
        creation_owed(
            consumed(event_views(events@)),
            limit as int,
            allocator.base(),
            now as int,
            r,
        ),
{
    let ghost all = event_views(events@);
    let ghost mut done: Seq<WireView> = Seq::empty();
    let mut state = Reassembler::new(limit);
    assert(state.parts() =~= payloads(done));
    assert(all.skip(0) =~= all);
    assert(done + consumed(all) =~= consumed(all));
    for event in it: events
        invariant
            state.wf(),
            state.limit() == limit as int,
            state.holds(done),
            !state.over_budget(),
            all == event_views(events@),
            consumed(all) == done + consumed(all.skip(it.index())),
    {
        let ghost rest = all.skip(it.index());
        assert(rest.first() == event@);
        assert(rest.drop_first() =~= all.skip(it.index() + 1));
        let ghost before = done;
        proof {
            if let EventView::Chunk(c) = event@ {
                done = done.push(c);
                assert(payloads(done) =~= payloads(before).push(c.content));
                assert(before + (seq![c] + consumed(rest.drop_first())) =~= done + consumed(
                    rest.drop_first(),
                ));
            }
        }
        match state.step(event) {
            Step::Continue => {},
            Step::Stop => {
                assert(consumed(all) =~= done);
                return state.finish_at(allocator, now);
            },
            Step::Abort(f) => {
                proof {
                    let tail = consumed(rest.drop_first());
                    assert(payloads(done + tail) =~= payloads(done) + payloads(tail));
                    lemma_total_len_grows(payloads(done), payloads(tail));
                }
                return Err(f);
            },
        }
    }
    assert(consumed(all) =~= done);
    state.finish_at(allocator, now)
}

/// Runs a whole upload that is already at hand and ends it at the current
/// time. See `ingest_at`, which says what the record is for each reading of
/// the clock.
pub fn ingest(events: Vec<StreamEvent>, limit: usize, allocator: &IdAllocator) -> (r: Result<
    Data,
    Failure,
>)
    ensures
        exists|t: i32|
            creation_owed(
                consumed(event_views(events@)),
                limit as int,
                allocator.base(),
                t as int,
                r,
            ),
{
    let t: i32 = crate::record::now();
    let r = ingest_at(events, limit, allocator, t);
    assert(creation_owed(
        consumed(event_views(events@)),
        limit as int,
        allocator.base(),
        t as int,
        r,
    ));
    r
}

/// The answer to a creation.
#[derive(Clone, Debug, PartialEq, Eq)]
pub struct ResponseCreate {
    pub ok: bool,
    pub id: i32,
    pub desc: String,
}

/// Whether `r`, with the allocator's base going from `before` to `after`,
/// is what closing a creation owes once the store has answered `written`.
/// A record that was written commits the allocator, and the answer carries
/// the identifier `before + 1`; a failed write leaves the allocator alone
/// and passes the store's description on.
pub open spec fn conclusion_owed(
    before: int,
    after: int,
    written: Result<(), String>,
    r: Result<ResponseCreate, Failure>,
) -> bool {
    match written {
        Ok(_) => if before >= i32::MAX {
            &&& after == before
            &&& r matches Err(Failure::IdentifiersExhausted)
        } else {
            &&& after == next_after(before)
            &&& r is Ok
            &&& r->Ok_0.ok
            &&& r->Ok_0.id as int == next_after(before)
            &&& r->Ok_0.desc@.len() == 0
        },
        Err(e) => {
            &&& after == before
            &&& r is Err
            &&& r->Err_0 is Store
            &&& r->Err_0->Store_0@ == e@
        },
    }
}

/// Closes a creation once the store has answered. Where the record was
/// written, the allocator is committed and the answer carries the
/// identifier that the record was given. Where the store failed, the
/// allocator stays as it was and the store's description is passed on.
pub fn conclude(allocator: &mut IdAllocator, written: Result<(), String>) -> (r: Result<
    ResponseCreate,
    Failure,
>)
    ensures
        conclusion_owed(old(allocator).base(), final(allocator).base(), written, r),
{
    match written {
        Ok(_) => {
            if allocator.exhausted() {
                return Err(Failure::IdentifiersExhausted);
            }
            let id: i32 = allocator.next();
            allocator.commit();
            Ok(ResponseCreate { ok: true, id, desc: String::new() })
        },
        Err(e) => Err(Failure::Store(e)),
    }
}

/// The bytes of `data` cut into pieces of the given lengths, in order.
pub open spec fn cut(data: Seq<u8>, lens: Seq<nat>) -> Seq<Seq<u8>>
    decreases lens.len(),
{
    if lens.len() == 0 {
        Seq::empty()
    } else {
        let at = data.len() - lens.last();
        cut(data.take(at), lens.drop_last()).push(data.skip(at))
    }
}

/// The sum of the lengths.
pub open spec fn sum_of(lens: Seq<nat>) -> nat
    decreases lens.len(),
{
    if lens.len() == 0 {
        0
    } else {
        sum_of(lens.drop_last()) + lens.last()
    }
}

/// However a payload is cut into pieces, the pieces joined are the payload
/// again, and together they count as many bytes as it has.
pub proof fn law_join_undoes_cut(data: Seq<u8>, lens: Seq<nat>)
    requires
        sum_of(lens) == data.len(),
    ensures
        cut(data, lens).len() == lens.len(),
        joined(cut(data, lens)) == data,
        total_len(cut(data, lens)) == data.len(),
    decreases lens.len(),
{
    if lens.len() == 0 {
        assert(data =~= Seq::<u8>::empty());
    } else {
        let at = data.len() - lens.last();
        law_join_undoes_cut(data.take(at), lens.drop_last());
        lemma_push_part(cut(data.take(at), lens.drop_last()), data.skip(at));
        assert(data.take(at) + data.skip(at) =~= data);
    }
}

/// Round trip: a payload uploaded in pieces, wherever the cuts fall, is
/// stored and sent back byte for byte.
pub proof fn law_round_trip(meta: WireView, data: Seq<u8>, lens: Seq<nat>, id: int, now: int)
    requires
        sum_of(lens) == data.len(),
    ensures
        assembled(meta, cut(data, lens), id, now).content == data,
        assembled(meta, cut(data, lens), id, now).to_wire().content == data,
{
    law_join_undoes_cut(data, lens);
}

/// Chunk boundaries do not matter: two uploads that open with the same
/// metadata and carry the same bytes yield the same record.
pub proof fn law_boundaries_do_not_matter(
    meta: WireView,
    first: Seq<Seq<u8>>,
    second: Seq<Seq<u8>>,
    id: int,
    now: int,
)
    requires
        joined(first) == joined(second),
    ensures
        assembled(meta, first, id, now) == assembled(meta, second, id, now),
{
}

/// The record of an upload carries the identifier that it was given, and
/// timestamps that are set whenever the clock reads other than zero.
pub proof fn law_assembled_record(meta: WireView, parts: Seq<Seq<u8>>, id: int, now: int)
    ensures
        assembled(meta, parts, id, now).id == id,
        assembled(meta, parts, id, now).name == meta.name,
        assembled(meta, parts, id, now).mime == meta.mime,
        assembled(meta, parts, id, now).content == joined(parts),
        now != 0 ==> assembled(meta, parts, id, now).normalized(),
{
}

/// Budget: an upload whose chunks hold more bytes than the budget allows
/// fails as `StreamTooLong`, and leaves no record to write.
pub proof fn law_budget_enforced(
    chunks: Seq<WireView>,
    limit: int,
    base: int,
    now: int,
    r: Result<Data, Failure>,
)
    requires
        creation_owed(chunks, limit, base, now, r),
        total_len(payloads(chunks)) > limit,
    ensures
        r matches Err(Failure::StreamTooLong),
        r->Err_0.spec_kind() == FailureKind::Cancelled,
{
}

/// Empty stream: an upload without a chunk fails as `IncompleteMessage`,
/// whatever the budget, and leaves no record to write.
pub proof fn law_empty_stream_rejected(limit: int, base: int, now: int, r: Result<Data, Failure>)
    requires
        limit >= 0,
        creation_owed(Seq::empty(), limit, base, now, r),
    ensures
        r matches Err(Failure::IncompleteMessage),
        r->Err_0.spec_kind() == FailureKind::Aborted,
{
    assert(payloads(Seq::<WireView>::empty()) =~= Seq::<Seq<u8>>::empty());
}

/// Round trip through a whole creation: where the chunks carry the pieces
/// of a payload that fits the budget, and an identifier is left, the
/// creation succeeds, the record holds the payload byte for byte, and so
/// does the message that a later read sends for that record.
pub proof fn law_upload_round_trip(
    chunks: Seq<WireView>,
    data: Seq<u8>,
    lens: Seq<nat>,
    limit: int,
    base: int,
    now: int,
    r: Result<Data, Failure>,
)
    requires
        lens.len() > 0,
        sum_of(lens) == data.len(),
        payloads(chunks) == cut(data, lens),
        data.len() <= limit,
        base < i32::MAX,
        creation_owed(chunks, limit, base, now, r),
    ensures
        r is Ok,
        r->Ok_0@.id == base + 1,
        r->Ok_0@.content == data,
        response_for(r->Ok_0@).ok,
        response_for(r->Ok_0@).results->0.content == data,
{
    law_join_undoes_cut(data, lens);
}

} // verus!
