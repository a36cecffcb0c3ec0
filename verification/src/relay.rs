//! The relay of caller-supplied statements: what is handed to the store,
//! and how the store's answer becomes a response.
use crate::failure::Failure;
use crate::record::{Data, RecordView, WireRecord, WireView};
use vstd::prelude::*;

verus! {

/// A request to read or to delete: the statement's text.
#[derive(Clone, Debug, PartialEq, Eq)]
pub struct DataQuery {
    pub query: String,
}

/// A request to update: the statement's text and, where the statement has
/// a placeholder, the bytes to put in its place.
#[derive(Clone, Debug, PartialEq, Eq)]
pub struct DataUpdate {
    pub update: String,
    pub content: Option<Vec<u8>>,
}

/// What is handed to the store: the text as the caller wrote it, and the
/// bytes to bind to its first placeholder, if any.
#[derive(Clone, Debug, PartialEq, Eq)]
pub struct Statement {
    pub text: String,
    pub binding: Option<Vec<u8>>,
}

/// One message of the answer to a read.
#[derive(Clone, Debug, PartialEq, Eq)]
pub struct ResponseRead {
    pub ok: bool,
    pub desc: Option<String>,
    pub results: Option<WireRecord>,
}

/// The answer to an update or a delete.
#[derive(Clone, Debug, PartialEq, Eq)]
pub struct ResponseChange {
    pub ok: bool,
    pub desc: Option<String>,
    pub rows: u64,
}

/// Mathematical value of a [`ResponseRead`].
pub struct ReadView {
    pub ok: bool,
    pub desc: Option<Seq<char>>,
    pub results: Option<WireView>,
}

impl View for ResponseRead {
    type V = ReadView;

    open spec fn view(&self) -> ReadView {
        ReadView {
            ok: self.ok,
            desc: match self.desc {
                Some(d) => Some(d@),
                None => None,
            },
            results: match self.results {
                Some(w) => Some(w@),
                None => None,
            },
        }
    }
}

/// The message that carries one row of a read.
pub open spec fn response_for(row: RecordView) -> ReadView {
    ReadView { ok: true, desc: None, results: Some(row.to_wire()) }
}

/// The messages that carry the rows of a read, one for each row, in order.
pub open spec fn responses_for(rows: Seq<Data>) -> Seq<ReadView> {
    Seq::new(rows.len(), |i: int| response_for(rows[i]@))
}

/// The view of the bytes to bind, if any.
pub open spec fn binding_view(b: Option<Vec<u8>>) -> Option<Seq<u8>> {
    match b {
        Some(v) => Some(v@),
        None => None,
    }
}

/// The statement for a read or a delete: the text untouched, nothing bound.
pub fn query_statement(request: DataQuery) -> (s: Statement)
    ensures
        s.text@ == request.query@,
        s.binding is None,
{
    Statement { text: request.query, binding: None }
}

/// The statement for an update: the text untouched, and the request's bytes
/// bound exactly where the request carries some.
pub fn update_statement(request: DataUpdate) -> (s: Statement)
    ensures
        s.text@ == request.update@,
        binding_view(s.binding) == binding_view(request.content),
{
    Statement { text: request.update, binding: request.content }
}

/// The answer to an update or a delete, from what the store said: the
/// number of rows it changed, which may be zero, or its description of why
/// it refused the statement.
pub fn change_response(outcome: Result<usize, String>) -> (r: Result<ResponseChange, Failure>)
    ensures
        match outcome {
            Ok(n) => {
                &&& r is Ok
                &&& r->Ok_0.ok
                &&& r->Ok_0.desc is None
                &&& r->Ok_0.rows as int == n as int
            },
            Err(e) => {
                &&& r is Err
                &&& r->Err_0 is Query
                &&& r->Err_0->Query_0@ == e@
            },
        },
{
    match outcome {
        Ok(n) => Ok(ResponseChange { ok: true, desc: None, rows: n as u64 }),
        Err(e) => Err(Failure::Query(e)),
    }
}

/// The answer to a read: its messages, handed out one at a time, first row
/// first. What has been handed out does not come again.
#[derive(Clone, Debug, PartialEq, Eq)]
pub struct ResultStream {
    pending: Vec<ResponseRead>,
}

impl ResultStream {
    /// The messages still to come, in the order in which they will come.
    pub closed spec fn remaining(&self) -> Seq<ReadView> {
        Seq::new(self.pending@.len(), |i: int| self.pending@[self.pending@.len() - 1 - i]@)
    }

    /// The stream of the messages for the given rows.
    pub fn new(rows: Vec<Data>) -> (s: ResultStream)
        ensures
            s.remaining() == responses_for(rows@),
    {
        let ghost all = rows@;
        let mut rows = rows;
        let mut pending: Vec<ResponseRead> = Vec::new();
        while rows.len() > 0
            invariant
                rows@.len() + pending@.len() == all.len(),
                rows@ == all.take(rows@.len() as int),
                forall|j: int|
                    0 <= j < pending@.len() ==> (#[trigger] pending@[j])@ == response_for(
                        all[all.len() - 1 - j]@,
                    ),
            decreases rows.len(),
        {
            let ghost before = rows@;
            let row = rows.pop().unwrap();
            assert(row == all[before.len() - 1]);
            assert(rows@ =~= all.take(rows@.len() as int));
            pending.push(ResponseRead { ok: true, desc: None, results: Some(row.into_wire()) });
        }
        let s = ResultStream { pending };
        assert(s.remaining() =~= responses_for(all));
        s
    }

    /// How many messages are still to come.
    pub fn len(&self) -> (n: usize)
        ensures
            n as int == self.remaining().len(),
    {
        self.pending.len()
    }

    /// The next message, or `None` once all have been handed out.
    pub fn next(&mut self) -> (m: Option<ResponseRead>)
        ensures
            old(self).remaining().len() == 0 ==> m is None && final(self).remaining() == old(
                self,
            ).remaining(),
            old(self).remaining().len() > 0 ==> m is Some && m->0@ == old(self).remaining()[0]
                && final(self).remaining() == old(self).remaining().drop_first(),
    {
        let m = self.pending.pop();
        assert(old(self).remaining().len() > 0 ==> final(self).remaining() =~= old(
            self,
        ).remaining().drop_first());
        assert(old(self).remaining().len() == 0 ==> final(self).remaining() =~= old(
            self,
        ).remaining());
        m
    }
}

/// The answer to a read, from what the store said: a stream with one
/// message for each row, in the store's order, or the store's description
/// of why it refused the statement.
pub fn read_stream(outcome: Result<Vec<Data>, String>) -> (r: Result<ResultStream, Failure>)
    ensures
        match outcome {
            Ok(rows) => r is Ok && r->Ok_0.remaining() == responses_for(rows@),
            Err(e) => {
                &&& r is Err
                &&& r->Err_0 is Query
                &&& r->Err_0->Query_0@ == e@
            },
        },
{
    match outcome {
        Ok(rows) => Ok(ResultStream::new(rows)),
        Err(e) => Err(Failure::Query(e)),
    }
}

/// Every row of a read comes back with its payload untouched.
pub proof fn law_read_keeps_content(rows: Seq<Data>, i: int)
    requires
        0 <= i < rows.len(),
    ensures
        responses_for(rows).len() == rows.len(),
        responses_for(rows)[i].ok,
        responses_for(rows)[i].results is Some,
        responses_for(rows)[i].results->0.content == rows[i]@.content,
        responses_for(rows)[i].results->0.name == rows[i]@.name,
        responses_for(rows)[i].results->0.mime == rows[i]@.mime,
{
}

} // verus!
