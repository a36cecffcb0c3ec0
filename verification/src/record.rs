//! The record as it is stored, the record as it travels, and the rules that
//! relate the two.
use vstd::prelude::*;
use vstd::string::*;

verus! {

/// A stored record.
#[derive(Clone, Debug, PartialEq, Eq)]
pub struct Data {
    pub id: i32,
    pub name: String,
    pub mime: String,
    pub created: i32,
    pub updated: i32,
    pub content: Vec<u8>,
}

/// A record on the wire; every chunk of an upload has this shape too.
/// An absent `id`, `created` or `updated` means "not set".
#[derive(Clone, Debug, PartialEq, Eq)]
pub struct WireRecord {
    pub id: Option<i32>,
    pub name: String,
    pub mime: String,
    pub created: Option<i32>,
    pub updated: Option<i32>,
    pub content: Vec<u8>,
}

/// Mathematical value of a [`Data`].
pub struct RecordView {
    pub id: int,
    pub name: Seq<char>,
    pub mime: Seq<char>,
    pub created: int,
    pub updated: int,
    pub content: Seq<u8>,
}

/// Mathematical value of a [`WireRecord`].
pub struct WireView {
    pub id: Option<int>,
    pub name: Seq<char>,
    pub mime: Seq<char>,
    pub created: Option<int>,
    pub updated: Option<int>,
    pub content: Seq<u8>,
}

/// `Some(v)` unless `v` is zero, which the wire writes as absent.
pub open spec fn unless_zero(v: int) -> Option<int> {
    if v == 0 {
        None
    } else {
        Some(v)
    }
}

/// The value of an optional wire integer, `fallback` where it is absent.
pub open spec fn or_fallback(v: Option<int>, fallback: int) -> int {
    match v {
        Some(x) => x,
        None => fallback,
    }
}

/// The value of an optional wire timestamp: `now` where it is absent or
/// zero, which both mean that it was not set.
pub open spec fn timestamp_or(v: Option<int>, now: int) -> int {
    match v {
        Some(x) => if x == 0 {
            now
        } else {
            x
        },
        None => now,
    }
}

/// Whether an optional wire timestamp was set: present and not zero.
pub open spec fn is_set(v: Option<int>) -> bool {
    v is Some && v->0 != 0
}

/// View of an optional wire integer.
pub open spec fn opt_int(v: Option<i32>) -> Option<int> {
    match v {
        Some(x) => Some(x as int),
        None => None,
    }
}

impl RecordView {
    /// The validity rule: an identifier, a name, a content type and a payload.
    pub open spec fn valid(self) -> bool {
        self.id != 0 && self.name.len() > 0 && self.mime.len() > 0 && self.content.len() > 0
    }

    /// Both timestamps are set.
    pub open spec fn normalized(self) -> bool {
        self.created != 0 && self.updated != 0
    }

    /// The record with each zero timestamp replaced by `now`.
    pub open spec fn normalize(self, now: int) -> RecordView {
        RecordView {
            created: if self.created == 0 { now } else { self.created },
            updated: if self.updated == 0 { now } else { self.updated },
            ..self
        }
    }

    /// The record with another identifier.
    pub open spec fn with_id(self, id: int) -> RecordView {
        RecordView { id, ..self }
    }

    /// The wire form: a zero identifier or timestamp is written as absent.
    pub open spec fn to_wire(self) -> WireView {
        WireView {
            id: unless_zero(self.id),
            name: self.name,
            mime: self.mime,
            created: unless_zero(self.created),
            updated: unless_zero(self.updated),
            content: self.content,
        }
    }
}

impl WireView {
    /// The stored form: an absent identifier is zero, and a timestamp that
    /// is absent or zero is `now`.
    pub open spec fn to_record(self, now: int) -> RecordView {
        RecordView {
            id: or_fallback(self.id, 0),
            name: self.name,
            mime: self.mime,
            created: timestamp_or(self.created, now),
            updated: timestamp_or(self.updated, now),
            content: self.content,
        }
    }

    /// The same metadata around another payload.
    pub open spec fn with_content(self, content: Seq<u8>) -> WireView {
        WireView { content, ..self }
    }
}

impl View for Data {
    type V = RecordView;

    open spec fn view(&self) -> RecordView {
        RecordView {
            id: self.id as int,
            name: self.name@,
            mime: self.mime@,
            created: self.created as int,
            updated: self.updated as int,
            content: self.content@,
        }
    }
}

impl View for WireRecord {
    type V = WireView;

    open spec fn view(&self) -> WireView {
        WireView {
            id: opt_int(self.id),
            name: self.name@,
            mime: self.mime@,
            created: opt_int(self.created),
            updated: opt_int(self.updated),
            content: self.content@,
        }
    }
}

/// The record that `Data::new` builds when the clock reads `now`.
pub open spec fn fresh_record(now: int) -> RecordView {
    RecordView {
        id: 0,
        name: Seq::empty(),
        mime: "text/plain"@,
        created: now,
        updated: now,
        content: Seq::empty(),
    }
}

#[verifier::external_type_specification]
#[verifier::external_body]
pub struct ExSystemTime(std::time::SystemTime);

/// `std::time::SystemTime::now`: what the system clock reads. Nothing is
/// claimed of the reading.
#[verifier::external_body]
fn clock_reading() -> std::time::SystemTime {
    std::time::SystemTime::now()
}

/// `std::time::SystemTime::duration_since`, against `UNIX_EPOCH`: the time
/// that has passed since the epoch, or `None` where the reading lies before
/// it. Nothing is claimed of the duration.
#[verifier::external_body]
fn since_epoch(reading: &std::time::SystemTime) -> Option<core::time::Duration> {
    match reading.duration_since(std::time::UNIX_EPOCH) {
        Ok(d) => Some(d),
        Err(_) => None,
    }
}

/// `core::time::Duration::as_secs`: the whole seconds of the duration.
/// Nothing is claimed of their number.
#[verifier::external_body]
fn whole_seconds(d: &core::time::Duration) -> u64 {
    d.as_secs()
}

/// The current time: the timestamp, as `timestamp_from` gives it, of what
/// the system clock reads. Nothing can be said of the value itself: it is
/// whatever the clock reads.
pub fn now() -> i32 {
    let elapsed: Option<u64> = match since_epoch(&clock_reading()) {
        Some(d) => Some(whole_seconds(&d)),
        None => None,
    };
    timestamp_from(elapsed)
}

/// The timestamp for a clock that stands `elapsed` whole seconds after the
/// Unix epoch, or before the epoch where `elapsed` is `None`: the low 32
/// bits of the seconds read as a signed number, and zero before the epoch.
pub open spec fn timestamp_of(elapsed: Option<u64>) -> int {
    match elapsed {
        Some(secs) => (secs as i32) as int,
        None => 0,
    }
}

/// The timestamp for what the clock gave. While the seconds fit 31 bits
/// the timestamp is their number; beyond that it wraps.
pub fn timestamp_from(elapsed: Option<u64>) -> (t: i32)
    ensures
        t as int == timestamp_of(elapsed),
        elapsed is None ==> t == 0,
        elapsed is Some && elapsed->0 <= i32::MAX as u64 ==> t as int == elapsed->0 as int,
{
    match elapsed {
        Some(secs) => {
            assert(secs <= 0x7fff_ffffu64 ==> (secs as i32) as u64 == secs) by (bit_vector);
            #[verifier::truncate]
            (secs as i32)
        },
        None => 0,
    }
}

/// Whether the integer is zero.
pub fn is_zero(en: &i32) -> (r: bool)
    ensures
        r == (*en == 0),
{
    *en == 0
}

impl Data {
    /// An empty plain-text record stamped with the given time.
    pub fn new_at(now: i32) -> (r: Data)
        ensures
            r@ == fresh_record(now as int),
    {
        Data {
            id: 0,
            name: String::new(),
            mime: String::from_str("text/plain"),
            created: now,
            updated: now,
            content: Vec::new(),
        }
    }

    /// An empty plain-text record stamped with the current time.
    pub fn new() -> (r: Data)
        ensures
            exists|t: i32| r@ == fresh_record(t as int),
    {
        let t: i32 = now();
        let r = Data::new_at(t);
        assert(r@ == fresh_record(t as int));
        r
    }

    /// Whether the record meets the validity rule.
    pub fn is_valid(&self) -> (ok: bool)
        ensures
            ok == self@.valid(),
    {
        self.id != 0 && !self.name.as_str().is_empty() && !self.mime.as_str().is_empty()
            && self.content.len() != 0
    }

    /// Replaces each zero timestamp by `now` and touches nothing else.
    pub fn normalize_at(&mut self, now: i32)
        ensures
            final(self)@ == old(self)@.normalize(now as int),
    {
        if self.created == 0 {
            self.created = now;
        }
        if self.updated == 0 {
            self.updated = now;
        }
    }

    /// Replaces each zero timestamp by the current time.
    pub fn normalize(&mut self)
        ensures
            exists|t: i32| final(self)@ == old(self)@.normalize(t as int),
            old(self)@.normalized() ==> final(self)@ == old(self)@,
    {
        let t: i32 = now();
        self.normalize_at(t);
        assert(final(self)@ == old(self)@.normalize(t as int));
    }

    /// Normalizes against `now`, then reports whether the record is valid.
    pub fn validate_at(&mut self, now: i32) -> (ok: bool)
        ensures
            final(self)@ == old(self)@.normalize(now as int),
            ok == old(self)@.valid(),
    {
        self.normalize_at(now);
        self.is_valid()
    }

    /// Normalizes against the current time, then reports whether the record
    /// is valid.
    pub fn validate(&mut self) -> (ok: bool)
        ensures
            exists|t: i32| final(self)@ == old(self)@.normalize(t as int),
            old(self)@.normalized() ==> final(self)@ == old(self)@,
            ok == old(self)@.valid(),
            ok == final(self)@.valid(),
    {
        let t: i32 = now();
        let ok = self.validate_at(t);
        assert(final(self)@ == old(self)@.normalize(t as int));
        ok
    }

    /// The stored form of a wire record, each timestamp that is absent or
    /// zero taken as `now`.
    pub fn from_wire_at(d: WireRecord, now: i32) -> (r: Data)
        ensures
            r@ == d@.to_record(now as int),
    {
        let id: i32 = match d.id {
            Some(v) => v,
            None => 0,
        };
        let created: i32 = match d.created {
            Some(v) => if v == 0 {
                now
            } else {
                v
            },
            None => now,
        };
        let updated: i32 = match d.updated {
            Some(v) => if v == 0 {
                now
            } else {
                v
            },
            None => now,
        };
        Data { id, name: d.name, mime: d.mime, created, updated, content: d.content }
    }

    /// The stored form of a wire record, each timestamp that is absent or
    /// zero taken as the current time. Where both timestamps were set, the
    /// clock has no part in the result.
    pub fn from_wire(d: WireRecord) -> (r: Data)
        ensures
            exists|t: i32| r@ == d@.to_record(t as int),
            is_set(d@.created) && is_set(d@.updated) ==> r@ == d@.to_record(0),
    {
        let t: i32 = now();
        let r = Data::from_wire_at(d, t);
        assert(r@ == d@.to_record(t as int));
        r
    }

    /// The wire form of the record.
    pub fn into_wire(self) -> (w: WireRecord)
        ensures
            w@ == self@.to_wire(),
    {
        let id: Option<i32> = if self.id == 0 { None } else { Some(self.id) };
        let created: Option<i32> = if self.created == 0 { None } else { Some(self.created) };
        let updated: Option<i32> = if self.updated == 0 { None } else { Some(self.updated) };
        WireRecord { id, name: self.name, mime: self.mime, created, updated, content: self.content }
    }
}

/// Normalizing is idempotent: once a record has been normalized against a
/// nonzero time, normalizing again, against any time, changes nothing.
pub proof fn law_normalize_idempotent(r: RecordView, first: int, second: int)
    requires
        first != 0,
    ensures
        r.normalize(first).normalized(),
        r.normalize(first).normalize(second) == r.normalize(first),
{
}

/// A record whose timestamps are set is left as it is by normalizing.
pub proof fn law_normalize_keeps_normalized(r: RecordView, now: int)
    requires
        r.normalized(),
    ensures
        r.normalize(now) == r,
{
}

/// Normalizing never changes whether a record is valid.
pub proof fn law_normalize_keeps_validity(r: RecordView, now: int)
    ensures
        r.normalize(now).valid() == r.valid(),
{
}

/// A record built from the wire carries no zero timestamp towards the
/// store, unless the clock itself reads zero: zero on the wire means "not
/// set", as an absent timestamp does, and normalizing finds nothing left to
/// fill.
pub proof fn law_wire_zero_is_unset(w: WireView, now: int)
    ensures
        now != 0 ==> w.to_record(now).normalized(),
        w.to_record(now).normalize(now) == w.to_record(now),
        w.created == Some(0int) ==> w.to_record(now).created == now,
        w.updated == Some(0int) ==> w.to_record(now).updated == now,
        w.created is None ==> w.to_record(now).created == now,
        w.updated is None ==> w.to_record(now).updated == now,
        is_set(w.created) ==> w.to_record(now).created == w.created->0,
        is_set(w.updated) ==> w.to_record(now).updated == w.updated->0,
{
}

/// A record that went to the wire and came back is the record normalized:
/// nothing but zero timestamps, which the wire cannot carry, is replaced.
pub proof fn law_wire_round_trip(r: RecordView, now: int)
    ensures
        r.to_wire().to_record(now) == r.normalize(now),
{
}

} // verus!
