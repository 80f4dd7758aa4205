//! The write-ahead log of the journal store: its records as bytes, one after
//! the other, and the way back from the bytes to the records.

use vstd::prelude::*;
use crate::codec::{
    law_entry_reading_is_local, lemma_more_outcome, lemma_more_text, lemma_more_u64,
    lemma_more_value, entry_fits, lemma_parse_outcome, lemma_parse_text, lemma_parse_u64,
    lemma_parse_value, law_entry_round_trip, outcome_fits, parse_entry, parse_outcome, parse_text,
    parse_u64, parse_value, put_bytes, put_outcome, put_text, put_u64, put_value, ser_entry,
    ser_outcome, ser_text, ser_u64, ser_value, take_entry, take_outcome, take_text, take_u64,
    take_value, text_fits, value_fits, encode_entry,
};
use crate::entry::JournalEntry;
use crate::locks::HandlerKind;
use crate::record::{HandlerId, HandlerIdView, Record, RecordView};
use crate::runner::Wait;
use crate::value::{Outcome, Value};

verus! {

/// The byte of a kind of handler.
pub open spec fn ser_kind(kind: HandlerKind) -> u8 {
    match kind {
        HandlerKind::Service => 0,
        HandlerKind::Object => 1,
        HandlerKind::ObjectShared => 2,
        HandlerKind::Workflow => 3,
        HandlerKind::WorkflowShared => 4,
    }
}

/// The kind of handler of a byte.
pub open spec fn parse_kind(b: u8) -> Option<HandlerKind> {
    if b == 0 {
        Some(HandlerKind::Service)
    } else if b == 1 {
        Some(HandlerKind::Object)
    } else if b == 2 {
        Some(HandlerKind::ObjectShared)
    } else if b == 3 {
        Some(HandlerKind::Workflow)
    } else if b == 4 {
        Some(HandlerKind::WorkflowShared)
    } else {
        None
    }
}

/// The bytes of what an invocation waits for.
pub open spec fn ser_wait(w: Option<Wait>) -> Seq<u8> {
    match w {
        None => seq![0u8],
        Some(Wait::Timer { fire_at }) => seq![1u8] + ser_u64(fire_at),
        Some(Wait::Awakeable { id }) => seq![2u8] + ser_u64(id),
    }
}

/// Reading what an invocation waits for off the front of the bytes.
#[verifier::opaque]
pub open spec fn parse_wait(s: Seq<u8>) -> Option<(Option<Wait>, Seq<u8>)> {
    if s.len() == 0 {
        None
    } else if s[0] == 0 {
        Some((None, s.skip(1)))
    } else if s[0] == 1 {
        match parse_u64(s.skip(1)) {
            None => None,
            Some((fire_at, r)) => Some((Some(Wait::Timer { fire_at }), r)),
        }
    } else if s[0] == 2 {
        match parse_u64(s.skip(1)) {
            None => None,
            Some((id, r)) => Some((Some(Wait::Awakeable { id }), r)),
        }
    } else {
        None
    }
}

/// The bytes of a record: a tag and its parts.
pub open spec fn ser_record(r: RecordView) -> Seq<u8> {
    match r {
        RecordView::Created { handler, key, input } => seq![1u8] + (ser_text(handler.service) + (
        ser_text(handler.method) + (seq![ser_kind(handler.kind)] + (ser_text(key) + ser_value(
            input,
        ))))),
        RecordView::Appended { id, entry } => seq![2u8] + (ser_u64(id) + ser_entry(entry)),
        RecordView::Ended { id, failed, result } => seq![3u8] + (ser_u64(id) + (seq![
            if failed {
                1u8
            } else {
                0u8
            },
        ] + ser_outcome(result))),
        RecordView::Suspended { id, waiting } => seq![4u8] + (ser_u64(id) + ser_wait(waiting)),
    }
}

/// Reading the parts of a creation off the front of the bytes.
#[verifier::opaque]
pub open spec fn parse_created(s: Seq<u8>) -> Option<(RecordView, Seq<u8>)> {
    match parse_text(s) {
        None => None,
        Some((service, r1)) => match parse_text(r1) {
            None => None,
            Some((method, r2)) => if r2.len() == 0 || parse_kind(r2[0]) is None {
                None
            } else {
                match parse_text(r2.skip(1)) {
                    None => None,
                    Some((key, r3)) => match parse_value(r3) {
                        None => None,
                        Some((input, r4)) => Some(
                            (
                                RecordView::Created {
                                    handler: HandlerIdView {
                                        service,
                                        method,
                                        kind: parse_kind(r2[0])->0,
                                    },
                                    key,
                                    input,
                                },
                                r4,
                            ),
                        ),
                    },
                }
            },
        },
    }
}

/// Reading the parts of an ending off the front of the bytes.
#[verifier::opaque]
pub open spec fn parse_ended(s: Seq<u8>) -> Option<(RecordView, Seq<u8>)> {
    match parse_u64(s) {
        None => None,
        Some((id, r1)) => if r1.len() == 0 || r1[0] > 1 {
            None
        } else {
            match parse_outcome(r1.skip(1)) {
                None => None,
                Some((result, r2)) => Some((RecordView::Ended { id, failed: r1[0] == 1, result }, r2)),
            }
        },
    }
}

/// Reading a record off the front of the bytes.
pub open spec fn parse_record(s: Seq<u8>) -> Option<(RecordView, Seq<u8>)> {
    if s.len() == 0 {
        None
    } else if s[0] == 1 {
        parse_created(s.skip(1))
    } else if s[0] == 2 {
        match parse_u64(s.skip(1)) {
            None => None,
            Some((id, r)) => match parse_entry(r) {
                None => None,
                Some((entry, r2)) => Some((RecordView::Appended { id, entry }, r2)),
            },
        }
    } else if s[0] == 3 {
        parse_ended(s.skip(1))
    } else if s[0] == 4 {
        match parse_u64(s.skip(1)) {
            None => None,
            Some((id, r)) => match parse_wait(r) {
                None => None,
                Some((waiting, r2)) => Some((RecordView::Suspended { id, waiting }, r2)),
            },
        }
    } else {
        None
    }
}

/// Whether a record can be written: every text in it can be counted in a
/// number. Every record that exists in memory can.
pub open spec fn record_fits(r: RecordView) -> bool {
    match r {
        RecordView::Created { handler, key, input } => text_fits(handler.service) && text_fits(
            handler.method,
        ) && text_fits(key) && value_fits(input),
        RecordView::Appended { entry, .. } => entry_fits(entry),
        RecordView::Ended { result, .. } => outcome_fits(result),
        RecordView::Suspended { .. } => true,
    }
}

/// Whether every record of a log can be written.
pub open spec fn records_fit(rs: Seq<RecordView>) -> bool {
    forall|i: int| 0 <= i < rs.len() ==> record_fits(#[trigger] rs[i])
}

proof fn lemma_parse_wait(w: Option<Wait>, rest: Seq<u8>)
    ensures
        parse_wait(ser_wait(w) + rest) == Some((w, rest)),
{
    reveal(parse_wait);
    let s = ser_wait(w) + rest;
    match w {
        None => {
            assert(s.skip(1) =~= rest);
        },
        Some(Wait::Timer { fire_at }) => {
            assert(s.skip(1) =~= ser_u64(fire_at) + rest);
            lemma_parse_u64(fire_at, rest);
        },
        Some(Wait::Awakeable { id }) => {
            assert(s.skip(1) =~= ser_u64(id) + rest);
            lemma_parse_u64(id, rest);
        },
    }
}

proof fn lemma_parse_created(r: RecordView, rest: Seq<u8>)
    requires
        r is Created,
        record_fits(r),
    ensures
        parse_created(ser_record(r).skip(1) + rest) == Some((r, rest)),
{
    reveal(parse_created);
    let handler = r->handler;
    let key = r->key;
    let input = r->input;
    let tail4 = ser_value(input) + rest;
    let tail3 = ser_text(key) + tail4;
    let tail2 = seq![ser_kind(handler.kind)] + tail3;
    let tail1 = ser_text(handler.method) + tail2;
    assert(ser_record(r).skip(1) + rest =~= ser_text(handler.service) + tail1);
    lemma_parse_text(handler.service, tail1);
    lemma_parse_text(handler.method, tail2);
    assert(tail2[0] == ser_kind(handler.kind));
    assert(tail2.skip(1) =~= tail3);
    lemma_parse_text(key, tail4);
    lemma_parse_value(input, rest);
}

proof fn lemma_parse_ended(r: RecordView, rest: Seq<u8>)
    requires
        r is Ended,
        record_fits(r),
    ensures
        parse_ended(ser_record(r).skip(1) + rest) == Some((r, rest)),
{
    reveal(parse_ended);
    let id = r->Ended_id;
    let failed = r->failed;
    let result = r->result;
    let flag: u8 = if failed {
        1
    } else {
        0
    };
    let tail2 = ser_outcome(result) + rest;
    let tail1 = seq![flag] + tail2;
    assert(ser_record(r).skip(1) + rest =~= ser_u64(id) + tail1);
    lemma_parse_u64(id, tail1);
    assert(tail1[0] == flag);
    assert(tail1.skip(1) =~= tail2);
    lemma_parse_outcome(result, rest);
}

/// Every record is read back from its bytes, whatever follows them.
pub proof fn law_record_round_trip(r: RecordView, rest: Seq<u8>)
    requires
        record_fits(r),
    ensures
        parse_record(ser_record(r) + rest) == Some((r, rest)),
        ser_record(r).len() > 0,
{
    let s = ser_record(r) + rest;
    match r {
        RecordView::Created { .. } => {
            assert(s.skip(1) =~= ser_record(r).skip(1) + rest);
            lemma_parse_created(r, rest);
        },
        RecordView::Appended { id, entry } => {
            assert(s.skip(1) =~= ser_u64(id) + (ser_entry(entry) + rest));
            lemma_parse_u64(id, ser_entry(entry) + rest);
            law_entry_round_trip(entry, rest);
        },
        RecordView::Ended { .. } => {
            assert(s.skip(1) =~= ser_record(r).skip(1) + rest);
            lemma_parse_ended(r, rest);
        },
        RecordView::Suspended { id, waiting } => {
            assert(s.skip(1) =~= ser_u64(id) + (ser_wait(waiting) + rest));
            lemma_parse_u64(id, ser_wait(waiting) + rest);
            lemma_parse_wait(waiting, rest);
        },
    }
}

/// The bytes of a log: the bytes of its records, one after the other.
pub open spec fn ser_records(rs: Seq<RecordView>) -> Seq<u8>
    decreases rs.len(),
{
    if rs.len() == 0 {
        Seq::empty()
    } else {
        ser_records(rs.drop_last()) + ser_record(rs.last())
    }
}

/// Reading a log: the records that the bytes hold from the first byte to the
/// last; `None` where the bytes hold anything else.
pub open spec fn parse_records(s: Seq<u8>) -> Option<Seq<RecordView>>
    decreases s.len(),
{
    if s.len() == 0 {
        Some(Seq::empty())
    } else {
        match parse_record(s) {
            None => None,
            Some((r, rest)) => if rest.len() >= s.len() {
                None
            } else {
                match parse_records(rest) {
                    None => None,
                    Some(rs) => Some(seq![r] + rs),
                }
            },
        }
    }
}

proof fn lemma_ser_records_front(rs: Seq<RecordView>)
    requires
        rs.len() > 0,
    ensures
        ser_records(rs) == ser_record(rs[0]) + ser_records(rs.drop_first()),
    decreases rs.len(),
{
    if rs.len() == 1 {
        assert(rs.drop_last() =~= Seq::<RecordView>::empty());
        assert(rs.drop_first() =~= Seq::<RecordView>::empty());
        assert(ser_records(rs) =~= ser_record(rs[0]) + ser_records(rs.drop_first()));
    } else {
        let init = rs.drop_last();
        lemma_ser_records_front(init);
        assert(init[0] == rs[0]);
        assert(init.drop_first() =~= rs.drop_first().drop_last());
        assert(rs.drop_first().last() == rs.last());
        assert(ser_records(rs) =~= ser_record(rs[0]) + ser_records(rs.drop_first()));
    }
}

/// Every log is read back from its bytes: what the store wrote is what a
/// reader of the medium finds, record by record.
pub proof fn law_log_round_trip(rs: Seq<RecordView>)
    requires
        records_fit(rs),
    ensures
        parse_records(ser_records(rs)) == Some(rs),
    decreases rs.len(),
{
    if rs.len() > 0 {
        let tail = rs.drop_first();
        lemma_ser_records_front(rs);
        assert forall|i: int| 0 <= i < tail.len() implies record_fits(#[trigger] tail[i]) by {
            assert(tail[i] == rs[i + 1]);
        }
        law_record_round_trip(rs[0], ser_records(tail));
        law_log_round_trip(tail);
        assert(seq![rs[0]] + tail =~= rs);
    }
}

proof fn lemma_more_wait(s: Seq<u8>, t: Seq<u8>)
    ensures
        parse_wait(s) matches Some((w, r)) ==> parse_wait(s + t) == Some((w, r + t)),
{
    reveal(parse_wait);
    if s.len() > 0 {
        assert((s + t)[0] == s[0]);
        assert((s + t).skip(1) =~= s.skip(1) + t);
        lemma_more_u64(s.skip(1), t);
    }
}

proof fn lemma_more_created(s: Seq<u8>, t: Seq<u8>)
    ensures
        parse_created(s) matches Some((x, r)) ==> parse_created(s + t) == Some((x, r + t)),
{
    reveal(parse_created);
    lemma_more_text(s, t);
    match parse_text(s) {
        None => {},
        Some((service, r1)) => {
            lemma_more_text(r1, t);
            match parse_text(r1) {
                None => {},
                Some((method, r2)) => {
                    if r2.len() > 0 {
                        assert((r2 + t)[0] == r2[0]);
                        assert((r2 + t).skip(1) =~= r2.skip(1) + t);
                        lemma_more_text(r2.skip(1), t);
                        match parse_text(r2.skip(1)) {
                            None => {},
                            Some((key, r3)) => {
                                lemma_more_value(r3, t);
                            },
                        }
                    }
                },
            }
        },
    }
}

proof fn lemma_more_ended(s: Seq<u8>, t: Seq<u8>)
    ensures
        parse_ended(s) matches Some((x, r)) ==> parse_ended(s + t) == Some((x, r + t)),
{
    reveal(parse_ended);
    lemma_more_u64(s, t);
    match parse_u64(s) {
        None => {},
        Some((id, r1)) => {
            if r1.len() > 0 {
                assert((r1 + t)[0] == r1[0]);
                assert((r1 + t).skip(1) =~= r1.skip(1) + t);
                lemma_more_outcome(r1.skip(1), t);
            }
        },
    }
}

/// Reading a record looks at no byte behind it: where the bytes start with
/// a record, they start with the same record whatever follows.
pub proof fn law_record_reading_is_local(s: Seq<u8>, t: Seq<u8>)
    ensures
        parse_record(s) matches Some((x, r)) ==> parse_record(s + t) == Some((x, r + t)),
{
    if s.len() > 0 {
        let u = s.skip(1);
        assert((s + t)[0] == s[0]);
        assert((s + t).skip(1) =~= u + t);
        lemma_more_created(u, t);
        lemma_more_ended(u, t);
        lemma_more_u64(u, t);
        match parse_u64(u) {
            None => {},
            Some((id, r)) => {
                law_entry_reading_is_local(r, t);
                lemma_more_wait(r, t);
            },
        }
    }
}

/// A record that was written in part is not read: no record is read off
/// bytes that stop before the end of a record.
pub proof fn law_torn_record_is_not_read(r: RecordView, cut: nat)
    requires
        record_fits(r),
        cut < ser_record(r).len(),
    ensures
        parse_record(ser_record(r).take(cut as int)) is None,
{
    let whole = ser_record(r);
    let head = whole.take(cut as int);
    let tail = whole.skip(cut as int);
    assert(head + tail =~= whole);
    assert(whole + Seq::<u8>::empty() =~= whole);
    law_record_round_trip(r, Seq::empty());
    law_record_reading_is_local(head, tail);
    match parse_record(head) {
        None => {},
        Some((x, rest)) => {
            assert((rest + tail).len() == 0);
        },
    }
}

/// The whole records at the front of the bytes: the records that are read
/// one after the other until the bytes end or no record can be read.
pub open spec fn whole_records(s: Seq<u8>) -> Seq<RecordView>
    decreases s.len(),
{
    match parse_record(s) {
        None => Seq::empty(),
        Some((r, rest)) => if rest.len() >= s.len() {
            Seq::empty()
        } else {
            seq![r] + whole_records(rest)
        },
    }
}

/// The whole records of a log that something follows are the log and the
/// whole records of what follows.
pub proof fn law_whole_records_of_a_log(rs: Seq<RecordView>, tail: Seq<u8>)
    requires
        records_fit(rs),
    ensures
        whole_records(ser_records(rs) + tail) == rs + whole_records(tail),
    decreases rs.len(),
{
    if rs.len() == 0 {
        assert(ser_records(rs) + tail =~= tail);
        assert(rs + whole_records(tail) =~= whole_records(tail));
    } else {
        let later = rs.drop_first();
        lemma_ser_records_front(rs);
        assert forall|i: int| 0 <= i < later.len() implies record_fits(#[trigger] later[i]) by {
            assert(later[i] == rs[i + 1]);
        }
        let rest = ser_records(later) + tail;
        assert(ser_records(rs) + tail =~= ser_record(rs[0]) + rest);
        law_record_round_trip(rs[0], rest);
        assert(ser_record(rs[0]).len() > 0);
        law_whole_records_of_a_log(later, tail);
        assert(seq![rs[0]] + (later + whole_records(tail)) =~= rs + whole_records(tail));
    }
}

/// A write that was torn loses only itself: where the process dies while it
/// writes a record, the whole records on the medium are those that were
/// written before.
pub proof fn law_torn_write_loses_only_itself(rs: Seq<RecordView>, r: RecordView, cut: nat)
    requires
        records_fit(rs),
        record_fits(r),
        cut < ser_record(r).len(),
    ensures
        whole_records(ser_records(rs) + ser_record(r).take(cut as int)) == rs,
{
    let torn = ser_record(r).take(cut as int);
    law_whole_records_of_a_log(rs, torn);
    law_torn_record_is_not_read(r, cut);
    assert(rs + Seq::<RecordView>::empty() =~= rs);
}

fn kind_byte(kind: HandlerKind) -> (b: u8)
    ensures
        b == ser_kind(kind),
{
    match kind {
        HandlerKind::Service => 0,
        HandlerKind::Object => 1,
        HandlerKind::ObjectShared => 2,
        HandlerKind::Workflow => 3,
        HandlerKind::WorkflowShared => 4,
    }
}

fn kind_of_byte(b: u8) -> (k: Option<HandlerKind>)
    ensures
        k == parse_kind(b),
{
    if b == 0 {
        Some(HandlerKind::Service)
    } else if b == 1 {
        Some(HandlerKind::Object)
    } else if b == 2 {
        Some(HandlerKind::ObjectShared)
    } else if b == 3 {
        Some(HandlerKind::Workflow)
    } else if b == 4 {
        Some(HandlerKind::WorkflowShared)
    } else {
        None
    }
}

/// Writes the record of a creation at the end of the log.
pub fn log_created(out: &mut Vec<u8>, handler: &HandlerId, key: &String, input: &Value)
    ensures
        final(out)@ == old(out)@ + ser_record(
            RecordView::Created { handler: handler@, key: key@, input: input@ },
        ),
        record_fits(RecordView::Created { handler: handler@, key: key@, input: input@ }),
{
    out.push(1);
    put_text(out, &handler.service);
    put_text(out, &handler.method);
    out.push(kind_byte(handler.kind));
    put_text(out, key);
    put_value(out, input);
    assert(out@ =~= old(out)@ + ser_record(
        RecordView::Created { handler: handler@, key: key@, input: input@ },
    ));
}

/// Writes the record of an appended entry at the end of the log.
pub fn log_appended(out: &mut Vec<u8>, id: u64, entry: &JournalEntry)
    ensures
        final(out)@ == old(out)@ + ser_record(RecordView::Appended { id, entry: entry@ }),
        record_fits(RecordView::Appended { id, entry: entry@ }),
{
    out.push(2);
    put_u64(out, id);
    let bytes = encode_entry(entry);
    put_bytes(out, bytes.as_slice());
    assert(out@ =~= old(out)@ + ser_record(RecordView::Appended { id, entry: entry@ }));
}

/// Writes the record of an ending at the end of the log.
pub fn log_ended(out: &mut Vec<u8>, id: u64, failed: bool, result: &Outcome)
    ensures
        final(out)@ == old(out)@ + ser_record(RecordView::Ended { id, failed, result: result@ }),
        record_fits(RecordView::Ended { id, failed, result: result@ }),
{
    out.push(3);
    put_u64(out, id);
    out.push(if failed {
        1
    } else {
        0
    });
    put_outcome(out, result);
    assert(out@ =~= old(out)@ + ser_record(RecordView::Ended { id, failed, result: result@ }));
}

/// Writes the record of a suspension, or of its end, at the end of the log.
pub fn log_suspended(out: &mut Vec<u8>, id: u64, waiting: Option<Wait>)
    ensures
        final(out)@ == old(out)@ + ser_record(RecordView::Suspended { id, waiting }),
        record_fits(RecordView::Suspended { id, waiting }),
{
    out.push(4);
    put_u64(out, id);
    match waiting {
        None => {
            out.push(0);
        },
        Some(Wait::Timer { fire_at }) => {
            out.push(1);
            put_u64(out, fire_at);
        },
        Some(Wait::Awakeable { id: promise }) => {
            out.push(2);
            put_u64(out, promise);
        },
    }
    assert(out@ =~= old(out)@ + ser_record(RecordView::Suspended { id, waiting }));
}

fn take_wait(bytes: &[u8], pos: usize) -> (r: Option<(Option<Wait>, usize)>)
    requires
        pos <= bytes@.len(),
    ensures
        r is Some <==> parse_wait(bytes@.skip(pos as int)) is Some,
        r matches Some((w, next)) ==> pos <= next <= bytes@.len() && parse_wait(
            bytes@.skip(pos as int),
        ) == Some((w, bytes@.skip(next as int))),
{
    reveal(parse_wait);
    if pos >= bytes.len() {
        return None;
    }
    let tag = bytes[pos];
    proof {
        assert(bytes@.skip(pos as int)[0] == bytes@[pos as int]);
        assert(bytes@.skip(pos as int).skip(1) =~= bytes@.skip(pos + 1));
    }
    if tag == 0 {
        Some((None, pos + 1))
    } else if tag == 1 {
        match take_u64(bytes, pos + 1) {
            Some((fire_at, next)) => Some((Some(Wait::Timer { fire_at }), next)),
            None => None,
        }
    } else if tag == 2 {
        match take_u64(bytes, pos + 1) {
            Some((id, next)) => Some((Some(Wait::Awakeable { id }), next)),
            None => None,
        }
    } else {
        None
    }
}

fn take_created(bytes: &[u8], pos: usize) -> (r: Option<(Record, usize)>)
    requires
        pos <= bytes@.len(),
    ensures
        r is Some <==> parse_created(bytes@.skip(pos as int)) is Some,
        r matches Some((rec, next)) ==> pos <= next <= bytes@.len() && parse_created(
            bytes@.skip(pos as int),
        ) == Some((rec@, bytes@.skip(next as int))),
{
    reveal(parse_created);
    let (service, after_service) = match take_text(bytes, pos) {
        Some(x) => x,
        None => {
            return None;
        },
    };
    let (method, after_method) = match take_text(bytes, after_service) {
        Some(x) => x,
        None => {
            return None;
        },
    };
    if after_method >= bytes.len() {
        return None;
    }
    proof {
        assert(bytes@.skip(after_method as int)[0] == bytes@[after_method as int]);
        assert(bytes@.skip(after_method as int).skip(1) =~= bytes@.skip(after_method + 1));
    }
    let kind = match kind_of_byte(bytes[after_method]) {
        Some(k) => k,
        None => {
            return None;
        },
    };
    let (key, after_key) = match take_text(bytes, after_method + 1) {
        Some(x) => x,
        None => {
            return None;
        },
    };
    let (input, next) = match take_value(bytes, after_key) {
        Some(x) => x,
        None => {
            return None;
        },
    };
    Some((Record::Created { handler: HandlerId { service, method, kind }, key, input }, next))
}

fn take_ended(bytes: &[u8], pos: usize) -> (r: Option<(Record, usize)>)
    requires
        pos <= bytes@.len(),
    ensures
        r is Some <==> parse_ended(bytes@.skip(pos as int)) is Some,
        r matches Some((rec, next)) ==> pos <= next <= bytes@.len() && parse_ended(
            bytes@.skip(pos as int),
        ) == Some((rec@, bytes@.skip(next as int))),
{
    reveal(parse_ended);
    let (id, after_id) = match take_u64(bytes, pos) {
        Some(x) => x,
        None => {
            return None;
        },
    };
    if after_id >= bytes.len() {
        return None;
    }
    proof {
        assert(bytes@.skip(after_id as int)[0] == bytes@[after_id as int]);
        assert(bytes@.skip(after_id as int).skip(1) =~= bytes@.skip(after_id + 1));
    }
    let flag = bytes[after_id];
    if flag > 1 {
        return None;
    }
    let (result, next) = match take_outcome(bytes, after_id + 1) {
        Some(x) => x,
        None => {
            return None;
        },
    };
    Some((Record::Ended { id, failed: flag == 1, result }, next))
}

/// Reads the record that starts at `pos`: the record and the place where the
/// next one starts; `None` where no record starts there.
pub fn take_record(bytes: &[u8], pos: usize) -> (r: Option<(Record, usize)>)
    requires
        pos <= bytes@.len(),
    ensures
        r is Some <==> parse_record(bytes@.skip(pos as int)) is Some,
        r matches Some((rec, next)) ==> pos <= next <= bytes@.len() && parse_record(
            bytes@.skip(pos as int),
        ) == Some((rec@, bytes@.skip(next as int))),
{
    if pos >= bytes.len() {
        return None;
    }
    let tag = bytes[pos];
    proof {
        assert(bytes@.skip(pos as int)[0] == bytes@[pos as int]);
        assert(bytes@.skip(pos as int).skip(1) =~= bytes@.skip(pos + 1));
    }
    if tag == 1 {
        take_created(bytes, pos + 1)
    } else if tag == 2 {
        match take_u64(bytes, pos + 1) {
            Some((id, p)) => match take_entry(bytes, p) {
                Some((entry, next)) => Some((Record::Appended { id, entry }, next)),
                None => None,
            },
            None => None,
        }
    } else if tag == 3 {
        take_ended(bytes, pos + 1)
    } else if tag == 4 {
        match take_u64(bytes, pos + 1) {
            Some((id, p)) => match take_wait(bytes, p) {
                Some((waiting, next)) => Some((Record::Suspended { id, waiting }, next)),
                None => None,
            },
            None => None,
        }
    } else {
        None
    }
}

} // verus!
