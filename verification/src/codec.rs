//! The entry codec: journal entries as bytes, and back.
//!
//! A number is its eight bytes, the lowest first. A text is the number of
//! its UTF-8 bytes, then the bytes. A list of texts is the number of its
//! entries, then the entries. An address is three texts. Everything else is
//! a tag byte and its parts.

use vstd::prelude::*;
use vstd::bytes::{
    lemma_auto_spec_u64_to_from_le_bytes, spec_u64_from_le_bytes, spec_u64_to_le_bytes,
    u64_from_le_bytes, u64_to_le_bytes,
};
use vstd::slice::{slice_subrange, slice_to_vec};
use vstd::string::StringSliceAdditionalSpecFns;
use vstd::utf8::{decode_utf8, encode_utf8, valid_utf8};
use crate::entry::{optional_view, EntryView, JournalEntry};
use crate::target::{Target, TargetView};
use crate::value::{text_views, Outcome, OutcomeView, Value, ValueView};

verus! {

/// The bytes of a number.
pub open spec fn ser_u64(n: u64) -> Seq<u8> {
    spec_u64_to_le_bytes(n)
}

/// The bytes of a text.
pub open spec fn ser_text(s: Seq<char>) -> Seq<u8> {
    ser_u64(encode_utf8(s).len() as u64) + encode_utf8(s)
}

/// The bytes of the entries of a list of texts, one after the other.
pub open spec fn ser_text_seq(l: Seq<Seq<char>>) -> Seq<u8>
    decreases l.len(),
{
    if l.len() == 0 {
        Seq::empty()
    } else {
        ser_text(l[0]) + ser_text_seq(l.drop_first())
    }
}

/// The bytes of a list of texts.
pub open spec fn ser_texts(l: Seq<Seq<char>>) -> Seq<u8> {
    ser_u64(l.len() as u64) + ser_text_seq(l)
}

/// The bytes of a value.
pub open spec fn ser_value(v: ValueView) -> Seq<u8> {
    match v {
        ValueView::Unit => seq![0u8],
        ValueView::Bool(b) => seq![1u8, if b {
            1u8
        } else {
            0u8
        }],
        ValueView::Number(n) => seq![2u8] + ser_u64(n),
        ValueView::Text(s) => seq![3u8] + ser_text(s),
        ValueView::List(l) => seq![4u8] + ser_texts(l),
    }
}

/// The bytes of an outcome.
pub open spec fn ser_outcome(o: OutcomeView) -> Seq<u8> {
    match o {
        OutcomeView::Success(v) => seq![0u8] + ser_value(v),
        OutcomeView::Failure(m) => seq![1u8] + ser_text(m),
    }
}

/// The bytes of an optional value.
pub open spec fn ser_optional(v: Option<ValueView>) -> Seq<u8> {
    match v {
        None => seq![0u8],
        Some(x) => seq![1u8] + ser_value(x),
    }
}

/// The bytes of an address: service, key and handler.
pub open spec fn ser_target(t: TargetView) -> Seq<u8> {
    ser_text(t.service) + (ser_text(t.key) + ser_text(t.handler))
}

/// The bytes of a journal entry.
pub open spec fn ser_entry(e: EntryView) -> Seq<u8> {
    match e {
        EntryView::SideEffectResult { outcome } => seq![1u8] + ser_outcome(outcome),
        EntryView::CallResult { target, outcome } => seq![2u8] + (ser_target(target)
            + ser_outcome(outcome)),
        EntryView::SendRecorded { target, payload } => seq![3u8] + (ser_target(target) + ser_value(
            payload,
        )),
        EntryView::SleepUntil { timestamp } => seq![4u8] + ser_u64(timestamp),
        EntryView::AwakeableCreated { id } => seq![5u8] + ser_u64(id),
        EntryView::AwakeableResolved { id, outcome } => seq![6u8] + (ser_u64(id) + ser_outcome(
            outcome,
        )),
        EntryView::StateGet { key, value } => seq![7u8] + (ser_text(key) + ser_optional(value)),
        EntryView::StateSet { key, value } => seq![8u8] + (ser_text(key) + ser_value(value)),
        EntryView::StateClear { key } => seq![9u8] + ser_text(key),
    }
}

/// Reading a number off the front of the bytes: the number and the bytes
/// that follow it; `None` where fewer than eight bytes are left.
#[verifier::opaque]
pub open spec fn parse_u64(s: Seq<u8>) -> Option<(u64, Seq<u8>)> {
    if s.len() < 8 {
        None
    } else {
        Some((spec_u64_from_le_bytes(s.subrange(0, 8)), s.skip(8)))
    }
}

/// Reading a text off the front of the bytes; `None` where the length is
/// missing, where fewer bytes are left than it announces, or where they are
/// no UTF-8.
#[verifier::opaque]
pub open spec fn parse_text(s: Seq<u8>) -> Option<(Seq<char>, Seq<u8>)> {
    match parse_u64(s) {
        None => None,
        Some((n, r)) => if r.len() < n || !valid_utf8(r.subrange(0, n as int)) {
            None
        } else {
            Some((decode_utf8(r.subrange(0, n as int)), r.skip(n as int)))
        },
    }
}

/// Reading `count` texts off the front of the bytes.
pub open spec fn parse_text_seq(s: Seq<u8>, count: nat) -> Option<(Seq<Seq<char>>, Seq<u8>)>
    decreases count,
{
    if count == 0 {
        Some((Seq::empty(), s))
    } else {
        match parse_text(s) {
            None => None,
            Some((t, r)) => match parse_text_seq(r, (count - 1) as nat) {
                None => None,
                Some((ts, r2)) => Some((seq![t] + ts, r2)),
            },
        }
    }
}

/// Reading a list of texts off the front of the bytes.
#[verifier::opaque]
pub open spec fn parse_texts(s: Seq<u8>) -> Option<(Seq<Seq<char>>, Seq<u8>)> {
    match parse_u64(s) {
        None => None,
        Some((n, r)) => parse_text_seq(r, n as nat),
    }
}

/// Reading a value off the front of the bytes.
#[verifier::opaque]
pub open spec fn parse_value(s: Seq<u8>) -> Option<(ValueView, Seq<u8>)> {
    if s.len() == 0 {
        None
    } else if s[0] == 0 {
        Some((ValueView::Unit, s.skip(1)))
    } else if s[0] == 1 {
        if s.len() < 2 || s[1] > 1 {
            None
        } else {
            Some((ValueView::Bool(s[1] == 1), s.skip(2)))
        }
    } else if s[0] == 2 {
        match parse_u64(s.skip(1)) {
            None => None,
            Some((n, r)) => Some((ValueView::Number(n), r)),
        }
    } else if s[0] == 3 {
        match parse_text(s.skip(1)) {
            None => None,
            Some((t, r)) => Some((ValueView::Text(t), r)),
        }
    } else if s[0] == 4 {
        match parse_texts(s.skip(1)) {
            None => None,
            Some((l, r)) => Some((ValueView::List(l), r)),
        }
    } else {
        None
    }
}

/// Reading an outcome off the front of the bytes.
#[verifier::opaque]
pub open spec fn parse_outcome(s: Seq<u8>) -> Option<(OutcomeView, Seq<u8>)> {
    if s.len() == 0 {
        None
    } else if s[0] == 0 {
        match parse_value(s.skip(1)) {
            None => None,
            Some((v, r)) => Some((OutcomeView::Success(v), r)),
        }
    } else if s[0] == 1 {
        match parse_text(s.skip(1)) {
            None => None,
            Some((m, r)) => Some((OutcomeView::Failure(m), r)),
        }
    } else {
        None
    }
}

/// Reading an optional value off the front of the bytes.
#[verifier::opaque]
pub open spec fn parse_optional(s: Seq<u8>) -> Option<(Option<ValueView>, Seq<u8>)> {
    if s.len() == 0 {
        None
    } else if s[0] == 0 {
        Some((None, s.skip(1)))
    } else if s[0] == 1 {
        match parse_value(s.skip(1)) {
            None => None,
            Some((v, r)) => Some((Some(v), r)),
        }
    } else {
        None
    }
}

/// Reading an address off the front of the bytes.
#[verifier::opaque]
pub open spec fn parse_target(s: Seq<u8>) -> Option<(TargetView, Seq<u8>)> {
    match parse_text(s) {
        None => None,
        Some((service, r)) => match parse_text(r) {
            None => None,
            Some((key, r2)) => match parse_text(r2) {
                None => None,
                Some((handler, r3)) => Some((TargetView { service, key, handler }, r3)),
            },
        },
    }
}

/// Reading a journal entry off the front of the bytes.
pub open spec fn parse_entry(s: Seq<u8>) -> Option<(EntryView, Seq<u8>)> {
    if s.len() == 0 {
        None
    } else if s[0] == 1 {
        match parse_outcome(s.skip(1)) {
            None => None,
            Some((outcome, r)) => Some((EntryView::SideEffectResult { outcome }, r)),
        }
    } else if s[0] == 2 {
        match parse_target(s.skip(1)) {
            None => None,
            Some((target, r)) => match parse_outcome(r) {
                None => None,
                Some((outcome, r2)) => Some((EntryView::CallResult { target, outcome }, r2)),
            },
        }
    } else if s[0] == 3 {
        match parse_target(s.skip(1)) {
            None => None,
            Some((target, r)) => match parse_value(r) {
                None => None,
                Some((payload, r2)) => Some((EntryView::SendRecorded { target, payload }, r2)),
            },
        }
    } else if s[0] == 4 {
        match parse_u64(s.skip(1)) {
            None => None,
            Some((timestamp, r)) => Some((EntryView::SleepUntil { timestamp }, r)),
        }
    } else if s[0] == 5 {
        match parse_u64(s.skip(1)) {
            None => None,
            Some((id, r)) => Some((EntryView::AwakeableCreated { id }, r)),
        }
    } else if s[0] == 6 {
        match parse_u64(s.skip(1)) {
            None => None,
            Some((id, r)) => match parse_outcome(r) {
                None => None,
                Some((outcome, r2)) => Some((EntryView::AwakeableResolved { id, outcome }, r2)),
            },
        }
    } else if s[0] == 7 {
        match parse_text(s.skip(1)) {
            None => None,
            Some((key, r)) => match parse_optional(r) {
                None => None,
                Some((value, r2)) => Some((EntryView::StateGet { key, value }, r2)),
            },
        }
    } else if s[0] == 8 {
        match parse_text(s.skip(1)) {
            None => None,
            Some((key, r)) => match parse_value(r) {
                None => None,
                Some((value, r2)) => Some((EntryView::StateSet { key, value }, r2)),
            },
        }
    } else if s[0] == 9 {
        match parse_text(s.skip(1)) {
            None => None,
            Some((key, r)) => Some((EntryView::StateClear { key }, r)),
        }
    } else {
        None
    }
}

/// What the bytes decode to: the entry that they hold from the first byte to
/// the last, if they hold one.
pub open spec fn decoded(s: Seq<u8>) -> Option<EntryView> {
    match parse_entry(s) {
        Some((e, r)) => if r.len() == 0 {
            Some(e)
        } else {
            None
        },
        None => None,
    }
}

/// Whether a text can be written: its UTF-8 bytes can be counted in a
/// number.
pub open spec fn text_fits(s: Seq<char>) -> bool {
    encode_utf8(s).len() <= u64::MAX
}

/// Whether a list of texts can be written.
pub open spec fn texts_fit(l: Seq<Seq<char>>) -> bool {
    l.len() <= u64::MAX && forall|i: int| 0 <= i < l.len() ==> text_fits(#[trigger] l[i])
}

/// Whether an address can be written.
pub open spec fn target_fits(t: TargetView) -> bool {
    text_fits(t.service) && text_fits(t.key) && text_fits(t.handler)
}

/// Whether a value can be written.
pub open spec fn value_fits(v: ValueView) -> bool {
    match v {
        ValueView::Text(s) => text_fits(s),
        ValueView::List(l) => texts_fit(l),
        _ => true,
    }
}

/// Whether an outcome can be written.
pub open spec fn outcome_fits(o: OutcomeView) -> bool {
    match o {
        OutcomeView::Success(v) => value_fits(v),
        OutcomeView::Failure(m) => text_fits(m),
    }
}

/// Whether an entry can be written: every text and list in it can be
/// counted in a number. Every entry that exists in memory can.
pub open spec fn entry_fits(e: EntryView) -> bool {
    match e {
        EntryView::SideEffectResult { outcome } => outcome_fits(outcome),
        EntryView::CallResult { target, outcome } => target_fits(target) && outcome_fits(outcome),
        EntryView::SendRecorded { target, payload } => target_fits(target) && value_fits(payload),
        EntryView::SleepUntil { .. } => true,
        EntryView::AwakeableCreated { .. } => true,
        EntryView::AwakeableResolved { outcome, .. } => outcome_fits(outcome),
        EntryView::StateGet { key, value } => text_fits(key) && (value matches Some(v)
            ==> value_fits(v)),
        EntryView::StateSet { key, value } => text_fits(key) && value_fits(value),
        EntryView::StateClear { key } => text_fits(key),
    }
}

pub(crate) proof fn lemma_more_u64(s: Seq<u8>, t: Seq<u8>)
    ensures
        parse_u64(s) matches Some((n, r)) ==> parse_u64(s + t) == Some((n, r + t)),
{
    reveal(parse_u64);
    if s.len() >= 8 {
        assert((s + t).subrange(0, 8) =~= s.subrange(0, 8));
        assert((s + t).skip(8) =~= s.skip(8) + t);
    }
}

pub(crate) proof fn lemma_more_text(s: Seq<u8>, t: Seq<u8>)
    ensures
        parse_text(s) matches Some((x, r)) ==> parse_text(s + t) == Some((x, r + t)),
{
    reveal(parse_text);
    lemma_more_u64(s, t);
    match parse_u64(s) {
        None => {},
        Some((n, r)) => {
            if r.len() >= n {
                assert((r + t).subrange(0, n as int) =~= r.subrange(0, n as int));
                assert((r + t).skip(n as int) =~= r.skip(n as int) + t);
            }
        },
    }
}

pub(crate) proof fn lemma_more_text_seq(s: Seq<u8>, count: nat, t: Seq<u8>)
    ensures
        parse_text_seq(s, count) matches Some((l, r)) ==> parse_text_seq(s + t, count) == Some(
            (l, r + t),
        ),
    decreases count,
{
    if count > 0 {
        lemma_more_text(s, t);
        match parse_text(s) {
            None => {},
            Some((x, r)) => {
                lemma_more_text_seq(r, (count - 1) as nat, t);
            },
        }
    }
}

pub(crate) proof fn lemma_more_value(s: Seq<u8>, t: Seq<u8>)
    ensures
        parse_value(s) matches Some((v, r)) ==> parse_value(s + t) == Some((v, r + t)),
{
    reveal(parse_value);
    reveal(parse_texts);
    if s.len() > 0 {
        assert((s + t)[0] == s[0]);
        assert((s + t).skip(1) =~= s.skip(1) + t);
        if s[0] == 0 {
        } else if s[0] == 1 {
            if s.len() >= 2 {
                assert((s + t)[1] == s[1]);
                assert((s + t).skip(2) =~= s.skip(2) + t);
            }
        } else if s[0] == 2 {
            lemma_more_u64(s.skip(1), t);
        } else if s[0] == 3 {
            lemma_more_text(s.skip(1), t);
        } else if s[0] == 4 {
            lemma_more_u64(s.skip(1), t);
            match parse_u64(s.skip(1)) {
                None => {},
                Some((n, r)) => {
                    lemma_more_text_seq(r, n as nat, t);
                },
            }
        }
    }
}

pub(crate) proof fn lemma_more_outcome(s: Seq<u8>, t: Seq<u8>)
    ensures
        parse_outcome(s) matches Some((o, r)) ==> parse_outcome(s + t) == Some((o, r + t)),
{
    reveal(parse_outcome);
    if s.len() > 0 {
        assert((s + t)[0] == s[0]);
        assert((s + t).skip(1) =~= s.skip(1) + t);
        lemma_more_value(s.skip(1), t);
        lemma_more_text(s.skip(1), t);
    }
}

pub(crate) proof fn lemma_more_optional(s: Seq<u8>, t: Seq<u8>)
    ensures
        parse_optional(s) matches Some((v, r)) ==> parse_optional(s + t) == Some((v, r + t)),
{
    reveal(parse_optional);
    if s.len() > 0 {
        assert((s + t)[0] == s[0]);
        assert((s + t).skip(1) =~= s.skip(1) + t);
        lemma_more_value(s.skip(1), t);
    }
}

pub(crate) proof fn lemma_more_target(s: Seq<u8>, t: Seq<u8>)
    ensures
        parse_target(s) matches Some((x, r)) ==> parse_target(s + t) == Some((x, r + t)),
{
    reveal(parse_target);
    lemma_more_text(s, t);
    match parse_text(s) {
        None => {},
        Some((service, r)) => {
            lemma_more_text(r, t);
            match parse_text(r) {
                None => {},
                Some((key, r2)) => {
                    lemma_more_text(r2, t);
                },
            }
        },
    }
}

/// Reading an entry looks at no byte behind it: where the bytes start with
/// an entry, they start with the same entry whatever follows.
pub proof fn law_entry_reading_is_local(s: Seq<u8>, t: Seq<u8>)
    ensures
        parse_entry(s) matches Some((e, r)) ==> parse_entry(s + t) == Some((e, r + t)),
{
    if s.len() > 0 {
        let u = s.skip(1);
        assert((s + t)[0] == s[0]);
        assert((s + t).skip(1) =~= u + t);
        lemma_more_outcome(u, t);
        lemma_more_target(u, t);
        lemma_more_u64(u, t);
        lemma_more_text(u, t);
        if s[0] == 2 || s[0] == 3 {
            match parse_target(u) {
                None => {},
                Some((x, r)) => {
                    lemma_more_outcome(r, t);
                    lemma_more_value(r, t);
                },
            }
        } else if s[0] == 6 {
            match parse_u64(u) {
                None => {},
                Some((x, r)) => {
                    lemma_more_outcome(r, t);
                },
            }
        } else if s[0] == 7 || s[0] == 8 {
            match parse_text(u) {
                None => {},
                Some((x, r)) => {
                    lemma_more_optional(r, t);
                    lemma_more_value(r, t);
                },
            }
        }
    }
}

pub(crate) proof fn lemma_parse_u64(n: u64, rest: Seq<u8>)
    ensures
        parse_u64(ser_u64(n) + rest) == Some((n, rest)),
        ser_u64(n).len() == 8,
{
    reveal(parse_u64);
    lemma_auto_spec_u64_to_from_le_bytes();
    let s = ser_u64(n) + rest;
    assert(s.subrange(0, 8) =~= ser_u64(n));
    assert(s.skip(8) =~= rest);
}

pub(crate) proof fn lemma_parse_text(t: Seq<char>, rest: Seq<u8>)
    requires
        text_fits(t),
    ensures
        parse_text(ser_text(t) + rest) == Some((t, rest)),
{
    broadcast use vstd::utf8::encode_utf8_valid_utf8, vstd::utf8::encode_utf8_decode_utf8;

    reveal(parse_text);
    let raw = encode_utf8(t);
    let n = raw.len() as u64;
    assert(ser_text(t) + rest =~= ser_u64(n) + (raw + rest));
    lemma_parse_u64(n, raw + rest);
    assert((raw + rest).subrange(0, n as int) =~= raw);
    assert((raw + rest).skip(n as int) =~= rest);
}

pub(crate) proof fn lemma_parse_target(t: TargetView, rest: Seq<u8>)
    requires
        target_fits(t),
    ensures
        parse_target(ser_target(t) + rest) == Some((t, rest)),
{
    reveal(parse_target);
    assert(ser_target(t) + rest =~= ser_text(t.service) + (ser_text(t.key) + (ser_text(t.handler)
        + rest)));
    lemma_parse_text(t.service, ser_text(t.key) + (ser_text(t.handler) + rest));
    lemma_parse_text(t.key, ser_text(t.handler) + rest);
    lemma_parse_text(t.handler, rest);
}

pub(crate) proof fn lemma_parse_text_seq(l: Seq<Seq<char>>, rest: Seq<u8>)
    requires
        forall|i: int| 0 <= i < l.len() ==> text_fits(#[trigger] l[i]),
    ensures
        parse_text_seq(ser_text_seq(l) + rest, l.len()) == Some((l, rest)),
    decreases l.len(),
{
    if l.len() == 0 {
        assert(ser_text_seq(l) + rest =~= rest);
    } else {
        let tail = l.drop_first();
        assert forall|i: int| 0 <= i < tail.len() implies text_fits(#[trigger] tail[i]) by {
            assert(tail[i] == l[i + 1]);
        }
        assert(ser_text_seq(l) + rest =~= ser_text(l[0]) + (ser_text_seq(tail) + rest));
        lemma_parse_text(l[0], ser_text_seq(tail) + rest);
        lemma_parse_text_seq(tail, rest);
        assert(seq![l[0]] + tail =~= l);
    }
}

pub(crate) proof fn lemma_parse_value(v: ValueView, rest: Seq<u8>)
    requires
        value_fits(v),
    ensures
        parse_value(ser_value(v) + rest) == Some((v, rest)),
{
    reveal(parse_value);
    reveal(parse_texts);
    let s = ser_value(v) + rest;
    match v {
        ValueView::Unit => {
            assert(s.skip(1) =~= rest);
        },
        ValueView::Bool(b) => {
            assert(s.skip(2) =~= rest);
        },
        ValueView::Number(n) => {
            assert(s.skip(1) =~= ser_u64(n) + rest);
            lemma_parse_u64(n, rest);
        },
        ValueView::Text(t) => {
            assert(s.skip(1) =~= ser_text(t) + rest);
            lemma_parse_text(t, rest);
        },
        ValueView::List(l) => {
            assert(s.skip(1) =~= ser_u64(l.len() as u64) + (ser_text_seq(l) + rest));
            lemma_parse_u64(l.len() as u64, ser_text_seq(l) + rest);
            lemma_parse_text_seq(l, rest);
        },
    }
}

pub(crate) proof fn lemma_parse_outcome(o: OutcomeView, rest: Seq<u8>)
    requires
        outcome_fits(o),
    ensures
        parse_outcome(ser_outcome(o) + rest) == Some((o, rest)),
{
    reveal(parse_outcome);
    let s = ser_outcome(o) + rest;
    match o {
        OutcomeView::Success(v) => {
            assert(s.skip(1) =~= ser_value(v) + rest);
            lemma_parse_value(v, rest);
        },
        OutcomeView::Failure(m) => {
            assert(s.skip(1) =~= ser_text(m) + rest);
            lemma_parse_text(m, rest);
        },
    }
}

pub(crate) proof fn lemma_parse_optional(v: Option<ValueView>, rest: Seq<u8>)
    requires
        v matches Some(x) ==> value_fits(x),
    ensures
        parse_optional(ser_optional(v) + rest) == Some((v, rest)),
{
    reveal(parse_optional);
    let s = ser_optional(v) + rest;
    match v {
        None => {
            assert(s.skip(1) =~= rest);
        },
        Some(x) => {
            assert(s.skip(1) =~= ser_value(x) + rest);
            lemma_parse_value(x, rest);
        },
    }
}

/// Every entry is read back from its bytes, whatever follows them: the
/// reader takes exactly the bytes that the writer wrote and finds the entry
/// that was written.
pub proof fn law_entry_round_trip(e: EntryView, rest: Seq<u8>)
    requires
        entry_fits(e),
    ensures
        parse_entry(ser_entry(e) + rest) == Some((e, rest)),
        decoded(ser_entry(e)) == Some(e),
{
    lemma_entry_round_trip(e, rest);
    lemma_entry_round_trip(e, Seq::empty());
    assert(ser_entry(e) + Seq::<u8>::empty() =~= ser_entry(e));
}

proof fn lemma_entry_round_trip(e: EntryView, rest: Seq<u8>)
    requires
        entry_fits(e),
    ensures
        parse_entry(ser_entry(e) + rest) == Some((e, rest)),
{
    let s = ser_entry(e) + rest;
    match e {
        EntryView::SideEffectResult { outcome } => {
            assert(s.skip(1) =~= ser_outcome(outcome) + rest);
            lemma_parse_outcome(outcome, rest);
        },
        EntryView::CallResult { target, outcome } => {
            assert(s.skip(1) =~= ser_target(target) + (ser_outcome(outcome) + rest));
            lemma_parse_target(target, ser_outcome(outcome) + rest);
            lemma_parse_outcome(outcome, rest);
        },
        EntryView::SendRecorded { target, payload } => {
            assert(s.skip(1) =~= ser_target(target) + (ser_value(payload) + rest));
            lemma_parse_target(target, ser_value(payload) + rest);
            lemma_parse_value(payload, rest);
        },
        EntryView::SleepUntil { timestamp } => {
            assert(s.skip(1) =~= ser_u64(timestamp) + rest);
            lemma_parse_u64(timestamp, rest);
        },
        EntryView::AwakeableCreated { id } => {
            assert(s.skip(1) =~= ser_u64(id) + rest);
            lemma_parse_u64(id, rest);
        },
        EntryView::AwakeableResolved { id, outcome } => {
            assert(s.skip(1) =~= ser_u64(id) + (ser_outcome(outcome) + rest));
            lemma_parse_u64(id, ser_outcome(outcome) + rest);
            lemma_parse_outcome(outcome, rest);
        },
        EntryView::StateGet { key, value } => {
            assert(s.skip(1) =~= ser_text(key) + (ser_optional(value) + rest));
            lemma_parse_text(key, ser_optional(value) + rest);
            lemma_parse_optional(value, rest);
        },
        EntryView::StateSet { key, value } => {
            assert(s.skip(1) =~= ser_text(key) + (ser_value(value) + rest));
            lemma_parse_text(key, ser_value(value) + rest);
            lemma_parse_value(value, rest);
        },
        EntryView::StateClear { key } => {
            assert(s.skip(1) =~= ser_text(key) + rest);
            lemma_parse_text(key, rest);
        },
    }
}

proof fn lemma_ser_text_seq_push(l: Seq<Seq<char>>, t: Seq<char>)
    ensures
        ser_text_seq(l.push(t)) == ser_text_seq(l) + ser_text(t),
    decreases l.len(),
{
    if l.len() == 0 {
        assert(l.push(t).drop_first() =~= Seq::<Seq<char>>::empty());
        assert(ser_text_seq(l.push(t)) =~= ser_text(t) + ser_text_seq(Seq::empty()));
        assert(ser_text_seq(l) + ser_text(t) =~= ser_text(t));
    } else {
        assert(l.push(t).drop_first() =~= l.drop_first().push(t));
        lemma_ser_text_seq_push(l.drop_first(), t);
        assert(ser_text_seq(l.push(t)) =~= ser_text_seq(l) + ser_text(t));
    }
}

/// Makes a string of bytes that are UTF-8: `String::from_utf8` of the
/// standard library. The contract claims what its documentation says: the
/// conversion succeeds if and only if the bytes are valid UTF-8, and the
/// string then consists of exactly these bytes.
#[verifier::external_body]
fn text_from_utf8(bytes: Vec<u8>) -> (r: Option<String>)
    ensures
        r is Some <==> valid_utf8(bytes@),
        r matches Some(s) ==> encode_utf8(s@) == bytes@,
{
    match String::from_utf8(bytes) {
        Ok(s) => Some(s),
        Err(_) => None,
    }
}

pub(crate) fn put_u64(out: &mut Vec<u8>, n: u64)
    ensures
        final(out)@ == old(out)@ + ser_u64(n),
{
    let mut b = u64_to_le_bytes(n);
    out.append(&mut b);
}

pub(crate) fn put_bytes(out: &mut Vec<u8>, bytes: &[u8])
    ensures
        final(out)@ == old(out)@ + bytes@,
{
    let mut i: usize = 0;
    let ghost start = out@;
    while i < bytes.len()
        invariant
            i <= bytes.len(),
            out@ == start + bytes@.take(i as int),
        decreases bytes.len() - i,
    {
        out.push(bytes[i]);
        assert(out@ =~= start + bytes@.take(i + 1));
        i = i + 1;
    }
    assert(bytes@.take(bytes.len() as int) =~= bytes@);
}

pub(crate) fn put_text(out: &mut Vec<u8>, s: &String)
    ensures
        final(out)@ == old(out)@ + ser_text(s@),
        text_fits(s@),
{
    let bytes = s.as_str().as_bytes();
    put_u64(out, bytes.len() as u64);
    put_bytes(out, bytes);
    assert(out@ =~= old(out)@ + ser_text(s@));
}

pub(crate) fn put_target(out: &mut Vec<u8>, t: &Target)
    ensures
        final(out)@ == old(out)@ + ser_target(t@),
        target_fits(t@),
{
    put_text(out, &t.service);
    put_text(out, &t.key);
    put_text(out, &t.handler);
    assert(out@ =~= old(out)@ + ser_target(t@));
}

pub(crate) fn put_texts(out: &mut Vec<u8>, l: &Vec<String>)
    ensures
        final(out)@ == old(out)@ + ser_texts(text_views(l@)),
        texts_fit(text_views(l@)),
{
    let ghost start = out@;
    let ghost all = text_views(l@);
    put_u64(out, l.len() as u64);
    let mut i: usize = 0;
    assert(all.take(0) =~= Seq::<Seq<char>>::empty());
    assert(out@ =~= start + ser_u64(l.len() as u64) + ser_text_seq(all.take(0)));
    while i < l.len()
        invariant
            i <= l.len(),
            all == text_views(l@),
            out@ == start + ser_u64(l.len() as u64) + ser_text_seq(all.take(i as int)),
            forall|j: int| 0 <= j < i ==> text_fits(#[trigger] all[j]),
        decreases l.len() - i,
    {
        let ghost before = out@;
        put_text(out, &l[i]);
        proof {
            assert(all.take(i + 1) =~= all.take(i as int).push(all[i as int]));
            lemma_ser_text_seq_push(all.take(i as int), all[i as int]);
            assert(out@ =~= start + ser_u64(l.len() as u64) + ser_text_seq(all.take(i + 1)));
        }
        i = i + 1;
    }
    assert(all.take(l.len() as int) =~= all);
    assert(out@ =~= start + ser_texts(all));
}

pub(crate) fn put_value(out: &mut Vec<u8>, v: &Value)
    ensures
        final(out)@ == old(out)@ + ser_value(v@),
        value_fits(v@),
{
    match v {
        Value::Unit => {
            out.push(0);
            assert(out@ =~= old(out)@ + ser_value(v@));
        },
        Value::Bool(b) => {
            out.push(1);
            out.push(if *b {
                1
            } else {
                0
            });
            assert(out@ =~= old(out)@ + ser_value(v@));
        },
        Value::Number(n) => {
            out.push(2);
            put_u64(out, *n);
            assert(out@ =~= old(out)@ + ser_value(v@));
        },
        Value::Text(s) => {
            out.push(3);
            put_text(out, s);
            assert(out@ =~= old(out)@ + ser_value(v@));
        },
        Value::List(l) => {
            out.push(4);
            put_texts(out, l);
            assert(out@ =~= old(out)@ + ser_value(v@));
        },
    }
}

pub(crate) fn put_outcome(out: &mut Vec<u8>, o: &Outcome)
    ensures
        final(out)@ == old(out)@ + ser_outcome(o@),
        outcome_fits(o@),
{
    match o {
        Outcome::Success(v) => {
            out.push(0);
            put_value(out, v);
            assert(out@ =~= old(out)@ + ser_outcome(o@));
        },
        Outcome::Failure(m) => {
            out.push(1);
            put_text(out, m);
            assert(out@ =~= old(out)@ + ser_outcome(o@));
        },
    }
}

pub(crate) fn put_optional(out: &mut Vec<u8>, v: &Option<Value>)
    ensures
        final(out)@ == old(out)@ + ser_optional(optional_view(*v)),
        optional_view(*v) matches Some(x) ==> value_fits(x),
{
    match v {
        None => {
            out.push(0);
            assert(out@ =~= old(out)@ + ser_optional(optional_view(*v)));
        },
        Some(x) => {
            out.push(1);
            put_value(out, x);
            assert(out@ =~= old(out)@ + ser_optional(optional_view(*v)));
        },
    }
}

/// Writes a journal entry as bytes: see [`ser_entry`]. The bytes decode to
/// the entry again.
pub fn encode_entry(e: &JournalEntry) -> (bytes: Vec<u8>)
    ensures
        bytes@ == ser_entry(e@),
        entry_fits(e@),
        decoded(bytes@) == Some(e@),
{
    let mut out: Vec<u8> = Vec::new();
    match e {
        JournalEntry::SideEffectResult { outcome } => {
            out.push(1);
            put_outcome(&mut out, outcome);
        },
        JournalEntry::CallResult { target, outcome } => {
            out.push(2);
            put_target(&mut out, target);
            put_outcome(&mut out, outcome);
        },
        JournalEntry::SendRecorded { target, payload } => {
            out.push(3);
            put_target(&mut out, target);
            put_value(&mut out, payload);
        },
        JournalEntry::SleepUntil { timestamp } => {
            out.push(4);
            put_u64(&mut out, *timestamp);
        },
        JournalEntry::AwakeableCreated { id } => {
            out.push(5);
            put_u64(&mut out, *id);
        },
        JournalEntry::AwakeableResolved { id, outcome } => {
            out.push(6);
            put_u64(&mut out, *id);
            put_outcome(&mut out, outcome);
        },
        JournalEntry::StateGet { key, value } => {
            out.push(7);
            put_text(&mut out, key);
            put_optional(&mut out, value);
        },
        JournalEntry::StateSet { key, value } => {
            out.push(8);
            put_text(&mut out, key);
            put_value(&mut out, value);
        },
        JournalEntry::StateClear { key } => {
            out.push(9);
            put_text(&mut out, key);
        },
    }
    proof {
        assert(out@ =~= ser_entry(e@));
        law_entry_round_trip(e@, Seq::empty());
    }
    out
}

pub(crate) fn take_u64(bytes: &[u8], pos: usize) -> (r: Option<(u64, usize)>)
    requires
        pos <= bytes@.len(),
    ensures
        r is Some <==> parse_u64(bytes@.skip(pos as int)) is Some,
        r matches Some((n, next)) ==> pos <= next <= bytes@.len() && parse_u64(
            bytes@.skip(pos as int),
        ) == Some((n, bytes@.skip(next as int))),
{
    reveal(parse_u64);
    if bytes.len() - pos < 8 {
        return None;
    }
    let n = u64_from_le_bytes(slice_subrange(bytes, pos, pos + 8));
    proof {
        assert(bytes@.skip(pos as int).subrange(0, 8) =~= bytes@.subrange(pos as int, pos + 8));
        assert(bytes@.skip(pos as int).skip(8) =~= bytes@.skip(pos + 8));
    }
    Some((n, pos + 8))
}

pub(crate) fn take_text(bytes: &[u8], pos: usize) -> (r: Option<(String, usize)>)
    requires
        pos <= bytes@.len(),
    ensures
        r is Some <==> parse_text(bytes@.skip(pos as int)) is Some,
        r matches Some((s, next)) ==> pos <= next <= bytes@.len() && parse_text(
            bytes@.skip(pos as int),
        ) == Some((s@, bytes@.skip(next as int))),
{
    broadcast use vstd::utf8::encode_utf8_decode_utf8;

    reveal(parse_text);
    let (n, p) = match take_u64(bytes, pos) {
        Some(x) => x,
        None => {
            return None;
        },
    };
    if n > (bytes.len() - p) as u64 {
        return None;
    }
    let len = n as usize;
    let raw = slice_to_vec(slice_subrange(bytes, p, p + len));
    proof {
        assert(bytes@.skip(p as int).subrange(0, n as int) =~= bytes@.subrange(p as int, p + len));
        assert(bytes@.skip(p as int).skip(n as int) =~= bytes@.skip(p + len));
    }
    match text_from_utf8(raw) {
        Some(s) => Some((s, p + len)),
        None => None,
    }
}

pub(crate) fn take_target(bytes: &[u8], pos: usize) -> (r: Option<(Target, usize)>)
    requires
        pos <= bytes@.len(),
    ensures
        r is Some <==> parse_target(bytes@.skip(pos as int)) is Some,
        r matches Some((t, next)) ==> pos <= next <= bytes@.len() && parse_target(
            bytes@.skip(pos as int),
        ) == Some((t@, bytes@.skip(next as int))),
{
    reveal(parse_target);
    let (service, after_service) = match take_text(bytes, pos) {
        Some(x) => x,
        None => {
            return None;
        },
    };
    let (key, after_key) = match take_text(bytes, after_service) {
        Some(x) => x,
        None => {
            return None;
        },
    };
    let (handler, after_handler) = match take_text(bytes, after_key) {
        Some(x) => x,
        None => {
            return None;
        },
    };
    Some((Target { service, key, handler }, after_handler))
}

/// What reading `count` more texts makes of a list that has `items`
/// already.
spec fn extended(items: Seq<Seq<char>>, more: Option<(Seq<Seq<char>>, Seq<u8>)>) -> Option<
    (Seq<Seq<char>>, Seq<u8>),
> {
    match more {
        None => None,
        Some((ts, r)) => Some((items + ts, r)),
    }
}

pub(crate) fn take_texts(bytes: &[u8], pos: usize) -> (r: Option<(Vec<String>, usize)>)
    requires
        pos <= bytes@.len(),
    ensures
        r is Some <==> parse_texts(bytes@.skip(pos as int)) is Some,
        r matches Some((l, next)) ==> pos <= next <= bytes@.len() && parse_texts(
            bytes@.skip(pos as int),
        ) == Some((text_views(l@), bytes@.skip(next as int))),
{
    reveal(parse_texts);
    let (count, start) = match take_u64(bytes, pos) {
        Some(x) => x,
        None => {
            return None;
        },
    };
    let mut items: Vec<String> = Vec::new();
    let mut p = start;
    let mut i: u64 = 0;
    let ghost whole = parse_text_seq(bytes@.skip(start as int), count as nat);
    proof {
        let first = parse_text_seq(bytes@.skip(p as int), count as nat);
        match first {
            None => {},
            Some((ts, r)) => {
                assert(text_views(items@) + ts =~= ts);
            },
        }
    }
    while i < count
        invariant
            i <= count,
            pos <= start <= p <= bytes@.len(),
            parse_texts(bytes@.skip(pos as int)) == whole,
            whole == extended(
                text_views(items@),
                parse_text_seq(bytes@.skip(p as int), (count - i) as nat),
            ),
        decreases count - i,
    {
        let (s, next) = match take_text(bytes, p) {
            Some(x) => x,
            None => {
                return None;
            },
        };
        let ghost before = text_views(items@);
        items.push(s);
        proof {
            assert(text_views(items@) =~= before.push(s@));
            let tail = parse_text_seq(bytes@.skip(next as int), (count - i - 1) as nat);
            match tail {
                None => {},
                Some((ts, r)) => {
                    assert(before + (seq![s@] + ts) =~= before.push(s@) + ts);
                },
            }
        }
        p = next;
        i = i + 1;
    }
    proof {
        assert(text_views(items@) + Seq::<Seq<char>>::empty() =~= text_views(items@));
    }
    Some((items, p))
}

pub(crate) fn take_value(bytes: &[u8], pos: usize) -> (r: Option<(Value, usize)>)
    requires
        pos <= bytes@.len(),
    ensures
        r is Some <==> parse_value(bytes@.skip(pos as int)) is Some,
        r matches Some((v, next)) ==> pos <= next <= bytes@.len() && parse_value(
            bytes@.skip(pos as int),
        ) == Some((v@, bytes@.skip(next as int))),
{
    reveal(parse_value);
    if pos >= bytes.len() {
        return None;
    }
    let tag = bytes[pos];
    proof {
        assert(bytes@.skip(pos as int)[0] == bytes@[pos as int]);
        assert(bytes@.skip(pos as int).skip(1) =~= bytes@.skip(pos + 1));
    }
    if tag == 0 {
        Some((Value::Unit, pos + 1))
    } else if tag == 1 {
        if bytes.len() - pos < 2 {
            return None;
        }
        let b = bytes[pos + 1];
        proof {
            assert(bytes@.skip(pos as int)[1] == bytes@[pos + 1]);
            assert(bytes@.skip(pos as int).skip(2) =~= bytes@.skip(pos + 2));
        }
        if b > 1 {
            return None;
        }
        Some((Value::Bool(b == 1), pos + 2))
    } else if tag == 2 {
        match take_u64(bytes, pos + 1) {
            Some((n, next)) => Some((Value::Number(n), next)),
            None => None,
        }
    } else if tag == 3 {
        match take_text(bytes, pos + 1) {
            Some((s, next)) => Some((Value::Text(s), next)),
            None => None,
        }
    } else if tag == 4 {
        match take_texts(bytes, pos + 1) {
            Some((l, next)) => Some((Value::List(l), next)),
            None => None,
        }
    } else {
        None
    }
}

pub(crate) fn take_outcome(bytes: &[u8], pos: usize) -> (r: Option<(Outcome, usize)>)
    requires
        pos <= bytes@.len(),
    ensures
        r is Some <==> parse_outcome(bytes@.skip(pos as int)) is Some,
        r matches Some((o, next)) ==> pos <= next <= bytes@.len() && parse_outcome(
            bytes@.skip(pos as int),
        ) == Some((o@, bytes@.skip(next as int))),
{
    reveal(parse_outcome);
    if pos >= bytes.len() {
        return None;
    }
    let tag = bytes[pos];
    proof {
        assert(bytes@.skip(pos as int)[0] == bytes@[pos as int]);
        assert(bytes@.skip(pos as int).skip(1) =~= bytes@.skip(pos + 1));
    }
    if tag == 0 {
        match take_value(bytes, pos + 1) {
            Some((v, next)) => Some((Outcome::Success(v), next)),
            None => None,
        }
    } else if tag == 1 {
        match take_text(bytes, pos + 1) {
            Some((m, next)) => Some((Outcome::Failure(m), next)),
            None => None,
        }
    } else {
        None
    }
}

pub(crate) fn take_optional(bytes: &[u8], pos: usize) -> (r: Option<(Option<Value>, usize)>)
    requires
        pos <= bytes@.len(),
    ensures
        r is Some <==> parse_optional(bytes@.skip(pos as int)) is Some,
        r matches Some((v, next)) ==> pos <= next <= bytes@.len() && parse_optional(
            bytes@.skip(pos as int),
        ) == Some((optional_view(v), bytes@.skip(next as int))),
{
    reveal(parse_optional);
    if pos >= bytes.len() {
        return None;
    }
    let tag = bytes[pos];
    proof {
        assert(bytes@.skip(pos as int)[0] == bytes@[pos as int]);
        assert(bytes@.skip(pos as int).skip(1) =~= bytes@.skip(pos + 1));
    }
    if tag == 0 {
        Some((None, pos + 1))
    } else if tag == 1 {
        match take_value(bytes, pos + 1) {
            Some((v, next)) => Some((Some(v), next)),
            None => None,
        }
    } else {
        None
    }
}

pub(crate) fn take_entry(bytes: &[u8], pos: usize) -> (r: Option<(JournalEntry, usize)>)
    requires
        pos <= bytes@.len(),
    ensures
        r is Some <==> parse_entry(bytes@.skip(pos as int)) is Some,
        r matches Some((e, next)) ==> pos <= next <= bytes@.len() && parse_entry(
            bytes@.skip(pos as int),
        ) == Some((e@, bytes@.skip(next as int))),
{
    if pos >= bytes.len() {
        return None;
    }
    let tag = bytes[pos];
    proof {
        assert(bytes@.skip(pos as int)[0] == bytes@[pos as int]);
        assert(bytes@.skip(pos as int).skip(1) =~= bytes@.skip(pos + 1));
    }
    if tag == 1 {
        match take_outcome(bytes, pos + 1) {
            Some((outcome, next)) => Some((JournalEntry::SideEffectResult { outcome }, next)),
            None => None,
        }
    } else if tag == 2 {
        match take_target(bytes, pos + 1) {
            Some((target, p)) => match take_outcome(bytes, p) {
                Some((outcome, next)) => Some((JournalEntry::CallResult { target, outcome }, next)),
                None => None,
            },
            None => None,
        }
    } else if tag == 3 {
        match take_target(bytes, pos + 1) {
            Some((target, p)) => match take_value(bytes, p) {
                Some((payload, next)) => Some(
                    (JournalEntry::SendRecorded { target, payload }, next),
                ),
                None => None,
            },
            None => None,
        }
    } else if tag == 4 {
        match take_u64(bytes, pos + 1) {
            Some((timestamp, next)) => Some((JournalEntry::SleepUntil { timestamp }, next)),
            None => None,
        }
    } else if tag == 5 {
        match take_u64(bytes, pos + 1) {
            Some((id, next)) => Some((JournalEntry::AwakeableCreated { id }, next)),
            None => None,
        }
    } else if tag == 6 {
        match take_u64(bytes, pos + 1) {
            Some((id, p)) => match take_outcome(bytes, p) {
                Some((outcome, next)) => Some(
                    (JournalEntry::AwakeableResolved { id, outcome }, next),
                ),
                None => None,
            },
            None => None,
        }
    } else if tag == 7 {
        match take_text(bytes, pos + 1) {
            Some((key, p)) => match take_optional(bytes, p) {
                Some((value, next)) => Some((JournalEntry::StateGet { key, value }, next)),
                None => None,
            },
            None => None,
        }
    } else if tag == 8 {
        match take_text(bytes, pos + 1) {
            Some((key, p)) => match take_value(bytes, p) {
                Some((value, next)) => Some((JournalEntry::StateSet { key, value }, next)),
                None => None,
            },
            None => None,
        }
    } else if tag == 9 {
        match take_text(bytes, pos + 1) {
            Some((key, next)) => Some((JournalEntry::StateClear { key }, next)),
            None => None,
        }
    } else {
        None
    }
}

/// Reads a journal entry from bytes: the entry that the bytes hold from the
/// first to the last, see [`decoded`]; `None` for bytes that hold no entry,
/// or an entry and more.
pub fn decode_entry(bytes: &[u8]) -> (r: Option<JournalEntry>)
    ensures
        r is Some <==> decoded(bytes@) is Some,
        r matches Some(e) ==> decoded(bytes@) == Some(e@),
{
    assert(bytes@.skip(0) =~= bytes@);
    match take_entry(bytes, 0) {
        Some((e, next)) => {
            if next == bytes.len() {
                Some(e)
            } else {
                None
            }
        },
        None => None,
    }
}

} // verus!
