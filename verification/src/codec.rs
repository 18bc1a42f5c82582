//! The persisted form of a recording: a deterministic, order-preserving byte
//! encoding of an event sequence, and its exact inverse.
//!
//! Each event is one record: a kind tag, the kind's payload fields as
//! little-endian integers, then the eight delay bytes. `encode` produces the
//! concatenation of the records; `decode` reconstructs the sequence and fails
//! with [`MacroError::MalformedRecording`] on any byte stream that is not a
//! sequence of well-formed records. [`lemma_round_trip`] proves that decoding
//! an encoding yields the original sequence, for every sequence.

use vstd::prelude::*;
use crate::event::{Button, Key, SerializableEvent, SerializableEventType};
use crate::MacroError;

verus! {

/// The little-endian bytes of a 64-bit value.
pub open spec fn le64(v: u64) -> Seq<u8> {
    seq![
        (v & 0xff) as u8,
        ((v >> 8) & 0xff) as u8,
        ((v >> 16) & 0xff) as u8,
        ((v >> 24) & 0xff) as u8,
        ((v >> 32) & 0xff) as u8,
        ((v >> 40) & 0xff) as u8,
        ((v >> 48) & 0xff) as u8,
        ((v >> 56) & 0xff) as u8,
    ]
}

/// The little-endian bytes of a 32-bit value.
pub open spec fn le32(v: u32) -> Seq<u8> {
    seq![
        (v & 0xff) as u8,
        ((v >> 8) & 0xff) as u8,
        ((v >> 16) & 0xff) as u8,
        ((v >> 24) & 0xff) as u8,
    ]
}

/// The 64-bit value read from eight little-endian bytes.
pub open spec fn u64_from_le(s: Seq<u8>) -> u64
    recommends
        s.len() == 8,
{
    (s[0] as u64) | ((s[1] as u64) << 8) | ((s[2] as u64) << 16) | ((s[3] as u64) << 24)
        | ((s[4] as u64) << 32) | ((s[5] as u64) << 40) | ((s[6] as u64) << 48)
        | ((s[7] as u64) << 56)
}

/// The 32-bit value read from four little-endian bytes.
pub open spec fn u32_from_le(s: Seq<u8>) -> u32
    recommends
        s.len() == 4,
{
    (s[0] as u32) | ((s[1] as u32) << 8) | ((s[2] as u32) << 16) | ((s[3] as u32) << 24)
}

proof fn lemma_le64_roundtrip(v: u64)
    ensures
        u64_from_le(le64(v)) == v,
{
    assert(((v & 0xff) as u8) as u64 | ((((v >> 8) & 0xff) as u8) as u64) << 8
        | ((((v >> 16) & 0xff) as u8) as u64) << 16 | ((((v >> 24) & 0xff) as u8) as u64) << 24
        | ((((v >> 32) & 0xff) as u8) as u64) << 32 | ((((v >> 40) & 0xff) as u8) as u64) << 40
        | ((((v >> 48) & 0xff) as u8) as u64) << 48 | ((((v >> 56) & 0xff) as u8) as u64) << 56
        == v) by (bit_vector);
}

proof fn lemma_le32_roundtrip(v: u32)
    ensures
        u32_from_le(le32(v)) == v,
{
    assert(((v & 0xff) as u8) as u32 | ((((v >> 8) & 0xff) as u8) as u32) << 8
        | ((((v >> 16) & 0xff) as u8) as u32) << 16 | ((((v >> 24) & 0xff) as u8) as u32) << 24
        == v) by (bit_vector);
}

/// The byte encoding of a key: one tag byte for the modifier variants, the
/// tag byte `8` followed by the four code bytes for any other key.
pub open spec fn enc_key(k: Key) -> Seq<u8> {
    match k {
        Key::MetaLeft => seq![0u8],
        Key::MetaRight => seq![1u8],
        Key::Alt => seq![2u8],
        Key::AltGr => seq![3u8],
        Key::ControlLeft => seq![4u8],
        Key::ControlRight => seq![5u8],
        Key::ShiftLeft => seq![6u8],
        Key::ShiftRight => seq![7u8],
        Key::Other(c) => seq![8u8] + le32(c),
    }
}

/// Reads one key from the front of `b`: the key and the bytes consumed.
pub open spec fn dec_key(b: Seq<u8>) -> Option<(Key, nat)> {
    if b.len() < 1 {
        None
    } else if b[0] == 0 {
        Some((Key::MetaLeft, 1nat))
    } else if b[0] == 1 {
        Some((Key::MetaRight, 1nat))
    } else if b[0] == 2 {
        Some((Key::Alt, 1nat))
    } else if b[0] == 3 {
        Some((Key::AltGr, 1nat))
    } else if b[0] == 4 {
        Some((Key::ControlLeft, 1nat))
    } else if b[0] == 5 {
        Some((Key::ControlRight, 1nat))
    } else if b[0] == 6 {
        Some((Key::ShiftLeft, 1nat))
    } else if b[0] == 7 {
        Some((Key::ShiftRight, 1nat))
    } else if b[0] == 8 {
        if b.len() >= 5 {
            Some((Key::Other(u32_from_le(b.subrange(1, 5))), 5nat))
        } else {
            None
        }
    } else {
        None
    }
}

/// The byte encoding of a button: one tag byte for the named variants, the
/// tag byte `3` followed by the code byte for any other button.
pub open spec fn enc_button(bt: Button) -> Seq<u8> {
    match bt {
        Button::Left => seq![0u8],
        Button::Right => seq![1u8],
        Button::Middle => seq![2u8],
        Button::Other(c) => seq![3u8, c],
    }
}

/// Reads one button from the front of `b`: the button and the bytes consumed.
pub open spec fn dec_button(b: Seq<u8>) -> Option<(Button, nat)> {
    if b.len() < 1 {
        None
    } else if b[0] == 0 {
        Some((Button::Left, 1nat))
    } else if b[0] == 1 {
        Some((Button::Right, 1nat))
    } else if b[0] == 2 {
        Some((Button::Middle, 1nat))
    } else if b[0] == 3 {
        if b.len() >= 2 {
            Some((Button::Other(b[1]), 2nat))
        } else {
            None
        }
    } else {
        None
    }
}

/// The byte encoding of one event: kind tag, payload, then the delay bytes.
pub open spec fn enc_event(e: SerializableEvent) -> Seq<u8> {
    match e.event_type {
        SerializableEventType::KeyPress(k) => seq![0u8] + enc_key(k) + le64(e.delay_ms),
        SerializableEventType::KeyRelease(k) => seq![1u8] + enc_key(k) + le64(e.delay_ms),
        SerializableEventType::ButtonPress(bt) => seq![2u8] + enc_button(bt) + le64(e.delay_ms),
        SerializableEventType::ButtonRelease(bt) => seq![3u8] + enc_button(bt) + le64(e.delay_ms),
        SerializableEventType::MouseMove { x_bits, y_bits } => seq![4u8] + le64(x_bits) + le64(
            y_bits,
        ) + le64(e.delay_ms),
        SerializableEventType::Wheel { delta_x, delta_y } => seq![5u8] + le64(delta_x as u64)
            + le64(delta_y as u64) + le64(e.delay_ms),
    }
}

/// Reads one event from the front of `b`: the event and the bytes consumed.
pub open spec fn dec_one(b: Seq<u8>) -> Option<(SerializableEvent, nat)> {
    if b.len() < 1 {
        None
    } else if b[0] == 0 || b[0] == 1 {
        match dec_key(b.skip(1)) {
            Some((k, m)) => if b.len() >= 9 + m {
                let et = if b[0] == 0 {
                    SerializableEventType::KeyPress(k)
                } else {
                    SerializableEventType::KeyRelease(k)
                };
                Some(
                    (
                        SerializableEvent {
                            event_type: et,
                            delay_ms: u64_from_le(b.subrange(1 + m as int, 9 + m as int)),
                        },
                        (9 + m) as nat,
                    ),
                )
            } else {
                None
            },
            None => None,
        }
    } else if b[0] == 2 || b[0] == 3 {
        match dec_button(b.skip(1)) {
            Some((bt, m)) => if b.len() >= 9 + m {
                let et = if b[0] == 2 {
                    SerializableEventType::ButtonPress(bt)
                } else {
                    SerializableEventType::ButtonRelease(bt)
                };
                Some(
                    (
                        SerializableEvent {
                            event_type: et,
                            delay_ms: u64_from_le(b.subrange(1 + m as int, 9 + m as int)),
                        },
                        (9 + m) as nat,
                    ),
                )
            } else {
                None
            },
            None => None,
        }
    } else if b[0] == 4 {
        if b.len() >= 25 {
            Some(
                (
                    SerializableEvent {
                        event_type: SerializableEventType::MouseMove {
                            x_bits: u64_from_le(b.subrange(1, 9)),
                            y_bits: u64_from_le(b.subrange(9, 17)),
                        },
                        delay_ms: u64_from_le(b.subrange(17, 25)),
                    },
                    25nat,
                ),
            )
        } else {
            None
        }
    } else if b[0] == 5 {
        if b.len() >= 25 {
            Some(
                (
                    SerializableEvent {
                        event_type: SerializableEventType::Wheel {
                            delta_x: u64_from_le(b.subrange(1, 9)) as i64,
                            delta_y: u64_from_le(b.subrange(9, 17)) as i64,
                        },
                        delay_ms: u64_from_le(b.subrange(17, 25)),
                    },
                    25nat,
                ),
            )
        } else {
            None
        }
    } else {
        None
    }
}

/// The byte encoding of a whole sequence: the records in timeline order.
pub open spec fn enc_seq(s: Seq<SerializableEvent>) -> Seq<u8>
    decreases s.len(),
{
    if s.len() == 0 {
        Seq::empty()
    } else {
        enc_event(s[0]) + enc_seq(s.skip(1))
    }
}

/// Reads a whole sequence: `Some` exactly when `b` is a concatenation of
/// well-formed records with nothing left over.
pub open spec fn dec_seq(b: Seq<u8>) -> Option<Seq<SerializableEvent>>
    decreases b.len(),
{
    if b.len() == 0 {
        Some(Seq::empty())
    } else {
        match dec_one(b) {
            Some((e, n)) => if 1 <= n <= b.len() {
                match dec_seq(b.skip(n as int)) {
                    Some(rest) => Some(seq![e] + rest),
                    None => None,
                }
            } else {
                None
            },
            None => None,
        }
    }
}

proof fn lemma_dec_key_enc(k: Key, rest: Seq<u8>)
    ensures
        1 <= enc_key(k).len() <= 5,
        dec_key(enc_key(k) + rest) == Some((k, enc_key(k).len() as nat)),
{
    let b = enc_key(k) + rest;
    match k {
        Key::Other(c) => {
            assert(b[0] == 8);
            assert(b.subrange(1, 5) =~= le32(c));
            lemma_le32_roundtrip(c);
        },
        _ => {},
    }
}

proof fn lemma_dec_button_enc(bt: Button, rest: Seq<u8>)
    ensures
        1 <= enc_button(bt).len() <= 2,
        dec_button(enc_button(bt) + rest) == Some((bt, enc_button(bt).len() as nat)),
{
    let b = enc_button(bt) + rest;
    match bt {
        Button::Other(c) => {
            assert(b[0] == 3 && b[1] == c);
        },
        _ => {},
    }
}

/// Reading one record from the front of an encoding yields the encoded event
/// and consumes exactly its record.
#[verifier::rlimit(60)]
proof fn lemma_dec_one_enc(e: SerializableEvent, rest: Seq<u8>)
    ensures
        10 <= enc_event(e).len() <= 25,
        dec_one(enc_event(e) + rest) == Some((e, enc_event(e).len() as nat)),
{
    let b = enc_event(e) + rest;
    match e.event_type {
        SerializableEventType::KeyPress(k) | SerializableEventType::KeyRelease(k) => {
            let m = enc_key(k).len();
            assert(b.skip(1) =~= enc_key(k) + (le64(e.delay_ms) + rest));
            lemma_dec_key_enc(k, le64(e.delay_ms) + rest);
            assert(b.subrange(1 + m as int, 9 + m as int) =~= le64(e.delay_ms));
            lemma_le64_roundtrip(e.delay_ms);
        },
        SerializableEventType::ButtonPress(bt) | SerializableEventType::ButtonRelease(bt) => {
            let m = enc_button(bt).len();
            assert(b.skip(1) =~= enc_button(bt) + (le64(e.delay_ms) + rest));
            lemma_dec_button_enc(bt, le64(e.delay_ms) + rest);
            assert(b.subrange(1 + m as int, 9 + m as int) =~= le64(e.delay_ms));
            lemma_le64_roundtrip(e.delay_ms);
        },
        SerializableEventType::MouseMove { x_bits, y_bits } => {
            assert(b.subrange(1, 9) =~= le64(x_bits));
            assert(b.subrange(9, 17) =~= le64(y_bits));
            assert(b.subrange(17, 25) =~= le64(e.delay_ms));
            lemma_le64_roundtrip(x_bits);
            lemma_le64_roundtrip(y_bits);
            lemma_le64_roundtrip(e.delay_ms);
        },
        SerializableEventType::Wheel { delta_x, delta_y } => {
            assert(b.subrange(1, 9) =~= le64(delta_x as u64));
            assert(b.subrange(9, 17) =~= le64(delta_y as u64));
            assert(b.subrange(17, 25) =~= le64(e.delay_ms));
            lemma_le64_roundtrip(delta_x as u64);
            lemma_le64_roundtrip(delta_y as u64);
            lemma_le64_roundtrip(e.delay_ms);
            assert((delta_x as u64) as i64 == delta_x) by (bit_vector);
            assert((delta_y as u64) as i64 == delta_y) by (bit_vector);
        },
    }
}

/// Encoding distributes over concatenation of sequences.
proof fn lemma_enc_seq_concat(a: Seq<SerializableEvent>, b: Seq<SerializableEvent>)
    ensures
        enc_seq(a + b) == enc_seq(a) + enc_seq(b),
    decreases a.len(),
{
    if a.len() == 0 {
        assert(a + b =~= b);
        assert(enc_seq(a) + enc_seq(b) =~= enc_seq(b));
    } else {
        assert((a + b).skip(1) =~= a.skip(1) + b);
        lemma_enc_seq_concat(a.skip(1), b);
        assert(enc_event(a[0]) + (enc_seq(a.skip(1)) + enc_seq(b)) =~= (enc_event(a[0]) + enc_seq(
            a.skip(1),
        )) + enc_seq(b));
        assert((a + b)[0] == a[0]);
    }
}

/// The round-trip law: decoding the encoding of any event sequence — the
/// empty sequence included — yields exactly that sequence.
pub proof fn lemma_round_trip(s: Seq<SerializableEvent>)
    ensures
        dec_seq(enc_seq(s)) == Some(s),
    decreases s.len(),
{
    if s.len() == 0 {
    } else {
        let b = enc_seq(s);
        let head = enc_event(s[0]);
        let tail = enc_seq(s.skip(1));
        lemma_dec_one_enc(s[0], tail);
        let n = head.len();
        assert(b.skip(n as int) =~= tail);
        lemma_round_trip(s.skip(1));
        assert(seq![s[0]] + s.skip(1) =~= s);
    }
}

fn push_le64(out: &mut Vec<u8>, v: u64)
    ensures
        final(out)@ == old(out)@ + le64(v),
{
    proof {
        assert(v & 0xff < 256 && (v >> 8) & 0xff < 256 && (v >> 16) & 0xff < 256 && (v >> 24)
            & 0xff < 256 && (v >> 32) & 0xff < 256 && (v >> 40) & 0xff < 256 && (v >> 48) & 0xff
            < 256 && (v >> 56) & 0xff < 256) by (bit_vector);
    }
    out.push((v & 0xff) as u8);
    out.push(((v >> 8) & 0xff) as u8);
    out.push(((v >> 16) & 0xff) as u8);
    out.push(((v >> 24) & 0xff) as u8);
    out.push(((v >> 32) & 0xff) as u8);
    out.push(((v >> 40) & 0xff) as u8);
    out.push(((v >> 48) & 0xff) as u8);
    out.push(((v >> 56) & 0xff) as u8);
    proof {
        assert(out@ =~= old(out)@ + le64(v));
    }
}

fn push_le32(out: &mut Vec<u8>, v: u32)
    ensures
        final(out)@ == old(out)@ + le32(v),
{
    proof {
        assert(v & 0xff < 256 && (v >> 8) & 0xff < 256 && (v >> 16) & 0xff < 256 && (v >> 24)
            & 0xff < 256) by (bit_vector);
    }
    out.push((v & 0xff) as u8);
    out.push(((v >> 8) & 0xff) as u8);
    out.push(((v >> 16) & 0xff) as u8);
    out.push(((v >> 24) & 0xff) as u8);
    proof {
        assert(out@ =~= old(out)@ + le32(v));
    }
}

fn push_key(out: &mut Vec<u8>, k: Key)
    ensures
        final(out)@ == old(out)@ + enc_key(k),
{
    match k {
        Key::MetaLeft => out.push(0u8),
        Key::MetaRight => out.push(1u8),
        Key::Alt => out.push(2u8),
        Key::AltGr => out.push(3u8),
        Key::ControlLeft => out.push(4u8),
        Key::ControlRight => out.push(5u8),
        Key::ShiftLeft => out.push(6u8),
        Key::ShiftRight => out.push(7u8),
        Key::Other(c) => {
            out.push(8u8);
            push_le32(out, c);
        },
    }
    proof {
        assert(out@ =~= old(out)@ + enc_key(k));
    }
}

fn push_button(out: &mut Vec<u8>, bt: Button)
    ensures
        final(out)@ == old(out)@ + enc_button(bt),
{
    match bt {
        Button::Left => out.push(0u8),
        Button::Right => out.push(1u8),
        Button::Middle => out.push(2u8),
        Button::Other(c) => {
            out.push(3u8);
            out.push(c);
        },
    }
    proof {
        assert(out@ =~= old(out)@ + enc_button(bt));
    }
}

fn push_event(out: &mut Vec<u8>, e: &SerializableEvent)
    ensures
        final(out)@ == old(out)@ + enc_event(*e),
{
    match e.event_type {
        SerializableEventType::KeyPress(k) => {
            out.push(0u8);
            push_key(out, k);
            push_le64(out, e.delay_ms);
        },
        SerializableEventType::KeyRelease(k) => {
            out.push(1u8);
            push_key(out, k);
            push_le64(out, e.delay_ms);
        },
        SerializableEventType::ButtonPress(bt) => {
            out.push(2u8);
            push_button(out, bt);
            push_le64(out, e.delay_ms);
        },
        SerializableEventType::ButtonRelease(bt) => {
            out.push(3u8);
            push_button(out, bt);
            push_le64(out, e.delay_ms);
        },
        SerializableEventType::MouseMove { x_bits, y_bits } => {
            out.push(4u8);
            push_le64(out, x_bits);
            push_le64(out, y_bits);
            push_le64(out, e.delay_ms);
        },
        SerializableEventType::Wheel { delta_x, delta_y } => {
            out.push(5u8);
            push_le64(out, delta_x as u64);
            push_le64(out, delta_y as u64);
            push_le64(out, e.delay_ms);
        },
    }
    proof {
        assert(out@ =~= old(out)@ + enc_event(*e));
    }
}

/// Serializes a recording: the deterministic, order-preserving byte form
/// under which sequences are persisted.
pub fn encode(events: &Vec<SerializableEvent>) -> (r: Vec<u8>)
    ensures
        r@ == enc_seq(events@),
{
    let mut out: Vec<u8> = Vec::new();
    let mut i: usize = 0;
    while i < events.len()
        invariant
            i <= events@.len(),
            out@ == enc_seq(events@.subrange(0, i as int)),
        decreases events@.len() - i,
    {
        push_event(&mut out, &events[i]);
        proof {
            let pre = events@.subrange(0, i as int);
            let one = seq![events@[i as int]];
            lemma_enc_seq_concat(pre, one);
            assert(pre + one =~= events@.subrange(0, i as int + 1));
            assert(one.skip(1) =~= Seq::<SerializableEvent>::empty());
            assert(enc_seq(Seq::<SerializableEvent>::empty()) == Seq::<u8>::empty());
            assert(enc_seq(one) == enc_event(one[0]) + enc_seq(one.skip(1)));
            assert(enc_seq(one) =~= enc_event(events@[i as int]));
        }
        i = i + 1;
    }
    proof {
        assert(events@.subrange(0, events@.len() as int) =~= events@);
    }
    out
}

fn read_u64_le(bytes: &Vec<u8>, i: usize) -> (v: u64)
    requires
        i + 8 <= bytes@.len(),
    ensures
        v == u64_from_le(bytes@.subrange(i as int, i as int + 8)),
{
    let n = bytes.len();
    let v = (bytes[i] as u64) | ((bytes[i + 1] as u64) << 8) | ((bytes[i + 2] as u64) << 16) | ((
    bytes[i + 3] as u64) << 24) | ((bytes[i + 4] as u64) << 32) | ((bytes[i + 5] as u64) << 40) | ((
    bytes[i + 6] as u64) << 48) | ((bytes[i + 7] as u64) << 56);
    proof {
        let s = bytes@.subrange(i as int, i as int + 8);
        assert(s[0] == bytes@[i as int] && s[1] == bytes@[i as int + 1] && s[2] == bytes@[i as int
            + 2] && s[3] == bytes@[i as int + 3] && s[4] == bytes@[i as int + 4] && s[5]
            == bytes@[i as int + 5] && s[6] == bytes@[i as int + 6] && s[7] == bytes@[i as int
            + 7]);
    }
    v
}

fn read_u32_le(bytes: &Vec<u8>, i: usize) -> (v: u32)
    requires
        i + 4 <= bytes@.len(),
    ensures
        v == u32_from_le(bytes@.subrange(i as int, i as int + 4)),
{
    let n = bytes.len();
    let v = (bytes[i] as u32) | ((bytes[i + 1] as u32) << 8) | ((bytes[i + 2] as u32) << 16) | ((
    bytes[i + 3] as u32) << 24);
    proof {
        let s = bytes@.subrange(i as int, i as int + 4);
        assert(s[0] == bytes@[i as int] && s[1] == bytes@[i as int + 1] && s[2] == bytes@[i as int
            + 2] && s[3] == bytes@[i as int + 3]);
    }
    v
}

fn decode_key(bytes: &Vec<u8>, j: usize) -> (r: Option<(Key, usize)>)
    requires
        j <= bytes@.len(),
    ensures
        match r {
            Some(p) => dec_key(bytes@.skip(j as int)) == Some((p.0, p.1 as nat)) && 1 <= p.1 <= 5,
            None => dec_key(bytes@.skip(j as int)) is None,
        },
{
    let n = bytes.len();
    proof {
        assert(bytes@.skip(j as int).len() == n - j);
    }
    if n - j < 1 {
        return None;
    }
    let kt = bytes[j];
    proof {
        assert(bytes@.skip(j as int)[0] == bytes@[j as int]);
    }
    if kt <= 7 {
        let k = if kt == 0 {
            Key::MetaLeft
        } else if kt == 1 {
            Key::MetaRight
        } else if kt == 2 {
            Key::Alt
        } else if kt == 3 {
            Key::AltGr
        } else if kt == 4 {
            Key::ControlLeft
        } else if kt == 5 {
            Key::ControlRight
        } else if kt == 6 {
            Key::ShiftLeft
        } else {
            Key::ShiftRight
        };
        Some((k, 1))
    } else if kt == 8 {
        if n - j >= 5 {
            let code = read_u32_le(bytes, j + 1);
            proof {
                assert(bytes@.skip(j as int).subrange(1, 5) =~= bytes@.subrange(
                    j as int + 1,
                    j as int + 5,
                ));
            }
            Some((Key::Other(code), 5))
        } else {
            None
        }
    } else {
        None
    }
}

fn decode_button(bytes: &Vec<u8>, j: usize) -> (r: Option<(Button, usize)>)
    requires
        j <= bytes@.len(),
    ensures
        match r {
            Some(p) => dec_button(bytes@.skip(j as int)) == Some((p.0, p.1 as nat)) && 1 <= p.1
                <= 2,
            None => dec_button(bytes@.skip(j as int)) is None,
        },
{
    let n = bytes.len();
    proof {
        assert(bytes@.skip(j as int).len() == n - j);
    }
    if n - j < 1 {
        return None;
    }
    let btag = bytes[j];
    proof {
        assert(bytes@.skip(j as int)[0] == bytes@[j as int]);
    }
    if btag == 0 {
        Some((Button::Left, 1))
    } else if btag == 1 {
        Some((Button::Right, 1))
    } else if btag == 2 {
        Some((Button::Middle, 1))
    } else if btag == 3 {
        if n - j >= 2 {
            proof {
                assert(bytes@.skip(j as int)[1] == bytes@[j as int + 1]);
            }
            Some((Button::Other(bytes[j + 1]), 2))
        } else {
            None
        }
    } else {
        None
    }
}

fn decode_one(bytes: &Vec<u8>, i: usize) -> (r: Result<(SerializableEvent, usize), MacroError>)
    requires
        i < bytes@.len(),
    ensures
        match r {
            Ok(p) => dec_one(bytes@.skip(i as int)) == Some((p.0, p.1 as nat)) && 1 <= p.1
                <= bytes@.len() - i,
            Err(e) => e == MacroError::MalformedRecording && dec_one(bytes@.skip(i as int)) is None,
        },
{
    let n = bytes.len();
    let ghost suffix = bytes@.skip(i as int);
    proof {
        assert(suffix.len() == n - i);
        assert(suffix[0] == bytes@[i as int]);
        assert(suffix.skip(1) =~= bytes@.skip(i as int + 1));
    }
    let tag = bytes[i];
    if tag == 0 || tag == 1 {
        match decode_key(bytes, i + 1) {
            Some((k, m)) => {
                if n - i >= 9 + m {
                    let delay = read_u64_le(bytes, i + 1 + m);
                    proof {
                        assert(suffix.subrange(1 + m as int, 9 + m as int) =~= bytes@.subrange(
                            i as int + 1 + m as int,
                            i as int + 9 + m as int,
                        ));
                    }
                    let et = if tag == 0 {
                        SerializableEventType::KeyPress(k)
                    } else {
                        SerializableEventType::KeyRelease(k)
                    };
                    Ok((SerializableEvent { event_type: et, delay_ms: delay }, 9 + m))
                } else {
                    Err(MacroError::MalformedRecording)
                }
            },
            None => Err(MacroError::MalformedRecording),
        }
    } else if tag == 2 || tag == 3 {
        match decode_button(bytes, i + 1) {
            Some((bt, m)) => {
                if n - i >= 9 + m {
                    let delay = read_u64_le(bytes, i + 1 + m);
                    proof {
                        assert(suffix.subrange(1 + m as int, 9 + m as int) =~= bytes@.subrange(
                            i as int + 1 + m as int,
                            i as int + 9 + m as int,
                        ));
                    }
                    let et = if tag == 2 {
                        SerializableEventType::ButtonPress(bt)
                    } else {
                        SerializableEventType::ButtonRelease(bt)
                    };
                    Ok((SerializableEvent { event_type: et, delay_ms: delay }, 9 + m))
                } else {
                    Err(MacroError::MalformedRecording)
                }
            },
            None => Err(MacroError::MalformedRecording),
        }
    } else if tag == 4 || tag == 5 {
        if n - i >= 25 {
            let a = read_u64_le(bytes, i + 1);
            let b = read_u64_le(bytes, i + 9);
            let delay = read_u64_le(bytes, i + 17);
            proof {
                assert(suffix.subrange(1, 9) =~= bytes@.subrange(i as int + 1, i as int + 9));
                assert(suffix.subrange(9, 17) =~= bytes@.subrange(i as int + 9, i as int + 17));
                assert(suffix.subrange(17, 25) =~= bytes@.subrange(i as int + 17, i as int + 25));
            }
            let et = if tag == 4 {
                SerializableEventType::MouseMove { x_bits: a, y_bits: b }
            } else {
                SerializableEventType::Wheel { delta_x: a as i64, delta_y: b as i64 }
            };
            Ok((SerializableEvent { event_type: et, delay_ms: delay }, 25))
        } else {
            Err(MacroError::MalformedRecording)
        }
    } else {
        Err(MacroError::MalformedRecording)
    }
}

/// Deserializes a recording. Succeeds exactly on the byte streams that
/// [`dec_seq`] accepts; any other stream — a bad tag, a bad key or button
/// tag, or a truncated record — is rejected as
/// [`MacroError::MalformedRecording`] without panicking.
pub fn decode(bytes: &Vec<u8>) -> (r: Result<Vec<SerializableEvent>, MacroError>)
    ensures
        match r {
            Ok(evs) => dec_seq(bytes@) == Some(evs@),
            Err(e) => e == MacroError::MalformedRecording && dec_seq(bytes@) is None,
        },
{
    let n = bytes.len();
    let mut out: Vec<SerializableEvent> = Vec::new();
    let mut i: usize = 0;
    proof {
        assert(bytes@.skip(0int) =~= bytes@);
        if dec_seq(bytes@) is Some {
            assert(out@ + dec_seq(bytes@)->Some_0 =~= dec_seq(bytes@)->Some_0);
        }
    }
    while i < n
        invariant
            n == bytes@.len(),
            i <= n,
            dec_seq(bytes@) == match dec_seq(bytes@.skip(i as int)) {
                Some(rest) => Some(out@ + rest),
                None => None::<Seq<SerializableEvent>>,
            },
        decreases n - i,
    {
        let ghost suffix = bytes@.skip(i as int);
        match decode_one(bytes, i) {
            Ok((ev, consumed)) => {
                proof {
                    assert(suffix.skip(consumed as int) =~= bytes@.skip(
                        i as int + consumed as int,
                    ));
                }
                let ghost out_pre = out@;
                out.push(ev);
                proof {
                    if dec_seq(bytes@.skip(i as int + consumed as int)) is Some {
                        let rest = dec_seq(bytes@.skip(i as int + consumed as int))->Some_0;
                        assert(out_pre + (seq![ev] + rest) =~= out@ + rest);
                    }
                }
                i = i + consumed;
            },
            Err(e) => {
                return Err(e);
            },
        }
    }
    proof {
        assert(bytes@.skip(n as int) =~= Seq::<u8>::empty());
        assert(out@ + Seq::<SerializableEvent>::empty() =~= out@);
    }
    Ok(out)
}

} // verus!
