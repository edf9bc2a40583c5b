//! Frame assembly and payload decoding.
//!
//! A raw read delivers a fixed-size buffer: tag byte, id byte, then payload
//! bytes that logically end at the first terminator byte (0x0D) or, when no
//! terminator appears, at the buffer's capacity less the three framing bytes.
//! Text payloads become strings with zero bytes stripped; integer payloads are
//! combined little-endian into a 64-bit signed accumulator, reproducing the
//! device's wire convention byte for byte, including its unconventional
//! handling of the negative kind and of the ninth payload byte.

use vstd::arithmetic::div_mod::{
    lemma_add_mod_noop, lemma_mod_add_multiples_vanish, lemma_mod_bound, lemma_mul_mod_noop_left,
    lemma_small_mod,
};
use vstd::arithmetic::power2::{lemma2_to64, lemma2_to64_rest, pow2};
use vstd::prelude::*;
use vstd::wrapping::{i64_specs, u64_specs};

use crate::packet::{kind_of_tag, Packet, PacketData, PacketKind};

verus! {

/// The terminator byte that marks the logical end of a payload.
pub open spec fn terminator() -> u8 {
    0x0D
}

/// The payload taken from `body`: bytes up to the first terminator, capped at
/// `cap` bytes.
pub open spec fn payload_prefix(body: Seq<u8>, cap: int) -> Seq<u8>
    decreases body.len(),
{
    if cap <= 0 || body.len() == 0 || body[0] == terminator() {
        Seq::empty()
    } else {
        seq![body[0]] + payload_prefix(body.drop_first(), cap - 1)
    }
}

/// The payload of a whole read buffer: bytes from offset 2 on, terminated or
/// capped at three less than the buffer length.
pub open spec fn frame_payload(buffer: Seq<u8>) -> Seq<u8> {
    payload_prefix(buffer.skip(2), buffer.len() - 3)
}

/// `payload_prefix` is exactly the first `j` bytes whenever the first `j`
/// bytes are free of terminators and position `j` is where the scan stops:
/// the cap, the end of the body, or a terminator byte.
pub proof fn lemma_payload_prefix_is_take(body: Seq<u8>, cap: int, j: int)
    requires
        0 <= j <= body.len(),
        j <= cap,
        forall|k: int| 0 <= k < j ==> body[k] != terminator(),
        j == cap || j == body.len() || body[j] == terminator(),
    ensures
        payload_prefix(body, cap) == body.take(j),
    decreases j,
{
    if j == 0 {
        assert(payload_prefix(body, cap) == Seq::<u8>::empty());
        assert(body.take(0) =~= Seq::<u8>::empty());
    } else {
        assert(body[0] != terminator());
        lemma_payload_prefix_is_take(body.drop_first(), cap - 1, j - 1);
        assert(payload_prefix(body, cap) == seq![body[0]] + body.drop_first().take(j - 1));
        assert(body.take(j) =~= seq![body[0]] + body.drop_first().take(j - 1));
    }
}

/// Slices one candidate frame out of a freshly read buffer: classifies the
/// tag byte, takes the id byte, and copies the payload up to the terminator
/// or the capacity. A buffer with an unknown tag yields no frame at all,
/// since it is likely a corrupted or unaligned read.
pub fn assemble_frame(buffer: &Vec<u8>) -> (frame: Option<Packet>)
    requires
        buffer@.len() >= 3,
    ensures
        frame is None <==> kind_of_tag(buffer@[0]) is Unknown,
        frame matches Some(p) ==> {
            &&& p.packet_type == kind_of_tag(buffer@[0])
            &&& p.packet_type !is Unknown
            &&& p.packet_id == buffer@[1]
            &&& p.raw_data@ == frame_payload(buffer@)
            &&& p.constructed_data is Empty
        },
{
    let kind = PacketKind::from_byte(buffer[0]);
    if matches!(kind, PacketKind::Unknown) {
        return None;
    }
    let packet_id: u8 = buffer[1];
    let cap: usize = buffer.len() - 3;
    let mut payload: Vec<u8> = Vec::new();
    let mut i: usize = 2;
    let ghost body = buffer@.skip(2);
    while i < buffer.len()
        invariant
            2 <= i <= buffer@.len(),
            3 <= buffer@.len(),
            cap == buffer@.len() - 3,
            body == buffer@.skip(2),
            payload@ =~= body.take(i - 2),
            payload@.len() == i - 2,
            payload@.len() <= cap,
            forall|k: int| 0 <= k < i - 2 ==> body[k] != terminator(),
        ensures
            payload@ =~= body.take(payload@.len() as int),
            forall|k: int| 0 <= k < payload@.len() ==> body[k] != terminator(),
            payload@.len() as int == cap || payload@.len() as int == body.len()
                || body[payload@.len() as int] == terminator(),
            payload@.len() <= cap,
        decreases buffer@.len() - i,
    {
        let b: u8 = buffer[i];
        if b == 0x0D || payload.len() == cap {
            break;
        }
        payload.push(b);
        i += 1;
    }
    proof {
        lemma_payload_prefix_is_take(body, cap as int, payload@.len() as int);
    }
    Some(Packet::new(kind, packet_id, payload))
}

/// The characters of a text payload: every byte in order as its character
/// code, with zero bytes stripped as padding.
pub open spec fn text_chars(payload: Seq<u8>) -> Seq<char>
    decreases payload.len(),
{
    if payload.len() == 0 {
        Seq::empty()
    } else if payload.last() == 0 {
        text_chars(payload.drop_last())
    } else {
        text_chars(payload.drop_last()).push(payload.last() as char)
    }
}

/// Relies on `String::push`: appends exactly the given character.
#[verifier::external_body]
fn push_char(s: &mut String, c: char)
    ensures
        final(s)@ == old(s)@.push(c),
{
    s.push(c);
}

/// Decodes a text frame: the payload's non-zero bytes become the characters
/// of the packet's string, paired with the frame's id and the decode-time
/// timestamp.
pub fn read_string_from_serial(packet: &mut Packet, timestamp: u64)
    ensures
        final(packet).packet_type == old(packet).packet_type,
        final(packet).packet_id == old(packet).packet_id,
        final(packet).raw_data@ == old(packet).raw_data@,
        final(packet).constructed_data matches PacketData::Text(s, id, ts)
            && s@ == text_chars(old(packet).raw_data@)
            && id == old(packet).packet_id
            && ts == timestamp,
{
    let mut text = String::new();
    let mut i: usize = 0;
    while i < packet.raw_data.len()
        invariant
            *packet == *old(packet),
            i <= packet.raw_data@.len(),
            text@ == text_chars(packet.raw_data@.take(i as int)),
        decreases packet.raw_data@.len() - i,
    {
        let b: u8 = packet.raw_data[i];
        proof {
            assert(packet.raw_data@.take(i + 1).drop_last() =~= packet.raw_data@.take(i as int));
            assert(packet.raw_data@.take(i + 1).last() == b);
        }
        if b != 0 {
            push_char(&mut text, b as char);
        }
        i += 1;
    }
    proof {
        assert(packet.raw_data@.take(packet.raw_data@.len() as int) =~= packet.raw_data@);
    }
    packet.constructed_data = PacketData::Text(text, packet.packet_id, timestamp);
}

/// The multiplier applied to payload byte `i` of an integer payload: bytes
/// 0 through 7 are shifted left by `8 * i` bits; byte 8 is shifted by 63 bits
/// (the device's convention at the edge of the 64-bit accumulator); later
/// bytes are dropped.
pub open spec fn int_mult(i: int) -> int {
    if 0 <= i < 8 {
        pow2((8 * i) as nat) as int
    } else if i == 8 {
        pow2(63) as int
    } else {
        0
    }
}

/// What payload byte `i` adds to the integer accumulator. A positive payload
/// uses each byte as-is. A negative payload skips zero bytes entirely and
/// pulls every other byte down by 0xFF — the first byte by one more — toward
/// a two's-complement representation.
pub open spec fn int_term(payload: Seq<u8>, i: int, negative: bool) -> int {
    if negative && payload[i] == 0 {
        0
    } else {
        let v: int = if negative {
            payload[i] - 0xFF - (if i == 0 { 1int } else { 0int })
        } else {
            payload[i] as int
        };
        v * int_mult(i)
    }
}

/// The mathematical value accumulated from the first `n` payload bytes.
pub open spec fn int_accum(payload: Seq<u8>, negative: bool, n: int) -> int
    decreases n,
{
    if n <= 0 {
        0
    } else {
        int_accum(payload, negative, n - 1) + int_term(payload, n - 1, negative)
    }
}

/// The decoded integer of a whole payload: the accumulator wrapped into a
/// 64-bit signed value, exactly as the running sum of shifted bytes wraps.
pub open spec fn decoded_integer(payload: Seq<u8>, negative: bool) -> i64 {
    i64_specs::signed_crop(int_accum(payload, negative, payload.len() as int))
}

/// Bytes at index 9 and beyond never contribute: the accumulator over any
/// prefix of at least 9 bytes equals the accumulator over the first 9.
proof fn lemma_int_accum_stops(payload: Seq<u8>, negative: bool, n: int)
    requires
        9 <= n <= payload.len(),
    ensures
        int_accum(payload, negative, n) == int_accum(payload, negative, 9),
    decreases n,
{
    if n > 9 {
        lemma_int_accum_stops(payload, negative, n - 1);
        assert(int_mult(n - 1) == 0);
        assert(int_term(payload, n - 1, negative) == 0);
    }
}

/// The concrete 64-bit multiplier for payload byte `i`.
fn int_multiplier(i: usize) -> (m: u64)
    requires
        i <= 8,
    ensures
        m as int == int_mult(i as int),
{
    proof {
        lemma2_to64();
        lemma2_to64_rest();
    }
    match i {
        0 => 0x1,
        1 => 0x100,
        2 => 0x10000,
        3 => 0x1000000,
        4 => 0x100000000,
        5 => 0x10000000000,
        6 => 0x1000000000000,
        7 => 0x100000000000000,
        _ => 0x8000000000000000,
    }
}

/// One accumulator step: adding the wrapped product of the byte's 64-bit
/// representative and its multiplier advances the accumulator by one byte,
/// modulo 2^64.
proof fn lemma_accum_step(payload: Seq<u8>, negative: bool, i: int, acc: u64, repr: u64, mult: u64)
    requires
        0 <= i < payload.len(),
        i <= 8,
        !(negative && payload[i] == 0),
        acc as int == int_accum(payload, negative, i) % 0x10000000000000000,
        mult as int == int_mult(i),
        ({
            let v: int = if negative {
                payload[i] - 0xFF - (if i == 0 { 1int } else { 0int })
            } else {
                payload[i] as int
            };
            repr as int % 0x10000000000000000 == v % 0x10000000000000000
        }),
    ensures
        u64_specs::wrapping_add(acc, u64_specs::wrapping_mul(repr, mult)) as int
            == int_accum(payload, negative, i + 1) % 0x10000000000000000,
{
    let m: int = 0x10000000000000000;
    let v: int = if negative {
        payload[i] - 0xFF - (if i == 0 { 1int } else { 0int })
    } else {
        payload[i] as int
    };
    let a: int = int_accum(payload, negative, i);
    let t: int = int_term(payload, i, negative);
    assert(t == v * mult);
    assert(int_accum(payload, negative, i + 1) == a + t);
    let term: u64 = u64_specs::wrapping_mul(repr, mult);
    lemma_mod_bound(repr as int * mult as int, m);
    assert(term as int == (repr as int * mult as int) % m);
    lemma_mul_mod_noop_left(repr as int, mult as int, m);
    lemma_mul_mod_noop_left(v, mult as int, m);
    lemma_small_mod(repr as nat, m as nat);
    assert((repr as int % m) * (mult as int) % m == (v % m) * (mult as int) % m);
    assert(term as int == (v * mult) % m);
    lemma_add_mod_noop(a, t, m);
    let s: int = acc as int + term as int;
    assert(s % m == (a + t) % m);
    if s > u64::MAX as int {
        assert(u64_specs::wrapping_add(acc, term) as int == s - m);
        lemma_mod_add_multiples_vanish(s - m, m);
        lemma_small_mod((s - m) as nat, m as nat);
    } else {
        assert(u64_specs::wrapping_add(acc, term) as int == s);
        lemma_small_mod(s as nat, m as nat);
    }
}

/// Decodes an integer frame: payload bytes are combined little-endian into a
/// 64-bit signed accumulator; for the negative kind each byte is adjusted
/// toward two's complement first; bytes past the accumulator width are
/// ignored, leaving the partial value.
pub fn read_integer_from_serial(is_negative: bool, packet: &mut Packet, timestamp: u64)
    ensures
        final(packet).packet_type == old(packet).packet_type,
        final(packet).packet_id == old(packet).packet_id,
        final(packet).raw_data@ == old(packet).raw_data@,
        final(packet).constructed_data == PacketData::Integer(
            decoded_integer(old(packet).raw_data@, is_negative),
            old(packet).packet_id,
            timestamp,
        ),
{
    let ghost payload = packet.raw_data@;
    let len: usize = packet.raw_data.len();
    let bound: usize = if len < 9 {
        len
    } else {
        9
    };
    let mut acc: u64 = 0;
    let mut i: usize = 0;
    proof {
        lemma_small_mod(0nat, 0x10000000000000000nat);
    }
    while i < bound
        invariant
            *packet == *old(packet),
            payload == packet.raw_data@,
            bound <= payload.len(),
            bound <= 9,
            bound == payload.len() || bound == 9,
            i <= bound,
            acc as int == int_accum(payload, is_negative, i as int) % 0x10000000000000000,
        decreases bound - i,
    {
        let b: u8 = packet.raw_data[i];
        if is_negative && b == 0 {
            proof {
                assert(int_term(payload, i as int, is_negative) == 0);
            }
        } else {
            let mult: u64 = int_multiplier(i);
            let repr: u64 = if is_negative {
                let adj: u64 = if i == 0 {
                    1
                } else {
                    0
                };
                let mag: u64 = 255 - (b as u64) + adj;
                proof {
                    if mag > 0 {
                        lemma_mod_add_multiples_vanish(0 - mag as int, 0x10000000000000000);
                    }
                }
                0u64.wrapping_sub(mag)
            } else {
                b as u64
            };
            proof {
                lemma_accum_step(payload, is_negative, i as int, acc, repr, mult);
            }
            let term: u64 = repr.wrapping_mul(mult);
            acc = acc.wrapping_add(term);
        }
        i += 1;
    }
    proof {
        if payload.len() > 9 {
            lemma_int_accum_stops(payload, is_negative, payload.len() as int);
        }
    }
    let value: i64 = if acc <= 0x7FFFFFFFFFFFFFFFu64 {
        acc as i64
    } else {
        i64::MIN + ((acc - 0x8000000000000000u64) as i64)
    };
    proof {
        assert(value == decoded_integer(payload, is_negative));
    }
    packet.constructed_data = PacketData::Integer(value, packet.packet_id, timestamp);
}

/// Everything one read cycle promises about its decoded output: an unknown
/// tag yields nothing, and each known tag yields exactly the decode of the
/// frame's payload, paired with the frame's id and the given timestamp.
pub open spec fn decode_yields(buffer: Seq<u8>, timestamp: u64, result: Option<PacketData>) -> bool {
    &&& (result is None <==> kind_of_tag(buffer[0]) is Unknown)
    &&& (kind_of_tag(buffer[0]) is Text ==> (result matches Some(PacketData::Text(s, id, ts))
        && s@ == text_chars(frame_payload(buffer)) && id == buffer[1] && ts == timestamp))
    &&& (kind_of_tag(buffer[0]) is PositiveInteger ==> result == Some(
        PacketData::Integer(decoded_integer(frame_payload(buffer), false), buffer[1], timestamp),
    ))
    &&& (kind_of_tag(buffer[0]) is NegativeInteger ==> result == Some(
        PacketData::Integer(decoded_integer(frame_payload(buffer), true), buffer[1], timestamp),
    ))
    &&& (kind_of_tag(buffer[0]) is Binary ==> result == Some(PacketData::Empty))
}

/// For every well-framed buffer `[tag, id, payload.., terminator, rest..]`
/// whose tag names a decodable kind, a read that satisfies `decode_yields`
/// produced a packet of that tag's kind, carrying that id, decoded from
/// exactly the payload bytes before the terminator.
pub proof fn lemma_well_framed_decode(
    tag: u8,
    id: u8,
    payload: Seq<u8>,
    rest: Seq<u8>,
    timestamp: u64,
    result: Option<PacketData>,
)
    requires
        1 <= tag <= 3,
        forall|k: int| 0 <= k < payload.len() ==> payload[k] != terminator(),
        decode_yields(seq![tag, id] + payload + seq![terminator()] + rest, timestamp, result),
    ensures
        ({
            let buffer = seq![tag, id] + payload + seq![terminator()] + rest;
            &&& frame_payload(buffer) == payload
            &&& result is Some
            &&& (tag == 1 ==> (result matches Some(PacketData::Text(s, pid, ts)) && s@
                == text_chars(payload) && pid == id && ts == timestamp))
            &&& (tag == 2 ==> result == Some(
                PacketData::Integer(decoded_integer(payload, false), id, timestamp),
            ))
            &&& (tag == 3 ==> result == Some(
                PacketData::Integer(decoded_integer(payload, true), id, timestamp),
            ))
        }),
{
    let buffer = seq![tag, id] + payload + seq![terminator()] + rest;
    assert(buffer[0] == tag);
    assert(buffer[1] == id);
    let body = buffer.skip(2);
    assert(body =~= payload + seq![terminator()] + rest);
    assert(forall|k: int| 0 <= k < payload.len() ==> body[k] == payload[k]);
    assert(body[payload.len() as int] == terminator());
    lemma_payload_prefix_is_take(body, buffer.len() - 3, payload.len() as int);
    assert(body.take(payload.len() as int) =~= payload);
}

} // verus!
