//! The telemetry wire format: two little-endian 32-bit signed integers,
//! tightly packed into eight bytes.

use vstd::prelude::*;

verus! {

/// Number of bytes in an encoded [`TelemetryMessage`].
pub const WIRE_SIZE: usize = 8;

/// One reading reported by a sensor.
#[derive(Clone, Copy, Debug, PartialEq, Eq, Structural)]
pub struct TelemetryMessage {
    /// Identifies the sensor that produced the reading.
    pub topic_id: i32,
    /// The raw sensor reading.
    pub measurement: i32,
}

/// The unsigned number whose little-endian digits are the first four bytes of `b`.
pub open spec fn le_value(b: Seq<u8>) -> int
    recommends
        b.len() >= 4,
{
    b[0] as int + 0x100 * (b[1] as int) + 0x1_0000 * (b[2] as int) + 0x100_0000 * (b[3] as int)
}

/// Two's-complement reading of a 32-bit pattern given as an unsigned number.
pub open spec fn to_signed(u: int) -> int
    recommends
        0 <= u < 0x1_0000_0000,
{
    if u < 0x8000_0000 {
        u
    } else {
        u - 0x1_0000_0000
    }
}

/// The 32-bit pattern, as an unsigned number, of a signed 32-bit value.
pub open spec fn to_unsigned(v: int) -> int
    recommends
        -0x8000_0000 <= v < 0x8000_0000,
{
    if v >= 0 {
        v
    } else {
        v + 0x1_0000_0000
    }
}

/// The four little-endian bytes of an unsigned number below 2^32.
pub open spec fn le_bytes(u: int) -> Seq<u8>
    recommends
        0 <= u < 0x1_0000_0000,
{
    seq![
        (u % 0x100) as u8,
        ((u / 0x100) % 0x100) as u8,
        ((u / 0x1_0000) % 0x100) as u8,
        ((u / 0x100_0000) % 0x100) as u8,
    ]
}

/// The signed 32-bit integer stored little-endian in the first four bytes of `b`.
pub open spec fn spec_read_i32(b: Seq<u8>) -> int
    recommends
        b.len() >= 4,
{
    to_signed(le_value(b))
}

/// The four bytes that store `v` little-endian.
pub open spec fn spec_write_i32(v: i32) -> Seq<u8> {
    le_bytes(to_unsigned(v as int))
}

/// The message that an eight-byte frame carries.
pub open spec fn spec_decode(b: Seq<u8>) -> TelemetryMessage
    recommends
        b.len() == WIRE_SIZE,
{
    TelemetryMessage {
        topic_id: spec_read_i32(b.subrange(0, 4)) as i32,
        measurement: spec_read_i32(b.subrange(4, 8)) as i32,
    }
}

/// The eight-byte frame that carries `m`.
pub open spec fn spec_encode(m: TelemetryMessage) -> Seq<u8> {
    spec_write_i32(m.topic_id) + spec_write_i32(m.measurement)
}

/// Reads a little-endian signed 32-bit integer from four bytes.
fn read_i32(b0: u8, b1: u8, b2: u8, b3: u8) -> (v: i32)
    ensures
        v as int == spec_read_i32(seq![b0, b1, b2, b3]),
{
    let u: u32 = b0 as u32 + 0x100 * (b1 as u32) + 0x1_0000 * (b2 as u32) + 0x100_0000 * (b3 as u32);
    if u < 0x8000_0000 {
        u as i32
    } else {
        (u - 0x8000_0000) as i32 + i32::MIN
    }
}

/// Decodes one received frame.
///
/// A frame is accepted exactly when it is [`WIRE_SIZE`] bytes long; the
/// buffer needs no particular alignment. Any other length yields `None`.
pub fn decode(raw: &[u8]) -> (result: Option<TelemetryMessage>)
    ensures
        result is Some <==> raw@.len() == WIRE_SIZE,
        result is Some ==> result->0 == spec_decode(raw@),
{
    if raw.len() != WIRE_SIZE {
        return None;
    }
    let topic_id: i32 = read_i32(raw[0], raw[1], raw[2], raw[3]);
    let measurement: i32 = read_i32(raw[4], raw[5], raw[6], raw[7]);
    proof {
        assert(raw@.subrange(0, 4) =~= seq![raw@[0], raw@[1], raw@[2], raw@[3]]);
        assert(raw@.subrange(4, 8) =~= seq![raw@[4], raw@[5], raw@[6], raw@[7]]);
    }
    Some(TelemetryMessage { topic_id, measurement })
}

/// Splits a signed 32-bit integer into its four little-endian bytes.
fn write_i32(v: i32) -> (b: [u8; 4])
    ensures
        b@ == spec_write_i32(v),
{
    let u: u32 = if v >= 0 {
        v as u32
    } else {
        (v - i32::MIN) as u32 + 0x8000_0000
    };
    let b0: u8 = (u % 0x100) as u8;
    let b1: u8 = ((u / 0x100) % 0x100) as u8;
    let b2: u8 = ((u / 0x1_0000) % 0x100) as u8;
    let b3: u8 = ((u / 0x100_0000) % 0x100) as u8;
    let b: [u8; 4] = [b0, b1, b2, b3];
    assert(b@ =~= spec_write_i32(v));
    b
}

/// Encodes a message into its eight-byte frame.
pub fn encode(m: TelemetryMessage) -> (frame: [u8; 8])
    ensures
        frame@ == spec_encode(m),
{
    let t: [u8; 4] = write_i32(m.topic_id);
    let v: [u8; 4] = write_i32(m.measurement);
    let frame: [u8; 8] = [t[0], t[1], t[2], t[3], v[0], v[1], v[2], v[3]];
    assert(frame@ =~= spec_encode(m));
    frame
}

/// Reading back four written bytes gives the value that was written.
pub proof fn lemma_read_write_i32(v: i32)
    ensures
        spec_write_i32(v).len() == 4,
        spec_read_i32(spec_write_i32(v)) == v,
{
}

/// Writing the value read from four bytes gives those four bytes again.
pub proof fn lemma_write_read_i32(b: Seq<u8>)
    requires
        b.len() == 4,
    ensures
        i32::MIN <= spec_read_i32(b) <= i32::MAX,
        spec_write_i32(spec_read_i32(b) as i32) == b,
{
    assert(spec_write_i32(spec_read_i32(b) as i32) =~= b);
}

/// Decoding an encoded message gives the message back.
pub proof fn lemma_decode_encode(m: TelemetryMessage)
    ensures
        spec_encode(m).len() == WIRE_SIZE,
        spec_decode(spec_encode(m)) == m,
{
    let frame = spec_encode(m);
    lemma_read_write_i32(m.topic_id);
    lemma_read_write_i32(m.measurement);
    assert(frame.subrange(0, 4) =~= spec_write_i32(m.topic_id));
    assert(frame.subrange(4, 8) =~= spec_write_i32(m.measurement));
}

/// Encoding the message decoded from an eight-byte frame reproduces the
/// frame byte for byte.
pub proof fn lemma_encode_decode(b: Seq<u8>)
    requires
        b.len() == WIRE_SIZE,
    ensures
        spec_encode(spec_decode(b)) == b,
{
    lemma_write_read_i32(b.subrange(0, 4));
    lemma_write_read_i32(b.subrange(4, 8));
    assert(spec_encode(spec_decode(b)) =~= b.subrange(0, 4) + b.subrange(4, 8));
    assert(b.subrange(0, 4) + b.subrange(4, 8) =~= b);
}

} // verus!
