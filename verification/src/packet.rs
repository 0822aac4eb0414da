//! Fixed-size register transaction packets and their byte codec.
//!
//! A `Packet<N>` is one bus transaction of `N` bytes: byte 0 carries the
//! register address (or the echoed address/status on a response), bytes
//! `1..N` carry the payload, most significant byte first.  Sub-word signed
//! values (the sensor's 24-bit measurements) are sign-extended on decode.

use vstd::prelude::*;

verus! {

/// The value of a big-endian 16-bit payload `[hi, lo]`.
pub open spec fn u16_value(hi: u8, lo: u8) -> int {
    hi * 0x100 + lo
}

/// The two payload bytes that encode a 16-bit value, most significant first.
pub open spec fn u16_payload(value: u16) -> Seq<u8> {
    seq![(value / 0x100) as u8, (value % 0x100) as u8]
}

/// The value of a big-endian 24-bit unsigned payload `[b0, b1, b2]`.
pub open spec fn u24_value(b0: u8, b1: u8, b2: u8) -> int {
    b0 * 0x10000 + b1 * 0x100 + b2
}

/// The value of a big-endian 24-bit two's-complement payload `[b0, b1, b2]`:
/// if bit 7 of the most significant byte is set, the value is negative.
pub open spec fn i24_value(b0: u8, b1: u8, b2: u8) -> int {
    if b0 >= 0x80 {
        u24_value(b0, b1, b2) - 0x1000000
    } else {
        u24_value(b0, b1, b2)
    }
}

/// One bus transaction: an address byte followed by `N - 1` payload bytes.
#[derive(Clone, Copy)]
pub struct Packet<const N: usize>(pub [u8; N]);

impl<const N: usize> View for Packet<N> {
    type V = Seq<u8>;

    open spec fn view(&self) -> Seq<u8> {
        self.0@
    }
}

impl<const N: usize> Default for Packet<N> {
    /// An all-zero packet.
    fn default() -> (p: Self)
        ensures
            p@ == Seq::new(N as nat, |i: int| 0u8),
    {
        let p = Packet([0u8; N]);
        proof {
            assert(p@ =~= Seq::new(N as nat, |i: int| 0u8));
        }
        p
    }
}

impl<const N: usize> Packet<N> {
    /// Set the address/command byte.
    pub fn address(&mut self, address: u8)
        requires
            N >= 1,
        ensures
            final(self)@ == old(self)@.update(0, address),
    {
        self.0[0] = address;
    }
}

impl Packet<2> {
    /// A single-byte write transaction with an empty address byte.
    pub fn from_u8(data: u8) -> (p: Self)
        ensures
            p@ == seq![0u8, data],
    {
        let p = Packet([0u8, data]);
        proof {
            assert(p@ =~= seq![0u8, data]);
        }
        p
    }

    /// The payload byte of a single-byte response.
    pub fn to_u8(&self) -> (r: u8)
        ensures
            r == self@[1],
    {
        self.0[1]
    }
}

impl Packet<3> {
    /// A 16-bit write transaction, payload most significant byte first.
    pub fn from_u16(data: u16) -> (p: Self)
        ensures
            p@ == seq![0u8] + u16_payload(data),
    {
        let p = Packet([0u8, (data / 0x100) as u8, (data % 0x100) as u8]);
        proof {
            assert(p@ =~= seq![0u8] + u16_payload(data));
        }
        p
    }

    /// The big-endian 16-bit payload of a response.
    pub fn to_u16(&self) -> (r: u16)
        ensures
            r == u16_value(self@[1], self@[2]),
    {
        (self.0[1] as u16) * 0x100 + (self.0[2] as u16)
    }
}

impl Packet<4> {
    /// A 24-bit write transaction holding the low 24 bits of `data`,
    /// most significant byte first.
    pub fn from_u32(data: u32) -> (p: Self)
        ensures
            p@ == seq![
                0u8,
                (data / 0x10000 % 0x100) as u8,
                (data / 0x100 % 0x100) as u8,
                (data % 0x100) as u8,
            ],
    {
        let p = Packet(
            [0u8, (data / 0x10000 % 0x100) as u8, (data / 0x100 % 0x100) as u8, (data % 0x100) as u8],
        );
        proof {
            assert(p@ =~= seq![
                0u8,
                (data / 0x10000 % 0x100) as u8,
                (data / 0x100 % 0x100) as u8,
                (data % 0x100) as u8,
            ]);
        }
        p
    }

    /// The big-endian 24-bit payload of a response, zero-extended.
    pub fn to_u32(&self) -> (r: u32)
        ensures
            r == u24_value(self@[1], self@[2], self@[3]),
    {
        (self.0[1] as u32) * 0x10000 + (self.0[2] as u32) * 0x100 + (self.0[3] as u32)
    }

    /// The big-endian 24-bit payload of a response, sign-extended.
    pub fn to_i32(&self) -> (r: i32)
        ensures
            r == i24_value(self@[1], self@[2], self@[3]),
            -0x800000 <= r < 0x800000,
    {
        decode_i24(self.0[1], self.0[2], self.0[3])
    }
}

impl Packet<7> {
    /// A write transaction for three consecutive 16-bit registers: the
    /// payload is each value's big-endian bytes in register order.
    pub fn from_u16x3(data: [u16; 3]) -> (p: Self)
        ensures
            p@ == seq![0u8] + u16_payload(data[0]) + u16_payload(data[1]) + u16_payload(data[2]),
    {
        let p = Packet(
            [
                0u8,
                (data[0] / 0x100) as u8,
                (data[0] % 0x100) as u8,
                (data[1] / 0x100) as u8,
                (data[1] % 0x100) as u8,
                (data[2] / 0x100) as u8,
                (data[2] % 0x100) as u8,
            ],
        );
        proof {
            assert(p@ =~= seq![0u8] + u16_payload(data[0]) + u16_payload(data[1])
                + u16_payload(data[2]));
        }
        p
    }
}

impl Packet<10> {
    /// The three sign-extended 24-bit payloads of a triple-register block
    /// response, in register order.
    pub fn to_i32x3(&self) -> (r: [i32; 3])
        ensures
            r[0] == i24_value(self@[1], self@[2], self@[3]),
            r[1] == i24_value(self@[4], self@[5], self@[6]),
            r[2] == i24_value(self@[7], self@[8], self@[9]),
    {
        [
            decode_i24(self.0[1], self.0[2], self.0[3]),
            decode_i24(self.0[4], self.0[5], self.0[6]),
            decode_i24(self.0[7], self.0[8], self.0[9]),
        ]
    }
}

/// Encoding then decoding a 16-bit register value reproduces it exactly:
/// the codec's two directions are inverses on the payload bytes.
pub proof fn lemma_u16_round_trip(value: u16)
    ensures
        u16_value(u16_payload(value)[0], u16_payload(value)[1]) == value,
{
}

/// Decoding then re-encoding a 16-bit payload reproduces its two bytes:
/// the other direction of the same inverse.
pub proof fn lemma_u16_payload_round_trip(hi: u8, lo: u8)
    ensures
        u16_payload(u16_value(hi, lo) as u16) == seq![hi, lo],
{
    assert(u16_payload(u16_value(hi, lo) as u16) =~= seq![hi, lo]);
}

/// Reconstruct a 24-bit two's-complement payload as an `i32`, replicating
/// bit 23 into the upper 8 bits so that negative samples stay negative.
pub fn three_bytes_to_i32(bytes: &[u8; 3]) -> (r: i32)
    ensures
        r == i24_value(bytes[0], bytes[1], bytes[2]),
{
    decode_i24(bytes[0], bytes[1], bytes[2])
}

/// The sign-extension step shared by the single- and triple-axis decoders.
fn decode_i24(b0: u8, b1: u8, b2: u8) -> (r: i32)
    ensures
        r == i24_value(b0, b1, b2),
        -0x800000 <= r < 0x800000,
{
    let raw: i32 = (b0 as i32) * 0x10000 + (b1 as i32) * 0x100 + (b2 as i32);
    if b0 >= 0x80 {
        raw - 0x1000000
    } else {
        raw
    }
}

} // verus!
