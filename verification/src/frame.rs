//! The frame codec: bit-exact layout of the three fixed 14-byte frames the
//! protocol exchanges — the write command, the read command, and the
//! response — together with encode (struct to bytes) and decode (bytes to
//! struct) operations.
//!
//! Bits are numbered 0 (most significant) through 111 (least significant);
//! multi-byte fields are little-endian within their spans. Reserved ranges
//! are zero on encode and ignored on decode.

use vstd::prelude::*;

verus! {

/// Every command and response frame is exactly this many bytes.
pub const FRAME_LEN: usize = 14;

/// The 32-bit word assembled from four bytes taken in little-endian order.
pub open spec fn le_word(b0: u8, b1: u8, b2: u8, b3: u8) -> u32 {
    (b0 as u32) | (b1 as u32) << 8 | (b2 as u32) << 16 | (b3 as u32) << 24
}

/// The four bytes of a 32-bit word in little-endian order.
pub open spec fn le_bytes(w: u32) -> Seq<u8> {
    seq![
        (w & 0xff) as u8,
        ((w >> 8) & 0xff) as u8,
        ((w >> 16) & 0xff) as u8,
        ((w >> 24) & 0xff) as u8,
    ]
}

/// Splitting a word into its little-endian bytes and reassembling them
/// gives the word back unchanged.
pub proof fn lemma_le_round_trip(w: u32)
    ensures
        le_word(le_bytes(w)[0], le_bytes(w)[1], le_bytes(w)[2], le_bytes(w)[3]) == w,
{
    assert(le_word(
        (w & 0xff) as u8,
        ((w >> 8) & 0xff) as u8,
        ((w >> 16) & 0xff) as u8,
        ((w >> 24) & 0xff) as u8,
    ) == w) by (bit_vector);
}

/// The wire image of a write command: marker bit set, reserved bits clear,
/// byte-enable nibble, then address and data in little-endian order, then
/// zero padding out to 14 bytes.
pub open spec fn spec_write_frame(byte_enable: u8, addr: u32, data: u32) -> Seq<u8> {
    seq![
        0x80u8 | byte_enable,
        (addr & 0xff) as u8,
        ((addr >> 8) & 0xff) as u8,
        ((addr >> 16) & 0xff) as u8,
        ((addr >> 24) & 0xff) as u8,
        (data & 0xff) as u8,
        ((data >> 8) & 0xff) as u8,
        ((data >> 16) & 0xff) as u8,
        ((data >> 24) & 0xff) as u8,
        0u8,
        0u8,
        0u8,
        0u8,
        0u8,
    ]
}

/// The wire image of a read command: no marker bit, byte-enable nibble,
/// address in little-endian order, then zero padding out to 14 bytes.
pub open spec fn spec_read_frame(byte_enable: u8, addr: u32) -> Seq<u8> {
    seq![
        byte_enable,
        (addr & 0xff) as u8,
        ((addr >> 8) & 0xff) as u8,
        ((addr >> 16) & 0xff) as u8,
        ((addr >> 24) & 0xff) as u8,
        0u8,
        0u8,
        0u8,
        0u8,
        0u8,
        0u8,
        0u8,
        0u8,
        0u8,
    ]
}

/// Whether a command frame carries the write marker (bit 0 of byte 0).
pub open spec fn frame_is_write(f: Seq<u8>) -> bool
    recommends
        f.len() == FRAME_LEN,
{
    f[0] & 0x80 != 0
}

/// The byte-enable nibble of a command frame (bits 4 through 7 of byte 0).
pub open spec fn frame_byte_enable(f: Seq<u8>) -> u8
    recommends
        f.len() == FRAME_LEN,
{
    f[0] & 0x0f
}

/// The target address a command frame carries in bytes 1 through 4.
pub open spec fn frame_addr(f: Seq<u8>) -> u32
    recommends
        f.len() == FRAME_LEN,
{
    le_word(f[1], f[2], f[3], f[4])
}

/// The data word a write frame carries in bytes 5 through 8.
pub open spec fn frame_data(f: Seq<u8>) -> u32
    recommends
        f.len() == FRAME_LEN,
{
    le_word(f[5], f[6], f[7], f[8])
}

/// Append the four bytes of `w` in little-endian order.
fn push_le_word(out: &mut Vec<u8>, w: u32)
    ensures
        final(out)@ == old(out)@ + le_bytes(w),
{
    proof {
        assert(w & 0xff < 256 && (w >> 8) & 0xff < 256 && (w >> 16) & 0xff < 256 && (w >> 24)
            & 0xff < 256) by (bit_vector);
    }
    out.push((w & 0xff) as u8);
    out.push(((w >> 8) & 0xff) as u8);
    out.push(((w >> 16) & 0xff) as u8);
    out.push(((w >> 24) & 0xff) as u8);
    proof {
        assert(out@ =~= old(out)@ + le_bytes(w));
    }
}

/// A write command: place `data` at bus address `addr`, the byte-enable
/// mask naming which of its four bytes are significant.
#[derive(Clone, Copy, Debug, PartialEq, Eq, Structural)]
pub struct Write {
    pub byte_enable: u8,
    pub addr: u32,
    pub data: u32,
}

impl Write {
    /// A command is well formed when its byte-enable fits the 4-bit field.
    pub open spec fn wf(self) -> bool {
        self.byte_enable < 16
    }

    pub fn new(byte_enable: u8, addr: u32, data: u32) -> (w: Self)
        requires
            byte_enable < 16,
        ensures
            w == (Write { byte_enable, addr, data }),
            w.wf(),
    {
        Write { byte_enable, addr, data }
    }

    /// Lay the command out as its 14-byte wire frame.
    pub fn pack(&self) -> (out: Vec<u8>)
        requires
            self.wf(),
        ensures
            out@ == spec_write_frame(self.byte_enable, self.addr, self.data),
            out@.len() == FRAME_LEN,
    {
        let mut out: Vec<u8> = Vec::new();
        out.push(0x80u8 | self.byte_enable);
        push_le_word(&mut out, self.addr);
        push_le_word(&mut out, self.data);
        out.push(0u8);
        out.push(0u8);
        out.push(0u8);
        out.push(0u8);
        out.push(0u8);
        proof {
            assert(out@ =~= spec_write_frame(self.byte_enable, self.addr, self.data));
        }
        out
    }
}

/// A read command: fetch the word at bus address `addr`; the byte-enable
/// mask is conventionally all ones for a full-word read.
#[derive(Clone, Copy, Debug, PartialEq, Eq, Structural)]
pub struct Read {
    pub byte_enable: u8,
    pub addr: u32,
}

impl Read {
    /// A command is well formed when its byte-enable fits the 4-bit field.
    pub open spec fn wf(self) -> bool {
        self.byte_enable < 16
    }

    pub fn new(byte_enable: u8, addr: u32) -> (r: Self)
        requires
            byte_enable < 16,
        ensures
            r == (Read { byte_enable, addr }),
            r.wf(),
    {
        Read { byte_enable, addr }
    }

    /// Lay the command out as its 14-byte wire frame.
    pub fn pack(&self) -> (out: Vec<u8>)
        requires
            self.wf(),
        ensures
            out@ == spec_read_frame(self.byte_enable, self.addr),
            out@.len() == FRAME_LEN,
    {
        let mut out: Vec<u8> = Vec::new();
        out.push(self.byte_enable);
        push_le_word(&mut out, self.addr);
        out.push(0u8);
        out.push(0u8);
        out.push(0u8);
        out.push(0u8);
        out.push(0u8);
        out.push(0u8);
        out.push(0u8);
        out.push(0u8);
        out.push(0u8);
        proof {
            assert(out@ =~= spec_read_frame(self.byte_enable, self.addr));
        }
        out
    }
}

/// Round trip for write frames: for every well-formed byte-enable mask and
/// every address and data word, the encoded frame gives the marker, the
/// mask, the address and the data back exactly.
pub proof fn lemma_write_frame_round_trip(byte_enable: u8, addr: u32, data: u32)
    requires
        byte_enable < 16,
    ensures
        spec_write_frame(byte_enable, addr, data).len() == FRAME_LEN,
        frame_is_write(spec_write_frame(byte_enable, addr, data)),
        frame_byte_enable(spec_write_frame(byte_enable, addr, data)) == byte_enable,
        frame_addr(spec_write_frame(byte_enable, addr, data)) == addr,
        frame_data(spec_write_frame(byte_enable, addr, data)) == data,
{
    assert((0x80u8 | byte_enable) & 0x80 != 0) by (bit_vector);
    assert((0x80u8 | byte_enable) & 0x0f == byte_enable) by (bit_vector)
        requires
            byte_enable < 16,
    ;
    assert(le_word(
        (addr & 0xff) as u8,
        ((addr >> 8) & 0xff) as u8,
        ((addr >> 16) & 0xff) as u8,
        ((addr >> 24) & 0xff) as u8,
    ) == addr) by (bit_vector);
    assert(le_word(
        (data & 0xff) as u8,
        ((data >> 8) & 0xff) as u8,
        ((data >> 16) & 0xff) as u8,
        ((data >> 24) & 0xff) as u8,
    ) == data) by (bit_vector);
}

/// Round trip for read frames: for every well-formed byte-enable mask and
/// every address, the encoded frame carries no marker and gives the mask
/// and the address back exactly.
pub proof fn lemma_read_frame_round_trip(byte_enable: u8, addr: u32)
    requires
        byte_enable < 16,
    ensures
        spec_read_frame(byte_enable, addr).len() == FRAME_LEN,
        !frame_is_write(spec_read_frame(byte_enable, addr)),
        frame_byte_enable(spec_read_frame(byte_enable, addr)) == byte_enable,
        frame_addr(spec_read_frame(byte_enable, addr)) == addr,
{
    assert(byte_enable & 0x80 == 0 && byte_enable & 0x0f == byte_enable) by (bit_vector)
        requires
            byte_enable < 16,
    ;
    assert(le_word(
        (addr & 0xff) as u8,
        ((addr >> 8) & 0xff) as u8,
        ((addr >> 16) & 0xff) as u8,
        ((addr >> 24) & 0xff) as u8,
    ) == addr) by (bit_vector);
}

/// The write marker is bit 0 of byte 0, the most significant bit: it is 1
/// in every write frame and 0 in every read frame, the reserved bits 1
/// through 3 of that byte are 0 in both, and its low nibble is the
/// byte-enable mask.
pub proof fn lemma_marker_bit(byte_enable: u8, addr: u32, data: u32)
    requires
        byte_enable < 16,
    ensures
        spec_write_frame(byte_enable, addr, data)[0] >> 7 == 1,
        spec_write_frame(byte_enable, addr, data)[0] == 0x80u8 | byte_enable,
        spec_write_frame(byte_enable, addr, data)[0] & 0x70 == 0,
        spec_read_frame(byte_enable, addr)[0] >> 7 == 0,
        spec_read_frame(byte_enable, addr)[0] == byte_enable,
        spec_read_frame(byte_enable, addr)[0] & 0x70 == 0,
{
    assert((0x80u8 | byte_enable) >> 7 == 1 && (0x80u8 | byte_enable) & 0x70 == 0 && byte_enable
        >> 7 == 0 && byte_enable & 0x70 == 0) by (bit_vector)
        requires
            byte_enable < 16,
    ;
}

/// Returned when a response buffer is not exactly [`FRAME_LEN`] bytes long;
/// `found` records the length that was handed in.
#[derive(Clone, Copy, Debug, PartialEq, Eq, Structural)]
pub struct FrameError {
    pub found: usize,
}

/// The fields the remote side returns during the duplex transfer: the word
/// it read from the bus, the completion and fault flags, and an echo of the
/// byte-enable mask that was requested.
#[derive(Clone, Copy, Debug, PartialEq, Eq, Structural)]
pub struct Response {
    pub read_data: u32,
    pub ack: bool,
    pub error: bool,
    pub byte_enable: u8,
}

/// The response fields read out of a 14-byte frame: bytes 9 through 12 are
/// the data word in little-endian order, and byte 13 holds ack (bit 104,
/// its most significant bit), error (bit 105), and the byte-enable echo
/// (bits 108 through 111, its low nibble). The leading 72 bits are filler
/// shifted out while the remote processes the command, and are ignored.
pub open spec fn spec_decode_response(f: Seq<u8>) -> Response
    recommends
        f.len() == FRAME_LEN,
{
    Response {
        read_data: le_word(f[9], f[10], f[11], f[12]),
        ack: f[13] & 0x80 != 0,
        error: f[13] & 0x40 != 0,
        byte_enable: f[13] & 0x0f,
    }
}

impl Response {
    /// Decode a response buffer, rejecting any buffer that is not exactly
    /// 14 bytes long.
    pub fn unpack(buf: &[u8]) -> (r: Result<Response, FrameError>)
        ensures
            buf@.len() == FRAME_LEN ==> r == Ok::<Response, FrameError>(spec_decode_response(buf@)),
            buf@.len() != FRAME_LEN ==> r == Err::<Response, FrameError>(
                FrameError { found: buf@.len() as usize },
            ),
    {
        if buf.len() != FRAME_LEN {
            return Err(FrameError { found: buf.len() });
        }
        let b13 = buf[13];
        Ok(
            Response {
                read_data: (buf[9] as u32) | ((buf[10] as u32) << 8) | ((buf[11] as u32) << 16) | (
                (buf[12] as u32) << 24),
                ack: b13 & 0x80 != 0,
                error: b13 & 0x40 != 0,
                byte_enable: b13 & 0x0f,
            },
        )
    }
}

} // verus!
