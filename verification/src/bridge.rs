//! The bridge: owns a duplex transport and sequences one full transaction
//! per call — encode a command frame, perform exactly one duplex transfer,
//! decode the captured response, validate its flags, and return the data
//! or a typed failure.

use crate::frame::le_bytes;
use crate::frame::le_word;
use crate::frame::spec_decode_response;
use crate::frame::FrameError;
use crate::frame::Read;
use crate::frame::Response;
use crate::frame::Write;
use crate::frame::FRAME_LEN;
use vstd::prelude::*;

verus! {

/// Returned by a transport whose duplex transfer failed.
#[derive(Clone, Copy, Debug, PartialEq, Eq, Structural)]
pub struct TransportError;

/// The one capability the bridge needs from the link: transmit `tx` and
/// simultaneously capture the same number of inbound bytes, in one atomic
/// blocking operation. Any conforming duplex channel — hardware bus,
/// simulator, or test double — can stand behind it. Nothing is assumed of
/// what an implementation sends back; the bridge validates every response.
pub trait Transport {
    fn transfer(&mut self, tx: &[u8]) -> Result<Vec<u8>, TransportError>;
}

/// The errors we can return from interacting with the wishbone bridge.
#[derive(Clone, Copy, Debug, PartialEq, Eq, Structural)]
pub enum Error {
    /// The response was decoded but its ack bit was 0: the remote never
    /// confirmed the transaction.
    MissingAck,
    /// The duplex transfer itself failed at the transport.
    BadWrite,
    /// The remote acknowledged the transaction but reported a bus fault.
    PayloadError,
    /// The transport broke its contract: the captured response buffer was
    /// not exactly 14 bytes.
    Frame(FrameError),
}

/// What validating a decoded response yields. Ack is checked before the
/// error bit: a response that was never acknowledged surfaces
/// `MissingAck` whatever its error bit says.
pub open spec fn spec_validate(r: Response) -> Result<u32, Error> {
    if !r.ack {
        Err(Error::MissingAck)
    } else if r.error {
        Err(Error::PayloadError)
    } else {
        Ok(r.read_data)
    }
}

/// What one captured response buffer yields: a buffer of the wrong length
/// is a frame error, any other is decoded and its flags validated.
pub open spec fn spec_outcome(resp: Seq<u8>) -> Result<u32, Error> {
    if resp.len() != FRAME_LEN {
        Err(Error::Frame(FrameError { found: resp.len() as usize }))
    } else {
        spec_validate(spec_decode_response(resp))
    }
}

/// Validation precedence: a response whose ack bit is clear surfaces
/// `MissingAck` and never `PayloadError`, whatever its error bit says.
pub proof fn lemma_validation_precedence(r: Response)
    requires
        !r.ack,
    ensures
        spec_validate(r) == Err::<u32, Error>(Error::MissingAck),
        spec_validate(r) != Err::<u32, Error>(Error::PayloadError),
{
}

/// Idempotence of the response path: identical captured response buffers
/// yield identical outcomes, so repeating a transaction against a remote
/// that answers with the same bytes gives the same result.
pub proof fn lemma_outcome_deterministic(a: Seq<u8>, b: Seq<u8>)
    requires
        a == b,
    ensures
        spec_outcome(a) == spec_outcome(b),
{
}

/// Check a decoded response's flags, ack first, and hand out its data
/// word on success.
pub fn validate_response(resp: &Response) -> (r: Result<u32, Error>)
    ensures
        r == spec_validate(*resp),
{
    if !resp.ack {
        return Err(Error::MissingAck);
    }
    if resp.error {
        return Err(Error::PayloadError);
    }
    Ok(resp.read_data)
}

/// Decode and validate one captured response buffer.
pub fn complete_transaction(resp: &[u8]) -> (r: Result<u32, Error>)
    ensures
        r == spec_outcome(resp@),
{
    match Response::unpack(resp) {
        Ok(decoded) => validate_response(&decoded),
        Err(frame_error) => Err(Error::Frame(frame_error)),
    }
}

/// The four bytes of a word in little-endian order, as `read` returns
/// them to its caller.
pub fn word_to_bytes(w: u32) -> (b: [u8; 4])
    ensures
        b@ == le_bytes(w),
{
    proof {
        assert(w & 0xff < 256 && (w >> 8) & 0xff < 256 && (w >> 16) & 0xff < 256 && (w >> 24)
            & 0xff < 256) by (bit_vector);
    }
    let b: [u8; 4] = [
        (w & 0xff) as u8,
        ((w >> 8) & 0xff) as u8,
        ((w >> 16) & 0xff) as u8,
        ((w >> 24) & 0xff) as u8,
    ];
    proof {
        assert(b@ =~= le_bytes(w));
    }
    b
}

/// The word assembled from four bytes taken in little-endian order, as
/// `write` packs its caller's data.
pub fn word_from_bytes(b: &[u8; 4]) -> (w: u32)
    ensures
        w == le_word(b@[0], b@[1], b@[2], b@[3]),
{
    (b[0] as u32) | ((b[1] as u32) << 8) | ((b[2] as u32) << 16) | ((b[3] as u32) << 24)
}

/// The state for the SPI Wishbone Bridge: exclusive ownership of one
/// duplex transport for the bridge's lifetime.
pub struct SpiWbBridge<T> {
    spi: T,
}

impl<T: Transport> SpiWbBridge<T> {
    /// Construct a new instance of the bridge, given a transport instance.
    pub fn new(spi: T) -> Self {
        Self { spi }
    }

    /// Given a u32 wishbone address, get the 4 byte word data at that
    /// address, as its four little-endian bytes.
    ///
    /// `BadWrite` reports a transfer the transport itself failed; every
    /// other result is pinned to some captured response buffer by
    /// [`spec_outcome`]: `MissingAck` and `PayloadError` to its flag bits,
    /// a frame error to its length, and success to the data word it
    /// carried.
    pub fn read(&mut self, addr: u32) -> (r: Result<[u8; 4], Error>)
        ensures
            r matches Ok(bytes) ==> exists|resp: Seq<u8>|
                (#[trigger] spec_outcome(resp)) matches Ok(w) && bytes@ == le_bytes(w),
            r matches Err(e) ==> e == Error::BadWrite || (exists|resp: Seq<u8>|
                #[trigger] spec_outcome(resp) == Err::<u32, Error>(e)),
    {
        let command = Read::new(0x0f, addr).pack();
        let resp = match self.spi.transfer(command.as_slice()) {
            Ok(captured) => captured,
            Err(_) => {
                return Err(Error::BadWrite);
            },
        };
        match complete_transaction(resp.as_slice()) {
            Ok(w) => {
                proof {
                    assert(spec_outcome(resp@) matches Ok(v) && v == w);
                }
                Ok(word_to_bytes(w))
            },
            Err(e) => {
                proof {
                    assert(spec_outcome(resp@) == Err::<u32, Error>(e));
                }
                Err(e)
            },
        }
    }

    /// Write the 4 byte word `data`, given in little-endian order, at the
    /// 32 bit wishbone address.
    ///
    /// `BadWrite` reports a transfer the transport itself failed; every
    /// other result is pinned to some captured response buffer by
    /// [`spec_outcome`], exactly as for `read`.
    pub fn write(&mut self, addr: u32, data: &[u8; 4]) -> (r: Result<(), Error>)
        ensures
            r matches Ok(unit) ==> exists|resp: Seq<u8>| (#[trigger] spec_outcome(resp)) is Ok,
            r matches Err(e) ==> e == Error::BadWrite || (exists|resp: Seq<u8>|
                #[trigger] spec_outcome(resp) == Err::<u32, Error>(e)),
    {
        let word = word_from_bytes(data);
        let command = Write::new(0x0f, addr, word).pack();
        let resp = match self.spi.transfer(command.as_slice()) {
            Ok(captured) => captured,
            Err(_) => {
                return Err(Error::BadWrite);
            },
        };
        match complete_transaction(resp.as_slice()) {
            Ok(_) => {
                proof {
                    assert(spec_outcome(resp@) is Ok);
                }
                Ok(())
            },
            Err(e) => {
                proof {
                    assert(spec_outcome(resp@) == Err::<u32, Error>(e));
                }
                Err(e)
            },
        }
    }
}

} // verus!
