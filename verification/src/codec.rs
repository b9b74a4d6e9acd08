//! Frame codec: builds the outbound request frame and validates the inbound
//! response frame, using the CRC-8 (MAXIM/DOW) checksum. A well-formed
//! checksummed frame has a trailing checksum byte chosen so that the checksum
//! of the whole frame is zero.

use vstd::prelude::*;

verus! {

/// Offset of the moisture reading byte within a response frame.
pub const READING_OFFSET: usize = 3;

/// The checksum of a byte sequence under CRC-8 with the MAXIM/DOW polynomial.
pub uninterp spec fn crc8_of(data: Seq<u8>) -> u8;

/// Relies on crc::Crc::<u8>::new(&crc::CRC_8_MAXIM_DOW).checksum: a
/// table-driven cyclic redundancy check whose result depends on the input
/// bytes alone.
#[verifier::external_body]
fn crc8(data: &[u8]) -> (r: u8)
    ensures
        r == crc8_of(data@),
{
    crc::Crc::<u8>::new(&crc::CRC_8_MAXIM_DOW).checksum(data)
}

/// Why validating a response frame failed.
#[derive(Clone, Copy, Debug, PartialEq, Eq, Structural)]
pub enum FrameError {
    /// The checksum over the whole frame was non-zero: the frame is corrupt.
    ChecksumMismatch,
    /// The checksum was valid, but the frame is too short to hold a reading
    /// at `READING_OFFSET`.
    Truncated,
}

/// A frame is the payload followed by its one-byte checksum.
pub open spec fn frame_spec(payload: Seq<u8>) -> Seq<u8> {
    payload.push(crc8_of(payload))
}

/// Build a frame from a command payload: the payload bytes followed by their
/// CRC-8 (MAXIM/DOW) checksum.
pub fn build_frame(payload: &Vec<u8>) -> (frame: Vec<u8>)
    requires
        payload@.len() < usize::MAX,
    ensures
        frame@ == frame_spec(payload@),
{
    let checksum = crc8(payload.as_slice());
    let mut frame: Vec<u8> = Vec::new();
    let mut i: usize = 0;
    while i < payload.len()
        invariant
            i <= payload@.len(),
            frame@ == payload@.subrange(0, i as int),
        decreases payload@.len() - i,
    {
        frame.push(payload[i]);
        i = i + 1;
    }
    assert(frame@ == payload@);
    frame.push(checksum);
    frame
}

/// The fixed 3-byte measurement command sent to the sensor.
pub open spec fn request_payload_spec() -> Seq<u8> {
    seq![0x3Au8, 0x01u8, 0x00u8]
}

/// Build the measurement request frame: the fixed command `[0x3A, 0x01, 0x00]`
/// followed by its CRC-8 (MAXIM/DOW) checksum.
pub fn build_request() -> (frame: Vec<u8>)
    ensures
        frame@ == frame_spec(request_payload_spec()),
        frame@.len() == 4,
{
    let mut payload: Vec<u8> = Vec::new();
    payload.push(0x3A);
    payload.push(0x01);
    payload.push(0x00);
    assert(payload@ =~= request_payload_spec());
    build_frame(&payload)
}

/// What validation returns for a given response frame: a checksum-mismatch
/// error when the frame does not checksum to zero, a truncation error when it
/// does but is too short to hold a reading, and otherwise the reading byte.
pub open spec fn validate_spec(response: Seq<u8>) -> Result<u8, FrameError> {
    if crc8_of(response) != 0 {
        Err(FrameError::ChecksumMismatch)
    } else if response.len() <= READING_OFFSET {
        Err(FrameError::Truncated)
    } else {
        Ok(response[READING_OFFSET as int])
    }
}

/// Validate a response frame and extract the moisture reading.
///
/// The CRC-8 (MAXIM/DOW) checksum over all received bytes, trailing checksum
/// byte included, must be zero; the reading is the byte at `READING_OFFSET`.
pub fn validate_and_extract(response: &[u8]) -> (r: Result<u8, FrameError>)
    ensures
        r == validate_spec(response@),
{
    let checksum = crc8(response);
    if checksum != 0 {
        Err(FrameError::ChecksumMismatch)
    } else if response.len() <= READING_OFFSET {
        Err(FrameError::Truncated)
    } else {
        Ok(response[READING_OFFSET])
    }
}

/// Round trip: a response frame with a correct trailing checksum (the whole
/// frame checksums to zero) that is long enough to hold a reading validates
/// successfully, and the reading is the byte at `READING_OFFSET`.
pub proof fn lemma_valid_frame_round_trip(response: Seq<u8>)
    ensures
        (crc8_of(response) == 0 && response.len() > READING_OFFSET) ==> validate_spec(response)
            == Ok::<u8, FrameError>(response[READING_OFFSET as int]),
{
}

/// Boundary: a response frame that checksums to zero but is shorter than
/// `READING_OFFSET + 1` bytes is rejected as truncated, never read out of
/// bounds.
pub proof fn lemma_short_frame_truncated(response: Seq<u8>)
    ensures
        (crc8_of(response) == 0 && response.len() <= READING_OFFSET) ==> validate_spec(response)
            == Err::<u8, FrameError>(FrameError::Truncated),
{
}

} // verus!
