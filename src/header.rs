use vstd::prelude::*;

use crate::error::PlayError;

verus! {

/// How a media stream that can be decoded begins.
#[derive(Clone, Copy, PartialEq, Eq, Structural)]
pub enum StreamStart {
    /// An ID3v2 tag, which precedes the audio frames.
    Id3Tag,
    /// An MPEG audio frame header.
    FrameHeader,
}

/// The bytes begin with the `ID3` marker of a metadata tag.
pub open spec fn is_id3_tag(b: Seq<u8>) -> bool {
    b.len() >= 3 && b[0] == 0x49u8 && b[1] == 0x44u8 && b[2] == 0x33u8
}

/// The bytes begin with an MPEG audio frame header: eleven sync bits, and a
/// version, layer, bitrate and sample rate that are not reserved or invalid.
pub open spec fn is_frame_header(b: Seq<u8>) -> bool {
    &&& b.len() >= 4
    &&& b[0] == 0xFFu8
    &&& b[1] & 0xE0u8 == 0xE0u8
    &&& (b[1] >> 3u8) & 3u8 != 1u8
    &&& (b[1] >> 1u8) & 3u8 != 0u8
    &&& b[2] >> 4u8 != 15u8
    &&& (b[2] >> 2u8) & 3u8 != 3u8
}

/// Checks the first bytes of a media stream before a decoder is built on it.
/// A stream that starts with neither a tag nor a frame header is refused, so
/// no audio is produced from it.
pub fn check_stream_start(bytes: &[u8]) -> (r: Result<StreamStart, PlayError>)
    ensures
        is_id3_tag(bytes@) ==> r == Ok::<StreamStart, PlayError>(StreamStart::Id3Tag),
        !is_id3_tag(bytes@) && is_frame_header(bytes@) ==> r == Ok::<StreamStart, PlayError>(
            StreamStart::FrameHeader,
        ),
        !is_id3_tag(bytes@) && !is_frame_header(bytes@) ==> r matches Err(PlayError::DecodeFailed),
{
    if bytes.len() >= 3 && bytes[0] == 0x49u8 && bytes[1] == 0x44u8 && bytes[2] == 0x33u8 {
        return Ok(StreamStart::Id3Tag);
    }
    if bytes.len() < 4 {
        return Err(PlayError::DecodeFailed);
    }
    let b1 = bytes[1];
    let b2 = bytes[2];
    if bytes[0] == 0xFFu8 && b1 & 0xE0u8 == 0xE0u8 && (b1 >> 3u8) & 3u8 != 1u8 && (b1 >> 1u8) & 3u8
        != 0u8 && b2 >> 4u8 != 15u8 && (b2 >> 2u8) & 3u8 != 3u8 {
        Ok(StreamStart::FrameHeader)
    } else {
        Err(PlayError::DecodeFailed)
    }
}

} // verus!
