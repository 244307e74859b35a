//! The audio encoding families a track can be offered in, and the classifier
//! that maps each of them to an expected average data rate.

use vstd::prelude::*;

verus! {

/// Tag identifying one of the supported audio container/encoding families.
/// The streaming backend reports one of these for every available encoding of
/// a track; the tag is fixed at that point and only read afterwards.
#[derive(Clone, Copy, Debug, PartialEq, Eq, Structural)]
pub enum StreamFormat {
    OggVorbis96,
    OggVorbis160,
    OggVorbis320,
    Mp3256,
    Mp3320,
    Mp3160,
    Mp396,
    Mp3160Enc,
    Aac24,
    Aac48,
    Flac,
}

/// The Ogg Vorbis encodings: the header-bearing family, whose container wraps
/// the raw audio payload in a fixed-size header.
pub open spec fn spec_is_ogg_vorbis(format: StreamFormat) -> bool {
    match format {
        StreamFormat::OggVorbis96 => true,
        StreamFormat::OggVorbis160 => true,
        StreamFormat::OggVorbis320 => true,
        _ => false,
    }
}

/// The MP3 encodings.
pub open spec fn spec_is_mp3(format: StreamFormat) -> bool {
    match format {
        StreamFormat::Mp3256 => true,
        StreamFormat::Mp3320 => true,
        StreamFormat::Mp3160 => true,
        StreamFormat::Mp396 => true,
        StreamFormat::Mp3160Enc => true,
        _ => false,
    }
}

/// The lossless family.
pub open spec fn spec_is_flac(format: StreamFormat) -> bool {
    format == StreamFormat::Flac
}

pub fn is_ogg_vorbis(format: StreamFormat) -> (b: bool)
    ensures
        b == spec_is_ogg_vorbis(format),
{
    match format {
        StreamFormat::OggVorbis96 => true,
        StreamFormat::OggVorbis160 => true,
        StreamFormat::OggVorbis320 => true,
        _ => false,
    }
}

pub fn is_mp3(format: StreamFormat) -> (b: bool)
    ensures
        b == spec_is_mp3(format),
{
    match format {
        StreamFormat::Mp3256 => true,
        StreamFormat::Mp3320 => true,
        StreamFormat::Mp3160 => true,
        StreamFormat::Mp396 => true,
        StreamFormat::Mp3160Enc => true,
        _ => false,
    }
}

pub fn is_flac(format: StreamFormat) -> (b: bool)
    ensures
        b == spec_is_flac(format),
{
    match format {
        StreamFormat::Flac => true,
        _ => false,
    }
}

/// Expected average encoding rate of a format, in kilobits per second.
/// The values approximate real-world averages; the lossless family uses a
/// flat 112 proxy, since its true rate varies.
pub open spec fn spec_data_rate_kbps(format: StreamFormat) -> int {
    match format {
        StreamFormat::OggVorbis96 => 12,
        StreamFormat::OggVorbis160 => 20,
        StreamFormat::OggVorbis320 => 40,
        StreamFormat::Mp3256 => 32,
        StreamFormat::Mp3320 => 40,
        StreamFormat::Mp3160 => 20,
        StreamFormat::Mp396 => 12,
        StreamFormat::Mp3160Enc => 20,
        StreamFormat::Aac24 => 3,
        StreamFormat::Aac48 => 6,
        StreamFormat::Flac => 112,
    }
}

/// Expected average data rate in bytes per second, used to size the
/// read-ahead buffer when a decrypted source is opened.
pub open spec fn spec_stream_data_rate(format: StreamFormat) -> int {
    spec_data_rate_kbps(format) * 1024
}

/// Maps an encoding to its expected bytes-per-second rate.
pub fn stream_data_rate(format: StreamFormat) -> (r: usize)
    ensures
        r == spec_stream_data_rate(format),
{
    let kbps: usize = match format {
        StreamFormat::OggVorbis96 => 12,
        StreamFormat::OggVorbis160 => 20,
        StreamFormat::OggVorbis320 => 40,
        StreamFormat::Mp3256 => 32,
        StreamFormat::Mp3320 => 40,
        StreamFormat::Mp3160 => 20,
        StreamFormat::Mp396 => 12,
        StreamFormat::Mp3160Enc => 20,
        StreamFormat::Aac24 => 3,
        StreamFormat::Aac48 => 6,
        StreamFormat::Flac => 112,
    };
    kbps * 1024
}

/// The MIME content type announced for a stream of the given format:
/// MP3 and Ogg Vorbis and lossless streams get their own type, everything
/// else is announced as AAC.
pub open spec fn spec_content_type(format: StreamFormat) -> Seq<char> {
    if spec_is_mp3(format) {
        "audio/mp3"@
    } else if spec_is_ogg_vorbis(format) {
        "audio/ogg"@
    } else if spec_is_flac(format) {
        "audio/flac"@
    } else {
        "audio/aac"@
    }
}

pub fn content_type(format: StreamFormat) -> (r: &'static str)
    ensures
        r@ == spec_content_type(format),
{
    if is_mp3(format) {
        "audio/mp3"
    } else if is_ogg_vorbis(format) {
        "audio/ogg"
    } else if is_flac(format) {
        "audio/flac"
    } else {
        "audio/aac"
    }
}

/// Every defined format classifies to a strictly positive data rate.
pub proof fn lemma_data_rate_positive(format: StreamFormat)
    ensures
        spec_stream_data_rate(format) > 0,
{
}

/// Within each lossy family, a higher nominal bitrate classifies to a larger
/// data rate; the two encrypted-and-plain variants of one MP3 tier agree.
pub proof fn lemma_data_rate_tier_order()
    ensures
        spec_stream_data_rate(StreamFormat::OggVorbis96) < spec_stream_data_rate(
            StreamFormat::OggVorbis160,
        ) < spec_stream_data_rate(StreamFormat::OggVorbis320),
        spec_stream_data_rate(StreamFormat::Mp396) < spec_stream_data_rate(StreamFormat::Mp3160)
            < spec_stream_data_rate(StreamFormat::Mp3256) < spec_stream_data_rate(
            StreamFormat::Mp3320,
        ),
        spec_stream_data_rate(StreamFormat::Mp3160Enc) == spec_stream_data_rate(
            StreamFormat::Mp3160,
        ),
{
}

} // verus!
