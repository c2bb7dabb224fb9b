//! How the decode and filter engine of each medium is set up, and how its
//! frames are read.
//!
//! The engine is a filter graph: a buffer source that takes the decoded
//! frames, a detection filter that tags the frames at which a run of silence
//! or blankness begins and ends, and a buffer sink that gives the tagged
//! frames out. The library names the filters, writes the arguments of the
//! source, and says under which keys the tags are found.

use crate::detector::TimeBase;
use crate::event::Medium;
use crate::text::{
    decimal, hexadecimal, push_decimal, push_hexadecimal, push_signed_decimal, signed_decimal,
};
use vstd::prelude::*;
use vstd::string::StringExecFns;

verus! {

/// A time base as the engine reads it: numerator, a slash, denominator.
pub open spec fn fraction(time_base: TimeBase) -> Seq<char> {
    signed_decimal(time_base.numerator as int) + "/"@ + signed_decimal(
        time_base.denominator as int,
    )
}

/// The arguments of the buffer source of a sound track.
pub open spec fn audio_arguments(
    time_base: TimeBase,
    sample_rate: u32,
    sample_format: Seq<char>,
    channel_layout: u64,
) -> Seq<char> {
    "time_base="@ + fraction(time_base) + ":sample_rate="@ + decimal(sample_rate as nat)
        + ":sample_fmt="@ + sample_format + ":channel_layout=0x"@ + hexadecimal(
        channel_layout as nat,
    )
}

/// The arguments of the buffer source of a picture.
pub open spec fn video_arguments(
    time_base: TimeBase,
    frame_rate: TimeBase,
    width: u32,
    height: u32,
    pixel_format: Seq<char>,
) -> Seq<char> {
    "time_base="@ + fraction(time_base) + ":frame_rate="@ + fraction(frame_rate) + ":width="@
        + decimal(width as nat) + ":height="@ + decimal(height as nat) + ":pix_fmt="@
        + pixel_format
}

impl Medium {
    /// The filter that takes the decoded frames of this medium.
    pub fn source_filter(self) -> (name: &'static str)
        ensures
            name@ == (match self {
                Medium::Audio => "abuffer"@,
                Medium::Video => "buffer"@,
            }),
    {
        match self {
            Medium::Audio => "abuffer",
            Medium::Video => "buffer",
        }
    }

    /// The filter that gives the tagged frames of this medium out.
    pub fn sink_filter(self) -> (name: &'static str)
        ensures
            name@ == (match self {
                Medium::Audio => "abuffersink"@,
                Medium::Video => "buffersink"@,
            }),
    {
        match self {
            Medium::Audio => "abuffersink",
            Medium::Video => "buffersink",
        }
    }

    /// The detection filter of this medium with its settings: how quiet or
    /// dark a frame must be, and how long a run must last to be tagged.
    pub fn detection_filter(self) -> (description: &'static str)
        ensures
            description@ == (match self {
                Medium::Audio => "silencedetect=n=-50dB:d=0.3"@,
                Medium::Video => "blackdetect=d=0.5:pix_th=0.1"@,
            }),
    {
        match self {
            Medium::Audio => "silencedetect=n=-50dB:d=0.3",
            Medium::Video => "blackdetect=d=0.5:pix_th=0.1",
        }
    }

    /// The key under which a frame of this medium carries the tag of a run
    /// that begins.
    pub fn run_start_key(self) -> (key: &'static str)
        ensures
            key@ == (match self {
                Medium::Audio => "lavfi.silence_start"@,
                Medium::Video => "lavfi.black_start"@,
            }),
    {
        match self {
            Medium::Audio => "lavfi.silence_start",
            Medium::Video => "lavfi.black_start",
        }
    }

    /// The key under which a frame of this medium carries the tag of a run
    /// that ends.
    pub fn run_end_key(self) -> (key: &'static str)
        ensures
            key@ == (match self {
                Medium::Audio => "lavfi.silence_duration"@,
                Medium::Video => "lavfi.black_end"@,
            }),
    {
        match self {
            Medium::Audio => "lavfi.silence_duration",
            Medium::Video => "lavfi.black_end",
        }
    }
}

/// Writes a time base behind `text`, as the engine reads it.
fn push_fraction(text: &mut String, time_base: TimeBase)
    ensures
        final(text)@ == old(text)@ + fraction(time_base),
{
    push_signed_decimal(text, time_base.numerator as i64);
    text.append("/");
    push_signed_decimal(text, time_base.denominator as i64);
    assert(final(text)@ =~= old(text)@ + fraction(time_base));
}

/// The arguments of the buffer source of a sound track, from what its decoder
/// says of the track.
pub fn audio_source_arguments(
    time_base: TimeBase,
    sample_rate: u32,
    sample_format: &str,
    channel_layout: u64,
) -> (text: String)
    ensures
        text@ == audio_arguments(time_base, sample_rate, sample_format@, channel_layout),
{
    let mut text = String::from_str("time_base=");
    push_fraction(&mut text, time_base);
    text.append(":sample_rate=");
    push_decimal(&mut text, sample_rate as u128);
    text.append(":sample_fmt=");
    text.append(sample_format);
    text.append(":channel_layout=0x");
    push_hexadecimal(&mut text, channel_layout as u128);
    text
}

/// The arguments of the buffer source of a picture, from what its decoder
/// says of the picture.
pub fn video_source_arguments(
    time_base: TimeBase,
    frame_rate: TimeBase,
    width: u32,
    height: u32,
    pixel_format: &str,
) -> (text: String)
    ensures
        text@ == video_arguments(time_base, frame_rate, width, height, pixel_format@),
{
    let mut text = String::from_str("time_base=");
    push_fraction(&mut text, time_base);
    text.append(":frame_rate=");
    push_fraction(&mut text, frame_rate);
    text.append(":width=");
    push_decimal(&mut text, width as u128);
    text.append(":height=");
    push_decimal(&mut text, height as u128);
    text.append(":pix_fmt=");
    text.append(pixel_format);
    text
}

} // verus!
