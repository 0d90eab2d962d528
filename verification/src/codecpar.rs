//! Codec parameter blocks and the reads on them.

use vstd::prelude::*;

verus! {

/// Where a codec parameter block keeps its channel count.
///
/// The media library moved the count between versions, and a block has
/// exactly one of the two places.
#[derive(Clone, Copy, Debug, PartialEq, Eq, Structural)]
pub enum ChannelField {
    /// Newer versions: the count sits inside a nested channel-layout
    /// structure.
    Layout { nb_channels: i32 },
    /// Older versions: the count is a field of the block itself.
    Flat { channels: i32 },
}

impl ChannelField {
    /// The channel count that the field describes, whichever place holds it.
    pub open spec fn count(&self) -> i32 {
        match *self {
            ChannelField::Layout { nb_channels } => nb_channels,
            ChannelField::Flat { channels } => channels,
        }
    }
}

/// What a codec parameter block holds, as plain values.
///
/// The two tags are the integer values of the media library's enumerations.
/// Nothing here is interpreted: a video stream carries sample rate zero, an
/// audio stream width and height zero, and both are handed on as they are.
#[derive(Clone, Copy, Debug, PartialEq, Eq, Structural)]
pub struct CodecParameters {
    pub codec_type: i32,
    pub codec_id: i32,
    pub width: i32,
    pub height: i32,
    pub sample_rate: i32,
    pub channels: ChannelField,
    pub bit_rate: i64,
}

/// The tag of the block's media type.
pub fn ffmpeg_shim_get_codecpar_codec_type(par: &CodecParameters) -> (tag: i32)
    ensures
        tag == par.codec_type,
{
    par.codec_type
}

/// The tag of the block's codec.
pub fn ffmpeg_shim_get_codecpar_codec_id(par: &CodecParameters) -> (tag: i32)
    ensures
        tag == par.codec_id,
{
    par.codec_id
}

/// The picture width, as it stands.
pub fn ffmpeg_shim_get_codecpar_width(par: &CodecParameters) -> (width: i32)
    ensures
        width == par.width,
{
    par.width
}

/// The picture height, as it stands.
pub fn ffmpeg_shim_get_codecpar_height(par: &CodecParameters) -> (height: i32)
    ensures
        height == par.height,
{
    par.height
}

/// The audio sample rate, as it stands.
pub fn ffmpeg_shim_get_codecpar_sample_rate(par: &CodecParameters) -> (rate: i32)
    ensures
        rate == par.sample_rate,
{
    par.sample_rate
}

/// The channel count of a block, read from the place that its layout has.
pub fn ffmpeg_shim_get_codecpar_channels(par: &CodecParameters) -> (n: i32)
    ensures
        n == par.channels.count(),
        par.channels matches ChannelField::Layout { nb_channels } ==> n == nb_channels,
        par.channels matches ChannelField::Flat { channels } ==> n == channels,
{
    match par.channels {
        ChannelField::Layout { nb_channels } => nb_channels,
        ChannelField::Flat { channels } => channels,
    }
}

/// The block's bit rate, as it stands.
pub fn ffmpeg_shim_get_codecpar_bit_rate(par: &CodecParameters) -> (bit_rate: i64)
    ensures
        bit_rate == par.bit_rate,
{
    par.bit_rate
}

/// Two blocks whose layouts differ but describe the same channel count read
/// as the same count: the layout decides where the count is read, never what
/// it is.
pub proof fn lemma_channel_count_is_layout_independent(
    newer: CodecParameters,
    older: CodecParameters,
    n: i32,
)
    requires
        newer.channels == (ChannelField::Layout { nb_channels: n }),
        older.channels == (ChannelField::Flat { channels: n }),
    ensures
        newer.channels.count() == n,
        older.channels.count() == n,
        newer.channels.count() == older.channels.count(),
{
}

} // verus!
