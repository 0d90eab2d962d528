//! Field accessors over plain records of a media container library's
//! structures.
//!
//! Each record holds, as plain values, the fields of one structure of the
//! media library: a container, a stream, a codec parameter block, a codec
//! descriptor, an input-format descriptor. Each accessor is a function of its
//! arguments alone and hands a field on exactly as it stands. The one
//! accessor that decides anything is the lookup of a stream, which answers an
//! index at or beyond the stream count with the null handle.

use vstd::prelude::*;

pub mod codecpar;
pub mod descriptor;
pub mod format;
pub mod handle;
pub mod rational;
pub mod stream;

pub use codecpar::{
    ffmpeg_shim_get_codecpar_bit_rate, ffmpeg_shim_get_codecpar_channels,
    ffmpeg_shim_get_codecpar_codec_id, ffmpeg_shim_get_codecpar_codec_type,
    ffmpeg_shim_get_codecpar_height, ffmpeg_shim_get_codecpar_sample_rate,
    ffmpeg_shim_get_codecpar_width, ChannelField, CodecParameters,
};
pub use descriptor::{
    ffmpeg_shim_get_codec_long_name, ffmpeg_shim_get_codec_name,
    ffmpeg_shim_get_iformat_long_name, ffmpeg_shim_get_iformat_name, Codec, InputFormat,
};
pub use format::{
    ffmpeg_shim_get_bit_rate, ffmpeg_shim_get_duration, ffmpeg_shim_get_iformat,
    ffmpeg_shim_get_metadata, ffmpeg_shim_get_nb_streams, ffmpeg_shim_get_stream, FormatContext,
};
pub use handle::Handle;
pub use rational::Rational;
pub use stream::{
    ffmpeg_shim_get_stream_avg_frame_rate, ffmpeg_shim_get_stream_codecpar,
    ffmpeg_shim_get_stream_duration, ffmpeg_shim_get_stream_time_base, Stream,
};

verus! {

/// Makes the accessors ready. There is nothing to make ready: the library
/// keeps no state, so calling this any number of times, or never, changes
/// nothing.
pub fn ffmpeg_shim_init() {
}

} // verus!
