//! Stream records and the reads on them.

use vstd::prelude::*;
use crate::handle::Handle;
use crate::rational::Rational;

verus! {

/// What a stream of a container holds, as plain values.
#[derive(Clone, Copy, Debug, PartialEq, Eq, Structural)]
pub struct Stream {
    /// The stream's codec parameter block.
    pub codecpar: Handle,
    /// The unit in which the stream counts time.
    pub time_base: Rational,
    /// The stream's length, in units of its time base.
    pub duration: i64,
    /// The stream's average frame rate.
    pub avg_frame_rate: Rational,
}

/// The stream's codec parameter block. The handle stays the media library's.
pub fn ffmpeg_shim_get_stream_codecpar(stream: &Stream) -> (par: Handle)
    ensures
        par == stream.codecpar,
{
    stream.codecpar
}

/// The stream's time base, numerator and denominator as they stand: the
/// fraction is neither reduced nor checked.
pub fn ffmpeg_shim_get_stream_time_base(stream: &Stream) -> (tb: Rational)
    ensures
        tb == stream.time_base,
        tb.num == stream.time_base.num,
        tb.den == stream.time_base.den,
{
    let tb = stream.time_base;
    Rational { num: tb.num, den: tb.den }
}

/// The stream's length, in units of its time base and as it stands.
pub fn ffmpeg_shim_get_stream_duration(stream: &Stream) -> (duration: i64)
    ensures
        duration == stream.duration,
{
    stream.duration
}

/// The stream's average frame rate, numerator and denominator as they stand.
pub fn ffmpeg_shim_get_stream_avg_frame_rate(stream: &Stream) -> (fr: Rational)
    ensures
        fr == stream.avg_frame_rate,
        fr.num == stream.avg_frame_rate.num,
        fr.den == stream.avg_frame_rate.den,
{
    let fr = stream.avg_frame_rate;
    Rational { num: fr.num, den: fr.den }
}

} // verus!
