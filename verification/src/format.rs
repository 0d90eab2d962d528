//! Container records, the reads on them and the lookup of a stream.

use vstd::prelude::*;
use crate::handle::Handle;

verus! {

/// What a container holds, as plain values.
///
/// The stream count and the stream list are two fields, as they are in the
/// media library; `well_formed` ties them together.
#[derive(Debug)]
pub struct FormatContext {
    /// How many streams the container reports.
    pub nb_streams: u32,
    /// The container's streams, in order.
    pub streams: Vec<Handle>,
    /// The container's length, in the media library's own time unit.
    pub duration: i64,
    /// The container's total bit rate.
    pub bit_rate: i64,
    /// The descriptor of the format the container was read as.
    pub iformat: Handle,
    /// The container's metadata dictionary.
    pub metadata: Handle,
}

impl FormatContext {
    /// The stream list has exactly as many entries as the container reports.
    pub open spec fn well_formed(&self) -> bool {
        self.streams@.len() == self.nb_streams
    }

    /// The record is well formed and every listed stream is there: this is
    /// how the media library keeps a container that it has opened.
    pub open spec fn valid(&self) -> bool {
        &&& self.well_formed()
        &&& forall|i: int| 0 <= i < self.streams@.len() ==> !(#[trigger] self.streams@[i]).is_null()
    }

    /// Whether the record is well formed, for callers that Verus does not
    /// check.
    pub fn is_well_formed(&self) -> (ok: bool)
        ensures
            ok == self.well_formed(),
    {
        self.streams.len() == self.nb_streams as usize
    }

    /// The stream at `index`: the list's entry where the index is below the
    /// reported count, the null handle from the count on.
    pub open spec fn stream_at(&self, index: u32) -> Handle {
        if index < self.nb_streams {
            self.streams@[index as int]
        } else {
            Handle { addr: 0 }
        }
    }
}

/// The number of streams that the container reports.
pub fn ffmpeg_shim_get_nb_streams(ctx: &FormatContext) -> (n: u32)
    ensures
        n == ctx.nb_streams,
{
    ctx.nb_streams
}

/// The container's length, in the media library's own time unit and as it
/// stands.
pub fn ffmpeg_shim_get_duration(ctx: &FormatContext) -> (duration: i64)
    ensures
        duration == ctx.duration,
{
    ctx.duration
}

/// The container's total bit rate, as it stands.
pub fn ffmpeg_shim_get_bit_rate(ctx: &FormatContext) -> (bit_rate: i64)
    ensures
        bit_rate == ctx.bit_rate,
{
    ctx.bit_rate
}

/// The descriptor of the container's input format. The handle stays the
/// media library's.
pub fn ffmpeg_shim_get_iformat(ctx: &FormatContext) -> (iformat: Handle)
    ensures
        iformat == ctx.iformat,
{
    ctx.iformat
}

/// The container's metadata dictionary. The handle stays the media
/// library's.
pub fn ffmpeg_shim_get_metadata(ctx: &FormatContext) -> (metadata: Handle)
    ensures
        metadata == ctx.metadata,
{
    ctx.metadata
}

/// The stream at a zero-based index, or the null handle where the index is
/// not below the container's stream count. The list is read only after the
/// index has been checked.
pub fn ffmpeg_shim_get_stream(ctx: &FormatContext, index: u32) -> (stream: Handle)
    requires
        ctx.well_formed(),
    ensures
        stream == ctx.stream_at(index),
        index < ctx.nb_streams ==> stream == ctx.streams@[index as int],
        index >= ctx.nb_streams ==> stream.is_null(),
        ctx.valid() ==> (stream.is_null() <==> index >= ctx.nb_streams),
{
    if index >= ctx.nb_streams {
        return Handle::null();
    }
    ctx.streams[index as usize]
}

} // verus!
