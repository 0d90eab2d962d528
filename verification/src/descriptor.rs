//! Codec and input-format descriptors and the reads of their names.

use vstd::prelude::*;
use crate::handle::Handle;

verus! {

/// What a codec descriptor holds: its two names, each a handle to a
/// zero-terminated byte string of the media library, or the null handle where
/// the library has set no name.
#[derive(Clone, Copy, Debug, PartialEq, Eq, Structural)]
pub struct Codec {
    pub name: Handle,
    pub long_name: Handle,
}

/// What an input-format descriptor holds: its two names, as in `Codec`.
#[derive(Clone, Copy, Debug, PartialEq, Eq, Structural)]
pub struct InputFormat {
    pub name: Handle,
    pub long_name: Handle,
}

/// The codec's short name. A name that is not set comes back as the null
/// handle: nothing is put in its place.
pub fn ffmpeg_shim_get_codec_name(codec: &Codec) -> (name: Handle)
    ensures
        name == codec.name,
        name.is_null() <==> codec.name.is_null(),
{
    codec.name
}

/// The codec's long name, null where it is not set.
pub fn ffmpeg_shim_get_codec_long_name(codec: &Codec) -> (name: Handle)
    ensures
        name == codec.long_name,
        name.is_null() <==> codec.long_name.is_null(),
{
    codec.long_name
}

/// The input format's short name, null where it is not set.
pub fn ffmpeg_shim_get_iformat_name(fmt: &InputFormat) -> (name: Handle)
    ensures
        name == fmt.name,
        name.is_null() <==> fmt.name.is_null(),
{
    fmt.name
}

/// The input format's long name, null where it is not set.
pub fn ffmpeg_shim_get_iformat_long_name(fmt: &InputFormat) -> (name: Handle)
    ensures
        name == fmt.long_name,
        name.is_null() <==> fmt.long_name.is_null(),
{
    fmt.long_name
}

} // verus!
