//! The data that readers and the prober exchange: format descriptors,
//! streams, tags, visuals, cues and packets.

use vstd::prelude::*;
use crate::codecs::CodecParameters;

verus! {

/// How far a probe may look for a format's marker.
#[derive(Clone, Copy, Debug, PartialEq, Eq, Structural)]
pub enum ProbeDepth {
    /// The marker must stand at its declared offset.
    Shallow,
    /// The marker may stand up to a fixed distance after its declared
    /// offset, behind leading data that is not part of the stream.
    Deep,
}

/// What a reader makes of a source.
#[derive(Clone, Copy, Debug, PartialEq, Eq, Structural)]
pub enum ProbeResult {
    /// The reader cannot read the source.
    Unsupported,
    /// The reader can read the source; its streams are declared.
    Supported,
}

/// The options a reader is opened with.
#[derive(Clone, Copy, Debug, PartialEq, Eq, Structural)]
pub struct FormatOptions {
    /// Whether the reader may skip forward, over a bounded distance, to the
    /// next sync pattern where it does not find one in place.
    pub enable_resync: bool,
}

/// How a container format is recognised.
#[derive(Clone, Debug, PartialEq, Eq)]
pub struct FormatDescriptor {
    /// The file name extensions in use for the format.
    pub extensions: Vec<&'static str>,
    /// The media types in use for the format.
    pub mime_types: Vec<&'static str>,
    /// The bytes that mark the format.
    pub marker: Vec<u8>,
    /// Where in the source the marker stands.
    pub offset: usize,
}

/// One logical stream of a container.
#[derive(Clone, Copy, Debug, PartialEq, Eq, Structural)]
pub struct Stream {
    /// The identifier of the stream, unique within its reader.
    pub id: u32,
    /// The codec parameters of the stream.
    pub codec_params: CodecParameters,
}

impl Stream {
    /// The stream with the given identifier and parameters.
    pub fn new(id: u32, codec_params: CodecParameters) -> (r: Stream)
        ensures
            r == (Stream { id, codec_params }),
    {
        Stream { id, codec_params }
    }
}

/// One metadata entry of a container.
#[derive(Clone, Debug, PartialEq, Eq)]
pub struct Tag {
    /// The name of the entry.
    pub key: String,
    /// The value of the entry.
    pub value: String,
}

/// What a visual is used for.
#[derive(Clone, Copy, Debug, PartialEq, Eq, Structural)]
pub enum VisualKey {
    /// The front cover.
    FrontCover,
    /// The back cover.
    BackCover,
    /// Any other use.
    Other,
}

/// One image embedded in a container.
#[derive(Clone, Debug, PartialEq, Eq)]
pub struct Visual {
    /// The media type of the image.
    pub media_type: String,
    /// What the image is used for.
    pub usage: VisualKey,
    /// The image itself.
    pub data: Vec<u8>,
}

/// A point within a cue.
#[derive(Clone, Copy, Debug, PartialEq, Eq, Structural)]
pub struct CuePoint {
    /// The timestamp of the point, counted from the start of its cue.
    pub start_offset_ts: u64,
}

/// One entry of a seek index: where in the source a timestamp is found.
#[derive(Clone, Debug, PartialEq, Eq)]
pub struct Cue {
    /// The identifier of the stream that the cue belongs to.
    pub track_id: u32,
    /// The timestamp of the cue.
    pub start_ts: u64,
    /// The byte offset in the source at which the cue's data starts.
    pub offset: u64,
    /// The points within the cue.
    pub points: Vec<CuePoint>,
}

/// One coded unit of a stream. The payload is borrowed from the reader and
/// is gone with the reader's next step.
#[derive(Clone, Copy, Debug, PartialEq, Eq)]
pub struct Packet<'a> {
    /// The identifier of the stream that the packet belongs to.
    pub stream_id: u32,
    /// The byte offset in the source at which the payload starts.
    pub pos: u64,
    /// The payload.
    pub data: &'a [u8],
}

/// A packet as a value: its stream, its position and the bytes it holds.
pub struct PacketView {
    /// The identifier of the stream that the packet belongs to.
    pub stream_id: u32,
    /// The byte offset in the source at which the payload starts.
    pub pos: nat,
    /// The payload.
    pub data: Seq<u8>,
}

impl<'a> View for Packet<'a> {
    type V = PacketView;

    open spec fn view(&self) -> PacketView {
        PacketView { stream_id: self.stream_id, pos: self.pos as nat, data: self.data@ }
    }
}

} // verus!
