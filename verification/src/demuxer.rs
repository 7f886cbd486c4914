//! The reader for streams of MPEG audio frames.

use vstd::prelude::*;
use crate::codecs::{CodecParameters, CodecType, Layout};
use crate::cues::{check_ordered, find_cue, lemma_seek_cue};
use crate::errors::Error;
use crate::formats::{
    Cue,
    FormatDescriptor,
    FormatOptions,
    Packet,
    PacketView,
    ProbeDepth,
    ProbeResult,
    Stream,
    Tag,
    Visual,
};
use crate::io::ByteSource;
use crate::reader::{lemma_operations_keep_validity, ReaderView};
use crate::scan::lemma_first_where;
use crate::sync::{find_sync, is_sync_at, MAX_RESYNC_DISTANCE};

verus! {

/// Where in a source the marker of the format stands.
pub const MP3_MARKER_OFFSET: usize = 4;

/// The marker of the format: the letters `MPEG` and four spaces.
pub open spec fn mp3_marker() -> Seq<u8> {
    seq![0x4Du8, 0x50u8, 0x45u8, 0x47u8, 0x20u8, 0x20u8, 0x20u8, 0x20u8]
}

/// Whether a descriptor is the one of this format: the extension `mp3`, the
/// media type `audio/mp3`, and the marker at its offset.
pub open spec fn describes_mp3(descriptor: FormatDescriptor) -> bool {
    &&& descriptor.extensions@.len() == 1
    &&& descriptor.extensions@[0]@ == "mp3"@
    &&& descriptor.mime_types@.len() == 1
    &&& descriptor.mime_types@[0]@ == "audio/mp3"@
    &&& descriptor.marker@ == mp3_marker()
    &&& descriptor.offset == MP3_MARKER_OFFSET
}

/// The codec parameters of the one stream of this format: layer 3 audio
/// at 44.1 kHz in stereo, with at most 1152 frames in a packet.
pub open spec fn mp3_params() -> CodecParameters {
    CodecParameters {
        codec: Some(CodecType::Mp3),
        sample_rate: Some(44_100u32),
        channel_layout: Some(Layout::Stereo),
        max_frames_per_packet: Some(1152u64),
        bits_per_sample: None,
    }
}

/// A reader for streams of MPEG audio frames.
///
/// The format has no framing of its own that the reader follows: a packet
/// is all that is left of the source. The format carries no seek index
/// either; a cue table can be loaded from elsewhere, and seeks are resolved
/// against it.
pub struct Mp3Reader {
    reader: ByteSource,
    options: FormatOptions,
    streams: Vec<Stream>,
    tags: Vec<Tag>,
    visuals: Vec<Visual>,
    cues: Vec<Cue>,
}

impl View for Mp3Reader {
    type V = ReaderView;

    closed spec fn view(&self) -> ReaderView {
        ReaderView {
            bytes: self.reader.bytes(),
            position: self.reader.position(),
            resync: self.options.enable_resync,
            streams: self.streams@,
            tags: self.tags@,
            visuals: self.visuals@,
            cues: self.cues@,
        }
    }
}

impl Mp3Reader {
    /// Binds a reader to a source. Nothing is read from the source and
    /// nothing is parsed: every list of the reader is empty.
    pub fn open(source: ByteSource, options: &FormatOptions) -> (r: Mp3Reader)
        ensures
            r@ == ReaderView::opened(source.bytes(), source.position(), options.enable_resync),
            r@.wf(),
    {
        proof {
            use_type_invariant(&source);
            source.lemma_cursor_in_bounds();
        }
        Mp3Reader {
            reader: source,
            options: *options,
            streams: Vec::new(),
            tags: Vec::new(),
            visuals: Vec::new(),
            cues: Vec::new(),
        }
    }

    /// The descriptors by which the format is recognised.
    pub fn supported_formats() -> (r: Vec<FormatDescriptor>)
        ensures
            r@.len() == 1,
            describes_mp3(r@[0]),
    {
        let extensions: Vec<&'static str> = vec!["mp3"];
        let mime_types: Vec<&'static str> = vec!["audio/mp3"];
        let marker: Vec<u8> = vec![0x4Du8, 0x50u8, 0x45u8, 0x47u8, 0x20u8, 0x20u8, 0x20u8, 0x20u8];
        assert(marker@ =~= mp3_marker());
        let descriptor = FormatDescriptor {
            extensions,
            mime_types,
            marker,
            offset: MP3_MARKER_OFFSET,
        };
        vec![descriptor]
    }

    /// Declares the one stream of the format.
    ///
    /// The format has no header to parse, so the depth plays no part. Each call declares one more stream, behind those declared before, so
    /// a reader is probed once. The call reports `Unsupported`, and changes
    /// nothing, only where no identifier is left for another stream.
    pub fn probe(&mut self, _depth: ProbeDepth) -> (r: Result<ProbeResult, Error>)
        ensures
            final(self)@ == old(self)@.declared(mp3_params()),
            old(self)@.wf() ==> final(self)@.wf(),
            r == Ok::<ProbeResult, Error>(
                if old(self)@.can_declare() {
                    ProbeResult::Supported
                } else {
                    ProbeResult::Unsupported
                },
            ),
    {
        if self.streams.len() >= u32::MAX as usize {
            return Ok(ProbeResult::Unsupported);
        }
        let id: u32 = self.streams.len() as u32;

        let mut params = CodecParameters::new();

        params.for_codec(CodecType::Mp3)
            .with_max_frames_per_packet(1152)
            .with_sample_rate(44_100)
            .with_channel_layout(Layout::Stereo);

        let ghost before = self@;
        self.streams.push(Stream::new(id, params));
        proof {
            let grown = before.declared(mp3_params());
            assert(self@.streams =~= grown.streams);
            if before.wf() {
                lemma_operations_keep_validity(before, mp3_params(), Seq::empty(), 0);
            }
        }
        Ok(ProbeResult::Supported)
    }

    /// Hands out the next packet: all that is left of the source, for the
    /// first stream.
    ///
    /// Fails with `Unsupported` before any stream is declared, and with
    /// `EndOfStream` where nothing is left of the source. A call that fails
    /// changes nothing.
    pub fn next_packet(&mut self) -> (r: Result<Packet<'_>, Error>)
        ensures
            final(self)@ == old(self)@.after_packet(),
            old(self)@.wf() ==> final(self)@.wf(),
            match r {
                Ok(packet) => old(self)@.packet_outcome() == Ok::<PacketView, Error>(packet@),
                Err(e) => old(self)@.packet_outcome() == Err::<PacketView, Error>(e),
            },
    {
        if self.streams.len() == 0 {
            return Err(Error::Unsupported);
        }
        let start: usize = self.reader.pos();
        if start >= self.reader.len() {
            return Err(Error::EndOfStream);
        }
        let data = self.reader.take_rest();
        Ok(Packet { stream_id: 0, pos: start as u64, data })
    }

    /// The tags found so far.
    pub fn tags(&self) -> (r: &[Tag])
        ensures
            r@ == self@.tags,
    {
        self.tags.as_slice()
    }

    /// The visuals found so far.
    pub fn visuals(&self) -> (r: &[Visual])
        ensures
            r@ == self@.visuals,
    {
        self.visuals.as_slice()
    }

    /// The seek index.
    pub fn cues(&self) -> (r: &[Cue])
        ensures
            r@ == self@.cues,
    {
        self.cues.as_slice()
    }

    /// The streams declared so far.
    pub fn streams(&self) -> (r: &[Stream])
        ensures
            r@ == self@.streams,
    {
        self.streams.as_slice()
    }

    /// Puts a cue table in place of the present one.
    ///
    /// The table is taken where its timestamps never decrease, every cue
    /// points into the source and every cue belongs to a declared stream.
    /// Any other table is refused as `Malformed`, and the present one
    /// stays.
    pub fn load_cues(&mut self, cues: Vec<Cue>) -> (r: Result<(), Error>)
        ensures
            old(self)@.wf() ==> final(self)@.wf(),
            match r {
                Ok(_) => old(self)@.accepts_cues(cues@) && final(self)@ == old(self)@.with_cues(
                    cues@,
                ),
                Err(e) => e == Error::Malformed && !old(self)@.accepts_cues(cues@) && final(self)@
                    == old(self)@,
            },
    {
        if !check_ordered(cues.as_slice()) {
            return Err(Error::Malformed);
        }
        let len: u64 = self.reader.len() as u64;
        let mut i: usize = 0;
        while i < cues.len()
            invariant
                i <= cues.len(),
                len == self@.bytes.len(),
                forall|k: int|
                    0 <= k < i ==> (#[trigger] cues@[k]).offset <= self@.bytes.len()
                        && cues@[k].track_id < self@.streams.len(),
            decreases cues.len() - i,
        {
            if cues[i].offset > len || cues[i].track_id as usize >= self.streams.len() {
                return Err(Error::Malformed);
            }
            i += 1;
        }
        self.cues = cues;
        Ok(())
    }

    /// Moves the reader to the last cue at or before `ts` and returns the
    /// byte offset of that cue.
    ///
    /// The reader accepts the move only where a frame is found to start at
    /// that offset or, if the reader was opened with resynchronisation, at
    /// most `MAX_RESYNC_DISTANCE` bytes behind it; the next packet begins
    /// there. Fails with `Unsupported` where no cue lies at or before `ts`,
    /// as in a reader without cues, and with `Malformed` where no frame is
    /// found. A call that fails changes nothing.
    pub fn seek(&mut self, ts: u64) -> (r: Result<u64, Error>)
        requires
            old(self)@.wf(),
        ensures
            r == old(self)@.seek_outcome(ts),
            final(self)@ == old(self)@.after_seek(ts),
            final(self)@.wf(),
    {
        proof {
            lemma_seek_cue(self@.cues, ts);
        }
        let i: usize = match find_cue(self.cues.as_slice(), ts) {
            Some(i) => i,
            None => {
                return Err(Error::Unsupported);
            },
        };
        let offset: u64 = self.cues[i].offset;
        let len: usize = self.reader.len();
        assert(self@.cues[i as int].offset <= self@.bytes.len());
        let window: usize = if self.options.enable_resync {
            MAX_RESYNC_DISTANCE
        } else {
            0
        };
        proof {
            lemma_first_where(
                |p: int| is_sync_at(self@.bytes, p),
                offset as int,
                window as nat,
            );
        }
        match find_sync(self.reader.as_slice(), offset as usize, window) {
            Some(p) => match self.reader.seek(p) {
                Ok(_) => Ok(offset),
                Err(e) => Err(e),
            },
            None => Err(Error::Malformed),
        }
    }
}

} // verus!
