//! The reader protocol as a state machine over plain values: what a reader
//! holds, what each of its operations returns, and the state it leaves
//! behind.

use vstd::prelude::*;
use crate::codecs::CodecParameters;
use crate::cues::{cues_ordered, lemma_seek_cue, seek_cue};
use crate::errors::Error;
use crate::formats::{Cue, PacketView, Stream, Tag, Visual};
use crate::scan::lemma_first_where;
use crate::sync::{first_sync, is_sync_at, MAX_RESYNC_DISTANCE};

verus! {

/// The state of a reader.
pub struct ReaderView {
    /// All bytes of the source.
    pub bytes: Seq<u8>,
    /// The read cursor into the bytes.
    pub position: nat,
    /// Whether the reader may skip forward to the next sync pattern.
    pub resync: bool,
    /// The streams declared so far, in the order of their declaration.
    pub streams: Seq<Stream>,
    /// The tags found so far.
    pub tags: Seq<Tag>,
    /// The visuals found so far.
    pub visuals: Seq<Visual>,
    /// The seek index.
    pub cues: Seq<Cue>,
}

impl ReaderView {
    /// Whether a cue table fits this reader: its timestamps never decrease,
    /// every cue points into the source, and every cue belongs to a
    /// declared stream.
    pub open spec fn accepts_cues(self, cues: Seq<Cue>) -> bool {
        &&& cues_ordered(cues)
        &&& forall|i: int|
            0 <= i < cues.len() ==> (#[trigger] cues[i]).offset <= self.bytes.len()
                && cues[i].track_id < self.streams.len()
    }

    /// The validity of a reader state: the cursor is within the source, the
    /// identifier of each stream is its place in the list, and the cue
    /// table fits.
    pub open spec fn wf(self) -> bool {
        &&& self.position <= self.bytes.len()
        &&& self.streams.len() <= u32::MAX
        &&& forall|i: int| 0 <= i < self.streams.len() ==> (#[trigger] self.streams[i]).id == i
        &&& self.accepts_cues(self.cues)
    }

    /// The state of a reader that was just bound to a source: nothing is
    /// parsed, every list is empty.
    pub open spec fn opened(bytes: Seq<u8>, position: nat, resync: bool) -> ReaderView {
        ReaderView {
            bytes,
            position,
            resync,
            streams: Seq::empty(),
            tags: Seq::empty(),
            visuals: Seq::empty(),
            cues: Seq::empty(),
        }
    }

    /// Whether one more stream can be given an identifier of its own.
    pub open spec fn can_declare(self) -> bool {
        self.streams.len() < u32::MAX
    }

    /// The state after one more stream with the given parameters is
    /// declared: it goes behind the streams declared before, which stay as
    /// they are, and its identifier is its place in the list.
    pub open spec fn declared(self, codec_params: CodecParameters) -> ReaderView {
        if self.can_declare() {
            ReaderView {
                streams: self.streams.push(
                    Stream { id: self.streams.len() as u32, codec_params },
                ),
                ..self
            }
        } else {
            self
        }
    }

    /// The state with the given cue table in place of the present one.
    pub open spec fn with_cues(self, cues: Seq<Cue>) -> ReaderView {
        ReaderView { cues, ..self }
    }

    /// What the next request for a packet returns.
    ///
    /// Before any stream is declared there is nothing that a packet could
    /// belong to. At the end of the source the stream has ended. Otherwise
    /// the packet holds all that is left of the source, for the first
    /// stream.
    pub open spec fn packet_outcome(self) -> Result<PacketView, Error> {
        if self.streams.len() == 0 {
            Err(Error::Unsupported)
        } else if self.position >= self.bytes.len() {
            Err(Error::EndOfStream)
        } else {
            Ok(
                PacketView {
                    stream_id: 0,
                    pos: self.position,
                    data: self.bytes.subrange(self.position as int, self.bytes.len() as int),
                },
            )
        }
    }

    /// The state after the next request for a packet: a packet that was
    /// handed out is consumed; a request that fails changes nothing.
    pub open spec fn after_packet(self) -> ReaderView {
        if self.packet_outcome() is Ok {
            ReaderView { position: self.bytes.len(), ..self }
        } else {
            self
        }
    }

    /// The state after `n` requests for a packet.
    pub open spec fn after_packets(self, n: nat) -> ReaderView
        decreases n,
    {
        if n == 0 {
            self
        } else {
            self.after_packet().after_packets((n - 1) as nat)
        }
    }

    /// How far behind the byte offset of a cue a seek looks for the sync
    /// pattern.
    pub open spec fn resync_window(self) -> nat {
        if self.resync {
            MAX_RESYNC_DISTANCE as nat
        } else {
            0
        }
    }

    /// Where a seek to `ts` puts the cursor: at the first sync pattern from
    /// the byte offset of the resolved cue on, within the resync window.
    /// `None` where no cue lies at or before `ts`, or no sync pattern is
    /// found.
    pub open spec fn seek_landing(self, ts: u64) -> Option<int> {
        match seek_cue(self.cues, ts) {
            Some(i) => first_sync(self.bytes, self.cues[i].offset as int, self.resync_window()),
            None => None,
        }
    }

    /// What a seek to `ts` returns: the byte offset of the last cue at or
    /// before `ts`, where a frame is found to start there or within the
    /// resync window behind it.
    pub open spec fn seek_outcome(self, ts: u64) -> Result<u64, Error> {
        match seek_cue(self.cues, ts) {
            Some(i) => if self.seek_landing(ts) is Some {
                Ok(self.cues[i].offset)
            } else {
                Err(Error::Malformed)
            },
            None => Err(Error::Unsupported),
        }
    }

    /// The state after a seek to `ts`: the cursor is where the seek landed;
    /// a seek that fails changes nothing.
    pub open spec fn after_seek(self, ts: u64) -> ReaderView {
        match self.seek_landing(ts) {
            Some(p) => ReaderView { position: p as nat, ..self },
            None => self,
        }
    }
}

/// Every operation keeps a valid state valid.
pub proof fn lemma_operations_keep_validity(
    state: ReaderView,
    codec_params: CodecParameters,
    cues: Seq<Cue>,
    ts: u64,
)
    requires
        state.wf(),
    ensures
        state.declared(codec_params).wf(),
        state.after_packet().wf(),
        state.after_seek(ts).wf(),
        state.accepts_cues(cues) ==> state.with_cues(cues).wf(),
{
    let grown = state.declared(codec_params);
    assert forall|i: int| 0 <= i < grown.streams.len() implies (#[trigger] grown.streams[i]).id
        == i by {
        if i < state.streams.len() {
            assert(grown.streams[i] == state.streams[i]);
        }
    }
    assert forall|i: int| 0 <= i < grown.cues.len() implies (#[trigger] grown.cues[i]).offset
        <= grown.bytes.len() && grown.cues[i].track_id < grown.streams.len() by {
        assert(state.cues[i].track_id < state.streams.len());
    }
    lemma_seek_lands_in_source(state, ts);
}

/// A stream, once declared, stays as it was declared: every operation
/// leaves the streams untouched, but for a declaration, which adds one
/// behind them.
pub proof fn lemma_declared_streams_stay(
    state: ReaderView,
    codec_params: CodecParameters,
    cues: Seq<Cue>,
    ts: u64,
)
    ensures
        state.after_packet().streams == state.streams,
        state.after_seek(ts).streams == state.streams,
        state.with_cues(cues).streams == state.streams,
        state.declared(codec_params).streams.len() >= state.streams.len(),
        state.declared(codec_params).streams.subrange(0, state.streams.len() as int)
            == state.streams,
{
    assert(state.declared(codec_params).streams.subrange(0, state.streams.len() as int)
        =~= state.streams);
}

/// A packet always belongs to a declared stream.
pub proof fn lemma_packet_names_a_stream(state: ReaderView)
    requires
        state.wf(),
    ensures
        state.packet_outcome() matches Ok(packet) ==> packet.stream_id < state.streams.len()
            && state.streams[packet.stream_id as int].id == packet.stream_id,
{
}

/// Where a seek lands, a frame may start, and there are bytes to read.
proof fn lemma_seek_lands_in_source(state: ReaderView, ts: u64)
    requires
        state.wf(),
    ensures
        state.seek_landing(ts) matches Some(p) ==> {
            &&& seek_cue(state.cues, ts) matches Some(i)
            &&& state.cues[i].offset <= p <= state.cues[i].offset + state.resync_window()
            &&& is_sync_at(state.bytes, p)
            &&& p + 1 < state.bytes.len()
        },
{
    lemma_seek_cue(state.cues, ts);
    if let Some(i) = seek_cue(state.cues, ts) {
        lemma_first_where(
            |p: int| is_sync_at(state.bytes, p),
            state.cues[i].offset as int,
            state.resync_window(),
        );
    }
}

/// Without a cue table no seek succeeds: it fails as unsupported and
/// leaves the reader where it was.
pub proof fn lemma_seek_needs_cues(state: ReaderView, ts: u64)
    requires
        state.cues.len() == 0,
    ensures
        state.seek_outcome(ts) == Err::<u64, Error>(Error::Unsupported),
        state.after_seek(ts) == state,
{
}

/// A seek that succeeds returns the byte offset of the cue with the
/// greatest timestamp at or before the target, and the packet that is
/// requested next begins at a frame boundary found at or behind that
/// offset.
pub proof fn lemma_seek_resolves_to_greatest_cue(state: ReaderView, ts: u64)
    requires
        state.wf(),
        state.seek_outcome(ts) is Ok,
    ensures
        seek_cue(state.cues, ts) matches Some(i) && {
            &&& 0 <= i < state.cues.len()
            &&& state.seek_outcome(ts) == Ok::<u64, Error>(state.cues[i].offset)
            &&& state.cues[i].start_ts <= ts
            &&& forall|k: int|
                0 <= k < state.cues.len() && (#[trigger] state.cues[k]).start_ts <= ts
                    ==> state.cues[k].start_ts <= state.cues[i].start_ts
            &&& state.after_seek(ts).packet_outcome() matches Ok(packet) && {
                &&& state.cues[i].offset <= packet.pos <= state.cues[i].offset
                    + state.resync_window()
                &&& is_sync_at(state.bytes, packet.pos as int)
                &&& packet.data == state.bytes.subrange(
                    packet.pos as int,
                    state.bytes.len() as int,
                )
            }
        },
{
    lemma_seek_cue(state.cues, ts);
    lemma_seek_lands_in_source(state, ts);
    let i = seek_cue(state.cues, ts)->0;
    assert(state.cues[i].track_id < state.streams.len());
}

/// Once the end of the stream is reported, every further request for a
/// packet reports it again.
pub proof fn lemma_end_of_stream_persists(state: ReaderView, n: nat)
    requires
        state.packet_outcome() == Err::<PacketView, Error>(Error::EndOfStream),
    ensures
        state.after_packets(n) == state,
        state.after_packets(n).packet_outcome() == Err::<PacketView, Error>(Error::EndOfStream),
    decreases n,
{
    if n > 0 {
        lemma_end_of_stream_persists(state.after_packet(), (n - 1) as nat);
    }
}

/// A packet is handed out once: after it, the stream has ended.
pub proof fn lemma_packet_exhausts_source(state: ReaderView)
    requires
        state.packet_outcome() is Ok,
    ensures
        state.after_packet().packet_outcome() == Err::<PacketView, Error>(Error::EndOfStream),
{
}

} // verus!
