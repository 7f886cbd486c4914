//! Format recognition: matching the markers of the registered format
//! descriptors against a source, and opening the reader of the first
//! format that matches.

use vstd::prelude::*;
use crate::demuxer::{mp3_marker, mp3_params, Mp3Reader, MP3_MARKER_OFFSET};
use crate::errors::Error;
use crate::formats::{FormatDescriptor, FormatOptions, ProbeDepth, ProbeResult};
use crate::io::ByteSource;
use crate::reader::ReaderView;
use crate::scan::{first_where, lemma_first_where, lemma_first_where_found, lemma_first_where_none};

verus! {

/// The farthest that a deep probe looks past the declared offset of a
/// marker.
pub const MAX_PROBE_SCAN: usize = 4096;

/// Whether the bytes of `marker` stand in `data` at `at`.
pub open spec fn marker_at(data: Seq<u8>, marker: Seq<u8>, at: int) -> bool {
    &&& 0 <= at
    &&& at + marker.len() <= data.len()
    &&& data.subrange(at, at + marker.len()) == marker
}

/// How far past the declared offset a probe of the given depth looks.
pub open spec fn scan_limit(depth: ProbeDepth) -> nat {
    match depth {
        ProbeDepth::Shallow => 0,
        ProbeDepth::Deep => MAX_PROBE_SCAN as nat,
    }
}

/// Where a probe of the given depth finds the marker: the first position
/// from `offset` on, within the scan limit of the depth, at which the
/// marker stands.
pub open spec fn marker_position(
    data: Seq<u8>,
    marker: Seq<u8>,
    offset: int,
    depth: ProbeDepth,
) -> Option<int> {
    first_where(|p: int| marker_at(data, marker, p), offset, scan_limit(depth))
}

/// Whether a probe of the given depth recognises the format in `data`.
pub open spec fn recognizes(data: Seq<u8>, descriptor: FormatDescriptor, depth: ProbeDepth) -> bool {
    marker_position(data, descriptor.marker@, descriptor.offset as int, depth) is Some
}

/// The format that a probe selects: the first of the registry, in
/// registration order, that recognises the source.
pub open spec fn selected_format(
    registry: Seq<FormatDescriptor>,
    data: Seq<u8>,
    depth: ProbeDepth,
) -> Option<int> {
    first_where(
        |i: int| 0 <= i < registry.len() && recognizes(data, registry[i], depth),
        0,
        registry.len(),
    )
}

/// A marker that stands at its declared offset is found there, at either
/// depth.
pub proof fn lemma_marker_in_place_is_found(
    data: Seq<u8>,
    marker: Seq<u8>,
    offset: int,
    depth: ProbeDepth,
)
    requires
        marker_at(data, marker, offset),
    ensures
        marker_position(data, marker, offset, depth) == Some(offset),
{
}

/// Whatever a shallow probe finds, a deep probe finds at the same place.
pub proof fn lemma_deep_extends_shallow(data: Seq<u8>, marker: Seq<u8>, offset: int)
    ensures
        marker_position(data, marker, offset, ProbeDepth::Shallow) is Some ==> marker_position(
            data,
            marker,
            offset,
            ProbeDepth::Deep,
        ) == marker_position(data, marker, offset, ProbeDepth::Shallow),
{
}

/// A source that carries the marker of a registered format at its declared
/// offset is recognised, and where several registered formats recognise a
/// source, the one registered first is selected.
pub proof fn lemma_first_registered_wins(
    registry: Seq<FormatDescriptor>,
    data: Seq<u8>,
    depth: ProbeDepth,
    i: int,
)
    requires
        0 <= i < registry.len(),
        marker_at(data, registry[i].marker@, registry[i].offset as int),
    ensures
        recognizes(data, registry[i], depth),
        selected_format(registry, data, depth) matches Some(j) && 0 <= j <= i && recognizes(
            data,
            registry[j],
            depth,
        ) && forall|k: int| 0 <= k < j ==> !recognizes(data, #[trigger] registry[k], depth),
{
    lemma_marker_in_place_is_found(data, registry[i].marker@, registry[i].offset as int, depth);
    let holds = |k: int| 0 <= k < registry.len() && recognizes(data, registry[k], depth);
    assert(holds(i));
    lemma_first_where(holds, 0, registry.len());
    let j = first_where(holds, 0, registry.len())->0;
    assert forall|k: int| 0 <= k < j implies !recognizes(data, #[trigger] registry[k], depth) by {
        assert(!holds(k));
    }
}

/// Nothing is selected exactly when no registered format recognises the
/// source.
pub proof fn lemma_nothing_selected(
    registry: Seq<FormatDescriptor>,
    data: Seq<u8>,
    depth: ProbeDepth,
)
    ensures
        selected_format(registry, data, depth) is None <==> (forall|k: int|
            0 <= k < registry.len() ==> !recognizes(data, #[trigger] registry[k], depth)),
{
    let holds = |k: int| 0 <= k < registry.len() && recognizes(data, registry[k], depth);
    lemma_first_where(holds, 0, registry.len());
    if selected_format(registry, data, depth) is None {
        assert forall|k: int| 0 <= k < registry.len() implies !recognizes(
            data,
            #[trigger] registry[k],
            depth,
        ) by {
            assert(!holds(k));
        }
    } else {
        let j = first_where(holds, 0, registry.len())->0;
        assert(holds(j));
    }
}

/// Whether the bytes of `marker` stand in `data` at `at`.
pub fn matches_at(data: &[u8], marker: &[u8], at: usize) -> (r: bool)
    ensures
        r == marker_at(data@, marker@, at as int),
{
    if at > data.len() || data.len() - at < marker.len() {
        return false;
    }
    let mut k: usize = 0;
    while k < marker.len()
        invariant
            k <= marker.len(),
            at + marker.len() <= data.len(),
            forall|q: int| 0 <= q < k ==> data@[at + q] == marker@[q],
        decreases marker.len() - k,
    {
        if data[at + k] != marker[k] {
            assert(data@.subrange(at as int, at + marker.len())[k as int] != marker@[k as int]);
            return false;
        }
        k += 1;
    }
    assert(data@.subrange(at as int, at + marker.len()) =~= marker@);
    true
}

/// Looks for the marker from `offset` on, within the scan limit of the
/// depth, and returns the first position at which it stands.
pub fn locate_marker(data: &[u8], marker: &[u8], offset: usize, depth: ProbeDepth) -> (r: Option<
    usize,
>)
    ensures
        match r {
            Some(p) => marker_position(data@, marker@, offset as int, depth) == Some(p as int),
            None => marker_position(data@, marker@, offset as int, depth) is None,
        },
{
    let ghost holds = |p: int| marker_at(data@, marker@, p);
    let limit: usize = match depth {
        ProbeDepth::Shallow => 0,
        ProbeDepth::Deep => MAX_PROBE_SCAN,
    };
    if offset > data.len() || data.len() - offset < marker.len() {
        proof {
            lemma_first_where_none(holds, offset as int, limit as nat);
        }
        return None;
    }
    // The marker does not fit behind this shift.
    let room: usize = data.len() - offset - marker.len();
    let last: usize = if limit < room {
        limit
    } else {
        room
    };
    let mut k: usize = 0;
    while k <= last
        invariant
            offset + marker.len() <= data.len(),
            room == data.len() - offset - marker.len(),
            last <= limit,
            last <= room,
            k <= last + 1,
            limit == scan_limit(depth),
            holds == (|p: int| marker_at(data@, marker@, p)),
            forall|q: int| offset <= q < offset + k ==> !#[trigger] holds(q),
        decreases last + 1 - k,
    {
        if matches_at(data, marker, offset + k) {
            proof {
                lemma_first_where_found(holds, offset as int, limit as nat, (offset + k) as int);
            }
            return Some(offset + k);
        }
        k += 1;
    }
    proof {
        assert forall|q: int| offset <= q <= offset + limit implies !#[trigger] holds(q) by {
            if q >= offset + k {
                assert(q + marker@.len() > data@.len());
            }
        }
        lemma_first_where_none(holds, offset as int, limit as nat);
    }
    None
}

/// Selects the format of a source: the index of the first descriptor of
/// the registry, in registration order, whose marker a probe of the given
/// depth finds. Fails with `FormatNotRecognized` where none is found.
pub fn select_format(registry: &[FormatDescriptor], data: &[u8], depth: ProbeDepth) -> (r: Result<
    usize,
    Error,
>)
    ensures
        match r {
            Ok(i) => selected_format(registry@, data@, depth) == Some(i as int),
            Err(e) => e == Error::FormatNotRecognized && selected_format(registry@, data@, depth)
                is None,
        },
{
    let ghost holds = |i: int| 0 <= i < registry@.len() && recognizes(data@, registry@[i], depth);
    let mut i: usize = 0;
    while i < registry.len()
        invariant
            i <= registry.len(),
            holds == (|i: int| 0 <= i < registry@.len() && recognizes(data@, registry@[i], depth)),
            forall|k: int| 0 <= k < i ==> !#[trigger] holds(k),
        decreases registry.len() - i,
    {
        let descriptor = &registry[i];
        if locate_marker(data, descriptor.marker.as_slice(), descriptor.offset, depth).is_some() {
            proof {
                lemma_first_where_found(holds, 0, registry@.len(), i as int);
            }
            return Ok(i);
        }
        i += 1;
    }
    proof {
        lemma_first_where_none(holds, 0, registry@.len());
    }
    Err(Error::FormatNotRecognized)
}

/// Recognises the format of a source and opens its reader.
///
/// The source is held against the registered descriptors in registration
/// order. Where a probe of the given depth finds the marker of one, the
/// reader of that format is bound to the source, with the cursor where it
/// was and without resynchronisation, and declares its streams. Fails with
/// `FormatNotRecognized` where no marker is found.
pub fn probe(source: ByteSource, depth: ProbeDepth) -> (r: Result<Mp3Reader, Error>)
    ensures
        match r {
            Ok(reader) => {
                &&& marker_position(
                    source.bytes(),
                    mp3_marker(),
                    MP3_MARKER_OFFSET as int,
                    depth,
                ) is Some
                &&& reader@ == ReaderView::opened(
                    source.bytes(),
                    source.position(),
                    false,
                ).declared(mp3_params())
                &&& reader@.wf()
            },
            Err(e) => {
                &&& e == Error::FormatNotRecognized
                &&& marker_position(
                    source.bytes(),
                    mp3_marker(),
                    MP3_MARKER_OFFSET as int,
                    depth,
                ) is None
            },
        },
{
    let registry = Mp3Reader::supported_formats();
    let selected = select_format(registry.as_slice(), source.as_slice(), depth);
    proof {
        lemma_first_where(
            |i: int| 0 <= i < registry@.len() && recognizes(source.bytes(), registry@[i], depth),
            0,
            registry@.len(),
        );
    }
    match selected {
        Ok(_) => {
            let options = FormatOptions { enable_resync: false };
            let mut reader = Mp3Reader::open(source, &options);
            match reader.probe(depth) {
                Ok(ProbeResult::Supported) => Ok(reader),
                _ => Err(Error::FormatNotRecognized),
            }
        },
        Err(e) => Err(e),
    }
}

} // verus!
