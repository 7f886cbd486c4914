use demux_core::codecs::{CodecParameters, CodecType, Layout};
use demux_core::demuxer::{Mp3Reader, MP3_MARKER_OFFSET};
use demux_core::errors::Error;
use demux_core::formats::{FormatDescriptor, ProbeDepth, Stream};
use demux_core::io::ByteSource;
use demux_core::probe::{locate_marker, matches_at, probe, select_format, MAX_PROBE_SCAN};

/// A frame header of layer 3 at 44.1 kHz, and nothing behind it.
const FRAME: [u8; 4] = [0xFF, 0xFB, 0x90, 0x00];

fn marked(lead: usize) -> Vec<u8> {
    let mut data = vec![0u8; lead];
    data.extend_from_slice(b"MPEG    ");
    data.extend_from_slice(&FRAME);
    data
}

fn descriptor(marker: &[u8], offset: usize) -> FormatDescriptor {
    FormatDescriptor {
        extensions: vec!["bin"],
        mime_types: vec!["application/octet-stream"],
        marker: marker.to_vec(),
        offset,
    }
}

#[test]
fn the_registered_descriptor() {
    let formats = Mp3Reader::supported_formats();
    assert_eq!(formats.len(), 1);
    assert_eq!(formats[0].extensions, vec!["mp3"]);
    assert_eq!(formats[0].mime_types, vec!["audio/mp3"]);
    assert_eq!(formats[0].marker, b"MPEG    ".to_vec());
    assert_eq!(formats[0].offset, 4);
    assert_eq!(MP3_MARKER_OFFSET, 4);
}

#[test]
fn marker_in_place() {
    let data = b"....MPEG    rest";
    assert!(matches_at(data, b"MPEG    ", 4));
    assert!(matches_at(data, b"rest", 12));
    assert!(matches_at(data, b"", 0));
    assert!(matches_at(data, b"", 16));
    assert!(matches_at(data, data, 0));
}

#[test]
fn marker_not_in_place() {
    let data = b"....MPEG    rest";
    assert!(!matches_at(data, b"MPEG    ", 3));
    assert!(!matches_at(data, b"MPEG    ", 5));
    assert!(!matches_at(data, b"MPEG   !", 4));
    assert!(!matches_at(data, b"!PEG    ", 4));
    assert!(!matches_at(data, b"rest", 13));
    assert!(!matches_at(data, b"rest!", 12));
    assert!(!matches_at(data, b"", 17));
    assert!(!matches_at(data, b"r", usize::MAX));
    assert!(!matches_at(b"", b"M", 0));
}

#[test]
fn shallow_probe_looks_at_the_offset_only() {
    assert_eq!(locate_marker(&marked(4), b"MPEG    ", 4, ProbeDepth::Shallow), Some(4));
    assert_eq!(locate_marker(&marked(5), b"MPEG    ", 4, ProbeDepth::Shallow), None);
    assert_eq!(locate_marker(&marked(3), b"MPEG    ", 4, ProbeDepth::Shallow), None);
    assert_eq!(locate_marker(&marked(0), b"MPEG    ", 0, ProbeDepth::Shallow), Some(0));
}

#[test]
fn deep_probe_scans_forward() {
    assert_eq!(locate_marker(&marked(4), b"MPEG    ", 4, ProbeDepth::Deep), Some(4));
    assert_eq!(locate_marker(&marked(5), b"MPEG    ", 4, ProbeDepth::Deep), Some(5));
    assert_eq!(locate_marker(&marked(300), b"MPEG    ", 4, ProbeDepth::Deep), Some(300));
    assert_eq!(locate_marker(&marked(3), b"MPEG    ", 4, ProbeDepth::Deep), None);
}

#[test]
fn deep_probe_takes_the_first_marker() {
    let mut data = marked(10);
    data.extend_from_slice(b"MPEG    ");
    assert_eq!(locate_marker(&data, b"MPEG    ", 4, ProbeDepth::Deep), Some(10));
}

#[test]
fn deep_probe_stops_at_the_scan_limit() {
    let at_limit = marked(4 + MAX_PROBE_SCAN);
    assert_eq!(
        locate_marker(&at_limit, b"MPEG    ", 4, ProbeDepth::Deep),
        Some(4 + MAX_PROBE_SCAN)
    );
    let beyond = marked(4 + MAX_PROBE_SCAN + 1);
    assert_eq!(locate_marker(&beyond, b"MPEG    ", 4, ProbeDepth::Deep), None);
}

#[test]
fn marker_search_in_a_short_source() {
    assert_eq!(locate_marker(b"", b"MPEG    ", 4, ProbeDepth::Deep), None);
    assert_eq!(locate_marker(b"....MPEG", b"MPEG    ", 4, ProbeDepth::Deep), None);
    assert_eq!(locate_marker(b"MPEG", b"MPEG", usize::MAX, ProbeDepth::Deep), None);
    assert_eq!(locate_marker(b"MPEG", b"", 4, ProbeDepth::Shallow), Some(4));
    assert_eq!(locate_marker(b"MPEG", b"", 5, ProbeDepth::Deep), None);
}

#[test]
fn the_first_registered_format_wins() {
    let data = b"RIFF....WAVEfmt ";
    let registry = vec![
        descriptor(b"OggS", 0),
        descriptor(b"WAVE", 8),
        descriptor(b"RIFF", 0),
        descriptor(b"WAVE", 8),
    ];
    assert_eq!(select_format(&registry, data, ProbeDepth::Shallow), Ok(1));
    assert_eq!(select_format(&registry, data, ProbeDepth::Deep), Ok(1));

    let reversed = vec![descriptor(b"RIFF", 0), descriptor(b"WAVE", 8)];
    assert_eq!(select_format(&reversed, data, ProbeDepth::Shallow), Ok(0));
}

#[test]
fn depth_decides_between_formats() {
    let data = b"..fLaC....OggS";
    let registry = vec![descriptor(b"fLaC", 0), descriptor(b"OggS", 10)];
    assert_eq!(select_format(&registry, data, ProbeDepth::Shallow), Ok(1));
    assert_eq!(select_format(&registry, data, ProbeDepth::Deep), Ok(0));
}

#[test]
fn no_format_is_recognized() {
    let registry = vec![descriptor(b"OggS", 0), descriptor(b"fLaC", 0)];
    assert_eq!(
        select_format(&registry, b"RIFF....WAVE", ProbeDepth::Shallow),
        Err(Error::FormatNotRecognized)
    );
    assert_eq!(
        select_format(&registry, b"RIFF....WAVE", ProbeDepth::Deep),
        Err(Error::FormatNotRecognized)
    );
    assert_eq!(select_format(&[], b"OggS", ProbeDepth::Deep), Err(Error::FormatNotRecognized));
    assert_eq!(select_format(&registry, b"", ProbeDepth::Deep), Err(Error::FormatNotRecognized));
}

#[test]
fn every_registered_descriptor_is_recognized_in_place() {
    let registry = Mp3Reader::supported_formats();
    for (i, format) in registry.iter().enumerate() {
        let mut data = vec![0xAAu8; format.offset];
        data.extend_from_slice(&format.marker);
        assert_eq!(select_format(&registry, &data, ProbeDepth::Shallow), Ok(i));
        assert_eq!(select_format(&registry, &data, ProbeDepth::Deep), Ok(i));
        assert!(probe(ByteSource::new(data.clone()), ProbeDepth::Shallow).is_ok());
        assert!(probe(ByteSource::new(data), ProbeDepth::Deep).is_ok());
    }
}

#[test]
fn marker_and_one_frame() {
    let reader = match probe(ByteSource::new(marked(4)), ProbeDepth::Shallow) {
        Ok(reader) => reader,
        Err(e) => panic!("not recognized: {e:?}"),
    };
    let expected = Stream {
        id: 0,
        codec_params: CodecParameters {
            codec: Some(CodecType::Mp3),
            sample_rate: Some(44_100),
            channel_layout: Some(Layout::Stereo),
            max_frames_per_packet: Some(1152),
            bits_per_sample: None,
        },
    };
    assert_eq!(reader.streams(), &[expected]);
    assert!(reader.tags().is_empty());
    assert!(reader.visuals().is_empty());
    assert!(reader.cues().is_empty());
}

#[test]
fn probe_leaves_the_cursor_alone() {
    let mut source = ByteSource::new(marked(4));
    assert_eq!(source.seek(12), Ok(()));
    let mut reader = match probe(source, ProbeDepth::Shallow) {
        Ok(reader) => reader,
        Err(e) => panic!("not recognized: {e:?}"),
    };
    let packet = match reader.next_packet() {
        Ok(packet) => packet,
        Err(e) => panic!("no packet: {e:?}"),
    };
    assert_eq!(packet.stream_id, 0);
    assert_eq!(packet.pos, 12);
    assert_eq!(packet.data, &FRAME);
}

#[test]
fn probe_behind_leading_data() {
    assert_eq!(
        probe(ByteSource::new(marked(40)), ProbeDepth::Shallow).err(),
        Some(Error::FormatNotRecognized)
    );
    let reader = match probe(ByteSource::new(marked(40)), ProbeDepth::Deep) {
        Ok(reader) => reader,
        Err(e) => panic!("not recognized: {e:?}"),
    };
    assert_eq!(reader.streams().len(), 1);
}

#[test]
fn probe_of_an_unmarked_source() {
    for data in [Vec::new(), b"MPEG    ".to_vec(), b"....MPEG   ".to_vec(), vec![0u8; 10_000]] {
        assert_eq!(
            probe(ByteSource::new(data.clone()), ProbeDepth::Shallow).err(),
            Some(Error::FormatNotRecognized)
        );
        assert_eq!(
            probe(ByteSource::new(data), ProbeDepth::Deep).err(),
            Some(Error::FormatNotRecognized)
        );
    }
}
