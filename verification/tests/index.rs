use demux_core::cues::{check_ordered, find_cue};
use demux_core::errors::Error;
use demux_core::formats::Cue;
use demux_core::io::ByteSource;
use demux_core::sync::{find_sync, sync_at, MAX_RESYNC_DISTANCE};

fn cue(start_ts: u64, offset: u64) -> Cue {
    Cue { track_id: 0, start_ts, offset, points: Vec::new() }
}

fn table(stamps: &[u64]) -> Vec<Cue> {
    stamps.iter().enumerate().map(|(i, ts)| cue(*ts, i as u64)).collect()
}

#[test]
fn ordered_tables() {
    assert!(check_ordered(&table(&[])));
    assert!(check_ordered(&table(&[7])));
    assert!(check_ordered(&table(&[0, 0])));
    assert!(check_ordered(&table(&[1, 2, 2, 3, u64::MAX])));
}

#[test]
fn unordered_tables() {
    assert!(!check_ordered(&table(&[1, 0])));
    assert!(!check_ordered(&table(&[0, 5, 4, 6])));
    assert!(!check_ordered(&table(&[0, 1, 2, 3, 2])));
    assert!(!check_ordered(&table(&[u64::MAX, 0])));
}

#[test]
fn lookup_in_an_empty_table() {
    assert_eq!(find_cue(&table(&[]), 0), None);
    assert_eq!(find_cue(&table(&[]), u64::MAX), None);
}

#[test]
fn lookup_takes_the_last_cue_at_or_before() {
    let cues = table(&[10, 20, 30, 40]);
    assert_eq!(find_cue(&cues, 0), None);
    assert_eq!(find_cue(&cues, 9), None);
    assert_eq!(find_cue(&cues, 10), Some(0));
    assert_eq!(find_cue(&cues, 11), Some(0));
    assert_eq!(find_cue(&cues, 19), Some(0));
    assert_eq!(find_cue(&cues, 20), Some(1));
    assert_eq!(find_cue(&cues, 35), Some(2));
    assert_eq!(find_cue(&cues, 40), Some(3));
    assert_eq!(find_cue(&cues, u64::MAX), Some(3));
}

#[test]
fn lookup_among_equal_timestamps_takes_the_last() {
    let cues = table(&[5, 5, 5, 9, 9]);
    assert_eq!(find_cue(&cues, 4), None);
    assert_eq!(find_cue(&cues, 5), Some(2));
    assert_eq!(find_cue(&cues, 8), Some(2));
    assert_eq!(find_cue(&cues, 9), Some(4));
}

#[test]
fn lookup_agrees_with_a_linear_scan() {
    let stamps: Vec<u64> = (0..200u64).map(|i| (i * i) / 7).collect();
    let cues = table(&stamps);
    assert!(check_ordered(&cues));
    for ts in 0..6000u64 {
        let expected = stamps.iter().rposition(|s| *s <= ts);
        assert_eq!(find_cue(&cues, ts), expected, "target {ts}");
    }
}

#[test]
fn sync_pattern_in_place() {
    assert!(sync_at(&[0xFF, 0xFB, 0x90, 0x00], 0));
    assert!(sync_at(&[0xFF, 0xE0], 0));
    assert!(sync_at(&[0xFF, 0xFF], 0));
    assert!(sync_at(&[0x00, 0xFF, 0xF3], 1));
}

#[test]
fn no_sync_pattern_in_place() {
    assert!(!sync_at(&[], 0));
    assert!(!sync_at(&[0xFF], 0));
    assert!(!sync_at(&[0xFF, 0xDF], 0));
    assert!(!sync_at(&[0xFE, 0xFB], 0));
    assert!(!sync_at(&[0xFF, 0x00, 0xFF, 0xFB], 1));
    assert!(!sync_at(&[0xFF, 0xFB], 1));
    assert!(!sync_at(&[0xFF, 0xFB], 2));
    assert!(!sync_at(&[0xFF, 0xFB], usize::MAX));
}

#[test]
fn sync_search_finds_the_first() {
    let data = [0x00, 0xFF, 0x00, 0xFF, 0xFB, 0xFF, 0xFA];
    assert_eq!(find_sync(&data, 0, 10), Some(3));
    assert_eq!(find_sync(&data, 3, 0), Some(3));
    assert_eq!(find_sync(&data, 4, 10), Some(5));
    assert_eq!(find_sync(&data, 6, 10), None);
}

#[test]
fn sync_search_respects_the_window() {
    let data = [0x00, 0x00, 0x00, 0xFF, 0xFB];
    assert_eq!(find_sync(&data, 0, 0), None);
    assert_eq!(find_sync(&data, 0, 2), None);
    assert_eq!(find_sync(&data, 0, 3), Some(3));
    assert_eq!(find_sync(&data, 1, 2), Some(3));
    assert_eq!(find_sync(&data, 1, 1), None);
    assert_eq!(find_sync(&data, 0, usize::MAX), Some(3));
}

#[test]
fn sync_search_past_the_end() {
    let data = [0xFF, 0xFB];
    assert_eq!(find_sync(&data, 2, 5), None);
    assert_eq!(find_sync(&data, 100, 5), None);
    assert_eq!(find_sync(&data, usize::MAX, usize::MAX), None);
    assert_eq!(find_sync(&[], 0, 5), None);
}

#[test]
fn sync_search_at_the_resync_distance() {
    let mut data = vec![0u8; MAX_RESYNC_DISTANCE + 3];
    data[MAX_RESYNC_DISTANCE] = 0xFF;
    data[MAX_RESYNC_DISTANCE + 1] = 0xE0;
    assert_eq!(find_sync(&data, 0, MAX_RESYNC_DISTANCE), Some(MAX_RESYNC_DISTANCE));
    assert_eq!(find_sync(&data, 0, MAX_RESYNC_DISTANCE - 1), None);
}

#[test]
fn source_starts_at_the_beginning() {
    let source = ByteSource::new(vec![1, 2, 3]);
    assert_eq!(source.len(), 3);
    assert_eq!(source.pos(), 0);
    assert_eq!(source.as_slice(), &[1, 2, 3]);
}

#[test]
fn source_seek_within_bounds() {
    let mut source = ByteSource::new(vec![1, 2, 3]);
    assert_eq!(source.seek(2), Ok(()));
    assert_eq!(source.pos(), 2);
    assert_eq!(source.seek(3), Ok(()));
    assert_eq!(source.pos(), 3);
    assert_eq!(source.seek(0), Ok(()));
    assert_eq!(source.pos(), 0);
}

#[test]
fn source_seek_beyond_the_end_fails() {
    let mut source = ByteSource::new(vec![1, 2, 3]);
    assert_eq!(source.seek(1), Ok(()));
    assert_eq!(source.seek(4), Err(Error::Io));
    assert_eq!(source.pos(), 1);
    assert_eq!(source.seek(usize::MAX), Err(Error::Io));
    assert_eq!(source.pos(), 1);
    assert_eq!(source.as_slice(), &[1, 2, 3]);
}

#[test]
fn source_hands_out_the_rest_once() {
    let mut source = ByteSource::new(vec![1, 2, 3, 4]);
    assert_eq!(source.seek(1), Ok(()));
    assert_eq!(source.take_rest(), &[2, 3, 4]);
    assert_eq!(source.pos(), 4);
    assert_eq!(source.take_rest(), &[] as &[u8]);
    assert_eq!(source.pos(), 4);
    assert_eq!(source.len(), 4);
}

#[test]
fn empty_source() {
    let mut source = ByteSource::new(Vec::new());
    assert_eq!(source.len(), 0);
    assert_eq!(source.pos(), 0);
    assert_eq!(source.seek(0), Ok(()));
    assert_eq!(source.seek(1), Err(Error::Io));
    assert_eq!(source.take_rest(), &[] as &[u8]);
}
