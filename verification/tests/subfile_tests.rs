use spotstream::format::StreamFormat;
use spotstream::subfile::{MemSource, SeekFrom, StreamError, Subfile};

fn source_of(len: usize) -> MemSource {
    // byte i holds i % 251, so every position is recognisable
    let data: Vec<u8> = (0..len).map(|i| (i % 251) as u8).collect();
    MemSource::new(data)
}

#[test]
fn mem_source_read_and_seek() {
    let mut s = MemSource::new(vec![10, 11, 12, 13, 14]);
    assert_eq!(s.len(), 5);
    assert_eq!(s.read(2), vec![10, 11]);
    assert_eq!(s.read(10), vec![12, 13, 14]);
    assert_eq!(s.read(1), Vec::<u8>::new());
    assert_eq!(s.seek(SeekFrom::Start(3)), Ok(3));
    assert_eq!(s.read(1), vec![13]);
    assert_eq!(s.seek(SeekFrom::End(2)), Ok(3));
    assert_eq!(s.seek(SeekFrom::Current(-1)), Ok(2));
    assert_eq!(s.seek(SeekFrom::Start(6)), Err(StreamError::Io));
    assert_eq!(s.seek(SeekFrom::Current(-10)), Err(StreamError::Io));
    // failed seeks do not move the position
    assert_eq!(s.read(1), vec![12]);
}

#[test]
fn header_bearing_logical_length() {
    let sub = Subfile::new(source_of(1000), 1000, StreamFormat::OggVorbis160).unwrap();
    assert_eq!(sub.logical_length(), 833);
}

#[test]
fn plain_format_logical_length() {
    let sub = Subfile::new(source_of(1000), 1000, StreamFormat::Mp3320).unwrap();
    assert_eq!(sub.logical_length(), 1000);
}

#[test]
fn construction_rejects_source_shorter_than_header() {
    let sub = Subfile::new(source_of(100), 100, StreamFormat::OggVorbis96);
    assert!(matches!(sub, Err(StreamError::Io)));
    // 167 bytes exactly leave an empty logical view
    let sub = Subfile::new(source_of(167), 167, StreamFormat::OggVorbis96).unwrap();
    assert_eq!(sub.logical_length(), 0);
    let mut sub = sub;
    assert_eq!(sub.read(8), Vec::<u8>::new());
}

#[test]
fn round_trip_header_bearing() {
    // a synthetic source: a 167-byte prefix tagged as the header-bearing
    // format, then a recognisable payload
    let mut data = vec![0xEEu8; 167];
    let payload: Vec<u8> = (0..300).map(|i| (i % 251) as u8).collect();
    data.extend_from_slice(&payload);
    let len = data.len() as u64;
    let mut sub = Subfile::new(MemSource::new(data), len, StreamFormat::OggVorbis320).unwrap();
    assert_eq!(sub.logical_length(), 300);
    let mut all = Vec::new();
    loop {
        let chunk = sub.read(64);
        if chunk.is_empty() {
            break;
        }
        all.extend_from_slice(&chunk);
    }
    assert_eq!(all, payload);
}

#[test]
fn from_start_seek_reads_at_absolute_position() {
    let mut sub = Subfile::new(source_of(1000), 1000, StreamFormat::OggVorbis96).unwrap();
    assert_eq!(sub.seek(SeekFrom::Start(10)), Ok(10));
    let got = sub.read(5);
    // the same bytes the underlying source holds at absolute 10 + 167
    let expect: Vec<u8> = (177..182).map(|i| (i % 251) as u8).collect();
    assert_eq!(got, expect);
    // seeking to the logical end is valid and reads nothing
    assert_eq!(sub.seek(SeekFrom::Start(833)), Ok(833));
    assert_eq!(sub.read(5), Vec::<u8>::new());
    // past the logical end the underlying seek fails
    assert_eq!(sub.seek(SeekFrom::Start(834)), Err(StreamError::Io));
}

#[test]
fn end_seek_scenario() {
    let mut sub = Subfile::new(source_of(1000), 1000, StreamFormat::OggVorbis160).unwrap();
    assert_eq!(sub.logical_length(), 833);
    // more bytes from the end than the logical length: invalid input
    assert_eq!(sub.seek(SeekFrom::End(900)), Err(StreamError::InvalidInput));
    // ... and the position did not move
    assert_eq!(sub.seek(SeekFrom::Current(0)), Ok(0));
    // 800 bytes before the end is fine
    assert_eq!(sub.seek(SeekFrom::End(800)), Ok(33));
    let got = sub.read(1000);
    // the last 800 logical bytes, i.e. the underlying bytes from 200 on
    let expect: Vec<u8> = (200..1000).map(|i| (i % 251) as u8).collect();
    assert_eq!(got, expect);
}

#[test]
fn end_seek_exact_logical_length_is_start() {
    let mut sub = Subfile::new(source_of(1000), 1000, StreamFormat::OggVorbis160).unwrap();
    assert_eq!(sub.seek(SeekFrom::End(833)), Ok(0));
    // one more byte would expose the header
    assert_eq!(sub.seek(SeekFrom::End(834)), Err(StreamError::InvalidInput));
    // a negative distance addresses past the end: an I/O failure
    assert_eq!(sub.seek(SeekFrom::End(-1)), Err(StreamError::Io));
}

#[test]
fn zero_relative_seek_is_identity() {
    let mut sub = Subfile::new(source_of(500), 500, StreamFormat::OggVorbis96).unwrap();
    assert_eq!(sub.seek(SeekFrom::Current(0)), Ok(0));
    assert_eq!(sub.seek(SeekFrom::Start(42)), Ok(42));
    assert_eq!(sub.seek(SeekFrom::Current(0)), Ok(42));
    assert_eq!(sub.seek(SeekFrom::Current(0)), Ok(42));
    let _ = sub.read(10);
    assert_eq!(sub.seek(SeekFrom::Current(0)), Ok(52));
}

#[test]
fn relative_seek_cannot_enter_header() {
    let mut sub = Subfile::new(source_of(500), 500, StreamFormat::OggVorbis96).unwrap();
    assert_eq!(sub.seek(SeekFrom::Start(5)), Ok(5));
    assert_eq!(sub.seek(SeekFrom::Current(-3)), Ok(2));
    assert_eq!(sub.seek(SeekFrom::Current(-3)), Err(StreamError::InvalidInput));
    assert_eq!(sub.seek(SeekFrom::Current(0)), Ok(2));
}

#[test]
fn format_tag_is_kept() {
    let sub = Subfile::new(source_of(10), 10, StreamFormat::Flac).unwrap();
    assert_eq!(sub.format, StreamFormat::Flac);
}
