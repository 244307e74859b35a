use spotstream::format::StreamFormat;
use spotstream::resolve::{
    filter_supported_formats, get_audio_subfile, is_supported_format, metadata_outcome,
    metadata_supported, CandidateOutcome, FetchEvent, MetadataResolution, SpItemType,
};
use spotstream::subfile::MemSource;

#[test]
fn supported_families() {
    assert!(is_supported_format(StreamFormat::Mp3320));
    assert!(is_supported_format(StreamFormat::OggVorbis96));
    assert!(is_supported_format(StreamFormat::Flac));
    assert!(!is_supported_format(StreamFormat::Aac24));
    assert!(!is_supported_format(StreamFormat::Aac48));
}

#[test]
fn filter_keeps_supported_formats_in_order() {
    let available = vec![
        StreamFormat::Aac24,
        StreamFormat::Mp3320,
        StreamFormat::OggVorbis96,
        StreamFormat::Flac,
        StreamFormat::Aac48,
    ];
    let kept = filter_supported_formats(&available);
    assert_eq!(
        kept,
        vec![StreamFormat::Mp3320, StreamFormat::OggVorbis96, StreamFormat::Flac]
    );
}

#[test]
fn resolution_returns_third_candidate_when_first_two_fail_key_fetch() {
    let candidates = vec![
        StreamFormat::OggVorbis320,
        StreamFormat::Mp3320,
        StreamFormat::Flac,
    ];
    let bytes: Vec<u8> = (0..50u8).collect();
    let outcomes = vec![
        CandidateOutcome::KeyRefused,
        CandidateOutcome::KeyRefused,
        CandidateOutcome::Opened(MemSource::new(bytes.clone())),
    ];
    let sub = get_audio_subfile(&candidates, &outcomes).expect("third candidate must win");
    assert_eq!(sub.format, StreamFormat::Flac);
    assert_eq!(sub.logical_length(), 50);
}

#[test]
fn resolution_skips_failed_open_and_short_source() {
    // the second candidate opened, but is too short for the Ogg header, so
    // the adapter cannot be constructed and the third candidate wins
    let candidates = vec![
        StreamFormat::Mp3160,
        StreamFormat::OggVorbis160,
        StreamFormat::Mp3320,
    ];
    let outcomes = vec![
        CandidateOutcome::OpenFailed,
        CandidateOutcome::Opened(MemSource::new(vec![1, 2, 3])),
        CandidateOutcome::Opened(MemSource::new(vec![9, 9, 9, 9])),
    ];
    let sub = get_audio_subfile(&candidates, &outcomes).expect("third candidate must win");
    assert_eq!(sub.format, StreamFormat::Mp3320);
    assert_eq!(sub.logical_length(), 4);
}

#[test]
fn resolution_takes_the_first_usable_candidate() {
    let candidates = vec![StreamFormat::OggVorbis320, StreamFormat::Flac];
    let outcomes = vec![
        CandidateOutcome::Opened(MemSource::new(vec![0u8; 200])),
        CandidateOutcome::Opened(MemSource::new(vec![1u8; 300])),
    ];
    let sub = get_audio_subfile(&candidates, &outcomes).expect("first candidate must win");
    assert_eq!(sub.format, StreamFormat::OggVorbis320);
    assert_eq!(sub.logical_length(), 200 - 167);
}

#[test]
fn resolution_exhaustion_yields_none() {
    let candidates = vec![StreamFormat::Mp396, StreamFormat::OggVorbis96];
    let outcomes = vec![CandidateOutcome::KeyRefused, CandidateOutcome::OpenFailed];
    assert!(get_audio_subfile(&candidates, &outcomes).is_none());
    assert!(get_audio_subfile(&Vec::new(), &Vec::new()).is_none());
}

#[test]
fn metadata_kinds() {
    assert!(metadata_supported(SpItemType::Album));
    assert!(metadata_supported(SpItemType::Artist));
    assert!(metadata_supported(SpItemType::Episode));
    assert!(metadata_supported(SpItemType::Playlist));
    assert!(metadata_supported(SpItemType::Show));
    assert!(metadata_supported(SpItemType::Track));
    assert!(!metadata_supported(SpItemType::Other));
}

#[test]
fn metadata_retry_policy() {
    let events = vec![
        FetchEvent::ResourceExhausted,
        FetchEvent::ResourceExhausted,
        FetchEvent::Delivered,
    ];
    assert_eq!(
        metadata_outcome(SpItemType::Album, &events),
        MetadataResolution::Delivered
    );
    let events = vec![FetchEvent::ResourceExhausted, FetchEvent::Failed];
    assert_eq!(
        metadata_outcome(SpItemType::Track, &events),
        MetadataResolution::Failed
    );
    let events = vec![FetchEvent::ResourceExhausted];
    assert_eq!(
        metadata_outcome(SpItemType::Show, &events),
        MetadataResolution::StillRetrying
    );
    assert_eq!(
        metadata_outcome(SpItemType::Playlist, &Vec::new()),
        MetadataResolution::StillRetrying
    );
    // an unsupported kind fails before any attempt is looked at
    assert_eq!(
        metadata_outcome(SpItemType::Other, &vec![FetchEvent::Delivered]),
        MetadataResolution::Unsupported
    );
}
