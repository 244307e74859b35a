//! Decision logic of the track-to-stream resolution and of the metadata
//! fetch: which encodings are acceptable, which candidate wins, and when a
//! failed metadata fetch is retried. The network steps themselves — key
//! fetch, source open, metadata RPC — happen outside this crate; their
//! results are handed in as plain outcome values.

use vstd::prelude::*;

use crate::format::{
    is_flac, is_mp3, is_ogg_vorbis, spec_is_flac, spec_is_mp3, spec_is_ogg_vorbis, StreamFormat,
};
use crate::subfile::{header_offset, MemSource, Subfile};

verus! {

/// The three container families a stream may be served from; legacy and
/// unsupported encodings are filtered out before resolution.
pub open spec fn spec_is_supported(format: StreamFormat) -> bool {
    spec_is_mp3(format) || spec_is_ogg_vorbis(format) || spec_is_flac(format)
}

pub fn is_supported_format(format: StreamFormat) -> (b: bool)
    ensures
        b == spec_is_supported(format),
{
    is_mp3(format) || is_ogg_vorbis(format) || is_flac(format)
}

/// The supported formats of `s` from position `i` on, in order.
pub open spec fn supported_from(s: Seq<StreamFormat>, i: int) -> Seq<StreamFormat>
    decreases s.len() - i,
{
    if i < 0 || i >= s.len() {
        Seq::empty()
    } else if spec_is_supported(s[i]) {
        seq![s[i]] + supported_from(s, i + 1)
    } else {
        supported_from(s, i + 1)
    }
}

/// Keep only the supported formats, in their original order.
pub fn filter_supported_formats(available: &Vec<StreamFormat>) -> (r: Vec<StreamFormat>)
    ensures
        r@ == supported_from(available@, 0),
{
    let n: usize = available.len();
    let mut r: Vec<StreamFormat> = Vec::new();
    let mut i: usize = 0;
    while i < n
        invariant
            i <= n,
            n == available@.len(),
            r@ + supported_from(available@, i as int) == supported_from(available@, 0),
        decreases n - i,
    {
        let f: StreamFormat = available[i];
        if is_supported_format(f) {
            r.push(f);
            assert(r@ + supported_from(available@, i + 1) =~= supported_from(available@, 0));
        }
        i += 1;
    }
    assert(r@ =~= supported_from(available@, 0));
    r
}

/// What one candidate encoding's preparation came to: the decryption key was
/// refused, the decrypted source failed to open, or it opened with the given
/// contents.
pub enum CandidateOutcome {
    KeyRefused,
    OpenFailed,
    Opened(MemSource),
}

pub open spec fn outcome_wf(o: CandidateOutcome) -> bool {
    match o {
        CandidateOutcome::Opened(src) => src.wf(),
        _ => true,
    }
}

/// The bytes an outcome delivered, if any.
pub open spec fn outcome_bytes(o: CandidateOutcome) -> Seq<u8> {
    match o {
        CandidateOutcome::Opened(src) => src.data@,
        _ => Seq::empty(),
    }
}

/// A candidate yields a usable stream exactly when its source opened and is
/// long enough to hold the format's header.
pub open spec fn candidate_succeeds(format: StreamFormat, o: CandidateOutcome) -> bool {
    match o {
        CandidateOutcome::Opened(src) => header_offset(format) <= src.data@.len(),
        _ => false,
    }
}

/// Position of the first candidate from `i` on that yields a usable stream.
pub open spec fn first_success(
    formats: Seq<StreamFormat>,
    outcomes: Seq<CandidateOutcome>,
    i: int,
) -> Option<int>
    decreases formats.len() - i,
{
    if i < 0 || i >= formats.len() {
        None
    } else if candidate_succeeds(formats[i], outcomes[i]) {
        Some(i)
    } else {
        first_success(formats, outcomes, i + 1)
    }
}

/// Resolve a track to a stream: walk the candidate encodings in order, each
/// paired with the outcome of its key fetch and source open, and return the
/// adapter of the first candidate for which every step succeeded. A failed
/// candidate is skipped silently; if none succeeds there is no usable stream
/// and the result is `None`.
pub fn get_audio_subfile(candidates: &Vec<StreamFormat>, outcomes: &Vec<CandidateOutcome>) -> (r:
    Option<Subfile>)
    requires
        candidates@.len() == outcomes@.len(),
        forall|i: int| 0 <= i < outcomes@.len() ==> outcome_wf(outcomes@[i]),
    ensures
        match first_success(candidates@, outcomes@, 0) {
            Some(i) => {
                &&& r is Some
                &&& r->0.wf()
                &&& r->0.format == candidates@[i]
                &&& r->0.bytes() == outcome_bytes(outcomes@[i])
                &&& r->0.logical_pos() == 0
                &&& r->0.logical_len() == outcome_bytes(outcomes@[i]).len() - header_offset(
                    candidates@[i],
                )
            },
            None => r is None,
        },
{
    let n: usize = candidates.len();
    let mut idx: usize = 0;
    while idx < n
        invariant
            idx <= n,
            n == candidates@.len(),
            candidates@.len() == outcomes@.len(),
            forall|i: int| 0 <= i < outcomes@.len() ==> outcome_wf(outcomes@[i]),
            first_success(candidates@, outcomes@, 0) == first_success(
                candidates@,
                outcomes@,
                idx as int,
            ),
        decreases n - idx,
    {
        match &outcomes[idx] {
            CandidateOutcome::Opened(src) => {
                let source: MemSource = src.clone();
                let length: u64 = source.len();
                match Subfile::new(source, length, candidates[idx]) {
                    Ok(subfile) => {
                        assert(candidate_succeeds(candidates@[idx as int], outcomes@[idx as int]));
                        return Some(subfile);
                    },
                    Err(_) => {
                        assert(!candidate_succeeds(candidates@[idx as int], outcomes@[idx as int]));
                    },
                }
            },
            _ => {},
        }
        idx += 1;
    }
    None
}

/// The kinds of items a metadata request can name; only the six catalogue
/// kinds can be fetched, anything else is unsupported.
#[derive(Clone, Copy, Debug, PartialEq, Eq, Structural)]
pub enum SpItemType {
    Album,
    Artist,
    Episode,
    Playlist,
    Show,
    Track,
    Other,
}

pub open spec fn spec_metadata_supported(item: SpItemType) -> bool {
    item != SpItemType::Other
}

pub fn metadata_supported(item: SpItemType) -> (b: bool)
    ensures
        b == spec_metadata_supported(item),
{
    !matches!(item, SpItemType::Other)
}

/// What one metadata fetch attempt came to.
#[derive(Clone, Copy, Debug, PartialEq, Eq, Structural)]
pub enum FetchEvent {
    Delivered,
    ResourceExhausted,
    Failed,
}

/// How a metadata request ends.
#[derive(Clone, Copy, Debug, PartialEq, Eq, Structural)]
pub enum MetadataResolution {
    /// The item kind cannot be fetched at all.
    Unsupported,
    /// A fetch attempt delivered the item.
    Delivered,
    /// A fetch attempt failed for a reason that is not retried.
    Failed,
    /// Every attempt so far ran into exhausted resources; keep retrying.
    StillRetrying,
}

/// Position of the first attempt from `i` on that was not retried.
pub open spec fn first_decisive(events: Seq<FetchEvent>, i: int) -> Option<int>
    decreases events.len() - i,
{
    if i < 0 || i >= events.len() {
        None
    } else if events[i] == FetchEvent::ResourceExhausted {
        first_decisive(events, i + 1)
    } else {
        Some(i)
    }
}

/// The retry policy of the metadata fetch: an unsupported item kind fails
/// without any attempt; otherwise attempts are retried as long as they run
/// into exhausted resources, and the first decisive attempt settles the
/// request.
pub fn metadata_outcome(item: SpItemType, events: &Vec<FetchEvent>) -> (r: MetadataResolution)
    ensures
        !spec_metadata_supported(item) ==> r == MetadataResolution::Unsupported,
        spec_metadata_supported(item) ==> match first_decisive(events@, 0) {
            Some(i) => (events@[i] == FetchEvent::Delivered ==> r == MetadataResolution::Delivered)
                && (events@[i] == FetchEvent::Failed ==> r == MetadataResolution::Failed),
            None => r == MetadataResolution::StillRetrying,
        },
{
    if !metadata_supported(item) {
        return MetadataResolution::Unsupported;
    }
    let n: usize = events.len();
    let mut i: usize = 0;
    while i < n
        invariant
            i <= n,
            n == events@.len(),
            spec_metadata_supported(item),
            first_decisive(events@, 0) == first_decisive(events@, i as int),
        decreases n - i,
    {
        match events[i] {
            FetchEvent::Delivered => {
                return MetadataResolution::Delivered;
            },
            FetchEvent::Failed => {
                return MetadataResolution::Failed;
            },
            FetchEvent::ResourceExhausted => {},
        }
        i += 1;
    }
    MetadataResolution::StillRetrying
}

} // verus!
