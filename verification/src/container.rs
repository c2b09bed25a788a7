//! The container input path: reading video stream parameters out of an
//! MP4-family container.
//!
//! Demuxing is delegated to an outside library; the wrappers below hand its
//! findings to the rest of the crate as plain values, one record per track.
//! The verified scan then walks the tracks exactly as the player does:
//! every video track must carry a sample description, the movie timescale
//! must be the expected one, each video track's codec configuration must be
//! AVC and non-empty, and — when the bundled-sample validation is on — the
//! dimensions and codec must match the bundled sample. The last video track
//! determines the reported video spec.

use vstd::prelude::*;

verus! {

/// What kind of media a track carries.
#[derive(Clone, Copy, PartialEq, Eq, Structural, Debug)]
pub enum TrackKind {
    Audio,
    Video,
    Picture,
    AuxiliaryVideo,
    Metadata,
    Unknown,
}

/// The codec identity of a video sample description.
#[derive(Clone, Copy, PartialEq, Eq, Structural, Debug)]
pub enum CodecKind {
    Avc,
    Vp8,
    Vp9,
    Av1,
    Mp4v,
    H263,
    Unknown,
    Other,
}

/// The codec-specific configuration carried by a video sample description.
#[derive(PartialEq, Eq, Debug)]
pub enum CodecConfig {
    /// An AVC decoder configuration record.
    Avc(Vec<u8>),
    /// A VP-family configuration box.
    Vpx { bit_depth: u8, colour_primaries: u8, chroma_subsampling: u8, codec_init: Vec<u8> },
    /// An elementary stream descriptor.
    Esds(Vec<u8>),
    /// An AV1 configuration box.
    Av1,
    /// An H.263 configuration blob.
    H263(Vec<u8>),
}

/// The first video sample description of a track, as plain values.
#[derive(PartialEq, Eq, Debug)]
pub struct VideoSample {
    pub width: u16,
    pub height: u16,
    pub codec: CodecKind,
    pub config: CodecConfig,
}

/// One track of the container.
#[derive(PartialEq, Eq, Debug)]
pub struct TrackSummary {
    pub kind: TrackKind,
    /// The first video sample description, if the track has one.
    pub video: Option<VideoSample>,
}

/// Everything the player reads out of a parsed container.
#[derive(PartialEq, Eq, Debug)]
pub struct ContainerSummary {
    /// The movie timescale in units per second, if the container states one.
    pub timescale: Option<u64>,
    pub tracks: Vec<TrackSummary>,
}

/// The video stream parameters the player renders with.
#[derive(Clone, Copy, PartialEq, Eq, Structural, Debug)]
pub struct VideoSpec {
    pub width: u16,
    pub height: u16,
    pub codec: CodecKind,
}

/// The spec before any video track has been seen.
pub open spec fn default_video_spec() -> VideoSpec {
    VideoSpec { width: 0, height: 0, codec: CodecKind::Unknown }
}

impl Default for VideoSpec {
    /// Zero dimensions and an unknown codec.
    fn default() -> (r: VideoSpec)
        ensures
            r == default_video_spec(),
    {
        VideoSpec { width: 0, height: 0, codec: CodecKind::Unknown }
    }
}

/// The container could not be parsed at all.
#[derive(Clone, Copy, PartialEq, Eq, Structural, Debug)]
pub enum ContainerError {
    Malformed,
}

/// Why the scan of a parsed container was rejected.
#[derive(Clone, Copy, PartialEq, Eq, Structural, Debug)]
pub enum SampleError {
    /// A video track has no video sample description.
    MissingSampleEntry,
    /// The movie timescale is not the expected one.
    UnexpectedTimescale,
    /// The bundled-sample validation found other dimensions.
    UnexpectedDimensions,
    /// The codec is not AVC.
    UnexpectedCodec,
    /// The AVC configuration record is empty.
    EmptyCodecConfig,
}

/// The movie timescale the player insists on, in units per second.
pub const EXPECTED_TIMESCALE: u64 = 1000;

/// The dimensions of the bundled sample container.
pub const SAMPLE_WIDTH: u16 = 640;

/// The height of the bundled sample container.
pub const SAMPLE_HEIGHT: u16 = 360;

/// The video spec a video track's sample description reports.
pub open spec fn sample_spec(t: TrackSummary) -> VideoSpec {
    match t.video {
        Some(v) => VideoSpec { width: v.width, height: v.height, codec: v.codec },
        None => default_video_spec(),
    }
}

/// Whether a track counts as a video track.
pub open spec fn is_video(t: TrackSummary) -> bool {
    t.kind is Video
}

/// The first thing wrong with one track, in the order the scan checks:
/// a missing sample description, then — under the bundled-sample
/// validation — the dimensions and the codec identity, then the codec
/// configuration, which must be AVC and non-empty. Tracks that are not
/// video tracks are never at fault.
pub open spec fn track_error(t: TrackSummary, strict: bool) -> Option<SampleError> {
    if !is_video(t) {
        None
    } else {
        match t.video {
            None => Some(SampleError::MissingSampleEntry),
            Some(v) => if strict && !(v.width == SAMPLE_WIDTH && v.height == SAMPLE_HEIGHT) {
                Some(SampleError::UnexpectedDimensions)
            } else if strict && !(v.codec is Avc) {
                Some(SampleError::UnexpectedCodec)
            } else {
                match v.config {
                    CodecConfig::Avc(b) => if b@.len() == 0 {
                        Some(SampleError::EmptyCodecConfig)
                    } else {
                        None
                    },
                    _ => Some(SampleError::UnexpectedCodec),
                }
            },
        }
    }
}

/// What a successful scan reports: the timescale is the expected one, no
/// track is at fault, and the spec is the last video track's — or the
/// default when the container has no video track.
pub open spec fn scan_ok(c: ContainerSummary, strict: bool, vs: VideoSpec) -> bool {
    &&& c.timescale == Some(EXPECTED_TIMESCALE)
    &&& forall|j: int| 0 <= j < c.tracks@.len()
        ==> #[trigger] track_error(c.tracks@[j], strict) is None
    &&& if forall|j: int| 0 <= j < c.tracks@.len() ==> !is_video(#[trigger] c.tracks@[j]) {
        vs == default_video_spec()
    } else {
        exists|k: int|
            {
                &&& 0 <= k < c.tracks@.len()
                &&& is_video(#[trigger] c.tracks@[k])
                &&& vs == sample_spec(c.tracks@[k])
                &&& forall|j: int| k < j < c.tracks@.len() ==> !is_video(#[trigger] c.tracks@[j])
            }
    }
}

/// What a failed scan reports: a wrong timescale, or — with the timescale
/// right — the fault of the first track that has one.
pub open spec fn scan_err(c: ContainerSummary, strict: bool, e: SampleError) -> bool {
    if e is UnexpectedTimescale {
        c.timescale != Some(EXPECTED_TIMESCALE)
    } else {
        &&& c.timescale == Some(EXPECTED_TIMESCALE)
        &&& exists|i: int|
            {
                &&& 0 <= i < c.tracks@.len()
                &&& #[trigger] track_error(c.tracks@[i], strict) == Some(e)
                &&& forall|j: int| 0 <= j < i
                    ==> #[trigger] track_error(c.tracks@[j], strict) is None
            }
    }
}

/// Walk the parsed container the way the player does. The timescale is
/// checked first; then the tracks in order, each video track against
/// `track_error`, stopping at the first fault; with `strict` set the
/// bundled-sample validation is on. On success the reported spec is that
/// of the last video track, or the default when there is none.
pub fn scan_video_spec(c: &ContainerSummary, strict: bool) -> (r: Result<VideoSpec, SampleError>)
    ensures
        match r {
            Ok(vs) => scan_ok(*c, strict, vs),
            Err(e) => scan_err(*c, strict, e),
        },
{
    let ts_ok = match c.timescale {
        Some(ts) => ts == EXPECTED_TIMESCALE,
        None => false,
    };
    if !ts_ok {
        return Err(SampleError::UnexpectedTimescale);
    }
    let mut vspec = VideoSpec { width: 0, height: 0, codec: CodecKind::Unknown };
    let ghost mut last_video: int = -1;
    let n = c.tracks.len();
    let mut i: usize = 0;
    while i < n
        invariant
            c.timescale == Some(EXPECTED_TIMESCALE),
            n == c.tracks@.len(),
            i <= n,
            forall|j: int| 0 <= j < i ==> #[trigger] track_error(c.tracks@[j], strict) is None,
            if last_video == -1 {
                &&& vspec == default_video_spec()
                &&& forall|j: int| 0 <= j < i ==> !is_video(#[trigger] c.tracks@[j])
            } else {
                &&& 0 <= last_video < i
                &&& is_video(c.tracks@[last_video])
                &&& vspec == sample_spec(c.tracks@[last_video])
                &&& forall|j: int| last_video < j < i ==> !is_video(#[trigger] c.tracks@[j])
            },
        decreases n - i,
    {
        let t = &c.tracks[i];
        if matches!(t.kind, TrackKind::Video) {
            match &t.video {
                None => {
                    assert(track_error(c.tracks@[i as int], strict) == Some(
                        SampleError::MissingSampleEntry,
                    ));
                    return Err(SampleError::MissingSampleEntry);
                },
                Some(v) => {
                    if strict && !(v.width == SAMPLE_WIDTH && v.height == SAMPLE_HEIGHT) {
                        assert(track_error(c.tracks@[i as int], strict) == Some(
                            SampleError::UnexpectedDimensions,
                        ));
                        return Err(SampleError::UnexpectedDimensions);
                    }
                    if strict && !matches!(v.codec, CodecKind::Avc) {
                        assert(track_error(c.tracks@[i as int], strict) == Some(
                            SampleError::UnexpectedCodec,
                        ));
                        return Err(SampleError::UnexpectedCodec);
                    }
                    match &v.config {
                        CodecConfig::Avc(b) => {
                            if b.len() == 0 {
                                assert(track_error(c.tracks@[i as int], strict) == Some(
                                    SampleError::EmptyCodecConfig,
                                ));
                                return Err(SampleError::EmptyCodecConfig);
                            }
                        },
                        _ => {
                            assert(track_error(c.tracks@[i as int], strict) == Some(
                                SampleError::UnexpectedCodec,
                            ));
                            return Err(SampleError::UnexpectedCodec);
                        },
                    }
                    vspec = VideoSpec { width: v.width, height: v.height, codec: v.codec };
                    proof {
                        last_video = i as int;
                    }
                },
            }
        }
        i = i + 1;
    }
    Ok(vspec)
}

#[verifier::external_type_specification]
#[verifier::external_body]
pub struct ExTrack(mp4parse::Track);

#[verifier::external_type_specification]
#[verifier::external_body]
pub struct ExTrackType(mp4parse::TrackType);

#[verifier::external_type_specification]
#[verifier::external_body]
pub struct ExVideoSampleEntry(mp4parse::VideoSampleEntry);

#[verifier::external_type_specification]
#[verifier::external_body]
pub struct ExCodecType(mp4parse::CodecType);

#[verifier::external_type_specification]
#[verifier::external_body]
pub struct ExVideoCodecSpecific(mp4parse::VideoCodecSpecific);

/// What parsing a container yields: a function of the bytes alone, `None`
/// exactly when the demuxer rejects them.
pub uninterp spec fn parsed_container_of(bytes: Seq<u8>) -> Option<ContainerSummary>;

/// Relies on mp4parse::read_mp4: parses an MP4-family container from a byte
/// slice — a pure function of the bytes — and reports the movie timescale
/// and the tracks it found; fails on a malformed container.
#[verifier::external_body]
fn read_container(bytes: &Vec<u8>) -> (r: Result<ContainerSummary, ContainerError>)
    ensures
        match r {
            Ok(c) => parsed_container_of(bytes@) == Some(c),
            Err(_) => parsed_container_of(bytes@) is None,
        },
{
    let mut cursor = std::io::Cursor::new(bytes.as_slice());
    match mp4parse::read_mp4(&mut cursor) {
        Ok(ctx) => Ok(ContainerSummary {
            timescale: ctx.timescale.map(|t| t.0),
            tracks: ctx.tracks.into_iter().map(track_summary).collect(),
        }),
        Err(_) => Err(ContainerError::Malformed),
    }
}

/// Relies on mp4parse::Track's public fields: copies the track type and the
/// first sample description, when it is a video one, into plain values.
#[verifier::external_body]
fn track_summary(t: mp4parse::Track) -> (r: TrackSummary) {
    let kind = track_kind_of(t.track_type);
    let video = match t.stsd.and_then(|s| s.descriptions.into_iter().next()) {
        Some(mp4parse::SampleEntry::Video(v)) => Some(video_sample_summary(v)),
        _ => None,
    };
    TrackSummary { kind, video }
}

/// Relies on mp4parse::TrackType: names its variants, one arm each.
#[verifier::external_body]
fn track_kind_of(k: mp4parse::TrackType) -> (r: TrackKind) {
    match k {
        mp4parse::TrackType::Audio => TrackKind::Audio,
        mp4parse::TrackType::Video => TrackKind::Video,
        mp4parse::TrackType::Picture => TrackKind::Picture,
        mp4parse::TrackType::AuxiliaryVideo => TrackKind::AuxiliaryVideo,
        mp4parse::TrackType::Metadata => TrackKind::Metadata,
        mp4parse::TrackType::Unknown => TrackKind::Unknown,
    }
}

/// Relies on mp4parse::VideoSampleEntry's public fields: copies the
/// dimensions, the codec identity and the codec configuration.
#[verifier::external_body]
fn video_sample_summary(v: mp4parse::VideoSampleEntry) -> (r: VideoSample) {
    VideoSample {
        width: v.width,
        height: v.height,
        codec: codec_kind_of(v.codec_type),
        config: codec_config_of(v.codec_specific),
    }
}

/// Relies on mp4parse::CodecType: names the video codecs the player can
/// meet, one arm each; the audio-only and encrypted ones fold together.
#[verifier::external_body]
fn codec_kind_of(c: mp4parse::CodecType) -> (r: CodecKind) {
    match c {
        mp4parse::CodecType::H264 => CodecKind::Avc,
        mp4parse::CodecType::VP8 => CodecKind::Vp8,
        mp4parse::CodecType::VP9 => CodecKind::Vp9,
        mp4parse::CodecType::AV1 => CodecKind::Av1,
        mp4parse::CodecType::MP4V => CodecKind::Mp4v,
        mp4parse::CodecType::H263 => CodecKind::H263,
        mp4parse::CodecType::Unknown => CodecKind::Unknown,
        _ => CodecKind::Other,
    }
}

/// Relies on mp4parse::VideoCodecSpecific: moves each variant's
/// configuration bytes into plain values, one arm each.
#[verifier::external_body]
fn codec_config_of(c: mp4parse::VideoCodecSpecific) -> (r: CodecConfig) {
    match c {
        mp4parse::VideoCodecSpecific::AVCConfig(b) => CodecConfig::Avc(b.into_iter().collect()),
        mp4parse::VideoCodecSpecific::VPxConfig(v) => CodecConfig::Vpx {
            bit_depth: v.bit_depth,
            colour_primaries: v.colour_primaries,
            chroma_subsampling: v.chroma_subsampling,
            codec_init: v.codec_init.into_iter().collect(),
        },
        mp4parse::VideoCodecSpecific::ESDSConfig(b) => CodecConfig::Esds(b.into_iter().collect()),
        mp4parse::VideoCodecSpecific::AV1Config(_) => CodecConfig::Av1,
        mp4parse::VideoCodecSpecific::H263Config(b) => CodecConfig::H263(b.into_iter().collect()),
    }
}

/// Why the input path as a whole failed: the container could not be
/// parsed, or its tracks failed the scan.
#[derive(Clone, Copy, PartialEq, Eq, Structural, Debug)]
pub enum ContainerScanError {
    Container(ContainerError),
    Sample(SampleError),
}

/// The player's whole input path: parse the container bytes, then scan the
/// tracks for the video spec to render with. Succeeds exactly when the
/// demuxer accepts the bytes and the scan of what it found passes.
pub fn load_video_spec(bytes: &Vec<u8>, strict: bool) -> (r: Result<
    VideoSpec,
    ContainerScanError,
>)
    ensures
        match r {
            Ok(vs) => parsed_container_of(bytes@) matches Some(c) && scan_ok(c, strict, vs),
            Err(ContainerScanError::Container(_)) => parsed_container_of(bytes@) is None,
            Err(ContainerScanError::Sample(e)) => parsed_container_of(bytes@) matches Some(c)
                && scan_err(c, strict, e),
        },
{
    match read_container(bytes) {
        Ok(c) => match scan_video_spec(&c, strict) {
            Ok(vs) => Ok(vs),
            Err(e) => Err(ContainerScanError::Sample(e)),
        },
        Err(e) => Err(ContainerScanError::Container(e)),
    }
}

} // verus!
