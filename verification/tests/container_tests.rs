use cosy::container::{
    load_video_spec, scan_video_spec, CodecConfig, CodecKind, ContainerError, ContainerScanError,
    ContainerSummary, SampleError, TrackKind, TrackSummary, VideoSample, VideoSpec,
};

fn avc_track(width: u16, height: u16) -> TrackSummary {
    TrackSummary {
        kind: TrackKind::Video,
        video: Some(VideoSample {
            width,
            height,
            codec: CodecKind::Avc,
            config: CodecConfig::Avc(vec![1, 100, 0, 31]),
        }),
    }
}

fn audio_track() -> TrackSummary {
    TrackSummary { kind: TrackKind::Audio, video: None }
}

#[test]
fn sample_container_reports_expected_dimensions_and_codec() {
    let c = ContainerSummary {
        timescale: Some(1000),
        tracks: vec![audio_track(), avc_track(640, 360)],
    };
    let spec = scan_video_spec(&c, true).unwrap();
    assert_eq!(spec, VideoSpec { width: 640, height: 360, codec: CodecKind::Avc });
}

#[test]
fn last_video_track_wins() {
    let c = ContainerSummary {
        timescale: Some(1000),
        tracks: vec![avc_track(640, 360), audio_track(), avc_track(1280, 720)],
    };
    let spec = scan_video_spec(&c, false).unwrap();
    assert_eq!(spec, VideoSpec { width: 1280, height: 720, codec: CodecKind::Avc });
}

#[test]
fn no_video_track_yields_default_spec() {
    let c = ContainerSummary { timescale: Some(1000), tracks: vec![audio_track()] };
    let spec = scan_video_spec(&c, true).unwrap();
    assert_eq!(spec, VideoSpec { width: 0, height: 0, codec: CodecKind::Unknown });
}

#[test]
fn wrong_timescale_is_rejected() {
    let c = ContainerSummary { timescale: Some(600), tracks: vec![avc_track(640, 360)] };
    assert_eq!(scan_video_spec(&c, true), Err(SampleError::UnexpectedTimescale));
    let missing = ContainerSummary { timescale: None, tracks: Vec::new() };
    assert_eq!(scan_video_spec(&missing, false), Err(SampleError::UnexpectedTimescale));
}

#[test]
fn video_track_without_sample_entry_is_rejected() {
    let c = ContainerSummary {
        timescale: Some(1000),
        tracks: vec![TrackSummary { kind: TrackKind::Video, video: None }],
    };
    assert_eq!(scan_video_spec(&c, false), Err(SampleError::MissingSampleEntry));
}

#[test]
fn strict_scan_rejects_other_dimensions() {
    let c = ContainerSummary { timescale: Some(1000), tracks: vec![avc_track(1280, 720)] };
    assert_eq!(scan_video_spec(&c, true), Err(SampleError::UnexpectedDimensions));
    // The relaxed scan accepts them.
    assert_eq!(
        scan_video_spec(&c, false).unwrap(),
        VideoSpec { width: 1280, height: 720, codec: CodecKind::Avc },
    );
}

#[test]
fn strict_scan_rejects_other_codecs() {
    let c = ContainerSummary {
        timescale: Some(1000),
        tracks: vec![TrackSummary {
            kind: TrackKind::Video,
            video: Some(VideoSample {
                width: 640,
                height: 360,
                codec: CodecKind::Vp9,
                config: CodecConfig::Vpx {
                    bit_depth: 8,
                    colour_primaries: 1,
                    chroma_subsampling: 1,
                    codec_init: Vec::new(),
                },
            }),
        }],
    };
    assert_eq!(scan_video_spec(&c, true), Err(SampleError::UnexpectedCodec));
}

#[test]
fn non_avc_configuration_is_rejected_even_relaxed() {
    let c = ContainerSummary {
        timescale: Some(1000),
        tracks: vec![TrackSummary {
            kind: TrackKind::Video,
            video: Some(VideoSample {
                width: 640,
                height: 360,
                codec: CodecKind::Mp4v,
                config: CodecConfig::Esds(vec![3, 1]),
            }),
        }],
    };
    assert_eq!(scan_video_spec(&c, false), Err(SampleError::UnexpectedCodec));
}

#[test]
fn empty_avc_configuration_is_rejected() {
    let c = ContainerSummary {
        timescale: Some(1000),
        tracks: vec![TrackSummary {
            kind: TrackKind::Video,
            video: Some(VideoSample {
                width: 640,
                height: 360,
                codec: CodecKind::Avc,
                config: CodecConfig::Avc(Vec::new()),
            }),
        }],
    };
    assert_eq!(scan_video_spec(&c, false), Err(SampleError::EmptyCodecConfig));
}

#[test]
fn first_faulty_track_decides_the_error() {
    let c = ContainerSummary {
        timescale: Some(1000),
        tracks: vec![
            TrackSummary { kind: TrackKind::Video, video: None },
            avc_track(1280, 720),
        ],
    };
    assert_eq!(scan_video_spec(&c, true), Err(SampleError::MissingSampleEntry));
}

/// An ISO base-media box: 32-bit big-endian size, four-byte name, content.
fn mp4_box(name: &[u8; 4], content: &[u8]) -> Vec<u8> {
    let mut b = Vec::new();
    b.extend_from_slice(&(content.len() as u32 + 8).to_be_bytes());
    b.extend_from_slice(name);
    b.extend_from_slice(content);
    b
}

/// A minimal container holding one 640x360 AVC video track and a movie
/// timescale of 1000 units per second.
fn sample_container_bytes() -> Vec<u8> {
    // Movie header, version 0: creation/modification times, timescale 1000,
    // duration, then the remaining fixed fields zeroed.
    let mut mvhd = vec![0u8; 4];
    mvhd.extend_from_slice(&[0u8; 8]);
    mvhd.extend_from_slice(&1000u32.to_be_bytes());
    mvhd.extend_from_slice(&0u32.to_be_bytes());
    mvhd.extend_from_slice(&[0u8; 80]);

    // Track header, version 0.
    let tkhd = vec![0u8; 84];

    // Handler box: handler type "vide", empty name.
    let mut hdlr = vec![0u8; 4];
    hdlr.extend_from_slice(&0u32.to_be_bytes());
    hdlr.extend_from_slice(b"vide");
    hdlr.extend_from_slice(&[0u8; 12]);

    // AVC sample entry: data reference index 1, width 640, height 360, and
    // a non-empty AVC decoder configuration record.
    let mut avc1 = vec![0u8; 6];
    avc1.extend_from_slice(&1u16.to_be_bytes());
    avc1.extend_from_slice(&[0u8; 16]);
    avc1.extend_from_slice(&640u16.to_be_bytes());
    avc1.extend_from_slice(&360u16.to_be_bytes());
    avc1.extend_from_slice(&[0u8; 50]);
    avc1.extend_from_slice(&mp4_box(b"avcC", &[1, 100, 0, 31]));

    let mut stsd = vec![0u8; 4];
    stsd.extend_from_slice(&1u32.to_be_bytes());
    stsd.extend_from_slice(&mp4_box(b"avc1", &avc1));

    let stbl_content = mp4_box(b"stsd", &stsd);
    let minf_content = mp4_box(b"stbl", &stbl_content);
    let mut mdia_content = mp4_box(b"hdlr", &hdlr);
    mdia_content.extend_from_slice(&mp4_box(b"minf", &minf_content));
    let mut trak_content = mp4_box(b"tkhd", &tkhd);
    trak_content.extend_from_slice(&mp4_box(b"mdia", &mdia_content));
    let mut moov_content = mp4_box(b"mvhd", &mvhd);
    moov_content.extend_from_slice(&mp4_box(b"trak", &trak_content));
    mp4_box(b"moov", &moov_content)
}

#[test]
fn sample_container_parses_to_expected_spec() {
    let bytes = sample_container_bytes();
    let spec = load_video_spec(&bytes, true).unwrap();
    assert_eq!(spec, VideoSpec { width: 640, height: 360, codec: CodecKind::Avc });
}

#[test]
fn sample_container_with_other_timescale_fails_the_scan() {
    let mut bytes = sample_container_bytes();
    // The timescale field sits after the moov header (8), the mvhd header
    // (8), the version and flags (4) and the two timestamps (8).
    let at = 8 + 8 + 4 + 8;
    bytes[at..at + 4].copy_from_slice(&600u32.to_be_bytes());
    assert_eq!(
        load_video_spec(&bytes, true),
        Err(ContainerScanError::Sample(SampleError::UnexpectedTimescale)),
    );
}

#[test]
fn garbage_bytes_are_a_malformed_container() {
    let bytes = vec![0u8, 1, 2, 3, 4, 5, 6, 7];
    assert_eq!(
        load_video_spec(&bytes, false),
        Err(ContainerScanError::Container(ContainerError::Malformed)),
    );
}

#[test]
fn empty_bytes_are_a_malformed_container() {
    let bytes: Vec<u8> = Vec::new();
    assert_eq!(
        load_video_spec(&bytes, true),
        Err(ContainerScanError::Container(ContainerError::Malformed)),
    );
}
