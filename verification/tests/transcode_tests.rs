use phi_media::error::AppError;
use phi_media::transcode::{
    finish_slice, master_playlist, parse_duration, path, sidecar_path, thumbnail_seek, FFmpegUtils,
    SliceEvent,
};

const MASTER: &str = "\n                    #EXTM3U\n                    #EXT-X-STREAM-INF:BANDWIDTH=1500000,RESOLUTION=1280x720\n                    720p/slice.m3u8\n                    #EXT-X-STREAM-INF:BANDWIDTH=3000000,RESOLUTION=1920x1080\n                    1080p/slice.m3u8\n                    ";

#[test]
fn parse_duration_reads_the_probe_line() {
    assert_eq!(parse_duration("duration=12.345678\n"), Some(12));
    assert_eq!(parse_duration("duration=7"), Some(7));
    assert_eq!(parse_duration("duration=0.9"), Some(0));
    assert_eq!(parse_duration("duration=12."), Some(12));
    assert_eq!(parse_duration("duration= 42 \n"), Some(42));
}

#[test]
fn parse_duration_rejects_malformed_lines() {
    assert_eq!(parse_duration(""), None);
    assert_eq!(parse_duration("nope"), None);
    assert_eq!(parse_duration("duration="), None);
    assert_eq!(parse_duration("duration=.5"), None);
    assert_eq!(parse_duration("duration=12x"), None);
    assert_eq!(parse_duration("duration=1.2.3"), None);
    assert_eq!(parse_duration("Duration=5"), None);
    assert_eq!(parse_duration("duration=99999999999999999999999999"), None);
}

#[test]
fn thumbnail_seek_lands_in_the_second_half() {
    assert_eq!(thumbnail_seek(1, 0), 0);
    assert_eq!(thumbnail_seek(10, 0), 5);
    assert_eq!(thumbnail_seek(10, 7), 5 + 7 % 5);
    for draw in [0u64, 1, 2, 3, 1_000_003, u64::MAX] {
        let seek = thumbnail_seek(9, draw);
        assert!((4..9).contains(&seek));
    }
}

#[test]
fn slice_plan_matches_the_two_rung_ladder() {
    let utils = FFmpegUtils::new("/bin/ffmpeg".to_string(), "/bin/ffprobe".to_string());
    let plan = utils.slice("store/abc/raw", "store/abc");

    assert_eq!(plan.program, "/bin/ffmpeg");
    assert_eq!(plan.dir_720p, "store/abc/720p");
    assert_eq!(plan.dir_1080p, "store/abc/1080p");
    assert_eq!(plan.master_path, "store/abc/slice.m3u8");

    assert_eq!(plan.args.len(), 52);
    assert_eq!(plan.args[0], "-i");
    assert_eq!(plan.args[1], "store/abc/raw");
    assert_eq!(plan.args[2], "-c:v");
    assert_eq!(plan.args[3], "libx264");
    assert_eq!(plan.args[11], "4.0");
    assert_eq!(plan.args[13], "1500k");
    assert_eq!(plan.args[17], "2250k");
    assert_eq!(plan.args[26], "store/abc/720p/slice.m3u8");
    assert_eq!(plan.args[36], "4.2");
    assert_eq!(plan.args[38], "3000k");
    assert_eq!(plan.args[42], "4500k");
    assert_eq!(plan.args[51], "store/abc/1080p/slice.m3u8");
}

#[test]
fn probe_args_request_only_the_duration() {
    let utils = FFmpegUtils::new("/bin/ffmpeg".to_string(), "/bin/ffprobe".to_string());
    let (program, args) = utils.probe_args("store/abc/raw");
    assert_eq!(program, "/bin/ffprobe");
    assert_eq!(
        args,
        vec![
            "-v".to_string(),
            "error".to_string(),
            "-show_entries".to_string(),
            "format=duration".to_string(),
            "-of".to_string(),
            "default=noprint_wrappers=1".to_string(),
            "store/abc/raw".to_string(),
        ]
    );
}

#[test]
fn thumbnail_args_seek_then_take_one_frame() {
    let utils = FFmpegUtils::new("/bin/ffmpeg".to_string(), "/bin/ffprobe".to_string());
    let args = utils
        .thumbnail("store/abc/raw", "store/abc/thumbnail.jpeg", "duration=10\n", 0)
        .unwrap();
    assert_eq!(
        args,
        vec![
            "-i".to_string(),
            "store/abc/raw".to_string(),
            "-ss".to_string(),
            "5".to_string(),
            "-frames:v".to_string(),
            "1".to_string(),
            "store/abc/thumbnail.jpeg".to_string(),
        ]
    );
}

#[test]
fn thumbnail_rejects_a_zero_or_unreadable_duration() {
    let utils = FFmpegUtils::new("/bin/ffmpeg".to_string(), "/bin/ffprobe".to_string());
    match utils.thumbnail("raw", "img", "duration=0.5", 3) {
        Err(AppError::InvalidDuration(o)) => assert_eq!(o, "duration=0.5"),
        other => panic!("expected InvalidDuration, got {:?}", other),
    }
    match utils.thumbnail("raw", "img", "garbage", 3) {
        Err(AppError::InvalidDuration(o)) => assert_eq!(o, "garbage"),
        other => panic!("expected InvalidDuration, got {:?}", other),
    }
}

#[test]
fn master_playlist_references_both_rungs() {
    assert_eq!(master_playlist(), MASTER);
}

#[test]
fn finish_slice_only_synthesizes_the_playlist_on_success() {
    let (playlist, event) = finish_slice(true, "exit status: 0");
    assert_eq!(playlist.as_deref(), Some(MASTER));
    assert!(matches!(event, SliceEvent::Done));

    let (playlist, event) = finish_slice(false, "exit status: 1");
    assert!(playlist.is_none());
    match event {
        SliceEvent::Failed(m) => assert_eq!(m, "Failed to get slice exit status: 1"),
        other => panic!("expected Failed, got {:?}", other),
    }
}

#[test]
fn sidecar_paths_resolve_per_platform_and_presence() {
    assert_eq!(sidecar_path("/opt/sc", "ffmpeg", false), "/opt/sc/ffmpeg");
    assert_eq!(sidecar_path("/opt/sc", "ffmpeg", true), "/opt/sc/ffmpeg.exe");
    assert_eq!(path("/opt/sc", "ffmpeg", false, true), "/opt/sc/ffmpeg");
    assert_eq!(path("/opt/sc", "ffprobe", false, false), "ffprobe");
}
