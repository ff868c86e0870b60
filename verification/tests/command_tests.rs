use video_compressor::bitrate::PlannedBitrate;
use video_compressor::command::{
    build, command_log_line, output_path, probe_args, render_command,
};
use video_compressor::types::app::AppConfig;
use video_compressor::types::{Encoder, Preset, Resolution};

fn planned() -> PlannedBitrate {
    PlannedBitrate { video_bps: 1_117_587, audio_bps: 124_176 }
}

#[test]
fn default_options_give_the_bare_command() {
    let args = build("in.mp4", "in.compressed.mp4", &AppConfig::default(), &planned());
    assert_eq!(
        args,
        vec![
            "-i", "in.mp4", "-c:v", "libx264", "-b:v", "1117587", "-c:a", "aac", "-b:a",
            "124176", "-y", "in.compressed.mp4",
        ]
    );
}

#[test]
fn every_option_set() {
    let config = AppConfig {
        target_size_mb: 25,
        frame_rate: Some(30),
        encoder: Encoder::GpuNvenc,
        dark_mode_enabled: true,
        resolution: Some(Resolution::R720),
        preset: Preset::Fast,
    };
    let args = build("/videos/clip.mov", "/videos/clip.compressed.mp4", &config, &planned());
    assert_eq!(
        args,
        vec![
            "-i",
            "/videos/clip.mov",
            "-filter:v",
            "fps=30,scale=-1:720",
            "-c:v",
            "h264_nvenc",
            "-b:v",
            "1117587",
            "-c:a",
            "aac",
            "-b:a",
            "124176",
            "-preset",
            "fast",
            "-y",
            "/videos/clip.compressed.mp4",
        ]
    );
}

#[test]
fn frame_rate_alone_is_one_filter() {
    let config = AppConfig { frame_rate: Some(24), ..AppConfig::default() };
    let args = build("a.mp4", "b.mp4", &config, &planned());
    assert_eq!(&args[2..4], ["-filter:v", "fps=24"]);
    assert_eq!(args.len(), 14);
}

#[test]
fn resolution_alone_is_one_filter() {
    for (resolution, value) in [
        (Resolution::R1080, "scale=-1:1080"),
        (Resolution::R720, "scale=-1:720"),
        (Resolution::R480, "scale=-1:480"),
    ] {
        let config = AppConfig { resolution: Some(resolution), ..AppConfig::default() };
        let args = build("a.mp4", "b.mp4", &config, &planned());
        assert_eq!(&args[2..4], ["-filter:v", value]);
    }
}

#[test]
fn no_filter_option_without_filters() {
    let args = build("a.mp4", "b.mp4", &AppConfig::default(), &planned());
    assert!(!args.iter().any(|arg| arg == "-filter:v"));
    assert!(!args.iter().any(|arg| arg.is_empty()));
}

#[test]
fn preset_is_named_only_when_chosen() {
    let args = build("a.mp4", "b.mp4", &AppConfig::default(), &planned());
    assert!(!args.iter().any(|arg| arg == "-preset"));
    for (preset, name) in [
        (Preset::Ultrafast, "ultrafast"),
        (Preset::Superfast, "superfast"),
        (Preset::Veryfast, "veryfast"),
        (Preset::Faster, "faster"),
        (Preset::Fast, "fast"),
        (Preset::Medium, "medium"),
        (Preset::Slow, "slow"),
        (Preset::Slower, "slower"),
        (Preset::Veryslow, "veryslow"),
    ] {
        let config = AppConfig { preset, ..AppConfig::default() };
        let args = build("a.mp4", "b.mp4", &config, &planned());
        assert_eq!(&args[10..], ["-preset", name, "-y", "b.mp4"]);
    }
}

#[test]
fn output_is_last_and_overwritten() {
    let config = AppConfig { preset: Preset::Slow, frame_rate: Some(60), ..AppConfig::default() };
    let args = build("a.mp4", "out put.mp4", &config, &planned());
    assert_eq!(&args[args.len() - 2..], ["-y", "out put.mp4"]);
}

#[test]
fn bitrates_are_written_in_full() {
    let rates = PlannedBitrate { video_bps: u32::MAX, audio_bps: 0 };
    let args = build("a.mp4", "b.mp4", &AppConfig::default(), &rates);
    assert_eq!(&args[4..10], ["-b:v", "4294967295", "-c:a", "aac", "-b:a", "0"]);
}

#[test]
fn command_is_rendered_with_quotes_where_needed() {
    let args = build("my clip.mp4", "my clip.compressed.mp4", &AppConfig::default(), &planned());
    assert_eq!(
        render_command(&args),
        "ffmpeg -i \"my clip.mp4\" -c:v libx264 -b:v 1117587 -c:a aac -b:a 124176 -y \"my clip.compressed.mp4\""
    );
    assert_eq!(
        command_log_line(&args),
        "Running command: ffmpeg -i \"my clip.mp4\" -c:v libx264 -b:v 1117587 -c:a aac -b:a 124176 -y \"my clip.compressed.mp4\""
    );
}

#[test]
fn rendering_few_arguments() {
    assert_eq!(render_command(&Vec::new()), "ffmpeg ");
    assert_eq!(render_command(&vec!["-y".to_string()]), "ffmpeg -y");
    assert_eq!(
        render_command(&vec!["a\"b".to_string(), "c".to_string()]),
        "ffmpeg \"a\\\"b\" c"
    );
}

#[test]
fn output_path_replaces_the_extension() {
    assert_eq!(output_path("video.mp4"), "video.compressed.mp4");
    assert_eq!(output_path("/home/me/clip.mov"), "/home/me/clip.compressed.mp4");
    assert_eq!(output_path("archive.tar.gz"), "archive.tar.compressed.mp4");
    assert_eq!(output_path("trailing."), "trailing.compressed.mp4");
}

#[test]
fn output_path_without_an_extension() {
    assert_eq!(output_path("video"), "video.compressed.mp4");
    assert_eq!(output_path("/a/b.c/video"), "/a/b.c/video.compressed.mp4");
    assert_eq!(output_path(".hidden"), ".hidden.compressed.mp4");
    assert_eq!(output_path("dir/.hidden"), "dir/.hidden.compressed.mp4");
    assert_eq!(output_path(""), ".compressed.mp4");
}

#[test]
fn output_path_of_hidden_files_with_an_extension() {
    assert_eq!(output_path(".hidden.mp4"), ".hidden.compressed.mp4");
    assert_eq!(output_path("dir/.hidden.mp4"), "dir/.hidden.compressed.mp4");
}

#[test]
fn output_path_takes_both_separators() {
    assert_eq!(output_path("C:\\videos\\clip.mov"), "C:\\videos\\clip.compressed.mp4");
    assert_eq!(output_path("C:\\dir.x\\video"), "C:\\dir.x\\video.compressed.mp4");
    assert_eq!(output_path("C:\\dir\\.hidden"), "C:\\dir\\.hidden.compressed.mp4");
    assert_eq!(output_path("a.b/c"), "a.b/c.compressed.mp4");
    assert_eq!(output_path("a.b/"), "a.b/.compressed.mp4");
}

#[test]
fn output_path_counts_characters_not_bytes() {
    assert_eq!(output_path("vidéo.été.mp4"), "vidéo.été.compressed.mp4");
    assert_eq!(output_path("日本語/映画.mkv"), "日本語/映画.compressed.mp4");
}

#[test]
fn probe_is_asked_for_bitrate_and_duration() {
    assert_eq!(
        probe_args("my clip.mp4"),
        vec![
            "-v",
            "error",
            "-select_streams",
            "a:0",
            "-show_entries",
            "format=duration:stream=bit_rate",
            "-of",
            "default=noprint_wrappers=1:nokey=1",
            "my clip.mp4",
        ]
    );
}
