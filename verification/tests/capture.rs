use screen_recorder::command::{build_command, Platform};

#[test]
fn macos_capture_command() {
    let cmd = build_command(Platform::MacOs, "recording_42.mp4");
    assert_eq!(cmd.program, "ffmpeg");
    let expected = vec![
        "-f",
        "avfoundation",
        "-framerate",
        "15",
        "-i",
        "4",
        "-pix_fmt",
        "yuv420p",
        "-c:v",
        "libx264",
        "-preset",
        "veryfast",
        "-crf",
        "25",
        "-an",
        "-movflags",
        "+faststart",
        "recording_42.mp4",
    ];
    assert_eq!(cmd.args, expected);
}

#[test]
fn windows_capture_command() {
    let cmd = build_command(Platform::Windows, "out.mp4");
    assert_eq!(cmd.program, "ffmpeg");
    let expected = vec![
        "-f",
        "gdigrab",
        "-framerate",
        "30",
        "-i",
        "desktop",
        "-c:v",
        "libx264",
        "-preset",
        "ultrafast",
        "-pix_fmt",
        "yuv420p",
        "-movflags",
        "+faststart",
        "out.mp4",
    ];
    assert_eq!(cmd.args, expected);
}
