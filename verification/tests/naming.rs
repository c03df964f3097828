use screen_recorder::command::CaptureCommand;
use screen_recorder::decimal::u64_to_decimal;
use screen_recorder::ffmpeg::{FFmpegManager, Process};
use screen_recorder::filename::recording_filename;

struct FakeProcess;

impl Process for FakeProcess {
    fn launch(_command: &CaptureCommand) -> Result<Self, String> {
        Ok(FakeProcess)
    }

    fn kill(&mut self) -> Result<(), String> {
        Ok(())
    }
}

#[test]
fn decimal_rendering() {
    assert_eq!(u64_to_decimal(0), "0");
    assert_eq!(u64_to_decimal(7), "7");
    assert_eq!(u64_to_decimal(10), "10");
    assert_eq!(u64_to_decimal(105), "105");
    assert_eq!(u64_to_decimal(1_700_000_000), "1700000000");
    assert_eq!(u64_to_decimal(u64::MAX), "18446744073709551615");
}

#[test]
fn filename_from_timestamp() {
    assert_eq!(recording_filename(0), "recording_0.mp4");
    assert_eq!(recording_filename(1_700_000_000), "recording_1700000000.mp4");
}

#[test]
fn filenames_of_distinct_times_differ() {
    let a = recording_filename(1_700_000_000);
    let b = recording_filename(1_700_000_001);
    assert_ne!(a, b);
}

#[test]
fn generated_filename_matches_pattern() {
    let name = FFmpegManager::<FakeProcess>::generate_filename();
    assert!(name.starts_with("recording_"));
    assert!(name.ends_with(".mp4"));
    let digits = &name["recording_".len()..name.len() - ".mp4".len()];
    assert!(!digits.is_empty());
    assert!(digits.chars().all(|c| c.is_ascii_digit()));
}
