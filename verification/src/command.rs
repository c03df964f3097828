//! Construction of the platform-specific capture command.
//!
//! Each supported platform captures the active display with its native
//! backend, at a fixed frame rate, with a fixed encoder and a fast preset, no
//! audio track, and the container metadata moved to the front of the file for
//! fast-start playback. The argument tables are pure data, pinned exactly by
//! [`spec_capture_args`].

use vstd::prelude::*;

verus! {

/// The platform discriminant that selects a capture backend.
#[derive(Clone, Copy, PartialEq, Eq, Structural, Debug)]
pub enum Platform {
    /// Captures through the AVFoundation framework at 15 frames per second.
    MacOs,
    /// Captures the desktop through GDI at 30 frames per second.
    Windows,
}

/// An external command to launch: a program and its argument list.
pub struct CaptureCommand {
    /// The executable to run.
    pub program: String,
    /// The arguments handed to it, in order.
    pub args: Vec<String>,
}

/// The exact capture arguments for `platform`, recording to `output`.
pub open spec fn spec_capture_args(platform: Platform, output: Seq<char>) -> Seq<Seq<char>> {
    match platform {
        Platform::MacOs => seq![
            "-f"@,
            "avfoundation"@,
            "-framerate"@,
            "15"@,
            "-i"@,
            "4"@,
            "-pix_fmt"@,
            "yuv420p"@,
            "-c:v"@,
            "libx264"@,
            "-preset"@,
            "veryfast"@,
            "-crf"@,
            "25"@,
            "-an"@,
            "-movflags"@,
            "+faststart"@,
            output,
        ],
        Platform::Windows => seq![
            "-f"@,
            "gdigrab"@,
            "-framerate"@,
            "30"@,
            "-i"@,
            "desktop"@,
            "-c:v"@,
            "libx264"@,
            "-preset"@,
            "ultrafast"@,
            "-pix_fmt"@,
            "yuv420p"@,
            "-movflags"@,
            "+faststart"@,
            output,
        ],
    }
}

/// Builds the capture command for `platform`, writing to `output_filename`.
pub fn build_command(platform: Platform, output_filename: &str) -> (r: CaptureCommand)
    ensures
        r.program@ == "ffmpeg"@,
        r.args.deep_view() == spec_capture_args(platform, output_filename@),
{
    let program = String::from_str("ffmpeg");
    let mut args: Vec<String> = Vec::new();
    match platform {
        Platform::MacOs => {
            args.push(String::from_str("-f"));
            args.push(String::from_str("avfoundation"));
            args.push(String::from_str("-framerate"));
            args.push(String::from_str("15"));
            args.push(String::from_str("-i"));
            args.push(String::from_str("4"));
            args.push(String::from_str("-pix_fmt"));
            args.push(String::from_str("yuv420p"));
            args.push(String::from_str("-c:v"));
            args.push(String::from_str("libx264"));
            args.push(String::from_str("-preset"));
            args.push(String::from_str("veryfast"));
            args.push(String::from_str("-crf"));
            args.push(String::from_str("25"));
            args.push(String::from_str("-an"));
            args.push(String::from_str("-movflags"));
            args.push(String::from_str("+faststart"));
            args.push(String::from_str(output_filename));
        },
        Platform::Windows => {
            args.push(String::from_str("-f"));
            args.push(String::from_str("gdigrab"));
            args.push(String::from_str("-framerate"));
            args.push(String::from_str("30"));
            args.push(String::from_str("-i"));
            args.push(String::from_str("desktop"));
            args.push(String::from_str("-c:v"));
            args.push(String::from_str("libx264"));
            args.push(String::from_str("-preset"));
            args.push(String::from_str("ultrafast"));
            args.push(String::from_str("-pix_fmt"));
            args.push(String::from_str("yuv420p"));
            args.push(String::from_str("-movflags"));
            args.push(String::from_str("+faststart"));
            args.push(String::from_str(output_filename));
        },
    }
    proof {
        assert(args.deep_view() =~~= spec_capture_args(platform, output_filename@));
    }
    CaptureCommand { program, args }
}

} // verus!
