//! The recording arguments: the capture region, target, format and output
//! settings that configure the backend and the encoder. The command line is
//! read outside this crate and handed in as plain values; the defaults for
//! the optional settings are fixed here.

use vstd::prelude::*;

verus! {

/// One recording's settings.
pub struct Args {
    /// Capture width, in pixels.
    pub width: u32,
    /// Capture height, in pixels.
    pub height: u32,
    /// The window title to capture, or a monitor identifier for full-screen
    /// capture.
    pub window_title: String,
    /// The container format of the output file.
    pub video_format: String,
    /// Whether audio is recorded.
    pub audio: bool,
    /// Whether the capture border is drawn.
    pub border: bool,
    /// Whether the cursor is shown in the recording.
    pub show_mouse: bool,
    /// Frames per second.
    pub framerate: u8,
    /// The quality preset.
    pub quality: String,
    /// Where the output file is written.
    pub output_path: String,
}

/// The default frame rate.
pub const DEFAULT_FRAMERATE: u8 = 30;

impl Args {
    /// Settings from the required values, with the documented defaults for
    /// the rest: an `mp4` container, 30 frames per second, the `high`
    /// quality preset.
    pub fn new(
        width: u32,
        height: u32,
        window_title: String,
        audio: bool,
        border: bool,
        show_mouse: bool,
        output_path: String,
    ) -> (args: Args)
        ensures
            args.width == width,
            args.height == height,
            args.window_title@ == window_title@,
            args.video_format@ == "mp4"@,
            args.audio == audio,
            args.border == border,
            args.show_mouse == show_mouse,
            args.framerate == DEFAULT_FRAMERATE,
            args.quality@ == "high"@,
            args.output_path@ == output_path@,
    {
        Args {
            width,
            height,
            window_title,
            video_format: String::from_str("mp4"),
            audio,
            border,
            show_mouse,
            framerate: DEFAULT_FRAMERATE,
            quality: String::from_str("high"),
            output_path,
        }
    }
}

} // verus!
