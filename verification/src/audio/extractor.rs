//! Getting the sound of a video as the waveform that transcription takes:
//! one channel, 16 kHz, 16-bit linear PCM.

use crate::command::{arg_views, push_arg};
use crate::decimal::{decimal, push_decimal};
use crate::error::JobError;
use crate::text::{push_str, string_of};
use vstd::prelude::*;

verus! {

/// Extracts the sound of a video.
#[derive(Debug, Clone, Copy, PartialEq, Eq, Structural)]
pub struct AudioExtractor;

/// The arguments that make the transcoder write the sound of `video` to
/// `output`: no picture, 16 kHz, one channel, 16-bit PCM, overwriting.
pub open spec fn extract_args_spec(video: Seq<char>, output: Seq<char>) -> Seq<Seq<char>> {
    seq![
        "-i"@,
        video,
        "-vn"@,
        "-ar"@,
        "16000"@,
        "-ac"@,
        "1"@,
        "-c:a"@,
        "pcm_s16le"@,
        "-y"@,
        output,
    ]
}

impl AudioExtractor {
    /// An extractor.
    pub fn new() -> (r: Self)
        ensures
            r == AudioExtractor,
    {
        AudioExtractor
    }

    /// The arguments for the transcoder.
    pub fn extract_args(&self, video_path: &str, output_path: &str) -> (args: Vec<String>)
        ensures
            arg_views(args@) == extract_args_spec(video_path@, output_path@),
    {
        let mut args: Vec<String> = Vec::new();
        assert(arg_views(args@) == Seq::<Seq<char>>::empty());
        push_arg(&mut args, "-i");
        push_arg(&mut args, video_path);
        push_arg(&mut args, "-vn");
        push_arg(&mut args, "-ar");
        push_arg(&mut args, "16000");
        push_arg(&mut args, "-ac");
        push_arg(&mut args, "1");
        push_arg(&mut args, "-c:a");
        push_arg(&mut args, "pcm_s16le");
        push_arg(&mut args, "-y");
        push_arg(&mut args, output_path);
        assert(arg_views(args@) == extract_args_spec(video_path@, output_path@));
        args
    }
}

/// The sample rate that transcription takes, in hertz.
pub const SAMPLE_RATE: u32 = 16000;

/// The message on a waveform of another sample rate.
pub open spec fn wrong_rate_text(rate: u32) -> Seq<char> {
    "Audio must be 16kHz, got "@ + decimal(rate as nat)
        + "Hz. FFmpeg should have converted this."@
}

/// Accepts a waveform for transcription by its sample rate: it must be
/// 16 kHz.
pub fn check_sample_rate(rate: u32) -> (r: Result<(), JobError>)
    ensures
        rate == 16000 ==> r is Ok,
        rate != 16000 ==> (r matches Err(JobError::ValidationError(m)) && m@ == wrong_rate_text(
            rate,
        )),
{
    if rate == SAMPLE_RATE {
        Ok(())
    } else {
        let mut buf: Vec<char> = Vec::new();
        push_str(&mut buf, "Audio must be 16kHz, got ");
        push_decimal(&mut buf, rate as u64);
        push_str(&mut buf, "Hz. FFmpeg should have converted this.");
        assert(buf@ == wrong_rate_text(rate));
        Err(JobError::ValidationError(string_of(&buf)))
    }
}

} // verus!
