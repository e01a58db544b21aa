//! The command lines with which the burner drives the probe, the transcoder
//! and the player.

use crate::command::{arg_views, joined, push_arg, push_joined};
use crate::decimal::{decimal, decimal_string};
use crate::subtitle::burner::{
    direct_filter, direct_filter_text, drawbox_filter, drawbox_filter_text, font_size_for,
    merge_filter, merge_filter_text, SubtitleBurner,
};
use vstd::prelude::*;

verus! {

/// The arguments that make the probe print the size of the first video
/// stream as `WxH`.
pub open spec fn probe_dimensions_spec(video: Seq<char>) -> Seq<Seq<char>> {
    seq![
        "-v"@,
        "error"@,
        "-select_streams"@,
        "v:0"@,
        "-show_entries"@,
        "stream=width,height"@,
        "-of"@,
        "csv=s=x:p=0"@,
        video,
    ]
}

/// The arguments that make the probe print the frame rate of the first video
/// stream as a fraction.
pub open spec fn probe_fps_spec(video: Seq<char>) -> Seq<Seq<char>> {
    seq![
        "-v"@,
        "error"@,
        "-select_streams"@,
        "v:0"@,
        "-show_entries"@,
        "stream=r_frame_rate"@,
        "-of"@,
        "default=noprint_wrappers=1:nokey=1"@,
        video,
    ]
}

/// The arguments that make the probe print the length of the video in
/// seconds.
pub open spec fn probe_duration_spec(video: Seq<char>) -> Seq<Seq<char>> {
    seq![
        "-v"@,
        "error"@,
        "-show_entries"@,
        "format=duration"@,
        "-of"@,
        "default=noprint_wrappers=1:nokey=1"@,
        video,
    ]
}

/// The arguments that make the transcoder render `source` at `fps` frames a
/// second into a clip with transparency at `overlay`.
pub open spec fn overlay_args_spec(source: Seq<char>, fps: u32, overlay: Seq<char>) -> Seq<
    Seq<char>,
> {
    seq![
        "-f"@,
        "lavfi"@,
        "-i"@,
        source,
        "-r"@,
        decimal(fps as nat),
        "-c:v"@,
        "libvpx-vp9"@,
        "-pix_fmt"@,
        "yuva420p"@,
        "-auto-alt-ref"@,
        "0"@,
        "-b:v"@,
        "1M"@,
        "-y"@,
        overlay,
    ]
}

/// The arguments that make the transcoder lay the clip at `overlay` over
/// `video` at `(x, y)` and write `output`, the sound copied.
pub open spec fn merge_args_spec(
    video: Seq<char>,
    overlay: Seq<char>,
    x: u64,
    y: u64,
    output: Seq<char>,
) -> Seq<Seq<char>> {
    seq![
        "-i"@,
        video,
        "-i"@,
        overlay,
        "-filter_complex"@,
        merge_filter_text(x, y),
        "-c:a"@,
        "copy"@,
        "-y"@,
        output,
    ]
}

/// The arguments that make the transcoder render the captions of `srt`
/// straight onto `video` and write `output`, the sound copied.
pub open spec fn direct_args_spec(video: Seq<char>, srt: Seq<char>, output: Seq<char>) -> Seq<
    Seq<char>,
> {
    seq![
        "-i"@,
        video,
        "-vf"@,
        direct_filter_text(srt),
        "-c:a"@,
        "copy"@,
        "-y"@,
        output,
    ]
}

/// The arguments that make the player show `video` in a loop with the
/// captions of `srt` and the outline of the layer, listening at `socket`.
pub open spec fn preview_args_spec(
    b: SubtitleBurner,
    video: Seq<char>,
    srt: Seq<char>,
    socket: Seq<char>,
    video_width: u32,
    video_height: u32,
) -> Seq<Seq<char>> {
    seq![
        "--input-ipc-server="@ + socket,
        "--loop-file=inf"@,
        "--keep-open=yes"@,
        "--title=Preview - Adjust: h/H w/W x/X y/Y (p=stop)"@,
        "--sub-file="@ + srt,
        "--sub-font-size="@ + decimal(font_size_for(b.height()) as nat),
        "--vf="@ + drawbox_filter_text(b.geometry_on(video_width, video_height)),
        video,
    ]
}

/// The arguments that make the first-choice player show `video` through
/// `filter` in a window named `title` and leave at the end.
pub open spec fn ffplay_args_spec(video: Seq<char>, filter: Seq<char>, title: Seq<char>) -> Seq<
    Seq<char>,
> {
    seq!["-i"@, video, "-vf"@, filter, "-window_title"@, title, "-autoexit"@]
}

/// The arguments that make the second-choice player show `video` through
/// `filter` in a window named `title` and leave at the end.
pub open spec fn mpv_args_spec(video: Seq<char>, filter: Seq<char>, title: Seq<char>) -> Seq<
    Seq<char>,
> {
    seq![video, "--vf=lavfi=["@ + filter + "]"@, "--title="@ + title, "--keep-open=no"@]
}

/// The arguments that make the probe print the size of a video.
pub fn probe_dimensions_args(video_path: &str) -> (args: Vec<String>)
    ensures
        arg_views(args@) == probe_dimensions_spec(video_path@),
{
    let mut args: Vec<String> = Vec::new();
    assert(arg_views(args@) == Seq::<Seq<char>>::empty());
    push_arg(&mut args, "-v");
    push_arg(&mut args, "error");
    push_arg(&mut args, "-select_streams");
    push_arg(&mut args, "v:0");
    push_arg(&mut args, "-show_entries");
    push_arg(&mut args, "stream=width,height");
    push_arg(&mut args, "-of");
    push_arg(&mut args, "csv=s=x:p=0");
    push_arg(&mut args, video_path);
    assert(arg_views(args@) == probe_dimensions_spec(video_path@));
    args
}

/// The arguments that make the probe print the frame rate of a video.
pub fn probe_fps_args(video_path: &str) -> (args: Vec<String>)
    ensures
        arg_views(args@) == probe_fps_spec(video_path@),
{
    let mut args: Vec<String> = Vec::new();
    assert(arg_views(args@) == Seq::<Seq<char>>::empty());
    push_arg(&mut args, "-v");
    push_arg(&mut args, "error");
    push_arg(&mut args, "-select_streams");
    push_arg(&mut args, "v:0");
    push_arg(&mut args, "-show_entries");
    push_arg(&mut args, "stream=r_frame_rate");
    push_arg(&mut args, "-of");
    push_arg(&mut args, "default=noprint_wrappers=1:nokey=1");
    push_arg(&mut args, video_path);
    assert(arg_views(args@) == probe_fps_spec(video_path@));
    args
}

/// The arguments that make the probe print the length of a video.
pub fn probe_duration_args(video_path: &str) -> (args: Vec<String>)
    ensures
        arg_views(args@) == probe_duration_spec(video_path@),
{
    let mut args: Vec<String> = Vec::new();
    assert(arg_views(args@) == Seq::<Seq<char>>::empty());
    push_arg(&mut args, "-v");
    push_arg(&mut args, "error");
    push_arg(&mut args, "-show_entries");
    push_arg(&mut args, "format=duration");
    push_arg(&mut args, "-of");
    push_arg(&mut args, "default=noprint_wrappers=1:nokey=1");
    push_arg(&mut args, video_path);
    assert(arg_views(args@) == probe_duration_spec(video_path@));
    args
}

/// The arguments for the first-choice player.
pub fn ffplay_args(video_path: &str, filter: &str, title: &str) -> (args: Vec<String>)
    ensures
        arg_views(args@) == ffplay_args_spec(video_path@, filter@, title@),
{
    let mut args: Vec<String> = Vec::new();
    assert(arg_views(args@) == Seq::<Seq<char>>::empty());
    push_arg(&mut args, "-i");
    push_arg(&mut args, video_path);
    push_arg(&mut args, "-vf");
    push_arg(&mut args, filter);
    push_arg(&mut args, "-window_title");
    push_arg(&mut args, title);
    push_arg(&mut args, "-autoexit");
    assert(arg_views(args@) == ffplay_args_spec(video_path@, filter@, title@));
    args
}

/// The arguments for the second-choice player.
pub fn mpv_args(video_path: &str, filter: &str, title: &str) -> (args: Vec<String>)
    ensures
        arg_views(args@) == mpv_args_spec(video_path@, filter@, title@),
{
    let mut args: Vec<String> = Vec::new();
    assert(arg_views(args@) == Seq::<Seq<char>>::empty());
    push_arg(&mut args, video_path);
    let open = joined("--vf=lavfi=[", filter);
    push_joined(&mut args, open.as_str(), "]");
    push_joined(&mut args, "--title=", title);
    push_arg(&mut args, "--keep-open=no");
    assert(arg_views(args@) == mpv_args_spec(video_path@, filter@, title@));
    args
}

/// The players that can show a preview, in the order in which they are
/// tried.
#[derive(Debug, Clone, Copy, PartialEq, Eq, Structural)]
pub enum Player {
    Ffplay,
    Mpv,
}

impl Player {
    /// The name of the program.
    pub open spec fn name(self) -> Seq<char> {
        match self {
            Player::Ffplay => "ffplay"@,
            Player::Mpv => "mpv"@,
        }
    }

    /// The player to try after this one has failed.
    pub open spec fn after(self) -> Option<Player> {
        match self {
            Player::Ffplay => Some(Player::Mpv),
            Player::Mpv => None,
        }
    }

    /// The arguments that make the player show `video` through `filter` in a
    /// window named `title`.
    pub open spec fn args_spec(self, video: Seq<char>, filter: Seq<char>, title: Seq<char>) -> Seq<
        Seq<char>,
    > {
        match self {
            Player::Ffplay => ffplay_args_spec(video, filter, title),
            Player::Mpv => mpv_args_spec(video, filter, title),
        }
    }

    /// The player to try first.
    pub fn first() -> (r: Player)
        ensures
            r == Player::Ffplay,
    {
        Player::Ffplay
    }

    /// The player to try after this one has failed.
    pub fn next(&self) -> (r: Option<Player>)
        ensures
            r == self.after(),
    {
        match self {
            Player::Ffplay => Some(Player::Mpv),
            Player::Mpv => None,
        }
    }

    /// The name of the program.
    pub fn program(&self) -> (r: &'static str)
        ensures
            r@ == self.name(),
    {
        match self {
            Player::Ffplay => "ffplay",
            Player::Mpv => "mpv",
        }
    }

    /// The arguments for the player.
    pub fn args(&self, video_path: &str, filter: &str, title: &str) -> (args: Vec<String>)
        ensures
            arg_views(args@) == self.args_spec(video_path@, filter@, title@),
    {
        match self {
            Player::Ffplay => ffplay_args(video_path, filter, title),
            Player::Mpv => mpv_args(video_path, filter, title),
        }
    }
}

impl SubtitleBurner {
    /// The arguments for rendering the caption layer.
    pub fn overlay_args(&self, source: &str, fps: u32, overlay_path: &str) -> (args: Vec<String>)
        ensures
            arg_views(args@) == overlay_args_spec(source@, fps, overlay_path@),
    {
        let rate = decimal_string(fps as u64);
        let mut args: Vec<String> = Vec::new();
        assert(arg_views(args@) == Seq::<Seq<char>>::empty());
        push_arg(&mut args, "-f");
        push_arg(&mut args, "lavfi");
        push_arg(&mut args, "-i");
        push_arg(&mut args, source);
        push_arg(&mut args, "-r");
        push_arg(&mut args, rate.as_str());
        push_arg(&mut args, "-c:v");
        push_arg(&mut args, "libvpx-vp9");
        push_arg(&mut args, "-pix_fmt");
        push_arg(&mut args, "yuva420p");
        push_arg(&mut args, "-auto-alt-ref");
        push_arg(&mut args, "0");
        push_arg(&mut args, "-b:v");
        push_arg(&mut args, "1M");
        push_arg(&mut args, "-y");
        push_arg(&mut args, overlay_path);
        assert(arg_views(args@) == overlay_args_spec(source@, fps, overlay_path@));
        args
    }

    /// The arguments for laying the caption layer over the video.
    pub fn merge_args(
        &self,
        video_path: &str,
        overlay_path: &str,
        x: u64,
        y: u64,
        output_path: &str,
    ) -> (args: Vec<String>)
        ensures
            arg_views(args@) == merge_args_spec(video_path@, overlay_path@, x, y, output_path@),
    {
        let filter = merge_filter(x, y);
        let mut args: Vec<String> = Vec::new();
        assert(arg_views(args@) == Seq::<Seq<char>>::empty());
        push_arg(&mut args, "-i");
        push_arg(&mut args, video_path);
        push_arg(&mut args, "-i");
        push_arg(&mut args, overlay_path);
        push_arg(&mut args, "-filter_complex");
        push_arg(&mut args, filter.as_str());
        push_arg(&mut args, "-c:a");
        push_arg(&mut args, "copy");
        push_arg(&mut args, "-y");
        push_arg(&mut args, output_path);
        assert(arg_views(args@) == merge_args_spec(video_path@, overlay_path@, x, y, output_path@));
        args
    }

    /// The arguments for rendering the captions straight onto the video.
    pub fn direct_args(&self, video_path: &str, srt_path: &str, output_path: &str) -> (args: Vec<
        String,
    >)
        ensures
            arg_views(args@) == direct_args_spec(video_path@, srt_path@, output_path@),
    {
        let filter = direct_filter(srt_path);
        let mut args: Vec<String> = Vec::new();
        assert(arg_views(args@) == Seq::<Seq<char>>::empty());
        push_arg(&mut args, "-i");
        push_arg(&mut args, video_path);
        push_arg(&mut args, "-vf");
        push_arg(&mut args, filter.as_str());
        push_arg(&mut args, "-c:a");
        push_arg(&mut args, "copy");
        push_arg(&mut args, "-y");
        push_arg(&mut args, output_path);
        assert(arg_views(args@) == direct_args_spec(video_path@, srt_path@, output_path@));
        args
    }

    /// The arguments for the live preview on a video of the given size.
    pub fn preview_args(
        &self,
        video_path: &str,
        srt_path: &str,
        socket_path: &str,
        video_width: u32,
        video_height: u32,
    ) -> (args: Vec<String>)
        ensures
            arg_views(args@) == preview_args_spec(
                *self,
                video_path@,
                srt_path@,
                socket_path@,
                video_width,
                video_height,
            ),
    {
        let g = self.geometry(video_width, video_height);
        let font = decimal_string(g.font_size as u64);
        let filter = drawbox_filter(&g);
        let mut args: Vec<String> = Vec::new();
        assert(arg_views(args@) == Seq::<Seq<char>>::empty());
        push_joined(&mut args, "--input-ipc-server=", socket_path);
        push_arg(&mut args, "--loop-file=inf");
        push_arg(&mut args, "--keep-open=yes");
        push_arg(&mut args, "--title=Preview - Adjust: h/H w/W x/X y/Y (p=stop)");
        push_joined(&mut args, "--sub-file=", srt_path);
        push_joined(&mut args, "--sub-font-size=", font.as_str());
        push_joined(&mut args, "--vf=", filter.as_str());
        push_arg(&mut args, video_path);
        assert(arg_views(args@) == preview_args_spec(
            *self,
            video_path@,
            srt_path@,
            socket_path@,
            video_width,
            video_height,
        ));
        args
    }
}

} // verus!
