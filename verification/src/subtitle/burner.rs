//! Placing the caption layer on the video frame: the size of the layer, where
//! it goes, how large its text is, and the filter descriptions that carry
//! these numbers to the tools which render and play.

use crate::decimal::{decimal, parse_decimal, parse_uint, push_decimal};
use crate::text::{
    chars_of, find_char, index_of, push_str, string_of, string_of_range, trim, trim_range,
};
use vstd::prelude::*;

verus! {

/// The height of the caption layer where none is set.
pub const DEFAULT_OVERLAY_HEIGHT: u32 = 200;

/// The smallest font size that captions are rendered with.
pub const MIN_FONT_SIZE: u32 = 24;

/// How captions are put onto a video.
#[derive(Debug, Clone, Copy, PartialEq, Eq, Structural)]
pub struct SubtitleBurner {
    pub use_overlay: bool,
    pub keep_overlay: bool,
    pub overlay_height: Option<u32>,
    pub overlay_width: Option<u32>,
    pub overlay_x_offset: Option<i32>,
    pub overlay_y_offset: Option<i32>,
}

/// How the caption layer is sized and placed: its height, its width where it
/// is not that of the video, and how far it is moved from the bottom centre.
#[derive(Debug, Clone, Copy, PartialEq, Eq, Structural)]
pub struct OverlaySettings {
    pub height: u32,
    pub width: Option<u32>,
    pub x_offset: i32,
    pub y_offset: i32,
}

/// Where the caption layer lies on the frame and how its text is set.
#[derive(Debug, Clone, Copy, PartialEq, Eq, Structural)]
pub struct OverlayGeometry {
    pub width: u32,
    pub height: u32,
    pub x: u64,
    pub y: u64,
    pub font_size: u32,
    pub margin_v: u32,
}

/// `v`, or zero where `v` is negative.
pub open spec fn at_least_zero(v: int) -> int {
    if v < 0 {
        0
    } else {
        v
    }
}

/// The left edge that centres a layer of width `overlay` on a frame of width
/// `video`; zero where the layer is not narrower than the frame.
pub open spec fn centered(video: int, overlay: int) -> int {
    if video > overlay {
        (video - overlay) / 2
    } else {
        0
    }
}

/// The top edge that puts a layer of height `overlay` at the bottom of a frame
/// of height `video`; zero where the layer is not lower than the frame.
pub open spec fn anchored(video: int, overlay: int) -> int {
    if video > overlay {
        video - overlay
    } else {
        0
    }
}

/// The left edge of the layer: centred, moved by the offset, never negative.
pub open spec fn x_position(video_width: u32, overlay_width: u32, x_offset: i32) -> int {
    at_least_zero(centered(video_width as int, overlay_width as int) + x_offset)
}

/// The top edge of the layer: at the bottom, moved by the offset, never
/// negative.
pub open spec fn y_position(video_height: u32, overlay_height: u32, y_offset: i32) -> int {
    at_least_zero(anchored(video_height as int, overlay_height as int) + y_offset)
}

/// The font size for a layer of the given height: 38 hundredths of the
/// height, rounded to the nearest integer with halves upwards, and at least
/// `MIN_FONT_SIZE`.
pub open spec fn font_size_for(height: u32) -> int {
    let size = (height * 38 + 50) / 100;
    if size < 24 {
        24
    } else {
        size
    }
}

/// The vertical margin of the text for a layer of the given height: a tenth
/// of the height, rounded to the nearest integer with halves upwards.
pub open spec fn margin_for(height: u32) -> int {
    (height + 5) / 10
}

/// The font size for a layer of the given height.
pub fn font_size(height: u32) -> (r: u32)
    ensures
        r == font_size_for(height),
{
    let size: u64 = (height as u64 * 38 + 50) / 100;
    if size < MIN_FONT_SIZE as u64 {
        MIN_FONT_SIZE
    } else {
        size as u32
    }
}

/// The vertical margin of the text for a layer of the given height.
pub fn margin_v(height: u32) -> (r: u32)
    ensures
        r == margin_for(height),
{
    ((height as u64 + 5) / 10) as u32
}

/// Where a layer of the given size goes on a frame of the given size.
pub fn position(
    video_width: u32,
    video_height: u32,
    overlay_width: u32,
    overlay_height: u32,
    x_offset: i32,
    y_offset: i32,
) -> (r: (u64, u64))
    ensures
        r.0 == x_position(video_width, overlay_width, x_offset),
        r.1 == y_position(video_height, overlay_height, y_offset),
{
    let x_centered: i64 = if video_width > overlay_width {
        ((video_width - overlay_width) / 2) as i64
    } else {
        0
    };
    let y_bottom: i64 = if video_height > overlay_height {
        (video_height - overlay_height) as i64
    } else {
        0
    };
    let x = x_centered + x_offset as i64;
    let y = y_bottom + y_offset as i64;
    (
        if x < 0 {
            0
        } else {
            x as u64
        },
        if y < 0 {
            0
        } else {
            y as u64
        },
    )
}

/// A position is never negative. A layer that is not narrower than the frame
/// lies at the left edge, and one that is not lower than the frame at the
/// top, unless an offset moves it right or down.
pub proof fn lemma_position_saturates(
    video_width: u32,
    video_height: u32,
    overlay_width: u32,
    overlay_height: u32,
    x_offset: i32,
    y_offset: i32,
)
    ensures
        x_position(video_width, overlay_width, x_offset) >= 0,
        y_position(video_height, overlay_height, y_offset) >= 0,
        overlay_width >= video_width ==> x_position(video_width, overlay_width, x_offset)
            == at_least_zero(x_offset as int),
        overlay_height >= video_height ==> y_position(video_height, overlay_height, y_offset)
            == at_least_zero(y_offset as int),
        overlay_width >= video_width && x_offset <= 0 ==> x_position(
            video_width,
            overlay_width,
            x_offset,
        ) == 0,
        overlay_height >= video_height && y_offset <= 0 ==> y_position(
            video_height,
            overlay_height,
            y_offset,
        ) == 0,
{
}

impl SubtitleBurner {
    /// The height of the layer: what is set, else 200.
    pub open spec fn height(self) -> u32 {
        match self.overlay_height {
            Some(h) => h,
            None => 200,
        }
    }

    /// The width of the layer: what is set, else that of the video.
    pub open spec fn width_on(self, video_width: u32) -> u32 {
        match self.overlay_width {
            Some(w) => w,
            None => video_width,
        }
    }

    /// How far the layer is moved to the right: what is set, else not at
    /// all.
    pub open spec fn x_offset(self) -> i32 {
        match self.overlay_x_offset {
            Some(v) => v,
            None => 0,
        }
    }

    /// How far the layer is moved down: what is set, else not at all.
    pub open spec fn y_offset(self) -> i32 {
        match self.overlay_y_offset {
            Some(v) => v,
            None => 0,
        }
    }

    /// The geometry of the layer on a frame of the given size.
    pub open spec fn geometry_on(self, video_width: u32, video_height: u32) -> OverlayGeometry {
        OverlayGeometry {
            width: self.width_on(video_width),
            height: self.height(),
            x: x_position(video_width, self.width_on(video_width), self.x_offset()) as u64,
            y: y_position(video_height, self.height(), self.y_offset()) as u64,
            font_size: font_size_for(self.height()) as u32,
            margin_v: margin_for(self.height()) as u32,
        }
    }

    /// Captions on a separate layer that is not kept, with no size or offset
    /// set.
    pub fn new() -> (r: Self)
        ensures
            r == (SubtitleBurner {
                use_overlay: true,
                keep_overlay: false,
                overlay_height: None,
                overlay_width: None,
                overlay_x_offset: None,
                overlay_y_offset: None,
            }),
    {
        SubtitleBurner {
            use_overlay: true,
            keep_overlay: false,
            overlay_height: None,
            overlay_width: None,
            overlay_x_offset: None,
            overlay_y_offset: None,
        }
    }

    /// With the captions on a separate layer, or rendered straight onto the
    /// video.
    pub fn with_overlay(self, enabled: bool) -> (r: Self)
        ensures
            r == (SubtitleBurner { use_overlay: enabled, ..self }),
    {
        let mut r = self;
        r.use_overlay = enabled;
        r
    }

    /// With the file of the layer kept or removed after the merge.
    pub fn keep_overlay_file(self, keep: bool) -> (r: Self)
        ensures
            r == (SubtitleBurner { keep_overlay: keep, ..self }),
    {
        let mut r = self;
        r.keep_overlay = keep;
        r
    }

    /// With the height of the layer set.
    pub fn with_overlay_height(self, height: u32) -> (r: Self)
        ensures
            r == (SubtitleBurner { overlay_height: Some(height), ..self }),
    {
        let mut r = self;
        r.overlay_height = Some(height);
        r
    }

    /// With the width of the layer set.
    pub fn with_overlay_width(self, width: u32) -> (r: Self)
        ensures
            r == (SubtitleBurner { overlay_width: Some(width), ..self }),
    {
        let mut r = self;
        r.overlay_width = Some(width);
        r
    }

    /// With the layer moved to the right by `offset`.
    pub fn with_overlay_x_offset(self, offset: i32) -> (r: Self)
        ensures
            r == (SubtitleBurner { overlay_x_offset: Some(offset), ..self }),
    {
        let mut r = self;
        r.overlay_x_offset = Some(offset);
        r
    }

    /// With the layer moved down by `offset`.
    pub fn with_overlay_y_offset(self, offset: i32) -> (r: Self)
        ensures
            r == (SubtitleBurner { overlay_y_offset: Some(offset), ..self }),
    {
        let mut r = self;
        r.overlay_y_offset = Some(offset);
        r
    }

    /// Width and height of the layer for a video of the given width: what is
    /// set, else the width of the video and the default height.
    pub fn overlay_size(&self, video_width: u32) -> (r: (u32, u32))
        ensures
            r.0 == self.width_on(video_width),
            r.1 == self.height(),
    {
        (
            match self.overlay_width {
                Some(w) => w,
                None => video_width,
            },
            match self.overlay_height {
                Some(h) => h,
                None => DEFAULT_OVERLAY_HEIGHT,
            },
        )
    }

    /// Where a layer whose size was measured goes on the frame, by the
    /// offsets that are set.
    pub fn merge_position(
        &self,
        video_width: u32,
        video_height: u32,
        overlay_width: u32,
        overlay_height: u32,
    ) -> (r: (u64, u64))
        ensures
            r.0 == x_position(video_width, overlay_width, self.x_offset()),
            r.1 == y_position(video_height, overlay_height, self.y_offset()),
    {
        position(
            video_width,
            video_height,
            overlay_width,
            overlay_height,
            match self.overlay_x_offset {
                Some(v) => v,
                None => 0,
            },
            match self.overlay_y_offset {
                Some(v) => v,
                None => 0,
            },
        )
    }

    /// The geometry of the layer on a frame of the given size.
    pub fn geometry(&self, video_width: u32, video_height: u32) -> (r: OverlayGeometry)
        ensures
            r == self.geometry_on(video_width, video_height),
    {
        let (width, height) = self.overlay_size(video_width);
        let (x, y) = self.merge_position(video_width, video_height, width, height);
        OverlayGeometry {
            width,
            height,
            x,
            y,
            font_size: font_size(height),
            margin_v: margin_v(height),
        }
    }
}

/// What a character of a path becomes in a filter description.
pub open spec fn escaped_char(c: char) -> Seq<char> {
    if c == '\\' {
        seq!['/']
    } else if c == ':' {
        seq!['\\', ':']
    } else {
        seq![c]
    }
}

/// A path as a filter description takes it: `/` for each `\`, and a `\`
/// before each `:`.
pub open spec fn escaped(path: Seq<char>) -> Seq<char>
    decreases path.len(),
{
    if path.len() == 0 {
        Seq::empty()
    } else {
        escaped(path.drop_last()) + escaped_char(path.last())
    }
}

/// Appends `escaped(path@)` to `out`.
pub fn push_escaped(out: &mut Vec<char>, path: &str)
    ensures
        final(out)@ == old(out)@ + escaped(path@),
{
    let ghost before = out@;
    assert(path@.take(0).len() == 0);
    for c in it: path.chars()
        invariant
            it.seq() == path@,
            out@ == before + escaped(path@.take(it.index())),
    {
        let ghost done = path@.take(it.index());
        let ghost next = path@.take(it.index() + 1);
        assert(next.drop_last() == done);
        assert(next.last() == c);
        if c == '\\' {
            out.push('/');
        } else if c == ':' {
            out.push('\\');
            out.push(':');
        } else {
            out.push(c);
        }
        assert(out@ == before + (escaped(done) + escaped_char(c)));
    }
    assert(path@.take(path@.len() as int) == path@);
}

/// The path as a filter description takes it.
pub fn escape_path(path: &str) -> (out: String)
    ensures
        out@ == escaped(path@),
{
    let mut buf: Vec<char> = Vec::new();
    push_escaped(&mut buf, path);
    assert(Seq::<char>::empty() + escaped(path@) == escaped(path@));
    string_of(&buf)
}

/// The filter that renders the captions of the file at `srt_path` for a layer
/// of the given height.
pub open spec fn subtitles_filter_text(srt_path: Seq<char>, height: u32) -> Seq<char> {
    "subtitles='"@ + escaped(srt_path) + "':force_style='FontSize="@ + decimal(
        font_size_for(height) as nat,
    ) + ",MarginV="@ + decimal(margin_for(height) as nat) + "'"@
}

/// The filter that renders the captions of the file at `srt_path` at their
/// own size.
pub open spec fn direct_filter_text(srt_path: Seq<char>) -> Seq<char> {
    "subtitles='"@ + escaped(srt_path) + "'"@
}

/// The filter that draws the outline of the layer.
pub open spec fn drawbox_filter_text(g: OverlayGeometry) -> Seq<char> {
    "drawbox=x="@ + decimal(g.x as nat) + ":y="@ + decimal(g.y as nat) + ":w="@ + decimal(
        g.width as nat,
    ) + ":h="@ + decimal(g.height as nat) + ":color=yellow@0.3:t=3"@
}

/// The source that renders the captions alone on a transparent canvas of the
/// given size for the given time.
pub open spec fn overlay_source_text(
    width: u32,
    height: u32,
    duration: Seq<char>,
    srt_path: Seq<char>,
) -> Seq<char> {
    "color=c=black@0.0:s="@ + decimal(width as nat) + "x"@ + decimal(height as nat) + ":d="@
        + duration + ",format=yuva420p,"@ + subtitles_filter_text(srt_path, height)
}

/// The filter that lays the second input over the first at `(x, y)`.
pub open spec fn merge_filter_text(x: u64, y: u64) -> Seq<char> {
    "[0:v][1:v]overlay="@ + decimal(x as nat) + ":"@ + decimal(y as nat)
}

/// Appends `subtitles_filter_text(srt_path@, height)` to `out`.
pub fn push_subtitles_filter(out: &mut Vec<char>, srt_path: &str, height: u32)
    ensures
        final(out)@ == old(out)@ + subtitles_filter_text(srt_path@, height),
{
    let ghost before = out@;
    push_str(out, "subtitles='");
    push_escaped(out, srt_path);
    push_str(out, "':force_style='FontSize=");
    push_decimal(out, font_size(height) as u64);
    push_str(out, ",MarginV=");
    push_decimal(out, margin_v(height) as u64);
    push_str(out, "'");
    assert(out@ == before + subtitles_filter_text(srt_path@, height));
}

/// The filter that renders the captions for a layer of the given height.
pub fn subtitles_filter(srt_path: &str, height: u32) -> (out: String)
    ensures
        out@ == subtitles_filter_text(srt_path@, height),
{
    let mut buf: Vec<char> = Vec::new();
    push_subtitles_filter(&mut buf, srt_path, height);
    assert(Seq::<char>::empty() + subtitles_filter_text(srt_path@, height)
        == subtitles_filter_text(srt_path@, height));
    string_of(&buf)
}

/// The filter that renders the captions at their own size.
pub fn direct_filter(srt_path: &str) -> (out: String)
    ensures
        out@ == direct_filter_text(srt_path@),
{
    let mut buf: Vec<char> = Vec::new();
    push_str(&mut buf, "subtitles='");
    push_escaped(&mut buf, srt_path);
    push_str(&mut buf, "'");
    assert(buf@ == direct_filter_text(srt_path@));
    string_of(&buf)
}

/// The filter that draws the outline of the layer.
pub fn drawbox_filter(g: &OverlayGeometry) -> (out: String)
    ensures
        out@ == drawbox_filter_text(*g),
{
    let mut buf: Vec<char> = Vec::new();
    push_str(&mut buf, "drawbox=x=");
    push_decimal(&mut buf, g.x);
    push_str(&mut buf, ":y=");
    push_decimal(&mut buf, g.y);
    push_str(&mut buf, ":w=");
    push_decimal(&mut buf, g.width as u64);
    push_str(&mut buf, ":h=");
    push_decimal(&mut buf, g.height as u64);
    push_str(&mut buf, ":color=yellow@0.3:t=3");
    assert(buf@ == drawbox_filter_text(*g));
    string_of(&buf)
}

/// `duration` is the length of the video in seconds as the tool takes it.
pub fn overlay_source(width: u32, height: u32, duration: &str, srt_path: &str) -> (out: String)
    ensures
        out@ == overlay_source_text(width, height, duration@, srt_path@),
{
    let mut buf: Vec<char> = Vec::new();
    push_str(&mut buf, "color=c=black@0.0:s=");
    push_decimal(&mut buf, width as u64);
    push_str(&mut buf, "x");
    push_decimal(&mut buf, height as u64);
    push_str(&mut buf, ":d=");
    push_str(&mut buf, duration);
    push_str(&mut buf, ",format=yuva420p,");
    push_subtitles_filter(&mut buf, srt_path, height);
    assert(buf@ == overlay_source_text(width, height, duration@, srt_path@));
    string_of(&buf)
}

/// The filter that lays the second input over the first at `(x, y)`.
pub fn merge_filter(x: u64, y: u64) -> (out: String)
    ensures
        out@ == merge_filter_text(x, y),
{
    let mut buf: Vec<char> = Vec::new();
    push_str(&mut buf, "[0:v][1:v]overlay=");
    push_decimal(&mut buf, x);
    push_str(&mut buf, ":");
    push_decimal(&mut buf, y);
    assert(buf@ == merge_filter_text(x, y));
    string_of(&buf)
}

/// Why the size of a video could not be read.
#[derive(Debug, Clone, Copy, PartialEq, Eq, Structural)]
pub enum DimensionsError {
    /// The text is not two fields with one `x` between them.
    Format,
    /// The width is no number of 32 bits.
    Width,
    /// The height is no number of 32 bits.
    Height,
}

/// Width and height from a text `WxH` with whitespace around it.
pub open spec fn parse_dimensions_spec(text: Seq<char>) -> Result<(u32, u32), DimensionsError> {
    let t = trim(text);
    let i = index_of(t, 'x');
    let rest = t.subrange(i + 1, t.len() as int);
    if !(0 <= i < t.len()) {
        Err(DimensionsError::Format)
    } else if index_of(rest, 'x') < rest.len() {
        Err(DimensionsError::Format)
    } else {
        match parse_uint(t.subrange(0, i), u32::MAX as int) {
            None => Err(DimensionsError::Width),
            Some(w) => match parse_uint(rest, u32::MAX as int) {
                None => Err(DimensionsError::Height),
                Some(h) => Ok((w as u32, h as u32)),
            },
        }
    }
}

/// Reads width and height of a video from what the probe printed.
pub fn parse_dimensions(text: &str) -> (r: Result<(u32, u32), DimensionsError>)
    ensures
        r == parse_dimensions_spec(text@),
{
    let chars = chars_of(text);
    assert(chars@.subrange(0, chars.len() as int) == chars@);
    let (a, b) = trim_range(&chars, 0, chars.len());
    let ghost t = chars@.subrange(a as int, b as int);
    let i = find_char(&chars, a, b, 'x');
    if i == b {
        return Err(DimensionsError::Format);
    }
    assert(t.subrange(i - a + 1, t.len() as int) == chars@.subrange(i + 1, b as int));
    assert(t.subrange(0, i - a) == chars@.subrange(a as int, i as int));
    let j = find_char(&chars, i + 1, b, 'x');
    if j < b {
        return Err(DimensionsError::Format);
    }
    let w = match parse_decimal(&chars, a, i, u32::MAX as u64) {
        Some(v) => v as u32,
        None => { return Err(DimensionsError::Width); },
    };
    match parse_decimal(&chars, i + 1, b, u32::MAX as u64) {
        Some(v) => Ok((w, v as u32)),
        None => Err(DimensionsError::Height),
    }
}

/// Numerator and denominator of a text `N/D` with whitespace around it; none
/// where the text does not hold `/` exactly once.
pub open spec fn fraction_fields_spec(text: Seq<char>) -> Option<(Seq<char>, Seq<char>)> {
    let t = trim(text);
    let i = index_of(t, '/');
    let rest = t.subrange(i + 1, t.len() as int);
    if 0 <= i < t.len() && index_of(rest, '/') >= rest.len() {
        Some((t.subrange(0, i), rest))
    } else {
        None
    }
}

/// The two fields of the frame rate that the probe printed as a fraction.
pub fn fraction_fields(text: &str) -> (r: Option<(String, String)>)
    ensures
        match r {
            Some((num, den)) => fraction_fields_spec(text@) == Some((num@, den@)),
            None => fraction_fields_spec(text@) is None,
        },
{
    let chars = chars_of(text);
    assert(chars@.subrange(0, chars.len() as int) == chars@);
    let (a, b) = trim_range(&chars, 0, chars.len());
    let ghost t = chars@.subrange(a as int, b as int);
    let i = find_char(&chars, a, b, '/');
    if i == b {
        return None;
    }
    assert(t.subrange(i - a + 1, t.len() as int) == chars@.subrange(i + 1, b as int));
    assert(t.subrange(0, i - a) == chars@.subrange(a as int, i as int));
    let j = find_char(&chars, i + 1, b, '/');
    if j < b {
        return None;
    }
    Some((string_of_range(&chars, a, i), string_of_range(&chars, i + 1, b)))
}

/// The step by which the overlay is resized or moved, in pixels.
pub const OVERLAY_STEP: u32 = 10;

/// The width that an overlay is given when its width is first set.
pub const INITIAL_OVERLAY_WIDTH: u32 = 1920;

/// A size less ten; a size of ten or less stays, so that none becomes zero.
pub open spec fn less_ten(v: u32) -> u32 {
    if v > 10 {
        (v - 10) as u32
    } else {
        v
    }
}

/// A size and ten, and the largest value at the most.
pub open spec fn and_ten(v: u32) -> u32 {
    if v + 10 > u32::MAX {
        u32::MAX
    } else {
        (v + 10) as u32
    }
}

/// An offset moved by ten down or up, and kept within its range.
pub open spec fn offset_moved(v: i32, up: bool) -> i32 {
    if up {
        if v + 10 > i32::MAX {
            i32::MAX
        } else {
            (v + 10) as i32
        }
    } else {
        if v - 10 < i32::MIN {
            i32::MIN
        } else {
            (v - 10) as i32
        }
    }
}

/// Whether `c` is one of the keys that change the overlay settings.
pub open spec fn is_overlay_key(c: char) -> bool {
    c == 'h' || c == 'H' || c == 'w' || c == 'W' || c == 'x' || c == 'X' || c == 'y' || c == 'Y'
        || c == '0'
}

fn step_down(v: u32) -> (r: u32)
    ensures
        r == less_ten(v),
{
    if v > OVERLAY_STEP {
        v - OVERLAY_STEP
    } else {
        v
    }
}

fn step_up(v: u32) -> (r: u32)
    ensures
        r == and_ten(v),
{
    if v > u32::MAX - OVERLAY_STEP {
        u32::MAX
    } else {
        v + OVERLAY_STEP
    }
}

fn move_offset(v: i32, up: bool) -> (r: i32)
    ensures
        r == offset_moved(v, up),
{
    if up {
        if v > i32::MAX - 10 {
            i32::MAX
        } else {
            v + 10
        }
    } else {
        if v < i32::MIN + 10 {
            i32::MIN
        } else {
            v - 10
        }
    }
}

impl OverlaySettings {
    /// The settings of a new session: 200 pixels high, as wide as the video,
    /// at the bottom centre.
    pub open spec fn defaults() -> OverlaySettings {
        OverlaySettings { height: 200, width: None, x_offset: 0, y_offset: 0 }
    }

    /// Height and width are positive.
    pub open spec fn well_formed(self) -> bool {
        self.height > 0 && (self.width matches Some(w) ==> w > 0)
    }

    /// The burner that places the caption layer by these settings.
    pub open spec fn burner_spec(self) -> SubtitleBurner {
        SubtitleBurner {
            use_overlay: true,
            keep_overlay: false,
            overlay_height: Some(self.height),
            overlay_width: self.width,
            overlay_x_offset: Some(self.x_offset),
            overlay_y_offset: Some(self.y_offset),
        }
    }

    /// The burner that renders the caption layer alone: its size without the
    /// offsets.
    pub open spec fn sizing_burner_spec(self) -> SubtitleBurner {
        SubtitleBurner {
            use_overlay: true,
            keep_overlay: false,
            overlay_height: Some(self.height),
            overlay_width: self.width,
            overlay_x_offset: None,
            overlay_y_offset: None,
        }
    }

    /// The settings after one of the keys that change them: `h` and `H` make
    /// the overlay lower and higher, `w` and `W` narrower and wider (from
    /// 1920 where no width was set), `x`, `X`, `y` and `Y` move it, each by
    /// ten pixels, and `0` brings the defaults back. Another key changes
    /// nothing.
    pub open spec fn adjusted(self, c: char) -> OverlaySettings {
        if c == 'h' {
            OverlaySettings { height: less_ten(self.height), ..self }
        } else if c == 'H' {
            OverlaySettings { height: and_ten(self.height), ..self }
        } else if c == 'w' {
            OverlaySettings {
                width: Some(
                    less_ten(
                        match self.width {
                            Some(w) => w,
                            None => 1920,
                        },
                    ),
                ),
                ..self
            }
        } else if c == 'W' {
            OverlaySettings {
                width: Some(
                    match self.width {
                        Some(w) => and_ten(w),
                        None => 1920,
                    },
                ),
                ..self
            }
        } else if c == 'x' {
            OverlaySettings { x_offset: offset_moved(self.x_offset, false), ..self }
        } else if c == 'X' {
            OverlaySettings { x_offset: offset_moved(self.x_offset, true), ..self }
        } else if c == 'y' {
            OverlaySettings { y_offset: offset_moved(self.y_offset, false), ..self }
        } else if c == 'Y' {
            OverlaySettings { y_offset: offset_moved(self.y_offset, true), ..self }
        } else if c == '0' {
            OverlaySettings::defaults()
        } else {
            self
        }
    }

    /// The geometry of the layer on a frame of the given size.
    pub open spec fn geometry_on(self, video_width: u32, video_height: u32) -> OverlayGeometry {
        self.burner_spec().geometry_on(video_width, video_height)
    }

    /// The settings of a new session.
    pub fn new() -> (r: Self)
        ensures
            r == OverlaySettings::defaults(),
    {
        OverlaySettings { height: DEFAULT_OVERLAY_HEIGHT, width: None, x_offset: 0, y_offset: 0 }
    }

    /// The burner that renders the caption layer alone.
    pub fn sizing_burner(&self) -> (r: SubtitleBurner)
        ensures
            r == self.sizing_burner_spec(),
    {
        let burner = SubtitleBurner::new().with_overlay_height(self.height);
        match self.width {
            Some(w) => burner.with_overlay_width(w),
            None => burner,
        }
    }

    /// The burner that places the caption layer by these settings.
    pub fn burner(&self) -> (r: SubtitleBurner)
        ensures
            r == self.burner_spec(),
    {
        self.sizing_burner().with_overlay_x_offset(self.x_offset).with_overlay_y_offset(
            self.y_offset,
        )
    }

    /// The geometry of the layer on a frame of the given size.
    pub fn geometry(&self, video_width: u32, video_height: u32) -> (r: OverlayGeometry)
        ensures
            r == self.geometry_on(video_width, video_height),
    {
        self.burner().geometry(video_width, video_height)
    }

    /// Changes the settings by a key.
    pub fn adjust(&mut self, c: char)
        ensures
            *final(self) == old(self).adjusted(c),
    {
        if c == 'h' {
            self.height = step_down(self.height);
        } else if c == 'H' {
            self.height = step_up(self.height);
        } else if c == 'w' {
            self.width = Some(
                step_down(
                    match self.width {
                        Some(w) => w,
                        None => INITIAL_OVERLAY_WIDTH,
                    },
                ),
            );
        } else if c == 'W' {
            self.width = Some(
                match self.width {
                    Some(w) => step_up(w),
                    None => INITIAL_OVERLAY_WIDTH,
                },
            );
        } else if c == 'x' {
            self.x_offset = move_offset(self.x_offset, false);
        } else if c == 'X' {
            self.x_offset = move_offset(self.x_offset, true);
        } else if c == 'y' {
            self.y_offset = move_offset(self.y_offset, false);
        } else if c == 'Y' {
            self.y_offset = move_offset(self.y_offset, true);
        } else if c == '0' {
            self.height = DEFAULT_OVERLAY_HEIGHT;
            self.width = None;
            self.x_offset = 0;
            self.y_offset = 0;
        }
    }
}

impl Default for OverlaySettings {
    fn default() -> (r: Self)
        ensures
            r == OverlaySettings::defaults(),
    {
        OverlaySettings::new()
    }
}

/// The default settings are well formed, and no key makes well-formed
/// settings ill-formed.
pub proof fn lemma_settings_stay_well_formed(settings: OverlaySettings, c: char)
    ensures
        OverlaySettings::defaults().well_formed(),
        settings.well_formed() ==> settings.adjusted(c).well_formed(),
{
}

impl DimensionsError {
    /// What is wrong with the size, in words.
    pub open spec fn text(self) -> Seq<char> {
        match self {
            DimensionsError::Format => "Failed to parse video dimensions"@,
            DimensionsError::Width => "Invalid width"@,
            DimensionsError::Height => "Invalid height"@,
        }
    }

    /// What is wrong with the size, in words.
    pub fn message(&self) -> (r: &'static str)
        ensures
            r@ == self.text(),
    {
        match self {
            DimensionsError::Format => "Failed to parse video dimensions",
            DimensionsError::Width => "Invalid width",
            DimensionsError::Height => "Invalid height",
        }
    }
}

} // verus!
