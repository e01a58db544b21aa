//! The editor: the keys that change the track, its cursor, the text of a
//! caption, and the overlay settings.

use crate::app::{owned, Action, AfterSave, App, AppState, Key, NEW_CAPTION_MS, TIME_STEP};
use crate::decimal::{push_decimal, push_signed, signed_decimal};
use crate::subtitle::burner::is_overlay_key;
use crate::subtitle::srt::{Caption, Subtitle};
use crate::text::{chars_of, push_str, string_of, string_of_range};
use vstd::prelude::*;

verus! {

/// The track with its entries numbered from one in the order in which they
/// stand.
pub open spec fn reindexed(track: Seq<Caption>) -> Seq<Caption> {
    Seq::new(track.len(), |i: int| Caption { index: (i + 1) as usize, ..track[i] })
}

/// The caption that `a` appends to a track: it starts where the last one
/// ends, or at zero, and lasts two seconds.
pub open spec fn appended_caption(track: Seq<Caption>) -> Caption {
    let start: u64 = if track.len() > 0 {
        track.last().end_time
    } else {
        0
    };
    Caption {
        index: (track.len() + 1) as usize,
        start_time: start,
        end_time: if start + 2000 > u64::MAX {
            u64::MAX
        } else {
            (start + 2000) as u64
        },
        text: "New subtitle"@,
    }
}

/// A caption after one of the keys that move its times by a tenth of a
/// second: `[` and `]` move the start, `{` and `}` the end. The start stays
/// before the end where there is room for that, and nothing leaves the range
/// of the clock.
pub open spec fn retimed(c: Caption, key: char) -> Caption {
    if key == '[' {
        Caption {
            start_time: if c.start_time >= 100 {
                (c.start_time - 100) as u64
            } else {
                0
            },
            ..c
        }
    } else if key == ']' {
        let moved: u64 = if c.start_time + 100 > u64::MAX {
            u64::MAX
        } else {
            (c.start_time + 100) as u64
        };
        Caption {
            start_time: if moved < c.end_time {
                moved
            } else if c.end_time >= 100 {
                (c.end_time - 100) as u64
            } else {
                0
            },
            ..c
        }
    } else if key == '{' {
        Caption {
            end_time: if c.end_time > c.start_time + 100 {
                (c.end_time - 100) as u64
            } else {
                c.end_time
            },
            ..c
        }
    } else if key == '}' {
        Caption {
            end_time: if c.end_time + 100 > u64::MAX {
                u64::MAX
            } else {
                (c.end_time + 100) as u64
            },
            ..c
        }
    } else {
        c
    }
}

/// A number with a label before it and `px` after it.
pub open spec fn pixels_text(label: Seq<char>, v: int) -> Seq<char> {
    label + signed_decimal(v) + "px"@
}

/// The message on the width of the overlay: the width in pixels, or that it
/// is the width of the video.
pub open spec fn width_text(width: Option<u32>) -> Seq<char> {
    match width {
        Some(w) => pixels_text("Overlay width: "@, w as int),
        None => "Overlay width: video"@,
    }
}

fn pixels(label: &str, v: i64) -> (r: String)
    requires
        i32::MIN <= v <= u32::MAX,
    ensures
        r@ == pixels_text(label@, v as int),
{
    let mut buf: Vec<char> = Vec::new();
    push_str(&mut buf, label);
    if v < 0 {
        push_signed(&mut buf, v as i32);
    } else {
        push_decimal(&mut buf, v as u64);
    }
    push_str(&mut buf, "px");
    assert(buf@ == pixels_text(label@, v as int));
    string_of(&buf)
}

impl App {
    /// The session after a key while the text of a caption is edited: escape
    /// gives the edit up, enter puts the text into the selected caption,
    /// backspace takes the last character away, and any character is added.
    pub open spec fn text_step(self, key: Key, post: App) -> bool {
        match key {
            Key::Esc => {
                &&& post == (App { editing_subtitle: false, edit_buffer: post.edit_buffer, ..self })
                &&& post.edit_buffer@.len() == 0
            },
            Key::Enter => {
                &&& post == (App {
                    editing_subtitle: false,
                    edit_buffer: post.edit_buffer,
                    subtitles: post.subtitles,
                    ..self
                })
                &&& post.edit_buffer@.len() == 0
                &&& post.track() == if self.selected_index < self.subtitles@.len() {
                    self.track().update(
                        self.selected_index as int,
                        Caption {
                            text: self.edit_buffer@,
                            ..self.track()[self.selected_index as int]
                        },
                    )
                } else {
                    self.track()
                }
            },
            Key::Char(c) => {
                &&& post == (App { edit_buffer: post.edit_buffer, ..self })
                &&& post.edit_buffer@ == self.edit_buffer@.push(c)
            },
            Key::Backspace => {
                &&& post == (App { edit_buffer: post.edit_buffer, ..self })
                &&& post.edit_buffer@ == if self.edit_buffer@.len() > 0 {
                    self.edit_buffer@.drop_last()
                } else {
                    self.edit_buffer@
                }
            },
            _ => post == self,
        }
    }

    fn handle_text_keys(&mut self, key: Key)
        requires
            old(self).editing_subtitle,
        ensures
            old(self).text_step(key, *final(self)),
    {
        match key {
            Key::Esc => {
                self.editing_subtitle = false;
                self.edit_buffer = String::new();
            },
            Key::Enter => {
                let i = self.selected_index;
                if i < self.subtitles.len() {
                    let ghost before = self.track();
                    let sub = Subtitle {
                        index: self.subtitles[i].index,
                        start_time: self.subtitles[i].start_time,
                        end_time: self.subtitles[i].end_time,
                        text: self.edit_buffer.clone(),
                    };
                    self.subtitles.set(i, sub);
                    assert(self.track() == before.update(i as int, sub@));
                }
                self.editing_subtitle = false;
                self.edit_buffer = String::new();
            },
            Key::Char(c) => {
                self.edit_buffer.push(c);
            },
            Key::Backspace => {
                let chars = chars_of(self.edit_buffer.as_str());
                if chars.len() > 0 {
                    self.edit_buffer = string_of_range(&chars, 0, chars.len() - 1);
                    assert(chars@.subrange(0, chars.len() - 1) == chars@.drop_last());
                }
            },
            _ => {},
        }
    }

    /// The session with the cursor of the editor moved by `Up`, `Down`, `k`
    /// or `j`: one entry up unless on the first, one down unless on the
    /// last.
    pub open spec fn cursor_moved(self, down: bool) -> App {
        if down {
            if self.selected_index + 1 < self.subtitles@.len() {
                App { selected_index: (self.selected_index + 1) as usize, ..self }
            } else {
                self
            }
        } else {
            if self.selected_index > 0 {
                App { selected_index: (self.selected_index - 1) as usize, ..self }
            } else {
                self
            }
        }
    }

    fn move_cursor(&mut self, down: bool)
        ensures
            *final(self) == old(self).cursor_moved(down),
    {
        if down {
            let len = self.subtitles.len();
            if len > 0 && self.selected_index < len - 1 {
                self.selected_index += 1;
            }
        } else if self.selected_index > 0 {
            self.selected_index -= 1;
        }
    }

    /// The session with the text of the selected caption taken into the edit
    /// buffer; without a selected caption nothing changes.
    pub open spec fn edit_begun(self, post: App) -> bool {
        if self.selected_index < self.subtitles@.len() {
            &&& post == (App { editing_subtitle: true, edit_buffer: post.edit_buffer, ..self })
            &&& post.edit_buffer@ == self.track()[self.selected_index as int].text
        } else {
            post == self
        }
    }

    fn begin_edit(&mut self)
        ensures
            old(self).edit_begun(*final(self)),
    {
        if self.selected_index < self.subtitles.len() {
            self.edit_buffer = self.subtitles[self.selected_index].text.clone();
            self.editing_subtitle = true;
        }
    }

    /// The session with a new caption at the end of the track, selected. A
    /// track that is as long as a track can be stays as it is.
    pub open spec fn caption_added(self, post: App) -> bool {
        if self.subtitles@.len() < usize::MAX {
            &&& post == (App {
                subtitles: post.subtitles,
                selected_index: self.subtitles@.len() as usize,
                ..self
            })
            &&& post.track() == self.track().push(appended_caption(self.track()))
        } else {
            post == self
        }
    }

    fn add_caption(&mut self)
        ensures
            old(self).caption_added(*final(self)),
    {
        let len = self.subtitles.len();
        if len == usize::MAX {
            return ;
        }
        let ghost before = self.track();
        let start: u64 = if len > 0 {
            assert(before[len - 1] == self.subtitles[len - 1]@);
            self.subtitles[len - 1].end_time
        } else {
            0
        };
        let end: u64 = if start > u64::MAX - NEW_CAPTION_MS {
            u64::MAX
        } else {
            start + NEW_CAPTION_MS
        };
        let sub = Subtitle { index: len + 1, start_time: start, end_time: end, text: owned(
            "New subtitle",
        ) };
        assert(sub@ == appended_caption(before));
        self.subtitles.push(sub);
        assert(self.track() == before.push(sub@));
        self.selected_index = len;
    }

    /// The session with the selected caption removed and the others
    /// renumbered from one. The cursor stays on its place, or moves to the
    /// new last entry where it was on the last. Without a selected caption
    /// nothing changes.
    pub open spec fn caption_deleted(self, post: App) -> bool {
        if self.selected_index < self.subtitles@.len() {
            &&& post == (App {
                subtitles: post.subtitles,
                selected_index: if self.selected_index + 1 >= self.subtitles@.len()
                    && self.selected_index > 0 {
                    (self.selected_index - 1) as usize
                } else {
                    self.selected_index
                },
                ..self
            })
            &&& post.track() == reindexed(self.track().remove(self.selected_index as int))
        } else {
            post == self
        }
    }

    fn delete_caption(&mut self)
        ensures
            old(self).caption_deleted(*final(self)),
    {
        let at = self.selected_index;
        if at >= self.subtitles.len() {
            return ;
        }
        let ghost before = self.track();
        self.subtitles.remove(at);
        let ghost left = self.track();
        assert(left == before.remove(at as int));
        let n = self.subtitles.len();
        if at >= n && at > 0 {
            self.selected_index = at - 1;
        }
        let mut renumbered: Vec<Subtitle> = Vec::new();
        let mut i: usize = 0;
        while i < n
            invariant
                i <= n == self.subtitles.len(),
                left == self.track(),
                renumbered.len() == i,
                forall|k: int|
                    0 <= k < i ==> (#[trigger] renumbered[k])@ == (Caption {
                        index: (k + 1) as usize,
                        ..left[k]
                    }),
            decreases n - i,
        {
            assert(left[i as int] == self.subtitles[i as int]@);
            let sub = Subtitle {
                index: i + 1,
                start_time: self.subtitles[i].start_time,
                end_time: self.subtitles[i].end_time,
                text: self.subtitles[i].text.clone(),
            };
            renumbered.push(sub);
            i += 1;
        }
        self.subtitles = renumbered;
        assert(self.track() =~= reindexed(left));
    }

    /// The session with the times of the selected caption moved by `key`.
    pub open spec fn caption_retimed(self, key: char, post: App) -> bool {
        &&& post == (App { subtitles: post.subtitles, ..self })
        &&& post.track() == if self.selected_index < self.subtitles@.len() {
            self.track().update(
                self.selected_index as int,
                retimed(self.track()[self.selected_index as int], key),
            )
        } else {
            self.track()
        }
    }

    fn retime_caption(&mut self, key: char)
        requires
            key == '[' || key == ']' || key == '{' || key == '}',
        ensures
            old(self).caption_retimed(key, *final(self)),
    {
        let i = self.selected_index;
        if i >= self.subtitles.len() {
            return ;
        }
        let ghost before = self.track();
        assert(before[i as int] == self.subtitles[i as int]@);
        let start = self.subtitles[i].start_time;
        let end = self.subtitles[i].end_time;
        let (new_start, new_end): (u64, u64) = if key == '[' {
            (
                if start >= TIME_STEP {
                    start - TIME_STEP
                } else {
                    0
                },
                end,
            )
        } else if key == ']' {
            let moved: u64 = if start > u64::MAX - TIME_STEP {
                u64::MAX
            } else {
                start + TIME_STEP
            };
            (
                if moved < end {
                    moved
                } else if end >= TIME_STEP {
                    end - TIME_STEP
                } else {
                    0
                },
                end,
            )
        } else if key == '{' {
            (
                start,
                if end > start && end - start > TIME_STEP {
                    end - TIME_STEP
                } else {
                    end
                },
            )
        } else {
            (
                start,
                if end > u64::MAX - TIME_STEP {
                    u64::MAX
                } else {
                    end + TIME_STEP
                },
            )
        };
        let sub = Subtitle {
            index: self.subtitles[i].index,
            start_time: new_start,
            end_time: new_end,
            text: self.subtitles[i].text.clone(),
        };
        assert(sub@ == retimed(before[i as int], key));
        self.subtitles.set(i, sub);
        assert(self.track() == before.update(i as int, sub@));
    }
}

impl App {
    /// The session with the overlay settings changed by one of the keys for
    /// that.
    pub open spec fn overlay_after(self, c: char) -> App {
        App { overlay: self.overlay.adjusted(c), ..self }
    }

    /// The message on a change of the overlay settings, where `self` is the
    /// session after the change.
    pub open spec fn overlay_text(self, c: char) -> Seq<char> {
        if c == 'h' || c == 'H' {
            if self.preview_active {
                pixels_text("Updating preview... Height: "@, self.overlay.height as int)
            } else {
                pixels_text("Overlay height: "@, self.overlay.height as int)
            }
        } else if c == 'w' || c == 'W' {
            width_text(self.overlay.width)
        } else if c == 'x' || c == 'X' {
            pixels_text("Overlay X offset: "@, self.overlay.x_offset as int)
        } else if c == 'y' || c == 'Y' {
            pixels_text("Overlay Y offset: "@, self.overlay.y_offset as int)
        } else {
            "Overlay settings reset to defaults"@
        }
    }

    /// What a key that changes the overlay settings does: the settings
    /// change and a message tells of it; then an active preview is started
    /// again with the new settings.
    pub open spec fn overlay_adjusted(self, c: char, post: App, action: Action) -> bool {
        exists|mid: App|
            {
                &&& mid == (App {
                    progress_message: mid.progress_message,
                    ..self.overlay_after(c)
                })
                &&& mid.progress_message@ == self.overlay_after(c).overlay_text(c)
                &&& mid.preview_updated(post, action)
            }
    }

    fn adjust_overlay(&mut self, c: char) -> (action: Action)
        requires
            is_overlay_key(c),
        ensures
            old(self).overlay_adjusted(c, *final(self), action),
    {
        self.overlay.adjust(c);
        self.progress_message = if c == 'h' || c == 'H' {
            if self.preview_active {
                pixels("Updating preview... Height: ", self.overlay.height as i64)
            } else {
                pixels("Overlay height: ", self.overlay.height as i64)
            }
        } else if c == 'w' || c == 'W' {
            match self.overlay.width {
                Some(w) => pixels("Overlay width: ", w as i64),
                None => owned("Overlay width: video"),
            }
        } else if c == 'x' || c == 'X' {
            pixels("Overlay X offset: ", self.overlay.x_offset as i64)
        } else if c == 'y' || c == 'Y' {
            pixels("Overlay Y offset: ", self.overlay.y_offset as i64)
        } else {
            owned("Overlay settings reset to defaults")
        };
        let ghost mid = *self;
        let action = self.update_preview_overlay();
        assert(mid == (App {
            progress_message: mid.progress_message,
            ..old(self).overlay_after(c)
        }));
        assert(mid.preview_updated(*self, action));
        action
    }

    /// What `q` does in the editor: an active preview is stopped, and the
    /// session is to end.
    pub open spec fn quit_requested(self, post: App, action: Action) -> bool {
        if self.preview_active {
            exists|mid: App|
                self.preview_stopped(mid) && post == (App { should_quit: true, ..mid })
                    && action is StopPreview
        } else {
            post == (App { should_quit: true, ..self }) && action is Nothing
        }
    }

    fn request_quit(&mut self) -> (action: Action)
        ensures
            old(self).quit_requested(*final(self), action),
    {
        if self.preview_active {
            self.stop_preview();
            let ghost mid = *self;
            self.should_quit = true;
            assert(old(self).preview_stopped(mid) && *self == (App { should_quit: true, ..mid }));
            Action::StopPreview
        } else {
            self.should_quit = true;
            Action::Nothing
        }
    }

    /// The session after a character key in the editor while no text is
    /// edited.
    pub open spec fn command_step(self, c: char, post: App, action: Action) -> bool {
        if c == 'q' {
            self.quit_requested(post, action)
        } else if c == 'k' {
            post == self.cursor_moved(false) && action is Nothing
        } else if c == 'j' {
            post == self.cursor_moved(true) && action is Nothing
        } else if c == 'e' {
            self.edit_begun(post) && action is Nothing
        } else if c == 'a' {
            self.caption_added(post) && action is Nothing
        } else if c == 'd' {
            self.caption_deleted(post) && action is Nothing
        } else if c == '[' || c == ']' || c == '{' || c == '}' {
            self.caption_retimed(c, post) && action is Nothing
        } else if c == 's' {
            self.save_requested(AfterSave::Nothing, post, action)
        } else if c == 'b' {
            self.save_requested(AfterSave::Burn, post, action)
        } else if c == 'o' {
            self.save_requested(AfterSave::ExtractOverlay, post, action)
        } else if c == 'p' {
            self.save_requested(AfterSave::TogglePreview, post, action)
        } else if is_overlay_key(c) {
            self.overlay_adjusted(c, post, action)
        } else {
            post == self && action is Nothing
        }
    }

    /// The session after a key in the editor. While a text is edited the keys
    /// go to the text. Otherwise escape leaves for the home screen, the
    /// arrows move the cursor, enter begins to edit the selected text, and a
    /// character is a command.
    pub open spec fn editor_step(self, key: Key, post: App, action: Action) -> bool {
        if self.editing_subtitle {
            self.text_step(key, post) && action is Nothing
        } else {
            match key {
                Key::Char(c) => self.command_step(c, post, action),
                Key::Esc => post == (App { state: AppState::Home, ..self }) && action is Nothing,
                Key::Up => post == self.cursor_moved(false) && action is Nothing,
                Key::Down => post == self.cursor_moved(true) && action is Nothing,
                Key::Enter => self.edit_begun(post) && action is Nothing,
                _ => post == self && action is Nothing,
            }
        }
    }

    fn handle_command(&mut self, c: char) -> (action: Action)
        requires
            !old(self).editing_subtitle,
        ensures
            old(self).command_step(c, *final(self), action),
    {
        if c == 'q' {
            self.request_quit()
        } else if c == 'k' {
            self.move_cursor(false);
            Action::Nothing
        } else if c == 'j' {
            self.move_cursor(true);
            Action::Nothing
        } else if c == 'e' {
            self.begin_edit();
            Action::Nothing
        } else if c == 'a' {
            self.add_caption();
            Action::Nothing
        } else if c == 'd' {
            self.delete_caption();
            Action::Nothing
        } else if c == '[' || c == ']' || c == '{' || c == '}' {
            self.retime_caption(c);
            Action::Nothing
        } else if c == 's' {
            self.save_subtitles(AfterSave::Nothing)
        } else if c == 'b' {
            self.save_subtitles(AfterSave::Burn)
        } else if c == 'o' {
            self.save_subtitles(AfterSave::ExtractOverlay)
        } else if c == 'p' {
            self.save_subtitles(AfterSave::TogglePreview)
        } else if c == 'h' || c == 'H' || c == 'w' || c == 'W' || c == 'x' || c == 'X' || c == 'y'
            || c == 'Y' || c == '0' {
            self.adjust_overlay(c)
        } else {
            Action::Nothing
        }
    }

    /// Takes a key in the editor.
    pub fn handle_editor_keys(&mut self, key: Key) -> (action: Action)
        ensures
            old(self).editor_step(key, *final(self), action),
    {
        if self.editing_subtitle {
            self.handle_text_keys(key);
            Action::Nothing
        } else {
            match key {
                Key::Char(c) => self.handle_command(c),
                Key::Esc => {
                    self.state = AppState::Home;
                    Action::Nothing
                },
                Key::Up => {
                    self.move_cursor(false);
                    Action::Nothing
                },
                Key::Down => {
                    self.move_cursor(true);
                    Action::Nothing
                },
                Key::Enter => {
                    self.begin_edit();
                    Action::Nothing
                },
                _ => Action::Nothing,
            }
        }
    }
}

} // verus!
