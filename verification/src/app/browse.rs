//! Choosing the video in the file browser.

use crate::app::{Action, App, AppState, Key};
use crate::browser::{DirItem, FileBrowser};
use crate::paths::clone_path;
use std::path::PathBuf;
use vstd::prelude::*;

verus! {

impl App {
    /// The session after a key in the file browser: `q` and escape go back
    /// to the home screen, the arrows, `k` and `j` move the cursor, enter
    /// asks for the entry under the cursor to be opened, and `.` shows or
    /// hides the hidden entries and asks for a fresh listing.
    pub open spec fn browser_step(self, key: Key, post: App, action: Action) -> bool {
        match key {
            Key::Char('q') | Key::Esc => post == (App { state: AppState::Home, ..self })
                && action is Nothing,
            Key::Up | Key::Char('k') => post == (App {
                file_browser: self.file_browser.moved_up(),
                ..self
            }) && action is Nothing,
            Key::Down | Key::Char('j') => post == (App {
                file_browser: self.file_browser.moved_down(),
                ..self
            }) && action is Nothing,
            Key::Enter => post == self && action == (if self.file_browser.selected
                < self.file_browser.entries@.len() {
                Action::OpenEntry {
                    path: self.file_browser.entries@[self.file_browser.selected as int],
                }
            } else {
                Action::Nothing
            }),
            Key::Char('.') => post == (App {
                file_browser: FileBrowser {
                    show_hidden: !self.file_browser.show_hidden,
                    ..self.file_browser
                },
                ..self
            }) && action == (Action::ListDirectory { dir: self.file_browser.current_dir }),
            _ => post == self && action is Nothing,
        }
    }

    /// Takes a key in the file browser.
    pub fn handle_file_browser_keys(&mut self, key: Key) -> (action: Action)
        ensures
            old(self).browser_step(key, *final(self), action),
    {
        match key {
            Key::Char('q') | Key::Esc => {
                self.state = AppState::Home;
                Action::Nothing
            },
            Key::Up | Key::Char('k') => {
                self.file_browser.up();
                Action::Nothing
            },
            Key::Down | Key::Char('j') => {
                self.file_browser.down();
                Action::Nothing
            },
            Key::Enter => match self.file_browser.selected_path() {
                Some(path) => Action::OpenEntry { path },
                None => Action::Nothing,
            },
            Key::Char('.') => {
                self.file_browser.show_hidden = !self.file_browser.show_hidden;
                Action::ListDirectory { dir: clone_path(&self.file_browser.current_dir) }
            },
            _ => Action::Nothing,
        }
    }

    /// Opens the entry under the cursor of the file browser, of which the
    /// caller says whether it is a directory. A directory becomes the current
    /// one and is to be listed. A file becomes the video of the session, and
    /// the extraction of its sound begins.
    pub fn entry_opened(&mut self, is_dir: bool) -> (action: Action)
        ensures
            ({
                let browser = old(self).file_browser;
                if browser.selected >= browser.entries@.len() {
                    *final(self) == *old(self) && action is Nothing
                } else if is_dir {
                    &&& *final(self) == (App {
                        file_browser: FileBrowser {
                            current_dir: browser.entries@[browser.selected as int],
                            selected: 0,
                            ..browser
                        },
                        ..*old(self)
                    })
                    &&& action == (Action::ListDirectory {
                        dir: browser.entries@[browser.selected as int],
                    })
                } else {
                    (App {
                        video_path: Some(browser.entries@[browser.selected as int]),
                        ..*old(self)
                    }).audio_started(*final(self), action)
                }
            }),
    {
        let on_entry = self.file_browser.selected < self.file_browser.entries.len();
        match self.file_browser.enter(is_dir) {
            Some(path) => {
                self.video_path = Some(path);
                self.start_audio_extraction()
            },
            None => {
                if is_dir && on_entry {
                    Action::ListDirectory { dir: clone_path(&self.file_browser.current_dir) }
                } else {
                    Action::Nothing
                }
            },
        }
    }

    /// Takes a fresh listing of the current directory of the file browser.
    pub fn directory_listed(&mut self, parent: Option<PathBuf>, items: &Vec<DirItem>)
        ensures
            *final(self) == (App { file_browser: final(self).file_browser, ..*old(self) }),
            old(self).file_browser.refreshed(parent, items@, final(self).file_browser),
    {
        self.file_browser.refresh(parent, items);
    }
}

} // verus!
