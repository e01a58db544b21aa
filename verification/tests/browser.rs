use auto_subs::browser::{is_video_extension_text, is_video_file, DirItem, FileBrowser};
use std::path::PathBuf;

fn item(name: &str, is_dir: bool) -> DirItem {
    let path = PathBuf::from("/home/me").join(name);
    DirItem {
        extension: path.extension().map(|e| e.to_string_lossy().into_owned()),
        path,
        name: String::from(name),
        is_dir,
    }
}

fn paths(names: &[&str]) -> Vec<PathBuf> {
    names.iter().map(PathBuf::from).collect()
}

#[test]
fn video_files_are_known_by_extension() {
    for ext in ["mp4", "mkv", "avi", "mov", "webm", "flv", "wmv", "m4v", "MP4", "Mkv", "WEBM"] {
        assert!(is_video_file(&Some(String::from(ext))), "{}", ext);
    }
    for ext in ["", "mp3", "srt", "mp44", "m4", " mp4"] {
        assert!(!is_video_file(&Some(String::from(ext))), "{}", ext);
    }
    assert!(!is_video_file(&None));
}

#[test]
fn refresh_lists_parent_directories_and_videos() {
    let mut b = FileBrowser::new(PathBuf::from("/home/me"));
    assert!(b.entries.is_empty());
    assert_eq!(b.selected, 0);
    assert!(!b.show_hidden);
    let items = vec![
        item("z.mp4", false),
        item("notes.txt", false),
        item("music", true),
        item(".cache", true),
        item("a.MKV", false),
        item(".hidden.mp4", false),
        item("docs", true),
        item("noext", false),
    ];
    b.refresh(Some(PathBuf::from("/home")), &items);
    assert_eq!(b.entries, paths(&[
        "/home",
        "/home/me/docs",
        "/home/me/music",
        "/home/me/a.MKV",
        "/home/me/z.mp4"
    ]));
    assert_eq!(b.current_dir, PathBuf::from("/home/me"));

    b.show_hidden = true;
    b.refresh(None, &items);
    assert_eq!(b.entries, paths(&[
        "/home/me/.cache",
        "/home/me/docs",
        "/home/me/music",
        "/home/me/.hidden.mp4",
        "/home/me/a.MKV",
        "/home/me/z.mp4"
    ]));
}

#[test]
fn refresh_keeps_the_cursor_on_the_list() {
    let mut b = FileBrowser::new(PathBuf::from("/"));
    b.selected = 7;
    b.refresh(None, &vec![item("a.mp4", false), item("b.mp4", false)]);
    assert_eq!(b.selected, 1);
    b.refresh(None, &Vec::new());
    assert_eq!(b.selected, 0);
    b.refresh(None, &vec![item("a.mp4", false), item("b.mp4", false), item("c.mp4", false)]);
    b.selected = 1;
    b.refresh(None, &vec![item("a.mp4", false), item("b.mp4", false), item("c.mp4", false)]);
    assert_eq!(b.selected, 1);
}

#[test]
fn cursor_moves_within_the_list() {
    let mut b = FileBrowser::new(PathBuf::from("/"));
    b.up();
    assert_eq!(b.selected, 0);
    b.down();
    assert_eq!(b.selected, 0);
    b.refresh(None, &vec![item("a.mp4", false), item("b.mp4", false)]);
    b.down();
    assert_eq!(b.selected, 1);
    b.down();
    assert_eq!(b.selected, 1);
    b.up();
    assert_eq!(b.selected, 0);
}

#[test]
fn enter_opens_directories_and_hands_out_files() {
    let mut b = FileBrowser::new(PathBuf::from("/home/me"));
    assert_eq!(b.selected_path(), None);
    assert_eq!(b.enter(true), None);
    assert_eq!(b.enter(false), None);
    assert_eq!(b.current_dir, PathBuf::from("/home/me"));
    b.refresh(Some(PathBuf::from("/home")), &vec![item("docs", true), item("a.mp4", false)]);
    b.selected = 2;
    assert_eq!(b.selected_path(), Some(PathBuf::from("/home/me/a.mp4")));
    assert_eq!(b.enter(false), Some(PathBuf::from("/home/me/a.mp4")));
    assert_eq!(b.selected, 2);
    b.selected = 1;
    assert_eq!(b.enter(true), None);
    assert_eq!(b.current_dir, PathBuf::from("/home/me/docs"));
    assert_eq!(b.selected, 0);
}

#[test]
fn lowered_extensions_of_videos() {
    for ext in ["mp4", "mkv", "avi", "mov", "webm", "flv", "wmv", "m4v"] {
        assert!(is_video_extension_text(ext), "{}", ext);
    }
    for ext in ["MP4", "", "mp", "mp4 ", "srt", "wav"] {
        assert!(!is_video_extension_text(ext), "{}", ext);
    }
}
