use fs_extra::launcher::{view_file, Platform};

#[test]
fn unix_reveal_selects_path() {
    let cmd = view_file("/tmp/x.txt", Some(true), Platform::Unix);
    assert_eq!(cmd.program, "open");
    assert_eq!(cmd.args, vec!["-R", "/tmp/x.txt"]);
}

#[test]
fn finder_defaults_to_reveal() {
    let cmd = view_file("/tmp/x.txt", None, Platform::Unix);
    assert_eq!(cmd.program, "open");
    assert_eq!(cmd.args, vec!["-R", "/tmp/x.txt"]);
}

#[test]
fn unix_plain_open() {
    let cmd = view_file("/home/me/notes.md", Some(false), Platform::Unix);
    assert_eq!(cmd.program, "open");
    assert_eq!(cmd.args, vec!["/home/me/notes.md"]);
}

#[test]
fn windows_reveal_selects_path() {
    let cmd = view_file("C:\\music\\song.mp3", Some(true), Platform::Windows);
    assert_eq!(cmd.program, "explorer");
    assert_eq!(cmd.args, vec!["/select,", "C:\\music\\song.mp3"]);
}

#[test]
fn windows_plain_open() {
    let cmd = view_file("C:\\music", Some(false), Platform::Windows);
    assert_eq!(cmd.program, "explorer");
    assert_eq!(cmd.args, vec!["C:\\music"]);
}
