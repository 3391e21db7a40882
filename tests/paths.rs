use tstauri::paths::clean_path;

#[test]
fn clean_path_leaves_plain_path() {
    assert_eq!(clean_path(r"C:\Program Files\App"), r"C:\Program Files\App");
    assert_eq!(clean_path("/usr/share/app"), "/usr/share/app");
    assert_eq!(clean_path(""), "");
}

#[test]
fn clean_path_removes_prefix_only() {
    assert_eq!(clean_path(r"\\?\C:\Program Files\App"), r"C:\Program Files\App");
    assert_eq!(clean_path(r"\\?\"), "");
    assert_eq!(clean_path(r"\\server\share"), r"\\server\share");
}

#[test]
fn clean_path_is_idempotent() {
    for p in [r"\\?\C:\x", r"C:\x", r"\\?\\\?\D:\y", "/tmp"] {
        let once = clean_path(p);
        assert_eq!(clean_path(&once), once);
    }
    assert_eq!(clean_path(r"\\?\\\?\D:\y"), r"D:\y");
}
