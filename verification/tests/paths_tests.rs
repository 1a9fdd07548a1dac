use backend_supervisor::paths::{
    parent_dir, resolve_from_current_dir, resolve_paths, PathError, Platform,
};

#[test]
fn posix_layout_from_root() {
    let r = resolve_paths("/home/user/project", Platform::Posix);
    assert_eq!(r.working_dir, "/home/user/project/backend");
    assert_eq!(r.entry_script, "/home/user/project/backend/main.py");
    assert_eq!(r.interpreter, "/home/user/project/.venv/bin/python");
}

#[test]
fn windows_layout_from_root() {
    let r = resolve_paths("C:\\Users\\dev\\project", Platform::Windows);
    assert_eq!(r.working_dir, "C:\\Users\\dev\\project\\backend");
    assert_eq!(r.entry_script, "C:\\Users\\dev\\project\\backend\\main.py");
    assert_eq!(
        r.interpreter,
        "C:\\Users\\dev\\project\\.venv\\Scripts\\python.exe"
    );
}

#[test]
fn parent_strips_the_last_component() {
    assert_eq!(parent_dir("/a/b/c", Platform::Posix), Some("/a/b"));
    assert_eq!(parent_dir("/a", Platform::Posix), Some(""));
    assert_eq!(parent_dir("relative", Platform::Posix), None);
    assert_eq!(parent_dir("", Platform::Posix), None);
    assert_eq!(parent_dir("C:\\a\\b", Platform::Windows), Some("C:\\a"));
    // The platform decides which character separates components.
    assert_eq!(parent_dir("/a/b", Platform::Windows), None);
}

#[test]
fn resolution_ascends_two_levels() {
    // The layout the desktop shell actually runs in: the current directory is
    // two levels below the working root.
    let r = resolve_from_current_dir("/home/user/project/app/src-tauri", Platform::Posix)
        .expect("resolution should succeed");
    assert_eq!(r.working_dir, "/home/user/project/backend");
    assert_eq!(r.entry_script, "/home/user/project/backend/main.py");
    assert_eq!(r.interpreter, "/home/user/project/.venv/bin/python");
}

#[test]
fn resolution_fails_without_a_parent() {
    let r = resolve_from_current_dir("no-separator-here", Platform::Posix);
    assert_eq!(r.unwrap_err(), PathError::MissingParent);
}

#[test]
fn resolution_fails_without_a_grandparent() {
    let r = resolve_from_current_dir("/only-one-level", Platform::Posix);
    assert_eq!(r.unwrap_err(), PathError::MissingGrandparent);
}
