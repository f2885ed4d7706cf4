use shared_display::utils::{
    confine, resolve_parts, sanitize_file_name, sanitize_filename, validate_file_path, PathPart,
};

#[test]
fn test_sanitize_filename() {
    // Valid filenames
    assert_eq!(sanitize_filename("test.mp4"), Some("test.mp4".to_string()));
    assert_eq!(sanitize_filename("my file.jpg"), Some("my file.jpg".to_string()));

    // Filenames with path components (should be stripped)
    assert_eq!(sanitize_filename("../test.mp4"), Some("test.mp4".to_string()));
    assert_eq!(sanitize_filename("/etc/passwd"), Some("passwd".to_string()));
    assert_eq!(sanitize_filename("folder/test.mp4"), Some("test.mp4".to_string()));

    // Invalid filenames
    assert_eq!(sanitize_filename(""), None);
    assert_eq!(sanitize_filename("."), None);
    assert_eq!(sanitize_filename(".."), None);

    // Filenames with special characters
    assert_eq!(sanitize_filename("test<file>.mp4"), Some("testfile.mp4".to_string()));
}

#[test]
fn test_validate_file_path() {
    // Valid paths
    assert_eq!(validate_file_path("uploads", "test.mp4"), Some("uploads/test.mp4".to_string()));

    // Path traversal attempts (should be contained within base)
    assert_eq!(
        validate_file_path("uploads", "../etc/passwd"),
        Some("uploads/etc/passwd".to_string())
    );

    assert_eq!(
        validate_file_path("uploads", "folder/../../../etc/passwd"),
        Some("uploads/etc/passwd".to_string())
    );

    // Empty or invalid paths
    assert_eq!(validate_file_path("uploads", ""), Some("uploads".to_string()));
}

#[test]
fn sanitize_drops_every_forbidden_character() {
    assert_eq!(
        sanitize_file_name(Some("a<b>c:d\"e|f?g*h".to_string())),
        Some("abcdefgh".to_string())
    );
}

#[test]
fn sanitize_rejects_what_reduces_to_dots_or_nothing() {
    assert_eq!(sanitize_file_name(None), None);
    assert_eq!(sanitize_file_name(Some(String::new())), None);
    assert_eq!(sanitize_file_name(Some("<>".to_string())), None);
    assert_eq!(sanitize_file_name(Some("<.>".to_string())), None);
    assert_eq!(sanitize_file_name(Some(".:.".to_string())), None);
    assert_eq!(sanitize_file_name(Some("...".to_string())), Some("...".to_string()));
}

#[test]
fn sanitize_keeps_only_the_final_component() {
    assert_eq!(sanitize_filename("a/b/c.txt"), Some("c.txt".to_string()));
    assert_eq!(sanitize_filename("a/b/"), Some("b".to_string()));
    assert_eq!(sanitize_filename("a/.."), None);
    assert_eq!(sanitize_filename("/"), None);
}

#[test]
fn resolve_climbs_no_higher_than_the_start() {
    let parts = vec![
        PathPart::RootDir,
        PathPart::ParentDir,
        PathPart::Normal("a".to_string()),
        PathPart::CurDir,
        PathPart::Normal("b".to_string()),
        PathPart::ParentDir,
        PathPart::Normal("c".to_string()),
    ];
    assert_eq!(resolve_parts(&parts), "a/c");
    let up = vec![PathPart::Normal("a".to_string()), PathPart::ParentDir, PathPart::ParentDir];
    assert_eq!(resolve_parts(&up), "");
    assert_eq!(resolve_parts(&Vec::new()), "");
}

#[test]
fn confine_joins_onto_the_base() {
    let parts = vec![PathPart::Normal("x".to_string()), PathPart::Normal("y.png".to_string())];
    assert_eq!(confine("uploads", &parts), Some("uploads/x/y.png".to_string()));
}

#[test]
fn validate_passes_over_roots_and_current_directories() {
    assert_eq!(validate_file_path("sounds", "/abs/./file.mp3"), Some("sounds/abs/file.mp3".to_string()));
    assert_eq!(validate_file_path("sounds", "a/b/../c"), Some("sounds/a/c".to_string()));
}
