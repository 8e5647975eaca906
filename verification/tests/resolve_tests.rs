use lamb::resolve::{basename, resolve, validate, FileKind};
use lamb::Error;

fn s(x: &str) -> String {
    String::from(x)
}

#[test]
fn basename_plain_name() {
    assert_eq!(basename("a.txt"), Some(s("a.txt")));
}

#[test]
fn basename_nested_path() {
    assert_eq!(basename("x/y/a.txt"), Some(s("a.txt")));
}

#[test]
fn basename_ignores_trailing_separators() {
    assert_eq!(basename("a/"), Some(s("a")));
    assert_eq!(basename("foo//"), Some(s("foo")));
    assert_eq!(basename("/x/dir///"), Some(s("dir")));
}

#[test]
fn basename_of_root_is_none() {
    assert_eq!(basename("/"), None);
    assert_eq!(basename("///"), None);
}

#[test]
fn basename_of_empty_is_none() {
    assert_eq!(basename(""), None);
}

#[test]
fn basename_of_dot_components_is_none() {
    assert_eq!(basename("."), None);
    assert_eq!(basename("./"), None);
    assert_eq!(basename(".."), None);
    assert_eq!(basename("x/.."), None);
    assert_eq!(basename("x/../"), None);
}

#[test]
fn basename_skips_trailing_dot_components() {
    assert_eq!(basename("foo.txt/."), Some(s("foo.txt")));
    assert_eq!(basename("x/./"), Some(s("x")));
    assert_eq!(basename("foo/./."), Some(s("foo")));
    assert_eq!(basename("./a"), Some(s("a")));
}

#[test]
fn basename_keeps_hidden_files() {
    assert_eq!(basename(".hidden"), Some(s(".hidden")));
    assert_eq!(basename("..."), Some(s("...")));
}

// For all existing-directory destinations, the target is dest/basename(source).
#[test]
fn resolve_into_directory_appends_basename() {
    let r = resolve(&s("a.txt"), &s("dest"), FileKind::Directory);
    assert_eq!(r.ok(), Some(s("dest/a.txt")));
}

#[test]
fn resolve_into_directory_uses_basename_of_nested_source() {
    let r = resolve(&s("x/y/a.txt"), &s("dest"), FileKind::Directory);
    assert_eq!(r.ok(), Some(s("dest/a.txt")));
}

// A non-existing destination is taken verbatim as the link name.
#[test]
fn resolve_missing_destination_is_verbatim() {
    let r = resolve(&s("a.txt"), &s("b.txt"), FileKind::Missing);
    assert_eq!(r.ok(), Some(s("b.txt")));
}

#[test]
fn resolve_existing_file_destination_is_verbatim() {
    let r = resolve(&s("a.txt"), &s("b.txt"), FileKind::Other);
    assert_eq!(r.ok(), Some(s("b.txt")));
}

#[test]
fn resolve_source_without_basename_fails() {
    let r = resolve(&s(".."), &s("dest"), FileKind::Directory);
    assert!(matches!(r, Err(Error::MissingFileName)));
    let r = resolve(&s(""), &s("dest"), FileKind::Directory);
    assert!(matches!(r, Err(Error::MissingFileName)));
}

#[test]
fn validate_needs_two_paths() {
    let r = validate(&vec![s("a.txt")], FileKind::Missing);
    match r {
        Err(Error::LambError(m)) => assert_eq!(m, "Incorrect Arguments"),
        _ => panic!("expected a usage error"),
    }
    let r = validate(&Vec::new(), FileKind::Missing);
    assert!(matches!(r, Err(Error::LambError(_))));
}

#[test]
fn validate_accepts_a_single_pair() {
    assert!(validate(&vec![s("a.txt"), s("b.txt")], FileKind::Missing).is_ok());
    assert!(validate(&vec![s("a.txt"), s("b.txt")], FileKind::Other).is_ok());
}

#[test]
fn validate_accepts_batch_into_directory() {
    let file = vec![s("a.txt"), s("b.txt"), s("dest")];
    assert!(validate(&file, FileKind::Directory).is_ok());
}

#[test]
fn validate_rejects_batch_without_directory() {
    let file = vec![s("a.txt"), s("b.txt"), s("c.txt"), s("file.txt")];
    let r = validate(&file, FileKind::Other);
    match r {
        Err(Error::NotADirectory { path }) => assert_eq!(path, "file.txt"),
        _ => panic!("expected NotADirectory"),
    }
    let r = validate(&file, FileKind::Missing);
    assert!(matches!(r, Err(Error::NotADirectory { .. })));
}

#[test]
fn error_messages() {
    assert_eq!(
        Error::NotADirectory { path: String::from("file.txt") }.message(),
        "'file.txt' is not a directory"
    );
    assert_eq!(Error::Canceled.message(), "Canceled");
    assert_eq!(Error::MissingFileName.message(), "Failed to get file name");
    assert_eq!(Error::LambError(String::from("boom")).message(), "boom");
}
