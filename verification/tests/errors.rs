use srm::error::{FileError, OsError};

#[test]
fn test_file_error_display() {
    let no_file_error = FileError::NoFileSpecified;
    assert_eq!(no_file_error.message(), "No input file specified");

    let io_error = std::io::Error::new(std::io::ErrorKind::NotFound, "file not found");
    let copy_error = FileError::CopyError(OsError::new(&io_error.to_string()));
    assert!(copy_error.message().contains("Failed to copy file"));
}

#[test]
fn no_file_specified_renders_exactly() {
    assert_eq!(FileError::NoFileSpecified.message(), "No input file specified");
}

#[test]
fn copy_error_renders_prefix_then_os_error() {
    let error = FileError::CopyError(OsError::new("file not found"));
    assert_eq!(error.message(), "Failed to copy file: file not found");
}

#[test]
fn delete_error_renders_prefix_then_os_error() {
    let error = FileError::DeleteError(OsError::new("Permission denied (os error 13)"));
    assert_eq!(
        error.message(),
        "Failed to delete original file: Permission denied (os error 13)"
    );
}

#[test]
fn os_error_keeps_its_description() {
    let error = OsError::new("No such file or directory (os error 2)");
    assert_eq!(error.description, "No such file or directory (os error 2)");
    assert_ne!(error, OsError::new(""));
}

#[test]
fn empty_os_error_leaves_the_bare_prefix() {
    assert_eq!(FileError::CopyError(OsError::new("")).message(), "Failed to copy file: ");
    assert_eq!(
        FileError::DeleteError(OsError::new("")).message(),
        "Failed to delete original file: "
    );
}

#[test]
fn os_error_text_is_not_reinterpreted() {
    let error = FileError::CopyError(OsError::new("Failed to copy file: höher\n{}"));
    assert_eq!(error.message(), "Failed to copy file: Failed to copy file: höher\n{}");
}

#[test]
fn renderings_tell_the_kinds_apart() {
    let same = "disk quota exceeded";
    let rendered = vec![
        FileError::NoFileSpecified.message(),
        FileError::CopyError(OsError::new(same)).message(),
        FileError::DeleteError(OsError::new(same)).message(),
    ];
    assert_ne!(rendered[0], rendered[1]);
    assert_ne!(rendered[0], rendered[2]);
    assert_ne!(rendered[1], rendered[2]);
    assert!(rendered[1].ends_with(same));
    assert!(rendered[2].ends_with(same));
}
