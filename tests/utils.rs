use onyx::filesystem::utils::{get_type, get_type_by_name, FileType};

#[test]
fn type_by_name_tests() {
    let paths = [
        ("test.txt", FileType::File(Some("txt"))),
        ("test", FileType::File(None)),
        ("test\\", FileType::Folder),
        ("test/", FileType::Folder),
    ];

    for (path, expected) in paths {
        assert_eq!(expected, get_type_by_name(path));
    }
}

#[test]
fn extension_is_last_alphanumeric_run_after_a_dot() {
    assert_eq!(get_type_by_name("archive.tar.gz"), FileType::File(Some("gz")));
    assert_eq!(get_type_by_name("notes.md~"), FileType::File(None));
    assert_eq!(get_type_by_name(".bashrc"), FileType::File(Some("bashrc")));
    assert_eq!(get_type_by_name("trailing."), FileType::File(None));
    assert_eq!(get_type_by_name(""), FileType::File(None));
}

#[test]
fn type_of_existing_path() {
    assert_eq!(get_type(true), FileType::Folder);
    assert_eq!(get_type(false), FileType::File(None));
}
