use penny::files::FileEntry;

#[test]
fn should_create_file_entry() {
    // given
    let path = "src/files/file_entry_test.rs";

    // when
    let result = FileEntry::new(path, true);

    // then
    assert_eq!(result.path, "src/files/file_entry_test.rs");
    assert_eq!(result.name, "file_entry_test.rs");
    assert_eq!(result.is_file, true);
}

#[test]
fn file_entry_without_final_component_is_named_by_its_path() {
    let result = FileEntry::new("music/..", false);
    assert_eq!(result.name, "music/..");
    assert_eq!(result.is_file, false);
}

#[test]
fn entry_takes_the_given_file_name_or_the_path() {
    let named = FileEntry::with_file_name("/music/a.mp3", Some("a.mp3".to_string()), true);
    assert_eq!(named.name, "a.mp3");
    let unnamed = FileEntry::with_file_name("/", None, false);
    assert_eq!(unnamed.name, "/");
    assert_eq!(unnamed.path, "/");
}
