use prefix_by_date::processing::Error;
use prefix_by_date::replacement::{resolved_path, Replacement};

fn path() -> String {
    String::from("/this/is/a/test.pdf")
}

#[test]
fn try_from() {
    let replacement = Replacement::try_from(path().as_str()).unwrap();

    assert_eq!(String::from("test"), replacement.file_stem);
    assert_eq!(path(), replacement.new_path());
}

#[test]
fn customized_file_stem() {
    let mut replacement = Replacement::try_from(path().as_str()).unwrap();
    replacement.new_file_stem = String::from("success.txt");

    assert_eq!(String::from("test"), replacement.file_stem);
    assert_eq!(String::from("/this/is/a/success.txt.pdf"), replacement.new_path());
}

#[test]
fn new_file_stem_fn() {
    let replacement = Replacement::try_from(path().as_str())
        .unwrap()
        .new_file_stem("success".to_string());
    assert_eq!(String::from("/this/is/a/success.pdf"), replacement.new_path());
}

#[test]
fn replacement_parts_of_a_path() {
    let replacement = Replacement::try_from("/this/is/a/test.pdf").unwrap();
    assert_eq!("/this/is/a", replacement.parent);
    assert_eq!("test", replacement.file_stem);
    assert_eq!("test", replacement.new_file_stem);
    assert_eq!(Some(String::from("pdf")), replacement.extension);
    assert_eq!("test.pdf", replacement.file_name());
    assert_eq!("/this/is/a/test.pdf", replacement.path());
}

#[test]
fn replacement_without_extension() {
    let replacement = Replacement::try_from("/test/foo 20240120").unwrap();
    assert_eq!("/test", replacement.parent);
    assert_eq!("foo 20240120", replacement.file_stem);
    assert_eq!(None, replacement.extension);
    assert_eq!("foo 20240120", replacement.file_name());
}

#[test]
fn replacement_of_a_relative_name() {
    let replacement = Replacement::try_from("foo.bar").unwrap();
    assert_eq!("", replacement.parent);
    assert_eq!("foo", replacement.file_stem);
    assert_eq!(Some(String::from("bar")), replacement.extension);
    assert_eq!("foo.bar", replacement.path());
}

#[test]
fn replacement_keeps_all_but_the_last_extension() {
    let replacement = Replacement::try_from("/a/archive.tar.gz").unwrap();
    assert_eq!("archive.tar", replacement.file_stem);
    assert_eq!(Some(String::from("gz")), replacement.extension);
}

#[test]
fn replacement_of_a_hidden_file_has_no_extension() {
    let replacement = Replacement::try_from("/home/.profile").unwrap();
    assert_eq!(".profile", replacement.file_stem);
    assert_eq!(None, replacement.extension);
}

#[test]
fn replacement_of_the_root_fails() {
    match Replacement::try_from("/") {
        Err(Error::PathUnwrap(path, what)) => {
            assert_eq!("/", path);
            assert_eq!("parent", what);
        }
        other => panic!("unexpected: {:?}", other),
    }
}

#[test]
fn replacement_of_a_parent_dir_fails() {
    match Replacement::try_from("/a/..") {
        Err(Error::PathUnwrap(path, what)) => {
            assert_eq!("/a/..", path);
            assert_eq!("file_stem", what);
        }
        other => panic!("unexpected: {:?}", other),
    }
}

#[test]
fn replacement_display() {
    let replacement = Replacement::try_from("/this/is/a/test.pdf")
        .unwrap()
        .new_file_stem(String::from("2024-01-20 test"));
    assert_eq!("/this/is/a/{test => 2024-01-20 test}.pdf", replacement.to_display());
    assert_eq!("/this/is/a/2024-01-20 test.pdf", replacement.new_path());
    assert_eq!("2024-01-20 test.pdf", replacement.new_file_name());
}

#[test]
fn replacement_unchanged_stem_keeps_the_path() {
    let replacement = Replacement::try_from("/x/y.z").unwrap();
    assert_eq!(replacement.path(), replacement.new_path());
}

#[test]
fn replacement_default_is_empty() {
    let replacement = Replacement::default();
    assert_eq!("", replacement.parent);
    assert_eq!("", replacement.file_stem);
    assert_eq!("", replacement.new_file_stem);
    assert_eq!(Some(String::new()), replacement.extension);
    assert_eq!(".", replacement.file_name());
}

#[test]
fn resolved_path_takes_the_directory_found_on_disk() {
    assert_eq!("/real/dir/foo", resolved_path("/link/foo", &Some(String::from("/real/dir"))));
    assert_eq!("/real/dir/foo.txt", resolved_path("dir/foo.txt", &Some(String::from("/real/dir"))));
    assert_eq!("/link/foo", resolved_path("/link/foo", &None));
    assert_eq!("/", resolved_path("/", &Some(String::from("/real"))));
}

#[test]
fn replacement_clone_is_equal() {
    let replacement = Replacement::try_from("/x/y.z").unwrap();
    assert_eq!(replacement, replacement.clone());
}
