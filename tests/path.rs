use lazytool::path::{get_filename, must_get_filename, must_to_string};

#[test]
fn path_bytes_to_text() {
    assert_eq!(must_to_string(b"/tmp/filter"), String::from("/tmp/filter"));
    assert_eq!(must_to_string("/影片/a.mp4".as_bytes()), String::from("/影片/a.mp4"));
}

#[test]
fn invalid_bytes_give_empty_text() {
    assert_eq!(must_to_string(&[0x2f, 0xff, 0x61]), String::new());
}

#[test]
fn filename_of_path() {
    assert_eq!(must_get_filename("/tmp/filter.json"), String::from("filter.json"));
    assert_eq!(must_get_filename("/tmp/dir/"), String::from("dir"));
}

#[test]
fn filename_may_be_missing() {
    assert_eq!(get_filename("/"), None);
    assert_eq!(get_filename("/tmp/.."), None);
    assert_eq!(get_filename("a/b.txt"), Some(String::from("b.txt")));
}
