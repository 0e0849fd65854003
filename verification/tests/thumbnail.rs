use raw_editor::thumbnail::{get_thumbnail_path, thumbnail_file_name};

#[test]
fn thumbnail_name_is_decimal_id() {
    assert_eq!(thumbnail_file_name(0), "0.jpg");
    assert_eq!(thumbnail_file_name(7), "7.jpg");
    assert_eq!(thumbnail_file_name(10), "10.jpg");
    assert_eq!(thumbnail_file_name(1234567890), "1234567890.jpg");
    assert_eq!(thumbnail_file_name(-5), "-5.jpg");
    assert_eq!(thumbnail_file_name(i64::MAX), format!("{}.jpg", i64::MAX));
    assert_eq!(thumbnail_file_name(i64::MIN), format!("{}.jpg", i64::MIN));
}

#[test]
fn thumbnail_path_joins_directory_and_name() {
    assert_eq!(
        get_thumbnail_path("/home/u/.cache/raw-editor/thumbnails", 42),
        "/home/u/.cache/raw-editor/thumbnails/42.jpg"
    );
    assert_eq!(get_thumbnail_path("", 1), "/1.jpg");
    let p = std::path::PathBuf::from(get_thumbnail_path("cache", 9));
    assert_eq!(p, std::path::Path::new("cache").join("9.jpg"));
}
