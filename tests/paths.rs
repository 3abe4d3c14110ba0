use blog_upload::paths::{
    get_full_file_path, get_next_uploading_file_path, get_thumb_file_path,
    PARTIAL_UPLOAD_FILES_DIR,
};

#[test]
fn full_file_path_is_under_the_upload_root() {
    assert_eq!(get_full_file_path("2024/cat.png"), "/blog_upload/2024/cat.png");
}

#[test]
fn thumb_file_path_is_under_the_thumbnail_root() {
    assert_eq!(get_thumb_file_path("2024/cat.png"), "/blog_upload_thumb/2024/cat.png");
}

#[test]
fn absolute_store_path_stands_by_itself() {
    assert_eq!(get_full_file_path("/elsewhere/cat.png"), "/elsewhere/cat.png");
}

#[test]
fn empty_store_path_names_the_root() {
    assert_eq!(get_full_file_path(""), "/blog_upload/");
}

#[test]
fn uploading_file_names_advance() {
    let mut index = 0;
    assert_eq!(
        get_next_uploading_file_path(&mut index),
        format!("{PARTIAL_UPLOAD_FILES_DIR}/uploading0.uploading")
    );
    assert_eq!(index, 1);
    assert_eq!(
        get_next_uploading_file_path(&mut index),
        "app/.partial_upload_files/uploading1.uploading"
    );
    let mut index = 1234;
    assert_eq!(
        get_next_uploading_file_path(&mut index),
        "app/.partial_upload_files/uploading1234.uploading"
    );
    assert_eq!(index, 1235);
}
