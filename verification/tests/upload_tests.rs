use avatar_service::config::{default_upload_dir, AppConfig};
use avatar_service::upload::{
    avatar_url, blob_file_name, classify_field_name, extension_for, success_response, FieldName,
    UploadError,
};

#[test]
fn extension_comes_from_the_filename_suffix() {
    assert_eq!(extension_for("photo.png"), "png");
    assert_eq!(extension_for("archive.tar.gz"), "gz");
    assert_eq!(extension_for("UPPER.JPG"), "JPG");
}

#[test]
fn extension_reads_only_the_final_path_component() {
    assert_eq!(extension_for("dir/photo.png"), "png");
    assert_eq!(extension_for("a.d/photo"), "jpg");
    assert_eq!(extension_for("a.d/.hidden"), "jpg");
}

#[test]
fn extension_ignores_trailing_separators() {
    assert_eq!(extension_for("photo.png/"), "png");
    assert_eq!(extension_for("dir/photo.png//"), "png");
    assert_eq!(extension_for("///"), "jpg");
}

#[test]
fn field_names_classify_to_their_errors() {
    assert_eq!(
        classify_field_name(&FieldName::NoDisposition),
        Some(UploadError::NoContentDisposition)
    );
    assert_eq!(
        classify_field_name(&FieldName::NoFilename),
        Some(UploadError::MissingFilename)
    );
    assert_eq!(
        classify_field_name(&FieldName::Named(String::from("a.png"))),
        None
    );
}

#[test]
fn missing_extension_falls_back_to_jpg() {
    assert_eq!(extension_for("noext"), "jpg");
    assert_eq!(extension_for(""), "jpg");
    assert_eq!(extension_for(".hidden"), "jpg");
    assert_eq!(extension_for(".."), "jpg");
}

#[test]
fn trailing_dot_gives_an_empty_extension() {
    assert_eq!(extension_for("photo."), "");
}

#[test]
fn blob_file_name_joins_id_and_extension() {
    assert_eq!(blob_file_name("abc-123", "png"), "abc-123.png");
}

#[test]
fn avatar_url_names_the_user() {
    assert_eq!(avatar_url("alice"), "/avatars/alice");
    assert_eq!(avatar_url(""), "/avatars/");
}

#[test]
fn success_response_carries_status_and_path() {
    let r = success_response("alice");
    assert_eq!(r.status, "success");
    assert_eq!(r.path, "/avatars/alice");
}

#[test]
fn config_holds_what_it_was_given() {
    let c = AppConfig::new(String::from("tok"), String::from("dir"));
    assert_eq!(c.auth_token, "tok");
    assert_eq!(c.upload_dir, "dir");
    assert_eq!(default_upload_dir(), "uploads");
}
