use std::collections::HashSet;

use imghost::config::{storage_ready, url_scheme, AppConfig, DirCreation};
use imghost::errors::ServiceError;
use imghost::host::host_header;
use imghost::naming::{generate_stored_name, get_extension, stored_name, TOKEN_LEN};
use imghost::retrieval::{join_path, read_failure, retrieval_path, safe_segment};
use imghost::upload::{
    admit_field, handle_upload, image_type, prepare_upload, public_url, select_field,
    ParseFailure, UploadedField, FIELD_NAME, MAX_UPLOAD_BYTES,
};

fn config(tls: bool) -> AppConfig {
    AppConfig { storage_path: String::from("store"), port: 8000, tls }
}

fn field(raw: Vec<u8>, file_name: Option<&str>, content_type: Option<&str>) -> UploadedField {
    UploadedField {
        raw,
        file_name: file_name.map(String::from),
        content_type: content_type.map(String::from),
    }
}

fn is_token_char(c: char) -> bool {
    c == '_' || c == '-' || c.is_ascii_alphanumeric()
}

fn check_stored_name(name: &str, ext: &str) {
    let (token, rest) = name.split_at(TOKEN_LEN);
    assert!(token.chars().all(is_token_char), "{}", name);
    assert_eq!(rest, format!(".{}", ext));
}

#[test]
fn scheme_follows_tls_flag() {
    assert_eq!(url_scheme(true), "https");
    assert_eq!(url_scheme(false), "http");
}

#[test]
fn status_codes() {
    assert_eq!(ServiceError::PayloadTooLarge.status(), 400);
    assert_eq!(ServiceError::UnsupportedMediaType.status(), 400);
    assert_eq!(ServiceError::MissingField.status(), 400);
    assert_eq!(ServiceError::BadRequest.status(), 400);
    assert_eq!(ServiceError::NotFound.status(), 404);
    assert_eq!(ServiceError::StorageIo.status(), 500);
}

#[test]
fn extension_of_client_file_name() {
    assert_eq!(get_extension(&Some(String::from("photo.png"))), "png");
    assert_eq!(get_extension(&Some(String::from("archive.tar.gz"))), "gz");
    assert_eq!(get_extension(&Some(String::from("CAPS.JPG"))), "JPG");
    assert_eq!(get_extension(&Some(String::from("dir/pic.webp"))), "webp");
}

#[test]
fn extension_falls_back_to_bin() {
    assert_eq!(get_extension(&None), "bin");
    assert_eq!(get_extension(&Some(String::from("noext"))), "bin");
    assert_eq!(get_extension(&Some(String::from(".bashrc"))), "bin");
    assert_eq!(get_extension(&Some(String::from(""))), "bin");
}

#[test]
fn stored_name_joins_token_and_extension() {
    assert_eq!(stored_name("abcDEF_-09", "png"), "abcDEF_-09.png");
}

#[test]
fn generated_name_has_token_and_extension() {
    let name = generate_stored_name(&Some(String::from("cat.gif")));
    check_stored_name(&name, "gif");
    let name = generate_stored_name(&None);
    check_stored_name(&name, "bin");
}

#[test]
fn generated_names_do_not_collide() {
    let mut seen = HashSet::new();
    for _ in 0..10_000 {
        let name = generate_stored_name(&Some(String::from("a.png")));
        assert!(seen.insert(name));
    }
}

#[test]
fn join_path_cases() {
    assert_eq!(join_path("store", "a.png"), "store/a.png");
    assert_eq!(join_path("store/", "a.png"), "store/a.png");
    assert_eq!(join_path("", "a.png"), "a.png");
}

#[test]
fn safe_segments() {
    assert!(safe_segment("abc.png"));
    assert!(safe_segment("a..b"));
    assert!(!safe_segment(""));
    assert!(!safe_segment("."));
    assert!(!safe_segment(".."));
    assert!(!safe_segment("../etc/passwd"));
    assert!(!safe_segment("a/b"));
}

#[test]
fn retrieval_paths() {
    assert_eq!(retrieval_path("store", "x.png"), Ok(String::from("store/x.png")));
    assert_eq!(retrieval_path("store", ".."), Err(ServiceError::NotFound));
    assert_eq!(retrieval_path("store", "../secret"), Err(ServiceError::NotFound));
}

#[test]
fn missing_file_is_not_found() {
    assert_eq!(read_failure(true), ServiceError::NotFound);
    assert_eq!(read_failure(true).status(), 404);
    assert_eq!(read_failure(false), ServiceError::StorageIo);
}

#[test]
fn image_content_types() {
    assert!(image_type(&Some(String::from("image/png"))));
    assert!(image_type(&Some(String::from("image/svg+xml"))));
    assert!(!image_type(&Some(String::from("image/"))));
    assert!(!image_type(&Some(String::from("text/plain"))));
    assert!(!image_type(&Some(String::from("imagex/png"))));
    assert!(!image_type(&None));
}

#[test]
fn admit_checks_type_then_size() {
    let ok = admit_field(field(vec![1, 2, 3], Some("a.png"), Some("image/png"))).unwrap();
    assert_eq!(ok.raw, vec![1, 2, 3]);
    let r = admit_field(field(vec![1], None, Some("text/plain")));
    assert_eq!(r.err(), Some(ServiceError::UnsupportedMediaType));
    let r = admit_field(field(vec![1], None, None));
    assert_eq!(r.err(), Some(ServiceError::UnsupportedMediaType));
}

#[test]
fn size_limit_is_64_mib() {
    assert_eq!(MAX_UPLOAD_BYTES, 64 * 1024 * 1024);
    let exact = vec![0u8; MAX_UPLOAD_BYTES as usize];
    assert!(admit_field(field(exact, None, Some("image/png"))).is_ok());
}

#[test]
fn oversized_upload_is_refused() {
    let big = vec![0u8; MAX_UPLOAD_BYTES as usize + 1];
    let r = handle_upload(&config(false), "example.com", Ok(vec![field(big, Some("a.png"), Some("image/png"))]));
    let e = r.err().unwrap();
    assert_eq!(e, ServiceError::PayloadTooLarge);
    assert_eq!(e.status(), 400);
    let r = handle_upload(&config(false), "example.com", Err(ParseFailure::TooLarge));
    assert_eq!(r.err(), Some(ServiceError::PayloadTooLarge));
}

#[test]
fn non_image_upload_is_refused() {
    let r = handle_upload(&config(false), "example.com", Ok(vec![field(vec![1, 2], Some("a.txt"), Some("text/plain"))]));
    let e = r.err().unwrap();
    assert_eq!(e, ServiceError::UnsupportedMediaType);
    assert_eq!(e.status(), 400);
    let r = handle_upload(&config(false), "example.com", Err(ParseFailure::NotImage));
    assert_eq!(r.err(), Some(ServiceError::UnsupportedMediaType));
}

#[test]
fn missing_field_and_malformed_body() {
    assert_eq!(select_field(Ok(vec![])).err(), Some(ServiceError::MissingField));
    assert_eq!(select_field(Err(ParseFailure::Malformed)).err(), Some(ServiceError::BadRequest));
    assert_eq!(ServiceError::MissingField.status(), 400);
}

#[test]
fn select_takes_first_occurrence() {
    let f = select_field(Ok(vec![
        field(vec![7], Some("first.png"), Some("image/png")),
        field(vec![8], Some("second.png"), Some("image/png")),
    ]))
    .unwrap();
    assert_eq!(f.raw, vec![7]);
    assert_eq!(f.file_name, Some(String::from("first.png")));
}

#[test]
fn public_url_format() {
    assert_eq!(public_url("https", "img.example", "abc.png"), "https://img.example/i/abc.png");
}

#[test]
fn prepare_upload_plan() {
    let plan = prepare_upload(&config(true), "h:8000", String::from("abcdefghij.png"), vec![9, 8]);
    assert_eq!(plan.file_name, "abcdefghij.png");
    assert_eq!(plan.path, "store/abcdefghij.png");
    assert_eq!(plan.bytes, vec![9, 8]);
    assert_eq!(plan.url, "https://h:8000/i/abcdefghij.png");
}

#[test]
fn upload_round_trip() {
    let bytes: Vec<u8> = (0..=255u8).collect();
    let cfg = config(false);
    let plan = handle_upload(&cfg, "localhost:8000", Ok(vec![field(bytes.clone(), Some("pic.jpeg"), Some("image/jpeg"))]))
        .unwrap();
    check_stored_name(&plan.file_name, "jpeg");
    let prefix = "http://localhost:8000/i/";
    assert!(plan.url.starts_with(prefix));
    let segment = &plan.url[prefix.len()..];
    assert_eq!(segment, plan.file_name);
    assert_eq!(retrieval_path(&cfg.storage_path, segment), Ok(plan.path.clone()));
    assert_eq!(plan.bytes, bytes);
}

#[test]
fn upload_without_file_name_is_bin() {
    let plan = handle_upload(&config(true), "h", Ok(vec![field(vec![1], None, Some("image/png"))])).unwrap();
    check_stored_name(&plan.file_name, "bin");
    assert!(plan.url.starts_with("https://h/i/"));
    let plan = handle_upload(&config(true), "h", Ok(vec![field(vec![1], Some("README"), Some("image/png"))])).unwrap();
    assert!(plan.file_name.ends_with(".bin"));
}

#[test]
fn host_header_presence() {
    assert_eq!(host_header(Some("example.com")).map(|h| h.0), Some("example.com"));
    assert!(host_header(None).is_none());
}

#[test]
fn storage_directory_startup() {
    assert!(storage_ready(DirCreation::Created));
    assert!(storage_ready(DirCreation::AlreadyExists));
    assert!(!storage_ready(DirCreation::Failed));
    assert_eq!(FIELD_NAME, "img");
}
