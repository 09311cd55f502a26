use ufs::handle::{get_subdir_and_name, target_path, upload_service, upload_succeeded};
use ufs::multipart::{client_content_type_vec, encode_upload, parse_upload, ParseOutcome};

#[test]
fn test_split() {
    let s = "taskid-uuid-123123/home/chenge/workplace/ufs/config/default.toml";
    let (subdir, name) = get_subdir_and_name(s, "/");
    assert_eq!(subdir, "taskid-uuid-123123");
    assert_eq!(name, "default.toml");
}

#[test]
fn test_split_without_separator() {
    let (subdir, name) = get_subdir_and_name("upload.txt", "/");
    assert_eq!(subdir, "upload.txt");
    assert_eq!(name, "upload.txt");
}

#[test]
fn test_split_two_segments() {
    let (subdir, name) = get_subdir_and_name("sub/name.txt", "/");
    assert_eq!(subdir, "sub");
    assert_eq!(name, "name.txt");
}

fn ctype(boundary: &str) -> Vec<u8> {
    let mut c = b"multipart/form-data; boundary=".to_vec();
    c.extend_from_slice(boundary.as_bytes());
    c
}

fn single_field_body(boundary: &str, filename: &str, bytes: &[u8]) -> Vec<u8> {
    let mut body = Vec::new();
    body.extend_from_slice(b"--");
    body.extend_from_slice(boundary.as_bytes());
    body.extend_from_slice(b"\r\nContent-Disposition: form-data; name=\"file\"; filename=\"");
    body.extend_from_slice(filename.as_bytes());
    body.extend_from_slice(b"\"\r\nContent-Type: text/plain\r\n\r\n");
    body.extend_from_slice(bytes);
    body.extend_from_slice(b"\r\n--");
    body.extend_from_slice(boundary.as_bytes());
    body.extend_from_slice(b"--\r\n");
    body
}

#[test]
fn test_post_stores_field_bytes() {
    let body = single_field_body("xyz", "sub/name.txt", b"hello bytes");
    let r = upload_service("POST", &ctype("xyz"), &body);
    assert_eq!(r.status, 200);
    let store = r.store.expect("a successful upload stores a file");
    assert_eq!(store.subdir, b"sub".to_vec());
    assert_eq!(store.file_name, b"name.txt".to_vec());
    assert_eq!(store.bytes, b"hello bytes".to_vec());
}

#[test]
fn test_get_and_put_are_rejected() {
    let body = single_field_body("xyz", "sub/name.txt", b"hello");
    let r = upload_service("GET", &ctype("xyz"), &body);
    assert_eq!(r.status, 405);
    assert!(r.store.is_none());
    let r = upload_service("PUT", &ctype("xyz"), &body);
    assert_eq!(r.status, 405);
    assert!(r.store.is_none());
}

#[test]
fn test_head_is_rejected() {
    let body = single_field_body("xyz", "sub/name.txt", b"hello");
    let r = upload_service("HEAD", &ctype("xyz"), &body);
    assert_eq!(r.status, 405);
    assert!(r.store.is_none());
}

#[test]
fn test_body_without_fields_is_rejected() {
    let body = b"--xyz--\r\n".to_vec();
    let r = upload_service("POST", &ctype("xyz"), &body);
    assert_eq!(r.status, 400);
    assert!(r.store.is_none());
}

#[test]
fn test_field_without_content_is_rejected() {
    let body = single_field_body("xyz", "sub/name.txt", b"");
    let r = upload_service("POST", &ctype("xyz"), &body);
    assert_eq!(r.status, 400);
    assert!(r.store.is_none());
}

#[test]
fn test_missing_boundary_is_rejected() {
    let body = single_field_body("xyz", "sub/name.txt", b"hello");
    let r = upload_service("POST", &b"text/plain".to_vec(), &body);
    assert_eq!(r.status, 400);
    assert!(r.store.is_none());
    let r = upload_service("POST", &b"multipart/form-data; boundary=".to_vec(), &body);
    assert_eq!(r.status, 400);
    assert!(r.store.is_none());
}

#[test]
fn test_malformed_body_is_rejected() {
    let body = b"not a multipart body at all".to_vec();
    let r = upload_service("POST", &ctype("xyz"), &body);
    assert_eq!(r.status, 400);
    assert!(r.store.is_none());
}

#[test]
fn test_encode_upload_exact_envelope() {
    let enc = encode_upload(&b"abc".to_vec());
    let expected = "--------------------------ea3bbcf87c101592\r\nContent-Disposition: form-data; name=\"file\"; filename=\"upload.txt\"\r\nContent-Type: text/plain\r\n\r\nabc\r\n--------------------------ea3bbcf87c101592--\r\n";
    assert_eq!(enc, expected.as_bytes().to_vec());
}

#[test]
fn test_round_trip_client_to_server() {
    let data = b"the contents of the file".to_vec();
    let body = encode_upload(&data);
    let r = upload_service("POST", &client_content_type_vec(), &body);
    assert_eq!(r.status, 200);
    let store = r.store.expect("the round trip stores a file");
    assert_eq!(store.subdir, b"upload.txt".to_vec());
    assert_eq!(store.file_name, b"upload.txt".to_vec());
    assert_eq!(store.bytes, data);
}

#[test]
fn test_parse_upload_field_without_filename() {
    let boundary = "xyz";
    let mut body = Vec::new();
    body.extend_from_slice(b"--xyz\r\nContent-Disposition: form-data; name=\"file\"\r\n\r\n");
    body.extend_from_slice(b"payload\r\n--xyz--\r\n");
    match parse_upload(&body, &boundary.as_bytes().to_vec()) {
        ParseOutcome::Field(f) => {
            assert_eq!(f.name, b"file".to_vec());
            assert!(f.file_name.is_none());
            assert_eq!(f.bytes, b"payload".to_vec());
        },
        _ => panic!("a well-formed field must parse"),
    }
    let r = upload_service("POST", &ctype("xyz"), &body);
    assert_eq!(r.status, 400);
    assert!(r.store.is_none());
}

#[test]
fn test_target_path_joins_segments() {
    let p = target_path("root/fs", "sub", "name.txt");
    assert_eq!(p, "root/fs/sub/name.txt");
}

#[test]
fn test_upload_succeeded_statuses() {
    assert!(upload_succeeded(200));
    assert!(upload_succeeded(204));
    assert!(!upload_succeeded(400));
    assert!(!upload_succeeded(405));
    assert!(!upload_succeeded(500));
}
