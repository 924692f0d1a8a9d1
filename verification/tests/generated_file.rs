use ai_sdk_core::generate_text::content::GeneratedFile;

#[test]
fn test_generated_file_new() {
    let file = GeneratedFile::from_base64("SGVsbG8gV29ybGQ=", "text/plain").with_name("test.txt");

    assert_eq!(file.name, Some("test.txt".to_string()));
    assert_eq!(file.base64(), "SGVsbG8gV29ybGQ=");
    assert_eq!(file.media_type, "text/plain");
}

#[test]
fn generated_file_from_bytes_encodes_base64() {
    let file = GeneratedFile::from_bytes(b"Hello World".to_vec(), "text/plain");
    assert_eq!(file.base64(), "SGVsbG8gV29ybGQ=");
    assert_eq!(file.name, None);
}

#[test]
fn generated_file_from_empty_bytes() {
    let file = GeneratedFile::from_bytes(Vec::new(), "application/octet-stream");
    assert_eq!(file.base64(), "");
}
