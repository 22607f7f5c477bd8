use roi_editor::media::{
    data_url, frame_data_url, image_data_url, is_encodable, mime_for_extension, payload_bytes_of,
    payload_of, same_text,
};

#[test]
fn same_text_compares_whole_texts() {
    assert!(same_text("png", "png"));
    assert!(same_text("", ""));
    assert!(!same_text("png", "pn"));
    assert!(!same_text("png", "PNG"));
    assert!(!same_text("", "a"));
}

#[test]
fn known_extensions_have_image_types() {
    assert_eq!(mime_for_extension(Some("png")), "image/png");
    assert_eq!(mime_for_extension(Some("jpg")), "image/jpeg");
    assert_eq!(mime_for_extension(Some("jpeg")), "image/jpeg");
    assert_eq!(mime_for_extension(Some("webp")), "image/webp");
}

#[test]
fn other_extensions_are_octet_streams() {
    assert_eq!(mime_for_extension(None), "application/octet-stream");
    assert_eq!(mime_for_extension(Some("")), "application/octet-stream");
    assert_eq!(mime_for_extension(Some("gif")), "application/octet-stream");
    assert_eq!(mime_for_extension(Some("PNG")), "application/octet-stream");
    assert_eq!(mime_for_extension(Some("png ")), "application/octet-stream");
}

#[test]
fn frame_puts_type_and_payload_into_a_url() {
    assert_eq!(frame_data_url("image/png", "aGVsbG8="), "data:image/png;base64,aGVsbG8=");
    assert_eq!(frame_data_url("", ""), "data:;base64,");
}

#[test]
fn data_url_encodes_in_standard_base64() {
    assert_eq!(data_url("image/png", b"hello"), "data:image/png;base64,aGVsbG8=");
    assert_eq!(data_url("image/jpeg", &[0xff, 0xfe, 0xfd]), "data:image/jpeg;base64,//79");
    assert_eq!(data_url("image/webp", &[0xfb, 0xf0]), "data:image/webp;base64,+/A=");
    assert_eq!(data_url("text/plain", &[]), "data:text/plain;base64,");
}

#[test]
fn image_data_url_goes_by_the_extension() {
    assert_eq!(image_data_url(Some("jpg"), b"hi"), "data:image/jpeg;base64,aGk=");
    assert_eq!(image_data_url(Some("bmp"), b"hi"), "data:application/octet-stream;base64,aGk=");
    assert_eq!(image_data_url(None, b"hi"), "data:application/octet-stream;base64,aGk=");
}

#[test]
fn payload_is_what_follows_the_first_comma() {
    assert_eq!(payload_of("data:image/png;base64,aGVsbG8="), Some("aGVsbG8="));
    assert_eq!(payload_of("a,b,c"), Some("b"));
    assert_eq!(payload_of("a,b"), Some("b"));
    assert_eq!(payload_of(",x"), Some("x"));
    assert_eq!(payload_of("a,"), Some(""));
    assert_eq!(payload_of(","), Some(""));
    assert_eq!(payload_of(",,"), Some(""));
    assert_eq!(payload_of("\u{e9}t\u{e9},\u{fc}ber,z"), Some("\u{fc}ber"));
}

#[test]
fn url_without_a_comma_has_no_payload() {
    assert_eq!(payload_of(""), None);
    assert_eq!(payload_of("data:image/png;base64"), None);
}

#[test]
fn payload_of_a_framed_url_is_the_encoded_text() {
    let bytes: Vec<u8> = (0u8..=255).collect();
    let url = image_data_url(Some("png"), &bytes);
    let payload = payload_of(&url).map(|p| p.to_string());
    assert_eq!(payload_bytes_of(payload.as_deref().unwrap()), Some(bytes));
}

#[test]
fn payload_bytes_are_decoded_from_base64() {
    assert_eq!(payload_bytes_of("aGVsbG8="), Some(b"hello".to_vec()));
    assert_eq!(payload_bytes_of("//79"), Some(vec![0xff, 0xfe, 0xfd]));
    assert_eq!(payload_bytes_of(""), Some(Vec::new()));
}

#[test]
fn text_that_is_no_base64_has_no_bytes() {
    assert_eq!(payload_bytes_of("aGVsbG8"), None);
    assert_eq!(payload_bytes_of("a"), None);
    assert_eq!(payload_bytes_of("****"), None);
    assert_eq!(payload_bytes_of("aGk= "), None);
}

#[test]
fn encodable_lengths() {
    assert!(is_encodable(0));
    assert!(is_encodable(1));
    assert!(is_encodable(1 << 20));
    assert!(is_encodable((isize::MAX as usize) / 4 * 3));
    assert!(!is_encodable((isize::MAX as usize) / 4 * 3 + 1));
    assert!(!is_encodable(usize::MAX));
}
