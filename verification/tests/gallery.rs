use roi_editor::gallery::{
    conversion_for, is_image_extension, is_listed_extension, Conversion, Cursor,
};

#[test]
fn four_extensions_are_listed() {
    assert!(is_listed_extension("png"));
    assert!(is_listed_extension("jpg"));
    assert!(is_listed_extension("jpeg"));
    assert!(is_listed_extension("webp"));
    assert!(!is_listed_extension("PNG"));
    assert!(!is_listed_extension("gif"));
    assert!(!is_listed_extension(""));
}

#[test]
fn image_extensions_are_matched_in_any_case() {
    assert!(is_image_extension(Some("png")));
    assert!(is_image_extension(Some("PNG")));
    assert!(is_image_extension(Some("JpEg")));
    assert!(is_image_extension(Some("WEBP")));
    assert!(!is_image_extension(Some("tiff")));
    assert!(!is_image_extension(Some("")));
    assert!(!is_image_extension(None));
}

#[test]
fn conversion_goes_by_the_switches() {
    assert_eq!(conversion_for(true, false, true), Conversion::Rgb);
    assert_eq!(conversion_for(true, true, true), Conversion::Gray);
    assert_eq!(conversion_for(true, true, false), Conversion::Gray);
    assert_eq!(conversion_for(true, false, false), Conversion::Keep);
    assert_eq!(conversion_for(false, true, true), Conversion::Keep);
    assert_eq!(conversion_for(false, false, false), Conversion::Keep);
}

#[test]
fn cursor_starts_on_the_picked_image() {
    assert_eq!(Cursor::at(5, Some(3)), Cursor { len: 5, index: 3 });
    assert_eq!(Cursor::at(5, None), Cursor { len: 5, index: 0 });
    assert_eq!(Cursor::at(0, None), Cursor { len: 0, index: 0 });
}

#[test]
fn cursor_steps_back_and_stops_at_the_first() {
    let mut cursor = Cursor::at(3, Some(2));
    assert!(!cursor.at_start());
    assert_eq!(cursor.back(), Some(1));
    assert_eq!(cursor.back(), Some(0));
    assert!(cursor.at_start());
    assert_eq!(cursor.back(), None);
    assert_eq!(cursor, Cursor { len: 3, index: 0 });
}

#[test]
fn cursor_steps_forward_and_stops_at_the_last() {
    let mut cursor = Cursor::at(3, None);
    assert!(!cursor.at_end());
    assert_eq!(cursor.forward(), Some(1));
    assert_eq!(cursor.forward(), Some(2));
    assert!(cursor.at_end());
    assert_eq!(cursor.forward(), None);
    assert_eq!(cursor, Cursor { len: 3, index: 2 });
    let mut empty = Cursor::at(0, None);
    assert!(empty.at_end());
    assert_eq!(empty.forward(), None);
    let mut far = Cursor { len: 2, index: usize::MAX };
    assert!(far.at_end());
    assert_eq!(far.forward(), None);
}
