use image_resizer::error::ResizeError;
use image_resizer::naming::{detect_format, EntryName, Format};

fn text(s: &str) -> EntryName {
    EntryName::Text(s.to_string())
}

#[test]
fn jpg_extension_is_jpeg() {
    assert_eq!(detect_format(&text("a.jpg")), Ok(Some(Format::Jpeg)));
}

#[test]
fn png_extension_is_png() {
    assert_eq!(detect_format(&text("b.png")), Ok(Some(Format::Png)));
}

#[test]
fn last_extension_decides() {
    assert_eq!(detect_format(&text("archive.tar.png")), Ok(Some(Format::Png)));
    assert_eq!(detect_format(&text("photo.png.jpg")), Ok(Some(Format::Jpeg)));
    assert_eq!(detect_format(&text(".hidden.jpg")), Ok(Some(Format::Jpeg)));
}

#[test]
fn other_extensions_are_invalid_format() {
    assert_eq!(detect_format(&text("notes.txt")), Err(ResizeError::InvalidFormat));
    assert_eq!(detect_format(&text("anim.gif")), Err(ResizeError::InvalidFormat));
    assert_eq!(detect_format(&text("photo.jpeg")), Err(ResizeError::InvalidFormat));
}

#[test]
fn extension_match_is_case_sensitive() {
    assert_eq!(detect_format(&text("A.JPG")), Err(ResizeError::InvalidFormat));
    assert_eq!(detect_format(&text("b.Png")), Err(ResizeError::InvalidFormat));
}

#[test]
fn missing_extension_is_invalid_format() {
    assert_eq!(detect_format(&text("README")), Err(ResizeError::InvalidFormat));
    assert_eq!(detect_format(&text(".jpg")), Err(ResizeError::InvalidFormat));
    assert_eq!(detect_format(&text("trailing.")), Err(ResizeError::InvalidFormat));
    assert_eq!(detect_format(&text("..")), Err(ResizeError::InvalidFormat));
    assert_eq!(detect_format(&text("")), Err(ResizeError::InvalidFormat));
}

#[test]
fn name_without_component_is_skipped() {
    assert_eq!(detect_format(&EntryName::Missing), Ok(None));
}

#[test]
fn undecodable_name_is_invalid_str() {
    assert_eq!(detect_format(&EntryName::Undecodable), Err(ResizeError::InvalidStr));
}

#[test]
fn error_messages() {
    assert_eq!(ResizeError::InvalidStr.message(), "Invalid String");
    assert_eq!(
        ResizeError::InvalidFormat.message(),
        "Invalid format found (only Jpeg and Png allowed)"
    );
}
