use plato_opds::{FileExtension, FileType, LinkType};

#[test]
fn known_media_types_are_classified() {
    assert_eq!(FileType::from_str("application/epub+zip"), FileType::Epub);
    assert_eq!(FileType::from_str("application/x-cbz"), FileType::Cbz);
    assert_eq!(FileType::from_str("application/pdf"), FileType::Pdf);
}

#[test]
fn unknown_media_type_is_kept_verbatim() {
    assert_eq!(
        FileType::from_str("image/vnd.djvu"),
        FileType::Other("image/vnd.djvu".to_string())
    );
    assert_eq!(FileType::from_str(""), FileType::Other(String::new()));
}

#[test]
fn preview_and_sample_are_one_relation() {
    assert_eq!(
        LinkType::from_str("http://opds-spec.org/acquisition/preview"),
        LinkType::Sample
    );
    assert_eq!(
        LinkType::from_str("http://opds-spec.org/acquisition/sample"),
        LinkType::Sample
    );
}

#[test]
fn extension_text_round_trip() {
    assert_eq!(FileExtension::from_str("epub").to_string(), "epub");
    assert_eq!(FileExtension::from_str("djvu").to_string(), "djvu");
    assert_eq!(FileExtension::from(&FileType::Cbz), FileExtension::Cbz);
}
