use plato_opds::opds::{Entry, Link};
use plato_opds::resolve::{confirm, resolve, select_link, Resolution};
use plato_opds::settings::Settings;
use plato_opds::{FileExtension, LinkType};

const EPUB: &str = "application/epub+zip";
const PDF: &str = "application/pdf";

fn acquisition(href: &str, media_type: &str) -> Link {
    Link {
        rel: Some(LinkType::Acquisition),
        href: Some(href.to_string()),
        file_type: Some(media_type.to_string()),
    }
}

fn entry(id: &str, links: Vec<Link>) -> Entry {
    Entry {
        title: "Dune".to_string(),
        id: id.to_string(),
        authors: None,
        publishers: None,
        links: Some(links),
        published: None,
    }
}

fn settings(preferred: &[&str]) -> Settings {
    let mut s = Settings::default();
    s.preferred_file_types = preferred.iter().map(|t| t.to_string()).collect();
    s
}

#[test]
fn settings_order_wins_over_feed_order() {
    let e = entry(
        "urn:uuid:abc",
        vec![acquisition("/get/abc.epub", EPUB), acquisition("/get/abc.pdf", PDF)],
    );
    let s = settings(&[PDF, EPUB]);
    let link = select_link(&e, &s.preferred_file_types).unwrap();
    assert_eq!(link.href, Some("/get/abc.pdf".to_string()));
    match resolve(e, &s, "lib1", "savePath") {
        Resolution::Candidate(c) => {
            assert_eq!(c.result.link.file_type, Some(PDF.to_string()));
            assert_eq!(c.result.file_extension, FileExtension::Pdf);
            assert_eq!(c.result.save_path, "savePath/Documents/abc.pdf");
        }
        other => panic!("no candidate: {:?}", other),
    }
}

#[test]
fn first_link_of_a_type_is_taken() {
    let e = entry(
        "urn:uuid:abc",
        vec![acquisition("/first.epub", EPUB), acquisition("/second.epub", EPUB)],
    );
    let link = select_link(&e, &settings(&[EPUB]).preferred_file_types).unwrap();
    assert_eq!(link.href, Some("/first.epub".to_string()));
}

#[test]
fn grouped_by_server_and_by_type() {
    let mut s = Settings::default();
    s.organization = vec![("epub".to_string(), "Books".to_string())];
    let e = entry("urn:uuid:abc", vec![acquisition("/get/abc.epub", EPUB)]);
    match resolve(e, &s, "lib1", "savePath") {
        Resolution::Candidate(c) => {
            assert_eq!(c.result.save_path, "savePath/Books/abc.epub");
            assert_eq!(c.directory, Some("savePath/Books".to_string()));
            assert_eq!(c.result.entry.id, "urn:uuid:abc");
        }
        other => panic!("no candidate: {:?}", other),
    }
}

#[test]
fn server_directory_and_missing_table_entry() {
    let mut s = settings(&[PDF, "image/vnd.djvu"]);
    s.use_server_name_directories = false;
    let e = entry("urn:uuid:abc", vec![acquisition("/get/abc.djvu", "image/vnd.djvu")]);
    match resolve(e, &s, "lib1", "/save") {
        Resolution::Candidate(c) => {
            assert_eq!(c.result.save_path, "/save/lib1/abc.image/vnd.djvu");
            assert_eq!(c.directory, None);
            assert_eq!(
                c.result.file_extension,
                FileExtension::Other("image/vnd.djvu".to_string())
            );
        }
        other => panic!("no candidate: {:?}", other),
    }
    s.organize_by_file_type = false;
    let e = entry("urn:uuid:abc", vec![acquisition("/get/abc.pdf", PDF)]);
    match resolve(e, &s, "lib1", "/save") {
        Resolution::Candidate(c) => {
            assert_eq!(c.result.save_path, "/save/lib1/abc.pdf");
            assert_eq!(c.directory, None);
        }
        other => panic!("no candidate: {:?}", other),
    }
}

#[test]
fn no_wanted_link_is_a_miss() {
    let s = settings(&[EPUB]);
    let only_pdf = entry("urn:uuid:abc", vec![acquisition("/get/abc.pdf", PDF)]);
    assert!(matches!(resolve(only_pdf, &s, "lib1", "/save"), Resolution::NoAcquisitionLink));
    let cover = Link {
        rel: Some(LinkType::Cover),
        href: Some("/cover".to_string()),
        file_type: Some(EPUB.to_string()),
    };
    let no_relation =
        Link { rel: None, href: Some("/x".to_string()), file_type: Some(EPUB.to_string()) };
    let e = entry("urn:uuid:abc", vec![cover, no_relation]);
    assert!(matches!(resolve(e, &s, "lib1", "/save"), Resolution::NoAcquisitionLink));
    let mut bare = entry("urn:uuid:abc", vec![]);
    bare.links = None;
    assert!(matches!(resolve(bare, &s, "lib1", "/save"), Resolution::NoAcquisitionLink));
    let e = entry("urn:uuid:abc", vec![acquisition("/get/abc.epub", EPUB)]);
    assert!(matches!(resolve(e, &settings(&[]), "lib1", "/save"), Resolution::NoAcquisitionLink));
}

#[test]
fn foreign_identifier_is_skipped() {
    let s = settings(&[EPUB]);
    let e = entry("urn:isbn:12345", vec![acquisition("/get/abc.epub", EPUB)]);
    assert!(matches!(resolve(e, &s, "lib1", "/save"), Resolution::Skipped));
    let e = entry("URN:UUID:abc", vec![acquisition("/get/abc.epub", EPUB)]);
    assert!(matches!(resolve(e, &s, "lib1", "/save"), Resolution::Skipped));
    let e = entry("urn:uuid:", vec![acquisition("/get/abc.epub", EPUB)]);
    match resolve(e, &s, "lib1", "/save") {
        Resolution::Candidate(c) => assert_eq!(c.result.save_path, "/save/Books/.epub"),
        other => panic!("no candidate: {:?}", other),
    }
}

#[test]
fn the_link_is_looked_for_first() {
    let s = settings(&[EPUB]);
    let e = entry("abc", vec![]);
    assert!(matches!(resolve(e, &s, "lib1", "/save"), Resolution::NoAcquisitionLink));
    let e = entry("abc", vec![acquisition("/get/abc.pdf", PDF)]);
    assert!(matches!(resolve(e, &s, "lib1", "/save"), Resolution::NoAcquisitionLink));
}

#[test]
fn a_candidate_is_confirmed_by_the_disk() {
    let s = settings(&[EPUB]);
    let candidate = |s: &Settings| match resolve(
        entry("urn:uuid:abc", vec![acquisition("/get/abc.epub", EPUB)]),
        s,
        "lib1",
        "/save",
    ) {
        Resolution::Candidate(c) => c,
        other => panic!("no candidate: {:?}", other),
    };
    assert_eq!(confirm(candidate(&s), true, false).unwrap().save_path, "/save/Books/abc.epub");
    assert!(confirm(candidate(&s), true, true).is_none());
    assert!(confirm(candidate(&s), false, false).is_none());
    assert!(confirm(candidate(&s), false, true).is_none());
}

#[test]
fn shared_root_does_not_name_the_server() {
    let s = Settings::default();
    let path = |server: &str| match resolve(
        entry("urn:uuid:abc", vec![acquisition("/get/abc.epub", EPUB)]),
        &s,
        server,
        "/save",
    ) {
        Resolution::Candidate(c) => (c.directory, c.result.save_path),
        other => panic!("no candidate: {:?}", other),
    };
    assert_eq!(path("lib1"), path("lib2"));
    assert_eq!(path("lib1"), (Some("/save/Books".to_string()), "/save/Books/abc.epub".to_string()));
}
