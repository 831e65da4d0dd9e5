use plato_opds::notify::{failure_message, finished_message, miss_message, print_sync_notification};
use plato_opds::opds::{Author, Entry, Link};
use plato_opds::record::{author_of, document_record};
use plato_opds::resolve::EntryResult;
use plato_opds::FileExtension;

fn result(extension: FileExtension, path: &str) -> EntryResult {
    EntryResult {
        link: Link::default(),
        file_extension: extension,
        entry: Entry {
            title: "Dune".to_string(),
            id: "urn:uuid:56e99d4d-bef9-445e-8162-35aaef306006".to_string(),
            authors: Some(vec![
                Author { name: "Frank Herbert".to_string() },
                Author { name: "Second Author".to_string() },
            ]),
            publishers: None,
            links: None,
            published: Some(1965),
        },
        save_path: path.to_string(),
    }
}

#[test]
fn nothing_found_nothing_said() {
    assert!(print_sync_notification(&"lib1".to_string(), &[]).is_empty());
}

#[test]
fn counts_by_extension_in_order_of_first_occurrence() {
    let results = vec![
        result(FileExtension::Epub, "a"),
        result(FileExtension::Pdf, "b"),
        result(FileExtension::Epub, "c"),
        result(FileExtension::Other("djvu".to_string()), "d"),
        result(FileExtension::Epub, "e"),
    ];
    assert_eq!(
        print_sync_notification(&"lib1".to_string(), &results),
        vec![
            "Downloading 5 new documents found on 'lib1'".to_string(),
            "Downloading 3 new epub's".to_string(),
            "Downloading 1 new pdf's".to_string(),
            "Downloading 1 new djvu's".to_string(),
        ]
    );
}

#[test]
fn a_dozen_of_one_kind() {
    let results: Vec<EntryResult> = (0..12).map(|_| result(FileExtension::Cbz, "x")).collect();
    assert_eq!(
        print_sync_notification(&"comics".to_string(), &results),
        vec![
            "Downloading 12 new documents found on 'comics'".to_string(),
            "Downloading 12 new cbz's".to_string(),
        ]
    );
}

#[test]
fn notices_of_a_run() {
    assert_eq!(miss_message("Dune"), "Error downloading 'Dune': no acquisition link found.");
    assert_eq!(
        failure_message("Dune", "connection reset"),
        "Error downloading 'Dune': connection reset."
    );
    assert_eq!(finished_message("lib1"), "Finished syncing with 'lib1'");
}

#[test]
fn record_of_a_download_in_the_library() {
    let r = result(FileExtension::Epub, "/mnt/onboard/opds/Books/56e9.epub");
    let info = document_record(
        &r,
        "/mnt/onboard",
        123456,
        "2024-05-01 12:00:00",
        "http://example.com/opds",
    )
    .unwrap();
    assert_eq!(info.title, "Dune");
    assert_eq!(info.author, "Frank Herbert");
    assert_eq!(info.year, "1965");
    assert_eq!(info.identifier, "urn:uuid:56e99d4d-bef9-445e-8162-35aaef306006");
    assert_eq!(info.added, "2024-05-01 12:00:00");
    assert_eq!(info.file.path, "opds/Books/56e9.epub");
    assert_eq!(info.file.kind, "epub");
    assert_eq!(info.file.size, 123456);
    assert_eq!(info.reader.opened, "2024-05-01 12:00:00");
    assert_eq!(info.reader.current_page, 0);
    assert_eq!(info.reader.pages_count, 1);
    assert!(!info.reader.finished);
    assert_eq!(info.reader.dithered, "false");
}

#[test]
fn read_books_are_finished() {
    let r = result(FileExtension::Pdf, "/lib/a.pdf");
    let info = document_record(&r, "/lib", 1, "now", "http://example.com/readbooks/opds").unwrap();
    assert!(info.reader.finished);
    assert_eq!(info.file.kind, "pdf");
    assert_eq!(info.file.path, "a.pdf");
}

#[test]
fn no_record_outside_the_library() {
    let r = result(FileExtension::Epub, "/tmp/opds/a.epub");
    assert!(document_record(&r, "/mnt/onboard", 1, "now", "http://example.com").is_none());
}

#[test]
fn unknown_author_and_year() {
    let mut r = result(FileExtension::Epub, "/lib/a.epub");
    assert_eq!(author_of(&r.entry), "Frank Herbert");
    r.entry.authors = Some(Vec::new());
    assert_eq!(author_of(&r.entry), "Unknown Author");
    r.entry.authors = None;
    r.entry.published = None;
    let info = document_record(&r, "/lib", 1, "now", "http://example.com").unwrap();
    assert_eq!(info.author, "Unknown Author");
    assert_eq!(info.year, "");
    r.entry.published = Some(-44);
    let info = document_record(&r, "/lib", 1, "now", "http://example.com").unwrap();
    assert_eq!(info.year, "-44");
}
