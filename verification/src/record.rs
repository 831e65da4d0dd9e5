//! The record with which a downloaded document is entered in the library of
//! the reader.

use crate::classify::extension_text;
use crate::opds::{Entry, EntryView};
use crate::path::{relative_to, strip_root};
use crate::resolve::{EntryResult, EntryResultView};
use crate::text::{contains, occurs, signed_decimal, signed_digits};
use vstd::prelude::*;
use vstd::string::*;

verus! {

/// The file of a document.
#[derive(Debug)]
pub struct FileInfo {
    /// The path of the file from the root of the library.
    pub path: String,
    /// The extension of the file.
    pub kind: String,
    /// The size of the file in bytes.
    pub size: u64,
}

/// How far the document has been read.
#[derive(Debug)]
pub struct ReaderInfo {
    /// When the document was opened.
    pub opened: String,
    pub current_page: u64,
    pub pages_count: u64,
    /// Whether the document has been read to the end.
    pub finished: bool,
    pub dithered: String,
}

/// What the library is told of a new document.
#[derive(Debug)]
pub struct DocumentInfo {
    pub title: String,
    pub author: String,
    /// The year of publication, empty where it is not known.
    pub year: String,
    pub identifier: String,
    /// When the document was added.
    pub added: String,
    pub file: FileInfo,
    pub reader: ReaderInfo,
}

/// The value of a [`FileInfo`].
pub struct FileInfoView {
    pub path: Seq<char>,
    pub kind: Seq<char>,
    pub size: u64,
}

/// The value of a [`ReaderInfo`].
pub struct ReaderInfoView {
    pub opened: Seq<char>,
    pub current_page: u64,
    pub pages_count: u64,
    pub finished: bool,
    pub dithered: Seq<char>,
}

/// The value of a [`DocumentInfo`].
pub struct DocumentInfoView {
    pub title: Seq<char>,
    pub author: Seq<char>,
    pub year: Seq<char>,
    pub identifier: Seq<char>,
    pub added: Seq<char>,
    pub file: FileInfoView,
    pub reader: ReaderInfoView,
}

impl View for FileInfo {
    type V = FileInfoView;

    open spec fn view(&self) -> FileInfoView {
        FileInfoView { path: self.path@, kind: self.kind@, size: self.size }
    }
}

impl View for ReaderInfo {
    type V = ReaderInfoView;

    open spec fn view(&self) -> ReaderInfoView {
        ReaderInfoView {
            opened: self.opened@,
            current_page: self.current_page,
            pages_count: self.pages_count,
            finished: self.finished,
            dithered: self.dithered@,
        }
    }
}

impl View for DocumentInfo {
    type V = DocumentInfoView;

    open spec fn view(&self) -> DocumentInfoView {
        DocumentInfoView {
            title: self.title@,
            author: self.author@,
            year: self.year@,
            identifier: self.identifier@,
            added: self.added@,
            file: self.file@,
            reader: self.reader@,
        }
    }
}

/// The author under which an entry is filed: the first it names, or
/// `Unknown Author`.
pub open spec fn first_author(entry: EntryView) -> Seq<char> {
    match entry.authors {
        Some(authors) => if authors.len() > 0 {
            authors[0].name
        } else {
            "Unknown Author"@
        },
        None => "Unknown Author"@,
    }
}

/// The year of publication of an entry as text; empty where it has none.
pub open spec fn year_text(entry: EntryView) -> Seq<char> {
    match entry.published {
        Some(year) => signed_digits(year as int),
        None => Seq::empty(),
    }
}

/// Whether what comes from the server at `url` counts as read.
pub open spec fn already_read(url: Seq<char>) -> bool {
    occurs("/readbooks"@, url)
}

/// The record of the download `result`: none where its file lies outside
/// the library at `library`. `stamp` is the time of the download, `size` the
/// size of the file, `url` the address of the server.
pub open spec fn record(
    result: EntryResultView,
    library: Seq<char>,
    size: u64,
    stamp: Seq<char>,
    url: Seq<char>,
) -> Option<DocumentInfoView> {
    match relative_to(result.save_path, library) {
        None => None,
        Some(path) => Some(
            DocumentInfoView {
                title: result.entry.title,
                author: first_author(result.entry),
                year: year_text(result.entry),
                identifier: result.entry.id,
                added: stamp,
                file: FileInfoView { path, kind: extension_text(result.file_extension), size },
                reader: ReaderInfoView {
                    opened: stamp,
                    current_page: 0,
                    pages_count: 1,
                    finished: already_read(url),
                    dithered: "false"@,
                },
            },
        ),
    }
}

/// The author under which `entry` is filed.
pub fn author_of(entry: &Entry) -> (r: String)
    ensures
        r@ == first_author(entry@),
{
    match &entry.authors {
        Some(authors) => {
            if authors.len() > 0 {
                authors[0].name.clone()
            } else {
                String::from_str("Unknown Author")
            }
        },
        None => String::from_str("Unknown Author"),
    }
}

/// The record of the download `result`.
pub fn document_record(
    result: &EntryResult,
    library_path: &str,
    size: u64,
    stamp: &str,
    server_url: &str,
) -> (r: Option<DocumentInfo>)
    ensures
        match r {
            Some(info) => record(result@, library_path@, size, stamp@, server_url@) == Some(info@),
            None => record(result@, library_path@, size, stamp@, server_url@) is None,
        },
{
    let path = match strip_root(result.save_path.as_str(), library_path) {
        None => {
            return None;
        },
        Some(path) => path,
    };
    let year = match result.entry.published {
        Some(year) => signed_decimal(year as i64),
        None => String::new(),
    };
    Some(
        DocumentInfo {
            title: result.entry.title.clone(),
            author: author_of(&result.entry),
            year,
            identifier: result.entry.id.clone(),
            added: String::from_str(stamp),
            file: FileInfo { path, kind: result.file_extension.to_string(), size },
            reader: ReaderInfo {
                opened: String::from_str(stamp),
                current_page: 0,
                pages_count: 1,
                finished: contains(server_url, "/readbooks"),
                dithered: String::from_str("false"),
            },
        },
    )
}

} // verus!
