//! Classification of the raw strings of a catalog: link relations, media
//! types and the file extensions that stand for them.
//!
//! Each classification is total. A string outside the fixed table is kept
//! verbatim in the `Other` variant of the result.

use crate::text::same;
use vstd::prelude::*;
use vstd::std_specs::cmp::PartialEqSpecImpl;
use vstd::std_specs::convert::FromSpecImpl;
use vstd::string::*;

verus! {

/// The relation of a link to the feed or entry that carries it.
#[derive(Debug)]
pub enum LinkType {
    Acquisition,
    Cover,
    Thumbnail,
    Sample,
    OpenAccess,
    Borrow,
    Buy,
    Subscribe,
    /// The next page of a paginated feed.
    Next,
    /// A relation outside the table, as the catalog wrote it.
    Other(String),
}

/// A link relation with its text as a sequence of characters.
pub enum LinkTypeView {
    Acquisition,
    Cover,
    Thumbnail,
    Sample,
    OpenAccess,
    Borrow,
    Buy,
    Subscribe,
    Next,
    Other(Seq<char>),
}

impl View for LinkType {
    type V = LinkTypeView;

    open spec fn view(&self) -> LinkTypeView {
        match self {
            LinkType::Acquisition => LinkTypeView::Acquisition,
            LinkType::Cover => LinkTypeView::Cover,
            LinkType::Thumbnail => LinkTypeView::Thumbnail,
            LinkType::Sample => LinkTypeView::Sample,
            LinkType::OpenAccess => LinkTypeView::OpenAccess,
            LinkType::Borrow => LinkTypeView::Borrow,
            LinkType::Buy => LinkTypeView::Buy,
            LinkType::Subscribe => LinkTypeView::Subscribe,
            LinkType::Next => LinkTypeView::Next,
            LinkType::Other(s) => LinkTypeView::Other(s@),
        }
    }
}

/// The relation that a raw relation string stands for. The preview and the
/// sample relation are one and the same.
pub open spec fn link_type_of(s: Seq<char>) -> LinkTypeView {
    if s == "http://opds-spec.org/acquisition"@ {
        LinkTypeView::Acquisition
    } else if s == "http://opds-spec.org/image"@ {
        LinkTypeView::Cover
    } else if s == "http://opds-spec.org/image/thumbnail"@ {
        LinkTypeView::Thumbnail
    } else if s == "http://opds-spec.org/acquisition/sample"@ {
        LinkTypeView::Sample
    } else if s == "http://opds-spec.org/acquisition/preview"@ {
        LinkTypeView::Sample
    } else if s == "http://opds-spec.org/acquisition/open-access"@ {
        LinkTypeView::OpenAccess
    } else if s == "http://opds-spec.org/acquisition/borrow"@ {
        LinkTypeView::Borrow
    } else if s == "http://opds-spec.org/acquisition/buy"@ {
        LinkTypeView::Buy
    } else if s == "http://opds-spec.org/acquisition/subscribe"@ {
        LinkTypeView::Subscribe
    } else if s == "next"@ {
        LinkTypeView::Next
    } else {
        LinkTypeView::Other(s)
    }
}

impl LinkType {
    /// Classifies a raw relation string.
    pub fn from_str(s: &str) -> (r: LinkType)
        ensures
            r@ == link_type_of(s@),
    {
        if same(s, "http://opds-spec.org/acquisition") {
            LinkType::Acquisition
        } else if same(s, "http://opds-spec.org/image") {
            LinkType::Cover
        } else if same(s, "http://opds-spec.org/image/thumbnail") {
            LinkType::Thumbnail
        } else if same(s, "http://opds-spec.org/acquisition/sample") {
            LinkType::Sample
        } else if same(s, "http://opds-spec.org/acquisition/preview") {
            LinkType::Sample
        } else if same(s, "http://opds-spec.org/acquisition/open-access") {
            LinkType::OpenAccess
        } else if same(s, "http://opds-spec.org/acquisition/borrow") {
            LinkType::Borrow
        } else if same(s, "http://opds-spec.org/acquisition/buy") {
            LinkType::Buy
        } else if same(s, "http://opds-spec.org/acquisition/subscribe") {
            LinkType::Subscribe
        } else if same(s, "next") {
            LinkType::Next
        } else {
            LinkType::Other(String::from_str(s))
        }
    }
}

impl Clone for LinkType {
    fn clone(&self) -> (r: Self)
        ensures
            r == *self,
    {
        match self {
            LinkType::Acquisition => LinkType::Acquisition,
            LinkType::Cover => LinkType::Cover,
            LinkType::Thumbnail => LinkType::Thumbnail,
            LinkType::Sample => LinkType::Sample,
            LinkType::OpenAccess => LinkType::OpenAccess,
            LinkType::Borrow => LinkType::Borrow,
            LinkType::Buy => LinkType::Buy,
            LinkType::Subscribe => LinkType::Subscribe,
            LinkType::Next => LinkType::Next,
            LinkType::Other(s) => LinkType::Other(s.clone()),
        }
    }
}

impl PartialEq for LinkType {
    fn eq(&self, other: &Self) -> (r: bool) {
        match (self, other) {
            (LinkType::Acquisition, LinkType::Acquisition) => true,
            (LinkType::Cover, LinkType::Cover) => true,
            (LinkType::Thumbnail, LinkType::Thumbnail) => true,
            (LinkType::Sample, LinkType::Sample) => true,
            (LinkType::OpenAccess, LinkType::OpenAccess) => true,
            (LinkType::Borrow, LinkType::Borrow) => true,
            (LinkType::Buy, LinkType::Buy) => true,
            (LinkType::Subscribe, LinkType::Subscribe) => true,
            (LinkType::Next, LinkType::Next) => true,
            (LinkType::Other(a), LinkType::Other(b)) => *a == *b,
            _ => false,
        }
    }
}

impl PartialEqSpecImpl for LinkType {
    open spec fn obeys_eq_spec() -> bool {
        true
    }

    open spec fn eq_spec(&self, other: &Self) -> bool {
        self@ == other@
    }
}

/// The kind of file behind a link, as its media type names it.
#[derive(Debug)]
pub enum FileType {
    /// An EPUB, likely a book.
    Epub,
    /// A CBZ, likely a comic.
    Cbz,
    /// A PDF, likely a document.
    Pdf,
    /// Another kind, with the media type as the catalog wrote it.
    Other(String),
}

/// A file type with its text as a sequence of characters.
pub enum FileTypeView {
    Epub,
    Cbz,
    Pdf,
    Other(Seq<char>),
}

impl View for FileType {
    type V = FileTypeView;

    open spec fn view(&self) -> FileTypeView {
        match self {
            FileType::Epub => FileTypeView::Epub,
            FileType::Cbz => FileTypeView::Cbz,
            FileType::Pdf => FileTypeView::Pdf,
            FileType::Other(s) => FileTypeView::Other(s@),
        }
    }
}

/// Whether the table of media types holds `s`.
pub open spec fn known_media_type(s: Seq<char>) -> bool {
    ||| s == "application/epub+zip"@
    ||| s == "application/x-cbz"@
    ||| s == "application/pdf"@
}

/// The file type that a media type stands for.
pub open spec fn file_type_of(s: Seq<char>) -> FileTypeView {
    if s == "application/epub+zip"@ {
        FileTypeView::Epub
    } else if s == "application/x-cbz"@ {
        FileTypeView::Cbz
    } else if s == "application/pdf"@ {
        FileTypeView::Pdf
    } else {
        FileTypeView::Other(s)
    }
}

impl FileType {
    /// Classifies a media type. One that the table lacks comes back
    /// unchanged, in `Other`.
    pub fn from_str(s: &str) -> (r: FileType)
        ensures
            r@ == file_type_of(s@),
            !known_media_type(s@) ==> r@ == FileTypeView::Other(s@),
    {
        if same(s, "application/epub+zip") {
            FileType::Epub
        } else if same(s, "application/x-cbz") {
            FileType::Cbz
        } else if same(s, "application/pdf") {
            FileType::Pdf
        } else {
            FileType::Other(String::from_str(s))
        }
    }
}

impl Clone for FileType {
    fn clone(&self) -> (r: Self)
        ensures
            r == *self,
    {
        match self {
            FileType::Epub => FileType::Epub,
            FileType::Cbz => FileType::Cbz,
            FileType::Pdf => FileType::Pdf,
            FileType::Other(s) => FileType::Other(s.clone()),
        }
    }
}

impl PartialEq for FileType {
    fn eq(&self, other: &Self) -> (r: bool) {
        match (self, other) {
            (FileType::Epub, FileType::Epub) => true,
            (FileType::Cbz, FileType::Cbz) => true,
            (FileType::Pdf, FileType::Pdf) => true,
            (FileType::Other(a), FileType::Other(b)) => *a == *b,
            _ => false,
        }
    }
}

impl PartialEqSpecImpl for FileType {
    open spec fn obeys_eq_spec() -> bool {
        true
    }

    open spec fn eq_spec(&self, other: &Self) -> bool {
        self@ == other@
    }
}

/// The extension under which a file is stored.
#[derive(Debug, Eq, Hash)]
pub enum FileExtension {
    Epub,
    Cbz,
    Pdf,
    /// Another extension, as it was given.
    Other(String),
}

/// A file extension with its text as a sequence of characters.
pub enum FileExtensionView {
    Epub,
    Cbz,
    Pdf,
    Other(Seq<char>),
}

impl View for FileExtension {
    type V = FileExtensionView;

    open spec fn view(&self) -> FileExtensionView {
        match self {
            FileExtension::Epub => FileExtensionView::Epub,
            FileExtension::Cbz => FileExtensionView::Cbz,
            FileExtension::Pdf => FileExtensionView::Pdf,
            FileExtension::Other(s) => FileExtensionView::Other(s@),
        }
    }
}

/// The extension that a piece of text names.
pub open spec fn extension_of(s: Seq<char>) -> FileExtensionView {
    if s == "epub"@ {
        FileExtensionView::Epub
    } else if s == "cbz"@ {
        FileExtensionView::Cbz
    } else if s == "pdf"@ {
        FileExtensionView::Pdf
    } else {
        FileExtensionView::Other(s)
    }
}

/// The text of an extension, as it stands at the end of a file name.
pub open spec fn extension_text(e: FileExtensionView) -> Seq<char> {
    match e {
        FileExtensionView::Epub => "epub"@,
        FileExtensionView::Cbz => "cbz"@,
        FileExtensionView::Pdf => "pdf"@,
        FileExtensionView::Other(s) => s,
    }
}

/// The extension under which a file of the given type is stored.
pub open spec fn extension_for(t: FileTypeView) -> FileExtensionView {
    match t {
        FileTypeView::Epub => FileExtensionView::Epub,
        FileTypeView::Cbz => FileExtensionView::Cbz,
        FileTypeView::Pdf => FileExtensionView::Pdf,
        FileTypeView::Other(s) => FileExtensionView::Other(s),
    }
}

impl FileExtension {
    /// Reads an extension from its text.
    pub fn from_str(s: &str) -> (r: FileExtension)
        ensures
            r@ == extension_of(s@),
    {
        if same(s, "epub") {
            FileExtension::Epub
        } else if same(s, "cbz") {
            FileExtension::Cbz
        } else if same(s, "pdf") {
            FileExtension::Pdf
        } else {
            FileExtension::Other(String::from_str(s))
        }
    }

    /// The text of the extension.
    pub fn to_string(&self) -> (r: String)
        ensures
            r@ == extension_text(self@),
    {
        match self {
            FileExtension::Epub => String::from_str("epub"),
            FileExtension::Cbz => String::from_str("cbz"),
            FileExtension::Pdf => String::from_str("pdf"),
            FileExtension::Other(s) => s.clone(),
        }
    }
}

impl Clone for FileExtension {
    fn clone(&self) -> (r: Self)
        ensures
            r == *self,
    {
        match self {
            FileExtension::Epub => FileExtension::Epub,
            FileExtension::Cbz => FileExtension::Cbz,
            FileExtension::Pdf => FileExtension::Pdf,
            FileExtension::Other(s) => FileExtension::Other(s.clone()),
        }
    }
}

impl PartialEq for FileExtension {
    fn eq(&self, other: &Self) -> (r: bool) {
        match (self, other) {
            (FileExtension::Epub, FileExtension::Epub) => true,
            (FileExtension::Cbz, FileExtension::Cbz) => true,
            (FileExtension::Pdf, FileExtension::Pdf) => true,
            (FileExtension::Other(a), FileExtension::Other(b)) => *a == *b,
            _ => false,
        }
    }
}

impl PartialEqSpecImpl for FileExtension {
    open spec fn obeys_eq_spec() -> bool {
        true
    }

    open spec fn eq_spec(&self, other: &Self) -> bool {
        self@ == other@
    }
}

impl<'a> From<&'a FileType> for FileExtension {
    fn from(file_type: &'a FileType) -> (r: FileExtension) {
        match file_type {
            FileType::Epub => FileExtension::Epub,
            FileType::Cbz => FileExtension::Cbz,
            FileType::Pdf => FileExtension::Pdf,
            FileType::Other(s) => FileExtension::Other(s.clone()),
        }
    }
}

impl<'a> FromSpecImpl<&'a FileType> for FileExtension {
    open spec fn obeys_from_spec() -> bool {
        true
    }

    open spec fn from_spec(file_type: &'a FileType) -> FileExtension {
        match file_type {
            FileType::Epub => FileExtension::Epub,
            FileType::Cbz => FileExtension::Cbz,
            FileType::Pdf => FileExtension::Pdf,
            FileType::Other(s) => FileExtension::Other(*s),
        }
    }
}

/// The extension of a file of type `file_type`.
pub fn extension_for_type(file_type: &FileType) -> (r: FileExtension)
    ensures
        r@ == extension_for(file_type@),
{
    FileExtension::from(file_type)
}

/// A media type outside the table passes through both classifications
/// unchanged: its file type and its extension hold it verbatim, and the text
/// of the extension is the media type itself.
pub proof fn lemma_unknown_media_type_passes_through(s: Seq<char>)
    requires
        !known_media_type(s),
    ensures
        file_type_of(s) == FileTypeView::Other(s),
        extension_for(file_type_of(s)) == FileExtensionView::Other(s),
        extension_text(extension_for(file_type_of(s))) == s,
{
}

/// Reading the text of an extension gives the extension back, unless it is
/// an `Other` that spells an extension of the table.
pub proof fn lemma_extension_text_reads_back(e: FileExtensionView)
    requires
        e matches FileExtensionView::Other(s) ==> extension_of(s) == e,
    ensures
        extension_of(extension_text(e)) == e,
{
    reveal_strlit("epub");
    reveal_strlit("cbz");
    reveal_strlit("pdf");
    match e {
        FileExtensionView::Epub => {},
        FileExtensionView::Cbz => {
            assert("cbz"@.len() != "epub"@.len());
        },
        FileExtensionView::Pdf => {
            assert("pdf"@[0] != "cbz"@[0]);
            assert("pdf"@.len() != "epub"@.len());
        },
        FileExtensionView::Other(s) => {},
    }
}

/// The text of the extension read from `s` is `s` itself.
pub proof fn lemma_extension_keeps_text(s: Seq<char>)
    ensures
        extension_text(extension_of(s)) == s,
{
}

} // verus!
