//! The errors that end a run.

use vstd::prelude::*;
use vstd::string::*;

verus! {

/// Why a run cannot go on. Each of these is fatal: the run ends with it.
#[derive(Debug)]
pub enum SyncError {
    /// The address of a server is no valid URL.
    BadServerAddress,
    /// The address of a server has no host, so a next page given by its path
    /// alone cannot be found.
    NoHost,
    /// The link to the next page of a catalog has no target.
    MissingNextPage,
    /// The address of the next page of a catalog is no valid URL.
    BadPageAddress,
    /// The link chosen for the entry of this title has no target.
    MissingHref(String),
    /// The target of the link chosen for the entry of this title is too long
    /// to stand in an address.
    AddressTooLong(String),
    /// A catalog could not be fetched or read; the text says why.
    Fetch(String),
    /// A file could not be created; the text says why.
    Storage(String),
    /// An answer came that the run had not asked for.
    Unexpected,
}

/// The value of a [`SyncError`].
pub enum SyncErrorView {
    BadServerAddress,
    NoHost,
    MissingNextPage,
    BadPageAddress,
    MissingHref(Seq<char>),
    AddressTooLong(Seq<char>),
    Fetch(Seq<char>),
    Storage(Seq<char>),
    Unexpected,
}

impl View for SyncError {
    type V = SyncErrorView;

    open spec fn view(&self) -> SyncErrorView {
        match self {
            SyncError::BadServerAddress => SyncErrorView::BadServerAddress,
            SyncError::NoHost => SyncErrorView::NoHost,
            SyncError::MissingNextPage => SyncErrorView::MissingNextPage,
            SyncError::BadPageAddress => SyncErrorView::BadPageAddress,
            SyncError::MissingHref(t) => SyncErrorView::MissingHref(t@),
            SyncError::AddressTooLong(t) => SyncErrorView::AddressTooLong(t@),
            SyncError::Fetch(m) => SyncErrorView::Fetch(m@),
            SyncError::Storage(m) => SyncErrorView::Storage(m@),
            SyncError::Unexpected => SyncErrorView::Unexpected,
        }
    }
}

impl SyncError {
    /// What to tell the user.
    pub fn message(&self) -> (r: String)
        ensures
            r@ == error_text(self@),
    {
        match self {
            SyncError::BadServerAddress => String::from_str("the address of the server is no URL"),
            SyncError::NoHost => String::from_str("the address of the server has no host"),
            SyncError::MissingNextPage => String::from_str("Paginated link is empty"),
            SyncError::BadPageAddress => String::from_str("Can't parse paginated url"),
            SyncError::MissingHref(title) => {
                let mut r = String::from_str("no href found for link in '");
                r.append(title.as_str());
                r.append("'");
                r
            },
            SyncError::AddressTooLong(title) => {
                let mut r = String::from_str("the href of the link in '");
                r.append(title.as_str());
                r.append("' is too long");
                r
            },
            SyncError::Fetch(m) => m.clone(),
            SyncError::Storage(m) => m.clone(),
            SyncError::Unexpected => String::from_str("unexpected answer"),
        }
    }
}

/// The text that describes an error.
pub open spec fn error_text(e: SyncErrorView) -> Seq<char> {
    match e {
        SyncErrorView::BadServerAddress => "the address of the server is no URL"@,
        SyncErrorView::NoHost => "the address of the server has no host"@,
        SyncErrorView::MissingNextPage => "Paginated link is empty"@,
        SyncErrorView::BadPageAddress => "Can't parse paginated url"@,
        SyncErrorView::MissingHref(title) => "no href found for link in '"@ + title + "'"@,
        SyncErrorView::AddressTooLong(title) => "the href of the link in '"@ + title
            + "' is too long"@,
        SyncErrorView::Fetch(m) => m,
        SyncErrorView::Storage(m) => m,
        SyncErrorView::Unexpected => "unexpected answer"@,
    }
}

} // verus!
