//! The data of a catalog: servers, feeds, entries and their links, each with
//! the mathematical value that the contracts of the library speak of.

use crate::classify::{LinkType, LinkTypeView};
use vstd::prelude::*;
use vstd::string::*;

verus! {

/// The values that the elements of a sequence denote.
pub open spec fn views<T: View>(s: Seq<T>) -> Seq<T::V> {
    s.map_values(|t: T| t@)
}

/// The value that an optional element denotes.
pub open spec fn option_view<T: View>(o: Option<T>) -> Option<T::V> {
    match o {
        Some(t) => Some(t@),
        None => None,
    }
}

/// The values of an optional list.
pub open spec fn option_views<T: View>(o: Option<Vec<T>>) -> Option<Seq<T::V>> {
    match o {
        Some(v) => Some(views(v@)),
        None => None,
    }
}

/// A copy of an optional string.
pub(crate) fn clone_text(o: &Option<String>) -> (r: Option<String>)
    ensures
        option_view(r) == option_view(*o),
{
    match o {
        Some(s) => Some(s.clone()),
        None => None,
    }
}

/// One catalog server: where its feed lives and how to sign in.
#[derive(Debug)]
pub struct Instance {
    /// The address of the catalog feed.
    pub url: String,
    /// The user name for basic authentication, if one is set.
    pub username: Option<String>,
    /// The password for basic authentication, if one is set.
    pub password: Option<String>,
}

/// The value of an [`Instance`].
pub struct InstanceView {
    pub url: Seq<char>,
    pub username: Option<Seq<char>>,
    pub password: Option<Seq<char>>,
}

impl View for Instance {
    type V = InstanceView;

    open spec fn view(&self) -> InstanceView {
        InstanceView {
            url: self.url@,
            username: option_view(self.username),
            password: option_view(self.password),
        }
    }
}

impl Clone for Instance {
    fn clone(&self) -> (r: Self)
        ensures
            r@ == self@,
    {
        Instance {
            url: self.url.clone(),
            username: clone_text(&self.username),
            password: clone_text(&self.password),
        }
    }
}

impl Default for Instance {
    fn default() -> (r: Self)
        ensures
            r@ == (InstanceView { url: Seq::empty(), username: None, password: None }),
    {
        Instance { url: String::new(), username: None, password: None }
    }
}

/// A link of a feed or of an entry. The catalog may leave out any part.
#[derive(Debug)]
pub struct Link {
    /// What the target is to the carrier of the link.
    pub rel: Option<LinkType>,
    /// Where the target lives.
    pub href: Option<String>,
    /// The media type of the target.
    pub file_type: Option<String>,
}

/// The value of a [`Link`].
pub struct LinkView {
    pub rel: Option<LinkTypeView>,
    pub href: Option<Seq<char>>,
    pub file_type: Option<Seq<char>>,
}

impl View for Link {
    type V = LinkView;

    open spec fn view(&self) -> LinkView {
        LinkView {
            rel: option_view(self.rel),
            href: option_view(self.href),
            file_type: option_view(self.file_type),
        }
    }
}

impl Clone for Link {
    fn clone(&self) -> (r: Self)
        ensures
            r@ == self@,
    {
        let rel = match &self.rel {
            Some(t) => Some(t.clone()),
            None => None,
        };
        Link { rel, href: clone_text(&self.href), file_type: clone_text(&self.file_type) }
    }
}

impl Default for Link {
    fn default() -> (r: Self)
        ensures
            r@ == (LinkView { rel: None, href: None, file_type: None }),
    {
        Link { rel: None, href: None, file_type: None }
    }
}

/// An author of an entry.
#[derive(Debug)]
pub struct Author {
    pub name: String,
}

/// The value of an [`Author`].
pub struct AuthorView {
    pub name: Seq<char>,
}

impl View for Author {
    type V = AuthorView;

    open spec fn view(&self) -> AuthorView {
        AuthorView { name: self.name@ }
    }
}

impl Clone for Author {
    fn clone(&self) -> (r: Self)
        ensures
            r@ == self@,
    {
        Author { name: self.name.clone() }
    }
}

impl Default for Author {
    fn default() -> (r: Self)
        ensures
            r@ == (AuthorView { name: Seq::empty() }),
    {
        Author { name: String::new() }
    }
}

/// A publisher of an entry.
#[derive(Debug)]
pub struct Publisher {
    pub name: String,
}

/// The value of a [`Publisher`].
pub struct PublisherView {
    pub name: Seq<char>,
}

impl View for Publisher {
    type V = PublisherView;

    open spec fn view(&self) -> PublisherView {
        PublisherView { name: self.name@ }
    }
}

impl Clone for Publisher {
    fn clone(&self) -> (r: Self)
        ensures
            r@ == self@,
    {
        Publisher { name: self.name.clone() }
    }
}

impl Default for Publisher {
    fn default() -> (r: Self)
        ensures
            r@ == (PublisherView { name: Seq::empty() }),
    {
        Publisher { name: String::new() }
    }
}

/// One item of a catalog, usually a book.
#[derive(Debug)]
pub struct Entry {
    /// The title of the book.
    pub title: String,
    /// The identifier that the catalog gave the book.
    pub id: String,
    /// The authors of the book.
    pub authors: Option<Vec<Author>>,
    /// The publishers of the book.
    pub publishers: Option<Vec<Publisher>>,
    /// The resources of the book, the files to download among them.
    pub links: Option<Vec<Link>>,
    /// The year in which the book was published.
    pub published: Option<i32>,
}

/// The value of an [`Entry`].
pub struct EntryView {
    pub title: Seq<char>,
    pub id: Seq<char>,
    pub authors: Option<Seq<AuthorView>>,
    pub publishers: Option<Seq<PublisherView>>,
    pub links: Option<Seq<LinkView>>,
    pub published: Option<i32>,
}

impl View for Entry {
    type V = EntryView;

    open spec fn view(&self) -> EntryView {
        EntryView {
            title: self.title@,
            id: self.id@,
            authors: option_views(self.authors),
            publishers: option_views(self.publishers),
            links: option_views(self.links),
            published: self.published,
        }
    }
}

/// A copy of a list, element by element.
pub(crate) fn clone_list<T: Clone + View>(list: &Vec<T>) -> (r: Vec<T>)
    requires
        forall|a: T, b: T| cloned(a, b) ==> a@ == b@,
    ensures
        views(r@) == views(list@),
{
    let r = list.clone();
    r
}

impl Clone for Entry {
    fn clone(&self) -> (r: Self)
        ensures
            r@ == self@,
    {
        let authors = match &self.authors {
            Some(list) => Some(clone_list(list)),
            None => None,
        };
        let publishers = match &self.publishers {
            Some(list) => Some(clone_list(list)),
            None => None,
        };
        let links = match &self.links {
            Some(list) => Some(clone_list(list)),
            None => None,
        };
        Entry {
            title: self.title.clone(),
            id: self.id.clone(),
            authors,
            publishers,
            links,
            published: self.published,
        }
    }
}

impl Default for Entry {
    fn default() -> (r: Self)
        ensures
            r@ == (EntryView {
                title: Seq::empty(),
                id: Seq::empty(),
                authors: None,
                publishers: None,
                links: None,
                published: None,
            }),
    {
        Entry {
            title: String::new(),
            id: String::new(),
            authors: None,
            publishers: None,
            links: None,
            published: None,
        }
    }
}

/// A catalog, or one page of it.
#[derive(Debug)]
pub struct Feed {
    /// The entries listed.
    pub entries: Vec<Entry>,
    /// The links of the feed itself, the one to the next page among them.
    pub links: Vec<Link>,
}

/// The value of a [`Feed`].
pub struct FeedView {
    pub entries: Seq<EntryView>,
    pub links: Seq<LinkView>,
}

impl View for Feed {
    type V = FeedView;

    open spec fn view(&self) -> FeedView {
        FeedView { entries: views(self.entries@), links: views(self.links@) }
    }
}

impl Clone for Feed {
    fn clone(&self) -> (r: Self)
        ensures
            r@ == self@,
    {
        Feed { entries: clone_list(&self.entries), links: clone_list(&self.links) }
    }
}

impl Default for Feed {
    fn default() -> (r: Self)
        ensures
            r@ == (FeedView { entries: Seq::empty(), links: Seq::empty() }),
    {
        let r = Feed { entries: Vec::new(), links: Vec::new() };
        assert(r@.entries =~= Seq::empty());
        assert(r@.links =~= Seq::empty());
        r
    }
}

} // verus!
