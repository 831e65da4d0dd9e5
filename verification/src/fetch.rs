//! The catalog fetcher's decisions: which request fetches a catalog, where
//! its next page lives and how the pages add up to one feed. Sending the
//! requests is left to the caller.

use crate::address::{
    has_room, parse_address, path_fits, replace_path, url_parse, url_with_path, Address,
    AddressView,
};
use crate::classify::{LinkType, LinkTypeView};
use crate::error::{SyncError, SyncErrorView};
use crate::opds::{
    clone_text, option_view, views, Feed, FeedView, Instance, InstanceView, Link, LinkView,
};
use crate::text::starts_with;
use vstd::prelude::*;
use vstd::string::*;

verus! {

/// An authenticated GET: the address, and the credentials for basic
/// authentication.
#[derive(Debug)]
pub struct Request {
    pub url: String,
    pub username: String,
    pub password: Option<String>,
}

/// The value of a [`Request`].
pub struct RequestView {
    pub url: Seq<char>,
    pub username: Seq<char>,
    pub password: Option<Seq<char>>,
}

impl View for Request {
    type V = RequestView;

    open spec fn view(&self) -> RequestView {
        RequestView {
            url: self.url@,
            username: self.username@,
            password: option_view(self.password),
        }
    }
}

/// The user name under which a server is asked: its own, or `admin`.
pub open spec fn user_of(instance: InstanceView) -> Seq<char> {
    match instance.username {
        Some(name) => name,
        None => "admin"@,
    }
}

/// The request for `url` with the credentials of `instance`.
pub open spec fn request_to(instance: InstanceView, url: Seq<char>) -> RequestView {
    RequestView { url, username: user_of(instance), password: instance.password }
}

/// The first link to a next page among `links`.
pub open spec fn next_page_link(links: Seq<LinkView>) -> Option<LinkView>
    decreases links.len(),
{
    if links.len() == 0 {
        None
    } else if links[0].rel == Some(LinkTypeView::Next) {
        Some(links[0])
    } else {
        next_page_link(links.drop_first())
    }
}

/// Whether `href` is a path alone, to be found on the host of the server.
pub open spec fn is_rooted(href: Seq<char>) -> bool {
    "/"@.is_prefix_of(href)
}

/// The text for the path `href` on the scheme and host of the address `a`.
pub open spec fn rooted_at(a: AddressView, href: Seq<char>) -> Result<Seq<char>, SyncErrorView> {
    match a.host {
        None => Err(SyncErrorView::NoHost),
        Some(host) => Ok(a.scheme + "://"@ + host + href),
    }
}

/// The text that is read as the address of a page. A target that starts
/// with `/` is a path on the scheme and host of `base`; any other stands for
/// itself.
pub open spec fn page_candidate(base: Seq<char>, href: Seq<char>) -> Result<
    Seq<char>,
    SyncErrorView,
> {
    if is_rooted(href) {
        match url_parse(base) {
            None => Err(SyncErrorView::BadServerAddress),
            Some(a) => rooted_at(a, href),
        }
    } else {
        Ok(href)
    }
}

/// The address of the page that `href` points to from a catalog at `base`.
pub open spec fn page_address(base: Seq<char>, href: Seq<char>) -> Result<
    Seq<char>,
    SyncErrorView,
> {
    match page_candidate(base, href) {
        Err(e) => Err(e),
        Ok(candidate) => match url_parse(candidate) {
            None => Err(SyncErrorView::BadPageAddress),
            Some(a) => Ok(a.text),
        },
    }
}

/// The request for the page after the one with `links`: none where no link
/// leads on.
pub open spec fn next_request(instance: InstanceView, links: Seq<LinkView>) -> Result<
    Option<RequestView>,
    SyncErrorView,
> {
    match next_page_link(links) {
        None => Ok(None),
        Some(link) => match link.href {
            None => Err(SyncErrorView::MissingNextPage),
            Some(href) => match page_address(instance.url, href) {
                Err(e) => Err(e),
                Ok(url) => Ok(Some(request_to(instance, url))),
            },
        },
    }
}

/// The catalog after `page` has come in: its entries follow those gathered
/// so far, and its links take the place of the old ones.
pub open spec fn merged(feed: FeedView, page: FeedView) -> FeedView {
    FeedView { entries: feed.entries + page.entries, links: page.links }
}

/// The path that is put into the address `a` of the server to download the
/// target `href` of an entry of the given title.
pub open spec fn download_path(a: AddressView, href: Option<Seq<char>>, title: Seq<char>) -> Result<
    Seq<char>,
    SyncErrorView,
> {
    match href {
        None => Err(SyncErrorView::MissingHref(title)),
        Some(path) => if path_fits(a.text, path) {
            Ok(path)
        } else {
            Err(SyncErrorView::AddressTooLong(title))
        },
    }
}

/// The address from which the target `href` of an entry of the given title
/// is downloaded: that of the server, with `href` as its path.
pub open spec fn download_address(base: Seq<char>, href: Option<Seq<char>>, title: Seq<char>)
    -> Result<Seq<char>, SyncErrorView> {
    match url_parse(base) {
        None => Err(SyncErrorView::BadServerAddress),
        Some(a) => match download_path(a, href, title) {
            Err(e) => Err(e),
            Ok(path) => Ok(url_with_path(base, path)),
        },
    }
}

/// The request that downloads the target `href`.
pub open spec fn download_request(
    instance: InstanceView,
    href: Option<Seq<char>>,
    title: Seq<char>,
) -> Result<RequestView, SyncErrorView> {
    match download_address(instance.url, href, title) {
        Err(e) => Err(e),
        Ok(url) => Ok(request_to(instance, url)),
    }
}

/// The value of an outcome.
pub open spec fn outcome_view<T: View>(r: Result<T, SyncError>) -> Result<T::V, SyncErrorView> {
    match r {
        Ok(t) => Ok(t@),
        Err(e) => Err(e@),
    }
}

/// The request for `url` with the credentials of `instance`.
pub fn request_for(instance: &Instance, url: String) -> (r: Request)
    ensures
        r@ == request_to(instance@, url@),
{
    let username = match &instance.username {
        Some(name) => name.clone(),
        None => String::from_str("admin"),
    };
    Request { url, username, password: clone_text(&instance.password) }
}

/// The request that fetches the first page of the catalog of `instance`.
pub fn catalog_request(instance: &Instance) -> (r: Request)
    ensures
        r@ == request_to(instance@, instance@.url),
{
    request_for(instance, instance.url.clone())
}

/// The place of the first link to a next page among `links`.
pub fn find_next_page(links: &Vec<Link>) -> (r: Option<usize>)
    ensures
        match r {
            Some(at) => at < links.len() && next_page_link(views(links@)) == Some(
                links@[at as int]@,
            ),
            None => next_page_link(views(links@)) is None,
        },
{
    let mut i: usize = 0;
    assert(views(links@).skip(0) =~= views(links@));
    while i < links.len()
        invariant
            i <= links.len(),
            next_page_link(views(links@)) == next_page_link(views(links@).skip(i as int)),
        decreases links.len() - i,
    {
        let ghost rest = views(links@).skip(i as int);
        assert(rest.drop_first() =~= views(links@).skip(i + 1));
        if let Some(LinkType::Next) = &links[i].rel {
            return Some(i);
        }
        i += 1;
    }
    None
}

/// Whether `href` is a path alone.
pub fn rooted(href: &str) -> (r: bool)
    ensures
        r == is_rooted(href@),
{
    starts_with(href, "/")
}

/// The text for the path `href` on the scheme and host of `address`.
pub fn root_at(address: &Address, href: &str) -> (r: Result<String, SyncError>)
    ensures
        outcome_view(r) == rooted_at(address@, href@),
{
    match &address.host {
        None => Err(SyncError::NoHost),
        Some(host) => {
            let mut text = address.scheme.clone();
            text.append("://");
            text.append(host.as_str());
            text.append(href);
            Ok(text)
        },
    }
}

/// The address of the page that `href` points to from a catalog at `base`.
pub fn resolve_page(base: &str, href: &str) -> (r: Result<String, SyncError>)
    ensures
        outcome_view(r) == page_address(base@, href@),
{
    let candidate = if rooted(href) {
        let text = match parse_address(base) {
            Err(_) => {
                return Err(SyncError::BadServerAddress);
            },
            Ok(a) => root_at(&a, href),
        };
        match text {
            Err(e) => {
                return Err(e);
            },
            Ok(text) => text,
        }
    } else {
        String::from_str(href)
    };
    match parse_address(candidate.as_str()) {
        Err(_) => Err(SyncError::BadPageAddress),
        Ok(a) => Ok(a.text),
    }
}

/// The request for the page after the one with `links`.
pub fn following_request(instance: &Instance, links: &Vec<Link>) -> (r: Result<
    Option<Request>,
    SyncError,
>)
    ensures
        match r {
            Ok(Some(q)) => next_request(instance@, views(links@)) == Ok::<
                Option<RequestView>,
                SyncErrorView,
            >(Some(q@)),
            Ok(None) => next_request(instance@, views(links@)) == Ok::<
                Option<RequestView>,
                SyncErrorView,
            >(None),
            Err(e) => next_request(instance@, views(links@)) == Err::<
                Option<RequestView>,
                SyncErrorView,
            >(e@),
        },
{
    match find_next_page(links) {
        None => Ok(None),
        Some(at) => match &links[at].href {
            None => Err(SyncError::MissingNextPage),
            Some(href) => match resolve_page(instance.url.as_str(), href.as_str()) {
                Err(e) => Err(e),
                Ok(url) => Ok(Some(request_for(instance, url))),
            },
        },
    }
}

/// Takes `page` into `feed`.
pub fn merge_page(feed: &mut Feed, page: Feed)
    ensures
        final(feed)@ == merged(old(feed)@, page@),
{
    let Feed { entries, links } = page;
    let ghost before = feed.entries@;
    let mut entries = entries;
    feed.entries.append(&mut entries);
    feed.links = links;
    assert(views(feed.entries@) =~= views(before) + views(page.entries@));
}

/// The path that is put into the address of the server to download the
/// target `href` of an entry of the given title.
pub fn path_to_download<'a>(address: &Address, href: &'a Option<String>, title: &str) -> (r: Result<
    &'a String,
    SyncError,
>)
    ensures
        match r {
            Ok(path) => download_path(address@, option_view(*href), title@) == Ok::<
                Seq<char>,
                SyncErrorView,
            >(path@),
            Err(e) => download_path(address@, option_view(*href), title@) == Err::<
                Seq<char>,
                SyncErrorView,
            >(e@),
        },
{
    match href {
        None => Err(SyncError::MissingHref(String::from_str(title))),
        Some(path) => {
            if has_room(address.text.as_str(), path.as_str()) {
                Ok(path)
            } else {
                Err(SyncError::AddressTooLong(String::from_str(title)))
            }
        },
    }
}

/// The address from which the target `href` of an entry of the given title
/// is downloaded.
pub fn resolve_download(base: &str, href: &Option<String>, title: &str) -> (r: Result<
    String,
    SyncError,
>)
    ensures
        outcome_view(r) == download_address(base@, option_view(*href), title@),
{
    let address = match parse_address(base) {
        Err(_) => {
            return Err(SyncError::BadServerAddress);
        },
        Ok(address) => address,
    };
    match path_to_download(&address, href, title) {
        Err(e) => Err(e),
        Ok(path) => match replace_path(base, path.as_str()) {
            Ok(url) => Ok(url),
            Err(_) => Err(SyncError::BadServerAddress),
        },
    }
}

/// The request that downloads the target `href`.
pub fn transfer_request(instance: &Instance, href: &Option<String>, title: &str) -> (r: Result<
    Request,
    SyncError,
>)
    ensures
        outcome_view(r) == download_request(instance@, option_view(*href), title@),
{
    match resolve_download(instance.url.as_str(), href, title) {
        Err(e) => Err(e),
        Ok(url) => Ok(request_for(instance, url)),
    }
}

} // verus!
