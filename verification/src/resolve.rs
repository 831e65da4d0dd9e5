//! The entry resolver: which link of an entry is downloaded, under which
//! name, and into which directory of the library.

use crate::classify::{
    extension_for, extension_for_type, extension_text, file_type_of, FileExtension,
    FileExtensionView, FileType, LinkType, LinkTypeView,
};
use crate::opds::{views, Entry, EntryView, Link, LinkView};
use crate::path::{join, joined};
use crate::settings::{Settings, SettingsView};
use crate::text::{same, strip_prefix};
use vstd::prelude::*;
use vstd::string::*;

verus! {

/// An entry that is to be downloaded: the link chosen, the extension of the
/// file and the path at which it is stored.
#[derive(Debug)]
pub struct EntryResult {
    pub link: Link,
    pub file_extension: FileExtension,
    pub entry: Entry,
    pub save_path: String,
}

/// The value of an [`EntryResult`].
pub struct EntryResultView {
    pub link: LinkView,
    pub file_extension: FileExtensionView,
    pub entry: EntryView,
    pub save_path: Seq<char>,
}

impl View for EntryResult {
    type V = EntryResultView;

    open spec fn view(&self) -> EntryResultView {
        EntryResultView {
            link: self.link@,
            file_extension: self.file_extension@,
            entry: self.entry@,
            save_path: self.save_path@,
        }
    }
}

/// An entry with a place in the library, before the disk has been looked at.
#[derive(Debug)]
pub struct Candidate {
    /// What is downloaded, and where to.
    pub result: EntryResult,
    /// The directory that the organization table gave, which is made if it
    /// is not there.
    pub directory: Option<String>,
}

/// The value of a [`Candidate`].
pub struct CandidateView {
    pub result: EntryResultView,
    pub directory: Option<Seq<char>>,
}

impl View for Candidate {
    type V = CandidateView;

    open spec fn view(&self) -> CandidateView {
        CandidateView {
            result: self.result@,
            directory: match self.directory {
                Some(d) => Some(d@),
                None => None,
            },
        }
    }
}

/// What the resolver makes of an entry.
#[derive(Debug)]
pub enum Resolution {
    /// A link of the entry is wanted, but its identifier is not that of an
    /// item to download: the entry is passed over in silence.
    Skipped,
    /// No link of the entry offers a wanted media type: this is reported.
    NoAcquisitionLink,
    /// The entry has a place in the library.
    Candidate(Candidate),
}

/// The value of a [`Resolution`].
pub enum ResolutionView {
    Skipped,
    NoAcquisitionLink,
    Candidate(CandidateView),
}

impl View for Resolution {
    type V = ResolutionView;

    open spec fn view(&self) -> ResolutionView {
        match self {
            Resolution::Skipped => ResolutionView::Skipped,
            Resolution::NoAcquisitionLink => ResolutionView::NoAcquisitionLink,
            Resolution::Candidate(c) => ResolutionView::Candidate(c@),
        }
    }
}

/// Whether `link` offers a file of the media type `wanted` for download.
pub open spec fn offers(link: LinkView, wanted: Seq<char>) -> bool {
    link.rel == Some(LinkTypeView::Acquisition) && link.file_type == Some(wanted)
}

/// The first of `links` that offers `wanted`.
pub open spec fn first_offer(links: Seq<LinkView>, wanted: Seq<char>) -> Option<LinkView>
    decreases links.len(),
{
    if links.len() == 0 {
        None
    } else if offers(links[0], wanted) {
        Some(links[0])
    } else {
        first_offer(links.drop_first(), wanted)
    }
}

/// The link to download: the first offer of the first media type of
/// `preferred` that any link offers.
pub open spec fn selected(links: Seq<LinkView>, preferred: Seq<Seq<char>>) -> Option<LinkView>
    decreases preferred.len(),
{
    if preferred.len() == 0 {
        None
    } else {
        match first_offer(links, preferred[0]) {
            Some(link) => Some(link),
            None => selected(links, preferred.drop_first()),
        }
    }
}

/// The links of an entry; none where the catalog gave none.
pub open spec fn links_of(entry: EntryView) -> Seq<LinkView> {
    match entry.links {
        Some(links) => links,
        None => Seq::empty(),
    }
}

/// The name under which the entry `id` is stored: what follows `urn:uuid:`.
pub open spec fn document_id(id: Seq<char>) -> Option<Seq<char>> {
    if "urn:uuid:"@.is_prefix_of(id) {
        Some(id.skip("urn:uuid:"@.len() as int))
    } else {
        None
    }
}

/// The name of the file: the identifier, a dot and the extension.
pub open spec fn file_name(stem: Seq<char>, extension: FileExtensionView) -> Seq<char> {
    stem + "."@ + extension_text(extension)
}

/// The directory below which the files of `server` are placed: the save
/// path itself where files are grouped by server, else the directory of the
/// server below it.
pub open spec fn base_directory(settings: SettingsView, server: Seq<char>, save: Seq<char>) -> Seq<
    char,
> {
    if settings.use_server_name_directories {
        save
    } else {
        joined(save, server)
    }
}

/// The directory that the organization table gives to `extension`, where
/// files are organized by type and the table has it.
pub open spec fn organized_directory(
    settings: SettingsView,
    server: Seq<char>,
    save: Seq<char>,
    extension: FileExtensionView,
) -> Option<Seq<char>> {
    if settings.organize_by_file_type && settings.organization.contains_key(
        extension_text(extension),
    ) {
        Some(
            joined(
                base_directory(settings, server, save),
                settings.organization[extension_text(extension)],
            ),
        )
    } else {
        None
    }
}

/// The directory into which a file of `extension` goes.
pub open spec fn destination_directory(
    settings: SettingsView,
    server: Seq<char>,
    save: Seq<char>,
    extension: FileExtensionView,
) -> Seq<char> {
    match organized_directory(settings, server, save, extension) {
        Some(directory) => directory,
        None => base_directory(settings, server, save),
    }
}

/// The extension of the file behind `link`.
pub open spec fn extension_of_link(link: LinkView) -> FileExtensionView {
    match link.file_type {
        Some(media_type) => extension_for(file_type_of(media_type)),
        None => FileExtensionView::Other(Seq::empty()),
    }
}

/// What the resolver makes of `entry`. The link is selected first: an entry
/// without a wanted link is reported, whatever its identifier. An entry
/// with a wanted link and an identifier that does not start with `urn:uuid:`
/// is passed over in silence.
pub open spec fn resolution(
    entry: EntryView,
    settings: SettingsView,
    server: Seq<char>,
    save: Seq<char>,
) -> ResolutionView {
    match selected(links_of(entry), settings.preferred_file_types) {
        None => ResolutionView::NoAcquisitionLink,
        Some(link) => match document_id(entry.id) {
            None => ResolutionView::Skipped,
            Some(stem) => {
                let extension = extension_of_link(link);
                ResolutionView::Candidate(
                    CandidateView {
                        result: EntryResultView {
                            link,
                            file_extension: extension,
                            entry,
                            save_path: joined(
                                destination_directory(settings, server, save, extension),
                                file_name(stem, extension),
                            ),
                        },
                        directory: organized_directory(settings, server, save, extension),
                    },
                )
            },
        },
    }
}

/// The path at which `entry` is stored, where it has one.
pub open spec fn destination(
    entry: EntryView,
    settings: SettingsView,
    server: Seq<char>,
    save: Seq<char>,
) -> Option<Seq<char>> {
    match resolution(entry, settings, server, save) {
        ResolutionView::Candidate(c) => Some(c.result.save_path),
        _ => None,
    }
}

/// Whether `entry` is downloaded, `present` being the paths that exist.
pub open spec fn wanted(
    entry: EntryView,
    settings: SettingsView,
    server: Seq<char>,
    save: Seq<char>,
    present: Set<Seq<char>>,
) -> bool {
    match destination(entry, settings, server, save) {
        Some(path) => !present.contains(path),
        None => false,
    }
}

/// `first_offer` finds an offer exactly where one of the links offers
/// `wanted`, and what it finds is the first of them.
pub proof fn lemma_first_offer(links: Seq<LinkView>, wanted: Seq<char>)
    ensures
        first_offer(links, wanted) is None <==> forall|i: int|
            0 <= i < links.len() ==> !offers(#[trigger] links[i], wanted),
        first_offer(links, wanted) matches Some(link) ==> exists|i: int|
            0 <= i < links.len() && #[trigger] links[i] == link && offers(link, wanted) && forall|
                j: int,
            | 0 <= j < i ==> !offers(#[trigger] links[j], wanted),
    decreases links.len(),
{
    if links.len() > 0 {
        let rest = links.drop_first();
        lemma_first_offer(rest, wanted);
        if !offers(links[0], wanted) {
            if first_offer(rest, wanted) is None {
                assert forall|i: int| 0 <= i < links.len() implies !offers(
                    #[trigger] links[i],
                    wanted,
                ) by {
                    if i > 0 {
                        assert(rest[i - 1] == links[i]);
                    }
                }
            } else {
                let link = first_offer(rest, wanted)->0;
                let k = choose|i: int|
                    0 <= i < rest.len() && #[trigger] rest[i] == link && offers(link, wanted)
                        && forall|j: int| 0 <= j < i ==> !offers(#[trigger] rest[j], wanted);
                assert forall|j: int| 0 <= j < k + 1 implies !offers(
                    #[trigger] links[j],
                    wanted,
                ) by {
                    if j > 0 {
                        assert(rest[j - 1] == links[j]);
                    }
                }
            }
        }
    }
}

/// No link is selected exactly where no link offers a media type of the
/// preferred list.
pub proof fn lemma_selected_none(links: Seq<LinkView>, preferred: Seq<Seq<char>>)
    ensures
        selected(links, preferred) is None <==> forall|i: int, p: int|
            0 <= i < links.len() && 0 <= p < preferred.len() ==> !offers(
                #[trigger] links[i],
                #[trigger] preferred[p],
            ),
    decreases preferred.len(),
{
    if preferred.len() > 0 {
        let rest = preferred.drop_first();
        lemma_selected_none(links, rest);
        lemma_first_offer(links, preferred[0]);
        if selected(links, preferred) is None {
            assert forall|i: int, p: int|
                0 <= i < links.len() && 0 <= p < preferred.len() implies !offers(
                #[trigger] links[i],
                #[trigger] preferred[p],
            ) by {
                if p > 0 {
                    assert(rest[p - 1] == preferred[p]);
                }
            }
        }
    }
}

/// The order of the preferred list decides, not that of the links: the link
/// selected offers the earliest media type of the list that any link offers,
/// and is the first link to offer it.
pub proof fn lemma_selected_follows_preference(links: Seq<LinkView>, preferred: Seq<Seq<char>>)
    ensures
        selected(links, preferred) matches Some(link) ==> exists|p: int|
            0 <= p < preferred.len() && first_offer(links, #[trigger] preferred[p]) == Some(link)
                && forall|q: int, i: int|
                0 <= q < p && 0 <= i < links.len() ==> !offers(
                    #[trigger] links[i],
                    #[trigger] preferred[q],
                ),
    decreases preferred.len(),
{
    if preferred.len() > 0 {
        let rest = preferred.drop_first();
        lemma_first_offer(links, preferred[0]);
        if first_offer(links, preferred[0]) is None {
            lemma_selected_follows_preference(links, rest);
            if selected(links, rest) is Some {
                let link = selected(links, rest)->0;
                let p = choose|p: int|
                    0 <= p < rest.len() && first_offer(links, #[trigger] rest[p]) == Some(link)
                        && forall|q: int, i: int|
                        0 <= q < p && 0 <= i < links.len() ==> !offers(
                            #[trigger] links[i],
                            #[trigger] rest[q],
                        );
                assert forall|q: int, i: int|
                    0 <= q < p + 1 && 0 <= i < links.len() implies !offers(
                    #[trigger] links[i],
                    #[trigger] preferred[q],
                ) by {
                    if q > 0 {
                        assert(rest[q - 1] == preferred[q]);
                    }
                }
            }
        }
    }
}

/// An entry without a link that offers a preferred media type gets no place
/// in the library.
pub proof fn lemma_no_offer_no_candidate(
    entry: EntryView,
    settings: SettingsView,
    server: Seq<char>,
    save: Seq<char>,
)
    requires
        forall|i: int, p: int|
            0 <= i < links_of(entry).len() && 0 <= p < settings.preferred_file_types.len()
                ==> !offers(
                #[trigger] links_of(entry)[i],
                #[trigger] settings.preferred_file_types[p],
            ),
    ensures
        !(resolution(entry, settings, server, save) is Candidate),
        destination(entry, settings, server, save) is None,
{
    lemma_selected_none(links_of(entry), settings.preferred_file_types);
}

/// An entry whose identifier does not start with `urn:uuid:` gets no place
/// in the library; where one of its links is wanted, it is passed over in
/// silence.
pub proof fn lemma_foreign_id_is_skipped(
    entry: EntryView,
    settings: SettingsView,
    server: Seq<char>,
    save: Seq<char>,
)
    requires
        !"urn:uuid:"@.is_prefix_of(entry.id),
    ensures
        !(resolution(entry, settings, server, save) is Candidate),
        destination(entry, settings, server, save) is None,
        selected(links_of(entry), settings.preferred_file_types) is Some ==> resolution(
            entry,
            settings,
            server,
            save,
        ) == ResolutionView::Skipped,
{
}

/// A second pass finds nothing to do: once the destination of every entry
/// that was wanted exists, no entry of the catalog is wanted.
pub proof fn lemma_second_pass_wants_nothing(
    entries: Seq<EntryView>,
    settings: SettingsView,
    server: Seq<char>,
    save: Seq<char>,
    before: Set<Seq<char>>,
    after: Set<Seq<char>>,
)
    requires
        before.subset_of(after),
        forall|i: int|
            0 <= i < entries.len() && wanted(#[trigger] entries[i], settings, server, save, before)
                ==> after.contains(destination(entries[i], settings, server, save)->0),
    ensures
        forall|i: int|
            0 <= i < entries.len() ==> !wanted(#[trigger] entries[i], settings, server, save, after),
{
}

/// Where files are grouped by server, the place of an entry lies below the
/// shared save root and does not depend on the name of the server.
pub proof fn lemma_shared_root_ignores_server(
    entry: EntryView,
    settings: SettingsView,
    first: Seq<char>,
    second: Seq<char>,
    save: Seq<char>,
)
    requires
        settings.use_server_name_directories,
    ensures
        resolution(entry, settings, first, save) == resolution(entry, settings, second, save),
        destination(entry, settings, first, save) == destination(entry, settings, second, save),
{
}

/// The first of `links` that offers `wanted`.
fn find_offer(links: &Vec<Link>, wanted: &str) -> (r: Option<usize>)
    ensures
        match r {
            Some(at) => at < links.len() && first_offer(views(links@), wanted@) == Some(
                links@[at as int]@,
            ),
            None => first_offer(views(links@), wanted@) is None,
        },
{
    let mut i: usize = 0;
    assert(views(links@).skip(0) =~= views(links@));
    while i < links.len()
        invariant
            i <= links.len(),
            first_offer(views(links@), wanted@) == first_offer(
                views(links@).skip(i as int),
                wanted@,
            ),
        decreases links.len() - i,
    {
        let ghost rest = views(links@).skip(i as int);
        assert(rest.drop_first() =~= views(links@).skip(i + 1));
        let acquisition = match &links[i].rel {
            Some(LinkType::Acquisition) => true,
            _ => false,
        };
        let typed = match &links[i].file_type {
            Some(t) => same(t.as_str(), wanted),
            None => false,
        };
        if acquisition && typed {
            return Some(i);
        }
        i += 1;
    }
    None
}

/// The link of `entry` to download, by the preferences of `preferred`.
pub fn select_link(entry: &Entry, preferred: &Vec<String>) -> (r: Option<Link>)
    ensures
        match r {
            Some(link) => selected(links_of(entry@), views(preferred@)) == Some(link@),
            None => selected(links_of(entry@), views(preferred@)) is None,
        },
{
    let ghost want = views(preferred@);
    let ghost have = links_of(entry@);
    match &entry.links {
        None => {
            proof {
                lemma_selected_none(have, want);
            }
            None
        },
        Some(links) => {
            let mut p: usize = 0;
            assert(want.skip(0) =~= want);
            while p < preferred.len()
                invariant
                    p <= preferred.len(),
                    want == views(preferred@),
                    have == views(links@),
                    have == links_of(entry@),
                    selected(have, want) == selected(have, want.skip(p as int)),
                decreases preferred.len() - p,
            {
                let ghost rest = want.skip(p as int);
                assert(rest.drop_first() =~= want.skip(p + 1));
                match find_offer(links, preferred[p].as_str()) {
                    Some(at) => {
                        return Some(links[at].clone());
                    },
                    None => {},
                }
                p += 1;
            }
            None
        },
    }
}

/// What the resolver makes of `entry`, a catalog entry of `server`, with
/// `save_path` as the root of what is saved.
pub fn resolve(entry: Entry, settings: &Settings, server: &str, save_path: &str) -> (r: Resolution)
    ensures
        r@ == resolution(entry@, settings@, server@, save_path@),
{
    let link = match select_link(&entry, &settings.preferred_file_types) {
        None => {
            return Resolution::NoAcquisitionLink;
        },
        Some(link) => link,
    };
    let stem = match strip_prefix(entry.id.as_str(), "urn:uuid:") {
        None => {
            return Resolution::Skipped;
        },
        Some(rest) => String::from_str(rest),
    };
    let extension = match &link.file_type {
        Some(media_type) => {
            let file_type = FileType::from_str(media_type.as_str());
            extension_for_type(&file_type)
        },
        None => FileExtension::Other(String::new()),
    };
    let suffix = extension.to_string();
    let mut name = stem;
    name.append(".");
    name.append(suffix.as_str());
    let base = if settings.use_server_name_directories {
        String::from_str(save_path)
    } else {
        join(save_path, server)
    };
    let organized = if settings.organize_by_file_type {
        match settings.directory_for(suffix.as_str()) {
            Some(directory) => Some(join(base.as_str(), directory.as_str())),
            None => None,
        }
    } else {
        None
    };
    let save_path = match &organized {
        Some(directory) => join(directory.as_str(), name.as_str()),
        None => join(base.as_str(), name.as_str()),
    };
    Resolution::Candidate(
        Candidate {
            result: EntryResult { link, file_extension: extension, entry, save_path },
            directory: organized,
        },
    )
}

/// A link that was selected names its media type.
pub proof fn lemma_selected_is_typed(links: Seq<LinkView>, preferred: Seq<Seq<char>>)
    ensures
        selected(links, preferred) matches Some(link) ==> link.file_type is Some,
    decreases preferred.len(),
{
    if preferred.len() > 0 {
        lemma_first_offer(links, preferred[0]);
        lemma_selected_is_typed(links, preferred.drop_first());
    }
}

/// The entry to download, once the disk has been looked at: the candidate,
/// unless its directory could not be made ready or its file is there
/// already.
pub fn confirm(candidate: Candidate, ready: bool, occupied: bool) -> (r: Option<EntryResult>)
    ensures
        r is Some == (ready && !occupied),
        r matches Some(result) ==> result@ == candidate@.result,
{
    if ready && !occupied {
        Some(candidate.result)
    } else {
        None
    }
}

} // verus!
