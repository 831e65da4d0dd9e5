//! The sync executor as a state machine. The machine decides; its caller
//! acts. Each step takes the answer to what was asked last, together with
//! the cancellation flag as it stands then, and hands back what to do next:
//! effects to carry out in order, and one action whose outcome is the next
//! answer.
//!
//! Per server the machine fetches the catalog page by page, resolves its
//! entries in feed order, announces what it found and downloads what is
//! missing, one entry after the other. The cancellation flag is looked at
//! where the work on a server starts and where that on a download starts,
//! and nowhere else.
//!
//! Failures are of two kinds. A download that fails is told and cleaned up,
//! and the run goes on with the next download. A catalog that cannot be
//! fetched, a next page whose address cannot be made, and a file that
//! cannot be created end the whole run, the servers not yet visited
//! included: the run makes no attempt to go on with the next server.

use crate::error::{SyncError, SyncErrorView};
use crate::fetch::{
    catalog_request, download_request, following_request, merge_page, merged, next_request,
    request_to, transfer_request, Request, RequestView,
};
use crate::notify::{
    announcement, failure_message, failure_text, finished_message, finished_text, miss_message,
    miss_text, print_sync_notification,
};
use crate::opds::{option_view, views, Feed, FeedView, InstanceView};
use crate::record::{document_record, record, DocumentInfo, DocumentInfoView};
use crate::resolve::{
    confirm, resolution, resolve, Candidate, CandidateView, EntryResult, EntryResultView,
    Resolution, ResolutionView,
};
use crate::settings::{Settings, SettingsView};
use vstd::prelude::*;
use vstd::string::*;

verus! {

/// Where a run stands.
#[derive(Debug, Clone, Copy, PartialEq, Eq, Structural)]
pub enum Phase {
    /// Nothing has been asked yet.
    Idle,
    /// A page of a catalog has been asked for.
    Fetching,
    /// The disk is being looked at for the place of an entry.
    Probing,
    /// The file of a download is being created.
    Claiming,
    /// A download is under way.
    Transferring,
    /// The run is over.
    Done,
}

/// An answer of the caller.
#[derive(Debug)]
pub enum Event {
    /// The run begins.
    Start,
    /// The page that was asked for.
    Page(Feed),
    /// The disk as it is: whether the directory is there or was made, and
    /// whether a file stands at the path already.
    Probed { ready: bool, occupied: bool },
    /// The file was created.
    Claimed,
    /// A file stands at the path: nothing was created.
    Present,
    /// The download is complete: the size of the file and the time.
    Downloaded { size: u64, stamp: String },
    /// What was asked for could not be done; the text says why.
    Failed(String),
}

/// The value of an [`Event`].
pub enum EventView {
    Start,
    Page(FeedView),
    Probed { ready: bool, occupied: bool },
    Claimed,
    Present,
    Downloaded { size: u64, stamp: Seq<char> },
    Failed(Seq<char>),
}

impl View for Event {
    type V = EventView;

    open spec fn view(&self) -> EventView {
        match self {
            Event::Start => EventView::Start,
            Event::Page(feed) => EventView::Page(feed@),
            Event::Probed { ready, occupied } => EventView::Probed {
                ready: *ready,
                occupied: *occupied,
            },
            Event::Claimed => EventView::Claimed,
            Event::Present => EventView::Present,
            Event::Downloaded { size, stamp } => EventView::Downloaded {
                size: *size,
                stamp: stamp@,
            },
            Event::Failed(reason) => EventView::Failed(reason@),
        }
    }
}

/// Something to carry out; no answer is awaited.
#[derive(Debug)]
pub enum Effect {
    /// Show this notice.
    Notify(String),
    /// Delete the file at this path, if it is there.
    Remove(String),
    /// Enter this document in the library.
    Register(DocumentInfo),
}

/// The value of an [`Effect`].
pub enum EffectView {
    Notify(Seq<char>),
    Remove(Seq<char>),
    Register(DocumentInfoView),
}

impl View for Effect {
    type V = EffectView;

    open spec fn view(&self) -> EffectView {
        match self {
            Effect::Notify(text) => EffectView::Notify(text@),
            Effect::Remove(path) => EffectView::Remove(path@),
            Effect::Register(info) => EffectView::Register(info@),
        }
    }
}

/// What the caller does next. Its outcome is the next answer.
#[derive(Debug)]
pub enum Action {
    /// Send the request and read the answer as a page of a catalog:
    /// `Page`, or `Failed`.
    Fetch(Request),
    /// Make the directory if one is named and it is not there, then look
    /// whether a file stands at the path: `Probed`.
    Probe { directory: Option<String>, path: String },
    /// Create the file at the path unless one stands there: `Claimed`,
    /// `Present`, or `Failed`.
    Claim { path: String },
    /// Send the request and write the answer to the file at the path:
    /// `Downloaded`, or `Failed`.
    Transfer { request: Request, path: String },
    /// The run is over and went well.
    Finish,
    /// The run is over and failed.
    Abort(SyncError),
}

/// The value of an [`Action`].
pub enum ActionView {
    Fetch(RequestView),
    Probe { directory: Option<Seq<char>>, path: Seq<char> },
    Claim { path: Seq<char> },
    Transfer { request: RequestView, path: Seq<char> },
    Finish,
    Abort(SyncErrorView),
}

impl View for Action {
    type V = ActionView;

    open spec fn view(&self) -> ActionView {
        match self {
            Action::Fetch(request) => ActionView::Fetch(request@),
            Action::Probe { directory, path } => ActionView::Probe {
                directory: option_view(*directory),
                path: path@,
            },
            Action::Claim { path } => ActionView::Claim { path: path@ },
            Action::Transfer { request, path } => ActionView::Transfer {
                request: request@,
                path: path@,
            },
            Action::Finish => ActionView::Finish,
            Action::Abort(e) => ActionView::Abort(e@),
        }
    }
}

/// What a step hands back.
#[derive(Debug)]
pub struct Reaction {
    /// What to carry out first, in this order.
    pub effects: Vec<Effect>,
    /// What to do then.
    pub next: Action,
}

/// The value of a [`Reaction`].
pub struct ReactionView {
    pub effects: Seq<EffectView>,
    pub next: ActionView,
}

impl View for Reaction {
    type V = ReactionView;

    open spec fn view(&self) -> ReactionView {
        ReactionView { effects: views(self.effects@), next: self.next@ }
    }
}

/// The state of a run.
#[derive(Debug)]
pub struct Sync {
    pub settings: Settings,
    /// The root of the library of the reader.
    pub library_path: String,
    /// The directory below which the downloads are saved.
    pub save_path: String,
    pub phase: Phase,
    /// The place of the server at work among those of the settings.
    pub server: usize,
    /// The catalog of the server, as far as it has been fetched.
    pub feed: Feed,
    /// The place of the entry that is resolved next.
    pub cursor: usize,
    /// The entry whose place on disk is being looked at.
    pub pending: Option<Candidate>,
    /// The entries to download.
    pub resolved: Vec<EntryResult>,
    /// The place of the download at work among the entries to download.
    pub item: usize,
}

/// The value of a [`Sync`].
pub struct SyncView {
    pub settings: SettingsView,
    pub library_path: Seq<char>,
    pub save_path: Seq<char>,
    pub phase: Phase,
    pub server: int,
    pub feed: FeedView,
    pub cursor: int,
    pub pending: Option<CandidateView>,
    pub resolved: Seq<EntryResultView>,
    pub item: int,
}

impl View for Sync {
    type V = SyncView;

    open spec fn view(&self) -> SyncView {
        SyncView {
            settings: self.settings@,
            library_path: self.library_path@,
            save_path: self.save_path@,
            phase: self.phase,
            server: self.server as int,
            feed: self.feed@,
            cursor: self.cursor as int,
            pending: option_view(self.pending),
            resolved: views(self.resolved@),
            item: self.item as int,
        }
    }
}

/// The notices for `texts`.
pub open spec fn notices(texts: Seq<Seq<char>>) -> Seq<EffectView> {
    texts.map_values(|text: Seq<char>| EffectView::Notify(text))
}

/// The name of the server at work.
pub open spec fn server_name(s: SyncView) -> Seq<char> {
    s.settings.servers[s.server].0
}

/// The server at work.
pub open spec fn server_instance(s: SyncView) -> InstanceView {
    s.settings.servers[s.server].1
}

/// The run ends in failure.
pub open spec fn abort(s: SyncView, e: SyncErrorView) -> (SyncView, ReactionView) {
    (
        SyncView { phase: Phase::Done, ..s },
        ReactionView { effects: Seq::empty(), next: ActionView::Abort(e) },
    )
}

/// The top of the loop over the servers: the run ends where it is cancelled
/// or no server is left; else the catalog of the next server is asked for.
pub open spec fn enter_server(s: SyncView, effects: Seq<EffectView>, cancelled: bool) -> (
    SyncView,
    ReactionView,
) {
    if cancelled || s.server >= s.settings.servers.len() || s.server < 0 {
        (SyncView { phase: Phase::Done, ..s }, ReactionView { effects, next: ActionView::Finish })
    } else {
        (
            SyncView {
                phase: Phase::Fetching,
                feed: FeedView { entries: Seq::empty(), links: Seq::empty() },
                cursor: 0,
                pending: None,
                resolved: Seq::empty(),
                item: 0,
                ..s
            },
            ReactionView {
                effects,
                next: ActionView::Fetch(request_to(server_instance(s), server_instance(s).url)),
            },
        )
    }
}

/// The work on a server ends: where anything was to be downloaded this is
/// told, and the next server is entered.
pub open spec fn close_server(s: SyncView, effects: Seq<EffectView>, cancelled: bool) -> (
    SyncView,
    ReactionView,
) {
    enter_server(
        SyncView { server: s.server + 1, ..s },
        if s.resolved.len() > 0 {
            effects.push(EffectView::Notify(finished_text(server_name(s))))
        } else {
            effects
        },
        cancelled,
    )
}

/// The top of the loop over the downloads: the work on the server ends
/// where the run is cancelled or no download is left; else the file of the
/// next download is claimed.
pub open spec fn advance(s: SyncView, effects: Seq<EffectView>, cancelled: bool) -> (
    SyncView,
    ReactionView,
) {
    if cancelled || s.item >= s.resolved.len() || s.item < 0 {
        close_server(s, effects, cancelled)
    } else {
        (
            SyncView { phase: Phase::Claiming, ..s },
            ReactionView {
                effects,
                next: ActionView::Claim { path: s.resolved[s.item].save_path },
            },
        )
    }
}

/// The entries are resolved from the cursor on, up to the first that has a
/// place in the library, whose place on disk is then looked at. An entry
/// without a wanted link is reported. Once no entry is left the downloads
/// are announced and begun.
pub open spec fn scan(s: SyncView, effects: Seq<EffectView>, cancelled: bool) -> (
    SyncView,
    ReactionView,
)
    decreases s.feed.entries.len() - s.cursor,
{
    if s.cursor >= s.feed.entries.len() || s.cursor < 0 {
        advance(
            SyncView { item: 0, pending: None, ..s },
            effects + notices(announcement(server_name(s), s.resolved)),
            cancelled,
        )
    } else {
        match resolution(
            s.feed.entries[s.cursor],
            s.settings,
            server_name(s),
            s.save_path,
        ) {
            ResolutionView::Skipped => scan(
                SyncView { cursor: s.cursor + 1, ..s },
                effects,
                cancelled,
            ),
            ResolutionView::NoAcquisitionLink => scan(
                SyncView { cursor: s.cursor + 1, ..s },
                effects.push(EffectView::Notify(miss_text(s.feed.entries[s.cursor].title))),
                cancelled,
            ),
            ResolutionView::Candidate(c) => (
                SyncView { phase: Phase::Probing, pending: Some(c), ..s },
                ReactionView {
                    effects,
                    next: ActionView::Probe { directory: c.directory, path: c.result.save_path },
                },
            ),
        }
    }
}

/// A page has come in: it is taken into the catalog, and the next page is
/// asked for where a link leads on; else the entries are resolved.
pub open spec fn absorb(s: SyncView, page: FeedView, cancelled: bool) -> (SyncView, ReactionView) {
    let t = SyncView { feed: merged(s.feed, page), ..s };
    match next_request(server_instance(s), page.links) {
        Err(e) => abort(t, e),
        Ok(Some(request)) => (
            t,
            ReactionView { effects: Seq::empty(), next: ActionView::Fetch(request) },
        ),
        Ok(None) => scan(
            SyncView { cursor: 0, resolved: Seq::empty(), ..t },
            Seq::empty(),
            cancelled,
        ),
    }
}

/// The disk has been looked at: the pending entry is downloaded where its
/// directory is ready and no file stands at its path, and the next entries
/// are resolved.
pub open spec fn settle(s: SyncView, ready: bool, occupied: bool, cancelled: bool) -> (
    SyncView,
    ReactionView,
) {
    match s.pending {
        None => abort(s, SyncErrorView::Unexpected),
        Some(c) => scan(
            SyncView {
                pending: None,
                cursor: s.cursor + 1,
                resolved: if ready && !occupied {
                    s.resolved.push(c.result)
                } else {
                    s.resolved
                },
                ..s
            },
            Seq::empty(),
            cancelled,
        ),
    }
}

/// The file of the download at work has been created: the download is asked
/// for, unless its address cannot be made.
pub open spec fn begin_transfer(s: SyncView) -> (SyncView, ReactionView) {
    let result = s.resolved[s.item];
    match download_request(server_instance(s), result.link.href, result.entry.title) {
        Err(e) => abort(s, e),
        Ok(request) => (
            SyncView { phase: Phase::Transferring, ..s },
            ReactionView {
                effects: Seq::empty(),
                next: ActionView::Transfer { request, path: result.save_path },
            },
        ),
    }
}

/// What is entered in the library for the download at work.
pub open spec fn registration(s: SyncView, size: u64, stamp: Seq<char>) -> Seq<EffectView> {
    match record(s.resolved[s.item], s.library_path, size, stamp, server_instance(s).url) {
        Some(info) => seq![EffectView::Register(info)],
        None => Seq::empty(),
    }
}

/// What follows the failure of the download at work: the failure is told
/// and what was written of the file is deleted.
pub open spec fn cleanup(s: SyncView, reason: Seq<char>) -> Seq<EffectView> {
    seq![
        EffectView::Notify(failure_text(s.resolved[s.item].entry.title, reason)),
        EffectView::Remove(s.resolved[s.item].save_path),
    ]
}

/// Whether a server and a download are at work.
pub open spec fn at_work(s: SyncView) -> bool {
    &&& 0 <= s.server < s.settings.servers.len()
    &&& 0 <= s.item < s.resolved.len()
}

/// The step of the machine: the state after `event`, and what to do.
pub open spec fn react(s: SyncView, event: EventView, cancelled: bool) -> (
    SyncView,
    ReactionView,
) {
    match (s.phase, event) {
        (Phase::Idle, EventView::Start) => enter_server(
            SyncView { server: 0, ..s },
            Seq::empty(),
            cancelled,
        ),
        (Phase::Fetching, EventView::Page(page)) => if 0 <= s.server < s.settings.servers.len() {
            absorb(s, page, cancelled)
        } else {
            abort(s, SyncErrorView::Unexpected)
        },
        (Phase::Fetching, EventView::Failed(reason)) => abort(s, SyncErrorView::Fetch(reason)),
        (Phase::Probing, EventView::Probed { ready, occupied }) => if 0 <= s.server
            < s.settings.servers.len() && 0 <= s.cursor < s.feed.entries.len() {
            settle(s, ready, occupied, cancelled)
        } else {
            abort(s, SyncErrorView::Unexpected)
        },
        (Phase::Claiming, EventView::Claimed) => if at_work(s) {
            begin_transfer(s)
        } else {
            abort(s, SyncErrorView::Unexpected)
        },
        (Phase::Claiming, EventView::Present) => if at_work(s) {
            advance(SyncView { item: s.item + 1, ..s }, Seq::empty(), cancelled)
        } else {
            abort(s, SyncErrorView::Unexpected)
        },
        (Phase::Claiming, EventView::Failed(reason)) => abort(s, SyncErrorView::Storage(reason)),
        (Phase::Transferring, EventView::Downloaded { size, stamp }) => if at_work(s) {
            advance(SyncView { item: s.item + 1, ..s }, registration(s, size, stamp), cancelled)
        } else {
            abort(s, SyncErrorView::Unexpected)
        },
        (Phase::Transferring, EventView::Failed(reason)) => if at_work(s) {
            advance(SyncView { item: s.item + 1, ..s }, cleanup(s, reason), cancelled)
        } else {
            abort(s, SyncErrorView::Unexpected)
        },
        _ => abort(s, SyncErrorView::Unexpected),
    }
}

/// The state before a run: nothing asked, nothing fetched.
pub open spec fn initial(settings: SettingsView, library: Seq<char>, save: Seq<char>) -> SyncView {
    SyncView {
        settings,
        library_path: library,
        save_path: save,
        phase: Phase::Idle,
        server: 0,
        feed: FeedView { entries: Seq::empty(), links: Seq::empty() },
        cursor: 0,
        pending: None,
        resolved: Seq::empty(),
        item: 0,
    }
}

/// A catalog without entries and links.
fn empty_feed() -> (r: Feed)
    ensures
        r@ == (FeedView { entries: Seq::empty(), links: Seq::empty() }),
{
    let r = Feed { entries: Vec::new(), links: Vec::new() };
    assert(r@.entries =~= Seq::empty());
    assert(r@.links =~= Seq::empty());
    r
}

/// No effects.
fn no_effects() -> (r: Vec<Effect>)
    ensures
        views(r@) == Seq::<EffectView>::empty(),
{
    let r: Vec<Effect> = Vec::new();
    r
}

/// No downloads.
fn no_results() -> (r: Vec<EntryResult>)
    ensures
        views(r@) == Seq::<EntryResultView>::empty(),
{
    let r: Vec<EntryResult> = Vec::new();
    r
}

/// Puts `effect` behind `effects`.
fn add_effect(effects: &mut Vec<Effect>, effect: Effect)
    ensures
        views(final(effects)@) == views(old(effects)@).push(effect@),
{
    effects.push(effect);
}

/// Puts a notice for each of `texts` behind `effects`.
fn add_notices(effects: &mut Vec<Effect>, texts: &Vec<String>)
    ensures
        views(final(effects)@) == views(old(effects)@) + notices(views(texts@)),
{
    let mut i: usize = 0;
    while i < texts.len()
        invariant
            i <= texts.len(),
            views(effects@) == views(old(effects)@) + notices(views(texts@)).take(i as int),
        decreases texts.len() - i,
    {
        add_effect(effects, Effect::Notify(texts[i].clone()));
        i += 1;
    }
}

/// Whether the server at work is one of the settings.
spec fn serving(s: SyncView) -> bool {
    0 <= s.server < s.settings.servers.len()
}

/// Ends the run in failure.
fn do_abort(s: &mut Sync, e: SyncError) -> (r: Reaction)
    ensures
        (final(s)@, r@) == abort(old(s)@, e@),
{
    s.phase = Phase::Done;
    Reaction { effects: no_effects(), next: Action::Abort(e) }
}

/// Enters the server at hand, or ends the run.
fn do_enter_server(s: &mut Sync, effects: Vec<Effect>, cancelled: bool) -> (r: Reaction)
    ensures
        (final(s)@, r@) == enter_server(old(s)@, views(effects@), cancelled),
{
    if cancelled || s.server >= s.settings.servers.len() {
        s.phase = Phase::Done;
        Reaction { effects, next: Action::Finish }
    } else {
        let request = catalog_request(&s.settings.servers[s.server].1);
        s.phase = Phase::Fetching;
        s.feed = empty_feed();
        s.cursor = 0;
        s.pending = None;
        s.resolved = no_results();
        s.item = 0;
        Reaction { effects, next: Action::Fetch(request) }
    }
}

/// Ends the work on the server at hand and goes on to the next.
fn do_close_server(s: &mut Sync, effects: Vec<Effect>, cancelled: bool) -> (r: Reaction)
    requires
        serving(old(s)@),
    ensures
        (final(s)@, r@) == close_server(old(s)@, views(effects@), cancelled),
{
    let mut effects = effects;
    if s.resolved.len() > 0 {
        let text = finished_message(s.settings.servers[s.server].0.as_str());
        add_effect(&mut effects, Effect::Notify(text));
    }
    assert(s.server < s.settings.servers.len());
    s.server = s.server + 1;
    do_enter_server(s, effects, cancelled)
}

/// Begins the download at hand, or ends the work on the server.
fn do_advance(s: &mut Sync, effects: Vec<Effect>, cancelled: bool) -> (r: Reaction)
    requires
        serving(old(s)@),
    ensures
        (final(s)@, r@) == advance(old(s)@, views(effects@), cancelled),
{
    if cancelled || s.item >= s.resolved.len() {
        do_close_server(s, effects, cancelled)
    } else {
        let path = s.resolved[s.item].save_path.clone();
        s.phase = Phase::Claiming;
        Reaction { effects, next: Action::Claim { path } }
    }
}

/// Resolves the entries from the cursor on.
fn do_scan(s: &mut Sync, given: Vec<Effect>, cancelled: bool) -> (r: Reaction)
    requires
        serving(old(s)@),
    ensures
        (final(s)@, r@) == scan(old(s)@, views(given@), cancelled),
{
    let ghost start = views(given@);
    let mut effects = given;
    let name = s.settings.servers[s.server].0.clone();
    while s.cursor < s.feed.entries.len()
        invariant
            serving(s@),
            name@ == server_name(s@),
            start == views(given@),
            scan(old(s)@, start, cancelled) == scan(s@, views(effects@), cancelled),
        decreases s.feed.entries.len() - s.cursor,
    {
        let entry = s.feed.entries[s.cursor].clone();
        let title = entry.title.clone();
        match resolve(entry, &s.settings, name.as_str(), s.save_path.as_str()) {
            Resolution::Skipped => {
                s.cursor = s.cursor + 1;
            },
            Resolution::NoAcquisitionLink => {
                add_effect(&mut effects, Effect::Notify(miss_message(title.as_str())));
                s.cursor = s.cursor + 1;
            },
            Resolution::Candidate(c) => {
                let directory = match &c.directory {
                    Some(d) => Some(d.clone()),
                    None => None,
                };
                let path = c.result.save_path.clone();
                s.phase = Phase::Probing;
                s.pending = Some(c);
                return Reaction { effects, next: Action::Probe { directory, path } };
            },
        }
    }
    let texts = print_sync_notification(&name, s.resolved.as_slice());
    add_notices(&mut effects, &texts);
    s.item = 0;
    s.pending = None;
    do_advance(s, effects, cancelled)
}

/// Takes a page into the catalog and decides what follows it.
fn do_absorb(s: &mut Sync, page: Feed, cancelled: bool) -> (r: Reaction)
    requires
        serving(old(s)@),
    ensures
        (final(s)@, r@) == absorb(old(s)@, page@, cancelled),
{
    let request = following_request(&s.settings.servers[s.server].1, &page.links);
    merge_page(&mut s.feed, page);
    match request {
        Err(e) => do_abort(s, e),
        Ok(Some(request)) => Reaction { effects: no_effects(), next: Action::Fetch(request) },
        Ok(None) => {
            s.cursor = 0;
            s.resolved = no_results();
            do_scan(s, no_effects(), cancelled)
        },
    }
}

/// Settles the pending entry by what the disk holds.
fn do_settle(s: &mut Sync, ready: bool, occupied: bool, cancelled: bool) -> (r: Reaction)
    requires
        serving(old(s)@),
        0 <= old(s)@.cursor < old(s)@.feed.entries.len(),
    ensures
        (final(s)@, r@) == settle(old(s)@, ready, occupied, cancelled),
{
    match s.pending.take() {
        None => do_abort(s, SyncError::Unexpected),
        Some(c) => {
            let ghost before = s.resolved@;
            match confirm(c, ready, occupied) {
                Some(result) => {
                    s.resolved.push(result);
                    assert(views(s.resolved@) =~= views(before).push(result@));
                },
                None => {},
            }
            assert(s.cursor < s.feed.entries.len());
            s.cursor = s.cursor + 1;
            do_scan(s, no_effects(), cancelled)
        },
    }
}

/// Asks for the download whose file has been created.
fn do_begin_transfer(s: &mut Sync) -> (r: Reaction)
    requires
        at_work(old(s)@),
    ensures
        (final(s)@, r@) == begin_transfer(old(s)@),
{
    let outcome = transfer_request(
        &s.settings.servers[s.server].1,
        &s.resolved[s.item].link.href,
        s.resolved[s.item].entry.title.as_str(),
    );
    match outcome {
        Err(e) => do_abort(s, e),
        Ok(request) => {
            let path = s.resolved[s.item].save_path.clone();
            s.phase = Phase::Transferring;
            Reaction { effects: no_effects(), next: Action::Transfer { request, path } }
        },
    }
}

impl Sync {
    /// A run that has not begun.
    pub fn new(settings: Settings, library_path: String, save_path: String) -> (r: Sync)
        ensures
            r@ == initial(settings@, library_path@, save_path@),
    {
        Sync {
            settings,
            library_path,
            save_path,
            phase: Phase::Idle,
            server: 0,
            feed: empty_feed(),
            cursor: 0,
            pending: None,
            resolved: no_results(),
            item: 0,
        }
    }

    /// Whether a server and a download are at work.
    fn working(&self) -> (r: bool)
        ensures
            r == at_work(self@),
    {
        self.server < self.settings.servers.len() && self.item < self.resolved.len()
    }

    /// Takes the answer `event`, with the cancellation flag as it stands,
    /// and says what to do next.
    pub fn step(&mut self, event: Event, cancelled: bool) -> (r: Reaction)
        ensures
            (final(self)@, r@) == react(old(self)@, event@, cancelled),
    {
        let serving = self.server < self.settings.servers.len();
        match (self.phase, event) {
            (Phase::Idle, Event::Start) => {
                self.server = 0;
                do_enter_server(self, no_effects(), cancelled)
            },
            (Phase::Fetching, Event::Page(page)) => {
                if serving {
                    do_absorb(self, page, cancelled)
                } else {
                    do_abort(self, SyncError::Unexpected)
                }
            },
            (Phase::Fetching, Event::Failed(reason)) => do_abort(self, SyncError::Fetch(reason)),
            (Phase::Probing, Event::Probed { ready, occupied }) => {
                if serving && self.cursor < self.feed.entries.len() {
                    do_settle(self, ready, occupied, cancelled)
                } else {
                    do_abort(self, SyncError::Unexpected)
                }
            },
            (Phase::Claiming, Event::Claimed) => {
                if self.working() {
                    do_begin_transfer(self)
                } else {
                    do_abort(self, SyncError::Unexpected)
                }
            },
            (Phase::Claiming, Event::Present) => {
                if self.working() {
                    assert(self.item < self.resolved.len());
                    self.item = self.item + 1;
                    do_advance(self, no_effects(), cancelled)
                } else {
                    do_abort(self, SyncError::Unexpected)
                }
            },
            (Phase::Claiming, Event::Failed(reason)) => do_abort(self, SyncError::Storage(reason)),
            (Phase::Transferring, Event::Downloaded { size, stamp }) => {
                if self.working() {
                    let mut effects = no_effects();
                    let info = document_record(
                        &self.resolved[self.item],
                        self.library_path.as_str(),
                        size,
                        stamp.as_str(),
                        self.settings.servers[self.server].1.url.as_str(),
                    );
                    match info {
                        Some(info) => {
                            add_effect(&mut effects, Effect::Register(info));
                        },
                        None => {},
                    }
                    assert(self.item < self.resolved.len());
                    self.item = self.item + 1;
                    do_advance(self, effects, cancelled)
                } else {
                    do_abort(self, SyncError::Unexpected)
                }
            },
            (Phase::Transferring, Event::Failed(reason)) => {
                if self.working() {
                    let mut effects = no_effects();
                    let text = failure_message(
                        self.resolved[self.item].entry.title.as_str(),
                        reason.as_str(),
                    );
                    add_effect(&mut effects, Effect::Notify(text));
                    add_effect(
                        &mut effects,
                        Effect::Remove(self.resolved[self.item].save_path.clone()),
                    );
                    assert(views(effects@) =~= cleanup(old(self)@, reason@));
                    assert(self.item < self.resolved.len());
                    self.item = self.item + 1;
                    do_advance(self, effects, cancelled)
                } else {
                    do_abort(self, SyncError::Unexpected)
                }
            },
            _ => do_abort(self, SyncError::Unexpected),
        }
    }
}

} // verus!
