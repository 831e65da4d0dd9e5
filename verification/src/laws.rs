//! What holds of every run: how the pages of a catalog add up, what
//! cancellation stops, what a failed download leaves behind, and that
//! nothing is downloaded twice.

use crate::engine::{
    abort, at_work, cleanup, react, scan, server_instance, server_name, ActionView, EffectView,
    EventView, Phase, ReactionView, SyncView,
};
use crate::error::SyncErrorView;
use crate::fetch::{merged, next_request, RequestView};
use crate::notify::{failure_text, miss_text};
use crate::opds::FeedView;
use crate::resolve::{
    destination, first_offer, lemma_first_offer, lemma_selected_follows_preference, links_of,
    offers, resolution, EntryResultView, ResolutionView,
};
use vstd::prelude::*;

verus! {

/// Whether `action` uses the network or writes a file.
pub open spec fn works(action: ActionView) -> bool {
    action is Fetch || action is Claim || action is Transfer
}

/// Whether a run can be in the state `s`: where a server is at work, it is
/// one of the settings; where the disk is looked at, an entry of the catalog
/// is pending; where a file is created or filled, it is that of a download
/// at hand.
pub open spec fn consistent(s: SyncView) -> bool {
    match s.phase {
        Phase::Idle | Phase::Done => true,
        Phase::Fetching => 0 <= s.server < s.settings.servers.len(),
        Phase::Probing => {
            &&& 0 <= s.server < s.settings.servers.len()
            &&& 0 <= s.cursor < s.feed.entries.len()
            &&& s.pending is Some
        },
        Phase::Claiming | Phase::Transferring => at_work(s),
    }
}

/// Whether `phase` is the one in which the outcome of `action` is awaited.
pub open spec fn awaits(phase: Phase, action: ActionView) -> bool {
    match action {
        ActionView::Fetch(_) => phase == Phase::Fetching,
        ActionView::Probe { .. } => phase == Phase::Probing,
        ActionView::Claim { .. } => phase == Phase::Claiming,
        ActionView::Transfer { .. } => phase == Phase::Transferring,
        ActionView::Finish | ActionView::Abort(_) => phase == Phase::Done,
    }
}

/// Whether `event` is an outcome of what is awaited in `phase`.
pub open spec fn answers(phase: Phase, event: EventView) -> bool {
    match phase {
        Phase::Idle => event is Start,
        Phase::Fetching => event is Page || event is Failed,
        Phase::Probing => event is Probed,
        Phase::Claiming => event is Claimed || event is Present || event is Failed,
        Phase::Transferring => event is Downloaded || event is Failed,
        Phase::Done => false,
    }
}

/// Whether the resolver made `r` of an entry for the server at work in `s`.
pub open spec fn produced(s: SyncView, r: EntryResultView) -> bool {
    resolution(r.entry, s.settings, server_name(s), s.save_path) matches ResolutionView::Candidate(
        c,
    ) && c.result == r
}

/// Whether what is held for download in `s` is what the resolver made: each
/// entry to download, and the entry whose place on disk is looked at.
pub open spec fn justified(s: SyncView) -> bool {
    &&& s.phase == Phase::Probing || s.phase == Phase::Claiming || s.phase == Phase::Transferring
        ==> forall|i: int| 0 <= i < s.resolved.len() ==> produced(s, #[trigger] s.resolved[i])
    &&& s.phase == Phase::Probing ==> (s.pending matches Some(c) && resolution(
        s.feed.entries[s.cursor],
        s.settings,
        server_name(s),
        s.save_path,
    ) == ResolutionView::Candidate(c))
}

/// An entry to download that the resolver made has an identifier that
/// starts with `urn:uuid:` and a link that offers a media type of the
/// preferred list, and its place is the one that the layout gives it.
pub proof fn lemma_produced_is_wanted(s: SyncView, r: EntryResultView)
    requires
        produced(s, r),
    ensures
        "urn:uuid:"@.is_prefix_of(r.entry.id),
        exists|p: int|
            0 <= p < s.settings.preferred_file_types.len() && offers(
                r.link,
                #[trigger] s.settings.preferred_file_types[p],
            ),
        destination(r.entry, s.settings, server_name(s), s.save_path) == Some(r.save_path),
{
    let links = links_of(r.entry);
    let preferred = s.settings.preferred_file_types;
    lemma_selected_follows_preference(links, preferred);
    let p = choose|p: int|
        0 <= p < preferred.len() && first_offer(links, #[trigger] preferred[p]) == Some(r.link);
    lemma_first_offer(links, preferred[p]);
}

/// Resolving entries keeps what is held for download what the resolver
/// made.
pub proof fn lemma_scan_is_justified(s: SyncView, effects: Seq<EffectView>, cancelled: bool)
    requires
        0 <= s.cursor,
        forall|i: int| 0 <= i < s.resolved.len() ==> produced(s, #[trigger] s.resolved[i]),
    ensures
        justified(scan(s, effects, cancelled).0),
    decreases s.feed.entries.len() - s.cursor,
{
    if s.cursor < s.feed.entries.len() {
        let next = SyncView { cursor: s.cursor + 1, ..s };
        lemma_scan_is_justified(next, effects, cancelled);
        lemma_scan_is_justified(
            next,
            effects.push(EffectView::Notify(miss_text(s.feed.entries[s.cursor].title))),
            cancelled,
        );
    }
}

/// Every step keeps what is held for download what the resolver made: no
/// entry is downloaded but one with a wanted link, an identifier of an item
/// to download and the place that the layout gives it.
pub proof fn lemma_steps_are_justified(s: SyncView, event: EventView, cancelled: bool)
    requires
        consistent(s),
        justified(s),
    ensures
        justified(react(s, event, cancelled).0),
{
    match (s.phase, event) {
        (Phase::Fetching, EventView::Page(page)) => {
            let u = SyncView { feed: merged(s.feed, page), ..s };
            lemma_scan_is_justified(
                SyncView { cursor: 0, resolved: Seq::empty(), ..u },
                Seq::empty(),
                cancelled,
            );
        },
        (Phase::Probing, EventView::Probed { ready, occupied }) => {
            let c = s.pending->0;
            let u = SyncView {
                pending: None,
                cursor: s.cursor + 1,
                resolved: if ready && !occupied {
                    s.resolved.push(c.result)
                } else {
                    s.resolved
                },
                ..s
            };
            lemma_scan_is_justified(u, Seq::empty(), cancelled);
        },
        _ => {},
    }
}

/// Resolving entries leaves the run in a state it can be in, waiting for
/// the outcome of what it asked for.
pub proof fn lemma_scan_is_consistent(s: SyncView, effects: Seq<EffectView>, cancelled: bool)
    requires
        0 <= s.server < s.settings.servers.len(),
        0 <= s.cursor,
    ensures
        consistent(scan(s, effects, cancelled).0),
        awaits(scan(s, effects, cancelled).0.phase, scan(s, effects, cancelled).1.next),
        !(scan(s, effects, cancelled).1.next is Abort),
    decreases s.feed.entries.len() - s.cursor,
{
    if s.cursor < s.feed.entries.len() {
        let next = SyncView { cursor: s.cursor + 1, ..s };
        lemma_scan_is_consistent(next, effects, cancelled);
        lemma_scan_is_consistent(
            next,
            effects.push(EffectView::Notify(miss_text(s.feed.entries[s.cursor].title))),
            cancelled,
        );
    }
}

/// Every step leaves the run in a state it can be in, and in the phase in
/// which the outcome of the action it asks for is awaited.
pub proof fn lemma_steps_are_consistent(s: SyncView, event: EventView, cancelled: bool)
    requires
        consistent(s),
    ensures
        consistent(react(s, event, cancelled).0),
        awaits(react(s, event, cancelled).0.phase, react(s, event, cancelled).1.next),
{
    match (s.phase, event) {
        (Phase::Fetching, EventView::Page(page)) => {
            let t = SyncView { feed: merged(s.feed, page), ..s };
            lemma_scan_is_consistent(
                SyncView { cursor: 0, resolved: Seq::empty(), ..t },
                Seq::empty(),
                cancelled,
            );
        },
        (Phase::Probing, EventView::Probed { ready, occupied }) => {
            let c = s.pending->0;
            lemma_scan_is_consistent(
                SyncView {
                    pending: None,
                    cursor: s.cursor + 1,
                    resolved: if ready && !occupied {
                        s.resolved.push(c.result)
                    } else {
                        s.resolved
                    },
                    ..s
                },
                Seq::empty(),
                cancelled,
            );
        },
        _ => {},
    }
}

/// An outcome of what was asked for is never taken for an answer out of
/// turn: from a state a run can be in, such an outcome does not end the run
/// with the error for an unexpected answer.
pub proof fn lemma_answers_are_understood(s: SyncView, event: EventView, cancelled: bool)
    requires
        consistent(s),
        answers(s.phase, event),
    ensures
        react(s, event, cancelled).1.next != ActionView::Abort(SyncErrorView::Unexpected),
{
    match (s.phase, event) {
        (Phase::Fetching, EventView::Page(page)) => {
            let t = SyncView { feed: merged(s.feed, page), ..s };
            lemma_scan_is_consistent(
                SyncView { cursor: 0, resolved: Seq::empty(), ..t },
                Seq::empty(),
                cancelled,
            );
        },
        (Phase::Probing, EventView::Probed { ready, occupied }) => {
            let c = s.pending->0;
            lemma_scan_is_consistent(
                SyncView {
                    pending: None,
                    cursor: s.cursor + 1,
                    resolved: if ready && !occupied {
                        s.resolved.push(c.result)
                    } else {
                        s.resolved
                    },
                    ..s
                },
                Seq::empty(),
                cancelled,
            );
        },
        _ => {},
    }
}

/// An answer out of turn ends the run with the error for it, and nothing is
/// carried out.
pub proof fn lemma_answer_out_of_turn(s: SyncView, event: EventView, cancelled: bool)
    requires
        !answers(s.phase, event),
    ensures
        react(s, event, cancelled) == abort(s, SyncErrorView::Unexpected),
{
}

/// A page with a link to a next page is taken into the catalog, and the
/// next page is asked for: the entries of the page follow those fetched
/// before, and its links take the place of theirs.
pub proof fn lemma_page_leads_on(s: SyncView, page: FeedView, request: RequestView, cancelled: bool)
    requires
        s.phase == Phase::Fetching,
        0 <= s.server < s.settings.servers.len(),
        next_request(server_instance(s), page.links) == Ok::<Option<RequestView>, SyncErrorView>(
            Some(request),
        ),
    ensures
        react(s, EventView::Page(page), cancelled).1.next == ActionView::Fetch(request),
        react(s, EventView::Page(page), cancelled).1.effects.len() == 0,
        react(s, EventView::Page(page), cancelled).0.feed.entries == s.feed.entries + page.entries,
        react(s, EventView::Page(page), cancelled).0.feed.links == page.links,
        react(s, EventView::Page(page), cancelled).0.phase == Phase::Fetching,
{
}

/// A page without a link to a next page is the last: no further page of the
/// catalog is asked for, and the entries of all its pages are resolved.
pub proof fn lemma_last_page_ends_fetching(s: SyncView, page: FeedView, cancelled: bool)
    requires
        s.phase == Phase::Fetching,
        0 <= s.server < s.settings.servers.len(),
        next_request(server_instance(s), page.links) == Ok::<Option<RequestView>, SyncErrorView>(
            None,
        ),
    ensures
        react(s, EventView::Page(page), cancelled) == scan(
            SyncView {
                feed: merged(s.feed, page),
                cursor: 0,
                resolved: Seq::empty(),
                ..s
            },
            Seq::empty(),
            cancelled,
        ),
{
}

/// Where the cancellation flag is set when a download ends, by success, by
/// failure or because its file was there, nothing more is asked for: the
/// run finishes, and not as an error.
pub proof fn lemma_cancellation_stops_downloads(s: SyncView, event: EventView)
    requires
        at_work(s),
        s.phase == Phase::Transferring && (event is Downloaded || event is Failed) || s.phase
            == Phase::Claiming && event is Present,
    ensures
        react(s, event, true).1.next == ActionView::Finish,
        react(s, event, true).0.phase == Phase::Done,
{
}

/// Where the cancellation flag is set when a run begins, no server is
/// visited.
pub proof fn lemma_cancellation_stops_servers(s: SyncView)
    requires
        s.phase == Phase::Idle,
    ensures
        react(s, EventView::Start, true).1.next == ActionView::Finish,
        react(s, EventView::Start, true).1.effects.len() == 0,
{
}

/// A run that is over stays over: whatever comes, nothing is asked for.
pub proof fn lemma_done_is_final(s: SyncView, event: EventView, cancelled: bool)
    requires
        s.phase == Phase::Done,
    ensures
        !works(react(s, event, cancelled).1.next),
        react(s, event, cancelled).0.phase == Phase::Done,
{
}

/// A catalog that cannot be fetched ends the whole run with the reason:
/// nothing is carried out, and no server that is left is visited.
pub proof fn lemma_fetch_failure_ends_the_run(s: SyncView, reason: Seq<char>, cancelled: bool)
    requires
        s.phase == Phase::Fetching,
    ensures
        react(s, EventView::Failed(reason), cancelled) == abort(s, SyncErrorView::Fetch(reason)),
        react(s, EventView::Failed(reason), cancelled).0.phase == Phase::Done,
        react(s, EventView::Failed(reason), cancelled).0.server == s.server,
{
}

/// A download that fails is told, what was written of its file is deleted,
/// and the run goes on: it does not end in an error, and where it is not
/// cancelled and another download is left, that one is begun.
pub proof fn lemma_failure_is_isolated(s: SyncView, reason: Seq<char>, cancelled: bool)
    requires
        at_work(s),
        s.phase == Phase::Transferring,
    ensures
        react(s, EventView::Failed(reason), cancelled).1.effects.len() >= 2,
        react(s, EventView::Failed(reason), cancelled).1.effects[0] == EffectView::Notify(
            failure_text(s.resolved[s.item].entry.title, reason),
        ),
        react(s, EventView::Failed(reason), cancelled).1.effects[1] == EffectView::Remove(
            s.resolved[s.item].save_path,
        ),
        !(react(s, EventView::Failed(reason), cancelled).1.next is Abort),
        !cancelled && s.item + 1 < s.resolved.len() ==> react(
            s,
            EventView::Failed(reason),
            cancelled,
        ) == (
            SyncView { phase: Phase::Claiming, item: s.item + 1, ..s },
            ReactionView {
                effects: cleanup(s, reason),
                next: ActionView::Claim { path: s.resolved[s.item + 1].save_path },
            },
        ),
{
}

/// While nothing is to be downloaded, resolving entries asks for no
/// download, whatever the catalog holds.
pub proof fn lemma_scan_downloads_nothing(s: SyncView, effects: Seq<EffectView>, cancelled: bool)
    requires
        s.resolved.len() == 0,
    ensures
        scan(s, effects, cancelled).0.resolved.len() == 0,
        !(scan(s, effects, cancelled).1.next is Claim),
        !(scan(s, effects, cancelled).1.next is Transfer),
    decreases s.feed.entries.len() - s.cursor,
{
    if 0 <= s.cursor < s.feed.entries.len() {
        let next = SyncView { cursor: s.cursor + 1, ..s };
        lemma_scan_downloads_nothing(next, effects, cancelled);
        lemma_scan_downloads_nothing(
            next,
            effects.push(
                EffectView::Notify(miss_text(s.feed.entries[s.cursor].title)),
            ),
            cancelled,
        );
    }
}

/// A pass that finds every destination on disk downloads nothing: as long
/// as each look at the disk finds the file there, or its directory not
/// ready, no file is created and no download is asked for.
pub proof fn lemma_nothing_missing_nothing_downloaded(
    s: SyncView,
    event: EventView,
    cancelled: bool,
)
    requires
        s.resolved.len() == 0,
        event matches EventView::Probed { ready, occupied } ==> !ready || occupied,
    ensures
        react(s, event, cancelled).0.resolved.len() == 0,
        !(react(s, event, cancelled).1.next is Claim),
        !(react(s, event, cancelled).1.next is Transfer),
{
    match (s.phase, event) {
        (Phase::Fetching, EventView::Page(page)) => {
            if 0 <= s.server < s.settings.servers.len() {
                let t = SyncView { feed: merged(s.feed, page), ..s };
                lemma_scan_downloads_nothing(
                    SyncView { cursor: 0, resolved: Seq::empty(), ..t },
                    Seq::empty(),
                    cancelled,
                );
            }
        },
        (Phase::Probing, EventView::Probed { ready, occupied }) => {
            if s.pending is Some {
                lemma_scan_downloads_nothing(
                    SyncView { pending: None, cursor: s.cursor + 1, ..s },
                    Seq::empty(),
                    cancelled,
                );
            }
        },
        _ => {},
    }
}

/// The state of a run that began in `s` and has taken `answers`, each with
/// the cancellation flag as it stood then.
pub open spec fn state_after(s: SyncView, answers: Seq<(EventView, bool)>) -> SyncView
    decreases answers.len(),
{
    if answers.len() == 0 {
        s
    } else {
        react(state_after(s, answers.drop_last()), answers.last().0, answers.last().1).0
    }
}

/// What a run that began in `s` asks for once it has taken `answers`, of
/// which there is at least one.
pub open spec fn asked_after(s: SyncView, answers: Seq<(EventView, bool)>) -> ActionView
    recommends
        answers.len() > 0,
{
    react(state_after(s, answers.drop_last()), answers.last().0, answers.last().1).1.next
}

/// A run in which every look at the disk finds the file there, or its
/// directory not ready, never creates a file and never asks for a download,
/// however long it goes on and whatever the catalogs hold. Such is a second
/// run after one that downloaded all there was.
pub proof fn lemma_run_without_gaps_downloads_nothing(
    s: SyncView,
    answers: Seq<(EventView, bool)>,
)
    requires
        s.resolved.len() == 0,
        forall|i: int|
            0 <= i < answers.len() ==> ((#[trigger] answers[i]).0 matches EventView::Probed {
                ready,
                occupied,
            } ==> !ready || occupied),
    ensures
        state_after(s, answers).resolved.len() == 0,
        answers.len() > 0 ==> !(asked_after(s, answers) is Claim) && !(asked_after(s, answers)
            is Transfer),
    decreases answers.len(),
{
    if answers.len() > 0 {
        let front = answers.drop_last();
        lemma_run_without_gaps_downloads_nothing(s, front);
        lemma_nothing_missing_nothing_downloaded(
            state_after(s, front),
            answers.last().0,
            answers.last().1,
        );
    }
}

/// A run that begins in a state it can be in stays in such states.
pub proof fn lemma_run_is_consistent(s: SyncView, answers: Seq<(EventView, bool)>)
    requires
        consistent(s),
    ensures
        consistent(state_after(s, answers)),
        answers.len() > 0 ==> awaits(state_after(s, answers).phase, asked_after(s, answers)),
    decreases answers.len(),
{
    if answers.len() > 0 {
        lemma_run_is_consistent(s, answers.drop_last());
        lemma_steps_are_consistent(
            state_after(s, answers.drop_last()),
            answers.last().0,
            answers.last().1,
        );
    }
}

/// Throughout a run, what is held for download is what the resolver made.
pub proof fn lemma_run_is_justified(s: SyncView, answers: Seq<(EventView, bool)>)
    requires
        consistent(s),
        justified(s),
    ensures
        justified(state_after(s, answers)),
    decreases answers.len(),
{
    if answers.len() > 0 {
        lemma_run_is_consistent(s, answers.drop_last());
        lemma_run_is_justified(s, answers.drop_last());
        lemma_steps_are_justified(
            state_after(s, answers.drop_last()),
            answers.last().0,
            answers.last().1,
        );
    }
}

/// Whether `event` is a page of the catalog of the server at work in `s`
/// with a link that leads on to a next page.
pub open spec fn leads_on(s: SyncView, event: EventView) -> bool {
    match event {
        EventView::Page(page) => next_request(server_instance(s), page.links) matches Ok(Some(_)),
        _ => false,
    }
}

/// The catalog `feed` once the pages among `answers` have come in, in their
/// order.
pub open spec fn gathered(feed: FeedView, answers: Seq<(EventView, bool)>) -> FeedView
    decreases answers.len(),
{
    if answers.len() == 0 {
        feed
    } else {
        match answers.last().0 {
            EventView::Page(page) => merged(gathered(feed, answers.drop_last()), page),
            _ => gathered(feed, answers.drop_last()),
        }
    }
}

/// As long as each page links to a next one, the run goes on fetching: each
/// page is answered by the request for the page that it links to, the
/// entries of the pages add up in their order, and the links are those of
/// the page that came last. The cancellation flag does not matter here.
pub proof fn lemma_pages_are_followed(s: SyncView, answers: Seq<(EventView, bool)>)
    requires
        s.phase == Phase::Fetching,
        0 <= s.server < s.settings.servers.len(),
        forall|i: int| 0 <= i < answers.len() ==> leads_on(s, (#[trigger] answers[i]).0),
    ensures
        state_after(s, answers) == (SyncView { feed: gathered(s.feed, answers), ..s }),
        answers.len() > 0 ==> (answers.last().0 matches EventView::Page(page) && {
            &&& asked_after(s, answers) is Fetch
            &&& next_request(server_instance(s), page.links) == Ok::<
                Option<RequestView>,
                SyncErrorView,
            >(Some(asked_after(s, answers)->Fetch_0))
            &&& gathered(s.feed, answers).links == page.links
        }),
    decreases answers.len(),
{
    if answers.len() > 0 {
        let front = answers.drop_last();
        lemma_pages_are_followed(s, front);
    }
}

/// The entries of a catalog gathered from pages are those it had, followed
/// by the entries of each page in turn.
pub proof fn lemma_gathered_entries(
    feed: FeedView,
    answers: Seq<(EventView, bool)>,
    page: FeedView,
    flag: bool,
)
    ensures
        gathered(feed, Seq::empty()) == feed,
        gathered(feed, answers.push((EventView::Page(page), flag))).entries == gathered(
            feed,
            answers,
        ).entries + page.entries,
        gathered(feed, answers.push((EventView::Page(page), flag))).links == page.links,
{
    let longer = answers.push((EventView::Page(page), flag));
    assert(longer.drop_last() =~= answers);
}

} // verus!
