use plato_opds::engine::{Action, Effect, Event, Phase, Reaction, Sync};
use plato_opds::error::SyncError;
use plato_opds::opds::{Entry, Feed, Instance, Link};
use plato_opds::settings::Settings;
use plato_opds::LinkType;

const EPUB: &str = "application/epub+zip";

fn book(name: &str) -> Entry {
    Entry {
        title: format!("Title of {}", name),
        id: format!("urn:uuid:{}", name),
        authors: None,
        publishers: None,
        links: Some(vec![Link {
            rel: Some(LinkType::Acquisition),
            href: Some(format!("/get/{}.epub", name)),
            file_type: Some(EPUB.to_string()),
        }]),
        published: None,
    }
}

fn next_link(href: &str) -> Link {
    Link { rel: Some(LinkType::Next), href: Some(href.to_string()), file_type: None }
}

fn other_link(href: &str) -> Link {
    Link {
        rel: Some(LinkType::Other("self".to_string())),
        href: Some(href.to_string()),
        file_type: None,
    }
}

fn page(entries: Vec<Entry>, links: Vec<Link>) -> Feed {
    Feed { entries, links }
}

fn one_server() -> Settings {
    let mut settings = Settings::default();
    settings.servers = vec![(
        "lib1".to_string(),
        Instance { url: "http://host/catalog".to_string(), username: None, password: None },
    )];
    settings
}

fn run_on(settings: Settings) -> Sync {
    Sync::new(settings, "/mnt/onboard".to_string(), "/mnt/onboard/opds".to_string())
}

fn notes(reaction: &Reaction) -> Vec<String> {
    reaction
        .effects
        .iter()
        .filter_map(|e| match e {
            Effect::Notify(text) => Some(text.clone()),
            _ => None,
        })
        .collect()
}

fn fetched(reaction: &Reaction) -> String {
    match &reaction.next {
        Action::Fetch(request) => request.url.clone(),
        other => panic!("no fetch: {:?}", other),
    }
}

fn probed(reaction: &Reaction) -> (Option<String>, String) {
    match &reaction.next {
        Action::Probe { directory, path } => (directory.clone(), path.clone()),
        other => panic!("no probe: {:?}", other),
    }
}

fn claimed(reaction: &Reaction) -> String {
    match &reaction.next {
        Action::Claim { path } => path.clone(),
        other => panic!("no claim: {:?}", other),
    }
}

fn transferred(reaction: &Reaction) -> (String, String) {
    match &reaction.next {
        Action::Transfer { request, path } => (request.url.clone(), path.clone()),
        other => panic!("no transfer: {:?}", other),
    }
}

/// Fetches one page with the given books and answers every look at the
/// disk with "directory ready, no file there".
fn up_to_first_claim(sync: &mut Sync, names: &[&str]) -> Reaction {
    let r = sync.step(Event::Start, false);
    assert_eq!(fetched(&r), "http://host/catalog");
    let mut r = sync.step(Event::Page(page(names.iter().map(|n| book(n)).collect(), vec![])), false);
    for _ in names {
        probed(&r);
        r = sync.step(Event::Probed { ready: true, occupied: false }, false);
    }
    r
}

#[test]
fn no_server_no_work() {
    let mut sync = run_on(Settings::default());
    assert_eq!(sync.phase, Phase::Idle);
    let r = sync.step(Event::Start, false);
    assert!(matches!(r.next, Action::Finish));
    assert!(r.effects.is_empty());
    assert_eq!(sync.phase, Phase::Done);
}

#[test]
fn two_pages_two_requests() {
    let mut sync = run_on(one_server());
    let r = sync.step(Event::Start, false);
    assert_eq!(fetched(&r), "http://host/catalog");
    match &r.next {
        Action::Fetch(request) => {
            assert_eq!(request.username, "admin");
            assert_eq!(request.password, None);
        }
        other => panic!("no fetch: {:?}", other),
    }
    let first = page(
        vec![book("a"), book("b")],
        vec![other_link("/catalog"), next_link("/catalog?page=2")],
    );
    let r = sync.step(Event::Page(first), false);
    assert_eq!(fetched(&r), "http://host/catalog?page=2");
    assert!(r.effects.is_empty());
    assert_eq!(sync.phase, Phase::Fetching);
    let second = page(vec![book("c")], vec![other_link("/catalog?page=2")]);
    let r = sync.step(Event::Page(second), false);
    // No third request: the entries are looked at instead.
    assert!(matches!(r.next, Action::Probe { .. }));
    let ids: Vec<&str> = sync.feed.entries.iter().map(|e| e.id.as_str()).collect();
    assert_eq!(ids, vec!["urn:uuid:a", "urn:uuid:b", "urn:uuid:c"]);
    assert_eq!(sync.feed.links.len(), 1);
    assert_eq!(sync.feed.links[0].href, Some("/catalog?page=2".to_string()));
    assert_eq!(sync.feed.links[0].rel, Some(LinkType::Other("self".to_string())));
}

#[test]
fn absolute_next_page_is_taken_as_it_is() {
    let mut sync = run_on(one_server());
    sync.step(Event::Start, false);
    let r = sync.step(
        Event::Page(page(vec![], vec![next_link("http://mirror.example/catalog?page=2")])),
        false,
    );
    assert_eq!(fetched(&r), "http://mirror.example/catalog?page=2");
}

#[test]
fn next_page_without_address_ends_the_run() {
    let mut sync = run_on(one_server());
    sync.step(Event::Start, false);
    let link = Link { rel: Some(LinkType::Next), href: None, file_type: None };
    let r = sync.step(Event::Page(page(vec![book("a")], vec![link])), false);
    assert!(matches!(r.next, Action::Abort(SyncError::MissingNextPage)));
    assert_eq!(sync.phase, Phase::Done);
}

#[test]
fn a_full_download() {
    let mut sync = run_on(one_server());
    sync.step(Event::Start, false);
    let r = sync.step(Event::Page(page(vec![book("a")], vec![])), false);
    assert_eq!(
        probed(&r),
        (Some("/mnt/onboard/opds/Books".to_string()), "/mnt/onboard/opds/Books/a.epub".to_string())
    );
    assert_eq!(sync.phase, Phase::Probing);
    let r = sync.step(Event::Probed { ready: true, occupied: false }, false);
    assert_eq!(
        notes(&r),
        vec![
            "Downloading 1 new documents found on 'lib1'".to_string(),
            "Downloading 1 new epub's".to_string(),
        ]
    );
    assert_eq!(claimed(&r), "/mnt/onboard/opds/Books/a.epub");
    let r = sync.step(Event::Claimed, false);
    assert!(r.effects.is_empty());
    assert_eq!(
        transferred(&r),
        ("http://host/get/a.epub".to_string(), "/mnt/onboard/opds/Books/a.epub".to_string())
    );
    assert_eq!(sync.phase, Phase::Transferring);
    let r = sync.step(
        Event::Downloaded { size: 4096, stamp: "2024-05-01 12:00:00".to_string() },
        false,
    );
    assert_eq!(r.effects.len(), 2);
    match &r.effects[0] {
        Effect::Register(info) => {
            assert_eq!(info.title, "Title of a");
            assert_eq!(info.author, "Unknown Author");
            assert_eq!(info.identifier, "urn:uuid:a");
            assert_eq!(info.file.path, "opds/Books/a.epub");
            assert_eq!(info.file.kind, "epub");
            assert_eq!(info.file.size, 4096);
            assert_eq!(info.added, "2024-05-01 12:00:00");
            assert!(!info.reader.finished);
        }
        other => panic!("no registration: {:?}", other),
    }
    assert_eq!(notes(&r), vec!["Finished syncing with 'lib1'".to_string()]);
    assert!(matches!(r.next, Action::Finish));
    assert_eq!(sync.phase, Phase::Done);
}

#[test]
fn second_pass_downloads_nothing() {
    // First pass: nothing on disk, both books are downloaded.
    let mut sync = run_on(one_server());
    let r = up_to_first_claim(&mut sync, &["a", "b"]);
    assert_eq!(claimed(&r), "/mnt/onboard/opds/Books/a.epub");
    assert_eq!(sync.resolved.len(), 2);

    // Second pass over the same catalog: both files are there.
    let mut sync = run_on(one_server());
    sync.step(Event::Start, false);
    let r = sync.step(Event::Page(page(vec![book("a"), book("b")], vec![])), false);
    assert_eq!(probed(&r).1, "/mnt/onboard/opds/Books/a.epub");
    let r = sync.step(Event::Probed { ready: true, occupied: true }, false);
    assert!(r.effects.is_empty());
    assert_eq!(probed(&r).1, "/mnt/onboard/opds/Books/b.epub");
    let r = sync.step(Event::Probed { ready: true, occupied: true }, false);
    assert!(r.effects.is_empty());
    assert!(matches!(r.next, Action::Finish));
    assert!(sync.resolved.is_empty());
}

#[test]
fn directory_that_cannot_be_made_drops_the_entry() {
    let mut sync = run_on(one_server());
    sync.step(Event::Start, false);
    sync.step(Event::Page(page(vec![book("a")], vec![])), false);
    let r = sync.step(Event::Probed { ready: false, occupied: false }, false);
    assert!(r.effects.is_empty());
    assert!(matches!(r.next, Action::Finish));
}

#[test]
fn cancellation_between_downloads() {
    let mut sync = run_on(one_server());
    let r = up_to_first_claim(&mut sync, &["a", "b", "c"]);
    assert_eq!(
        notes(&r),
        vec![
            "Downloading 3 new documents found on 'lib1'".to_string(),
            "Downloading 3 new epub's".to_string(),
        ]
    );
    assert_eq!(claimed(&r), "/mnt/onboard/opds/Books/a.epub");
    let r = sync.step(Event::Claimed, false);
    transferred(&r);
    // The flag is set while the first download runs.
    let r = sync.step(Event::Downloaded { size: 1, stamp: "now".to_string() }, true);
    assert!(matches!(r.next, Action::Finish));
    assert!(matches!(r.effects[0], Effect::Register(_)));
    assert_eq!(notes(&r), vec!["Finished syncing with 'lib1'".to_string()]);
    assert_eq!(sync.phase, Phase::Done);
    assert_eq!(sync.item, 1);
    // Whatever comes after, nothing more is asked for.
    let r = sync.step(Event::Claimed, false);
    assert!(matches!(r.next, Action::Abort(SyncError::Unexpected)));
    assert_eq!(sync.phase, Phase::Done);
}

#[test]
fn cancellation_before_the_first_server() {
    let mut sync = run_on(one_server());
    let r = sync.step(Event::Start, true);
    assert!(matches!(r.next, Action::Finish));
    assert!(r.effects.is_empty());
}

#[test]
fn cancellation_is_not_looked_at_while_pages_come_in() {
    let mut sync = run_on(one_server());
    sync.step(Event::Start, false);
    let r = sync.step(Event::Page(page(vec![book("a")], vec![next_link("/more")])), true);
    assert_eq!(fetched(&r), "http://host/more");
    let r = sync.step(Event::Page(page(vec![], vec![])), true);
    probed(&r);
    // The downloads are announced, and then none is begun.
    let r = sync.step(Event::Probed { ready: true, occupied: false }, true);
    assert_eq!(
        notes(&r),
        vec![
            "Downloading 1 new documents found on 'lib1'".to_string(),
            "Downloading 1 new epub's".to_string(),
            "Finished syncing with 'lib1'".to_string(),
        ]
    );
    assert!(matches!(r.next, Action::Finish));
}

#[test]
fn failed_download_is_cleaned_up_and_the_batch_goes_on() {
    let mut sync = run_on(one_server());
    let r = up_to_first_claim(&mut sync, &["a", "b"]);
    assert_eq!(claimed(&r), "/mnt/onboard/opds/Books/a.epub");
    let r = sync.step(Event::Claimed, false);
    transferred(&r);
    let r = sync.step(Event::Failed("connection reset".to_string()), false);
    assert_eq!(r.effects.len(), 2);
    match (&r.effects[0], &r.effects[1]) {
        (Effect::Notify(text), Effect::Remove(path)) => {
            assert_eq!(text, "Error downloading 'Title of a': connection reset.");
            assert_eq!(path, "/mnt/onboard/opds/Books/a.epub");
        }
        other => panic!("not told and removed: {:?}", other),
    }
    assert_eq!(claimed(&r), "/mnt/onboard/opds/Books/b.epub");
    let r = sync.step(Event::Claimed, false);
    assert_eq!(transferred(&r).0, "http://host/get/b.epub");
    let r = sync.step(Event::Downloaded { size: 7, stamp: "now".to_string() }, false);
    assert!(matches!(r.effects[0], Effect::Register(_)));
    assert_eq!(notes(&r), vec!["Finished syncing with 'lib1'".to_string()]);
    assert!(matches!(r.next, Action::Finish));
}

#[test]
fn file_that_appeared_meanwhile_is_left_alone() {
    let mut sync = run_on(one_server());
    let r = up_to_first_claim(&mut sync, &["a", "b"]);
    claimed(&r);
    let r = sync.step(Event::Present, false);
    assert!(r.effects.is_empty());
    assert_eq!(claimed(&r), "/mnt/onboard/opds/Books/b.epub");
}

#[test]
fn fetch_failure_ends_the_run() {
    let mut sync = run_on(one_server());
    sync.step(Event::Start, false);
    let r = sync.step(Event::Failed("timed out".to_string()), false);
    match &r.next {
        Action::Abort(SyncError::Fetch(reason)) => assert_eq!(reason, "timed out"),
        other => panic!("no abort: {:?}", other),
    }
    assert!(r.effects.is_empty());
    assert_eq!(sync.phase, Phase::Done);
}

#[test]
fn file_that_cannot_be_created_ends_the_run() {
    let mut sync = run_on(one_server());
    let r = up_to_first_claim(&mut sync, &["a"]);
    claimed(&r);
    let r = sync.step(Event::Failed("read-only file system".to_string()), false);
    match &r.next {
        Action::Abort(SyncError::Storage(reason)) => assert_eq!(reason, "read-only file system"),
        other => panic!("no abort: {:?}", other),
    }
}

#[test]
fn link_without_address_ends_the_run() {
    let mut sync = run_on(one_server());
    sync.step(Event::Start, false);
    let mut entry = book("a");
    entry.links = Some(vec![Link {
        rel: Some(LinkType::Acquisition),
        href: None,
        file_type: Some(EPUB.to_string()),
    }]);
    let r = sync.step(Event::Page(page(vec![entry], vec![])), false);
    probed(&r);
    let r = sync.step(Event::Probed { ready: true, occupied: false }, false);
    claimed(&r);
    let r = sync.step(Event::Claimed, false);
    match &r.next {
        Action::Abort(SyncError::MissingHref(title)) => assert_eq!(title, "Title of a"),
        other => panic!("no abort: {:?}", other),
    }
}

#[test]
fn server_address_that_does_not_parse_ends_the_run() {
    let mut settings = one_server();
    settings.servers[0].1.url = "not an address".to_string();
    let mut sync = run_on(settings);
    let r = sync.step(Event::Start, false);
    assert_eq!(fetched(&r), "not an address");
    let r = sync.step(Event::Page(page(vec![], vec![next_link("/more")])), false);
    assert!(matches!(r.next, Action::Abort(SyncError::BadServerAddress)));
}

#[test]
fn answer_out_of_turn_ends_the_run() {
    let mut sync = run_on(one_server());
    let r = sync.step(Event::Claimed, false);
    assert!(matches!(r.next, Action::Abort(SyncError::Unexpected)));
    assert_eq!(sync.phase, Phase::Done);
    let mut sync = run_on(one_server());
    sync.step(Event::Start, false);
    let r = sync.step(Event::Probed { ready: true, occupied: false }, false);
    assert!(matches!(r.next, Action::Abort(SyncError::Unexpected)));
}

#[test]
fn entries_without_a_place_are_passed_over() {
    let mut sync = run_on(one_server());
    sync.step(Event::Start, false);
    let mut foreign = book("x");
    foreign.id = "isbn:12345".to_string();
    let mut unwanted = book("y");
    unwanted.links = Some(vec![Link {
        rel: Some(LinkType::Acquisition),
        href: Some("/get/y.pdf".to_string()),
        file_type: Some("application/pdf".to_string()),
    }]);
    let mut both = book("z");
    both.id = "z".to_string();
    both.links = None;
    let r = sync.step(Event::Page(page(vec![foreign, unwanted, both, book("a")], vec![])), false);
    // The entries without a wanted link are told; the foreign one is not.
    assert_eq!(
        notes(&r),
        vec![
            "Error downloading 'Title of y': no acquisition link found.".to_string(),
            "Error downloading 'Title of z': no acquisition link found.".to_string(),
        ]
    );
    assert_eq!(probed(&r).1, "/mnt/onboard/opds/Books/a.epub");
    assert_eq!(sync.cursor, 3);
}

#[test]
fn servers_in_their_order() {
    let mut settings = one_server();
    settings.use_server_name_directories = false;
    settings.servers.push((
        "lib2".to_string(),
        Instance {
            url: "https://second.example/opds".to_string(),
            username: Some("kim".to_string()),
            password: Some("SECRET-REDACTED".to_string()),
        },
    ));
    let mut sync = run_on(settings);
    let r = sync.step(Event::Start, false);
    assert_eq!(fetched(&r), "http://host/catalog");
    // Nothing on the first server: no notice, on to the second.
    let r = sync.step(Event::Page(page(vec![], vec![])), false);
    assert!(r.effects.is_empty());
    match &r.next {
        Action::Fetch(request) => {
            assert_eq!(request.url, "https://second.example/opds");
            assert_eq!(request.username, "kim");
            assert_eq!(request.password, Some("SECRET-REDACTED".to_string()));
        }
        other => panic!("no fetch: {:?}", other),
    }
    assert_eq!(sync.server, 1);
    let r = sync.step(Event::Page(page(vec![book("a")], vec![])), false);
    assert_eq!(
        probed(&r),
        (
            Some("/mnt/onboard/opds/lib2/Books".to_string()),
            "/mnt/onboard/opds/lib2/Books/a.epub".to_string()
        )
    );
    let r = sync.step(Event::Probed { ready: true, occupied: false }, false);
    claimed(&r);
    let r = sync.step(Event::Claimed, false);
    assert_eq!(transferred(&r).0, "https://second.example/get/a.epub");
    let r = sync.step(Event::Failed("gone".to_string()), false);
    assert_eq!(
        notes(&r),
        vec![
            "Error downloading 'Title of a': gone.".to_string(),
            "Finished syncing with 'lib2'".to_string(),
        ]
    );
    assert!(matches!(r.next, Action::Finish));
}

#[test]
fn cancellation_skips_the_servers_that_are_left() {
    let mut settings = one_server();
    settings.servers.push((
        "lib2".to_string(),
        Instance { url: "http://second.example/opds".to_string(), username: None, password: None },
    ));
    let mut sync = run_on(settings);
    sync.step(Event::Start, false);
    let r = sync.step(Event::Page(page(vec![], vec![])), true);
    assert!(matches!(r.next, Action::Finish));
    assert!(r.effects.is_empty());
}
