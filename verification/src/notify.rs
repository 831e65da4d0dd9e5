//! The texts that tell the user what a run found and did. Showing them is
//! left to the caller.

use crate::classify::{extension_text, FileExtension, FileExtensionView};
use crate::opds::views;
use crate::resolve::{EntryResult, EntryResultView};
use crate::text::{decimal, digits};
use vstd::prelude::*;
use vstd::string::*;

verus! {

/// The notice that no link of the entry `title` offers a wanted media type.
pub open spec fn miss_text(title: Seq<char>) -> Seq<char> {
    "Error downloading '"@ + title + "': no acquisition link found."@
}

/// The notice that the download of the entry `title` failed, with the
/// reason.
pub open spec fn failure_text(title: Seq<char>, reason: Seq<char>) -> Seq<char> {
    "Error downloading '"@ + title + "': "@ + reason + "."@
}

/// The notice that the downloads of `server` are over.
pub open spec fn finished_text(server: Seq<char>) -> Seq<char> {
    "Finished syncing with '"@ + server + "'"@
}

/// The notice of how many documents of `server` are new.
pub open spec fn headline(count: nat, server: Seq<char>) -> Seq<char> {
    "Downloading "@ + digits(count) + " new documents found on '"@ + server + "'"@
}

/// The notice of how many new documents have the given extension.
pub open spec fn tally_line(count: nat, extension: FileExtensionView) -> Seq<char> {
    "Downloading "@ + digits(count) + " new "@ + extension_text(extension) + "'s"@
}

/// The elements of `s` without repetition, each at the place of its first
/// occurrence.
pub open spec fn distinct<T>(s: Seq<T>) -> Seq<T>
    decreases s.len(),
{
    if s.len() == 0 {
        Seq::empty()
    } else if s.drop_last().contains(s.last()) {
        distinct(s.drop_last())
    } else {
        distinct(s.drop_last()).push(s.last())
    }
}

/// How often `e` occurs in `s`.
pub open spec fn occurrences<T>(s: Seq<T>, e: T) -> nat
    decreases s.len(),
{
    if s.len() == 0 {
        0
    } else {
        occurrences(s.drop_last(), e) + if s.last() == e {
            1nat
        } else {
            0nat
        }
    }
}

/// The extensions of the files to download, in their order.
pub open spec fn extensions(results: Seq<EntryResultView>) -> Seq<FileExtensionView> {
    results.map_values(|r: EntryResultView| r.file_extension)
}

/// The notices that announce the downloads of `server`: none where nothing
/// is downloaded; else the headline, and after it one line for each
/// extension, in the order in which the extensions first occur.
pub open spec fn announcement(server: Seq<char>, results: Seq<EntryResultView>) -> Seq<Seq<char>> {
    if results.len() == 0 {
        Seq::empty()
    } else {
        seq![headline(results.len(), server)] + distinct(extensions(results)).map_values(
            |e: FileExtensionView| tally_line(occurrences(extensions(results), e), e),
        )
    }
}

/// `distinct` holds what the sequence holds.
pub proof fn lemma_distinct_contains<T>(s: Seq<T>, e: T)
    ensures
        distinct(s).contains(e) <==> s.contains(e),
    decreases s.len(),
{
    if s.len() > 0 {
        let front = s.drop_last();
        let d = distinct(s);
        let df = distinct(front);
        lemma_distinct_contains(front, e);
        if s.contains(e) {
            let i = choose|i: int| 0 <= i < s.len() && s[i] == e;
            if i < s.len() - 1 {
                assert(front[i] == e);
            }
            if front.contains(e) {
                let k = choose|k: int| 0 <= k < df.len() && df[k] == e;
                assert(d[k] == e);
            } else {
                assert(d[d.len() - 1] == e);
            }
        }
    }
}

/// No element stands twice in `distinct`.
pub proof fn lemma_distinct_no_duplicates<T>(s: Seq<T>)
    ensures
        distinct(s).no_duplicates(),
    decreases s.len(),
{
    if s.len() > 0 {
        let front = s.drop_last();
        lemma_distinct_no_duplicates(front);
        lemma_distinct_contains(front, s.last());
    }
}

/// An element occurs at most as often as the sequence is long, and not at
/// all where the sequence does not hold it.
pub proof fn lemma_occurrences_bounds<T>(s: Seq<T>, e: T)
    ensures
        occurrences(s, e) <= s.len(),
        !s.contains(e) ==> occurrences(s, e) == 0,
        s.contains(e) ==> occurrences(s, e) > 0,
    decreases s.len(),
{
    if s.len() > 0 {
        let front = s.drop_last();
        lemma_occurrences_bounds(front, e);
        if s.contains(e) && s.last() != e {
            let i = choose|i: int| 0 <= i < s.len() && s[i] == e;
            assert(front[i] == e);
        }
    }
}

/// The notice that no link of the entry `title` offers a wanted media type.
pub fn miss_message(title: &str) -> (r: String)
    ensures
        r@ == miss_text(title@),
{
    let mut r = String::from_str("Error downloading '");
    r.append(title);
    r.append("': no acquisition link found.");
    r
}

/// The notice that the download of the entry `title` failed.
pub fn failure_message(title: &str, reason: &str) -> (r: String)
    ensures
        r@ == failure_text(title@, reason@),
{
    let mut r = String::from_str("Error downloading '");
    r.append(title);
    r.append("': ");
    r.append(reason);
    r.append(".");
    r
}

/// The notice that the downloads of `server` are over.
pub fn finished_message(server: &str) -> (r: String)
    ensures
        r@ == finished_text(server@),
{
    let mut r = String::from_str("Finished syncing with '");
    r.append(server);
    r.append("'");
    r
}

/// The notice of how many documents of `server` are new.
fn headline_message(count: usize, server: &str) -> (r: String)
    ensures
        r@ == headline(count as nat, server@),
{
    let mut r = String::from_str("Downloading ");
    let number = decimal(count as u64);
    r.append(number.as_str());
    r.append(" new documents found on '");
    r.append(server);
    r.append("'");
    r
}

/// The notice of how many new documents have the given extension.
fn tally_message(count: usize, extension: &FileExtension) -> (r: String)
    ensures
        r@ == tally_line(count as nat, extension@),
{
    let mut r = String::from_str("Downloading ");
    let number = decimal(count as u64);
    r.append(number.as_str());
    r.append(" new ");
    let name = extension.to_string();
    r.append(name.as_str());
    r.append("'s");
    r
}

/// The place of `extension` among `tallies`.
fn find_tally(tallies: &Vec<(FileExtension, usize)>, extension: &FileExtension) -> (r: Option<usize>)
    ensures
        match r {
            Some(at) => at < tallies.len() && tallies@[at as int].0@ == extension@,
            None => forall|k: int| 0 <= k < tallies.len() ==> tallies@[k].0@ != extension@,
        },
{
    let mut k: usize = 0;
    while k < tallies.len()
        invariant
            k <= tallies.len(),
            forall|j: int| 0 <= j < k ==> tallies@[j].0@ != extension@,
        decreases tallies.len() - k,
    {
        if tallies[k].0 == *extension {
            return Some(k);
        }
        k += 1;
    }
    None
}

/// Whether `tallies` counts the extensions of `seen`: one pair for each
/// extension, in the order of first occurrence.
spec fn counts(tallies: Seq<(FileExtension, usize)>, seen: Seq<FileExtensionView>) -> bool {
    &&& tallies.len() == distinct(seen).len()
    &&& forall|k: int|
        0 <= k < tallies.len() ==> (#[trigger] tallies[k]).0@ == distinct(seen)[k] && tallies[k].1
            == occurrences(seen, distinct(seen)[k])
}

/// The notices that announce the downloads of `server_name`.
pub fn print_sync_notification(server_name: &String, results: &[EntryResult]) -> (r: Vec<String>)
    ensures
        views(r@) == announcement(server_name@, views(results@)),
{
    let mut notices: Vec<String> = Vec::new();
    if results.len() == 0 {
        return notices;
    }
    let ghost all = extensions(views(results@));
    let mut tallies: Vec<(FileExtension, usize)> = Vec::new();
    let mut i: usize = 0;
    while i < results.len()
        invariant
            i <= results.len(),
            all == extensions(views(results@)),
            counts(tallies@, all.take(i as int)),
        decreases results.len() - i,
    {
        let ghost seen = all.take(i as int);
        let ghost next = all.take(i + 1);
        let extension = &results[i].file_extension;
        assert(next.drop_last() =~= seen);
        proof {
            lemma_distinct_contains(seen, extension@);
        }
        match find_tally(&tallies, extension) {
            Some(at) => {
                proof {
                    lemma_occurrences_bounds(seen, extension@);
                }
                let count = tallies[at].1;
                tallies.set(at, (extension.clone(), count + 1));
                assert forall|k: int| 0 <= k < tallies@.len() implies (#[trigger] tallies@[k]).0@
                    == distinct(next)[k] && tallies@[k].1 == occurrences(
                    next,
                    distinct(next)[k],
                ) by {
                    if k != at {
                        lemma_distinct_no_duplicates(seen);
                    }
                }
            },
            None => {
                proof {
                    if distinct(seen).contains(extension@) {
                        let k = choose|k: int|
                            0 <= k < distinct(seen).len() && distinct(seen)[k] == extension@;
                        assert(tallies@[k].0@ == extension@);
                    }
                    lemma_occurrences_bounds(seen, extension@);
                }
                tallies.push((extension.clone(), 1));
            },
        }
        i += 1;
    }
    assert(all.take(i as int) =~= all);
    notices.push(headline_message(results.len(), server_name.as_str()));
    let ghost first = notices@;
    let mut k: usize = 0;
    while k < tallies.len()
        invariant
            k <= tallies.len(),
            counts(tallies@, all),
            first.len() == 1,
            notices@.len() == k + 1,
            notices@[0] == first[0],
            forall|j: int|
                0 <= j < k ==> (#[trigger] notices@[j + 1])@ == tally_line(
                    occurrences(all, distinct(all)[j]),
                    distinct(all)[j],
                ),
        decreases tallies.len() - k,
    {
        let line = tally_message(tallies[k].1, &tallies[k].0);
        notices.push(line);
        k += 1;
    }
    assert(views(notices@) =~= announcement(server_name@, views(results@))) by {
        let want = announcement(server_name@, views(results@));
        assert forall|j: int| 0 <= j < want.len() implies views(notices@)[j] == want[j] by {
            if j > 0 {
                assert(notices@[(j - 1) + 1] == notices@[j]);
            }
        }
    }
    notices
}

} // verus!
