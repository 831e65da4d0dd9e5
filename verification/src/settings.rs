//! What the user configured: the servers to visit, the media types wanted and
//! the layout of the library on disk.

use crate::opds::{views, Instance, InstanceView};
use crate::text::same;
use vstd::prelude::*;
use vstd::string::*;

verus! {

/// The settings of a run.
///
/// The servers and the organization table are lists of pairs, each keyed by
/// its first component. A key is meant to occur once: see [`Settings::wf`].
/// Where one occurs again, the first pair counts.
#[derive(Debug)]
pub struct Settings {
    /// The servers by name, in the order in which they are visited.
    pub servers: Vec<(String, Instance)>,
    /// The media types to download, the most wanted first.
    pub preferred_file_types: Vec<String>,
    /// Whether files are grouped by the server they came from.
    pub use_server_name_directories: bool,
    /// Whether files are placed in a directory chosen by their extension.
    pub organize_by_file_type: bool,
    /// The directory for each file extension, used when files are organized
    /// by type.
    pub organization: Vec<(String, String)>,
}

/// The value of [`Settings`]: the organization table is a map.
pub struct SettingsView {
    pub servers: Seq<(Seq<char>, InstanceView)>,
    pub preferred_file_types: Seq<Seq<char>>,
    pub use_server_name_directories: bool,
    pub organize_by_file_type: bool,
    pub organization: Map<Seq<char>, Seq<char>>,
}

/// The map that a list of pairs denotes. The first pair of a key counts.
pub open spec fn table(pairs: Seq<(String, String)>) -> Map<Seq<char>, Seq<char>>
    decreases pairs.len(),
{
    if pairs.len() == 0 {
        Map::empty()
    } else {
        table(pairs.drop_first()).insert(pairs[0].0@, pairs[0].1@)
    }
}

/// The servers of a list, each with its name.
pub open spec fn named(servers: Seq<(String, Instance)>) -> Seq<(Seq<char>, InstanceView)> {
    servers.map_values(|s: (String, Instance)| (s.0@, s.1@))
}

/// No key stands in two pairs.
pub open spec fn distinct_keys<T>(pairs: Seq<(String, T)>) -> bool {
    forall|i: int, j: int| 0 <= i < j < pairs.len() ==> pairs[i].0@ != pairs[j].0@
}

impl View for Settings {
    type V = SettingsView;

    open spec fn view(&self) -> SettingsView {
        SettingsView {
            servers: named(self.servers@),
            preferred_file_types: views(self.preferred_file_types@),
            use_server_name_directories: self.use_server_name_directories,
            organize_by_file_type: self.organize_by_file_type,
            organization: table(self.organization@),
        }
    }
}

/// The table holds `key` exactly where a pair of the list has it, and then
/// with the value of the first such pair.
pub proof fn lemma_table_first(pairs: Seq<(String, String)>, key: Seq<char>, at: int)
    requires
        0 <= at < pairs.len(),
        pairs[at].0@ == key,
        forall|j: int| 0 <= j < at ==> pairs[j].0@ != key,
    ensures
        table(pairs).contains_key(key),
        table(pairs)[key] == pairs[at].1@,
    decreases at,
{
    if at > 0 {
        lemma_table_first(pairs.drop_first(), key, at - 1);
    }
}

/// The table lacks a key that no pair has.
pub proof fn lemma_table_absent(pairs: Seq<(String, String)>, key: Seq<char>)
    requires
        forall|j: int| 0 <= j < pairs.len() ==> pairs[j].0@ != key,
    ensures
        !table(pairs).contains_key(key),
    decreases pairs.len(),
{
    if pairs.len() > 0 {
        lemma_table_absent(pairs.drop_first(), key);
    }
}

impl Settings {
    /// Each server name and each extension of the organization table occurs
    /// once.
    pub open spec fn wf(&self) -> bool {
        &&& distinct_keys(self.servers@)
        &&& distinct_keys(self.organization@)
    }

    /// The directory that the organization table gives for `extension`.
    pub fn directory_for(&self, extension: &str) -> (r: Option<&String>)
        ensures
            r is Some == self@.organization.contains_key(extension@),
            r matches Some(d) ==> d@ == self@.organization[extension@],
    {
        match find_key(&self.organization, extension) {
            Some(at) => {
                proof {
                    lemma_table_first(self.organization@, extension@, at as int);
                }
                Some(&self.organization[at].1)
            },
            None => {
                proof {
                    lemma_table_absent(self.organization@, extension@);
                }
                None
            },
        }
    }

    /// Sets the directory for `extension`, in place of the one it had.
    pub fn set_directory(&mut self, extension: String, directory: String)
        ensures
            final(self)@.organization == old(self)@.organization.insert(extension@, directory@),
            final(self)@.servers == old(self)@.servers,
            final(self)@.preferred_file_types == old(self)@.preferred_file_types,
            final(self).use_server_name_directories == old(self).use_server_name_directories,
            final(self).organize_by_file_type == old(self).organize_by_file_type,
            old(self).wf() ==> final(self).wf(),
    {
        let ghost before = self.organization@;
        match find_key(&self.organization, extension.as_str()) {
            Some(at) => {
                self.organization.set(at, (extension, directory));
                proof {
                    lemma_table_replace(before, self.organization@, at as int);
                }
            },
            None => {
                self.organization.push((extension, directory));
                proof {
                    lemma_table_append(before, self.organization@);
                }
            },
        }
    }

    /// Adds the server `name`. Where a server of that name is there already,
    /// the new one takes its place in the order; else it comes last.
    pub fn set_server(&mut self, name: String, instance: Instance)
        ensures
            final(self)@.organization == old(self)@.organization,
            final(self)@.preferred_file_types == old(self)@.preferred_file_types,
            final(self).use_server_name_directories == old(self).use_server_name_directories,
            final(self).organize_by_file_type == old(self).organize_by_file_type,
            old(self).wf() ==> final(self).wf(),
            (forall|j: int| 0 <= j < old(self)@.servers.len() ==> old(self)@.servers[j].0 != name@)
                ==> final(self)@.servers == old(self)@.servers.push((name@, instance@)),
            forall|at: int|
                0 <= at < old(self)@.servers.len() && old(self)@.servers[at].0 == name@ && (forall|
                    j: int,
                | 0 <= j < at ==> old(self)@.servers[j].0 != name@) ==> final(self)@.servers
                    == old(self)@.servers.update(at, (name@, instance@)),
    {
        let ghost before = self.servers@;
        match find_key(&self.servers, name.as_str()) {
            Some(at) => {
                self.servers.set(at, (name, instance));
                proof {
                    assert(named(before)[at as int].0 == name@);
                }
            },
            None => {
                self.servers.push((name, instance));
            },
        }
    }
}

/// The place of the first pair with the given key.
fn find_key<T>(pairs: &Vec<(String, T)>, key: &str) -> (r: Option<usize>)
    ensures
        match r {
            Some(at) => {
                &&& at < pairs.len()
                &&& pairs@[at as int].0@ == key@
                &&& forall|j: int| 0 <= j < at ==> pairs@[j].0@ != key@
            },
            None => forall|j: int| 0 <= j < pairs.len() ==> pairs@[j].0@ != key@,
        },
{
    let mut i: usize = 0;
    while i < pairs.len()
        invariant
            i <= pairs.len(),
            forall|j: int| 0 <= j < i ==> pairs@[j].0@ != key@,
        decreases pairs.len() - i,
    {
        if same(pairs[i].0.as_str(), key) {
            return Some(i);
        }
        i += 1;
    }
    None
}

/// Replacing the first pair of a key by another pair of that key sets the
/// key in the table.
proof fn lemma_table_replace(before: Seq<(String, String)>, after: Seq<(String, String)>, at: int)
    requires
        0 <= at < before.len(),
        after.len() == before.len(),
        forall|j: int| 0 <= j < before.len() && j != at ==> after[j] == before[j],
        after[at].0@ == before[at].0@,
        forall|j: int| 0 <= j < at ==> before[j].0@ != before[at].0@,
    ensures
        table(after) == table(before).insert(after[at].0@, after[at].1@),
    decreases at,
{
    if at == 0 {
        assert(after.drop_first() =~= before.drop_first());
    } else {
        lemma_table_replace(before.drop_first(), after.drop_first(), at - 1);
    }
}

/// A pair with a new key, put at the end, adds its key to the table.
proof fn lemma_table_append(before: Seq<(String, String)>, after: Seq<(String, String)>)
    requires
        after.len() == before.len() + 1,
        forall|j: int| 0 <= j < before.len() ==> after[j] == before[j],
        forall|j: int| 0 <= j < before.len() ==> before[j].0@ != after.last().0@,
    ensures
        table(after) == table(before).insert(after.last().0@, after.last().1@),
    decreases before.len(),
{
    if before.len() == 0 {
        assert(table(after.drop_first()) =~= Map::empty());
    } else {
        lemma_table_append(before.drop_first(), after.drop_first());
    }
}

impl Clone for Settings {
    fn clone(&self) -> (r: Self)
        ensures
            r@ == self@,
            self.wf() ==> r.wf(),
    {
        let mut servers: Vec<(String, Instance)> = Vec::new();
        let mut i: usize = 0;
        while i < self.servers.len()
            invariant
                i <= self.servers.len(),
                servers@.len() == i,
                forall|j: int| 0 <= j < i ==> servers@[j].0@ == self.servers@[j].0@,
                forall|j: int| 0 <= j < i ==> servers@[j].1@ == self.servers@[j].1@,
            decreases self.servers.len() - i,
        {
            servers.push((self.servers[i].0.clone(), self.servers[i].1.clone()));
            i += 1;
        }
        let mut organization: Vec<(String, String)> = Vec::new();
        let mut k: usize = 0;
        while k < self.organization.len()
            invariant
                k <= self.organization.len(),
                organization@ == self.organization@.take(k as int),
            decreases self.organization.len() - k,
        {
            organization.push((self.organization[k].0.clone(), self.organization[k].1.clone()));
            k += 1;
        }
        assert(self.organization@.take(k as int) =~= self.organization@);
        let mut preferred: Vec<String> = Vec::new();
        let mut p: usize = 0;
        while p < self.preferred_file_types.len()
            invariant
                p <= self.preferred_file_types.len(),
                preferred@ == self.preferred_file_types@.take(p as int),
            decreases self.preferred_file_types.len() - p,
        {
            preferred.push(self.preferred_file_types[p].clone());
            p += 1;
        }
        assert(self.preferred_file_types@.take(p as int) =~= self.preferred_file_types@);
        assert(named(servers@) =~= named(self.servers@));
        Settings {
            servers,
            preferred_file_types: preferred,
            use_server_name_directories: self.use_server_name_directories,
            organize_by_file_type: self.organize_by_file_type,
            organization,
        }
    }
}

impl Default for Settings {
    /// No server, EPUB as the one wanted media type, both groupings on, and
    /// the usual directories for the three extensions of the table.
    fn default() -> (r: Self)
        ensures
            r@.servers == Seq::<(Seq<char>, InstanceView)>::empty(),
            r@.preferred_file_types == seq!["application/epub+zip"@],
            r@.use_server_name_directories,
            r@.organize_by_file_type,
            r@.organization == map![
                "epub"@ => "Books"@,
                "cbz"@ => "Comics"@,
                "pdf"@ => "Documents"@
            ],
            r.wf(),
    {
        let mut r = Settings {
            servers: Vec::new(),
            preferred_file_types: Vec::new(),
            use_server_name_directories: true,
            organize_by_file_type: true,
            organization: Vec::new(),
        };
        r.preferred_file_types.push(String::from_str("application/epub+zip"));
        r.set_directory(String::from_str("epub"), String::from_str("Books"));
        r.set_directory(String::from_str("cbz"), String::from_str("Comics"));
        r.set_directory(String::from_str("pdf"), String::from_str("Documents"));
        r
    }
}

} // verus!
