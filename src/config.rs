//! The external application's configuration document: the servers it runs,
//! keyed by id, and every other top-level field carried through untouched.
use crate::runtime::Os;
use crate::text::{copy_pairs, pairs_view, same_text, strings_view};
use vstd::prelude::*;

verus! {

/// Declares `serde_json::Value`, the value of a top-level field that this
/// library does not interpret; it is carried through unopened.
#[verifier::external_type_specification]
#[verifier::external_body]
pub struct ExJsonValue(serde_json::Value);

/// Where the external application keeps its configuration file: in its
/// directory under the per-user application-support directory below the
/// home directory on POSIX, and under the roaming application-data directory
/// on Windows.
pub open spec fn config_file_path_of(os: Os, base_dir: Seq<char>, app_dir: Seq<char>, file_name: Seq<char>) -> Seq<
    char,
> {
    match os {
        Os::Posix => base_dir + "/Library/Application Support/"@ + app_dir + "/"@ + file_name,
        Os::Windows => base_dir + "\\"@ + app_dir + "\\"@ + file_name,
    }
}

/// The configuration file's path; `base_dir` is the home directory on
/// POSIX and the roaming application-data directory on Windows, `app_dir`
/// the external application's directory name.
pub fn config_file_path(os: Os, base_dir: &str, app_dir: &str, file_name: &str) -> (r: String)
    ensures
        r@ == config_file_path_of(os, base_dir@, app_dir@, file_name@),
{
    let mut r = String::from_str(base_dir);
    match os {
        Os::Posix => {
            r.append("/Library/Application Support/");
            r.append(app_dir);
            r.append("/");
        },
        Os::Windows => {
            r.append("\\");
            r.append(app_dir);
            r.append("\\");
        },
    }
    r.append(file_name);
    r
}

/// How the external application starts one server.
#[derive(Debug)]
pub struct ClientServerConfig {
    pub command: String,
    pub args: Vec<String>,
    /// Environment variables as key/value pairs.
    pub env: Vec<(String, String)>,
}

/// The mathematical value of a [`ClientServerConfig`].
pub struct ServerConfigView {
    pub command: Seq<char>,
    pub args: Seq<Seq<char>>,
    pub env: Seq<(Seq<char>, Seq<char>)>,
}

impl View for ClientServerConfig {
    type V = ServerConfigView;

    open spec fn view(&self) -> ServerConfigView {
        ServerConfigView {
            command: self.command@,
            args: strings_view(self.args@),
            env: pairs_view(self.env@),
        }
    }
}

/// One server of the document.
#[derive(Debug)]
pub struct ServerEntry {
    pub id: String,
    pub config: ClientServerConfig,
}

/// Whether no two entries share an id.
pub open spec fn ids_unique(s: Seq<ServerEntry>) -> bool {
    forall|i: int, j: int|
        0 <= i < s.len() && 0 <= j < s.len() && i != j ==> #[trigger] s[i].id@ != #[trigger] s[j].id@
}

/// Whether some entry has id `k`.
pub open spec fn has_id(s: Seq<ServerEntry>, k: Seq<char>) -> bool {
    exists|i: int| 0 <= i < s.len() && #[trigger] s[i].id@ == k
}

/// The servers of a list of entries, by id.
pub open spec fn entries_map(s: Seq<ServerEntry>) -> Map<Seq<char>, ServerConfigView> {
    Map::new(
        |k: Seq<char>| has_id(s, k),
        |k: Seq<char>| s[choose|i: int| 0 <= i < s.len() && #[trigger] s[i].id@ == k].config@,
    )
}

/// The servers that installing the entries of `s` one after another leaves:
/// a later entry replaces an earlier one with the same id.
pub open spec fn entries_fold(s: Seq<ServerEntry>) -> Map<Seq<char>, ServerConfigView>
    decreases s.len(),
{
    if s.len() == 0 {
        Map::empty()
    } else {
        entries_fold(s.drop_last()).insert(s.last().id@, s.last().config@)
    }
}

/// The value of a configuration document.
pub struct ClientConfigView {
    /// The installed servers by id; an id is installed exactly when it is here.
    pub servers: Map<Seq<char>, ServerConfigView>,
    /// The top-level fields other than the server map, in their order.
    pub other_fields: Seq<(String, serde_json::Value)>,
}

/// The configuration document of the external application.
#[derive(Debug)]
pub struct ClientConfig {
    entries: Vec<ServerEntry>,
    other_fields: Vec<(String, serde_json::Value)>,
}

impl View for ClientConfig {
    type V = ClientConfigView;

    closed spec fn view(&self) -> ClientConfigView {
        ClientConfigView { servers: entries_map(self.entries@), other_fields: self.other_fields@ }
    }
}

/// The entry at position `i` of a list with distinct ids is what the map
/// holds under its id.
pub proof fn lemma_entries_map_at(s: Seq<ServerEntry>, i: int)
    requires
        ids_unique(s),
        0 <= i < s.len(),
    ensures
        entries_map(s).contains_key(s[i].id@),
        entries_map(s)[s[i].id@] == s[i].config@,
{
    let k = s[i].id@;
    assert(has_id(s, k));
    let j = choose|j: int| 0 <= j < s.len() && #[trigger] s[j].id@ == k;
    assert(j == i);
}

proof fn lemma_entries_map_update(s: Seq<ServerEntry>, i: int, e: ServerEntry)
    requires
        ids_unique(s),
        0 <= i < s.len(),
        e.id@ == s[i].id@,
    ensures
        ids_unique(s.update(i, e)),
        entries_map(s.update(i, e)) == entries_map(s).insert(e.id@, e.config@),
{
    let t = s.update(i, e);
    let m = entries_map(s).insert(e.id@, e.config@);
    assert(ids_unique(t)) by {
        assert forall|a: int, b: int| 0 <= a < t.len() && 0 <= b < t.len() && a != b implies #[trigger] t[a].id@
            != #[trigger] t[b].id@ by {
            assert(t[a].id@ == s[a].id@);
            assert(t[b].id@ == s[b].id@);
        }
    }
    assert forall|k: Seq<char>| #[trigger] entries_map(t).contains_key(k) == m.contains_key(k) by {
        if has_id(s, k) {
            let j = choose|j: int| 0 <= j < s.len() && #[trigger] s[j].id@ == k;
            assert(t[j].id@ == k);
        }
        if has_id(t, k) {
            let j = choose|j: int| 0 <= j < t.len() && #[trigger] t[j].id@ == k;
            if j != i {
                assert(s[j].id@ == k);
            }
        }
    }
    assert forall|k: Seq<char>| #[trigger] entries_map(t).contains_key(k) implies entries_map(t)[k] == m[k] by {
        let j = choose|j: int| 0 <= j < t.len() && #[trigger] t[j].id@ == k;
        lemma_entries_map_at(t, j);
        if j != i {
            lemma_entries_map_at(s, j);
        }
    }
    assert(entries_map(t) =~= m);
}

proof fn lemma_entries_map_push(s: Seq<ServerEntry>, e: ServerEntry)
    requires
        ids_unique(s),
        !has_id(s, e.id@),
    ensures
        ids_unique(s.push(e)),
        entries_map(s.push(e)) == entries_map(s).insert(e.id@, e.config@),
{
    let t = s.push(e);
    let m = entries_map(s).insert(e.id@, e.config@);
    assert(ids_unique(t)) by {
        assert forall|a: int, b: int| 0 <= a < t.len() && 0 <= b < t.len() && a != b implies #[trigger] t[a].id@
            != #[trigger] t[b].id@ by {
            if a < s.len() && b == s.len() {
                assert(s[a].id@ == t[a].id@);
            } else if b < s.len() && a == s.len() {
                assert(s[b].id@ == t[b].id@);
            }
        }
    }
    assert forall|k: Seq<char>| #[trigger] entries_map(t).contains_key(k) == m.contains_key(k) by {
        if has_id(s, k) {
            let j = choose|j: int| 0 <= j < s.len() && #[trigger] s[j].id@ == k;
            assert(t[j].id@ == k);
        }
        if k == e.id@ {
            assert(t[s.len() as int].id@ == k);
        }
        if has_id(t, k) {
            let j = choose|j: int| 0 <= j < t.len() && #[trigger] t[j].id@ == k;
            if j < s.len() {
                assert(s[j].id@ == k);
            }
        }
    }
    assert forall|k: Seq<char>| #[trigger] entries_map(t).contains_key(k) implies entries_map(t)[k] == m[k] by {
        let j = choose|j: int| 0 <= j < t.len() && #[trigger] t[j].id@ == k;
        lemma_entries_map_at(t, j);
        if j < s.len() {
            lemma_entries_map_at(s, j);
        }
    }
    assert(entries_map(t) =~= m);
}

proof fn lemma_entries_map_remove(s: Seq<ServerEntry>, i: int)
    requires
        ids_unique(s),
        0 <= i < s.len(),
    ensures
        ids_unique(s.remove(i)),
        entries_map(s.remove(i)) == entries_map(s).remove(s[i].id@),
{
    let t = s.remove(i);
    let m = entries_map(s).remove(s[i].id@);
    assert(ids_unique(t)) by {
        assert forall|a: int, b: int| 0 <= a < t.len() && 0 <= b < t.len() && a != b implies #[trigger] t[a].id@
            != #[trigger] t[b].id@ by {
            let sa = if a < i { a } else { a + 1 };
            let sb = if b < i { b } else { b + 1 };
            assert(t[a].id@ == s[sa].id@);
            assert(t[b].id@ == s[sb].id@);
        }
    }
    assert forall|k: Seq<char>| #[trigger] entries_map(t).contains_key(k) == m.contains_key(k) by {
        if has_id(s, k) && k != s[i].id@ {
            let j = choose|j: int| 0 <= j < s.len() && #[trigger] s[j].id@ == k;
            let tj = if j < i { j } else { j - 1 };
            assert(t[tj].id@ == k);
        }
        if has_id(t, k) {
            let j = choose|j: int| 0 <= j < t.len() && #[trigger] t[j].id@ == k;
            let sj = if j < i { j } else { j + 1 };
            assert(s[sj].id@ == k);
        }
    }
    assert forall|k: Seq<char>| #[trigger] entries_map(t).contains_key(k) implies entries_map(t)[k] == m[k] by {
        let j = choose|j: int| 0 <= j < t.len() && #[trigger] t[j].id@ == k;
        let sj = if j < i { j } else { j + 1 };
        lemma_entries_map_at(t, j);
        lemma_entries_map_at(s, sj);
    }
    assert(entries_map(t) =~= m);
}

impl ClientConfig {
    #[verifier::type_invariant]
    spec fn inv(&self) -> bool {
        ids_unique(self.entries@)
    }

    /// A document with no servers and the given other top-level fields.
    pub fn new(other_fields: Vec<(String, serde_json::Value)>) -> (r: Self)
        ensures
            r@.servers == Map::<Seq<char>, ServerConfigView>::empty(),
            r@.other_fields == other_fields@,
    {
        let r = ClientConfig { entries: Vec::new(), other_fields };
        assert(entries_map(r.entries@) =~= Map::<Seq<char>, ServerConfigView>::empty());
        r
    }

    /// The document of a configuration file that does not exist yet.
    pub fn empty() -> (r: Self)
        ensures
            r@.servers == Map::<Seq<char>, ServerConfigView>::empty(),
            r@.other_fields == Seq::<(String, serde_json::Value)>::empty(),
    {
        Self::new(Vec::new())
    }

    /// The top-level fields other than the server map.
    pub fn other_fields(&self) -> (r: &Vec<(String, serde_json::Value)>)
        ensures
            r@ == self@.other_fields,
    {
        &self.other_fields
    }

    /// The servers as a list of entries with distinct ids.
    pub fn entries(&self) -> (r: &Vec<ServerEntry>)
        ensures
            ids_unique(r@),
            entries_map(r@) == self@.servers,
    {
        proof {
            use_type_invariant(self);
        }
        &self.entries
    }

    /// The position of the entry with id `id`.
    fn position(&self, id: &str) -> (r: Option<usize>)
        ensures
            match r {
                Some(i) => i < self.entries@.len() && self.entries@[i as int].id@ == id@,
                None => !has_id(self.entries@, id@),
            },
    {
        let mut i: usize = 0;
        while i < self.entries.len()
            invariant
                i <= self.entries@.len(),
                forall|j: int| 0 <= j < i ==> #[trigger] self.entries@[j].id@ != id@,
            decreases self.entries@.len() - i,
        {
            if same_text(self.entries[i].id.as_str(), id) {
                return Some(i);
            }
            i = i + 1;
        }
        None
    }

    /// Whether a server with id `id` is installed.
    pub fn contains_server(&self, id: &str) -> (r: bool)
        ensures
            r == self@.servers.contains_key(id@),
    {
        match self.position(id) {
            Some(i) => {
                proof {
                    use_type_invariant(self);
                    lemma_entries_map_at(self.entries@, i as int);
                }
                true
            },
            None => false,
        }
    }

    /// A copy of the environment of server `id`, if it is installed.
    pub fn server_env(&self, id: &str) -> (r: Option<Vec<(String, String)>>)
        ensures
            match r {
                Some(e) => self@.servers.contains_key(id@) && pairs_view(e@) == self@.servers[id@].env,
                None => !self@.servers.contains_key(id@),
            },
    {
        match self.position(id) {
            Some(i) => {
                proof {
                    use_type_invariant(self);
                    lemma_entries_map_at(self.entries@, i as int);
                }
                Some(copy_pairs(&self.entries[i].config.env))
            },
            None => None,
        }
    }

    /// Installs `config` under `id`, replacing an entry with that id.
    pub fn set_server(&mut self, id: String, config: ClientServerConfig)
        ensures
            final(self)@.servers == old(self)@.servers.insert(id@, config@),
            final(self)@.other_fields == old(self)@.other_fields,
    {
        proof {
            use_type_invariant(&*self);
        }
        let ghost old_entries = self.entries@;
        let entry = ServerEntry { id, config };
        let found = self.position(entry.id.as_str());
        let mut entries: Vec<ServerEntry> = Vec::new();
        std::mem::swap(&mut entries, &mut self.entries);
        match found {
            Some(i) => {
                proof {
                    lemma_entries_map_update(old_entries, i as int, entry);
                }
                entries.set(i, entry);
            },
            None => {
                proof {
                    lemma_entries_map_push(old_entries, entry);
                }
                entries.push(entry);
            },
        }
        self.entries = entries;
    }

    /// Removes server `id`; a document without it stays as it is.
    pub fn remove_server(&mut self, id: &str)
        ensures
            final(self)@.servers == old(self)@.servers.remove(id@),
            final(self)@.other_fields == old(self)@.other_fields,
    {
        proof {
            use_type_invariant(&*self);
        }
        let ghost old_entries = self.entries@;
        match self.position(id) {
            Some(i) => {
                proof {
                    lemma_entries_map_remove(old_entries, i as int);
                }
                let mut entries: Vec<ServerEntry> = Vec::new();
                std::mem::swap(&mut entries, &mut self.entries);
                entries.remove(i);
                self.entries = entries;
            },
            None => {
                assert(old_entries == self.entries@);
                assert(entries_map(old_entries) =~= entries_map(old_entries).remove(id@));
            },
        }
    }

    /// Replaces the environment of server `id` and nothing else of it;
    /// returns whether the server was installed.
    pub fn set_server_env(&mut self, id: &str, env: Vec<(String, String)>) -> (r: bool)
        ensures
            r == old(self)@.servers.contains_key(id@),
            r ==> final(self)@.servers == old(self)@.servers.insert(
                id@,
                ServerConfigView { env: pairs_view(env@), ..old(self)@.servers[id@] },
            ),
            !r ==> final(self)@ == old(self)@,
            final(self)@.other_fields == old(self)@.other_fields,
    {
        proof {
            use_type_invariant(&*self);
        }
        let ghost old_entries = self.entries@;
        match self.position(id) {
            Some(i) => {
                proof {
                    lemma_entries_map_at(old_entries, i as int);
                }
                let mut entries: Vec<ServerEntry> = Vec::new();
                std::mem::swap(&mut entries, &mut self.entries);
                let old_entry = entries.remove(i);
                let entry = ServerEntry {
                    id: old_entry.id,
                    config: ClientServerConfig {
                        command: old_entry.config.command,
                        args: old_entry.config.args,
                        env,
                    },
                };
                proof {
                    lemma_entries_map_update(old_entries, i as int, entry);
                    assert(old_entries.update(i as int, entry) =~= old_entries.remove(i as int).insert(
                        i as int,
                        entry,
                    ));
                }
                entries.insert(i, entry);
                self.entries = entries;
                true
            },
            None => false,
        }
    }

    /// The document made of `entries`, installed in order, and the other
    /// top-level fields.
    pub fn from_parts(entries: Vec<ServerEntry>, other_fields: Vec<(String, serde_json::Value)>) -> (r: Self)
        ensures
            r@.servers == entries_fold(entries@),
            r@.other_fields == other_fields@,
    {
        let mut r = ClientConfig::new(other_fields);
        let mut rest = entries;
        let ghost all = rest@;
        let ghost mut k: int = 0;
        while rest.len() > 0
            invariant
                0 <= k <= all.len(),
                rest@ == all.subrange(k, all.len() as int),
                r@.servers == entries_fold(all.subrange(0, k)),
                r@.other_fields == other_fields@,
            decreases rest@.len(),
        {
            let e = rest.remove(0);
            proof {
                assert(all.subrange(0, k + 1).drop_last() =~= all.subrange(0, k));
                assert(rest@ =~= all.subrange(k + 1, all.len() as int));
                k = k + 1;
            }
            r.set_server(e.id, e.config);
        }
        assert(all.subrange(0, k) =~= all);
        r
    }

    /// The document's entries, with distinct ids, and its other top-level
    /// fields.
    pub fn into_parts(self) -> (r: (Vec<ServerEntry>, Vec<(String, serde_json::Value)>))
        ensures
            ids_unique(r.0@),
            entries_map(r.0@) == self@.servers,
            r.1@ == self@.other_fields,
    {
        proof {
            use_type_invariant(&self);
        }
        let ClientConfig { entries, other_fields } = self;
        (entries, other_fields)
    }
}

/// Taking a document apart into its entries and building it again from them
/// gives the same servers: for entries with distinct ids, installing them in
/// order yields exactly the map they make up.
pub proof fn law_parts_round_trip(entries: Seq<ServerEntry>)
    requires
        ids_unique(entries),
    ensures
        entries_fold(entries) == entries_map(entries),
    decreases entries.len(),
{
    if entries.len() == 0 {
        assert(entries_map(entries) =~= Map::<Seq<char>, ServerConfigView>::empty());
    } else {
        let init = entries.drop_last();
        let last = entries.last();
        assert(ids_unique(init)) by {
            assert forall|a: int, b: int| 0 <= a < init.len() && 0 <= b < init.len() && a != b implies #[trigger] init[a].id@
                != #[trigger] init[b].id@ by {
                assert(init[a] == entries[a]);
                assert(init[b] == entries[b]);
            }
        }
        law_parts_round_trip(init);
        assert(!has_id(init, last.id@)) by {
            if has_id(init, last.id@) {
                let j = choose|j: int| 0 <= j < init.len() && #[trigger] init[j].id@ == last.id@;
                assert(entries[j].id@ == entries[entries.len() - 1].id@);
            }
        }
        lemma_entries_map_push(init, last);
        assert(init.push(last) =~= entries);
    }
}

} // verus!
