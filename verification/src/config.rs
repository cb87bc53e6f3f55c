//! The persisted configuration: known servers, the default server and the
//! update-check policy.
use crate::text_util::{lemma_lex_irreflexive, lemma_lex_total, lemma_lex_transitive, lex_less, text_eq, text_less};
use vstd::prelude::*;

verus! {

/// How often to look for a newer release.
#[derive(Debug, Clone, Copy, PartialEq, Eq, Structural)]
pub enum UpdateFrequency {
    OnLaunch,
    Daily,
    Weekly,
    Monthly,
    Never,
}

impl UpdateFrequency {
    /// Seconds between checks; `None` for never.
    pub open spec fn interval(self) -> Option<u64> {
        match self {
            UpdateFrequency::OnLaunch => Some(0),
            UpdateFrequency::Daily => Some(86400),
            UpdateFrequency::Weekly => Some(604800),
            UpdateFrequency::Monthly => Some(2592000),
            UpdateFrequency::Never => None,
        }
    }

    /// Seconds between checks; `None` for never.
    pub fn interval_secs(&self) -> (r: Option<u64>)
        ensures
            r == self.interval(),
    {
        match self {
            UpdateFrequency::OnLaunch => Some(0),
            UpdateFrequency::Daily => Some(86400),
            UpdateFrequency::Weekly => Some(604800),
            UpdateFrequency::Monthly => Some(2592000),
            UpdateFrequency::Never => None,
        }
    }

    /// The name this frequency has in the configuration file.
    pub fn config_name(&self) -> (r: &'static str)
        ensures
            r@ == self.config_text(),
    {
        proof {
            reveal_strlit("on-launch");
            reveal_strlit("daily");
            reveal_strlit("weekly");
            reveal_strlit("monthly");
            reveal_strlit("never");
        }
        match self {
            UpdateFrequency::OnLaunch => "on-launch",
            UpdateFrequency::Daily => "daily",
            UpdateFrequency::Weekly => "weekly",
            UpdateFrequency::Monthly => "monthly",
            UpdateFrequency::Never => "never",
        }
    }

    /// The name this frequency has in the configuration file.
    pub open spec fn config_text(self) -> Seq<char> {
        match self {
            UpdateFrequency::OnLaunch => seq!['o', 'n', '-', 'l', 'a', 'u', 'n', 'c', 'h'],
            UpdateFrequency::Daily => seq!['d', 'a', 'i', 'l', 'y'],
            UpdateFrequency::Weekly => seq!['w', 'e', 'e', 'k', 'l', 'y'],
            UpdateFrequency::Monthly => seq!['m', 'o', 'n', 't', 'h', 'l', 'y'],
            UpdateFrequency::Never => seq!['n', 'e', 'v', 'e', 'r'],
        }
    }
}

impl Default for UpdateFrequency {
    fn default() -> (r: Self)
        ensures
            r == UpdateFrequency::Weekly,
    {
        UpdateFrequency::Weekly
    }
}

/// The value a missing `verify_ssl` setting takes.
pub fn default_true() -> (r: bool)
    ensures
        r,
{
    true
}

/// One configured server.
#[derive(Debug, Clone)]
pub struct ServerEntry {
    pub url: String,
    pub username: Option<String>,
    pub password: Option<String>,
    pub verify_ssl: bool,
}

/// A copy of an optional string.
pub fn copy_opt(o: &Option<String>) -> (r: Option<String>)
    ensures
        r == *o,
{
    match o {
        Some(s) => Some(s.clone()),
        None => None,
    }
}

impl ServerEntry {
    /// A copy of this entry.
    pub fn duplicate(&self) -> (r: Self)
        ensures
            r == *self,
    {
        ServerEntry {
            url: self.url.clone(),
            username: copy_opt(&self.username),
            password: copy_opt(&self.password),
            verify_ssl: self.verify_ssl,
        }
    }
}

/// A server name with its entry.
#[derive(Debug, Clone)]
pub struct ServerRecord {
    pub name: String,
    pub entry: ServerEntry,
}

/// Strictly increasing names.
pub open spec fn names_sorted(k: Seq<Seq<char>>) -> bool {
    forall|i: int, j: int| 0 <= i < j < k.len() ==> lex_less(#[trigger] k[i], #[trigger] k[j])
}

/// Servers by name, kept in name order.
#[derive(Debug, Clone)]
pub struct ServerMap {
    records: Vec<ServerRecord>,
}

impl View for ServerMap {
    type V = Map<Seq<char>, ServerEntry>;

    open spec fn view(&self) -> Map<Seq<char>, ServerEntry> {
        Map::new(
            |k: Seq<char>| self.keys().contains(k),
            |k: Seq<char>| self.entries()[self.keys().index_of(k)],
        )
    }
}

impl ServerMap {
    /// The server names, in order.
    pub closed spec fn keys(&self) -> Seq<Seq<char>> {
        self.records@.map_values(|r: ServerRecord| r.name@)
    }

    /// The entries, in the order of `keys`.
    pub closed spec fn entries(&self) -> Seq<ServerEntry> {
        self.records@.map_values(|r: ServerRecord| r.entry)
    }

    /// Names are strictly increasing and match the entries one for one.
    pub open spec fn wf(&self) -> bool {
        &&& self.keys().len() == self.entries().len()
        &&& names_sorted(self.keys())
    }

    /// The position of a name in sorted keys is unique.
    pub proof fn lemma_index_of(&self, i: int)
        requires
            self.wf(),
            0 <= i < self.keys().len(),
        ensures
            self.keys().index_of(self.keys()[i]) == i,
            self@.contains_key(self.keys()[i]),
            self@[self.keys()[i]] == self.entries()[i],
    {
        let k = self.keys();
        assert(k.contains(k[i]));
        let j = k.index_of(k[i]);
        if j != i {
            if j < i {
                assert(lex_less(k[j], k[i]));
            } else {
                assert(lex_less(k[i], k[j]));
            }
            lemma_lex_irreflexive(k[i]);
        }
    }

    /// An empty map.
    pub fn new() -> (r: Self)
        ensures
            r.wf(),
            r.keys() == Seq::<Seq<char>>::empty(),
            r@ == Map::<Seq<char>, ServerEntry>::empty(),
    {
        let r = ServerMap { records: Vec::new() };
        proof {
            assert(r.keys() =~= Seq::<Seq<char>>::empty());
            assert(r@ =~= Map::<Seq<char>, ServerEntry>::empty());
        }
        r
    }

    /// Number of servers.
    pub fn len(&self) -> (r: usize)
        ensures
            r == self.keys().len(),
    {
        self.records.len()
    }

    /// Whether there are no servers.
    pub fn is_empty(&self) -> (r: bool)
        ensures
            r == (self.keys().len() == 0),
    {
        self.records.len() == 0
    }

    /// The name at a position in name order.
    pub fn name_at(&self, i: usize) -> (r: Option<String>)
        ensures
            i < self.keys().len() ==> (r matches Some(s) && s@ == self.keys()[i as int]),
            i >= self.keys().len() ==> r is None,
    {
        if i < self.records.len() {
            Some(self.records[i].name.clone())
        } else {
            None
        }
    }

    /// The entry at a position in name order.
    pub fn entry_at(&self, i: usize) -> (r: Option<&ServerEntry>)
        requires
            self.wf(),
        ensures
            i < self.keys().len() ==> (r matches Some(e) && *e == self.entries()[i as int]),
            i >= self.keys().len() ==> r is None,
    {
        if i < self.records.len() {
            Some(&self.records[i].entry)
        } else {
            None
        }
    }

    /// All names, in order.
    pub fn names(&self) -> (r: Vec<String>)
        ensures
            r@.len() == self.keys().len(),
            forall|i: int| 0 <= i < r@.len() ==> #[trigger] r@[i]@ == self.keys()[i],
    {
        let mut out: Vec<String> = Vec::new();
        let mut i: usize = 0;
        while i < self.records.len()
            invariant
                i <= self.records@.len(),
                out@.len() == i,
                forall|j: int| 0 <= j < i ==> #[trigger] out@[j]@ == self.keys()[j],
            decreases self.records.len() - i,
        {
            out.push(self.records[i].name.clone());
            i += 1;
        }
        out
    }

    /// The position of `name`, if present.
    pub fn position(&self, name: &str) -> (r: Option<usize>)
        requires
            self.wf(),
        ensures
            r matches Some(i) ==> i < self.keys().len() && self.keys()[i as int] == name@,
            r is None ==> !self.keys().contains(name@),
    {
        let mut i: usize = 0;
        while i < self.records.len()
            invariant
                i <= self.records@.len(),
                forall|j: int| 0 <= j < i ==> self.keys()[j] != name@,
            decreases self.records.len() - i,
        {
            if text_eq(self.records[i].name.as_str(), name) {
                return Some(i);
            }
            i += 1;
        }
        None
    }

    /// Whether `name` is present.
    pub fn contains_key(&self, name: &str) -> (r: bool)
        requires
            self.wf(),
        ensures
            r == self@.contains_key(name@),
    {
        self.position(name).is_some()
    }

    /// The entry for `name`, if present.
    pub fn get(&self, name: &str) -> (r: Option<&ServerEntry>)
        requires
            self.wf(),
        ensures
            self@.contains_key(name@) ==> (r matches Some(e) && *e == self@[name@]),
            !self@.contains_key(name@) ==> r is None,
    {
        match self.position(name) {
            Some(i) => {
                proof {
                    self.lemma_index_of(i as int);
                }
                Some(&self.records[i].entry)
            },
            None => None,
        }
    }

    /// The first position whose name is not below `name`.
    fn lower_bound(&self, name: &str) -> (p: usize)
        requires
            self.wf(),
        ensures
            p <= self.keys().len(),
            forall|j: int| 0 <= j < p ==> lex_less(#[trigger] self.keys()[j], name@),
            p < self.keys().len() ==> !lex_less(self.keys()[p as int], name@),
    {
        let mut i: usize = 0;
        while i < self.records.len() && text_less(self.records[i].name.as_str(), name)
            invariant
                i <= self.records@.len(),
                forall|j: int| 0 <= j < i ==> lex_less(#[trigger] self.keys()[j], name@),
            decreases self.records.len() - i,
        {
            i += 1;
        }
        i
    }

    /// Adds or replaces the entry for `name`.
    pub fn insert(&mut self, name: String, entry: ServerEntry)
        requires
            old(self).wf(),
        ensures
            final(self).wf(),
            final(self)@ == old(self)@.insert(name@, entry),
    {
        let p = self.lower_bound(name.as_str());
        let ghost old_keys = self.keys();
        let ghost old_entries = self.entries();
        if p < self.records.len() && text_eq(self.records[p].name.as_str(), name.as_str()) {
            self.records.set(p, ServerRecord { name, entry });
            proof {
                assert(self.keys() =~= old_keys);
                assert(self.entries() =~= old_entries.update(p as int, entry));
                self.lemma_view_update(old_keys, old_entries, p as int, entry);
            }
        } else {
            let ghost nm = name@;
            self.records.insert(p, ServerRecord { name, entry });
            proof {
                assert(self.keys() =~= old_keys.insert(p as int, nm));
                assert(self.entries() =~= old_entries.insert(p as int, entry));
                if p < old_keys.len() {
                    lemma_lex_total(old_keys[p as int], nm);
                    assert(lex_less(nm, old_keys[p as int]));
                }
                assert forall|i: int, j: int| 0 <= i < j < self.keys().len() implies lex_less(
                    #[trigger] self.keys()[i],
                    #[trigger] self.keys()[j],
                ) by {
                    let k = self.keys();
                    if j < p {
                    } else if j == p {
                    } else if i < p {
                        assert(lex_less(k[i], nm));
                        if j > p + 1 {
                            assert(lex_less(old_keys[p as int], old_keys[j - 1]));
                            lemma_lex_transitive(nm, old_keys[p as int], old_keys[j - 1]);
                        }
                        lemma_lex_transitive(k[i], nm, k[j]);
                    } else if i == p {
                        if j > p + 1 {
                            assert(lex_less(old_keys[p as int], old_keys[j - 1]));
                            lemma_lex_transitive(nm, old_keys[p as int], old_keys[j - 1]);
                        }
                    } else {
                        assert(lex_less(old_keys[i - 1], old_keys[j - 1]));
                    }
                }
                self.lemma_view_insert(old_keys, old_entries, p as int, nm, entry);
            }
        }
    }

    proof fn lemma_view_update(
        &self,
        old_keys: Seq<Seq<char>>,
        old_entries: Seq<ServerEntry>,
        p: int,
        entry: ServerEntry,
    )
        requires
            self.wf(),
            old_keys.len() == old_entries.len(),
            names_sorted(old_keys),
            0 <= p < old_keys.len(),
            self.keys() == old_keys,
            self.entries() == old_entries.update(p, entry),
        ensures
            self@ == Map::new(
                |k: Seq<char>| old_keys.contains(k),
                |k: Seq<char>| old_entries[old_keys.index_of(k)],
            ).insert(old_keys[p], entry),
    {
        let old_map = Map::new(
            |k: Seq<char>| old_keys.contains(k),
            |k: Seq<char>| old_entries[old_keys.index_of(k)],
        );
        assert forall|k: Seq<char>| #[trigger] self@.contains_key(k) implies self@[k] == old_map.insert(
            old_keys[p],
            entry,
        )[k] by {
            let i = choose|i: int| 0 <= i < old_keys.len() && old_keys[i] == k;
            self.lemma_index_of(i);
            old_self_index(old_keys, old_entries, i);
            if i != p {
                if i < p {
                    assert(lex_less(old_keys[i], old_keys[p]));
                } else {
                    assert(lex_less(old_keys[p], old_keys[i]));
                }
                lemma_lex_irreflexive(k);
            }
        }
        assert(self@ =~= old_map.insert(old_keys[p], entry));
    }

    proof fn lemma_view_insert(
        &self,
        old_keys: Seq<Seq<char>>,
        old_entries: Seq<ServerEntry>,
        p: int,
        nm: Seq<char>,
        entry: ServerEntry,
    )
        requires
            self.wf(),
            old_keys.len() == old_entries.len(),
            names_sorted(old_keys),
            0 <= p <= old_keys.len(),
            self.keys() == old_keys.insert(p, nm),
            self.entries() == old_entries.insert(p, entry),
        ensures
            self@ == Map::new(
                |k: Seq<char>| old_keys.contains(k),
                |k: Seq<char>| old_entries[old_keys.index_of(k)],
            ).insert(nm, entry),
    {
        let old_map = Map::new(
            |k: Seq<char>| old_keys.contains(k),
            |k: Seq<char>| old_entries[old_keys.index_of(k)],
        );
        let nk = self.keys();
        assert forall|k: Seq<char>| #[trigger] old_map.insert(nm, entry).contains_key(k) implies self@.contains_key(k) by {
            if k == nm {
                assert(nk[p] == nm);
            } else {
                let i = choose|i: int| 0 <= i < old_keys.len() && old_keys[i] == k;
                if i < p {
                    assert(nk[i] == k);
                } else {
                    assert(nk[i + 1] == k);
                }
            }
        }
        assert forall|k: Seq<char>| #[trigger] self@.contains_key(k) implies self@[k] == old_map.insert(
            nm,
            entry,
        )[k] && old_map.insert(nm, entry).contains_key(k) by {
            let i = choose|i: int| 0 <= i < nk.len() && nk[i] == k;
            self.lemma_index_of(i);
            if i == p {
            } else {
                let oi = if i < p {
                    i
                } else {
                    i - 1
                };
                assert(old_keys[oi] == k);
                assert(old_keys.contains(k));
                let j = old_keys.index_of(k);
                if j != oi {
                    if j < oi {
                        assert(lex_less(old_keys[j], old_keys[oi]));
                    } else {
                        assert(lex_less(old_keys[oi], old_keys[j]));
                    }
                    lemma_lex_irreflexive(k);
                }
                if k == nm {
                    if i < p {
                        assert(lex_less(nk[i], nk[p]));
                    } else {
                        assert(lex_less(nk[p], nk[i]));
                    }
                    lemma_lex_irreflexive(k);
                }
            }
        }
        assert(self@ =~= old_map.insert(nm, entry));
    }

    /// Removes the entry for `name`, if present.
    pub fn remove(&mut self, name: &str)
        requires
            old(self).wf(),
        ensures
            final(self).wf(),
            final(self)@ == old(self)@.remove(name@),
            !old(self)@.contains_key(name@) ==> final(self).keys() == old(self).keys(),
    {
        let ghost old_keys = self.keys();
        let ghost old_entries = self.entries();
        let ghost old_map = self@;
        match self.position(name) {
            Some(p) => {
                let _ = self.records.remove(p);
                proof {
                    assert(self.keys() =~= old_keys.remove(p as int));
                    assert(self.entries() =~= old_entries.remove(p as int));
                    let nk = self.keys();
                    assert forall|i: int, j: int| 0 <= i < j < nk.len() implies lex_less(
                        #[trigger] nk[i],
                        #[trigger] nk[j],
                    ) by {
                        let oi = if i < p {
                            i
                        } else {
                            i + 1
                        };
                        let oj = if j < p {
                            j
                        } else {
                            j + 1
                        };
                        assert(lex_less(old_keys[oi], old_keys[oj]));
                    }
                    assert forall|k: Seq<char>| #[trigger] self@.contains_key(k) implies self@[k]
                        == old_map.remove(name@)[k] && old_map.remove(name@).contains_key(k) by {
                        let i = choose|i: int| 0 <= i < nk.len() && nk[i] == k;
                        self.lemma_index_of(i);
                        let oi = if i < p {
                            i
                        } else {
                            i + 1
                        };
                        assert(old_keys[oi] == k);
                        old_self_index(old_keys, old_entries, oi);
                        if k == name@ {
                            if oi < p {
                                assert(lex_less(old_keys[oi], old_keys[p as int]));
                            } else {
                                assert(lex_less(old_keys[p as int], old_keys[oi]));
                            }
                            lemma_lex_irreflexive(k);
                        }
                    }
                    assert forall|k: Seq<char>| #[trigger] old_map.remove(name@).contains_key(
                        k,
                    ) implies self@.contains_key(k) by {
                        let oi = choose|i: int| 0 <= i < old_keys.len() && old_keys[i] == k;
                        if oi < p {
                            assert(nk[oi] == k);
                        } else if oi > p {
                            assert(nk[oi - 1] == k);
                        }
                    }
                    assert(self@ =~= old_map.remove(name@));
                }
            },
            None => {
                proof {
                    assert(old_map.remove(name@) =~= old_map);
                }
            },
        }
    }

    /// The smallest name, if any.
    pub fn first_name(&self) -> (r: Option<String>)
        requires
            self.wf(),
        ensures
            self.keys().len() == 0 ==> r is None,
            self.keys().len() > 0 ==> (r matches Some(s) && s@ == self.keys()[0]),
    {
        self.name_at(0)
    }
}

proof fn old_self_index(keys: Seq<Seq<char>>, entries: Seq<ServerEntry>, i: int)
    requires
        names_sorted(keys),
        keys.len() == entries.len(),
        0 <= i < keys.len(),
    ensures
        keys.index_of(keys[i]) == i,
{
    assert(keys.contains(keys[i]));
    let j = keys.index_of(keys[i]);
    if j != i {
        if j < i {
            assert(lex_less(keys[j], keys[i]));
        } else {
            assert(lex_less(keys[i], keys[j]));
        }
        lemma_lex_irreflexive(keys[i]);
    }
}

/// Seconds since the Unix epoch, from the system clock (`SystemTime::now`).
///
/// Trusted only to return; nothing is stated of the value, which depends on
/// the clock (a clock before the epoch reads as 0).
#[verifier::external_body]
fn unix_now() -> u64 {
    std::time::SystemTime::now().duration_since(std::time::UNIX_EPOCH).map(|d| d.as_secs()).unwrap_or(0)
}

/// The view of an optional string.
pub open spec fn opt_view(o: Option<String>) -> Option<Seq<char>> {
    match o {
        Some(s) => Some(s@),
        None => None,
    }
}

/// The application configuration.
#[derive(Debug, Clone)]
pub struct AppConfig {
    pub default_server: Option<String>,
    pub update_check: UpdateFrequency,
    pub last_update_check: Option<u64>,
    pub servers: ServerMap,
}

/// Whether, at time `now`, a check is due.
pub open spec fn check_due(freq: UpdateFrequency, last: Option<u64>, now: u64) -> bool {
    match freq.interval() {
        None => false,
        Some(interval) => interval == 0 || match last {
            Some(l) => (if now >= l {
                now - l
            } else {
                0
            }) >= interval,
            None => true,
        },
    }
}

impl AppConfig {
    /// The configuration's invariant.
    pub open spec fn wf(&self) -> bool {
        self.servers.wf()
    }

    /// A configuration with no servers and the default update policy.
    pub fn new() -> (r: Self)
        ensures
            r.wf(),
            r.default_server is None,
            r.update_check == UpdateFrequency::Weekly,
            r.last_update_check is None,
            r.servers@ == Map::<Seq<char>, ServerEntry>::empty(),
    {
        AppConfig {
            default_server: None,
            update_check: UpdateFrequency::Weekly,
            last_update_check: None,
            servers: ServerMap::new(),
        }
    }

    /// Whether an update check is due at time `now` (seconds since the epoch).
    pub fn should_check_update_at(&self, now: u64) -> (r: bool)
        ensures
            r == check_due(self.update_check, self.last_update_check, now),
    {
        let interval = match self.update_check.interval_secs() {
            Some(i) => i,
            None => return false,
        };
        if interval == 0 {
            return true;
        }
        match self.last_update_check {
            Some(last) => now.saturating_sub(last) >= interval,
            None => true,
        }
    }

    /// Whether an update check is due now.
    pub fn should_check_update(&self) -> (r: bool)
        ensures
            exists|now: u64| r == check_due(self.update_check, self.last_update_check, now),
            self.update_check == UpdateFrequency::Never ==> !r,
            self.update_check == UpdateFrequency::OnLaunch ==> r,
            self.update_check != UpdateFrequency::Never && self.last_update_check is None ==> r,
    {
        let now = unix_now();
        self.should_check_update_at(now)
    }

    /// Records that a check happened at time `now`.
    pub fn mark_update_checked_at(&mut self, now: u64)
        ensures
            final(self).last_update_check == Some(now),
            final(self).default_server == old(self).default_server,
            final(self).update_check == old(self).update_check,
            final(self).servers == old(self).servers,
    {
        self.last_update_check = Some(now);
    }

    /// Records that a check happened now.
    pub fn mark_update_checked(&mut self)
        ensures
            final(self).last_update_check is Some,
            final(self).default_server == old(self).default_server,
            final(self).update_check == old(self).update_check,
            final(self).servers == old(self).servers,
    {
        let now = unix_now();
        self.mark_update_checked_at(now);
    }

    /// Adds or replaces a server; the first server added becomes the default.
    pub fn add_server(&mut self, name: String, entry: ServerEntry)
        requires
            old(self).wf(),
        ensures
            final(self).wf(),
            final(self).servers@ == old(self).servers@.insert(name@, entry),
            old(self).servers.keys().len() == 0 ==> opt_view(final(self).default_server) == Some(
                name@,
            ),
            old(self).servers.keys().len() > 0 ==> final(self).default_server == old(
                self,
            ).default_server,
            final(self).update_check == old(self).update_check,
            final(self).last_update_check == old(self).last_update_check,
    {
        if self.servers.is_empty() {
            self.default_server = Some(name.clone());
        }
        self.servers.insert(name, entry);
    }

    /// Removes a server; if it was the default, the first remaining server in
    /// name order becomes the default (or none, when none remain).
    pub fn remove_server(&mut self, name: &str)
        requires
            old(self).wf(),
        ensures
            final(self).wf(),
            final(self).servers@ == old(self).servers@.remove(name@),
            opt_view(old(self).default_server) == Some(name@) ==> {
                &&& final(self).servers.keys().len() == 0 ==> final(self).default_server is None
                &&& final(self).servers.keys().len() > 0 ==> opt_view(final(self).default_server)
                    == Some(final(self).servers.keys()[0])
            },
            opt_view(old(self).default_server) != Some(name@) ==> final(self).default_server == old(
                self,
            ).default_server,
            final(self).update_check == old(self).update_check,
            final(self).last_update_check == old(self).last_update_check,
    {
        self.servers.remove(name);
        let is_default = match &self.default_server {
            Some(d) => text_eq(d.as_str(), name),
            None => false,
        };
        if is_default {
            self.default_server = self.servers.first_name();
        }
    }
}

impl Default for AppConfig {
    fn default() -> (r: Self)
        ensures
            r.wf(),
            r.default_server is None,
            r.update_check == UpdateFrequency::Weekly,
            r.last_update_check is None,
            r.servers@ == Map::<Seq<char>, ServerEntry>::empty(),
    {
        AppConfig::new()
    }
}

} // verus!
