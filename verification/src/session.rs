//! Sessions: one per server, each with its login state and the data last
//! fetched from that server, and the manager that knows which is active.
use crate::api::ApiClient;
use crate::config::{opt_view, ServerEntry};
use crate::models::{Assignment, Cloud, CloudSummary, Host, Schedule};
use crate::text_util::{chars_of, strip_back, text_eq};
use vstd::prelude::*;

verus! {

/// The part of an e-mail address before its first `@` (all of it where there
/// is none).
pub open spec fn before_at(s: Seq<char>) -> Seq<char>
    decreases s.len(),
{
    if s.len() == 0 {
        s
    } else if s[0] == '@' {
        Seq::empty()
    } else {
        seq![s[0]] + before_at(s.drop_first())
    }
}

proof fn lemma_before_at(s: Seq<char>, i: int)
    requires
        0 <= i <= s.len(),
        forall|j: int| 0 <= j < i ==> #[trigger] s[j] != '@',
        i == s.len() || s[i] == '@',
    ensures
        before_at(s) == s.take(i),
    decreases i,
{
    if i == 0 {
        if s.len() > 0 {
        }
        assert(s.take(0) =~= Seq::<char>::empty());
    } else {
        let t = s.drop_first();
        assert forall|j: int| 0 <= j < i - 1 implies #[trigger] t[j] != '@' by {
            assert(t[j] == s[j + 1]);
        }
        lemma_before_at(t, i - 1);
        assert(seq![s[0]] + t.take(i - 1) =~= s.take(i));
    }
}

/// The part of `s` before its first `@`.
pub fn user_part(s: &str) -> (r: String)
    ensures
        r@ == before_at(s@),
{
    let cs = chars_of(s);
    let mut i: usize = 0;
    while i < cs.len() && cs[i] != '@'
        invariant
            cs@ == s@,
            i <= cs@.len(),
            forall|j: int| 0 <= j < i ==> #[trigger] s@[j] != '@',
        decreases cs.len() - i,
    {
        i += 1;
    }
    proof {
        lemma_before_at(s@, i as int);
    }
    String::from_str(s.substring_char(0, i))
}

/// What logging out does to a session: the login state goes, the data
/// fetched from the server stays, the user's own assignments are no longer
/// known.
pub open spec fn logged_out(a: Session, b: Session) -> bool {
    &&& !b.connected
    &&& b.version is None
    &&& b.user_email is None
    &&& !b.is_admin
    &&& b.client.token is None
    &&& b.client.base_url == a.client.base_url
    &&& b.client.verify_ssl == a.client.verify_ssl
    &&& b.my_assignments@.len() == 0
    &&& b.name == a.name
    &&& b.same_data(&a)
}

/// The login state of `b` is that of `login`; its name, data and own
/// assignments are those of `a`.
pub open spec fn merged(a: Session, login: Session, b: Session) -> bool {
    &&& b.connected == login.connected
    &&& b.user_email == login.user_email
    &&& b.is_admin == login.is_admin
    &&& b.version == login.version
    &&& b.client == login.client
    &&& b.name == a.name
    &&& b.same_data(&a)
    &&& b.my_assignments@ == a.my_assignments@
}

/// Whether an assignment belongs to `user`.
pub open spec fn owned_by(user: Seq<char>) -> spec_fn(Assignment) -> bool {
    |a: Assignment| a.owner_view() == Some(user)
}

/// One server's session.
pub struct Session {
    pub name: String,
    pub client: ApiClient,
    pub connected: bool,
    pub version: Option<String>,
    pub user_email: Option<String>,
    pub is_admin: bool,
    pub hosts: Vec<Host>,
    pub clouds: Vec<Cloud>,
    pub cloud_summaries: Vec<CloudSummary>,
    pub assignments: Vec<Assignment>,
    pub my_assignments: Vec<Assignment>,
    pub schedules: Vec<Schedule>,
}

impl Session {
    /// The user name of the login: the e-mail address before its `@`.
    pub open spec fn user_view(&self) -> Option<Seq<char>> {
        match self.user_email {
            Some(e) => Some(before_at(e@)),
            None => None,
        }
    }

    /// The assignments of the logged-in user, in the order of `assignments`;
    /// none when nobody is logged in.
    pub open spec fn mine(&self) -> Seq<Assignment> {
        match self.user_view() {
            Some(u) => self.assignments@.filter(owned_by(u)),
            None => Seq::empty(),
        }
    }

    /// Whether the cached server data of two sessions is the same.
    pub open spec fn same_data(&self, other: &Session) -> bool {
        &&& self.hosts == other.hosts
        &&& self.clouds == other.clouds
        &&& self.cloud_summaries == other.cloud_summaries
        &&& self.assignments == other.assignments
        &&& self.schedules == other.schedules
    }

    /// A session for the server `name` at `entry`, not logged in, with no
    /// data yet.
    pub fn new(name: &str, entry: &ServerEntry) -> (r: Self)
        ensures
            r.name@ == name@,
            r.client.base_url@ == strip_back(entry.url@, Some('/')),
            r.client.verify_ssl == entry.verify_ssl,
            r.client.token is None,
            !r.connected,
            r.version is None,
            r.user_email is None,
            !r.is_admin,
            r.hosts@.len() == 0,
            r.clouds@.len() == 0,
            r.cloud_summaries@.len() == 0,
            r.assignments@.len() == 0,
            r.my_assignments@.len() == 0,
            r.schedules@.len() == 0,
    {
        Session {
            name: String::from_str(name),
            client: ApiClient::new(entry.url.as_str(), entry.verify_ssl),
            connected: false,
            version: None,
            user_email: None,
            is_admin: false,
            hosts: Vec::new(),
            clouds: Vec::new(),
            cloud_summaries: Vec::new(),
            assignments: Vec::new(),
            my_assignments: Vec::new(),
            schedules: Vec::new(),
        }
    }

    /// Records a successful login as `username`, with the server's version
    /// where it could be read.
    pub fn login_succeeded(&mut self, username: &str, version: Option<String>)
        ensures
            final(self).connected,
            opt_view(final(self).user_email) == Some(username@),
            match version {
                Some(v) => opt_view(final(self).version) == Some(v@),
                None => final(self).version == old(self).version,
            },
            final(self).name == old(self).name,
            final(self).client == old(self).client,
            final(self).is_admin == old(self).is_admin,
            final(self).same_data(&*old(self)),
            final(self).my_assignments@ == old(self).my_assignments@,
    {
        self.connected = true;
        self.user_email = Some(String::from_str(username));
        if let Some(v) = version {
            self.version = Some(v);
        }
    }

    /// The user name of the login.
    pub fn username(&self) -> (r: Option<String>)
        ensures
            opt_view(r) == self.user_view(),
    {
        match &self.user_email {
            Some(e) => Some(user_part(e.as_str())),
            None => None,
        }
    }

    /// Logs out: the login state goes, the data fetched from the server
    /// stays; the user's own assignments are no longer known.
    pub fn disconnect(&mut self)
        ensures
            logged_out(*old(self), *final(self)),
            !final(self).connected,
            final(self).version is None,
            final(self).user_email is None,
            !final(self).is_admin,
            final(self).client.token is None,
            final(self).client.base_url == old(self).client.base_url,
            final(self).client.verify_ssl == old(self).client.verify_ssl,
            final(self).my_assignments@.len() == 0,
            final(self).name == old(self).name,
            final(self).same_data(&*old(self)),
    {
        self.connected = false;
        self.version = None;
        self.user_email = None;
        self.is_admin = false;
        self.client.clear_token();
        self.my_assignments.clear();
    }

    /// Recomputes the user's own assignments from all assignments.
    pub fn recalc_my_assignments(&mut self)
        ensures
            final(self).my_assignments@ == old(self).mine(),
            final(self).name == old(self).name,
            final(self).client == old(self).client,
            final(self).connected == old(self).connected,
            final(self).version == old(self).version,
            final(self).user_email == old(self).user_email,
            final(self).is_admin == old(self).is_admin,
            final(self).same_data(&*old(self)),
    {
        let user = self.username();
        let mut out: Vec<Assignment> = Vec::new();
        match user {
            Some(u) => {
                let ghost p = owned_by(u@);
                let mut i: usize = 0;
                while i < self.assignments.len()
                    invariant
                        i <= self.assignments@.len(),
                        p == owned_by(u@),
                        out@ == self.assignments@.take(i as int).filter(p),
                    decreases self.assignments.len() - i,
                {
                    let a = &self.assignments[i];
                    let keep = match &a.owner {
                        Some(o) => text_eq(o.as_str(), u.as_str()),
                        None => false,
                    };
                    proof {
                        let s = self.assignments@.take(i + 1);
                        assert(s.drop_last() =~= self.assignments@.take(i as int));
                        assert(s.last() == *a);
                        reveal(Seq::filter);
                        assert(keep == p(*a));
                    }
                    if keep {
                        out.push(a.duplicate());
                    }
                    i += 1;
                }
                proof {
                    assert(self.assignments@.take(i as int) =~= self.assignments@);
                }
            },
            None => {
                proof {
                    assert(out@ =~= Seq::<Assignment>::empty());
                }
            },
        }
        self.my_assignments = out;
    }
}

/// The sessions of all servers used so far, and the active one.
pub struct SessionManager {
    pub sessions: Vec<Session>,
    pub active_server: Option<String>,
}

impl SessionManager {
    /// The session names, in order.
    pub open spec fn names(&self) -> Seq<Seq<char>> {
        self.sessions@.map_values(|s: Session| s.name@)
    }

    /// Whether a session is named `name`.
    pub open spec fn has(&self, name: Seq<char>) -> bool {
        exists|i: int| 0 <= i < self.sessions@.len() && #[trigger] self.sessions@[i].name@ == name
    }

    /// No two sessions share a name.
    pub open spec fn names_unique(&self) -> bool {
        forall|i: int, j: int|
            0 <= i < j < self.sessions@.len() ==> #[trigger] self.sessions@[i].name@
                != #[trigger] self.sessions@[j].name@
    }

    /// No two sessions share a name, and the active name, if any, is that of
    /// a session.
    pub open spec fn wf(&self) -> bool {
        &&& self.names_unique()
        &&& match self.active_server {
            Some(a) => self.has(a@),
            None => true,
        }
    }

    /// The position of the session named `name`.
    pub open spec fn index_of(&self, name: Seq<char>) -> int {
        choose|i: int| 0 <= i < self.sessions@.len() && #[trigger] self.sessions@[i].name@ == name
    }

    /// The active session.
    pub open spec fn active(&self) -> Option<Session> {
        match self.active_server {
            Some(a) => if self.has(a@) {
                Some(self.sessions@[self.index_of(a@)])
            } else {
                None
            },
            None => None,
        }
    }

    /// No sessions and none active.
    pub fn new() -> (r: Self)
        ensures
            r.wf(),
            r.sessions@.len() == 0,
            r.active_server is None,
    {
        SessionManager { sessions: Vec::new(), active_server: None }
    }

    /// The position of the session named `name`.
    pub fn find(&self, name: &str) -> (r: Option<usize>)
        requires
            self.names_unique(),
        ensures
            match r {
                Some(i) => i < self.sessions@.len() && self.sessions@[i as int].name@ == name@
                    && self.index_of(name@) == i,
                None => !self.has(name@),
            },
    {
        let mut i: usize = 0;
        while i < self.sessions.len()
            invariant
                self.names_unique(),
                i <= self.sessions@.len(),
                forall|j: int| 0 <= j < i ==> self.sessions@[j].name@ != name@,
            decreases self.sessions.len() - i,
        {
            if text_eq(self.sessions[i].name.as_str(), name) {
                proof {
                    let k = self.index_of(name@);
                    assert(self.sessions@[i as int].name@ == name@);
                    if k != i {
                        if k < i {
                        } else {
                            assert(self.sessions@[i as int].name@ != self.sessions@[k].name@);
                        }
                    }
                }
                return Some(i);
            }
            i += 1;
        }
        None
    }

    /// The position of the active session.
    pub fn active_index(&self) -> (r: Option<usize>)
        requires
            self.wf(),
        ensures
            match self.active() {
                Some(s) => r matches Some(i) && i < self.sessions@.len() && self.sessions@[i as int]
                    == s,
                None => r is None,
            },
    {
        match &self.active_server {
            Some(a) => self.find(a.as_str()),
            None => None,
        }
    }

    /// The active session.
    pub fn active_session(&self) -> (r: Option<&Session>)
        requires
            self.wf(),
        ensures
            match self.active() {
                Some(s) => r matches Some(x) && *x == s,
                None => r is None,
            },
    {
        match self.active_index() {
            Some(i) => Some(&self.sessions[i]),
            None => None,
        }
    }

    /// The session named `name`.
    pub fn get_session(&self, name: &str) -> (r: Option<&Session>)
        requires
            self.wf(),
        ensures
            self.has(name@) ==> (r matches Some(x) && *x == self.sessions@[self.index_of(name@)]),
            !self.has(name@) ==> r is None,
    {
        match self.find(name) {
            Some(i) => Some(&self.sessions[i]),
            None => None,
        }
    }

    /// Adds a session, replacing one of the same name; the first session
    /// added becomes the active one.
    pub fn add_session(&mut self, session: Session)
        requires
            old(self).wf(),
        ensures
            final(self).wf(),
            final(self).has(session.name@),
            final(self).sessions@[final(self).index_of(session.name@)] == session,
            forall|n: Seq<char>| n != session.name@ ==> (final(self).has(n) == old(self).has(n)),
            forall|n: Seq<char>|
                n != session.name@ && #[trigger] old(self).has(n)
                    ==> final(self).sessions@[final(self).index_of(n)]
                    == old(self).sessions@[old(self).index_of(n)],
            old(self).active_server is None
                ==> opt_view(final(self).active_server) == Some(session.name@),
            old(self).active_server is Some
                ==> final(self).active_server == old(self).active_server,
    {
        let ghost old_s = self.sessions@;
        let ghost nm = session.name@;
        let name = session.name.clone();
        if self.active_server.is_none() {
            self.active_server = Some(name.clone());
        }
        match self.find(name.as_str()) {
            Some(i) => {
                self.sessions.set(i, session);
                proof {
                    assert(self.sessions@ == old_s.update(i as int, session));
                    assert(self.sessions@[i as int].name@ == nm);
                    assert forall|a: int, b: int|
                        0 <= a < b < self.sessions@.len() implies #[trigger] self.sessions@[a].name@
                        != #[trigger] self.sessions@[b].name@ by {
                        assert(old_s[a].name@ != old_s[b].name@);
                    }
                    self.lemma_index(i as int);
                    self.lemma_same_others(old_s, i as int);
                }
            },
            None => {
                self.sessions.push(session);
                proof {
                    let k = old_s.len() as int;
                    assert(self.sessions@ == old_s.push(session));
                    assert(self.sessions@[k].name@ == nm);
                    assert forall|a: int, b: int|
                        0 <= a < b < self.sessions@.len() implies #[trigger] self.sessions@[a].name@
                        != #[trigger] self.sessions@[b].name@ by {
                        if b == k {
                            assert(old_s[a].name@ != nm);
                        } else {
                            assert(old_s[a].name@ != old_s[b].name@);
                        }
                    }
                    self.lemma_index(k);
                    self.lemma_same_others(old_s, k);
                }
            },
        }
        proof {
            if self.active_server is Some {
                let a = self.active_server->0;
                if a@ != nm {
                    assert(self.has(a@));
                }
            }
        }
    }

    proof fn lemma_index(&self, i: int)
        requires
            0 <= i < self.sessions@.len(),
            forall|a: int, b: int|
                0 <= a < b < self.sessions@.len() ==> #[trigger] self.sessions@[a].name@
                    != #[trigger] self.sessions@[b].name@,
        ensures
            self.has(self.sessions@[i].name@),
            self.index_of(self.sessions@[i].name@) == i,
    {
        let n = self.sessions@[i].name@;
        assert(self.has(n));
        let k = self.index_of(n);
        if k != i {
            if k < i {
                assert(self.sessions@[k].name@ != self.sessions@[i].name@);
            } else {
                assert(self.sessions@[i].name@ != self.sessions@[k].name@);
            }
        }
    }

    proof fn lemma_same_others(&self, old_s: Seq<Session>, i: int)
        requires
            0 <= i < self.sessions@.len(),
            i <= old_s.len(),
            self.sessions@.len() == old_s.len() || (self.sessions@.len() == old_s.len() + 1 && i
                == old_s.len()),
            forall|j: int| 0 <= j < old_s.len() && j != i ==> self.sessions@[j] == old_s[j],
            forall|a: int, b: int|
                0 <= a < b < self.sessions@.len() ==> #[trigger] self.sessions@[a].name@
                    != #[trigger] self.sessions@[b].name@,
            forall|a: int, b: int|
                0 <= a < b < old_s.len() ==> #[trigger] old_s[a].name@ != #[trigger] old_s[b].name@,
            i < old_s.len() ==> old_s[i].name@ == self.sessions@[i].name@,
        ensures
            forall|n: Seq<char>|
                n != self.sessions@[i].name@ ==> (self.has(n) == (exists|j: int|
                    0 <= j < old_s.len() && #[trigger] old_s[j].name@ == n)),
            forall|j: int|
                #![trigger old_s[j]]
                0 <= j < old_s.len() && old_s[j].name@ != self.sessions@[i].name@
                    ==> self.sessions@[self.index_of(old_s[j].name@)] == old_s[j],
    {
        assert forall|n: Seq<char>| n != self.sessions@[i].name@ implies (self.has(n) == (exists|
            j: int,
        | 0 <= j < old_s.len() && #[trigger] old_s[j].name@ == n)) by {
            if self.has(n) {
                let k = self.index_of(n);
                assert(k != i);
                assert(old_s[k].name@ == n);
            }
            if exists|j: int| 0 <= j < old_s.len() && #[trigger] old_s[j].name@ == n {
                let j = choose|j: int| 0 <= j < old_s.len() && #[trigger] old_s[j].name@ == n;
                assert(j != i);
                assert(self.sessions@[j].name@ == n);
            }
        }
        assert forall|j: int|
            #![trigger old_s[j]]
            0 <= j < old_s.len() && old_s[j].name@ != self.sessions@[i].name@
                implies self.sessions@[self.index_of(old_s[j].name@)] == old_s[j] by {
            assert(j != i);
            self.lemma_index(j);
        }
    }

    /// Makes the session named `name` the active one, where there is one.
    pub fn switch_to(&mut self, name: &str) -> (r: bool)
        requires
            old(self).wf(),
        ensures
            final(self).wf(),
            r == old(self).has(name@),
            final(self).sessions == old(self).sessions,
            r ==> opt_view(final(self).active_server) == Some(name@),
            !r ==> final(self).active_server == old(self).active_server,
    {
        match self.find(name) {
            Some(_) => {
                self.active_server = Some(String::from_str(name));
                true
            },
            None => false,
        }
    }

    /// The session at position `i`, to change in place.
    pub fn session_at_mut(&mut self, i: usize) -> (r: &mut Session)
        requires
            i < old(self).sessions@.len(),
        ensures
            *r == old(self).sessions@[i as int],
            final(self).sessions@ == old(self).sessions@.update(i as int, *final(r)),
            final(self).active_server == old(self).active_server,
    {
        &mut self.sessions[i]
    }

    /// The session named `name`, to change in place.
    pub fn get_session_mut(&mut self, name: &str) -> (r: Option<&mut Session>)
        requires
            old(self).names_unique(),
        ensures
            old(self).has(name@) ==> (r matches Some(x) && *x == old(self).sessions@[old(
                self,
            ).index_of(name@)] && final(self).sessions@ == old(self).sessions@.update(
                old(self).index_of(name@),
                *final(x),
            )),
            !old(self).has(name@) ==> r is None && *final(self) == *old(self),
            final(self).active_server == old(self).active_server,
    {
        match self.find(name) {
            Some(i) => Some(self.session_at_mut(i)),
            None => None,
        }
    }

    /// The position of the active session.
    pub open spec fn active_pos(&self) -> int {
        self.index_of(self.active_server->0@)
    }

    /// The active session, to change in place.
    pub fn active_session_mut(&mut self) -> (r: Option<&mut Session>)
        requires
            old(self).wf(),
        ensures
            old(self).active() is Some ==> (r matches Some(x) && *x == old(self).active()->0
                && final(self).sessions@ == old(self).sessions@.update(
                old(self).active_pos(),
                *final(x),
            )),
            old(self).active() is None ==> r is None && final(self).sessions@ == old(
                self,
            ).sessions@,
            final(self).active_server == old(self).active_server,
    {
        match self.active_index() {
            Some(i) => Some(self.session_at_mut(i)),
            None => None,
        }
    }

    /// Logs out of the session at position `i`, giving its name.
    pub fn logout_at(&mut self, i: usize) -> (name: String)
        requires
            old(self).wf(),
            i < old(self).sessions@.len(),
        ensures
            final(self).wf(),
            final(self).active_server == old(self).active_server,
            final(self).sessions@ == old(self).sessions@.update(i as int, final(self).sessions@[i as int]),
            logged_out(old(self).sessions@[i as int], final(self).sessions@[i as int]),
            name@ == old(self).sessions@[i as int].name@,
    {
        let ghost old_s = self.sessions@;
        let s = self.session_at_mut(i);
        let name = s.name.clone();
        s.disconnect();
        proof {
            assert forall|a: int, b: int|
                0 <= a < b < self.sessions@.len() implies #[trigger] self.sessions@[a].name@
                != #[trigger] self.sessions@[b].name@ by {
                assert(old_s[a].name@ != old_s[b].name@);
            }
            if self.active_server is Some {
                let k = choose|k: int| 0 <= k < old_s.len() && #[trigger] old_s[k].name@ == self.active_server->0@;
                assert(self.sessions@[k].name@ == old_s[k].name@);
            }
        }
        name
    }

    /// Takes the login state of a freshly logged-in session into the
    /// session of the same name, keeping that one's data; adds the session
    /// where there is none of that name.
    pub fn merge_login(&mut self, session: Session)
        requires
            old(self).wf(),
        ensures
            final(self).wf(),
            final(self).has(session.name@),
            old(self).has(session.name@) ==> {
                let i = old(self).index_of(session.name@);
                &&& final(self).active_server == old(self).active_server
                &&& final(self).sessions@ == old(self).sessions@.update(i, final(self).sessions@[i])
                &&& merged(old(self).sessions@[i], session, final(self).sessions@[i])
            },
            !old(self).has(session.name@) ==> {
                &&& final(self).sessions@[final(self).index_of(session.name@)] == session
                &&& forall|n: Seq<char>| n != session.name@ ==> (final(self).has(n) == old(self).has(n))
                &&& forall|n: Seq<char>|
                    n != session.name@ && #[trigger] old(self).has(n)
                        ==> final(self).sessions@[final(self).index_of(n)]
                        == old(self).sessions@[old(self).index_of(n)]
            },
    {
        let ghost old_s = self.sessions@;
        match self.find(session.name.as_str()) {
            Some(i) => {
                let s = self.session_at_mut(i);
                s.connected = session.connected;
                s.user_email = session.user_email;
                s.is_admin = session.is_admin;
                s.version = session.version;
                s.client = session.client;
                proof {
                    assert forall|a: int, b: int|
                        0 <= a < b < self.sessions@.len() implies #[trigger] self.sessions@[a].name@
                        != #[trigger] self.sessions@[b].name@ by {
                        assert(old_s[a].name@ != old_s[b].name@);
                    }
                    if self.active_server is Some {
                        let k = choose|k: int| 0 <= k < old_s.len() && #[trigger] old_s[k].name@ == self.active_server->0@;
                        assert(self.sessions@[k].name@ == old_s[k].name@);
                    }
                    assert(self.sessions@[i as int].name@ == old_s[i as int].name@);
                }
            },
            None => {
                self.add_session(session);
            },
        }
    }

    /// Recomputes the own assignments of the session named `name`.
    pub fn recalc_for(&mut self, name: &str)
        requires
            old(self).wf(),
        ensures
            final(self).wf(),
            final(self).active_server == old(self).active_server,
            old(self).has(name@) ==> {
                let i = old(self).index_of(name@);
                let a = old(self).sessions@[i];
                let b = final(self).sessions@[i];
                &&& final(self).sessions@ == old(self).sessions@.update(i, b)
                &&& b.my_assignments@ == a.mine()
                &&& b.name == a.name && b.client == a.client && b.connected == a.connected
                &&& b.version == a.version && b.user_email == a.user_email && b.is_admin == a.is_admin
                &&& b.same_data(&a)
            },
            !old(self).has(name@) ==> final(self).sessions == old(self).sessions,
    {
        let ghost old_s = self.sessions@;
        match self.find(name) {
            Some(i) => {
                let s = self.session_at_mut(i);
                s.recalc_my_assignments();
                proof {
                    assert forall|a: int, b: int|
                        0 <= a < b < self.sessions@.len() implies #[trigger] self.sessions@[a].name@
                        != #[trigger] self.sessions@[b].name@ by {
                        assert(old_s[a].name@ != old_s[b].name@);
                    }
                    if self.active_server is Some {
                        let k = choose|k: int| 0 <= k < old_s.len() && #[trigger] old_s[k].name@ == self.active_server->0@;
                        assert(self.sessions@[k].name@ == old_s[k].name@);
                    }
                }
            },
            None => {},
        }
    }
}

} // verus!
