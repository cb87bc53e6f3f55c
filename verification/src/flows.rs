//! Logging in and out, and what the interface does with the outcome of work
//! it asked for: logins, refreshes, scheduling and actions.
use crate::app::AuthForm;
use crate::config::{opt_view, ServerEntry};
use crate::search::{lower_chars, lowered};
use crate::session::{logged_out, merged, Session, SessionManager};
use crate::state::{App, ConnectError, ConnectResult, Effect, Popup};
use crate::text_util::{chars_of, contains_chars, contains_text, has_infix};
use vstd::prelude::*;
use vstd::utf8::encode_utf8;

verus! {

/// `a` followed by `b` and `c`.
pub fn concat3(a: &str, b: &str, c: &str) -> (r: String)
    ensures
        r@ == a@ + b@ + c@,
{
    let mut s = String::from_str(a);
    s.append(b);
    s.append(c);
    s
}

/// Whether an error text tells of a server that could not be reached.
pub open spec fn unreachable(e: Seq<char>) -> bool {
    has_infix(e, "error sending request"@)
}

/// The message of a failed login with the error `e`.
pub open spec fn login_failure_text(e: Seq<char>) -> Seq<char> {
    if unreachable(e) {
        "Login failed: "@ + e + "\n\nServer unreachable, check connectivity."@
    } else {
        "Login failed: "@ + e
    }
}

/// A failed login with the error `err`: a matter of credentials unless the
/// server could not be reached.
pub fn login_failure(err: &str) -> (r: ConnectError)
    ensures
        r.message@ == login_failure_text(err@),
        r.is_credential_error == !unreachable(err@),
{
    let net = contains_text(err, "error sending request");
    let message = if net {
        concat3("Login failed: ", err, "\n\nServer unreachable, check connectivity.")
    } else {
        concat3("Login failed: ", err, "")
    };
    proof {
        reveal_strlit("");
        assert("Login failed: "@ + err@ + ""@ =~= "Login failed: "@ + err@);
    }
    ConnectError { message, is_credential_error: !net }
}

/// Whether a lowercased registration error says the user exists already.
pub open spec fn user_exists(l: Seq<char>) -> bool {
    has_infix(l, "already exist"@) || has_infix(l, "conflict"@) || has_infix(l, "duplicate"@)
}

/// The message of a failed registration with the error `e`, judged on its
/// lowercase form.
pub open spec fn register_failure_text(e: Seq<char>) -> Seq<char> {
    let l = lowered(e);
    if unreachable(l) {
        "Registration failed: "@ + e + "\n\nServer unreachable, check connectivity."@
    } else if user_exists(l) {
        "Registration failed: "@ + e + "\nContact your QUADS admin to reset your password."@
    } else {
        "Registration failed: "@ + e
    }
}

/// A failed registration with the error `err`; never a matter of
/// credentials.
pub fn register_failure(err: &str) -> (r: ConnectError)
    ensures
        r.message@ == register_failure_text(err@),
        !r.is_credential_error,
{
    let l = lower_chars(err);
    let net = contains_chars(&l, &chars_of("error sending request"));
    let exists = contains_chars(&l, &chars_of("already exist")) || contains_chars(
        &l,
        &chars_of("conflict"),
    ) || contains_chars(&l, &chars_of("duplicate"));
    let message = if net {
        concat3("Registration failed: ", err, "\n\nServer unreachable, check connectivity.")
    } else if exists {
        concat3("Registration failed: ", err, "\nContact your QUADS admin to reset your password.")
    } else {
        concat3("Registration failed: ", err, "")
    };
    proof {
        reveal_strlit("");
        assert("Registration failed: "@ + err@ + ""@ =~= "Registration failed: "@ + err@);
    }
    ConnectError { message, is_credential_error: false }
}

/// The sessions after the session at `pos` changed to `b`.
pub open spec fn session_changed(m: SessionManager, n: SessionManager, pos: int, b: Session) -> bool {
    &&& n.active_server == m.active_server
    &&& n.sessions@ == m.sessions@.update(pos, b)
}

/// Logging out of the active session: it keeps its data (`logged_out`), the
/// other sessions are untouched, and the status line says so; without an
/// active session nothing changes.
pub open spec fn disconnected(s: App, t: App) -> bool {
    match s.sessions.active() {
        Some(a) => {
            &&& logged_out(a, t.sessions.sessions@[s.sessions.active_pos()])
            &&& session_changed(
                s.sessions,
                t.sessions,
                s.sessions.active_pos(),
                t.sessions.sessions@[s.sessions.active_pos()],
            )
            &&& t.status_message matches Some(m) && m@ == "Disconnected from "@ + a.name@
            &&& t == (App { sessions: t.sessions, status_message: t.status_message, ..s })
        },
        None => t == s,
    }
}

/// Logging in (or registering, then logging in) with the credentials of a
/// login form starts: the connecting popup shows while the runner does it;
/// an error shows instead when the form's server is not configured.
pub open spec fn login_started(s: App, t: App, form: AuthForm, register: bool, fx: Seq<Effect>) -> bool {
    if s.config.servers@.contains_key(form.server_name@) {
        &&& t.popup matches Some(Popup::Connecting(n)) && n@ == form.server_name@
        &&& t == (App { popup: t.popup, pending_connect: true, ..s })
        &&& fx.len() == 1
        &&& if register {
            fx[0] matches Effect::Register { server, username, password } && server@
                == form.server_name@ && username@ == form.username.value@ && password@
                == form.password.value@
        } else {
            fx[0] matches Effect::Connect { server, username, password } && server@
                == form.server_name@ && username@ == form.username.value@ && password@
                == form.password.value@
        }
    } else {
        &&& t.popup matches Some(Popup::Error(m)) && m@ == "Server '"@ + form.server_name@
            + "' not found in config"@
        &&& t == (App { popup: t.popup, ..s })
        &&& fx.len() == 0
    }
}

impl App {
    /// Logs out of the active session, keeping its data (`disconnected`).
    pub fn disconnect_current(&mut self)
        requires
            old(self).wf(),
        ensures
            final(self).wf(),
            disconnected(*old(self), *final(self)),
    {
        match self.sessions.active_index() {
            Some(i) => {
                let name = self.sessions.logout_at(i);
                self.status_message = Some(concat3("Disconnected from ", name.as_str(), ""));
                proof {
                    reveal_strlit("");
                    assert("Disconnected from "@ + name@ + ""@ =~= "Disconnected from "@ + name@);
                }
            },
            None => {},
        }
    }

    /// Asks to log in with the credentials of a login form
    /// (`login_started`).
    pub fn start_connect(&mut self, form: AuthForm) -> (fx: Vec<Effect>)
        requires
            old(self).wf(),
        ensures
            final(self).wf(),
            login_started(*old(self), *final(self), form, false, fx@),
    {
        let known = self.config.servers.contains_key(form.server_name.as_str());
        if !known {
            let msg = concat3("Server '", form.server_name.as_str(), "' not found in config");
            self.set_error(msg);
            return Vec::new();
        }
        let server = form.server_name.clone();
        let mut fx: Vec<Effect> = Vec::new();
        fx.push(
            Effect::Connect {
                server: form.server_name.clone(),
                username: form.username.value.clone(),
                password: form.password.value.clone(),
            },
        );
        self.popup = Some(Popup::Connecting(server));
        self.pending_connect = true;
        fx
    }

    /// Asks to register with the credentials of a login form, then log in
    /// (`login_started`).
    pub fn start_register(&mut self, form: AuthForm) -> (fx: Vec<Effect>)
        requires
            old(self).wf(),
        ensures
            final(self).wf(),
            login_started(*old(self), *final(self), form, true, fx@),
    {
        let known = self.config.servers.contains_key(form.server_name.as_str());
        if !known {
            let msg = concat3("Server '", form.server_name.as_str(), "' not found in config");
            self.set_error(msg);
            return Vec::new();
        }
        let server = form.server_name.clone();
        let mut fx: Vec<Effect> = Vec::new();
        fx.push(
            Effect::Register {
                server: form.server_name.clone(),
                username: form.username.value.clone(),
                password: form.password.value.clone(),
            },
        );
        self.popup = Some(Popup::Connecting(server));
        self.pending_connect = true;
        fx
    }
}

/// A session as `Session::new` makes it for the server `name` at `e`.
pub open spec fn fresh_session(x: Session, name: Seq<char>, e: ServerEntry) -> bool {
    &&& x.name@ == name
    &&& x.client.base_url@ == crate::text_util::strip_back(e.url@, Some('/'))
    &&& x.client.verify_ssl == e.verify_ssl
    &&& x.client.token is None
    &&& !x.connected
    &&& x.version is None
    &&& x.user_email is None
    &&& !x.is_admin
    &&& x.hosts@.len() == 0
    &&& x.clouds@.len() == 0
    &&& x.cloud_summaries@.len() == 0
    &&& x.assignments@.len() == 0
    &&& x.my_assignments@.len() == 0
    &&& x.schedules@.len() == 0
}

/// The login form a server's saved credentials give: filled in when both
/// user name and password are saved (then the login starts at once), with
/// the user name alone, or empty.
pub open spec fn login_begun(s: App, t: App, name: Seq<char>, e: ServerEntry, fx: Seq<Effect>) -> bool {
    match (e.username, e.password) {
        (Some(u), Some(p)) => {
            &&& t.popup matches Some(Popup::Connecting(n)) && n@ == name
            &&& t == (App { popup: t.popup, pending_connect: true, ..s })
            &&& fx.len() == 1
            &&& fx[0] matches Effect::Connect { server, username, password } && server@ == name
                && username@ == u@ && password@ == p@
        },
        (Some(u), None) => {
            &&& t.popup matches Some(Popup::AuthForm(f)) && f.wf() && f.server_name@ == name
                && f.username.value@ == u@ && f.password.value@.len() == 0 && f.active_field
                == crate::app::AuthFormField::Username && f.error is None && !f.register_prompt
            &&& t == (App { popup: t.popup, ..s })
            &&& fx.len() == 0
        },
        _ => {
            &&& t.popup matches Some(Popup::AuthForm(f)) && f.wf() && f.server_name@ == name
                && f.username.value@.len() == 0 && f.password.value@.len() == 0 && f.active_field
                == crate::app::AuthFormField::Username && f.error is None && !f.register_prompt
            &&& t == (App { popup: t.popup, ..s })
            &&& fx.len() == 0
        },
    }
}

/// Selecting the server `name` (entry `e`) as the default and active one:
/// the configuration is to be saved, and a server without a session gets a
/// fresh one whose data is fetched.
pub open spec fn server_selected(s: App, t: App, name: Seq<char>, e: ServerEntry, fx: Seq<Effect>) -> bool {
    &&& opt_view(t.config.default_server) == Some(name)
    &&& t.config.servers == s.config.servers
    &&& t.config.update_check == s.config.update_check
    &&& t.config.last_update_check == s.config.last_update_check
    &&& opt_view(t.sessions.active_server) == Some(name)
    &&& t.sessions.has(name)
    &&& fx.len() >= 1
    &&& fx[0] is SaveConfig
    &&& if s.sessions.has(name) {
        &&& t.sessions.sessions == s.sessions.sessions
        &&& fx.len() == 1
        &&& t == (App { config: t.config, sessions: t.sessions, ..s })
    } else {
        &&& fresh_session(t.sessions.sessions@[t.sessions.index_of(name)], name, e)
        &&& forall|n: Seq<char>| n != name ==> (t.sessions.has(n) == s.sessions.has(n))
        &&& forall|n: Seq<char>|
            n != name && #[trigger] s.sessions.has(n) ==> t.sessions.sessions@[t.sessions.index_of(n)]
                == s.sessions.sessions@[s.sessions.index_of(n)]
        &&& fx.len() == 2
        &&& fx[1] matches Effect::Refresh { server } && server@ == name
        &&& t == (App {
            config: t.config,
            sessions: t.sessions,
            refreshing: true,
            loading: true,
            ..s
        })
    }
}

/// Enter on the server at the cursor, to connect: a logged-in session is
/// switched to; otherwise the server becomes the default and active one
/// (`server_selected`) and its login begins (`login_begun`). Nothing happens
/// without a server at the cursor.
pub open spec fn connect_selected(s: App, t: App, fx: Seq<Effect>) -> bool {
    if s.server_selected >= s.config.servers.keys().len() {
        t == s && fx.len() == 0
    } else {
        let name = s.config.servers.keys()[s.server_selected as int];
        let e = s.config.servers@[name];
        if s.sessions.has(name) && s.sessions.sessions@[s.sessions.index_of(name)].connected {
            &&& opt_view(t.sessions.active_server) == Some(name)
            &&& t.sessions.sessions == s.sessions.sessions
            &&& t.status_message matches Some(m) && m@ == "Switched to "@ + name
            &&& t == (App { sessions: t.sessions, status_message: t.status_message, ..s })
            &&& fx.len() == 0
        } else {
            exists|mid: App, fx1: Seq<Effect>, fx2: Seq<Effect>|
                server_selected(s, mid, name, e, fx1) && login_begun(mid, t, name, e, fx2) && fx
                    == fx1 + fx2
        }
    }
}

impl App {
    /// Whether the session named `name` exists and is logged in.
    pub fn session_connected(&self, name: &str) -> (r: bool)
        requires
            self.wf(),
        ensures
            r == (self.sessions.has(name@) && self.sessions.sessions@[self.sessions.index_of(
                name@,
            )].connected),
    {
        match self.sessions.get_session(name) {
            Some(s) => s.connected,
            None => false,
        }
    }

    fn switch_server(&mut self, name: &str)
        requires
            old(self).wf(),
            old(self).sessions.has(name@),
        ensures
            final(self).wf(),
            opt_view(final(self).sessions.active_server) == Some(name@),
            final(self).sessions.sessions == old(self).sessions.sessions,
            final(self).status_message matches Some(m) && m@ == "Switched to "@ + name@,
            *final(self) == (App {
                sessions: final(self).sessions,
                status_message: final(self).status_message,
                ..*old(self)
            }),
    {
        let _ = self.sessions.switch_to(name);
        self.status_message = Some(concat3("Switched to ", name, ""));
        proof {
            reveal_strlit("");
            assert("Switched to "@ + name@ + ""@ =~= "Switched to "@ + name@);
        }
    }

    pub(crate) fn select_server(&mut self, name: &str, entry: &ServerEntry) -> (fx: Vec<Effect>)
        requires
            old(self).wf(),
        ensures
            final(self).wf(),
            server_selected(*old(self), *final(self), name@, *entry, fx@),
    {
        self.config.default_server = Some(String::from_str(name));
        let mut fx: Vec<Effect> = Vec::new();
        fx.push(Effect::SaveConfig);
        let ghost s1 = *self;
        if self.sessions.find(name).is_some() {
            let _ = self.sessions.switch_to(name);
            proof {
                assert(s1.sessions.has(name@));
                assert(self.sessions.has(name@));
            }
        } else {
            let session = Session::new(name, entry);
            self.sessions.add_session(session);
            let ghost s2 = *self;
            let ok = self.sessions.switch_to(name);
            assert(ok);
            self.refreshing = true;
            self.loading = true;
            fx.push(Effect::Refresh { server: String::from_str(name) });
            proof {
                assert(self.sessions.sessions == s2.sessions.sessions);
                assert(fresh_session(self.sessions.sessions@[self.sessions.index_of(name@)], name@, *entry));
                assert(fx@[1] matches Effect::Refresh { server } && server@ == name@);
            }
        }
        fx
    }

    fn begin_login(&mut self, name: &str, entry: &ServerEntry) -> (fx: Vec<Effect>)
        requires
            old(self).wf(),
            old(self).config.servers@.contains_key(name@),
        ensures
            final(self).wf(),
            login_begun(*old(self), *final(self), name@, *entry, fx@),
    {
        match (&entry.username, &entry.password) {
            (Some(u), Some(p)) => {
                let form = AuthForm::with_credentials(String::from_str(name), u.clone(), p.clone());
                self.start_connect(form)
            },
            (Some(u), None) => {
                let mut f = AuthForm::new(String::from_str(name));
                f.username = crate::text_input::TextInput::from(u.clone());
                self.popup = Some(Popup::AuthForm(f));
                Vec::new()
            },
            _ => {
                self.popup = Some(Popup::AuthForm(AuthForm::new(String::from_str(name))));
                Vec::new()
            },
        }
    }

    /// Acts on Enter for a server that is not the active one, or to log in
    /// (`connect_selected`).
    pub fn connect_selected_server(&mut self) -> (fx: Vec<Effect>)
        requires
            old(self).wf(),
        ensures
            final(self).wf(),
            connect_selected(*old(self), *final(self), fx@),
    {
        let name = match self.config.servers.name_at(self.server_selected) {
            Some(n) => n,
            None => return Vec::new(),
        };
        proof {
            self.config.servers.lemma_index_of(self.server_selected as int);
        }
        if self.session_connected(name.as_str()) {
            self.switch_server(name.as_str());
            return Vec::new();
        }
        let entry = self.config.servers.get(name.as_str()).unwrap().duplicate();
        let ghost s0 = *self;
        let mut fx = self.select_server(name.as_str(), &entry);
        let ghost mid = *self;
        let ghost fx1 = fx@;
        let mut more = self.begin_login(name.as_str(), &entry);
        let ghost fx2 = more@;
        fx.append(&mut more);
        proof {
            assert(fx@ == fx1 + fx2);
        }
        fx
    }
}

/// After a successful login as `u` with password `p` on the server `n`: a
/// configured server whose saved credentials differ gets these saved (and
/// the configuration written); otherwise nothing changes.
pub open spec fn creds_kept(s: App, t: App, n: Seq<char>, u: String, p: String, fx: Seq<Effect>) -> bool {
    if s.config.servers@.contains_key(n) && (opt_view(s.config.servers@[n].username) != Some(u@)
        || opt_view(s.config.servers@[n].password) != Some(p@)) {
        let e = s.config.servers@[n];
        &&& t.config.servers@ == s.config.servers@.insert(
            n,
            ServerEntry { url: e.url, username: Some(u), password: Some(p), verify_ssl: e.verify_ssl },
        )
        &&& t.config.default_server == s.config.default_server
        &&& t.config.update_check == s.config.update_check
        &&& t.config.last_update_check == s.config.last_update_check
        &&& t == (App { config: t.config, ..s })
        &&& fx.len() == 1 && fx[0] is SaveConfig
    } else {
        t == s && fx.len() == 0
    }
}

/// After the logged-in session `login` is taken in and made active.
pub open spec fn login_taken(s: App, t: App, login: Session) -> bool {
    let n = login.name@;
    &&& t.sessions.has(n)
    &&& opt_view(t.sessions.active_server) == Some(n)
    &&& s.sessions.has(n) ==> {
        let i = s.sessions.index_of(n);
        &&& t.sessions.sessions@ == s.sessions.sessions@.update(i, t.sessions.sessions@[i])
        &&& merged(s.sessions.sessions@[i], login, t.sessions.sessions@[i])
    }
    &&& !s.sessions.has(n) ==> {
        &&& t.sessions.sessions@[t.sessions.index_of(n)] == login
        &&& forall|m: Seq<char>| m != n ==> (t.sessions.has(m) == s.sessions.has(m))
        &&& forall|m: Seq<char>|
            m != n && #[trigger] s.sessions.has(m) ==> t.sessions.sessions@[t.sessions.index_of(m)]
                == s.sessions.sessions@[s.sessions.index_of(m)]
    }
    &&& t == (App { sessions: t.sessions, ..s })
}

/// After the success popup and status of a login on `n` are shown.
pub open spec fn success_shown(s: App, t: App, n: Seq<char>) -> bool {
    &&& t.popup matches Some(Popup::ConnectSuccess(m, at)) && m@ == n && at == s.tick
    &&& t.status_message matches Some(m) && m@ == "Connected to "@ + n
    &&& t == (App {
        popup: t.popup,
        status_message: t.status_message,
        pending_connect: false,
        ..s
    })
}

/// After the own assignments of the session `n` are recomputed.
pub open spec fn mine_recalculated(s: App, t: App, n: Seq<char>) -> bool {
    &&& t.sessions.active_server == s.sessions.active_server
    &&& s.sessions.has(n) ==> {
        let i = s.sessions.index_of(n);
        let a = s.sessions.sessions@[i];
        let b = t.sessions.sessions@[i];
        &&& t.sessions.sessions@ == s.sessions.sessions@.update(i, b)
        &&& b.my_assignments@ == a.mine()
        &&& b.name == a.name && b.client == a.client && b.connected == a.connected
        &&& b.version == a.version && b.user_email == a.user_email && b.is_admin == a.is_admin
        &&& b.same_data(&a)
    }
    &&& t == (App { sessions: t.sessions, ..s })
}

/// Whether the session `n` holds hosts already.
pub open spec fn had_hosts(s: App, n: Seq<char>) -> bool {
    s.sessions.has(n) && s.sessions.sessions@[s.sessions.index_of(n)].hosts@.len() > 0
}

/// The login form offered again after a failed login: with the error shown
/// and each cursor at the end of its text; for a credentials error filled in
/// and offering to register instead, otherwise with the user name alone.
pub open spec fn login_retry(s: App, t: App, n: Seq<char>, u: Seq<char>, p: Seq<char>, err: ConnectError) -> bool {
    &&& t.popup matches Some(Popup::AuthForm(f)) && f.wf() && f.server_name@ == n
        && f.username.value@ == u && f.username.cursor == encode_utf8(u).len()
        && f.active_field == crate::app::AuthFormField::Username
        && f.error == Some(err.message) && f.register_prompt == err.is_credential_error && (if err.is_credential_error {
        f.password.value@ == p && f.password.cursor == encode_utf8(p).len()
    } else {
        f.password.value@.len() == 0 && f.password.cursor == 0
    })
    &&& t == (App { popup: t.popup, pending_connect: false, ..s })
}

impl App {
    fn keep_creds(&mut self, n: &String, u: String, p: String) -> (fx: Vec<Effect>)
        requires
            old(self).wf(),
        ensures
            final(self).wf(),
            creds_kept(*old(self), *final(self), n@, u, p, fx@),
    {
        let entry = match self.config.servers.get(n.as_str()) {
            Some(e) => e.duplicate(),
            None => return Vec::new(),
        };
        let same_user = match &entry.username {
            Some(x) => crate::text_util::text_eq(x.as_str(), u.as_str()),
            None => false,
        };
        let same_pass = match &entry.password {
            Some(x) => crate::text_util::text_eq(x.as_str(), p.as_str()),
            None => false,
        };
        if same_user && same_pass {
            return Vec::new();
        }
        let e2 = ServerEntry {
            url: entry.url,
            username: Some(u),
            password: Some(p),
            verify_ssl: entry.verify_ssl,
        };
        self.config.add_server(n.clone(), e2);
        let mut fx: Vec<Effect> = Vec::new();
        fx.push(Effect::SaveConfig);
        fx
    }

    fn take_login(&mut self, login: Session)
        requires
            old(self).wf(),
        ensures
            final(self).wf(),
            login_taken(*old(self), *final(self), login),
    {
        let name = login.name.clone();
        self.sessions.merge_login(login);
        let _ = self.sessions.switch_to(name.as_str());
    }

    fn show_success(&mut self, n: &String)
        requires
            old(self).wf(),
        ensures
            final(self).wf(),
            success_shown(*old(self), *final(self), n@),
    {
        self.popup = Some(Popup::ConnectSuccess(n.clone(), self.tick));
        self.status_message = Some(concat3("Connected to ", n.as_str(), ""));
        self.pending_connect = false;
        proof {
            reveal_strlit("");
            assert("Connected to "@ + n@ + ""@ =~= "Connected to "@ + n@);
        }
    }

    fn recalc_mine(&mut self, n: &String)
        requires
            old(self).wf(),
        ensures
            final(self).wf(),
            mine_recalculated(*old(self), *final(self), n@),
    {
        self.sessions.recalc_for(n.as_str());
    }

    fn offer_retry(&mut self, n: String, u: String, p: String, err: ConnectError)
        requires
            old(self).wf(),
        ensures
            final(self).wf(),
            login_retry(*old(self), *final(self), n@, u@, p@, err),
    {
        if err.is_credential_error {
            let mut form = AuthForm::with_credentials(n, u, p);
            form.error = Some(err.message);
            form.register_prompt = true;
            self.popup = Some(Popup::AuthForm(form));
        } else {
            let mut form = AuthForm::new(n);
            form.username = crate::text_input::TextInput::from(u);
            form.error = Some(err.message);
            self.popup = Some(Popup::AuthForm(form));
        }
        self.pending_connect = false;
    }

    /// Acts on the outcome of a login or registration. A failure offers the
    /// login form again (`login_retry`). A success keeps changed credentials
    /// (`creds_kept`), takes the session in (`login_taken`), shows the
    /// success (`success_shown`), recomputes the user's own assignments
    /// (`mine_recalculated`) and fetches the server's data when it had no
    /// hosts yet.
    pub fn handle_connect_result(&mut self, cr: ConnectResult) -> (fx: Vec<Effect>)
        requires
            old(self).wf(),
            cr.result matches Ok(login) ==> login.name@ == cr.server_name@,
        ensures
            final(self).wf(),
            match cr.result {
                Ok(login) => exists|s1: App, s2: App, s3: App, s4: App, fx1: Seq<Effect>, fx2: Seq<
                    Effect,
                >|
                    creds_kept(*old(self), s1, cr.server_name@, cr.username, cr.password, fx1)
                        && login_taken(s1, s2, login) && login.name@ == cr.server_name@
                        && success_shown(s2, s3, cr.server_name@) && mine_recalculated(
                        s3,
                        s4,
                        cr.server_name@,
                    ) && (if had_hosts(s1, cr.server_name@) {
                        *final(self) == s4 && fx2.len() == 0
                    } else {
                        *final(self) == crate::keys::refreshed(s4) && crate::keys::refresh_effects(
                            s4,
                            fx2,
                        )
                    }) && fx@ == fx1 + fx2,
                Err(err) => login_retry(
                    *old(self),
                    *final(self),
                    cr.server_name@,
                    cr.username@,
                    cr.password@,
                    err,
                ) && fx@.len() == 0,
            },
    {
        let ConnectResult { server_name, username, password, result } = cr;
        match result {
            Ok(login) => {
                let ghost s0 = *self;
                let ghost u = username;
                let ghost p = password;
                let mut fx = self.keep_creds(&server_name, username, password);
                let ghost s1 = *self;
                let had = match self.sessions.get_session(server_name.as_str()) {
                    Some(s) => s.hosts.len() > 0,
                    None => false,
                };
                let ghost fx1 = fx@;
                let ghost l = login;
                self.take_login(login);
                let ghost s2 = *self;
                self.show_success(&server_name);
                let ghost s3 = *self;
                self.recalc_mine(&server_name);
                let ghost s4 = *self;
                let mut fx2: Vec<Effect> = Vec::new();
                if !had {
                    match self.start_refresh() {
                        Some(e) => fx2.push(e),
                        None => {},
                    }
                }
                let ghost g2 = fx2@;
                fx.append(&mut fx2);
                proof {
                    assert(creds_kept(s0, s1, server_name@, u, p, fx1));
                    assert(login_taken(s1, s2, l));
                    assert(success_shown(s2, s3, server_name@));
                    assert(mine_recalculated(s3, s4, server_name@));
                    assert(fx@ == fx1 + g2);
                }
                fx
            },
            Err(err) => {
                self.offer_retry(server_name, username, password, err);
                Vec::new()
            },
        }
    }
}

} // verus!
