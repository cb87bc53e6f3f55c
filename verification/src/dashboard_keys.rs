//! What a key does on the dashboard.
use crate::app::{Screen, ServerForm, ServerFormField};
use crate::flows::{concat3, connect_selected, disconnected, server_selected};
use crate::keys::{ch, is_ch, refresh_effects, shared_next, ListAct};
use crate::state::{App, Effect, Key, Popup};
use crate::text_input::TextInput;
use crate::text_util::text_eq;
use vstd::prelude::*;

verus! {

/// What a key asks of the dashboard.
#[derive(Debug, Clone, Copy, PartialEq, Eq, Structural)]
pub enum DashAct {
    /// An action every screen shares.
    Shared(ListAct),
    /// Move the cursor up the server list.
    Up,
    /// Move the cursor down the server list.
    Down,
    /// Act on the server at the cursor.
    Enter,
    /// Open an empty server form.
    NewServer,
    /// Open the server form on the server at the cursor.
    EditServer,
    /// Show where the configuration and log live.
    Help,
}

/// What a key asks of the dashboard.
pub open spec fn dash_act(key: Key) -> DashAct {
    if is_ch(key, 'q', 'Q') || key == Key::Esc {
        DashAct::Shared(ListAct::Quit)
    } else if is_ch(key, 'h', 'H') {
        DashAct::Shared(ListAct::Goto(Screen::Hosts))
    } else if is_ch(key, 'a', 'A') {
        DashAct::Shared(ListAct::Goto(Screen::Assignments))
    } else if is_ch(key, 'c', 'C') {
        DashAct::Shared(ListAct::Goto(Screen::Clouds))
    } else if is_ch(key, 'r', 'R') {
        DashAct::Shared(ListAct::Refresh)
    } else if is_ch(key, 'x', 'X') {
        DashAct::Shared(ListAct::AutoRefresh)
    } else if key == Key::Up || is_ch(key, 'k', 'K') {
        DashAct::Up
    } else if key == Key::Down || is_ch(key, 'j', 'J') {
        DashAct::Down
    } else if key == Key::Enter {
        DashAct::Enter
    } else if is_ch(key, 'n', 'N') {
        DashAct::NewServer
    } else if is_ch(key, 'e', 'E') {
        DashAct::EditServer
    } else if key == Key::Char('?') {
        DashAct::Help
    } else if key == Key::Right {
        DashAct::Shared(ListAct::NextScreen)
    } else if key == Key::Left {
        DashAct::Shared(ListAct::PrevScreen)
    } else {
        DashAct::Shared(ListAct::Nothing)
    }
}

fn dash_act_of(key: Key) -> (r: DashAct)
    ensures
        r == dash_act(key),
{
    if ch(key, 'q', 'Q') || key == Key::Esc {
        DashAct::Shared(ListAct::Quit)
    } else if ch(key, 'h', 'H') {
        DashAct::Shared(ListAct::Goto(Screen::Hosts))
    } else if ch(key, 'a', 'A') {
        DashAct::Shared(ListAct::Goto(Screen::Assignments))
    } else if ch(key, 'c', 'C') {
        DashAct::Shared(ListAct::Goto(Screen::Clouds))
    } else if ch(key, 'r', 'R') {
        DashAct::Shared(ListAct::Refresh)
    } else if ch(key, 'x', 'X') {
        DashAct::Shared(ListAct::AutoRefresh)
    } else if key == Key::Up || ch(key, 'k', 'K') {
        DashAct::Up
    } else if key == Key::Down || ch(key, 'j', 'J') {
        DashAct::Down
    } else if key == Key::Enter {
        DashAct::Enter
    } else if ch(key, 'n', 'N') {
        DashAct::NewServer
    } else if ch(key, 'e', 'E') {
        DashAct::EditServer
    } else if key == Key::Char('?') {
        DashAct::Help
    } else if key == Key::Right {
        DashAct::Shared(ListAct::NextScreen)
    } else if key == Key::Left {
        DashAct::Shared(ListAct::PrevScreen)
    } else {
        DashAct::Shared(ListAct::Nothing)
    }
}

/// Enter on the dashboard: on the active server it logs out when logged in
/// (`disconnected`) and else begins logging in (`connect_selected`); on
/// another server it selects it (`server_selected`) and the status line
/// says "Selected " and its name; without a server at the cursor nothing
/// happens.
pub open spec fn dash_enter(s: App, t: App, fx: Seq<Effect>) -> bool {
    if s.server_selected >= s.config.servers.keys().len() {
        t == s && fx.len() == 0
    } else {
        let name = s.config.servers.keys()[s.server_selected as int];
        match s.sessions.active() {
            Some(a) if a.name@ == name => if a.connected {
                disconnected(s, t) && fx.len() == 0
            } else {
                connect_selected(s, t, fx)
            },
            _ => {
                &&& server_selected(
                    s,
                    App { status_message: s.status_message, ..t },
                    name,
                    s.config.servers@[name],
                    fx,
                )
                &&& t.status_message matches Some(m) && m@ == "Selected "@ + name
            },
        }
    }
}

/// An empty server form.
pub open spec fn blank_server_form(f: ServerForm) -> bool {
    &&& f.wf()
    &&& f.name.value@.len() == 0
    &&& f.url.value@.len() == 0
    &&& f.verify_ssl
    &&& f.active_field == ServerFormField::Name
    &&& f.editing_existing is None
}

/// The server form editing the server `name` whose URL is `url` and whose
/// certificate switch is `verify_ssl`.
pub open spec fn edit_server_form(f: ServerForm, name: Seq<char>, url: Seq<char>, verify_ssl: bool) -> bool {
    &&& f.wf()
    &&& f.name.value@ == name
    &&& f.url.value@ == url
    &&& f.verify_ssl == verify_ssl
    &&& f.active_field == ServerFormField::Name
    &&& f.editing_existing matches Some(o) && o@ == name
}

/// What a key does on the dashboard (`dash_act`): the shared actions as on
/// every screen (Esc quits, as `q` does); up and down move the cursor within the configured servers;
/// Enter as `dash_enter` says; `n` opens an empty server form, `e` one on
/// the server at the cursor (if any), `?` the configuration help.
pub open spec fn dashboard_key_result(s: App, t: App, key: Key, fx: Seq<Effect>) -> bool {
    let count = s.config.servers.keys().len();
    match dash_act(key) {
        DashAct::Shared(act) => {
            &&& t == shared_next(s, act)
            &&& act == ListAct::Refresh ==> refresh_effects(s, fx)
            &&& act != ListAct::Refresh ==> fx.len() == 0
        },
        DashAct::Up => fx.len() == 0 && t == (if s.server_selected > 0 {
            App { server_selected: (s.server_selected - 1) as usize, ..s }
        } else {
            s
        }),
        DashAct::Down => fx.len() == 0 && t == (if count > 0 && s.server_selected < count - 1 {
            App { server_selected: (s.server_selected + 1) as usize, ..s }
        } else {
            s
        }),
        DashAct::Enter => dash_enter(s, t, fx),
        DashAct::NewServer => {
            &&& t.popup matches Some(Popup::ServerForm(f)) && blank_server_form(f)
            &&& t == (App { popup: t.popup, ..s })
            &&& fx.len() == 0
        },
        DashAct::EditServer => fx.len() == 0 && if s.server_selected < count {
            let name = s.config.servers.keys()[s.server_selected as int];
            let e = s.config.servers@[name];
            &&& t.popup matches Some(Popup::ServerForm(f)) && edit_server_form(
                f,
                name,
                e.url@,
                e.verify_ssl,
            )
            &&& t == (App { popup: t.popup, ..s })
        } else {
            t == s
        },
        DashAct::Help => t == (App { popup: Some(Popup::ConfigHelp), ..s }) && fx.len() == 0,
    }
}

impl App {
    fn dash_shared(&mut self, key: Key, act: ListAct) -> (fx: Vec<Effect>)
        requires
            old(self).wf(),
            dash_act(key) == DashAct::Shared(act),
        ensures
            final(self).wf(),
            dashboard_key_result(*old(self), *final(self), key, fx@),
    {
        self.shared_step(act)
    }

    fn dash_up_down(&mut self, key: Key, up: bool)
        requires
            old(self).wf(),
            up ==> dash_act(key) == DashAct::Up,
            !up ==> dash_act(key) == DashAct::Down,
        ensures
            final(self).wf(),
            dashboard_key_result(*old(self), *final(self), key, seq![]),
    {
        let count = self.config.servers.len();
        if up {
            if self.server_selected > 0 {
                self.server_selected = self.server_selected - 1;
            }
        } else if count > 0 && self.server_selected < count - 1 {
            self.server_selected = self.server_selected + 1;
        }
    }

    /// Whether the active session is named `name`, and whether it is logged
    /// in.
    fn active_is(&self, name: &str) -> (r: (bool, bool))
        requires
            self.wf(),
        ensures
            r.0 == (self.sessions.active() matches Some(a) && a.name@ == name@),
            r.0 ==> r.1 == self.sessions.active()->0.connected,
    {
        match self.sessions.active_session() {
            Some(a) => (text_eq(a.name.as_str(), name), a.connected),
            None => (false, false),
        }
    }

    fn dash_select(&mut self, name: String) -> (fx: Vec<Effect>)
        requires
            old(self).wf(),
            old(self).server_selected < old(self).config.servers.keys().len(),
            name@ == old(self).config.servers.keys()[old(self).server_selected as int],
            !(old(self).sessions.active() matches Some(a) && a.name@ == name@),
        ensures
            final(self).wf(),
            dash_enter(*old(self), *final(self), fx@),
    {
        proof {
            self.config.servers.lemma_index_of(self.server_selected as int);
        }
        let entry = self.config.servers.get(name.as_str()).unwrap().duplicate();
        let fx = self.select_server(name.as_str(), &entry);
        self.status_message = Some(concat3("Selected ", name.as_str(), ""));
        proof {
            reveal_strlit("");
            assert("Selected "@ + name@ + ""@ =~= "Selected "@ + name@);
        }
        fx
    }

    fn dash_enter_key(&mut self) -> (fx: Vec<Effect>)
        requires
            old(self).wf(),
        ensures
            final(self).wf(),
            dash_enter(*old(self), *final(self), fx@),
    {
        let name = match self.config.servers.name_at(self.server_selected) {
            Some(n) => n,
            None => return Vec::new(),
        };
        let (active, connected) = self.active_is(name.as_str());
        if active {
            if connected {
                self.disconnect_current();
                Vec::new()
            } else {
                self.connect_selected_server()
            }
        } else {
            self.dash_select(name)
        }
    }

    fn dash_edit(&mut self)
        requires
            old(self).wf(),
        ensures
            final(self).wf(),
            old(self).server_selected < old(self).config.servers.keys().len() ==> {
                let name = old(self).config.servers.keys()[old(self).server_selected as int];
                let e = old(self).config.servers@[name];
                &&& final(self).popup matches Some(Popup::ServerForm(f)) && edit_server_form(
                    f,
                    name,
                    e.url@,
                    e.verify_ssl,
                )
                &&& *final(self) == (App { popup: final(self).popup, ..*old(self) })
            },
            old(self).server_selected >= old(self).config.servers.keys().len() ==> *final(self)
                == *old(self),
    {
        let name = match self.config.servers.name_at(self.server_selected) {
            Some(n) => n,
            None => return ,
        };
        proof {
            self.config.servers.lemma_index_of(self.server_selected as int);
        }
        let (url, verify_ssl) = match self.config.servers.get(name.as_str()) {
            Some(e) => (e.url.clone(), e.verify_ssl),
            None => return ,
        };
        let mut form = ServerForm::new();
        form.name = TextInput::from(name.clone());
        form.url = TextInput::from(url);
        form.verify_ssl = verify_ssl;
        form.editing_existing = Some(name);
        self.popup = Some(Popup::ServerForm(form));
    }

    /// Acts on a key on the dashboard (`dashboard_key_result`).
    pub fn handle_dashboard_key(&mut self, key: Key) -> (fx: Vec<Effect>)
        requires
            old(self).wf(),
        ensures
            final(self).wf(),
            dashboard_key_result(*old(self), *final(self), key, fx@),
    {
        let act = dash_act_of(key);
        match act {
            DashAct::Shared(a) => self.dash_shared(key, a),
            DashAct::Up => {
                self.dash_up_down(key, true);
                Vec::new()
            },
            DashAct::Down => {
                self.dash_up_down(key, false);
                Vec::new()
            },
            DashAct::Enter => self.dash_enter_key(),
            DashAct::NewServer => {
                self.popup = Some(Popup::ServerForm(ServerForm::new()));
                Vec::new()
            },
            DashAct::EditServer => {
                self.dash_edit();
                Vec::new()
            },
            DashAct::Help => {
                self.popup = Some(Popup::ConfigHelp);
                Vec::new()
            },
        }
    }
}

} // verus!
