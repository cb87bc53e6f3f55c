//! Where a key press goes: to the popup, to the self-update offer, or to the
//! screen on show.
use crate::app::Screen;
use crate::assignment_keys::{assignments_key_result, detail_key_result};
use crate::dashboard_keys::dashboard_key_result;
use crate::config::opt_view;
use crate::flows::{concat3, fresh_session};
use crate::form_keys::{
    auth_form_key_result, new_form_key_result, picker_key_result, server_form_key_result,
};
use crate::host_keys::hosts_key_result;
use crate::keys::{
    ch, clouds_act, clouds_next, is_ch, refresh_effects, refresh_list, search_step, ListAct,
};
use crate::popup_keys::{filter_key_result, info_key_result};
use crate::state::{App, AssignmentView, Effect, HostView, Key, Popup};
use vstd::prelude::*;

verus! {

/// What a key does on the host list: while a search is typed it edits the
/// search (`search_step`); otherwise as `hosts_key_result` says.
pub open spec fn hosts_screen_result(s: App, t: App, key: Key, fx: Seq<Effect>) -> bool {
    if s.hosts.search.active {
        &&& search_step(s.hosts.search, t.hosts.search, key, s.host_list().len() as int)
        &&& t == (App { hosts: HostView { search: t.hosts.search, ..s.hosts }, ..s })
        &&& fx.len() == 0
    } else {
        hosts_key_result(s, t, key, s.host_list(), fx)
    }
}

/// What a key does on the assignment list: while a search is typed it edits
/// the search; with an assignment open as `detail_key_result` says;
/// otherwise as `assignments_key_result` says.
pub open spec fn assignments_screen_result(s: App, t: App, key: Key, fx: Seq<Effect>) -> bool {
    if s.assignments.search.active {
        &&& search_step(
            s.assignments.search,
            t.assignments.search,
            key,
            s.assignment_list().len() as int,
        )
        &&& t == (App {
            assignments: AssignmentView { search: t.assignments.search, ..s.assignments },
            ..s
        })
        &&& fx.len() == 0
    } else if s.assignments.detail_selected is Some {
        detail_key_result(s, t, key, s.detail_schedules(), fx)
    } else {
        assignments_key_result(
            s,
            t,
            key,
            s.assignment_list().len() as int,
            s.detail_schedules().len() as int,
            fx,
        )
    }
}

/// What a key does on the cloud list: while a search is typed it edits the
/// search; otherwise as `clouds_next` says.
pub open spec fn clouds_screen_result(s: App, t: App, key: Key, fx: Seq<Effect>) -> bool {
    if s.clouds.search.active {
        &&& search_step(s.clouds.search, t.clouds.search, key, s.cloud_list().len() as int)
        &&& t.clouds.show_all == s.clouds.show_all
        &&& t == (App { clouds: t.clouds, ..s })
        &&& fx.len() == 0
    } else {
        &&& t == clouds_next(s, key, s.cloud_list().len() as int)
        &&& clouds_act(key) == ListAct::Refresh ==> refresh_effects(s, fx)
        &&& clouds_act(key) != ListAct::Refresh ==> fx.len() == 0
    }
}

/// Whether `u` is free on the screen on show: no search is being typed
/// there, and on the assignment list no assignment's hosts are open (where
/// `u` unschedules a host).
pub open spec fn update_key_free(s: App) -> bool {
    match s.screen {
        Screen::Dashboard => true,
        Screen::Hosts => !s.hosts.search.active,
        Screen::Assignments => !s.assignments.search.active && s.assignments.detail_selected is None,
        Screen::Clouds => !s.clouds.search.active,
    }
}

/// What a key does on the screen on show; where `u` is free there
/// (`update_key_free`) and a newer release is known, `u` starts the
/// self-update instead: the working popup says "Updating to v" and its
/// version, and the runner is asked to download and install it.
pub open spec fn screen_key_result(s: App, t: App, key: Key, fx: Seq<Effect>) -> bool {
    match s.update_available {
        Some(info) if is_ch(key, 'u', 'U') && update_key_free(s) => {
            &&& t.popup matches Some(Popup::Working(m)) && m@ == "Updating to v"@
                + info.latest_version@ + "..."@
            &&& t == (App { popup: t.popup, pending_action: true, ..s })
            &&& fx.len() == 1
            &&& fx[0] matches Effect::SelfUpdate { download_url, version } && download_url@
                == info.download_url@ && version@ == info.latest_version@
        },
        _ => match s.screen {
            Screen::Dashboard => dashboard_key_result(s, t, key, fx),
            Screen::Hosts => hosts_screen_result(s, t, key, fx),
            Screen::Assignments => assignments_screen_result(s, t, key, fx),
            Screen::Clouds => clouds_screen_result(s, t, key, fx),
        },
    }
}

/// An action on the active server starts: the working popup shows `label`
/// and the runner is asked to do `e`; without an active session nothing
/// happens.
pub open spec fn action_started(s: App, t: App, label: Seq<char>, e: Effect, fx: Seq<Effect>) -> bool {
    if s.sessions.active() is Some {
        &&& t.popup matches Some(Popup::Working(m)) && m@ == label
        &&& t == (App { popup: t.popup, pending_action: true, ..s })
        &&& fx == seq![e]
    } else {
        t == s && fx.len() == 0
    }
}

/// What a key does in a confirmation popup: Enter carries out `label`'s
/// action `e`, Esc closes it, other keys do nothing.
pub open spec fn confirm_result(s: App, t: App, key: Key, label: Seq<char>, e: Effect, fx: Seq<Effect>) -> bool {
    if key == Key::Enter {
        action_started(s, t, label, e, fx)
    } else if key == Key::Esc {
        t == (App { popup: None, ..s }) && fx.len() == 0
    } else {
        t == s && fx.len() == 0
    }
}

/// What a key does in the configuration help: `c`, `l` and `d` close it and
/// ask for the configuration file, the log file or the configuration
/// directory to be shown; Esc and `q` close it; other keys do nothing.
pub open spec fn help_result(s: App, t: App, key: Key, fx: Seq<Effect>) -> bool {
    let closed = App { popup: None, ..s };
    if is_ch(key, 'c', 'C') {
        t == closed && fx == seq![Effect::OpenConfigFile]
    } else if is_ch(key, 'l', 'L') {
        t == closed && fx == seq![Effect::OpenLogFile]
    } else if is_ch(key, 'd', 'D') {
        t == closed && fx == seq![Effect::OpenConfigDir]
    } else if key == Key::Esc || is_ch(key, 'q', 'Q') {
        t == closed && fx.len() == 0
    } else {
        t == s && fx.len() == 0
    }
}

/// What a key press does (`ctrl` tells whether Ctrl was held): Ctrl+C
/// quits; an open popup takes the key (an error closes on any key, the
/// update-done notice quits, the scheduling and working popups ignore
/// keys); Esc closes the connecting and login-success popups, other keys go
/// on to the screen (`screen_key_result`), as they do with no popup.
pub open spec fn key_result(s: App, t: App, key: Key, ctrl: bool, fx: Seq<Effect>) -> bool {
    if ctrl && key == Key::Char('c') {
        t == (App { running: false, ..s }) && fx.len() == 0
    } else {
        match s.popup {
            Some(Popup::ConfirmTerminate(id)) => confirm_result(
                s,
                t,
                key,
                "Terminating assignment..."@,
                Effect::Terminate { assignment_id: id },
                fx,
            ),
            Some(Popup::ConfirmUnschedule { schedule_id, .. }) => confirm_result(
                s,
                t,
                key,
                "Unscheduling host..."@,
                Effect::Unschedule { schedule_id },
                fx,
            ),
            Some(Popup::Error(_)) => t == (App { popup: None, ..s }) && fx.len() == 0,
            Some(Popup::UpdateComplete(_)) => t == (App { running: false, ..s }) && fx.len() == 0,
            Some(Popup::ServerForm(f)) => server_form_key_result(s, t, f, key, ctrl, fx),
            Some(Popup::AuthForm(f)) => auth_form_key_result(s, t, f, key, ctrl, fx),
            Some(Popup::HostInfo(st)) => info_key_result(s, t, st, key) && fx.len() == 0,
            Some(Popup::HostFilter(p)) => filter_key_result(s, t, p, key) && fx.len() == 0,
            Some(Popup::AssignmentPicker(st)) => picker_key_result(s, t, st, key, fx),
            Some(Popup::NewAssignmentForm(f)) => new_form_key_result(s, t, f, key, ctrl, fx),
            Some(Popup::Scheduling(_)) => t == s && fx.len() == 0,
            Some(Popup::Working(_)) => t == s && fx.len() == 0,
            Some(Popup::ConfigHelp) => help_result(s, t, key, fx),
            _ => if s.popup is Some && key == Key::Esc {
                t == (App { popup: None, ..s }) && fx.len() == 0
            } else {
                screen_key_result(s, t, key, fx)
            },
        }
    }
}

impl App {
    fn update_key(&mut self) -> (fx: Vec<Effect>)
        requires
            old(self).wf(),
            old(self).update_available is Some,
        ensures
            final(self).wf(),
            ({
                let info = old(self).update_available->0;
                &&& final(self).popup matches Some(Popup::Working(m)) && m@ == "Updating to v"@
                    + info.latest_version@ + "..."@
                &&& *final(self) == (App {
                    popup: final(self).popup,
                    pending_action: true,
                    ..*old(self)
                })
                &&& fx@.len() == 1
                &&& fx@[0] matches Effect::SelfUpdate { download_url, version } && download_url@
                    == info.download_url@ && version@ == info.latest_version@
            }),
    {
        let (url, ver) = match &self.update_available {
            Some(info) => (info.download_url.clone(), info.latest_version.clone()),
            None => return Vec::new(),
        };
        self.popup = Some(Popup::Working(concat3("Updating to v", ver.as_str(), "...")));
        self.pending_action = true;
        let mut fx: Vec<Effect> = Vec::new();
        fx.push(Effect::SelfUpdate { download_url: url, version: ver });
        fx
    }

    fn update_key_is_free(&self) -> (r: bool)
        ensures
            r == update_key_free(*self),
    {
        match self.screen {
            Screen::Dashboard => true,
            Screen::Hosts => !self.hosts.search.active,
            Screen::Assignments => !self.assignments.search.active
                && self.assignments.detail_selected.is_none(),
            Screen::Clouds => !self.clouds.search.active,
        }
    }

    /// Acts on a key for the screen on show (`screen_key_result`).
    pub fn handle_screen_key(&mut self, key: Key) -> (fx: Vec<Effect>)
        requires
            old(self).wf(),
        ensures
            final(self).wf(),
            screen_key_result(*old(self), *final(self), key, fx@),
    {
        if ch(key, 'u', 'U') && self.update_available.is_some() && self.update_key_is_free() {
            return self.update_key();
        }
        match self.screen {
            Screen::Dashboard => self.handle_dashboard_key(key),
            Screen::Hosts => self.handle_hosts_key(key),
            Screen::Assignments => self.handle_assignments_key(key),
            Screen::Clouds => self.handle_clouds_key(key),
        }
    }

    fn confirm_key(&mut self, key: Key, terminate: bool, id: i64) -> (fx: Vec<Effect>)
        requires
            old(self).wf(),
        ensures
            final(self).wf(),
            terminate ==> confirm_result(
                *old(self),
                *final(self),
                key,
                "Terminating assignment..."@,
                Effect::Terminate { assignment_id: id },
                fx@,
            ),
            !terminate ==> confirm_result(
                *old(self),
                *final(self),
                key,
                "Unscheduling host..."@,
                Effect::Unschedule { schedule_id: id },
                fx@,
            ),
    {
        if key == Key::Enter {
            if terminate {
                self.start_terminate(id)
            } else {
                self.start_unschedule(id)
            }
        } else if key == Key::Esc {
            self.popup = None;
            Vec::new()
        } else {
            Vec::new()
        }
    }

    fn help_key(&mut self, key: Key) -> (fx: Vec<Effect>)
        requires
            old(self).wf(),
        ensures
            final(self).wf(),
            help_result(*old(self), *final(self), key, fx@),
    {
        let mut fx: Vec<Effect> = Vec::new();
        if ch(key, 'c', 'C') {
            fx.push(Effect::OpenConfigFile);
            self.popup = None;
        } else if ch(key, 'l', 'L') {
            fx.push(Effect::OpenLogFile);
            self.popup = None;
        } else if ch(key, 'd', 'D') {
            fx.push(Effect::OpenConfigDir);
            self.popup = None;
        } else if key == Key::Esc || ch(key, 'q', 'Q') {
            self.popup = None;
        }
        fx
    }

    /// Acts on a key press (`key_result`); `ctrl` tells whether Ctrl was
    /// held.
    pub fn handle_key(&mut self, key: Key, ctrl: bool) -> (fx: Vec<Effect>)
        requires
            old(self).wf(),
        ensures
            final(self).wf(),
            key_result(*old(self), *final(self), key, ctrl, fx@),
    {
        if ctrl && key == Key::Char('c') {
            self.running = false;
            return Vec::new();
        }
        match &self.popup {
            Some(Popup::ConfirmTerminate(id)) => {
                let id = *id;
                self.confirm_key(key, true, id)
            },
            Some(Popup::ConfirmUnschedule { schedule_id, .. }) => {
                let id = *schedule_id;
                self.confirm_key(key, false, id)
            },
            Some(Popup::Error(_)) => {
                self.popup = None;
                Vec::new()
            },
            Some(Popup::UpdateComplete(_)) => {
                self.running = false;
                Vec::new()
            },
            Some(Popup::ServerForm(_)) => self.handle_server_form_key(key, ctrl),
            Some(Popup::AuthForm(_)) => self.handle_auth_form_key(key, ctrl),
            Some(Popup::HostInfo(_)) => {
                self.handle_host_info_key(key);
                Vec::new()
            },
            Some(Popup::HostFilter(_)) => {
                self.handle_host_filter_key(key);
                Vec::new()
            },
            Some(Popup::AssignmentPicker(_)) => self.handle_assignment_picker_key(key),
            Some(Popup::NewAssignmentForm(_)) => self.handle_new_assignment_form_key(key, ctrl),
            Some(Popup::Scheduling(_)) => Vec::new(),
            Some(Popup::Working(_)) => Vec::new(),
            Some(Popup::ConfigHelp) => self.help_key(key),
            Some(_) => {
                if key == Key::Esc {
                    self.popup = None;
                    Vec::new()
                } else {
                    self.handle_screen_key(key)
                }
            },
            None => self.handle_screen_key(key),
        }
    }
}

/// What a key press does in the running interface: while a login succeeds
/// any key closes its popup; while connecting, Esc stops waiting for the
/// login (and other keys do nothing); otherwise as `key_result` says.
pub open spec fn press_result(s: App, t: App, key: Key, ctrl: bool, fx: Seq<Effect>) -> bool {
    match s.popup {
        Some(Popup::ConnectSuccess(_, _)) => t == (App { popup: None, ..s }) && fx.len() == 0,
        Some(Popup::Connecting(_)) => fx.len() == 0 && if key == Key::Esc {
            t == (App { popup: None, pending_connect: false, ..s })
        } else {
            t == s
        },
        _ => key_result(s, t, key, ctrl, fx),
    }
}

/// At start, the default server (when configured) is put under the cursor,
/// gets a fresh session (replacing one of the same name) that becomes the
/// active one, and its data is fetched; otherwise nothing changes.
pub open spec fn default_opened(s: App, t: App, fx: Seq<Effect>) -> bool {
    match s.config.default_server {
        Some(d) if s.config.servers@.contains_key(d@) => {
            let name = d@;
            &&& t.server_selected < s.config.servers.keys().len()
            &&& s.config.servers.keys()[t.server_selected as int] == name
            &&& t.sessions.has(name)
            &&& fresh_session(
                t.sessions.sessions@[t.sessions.index_of(name)],
                name,
                s.config.servers@[name],
            )
            &&& forall|n: Seq<char>| n != name ==> (t.sessions.has(n) == s.sessions.has(n))
            &&& forall|n: Seq<char>|
                n != name && #[trigger] s.sessions.has(n) ==> t.sessions.sessions@[t.sessions.index_of(
                    n,
                )] == s.sessions.sessions@[s.sessions.index_of(n)]
            &&& opt_view(t.sessions.active_server) == Some(name)
            &&& t == (App {
                server_selected: t.server_selected,
                sessions: t.sessions,
                refreshing: true,
                loading: true,
                ..s
            })
            &&& fx.len() == 1
            &&& fx[0] matches Effect::Refresh { server } && server@ == name
        },
        _ => t == s && fx.len() == 0,
    }
}

impl App {
    /// Acts on a key press in the running interface (`press_result`).
    pub fn on_key_press(&mut self, key: Key, ctrl: bool) -> (fx: Vec<Effect>)
        requires
            old(self).wf(),
        ensures
            final(self).wf(),
            press_result(*old(self), *final(self), key, ctrl, fx@),
    {
        match &self.popup {
            Some(Popup::ConnectSuccess(_, _)) => {
                self.popup = None;
                Vec::new()
            },
            Some(Popup::Connecting(_)) => {
                if key == Key::Esc {
                    self.popup = None;
                    self.pending_connect = false;
                }
                Vec::new()
            },
            _ => self.handle_key(key, ctrl),
        }
    }

    /// Opens the default server at start (`default_opened`).
    pub fn open_default_server(&mut self) -> (fx: Vec<Effect>)
        requires
            old(self).wf(),
        ensures
            final(self).wf(),
            default_opened(*old(self), *final(self), fx@),
    {
        let name = match &self.config.default_server {
            Some(d) => d.clone(),
            None => return Vec::new(),
        };
        let entry = match self.config.servers.get(name.as_str()) {
            Some(e) => e.duplicate(),
            None => return Vec::new(),
        };
        match self.config.servers.position(name.as_str()) {
            Some(i) => {
                self.server_selected = i;
            },
            None => {},
        }
        let session = crate::session::Session::new(name.as_str(), &entry);
        self.sessions.add_session(session);
        let ok = self.sessions.switch_to(name.as_str());
        proof {
            assert(ok);
            assert(self.sessions.active() is Some);
        }
        refresh_list(self)
    }
}

} // verus!
