//! What a key does in the assignment picker and in the forms.
use crate::app::{
    AssignmentPickerItem, AssignmentPickerState, NewAssignmentField, NewAssignmentForm,
    AuthForm, AuthFormField, ServerForm, ServerFormField,
};
use crate::config::{copy_opt, opt_view, AppConfig, ServerEntry};
use crate::flows::{connect_selected, login_started};
use crate::text_util::text_eq;
use crate::keys::is_ch;
use crate::outcomes::{existing_started, new_started};
use crate::popup_keys::{edit_input, edited, is_edit_key};
use crate::state::{App, Effect, Key, Popup};
use vstd::prelude::*;

verus! {

/// What a moving key does to the picker while it stays open: up and down
/// move the cursor within the entries.
pub open spec fn picker_next(st: AssignmentPickerState, key: Key) -> AssignmentPickerState {
    if key == Key::Up || is_ch(key, 'k', 'K') {
        if st.cursor > 0 {
            AssignmentPickerState { cursor: (st.cursor - 1) as usize, ..st }
        } else {
            st
        }
    } else if key == Key::Down || is_ch(key, 'j', 'J') {
        if st.items@.len() > 0 && st.cursor < st.items@.len() - 1 {
            AssignmentPickerState { cursor: (st.cursor + 1) as usize, ..st }
        } else {
            st
        }
    } else {
        st
    }
}

/// An empty new-assignment form for `hosts`.
pub open spec fn fresh_new_form(f: NewAssignmentForm, hosts: Vec<String>) -> bool {
    &&& f.wf()
    &&& f.selected_hosts == hosts
    &&& f.description.value@.len() == 0
    &&& !f.qinq
    &&& f.wipe
    &&& f.active_field == NewAssignmentField::Description
}

/// What a key does in the assignment picker `st`: Esc closes it; Enter on
/// an existing assignment schedules the picked hosts into its cloud, on the
/// last entry opens the new-assignment form for them; up and down move the
/// cursor; other keys do nothing.
pub open spec fn picker_key_result(
    s: App,
    t: App,
    st: AssignmentPickerState,
    key: Key,
    fx: Seq<Effect>,
) -> bool {
    let closed = App { popup: None, ..s };
    if key == Key::Esc {
        t == closed && fx.len() == 0
    } else if key == Key::Enter {
        if st.cursor < st.items@.len() {
            match st.items@[st.cursor as int] {
                AssignmentPickerItem::Existing { cloud_name, .. } => existing_started(
                    closed,
                    t,
                    cloud_name@,
                    st.selected_hosts@,
                    fx,
                ),
                AssignmentPickerItem::NewAssignment => {
                    &&& t.popup matches Some(Popup::NewAssignmentForm(f)) && fresh_new_form(
                        f,
                        st.selected_hosts,
                    )
                    &&& t == (App { popup: t.popup, ..s })
                    &&& fx.len() == 0
                },
            }
        } else {
            t == closed && fx.len() == 0
        }
    } else {
        t == (App { popup: Some(Popup::AssignmentPicker(picker_next(st, key))), ..s }) && fx.len()
            == 0
    }
}

/// Moves the picker's cursor.
fn picker_step(st: &mut AssignmentPickerState, key: Key)
    ensures
        *final(st) == picker_next(*old(st), key),
{
    if key == Key::Up || crate::keys::ch(key, 'k', 'K') {
        if st.cursor > 0 {
            st.cursor = st.cursor - 1;
        }
    } else if key == Key::Down || crate::keys::ch(key, 'j', 'J') {
        if st.items.len() > 0 && st.cursor < st.items.len() - 1 {
            st.cursor = st.cursor + 1;
        }
    }
}

/// The cloud of the picker entry under the cursor: its name for an existing
/// assignment, none for the new-assignment entry.
fn picked_cloud(st: &AssignmentPickerState) -> (r: Option<String>)
    requires
        st.cursor < st.items@.len(),
    ensures
        match st.items@[st.cursor as int] {
            AssignmentPickerItem::Existing { cloud_name, .. } => r matches Some(c) && c@
                == cloud_name@,
            AssignmentPickerItem::NewAssignment => r is None,
        },
{
    match &st.items[st.cursor] {
        AssignmentPickerItem::Existing { cloud_name, .. } => Some(cloud_name.clone()),
        AssignmentPickerItem::NewAssignment => None,
    }
}

impl App {
    /// Acts on Enter in the assignment picker `st`, whose popup is already
    /// closed.
    fn picker_enter(&mut self, st: AssignmentPickerState) -> (fx: Vec<Effect>)
        requires
            old(self).wf(),
            old(self).popup is None,
        ensures
            final(self).wf(),
            picker_key_result(*old(self), *final(self), st, Key::Enter, fx@),
    {
        if st.cursor < st.items.len() {
            match picked_cloud(&st) {
                Some(c) => self.start_schedule_existing(c, st.selected_hosts),
                None => {
                    self.popup = Some(Popup::NewAssignmentForm(NewAssignmentForm::new(st.selected_hosts)));
                    Vec::new()
                },
            }
        } else {
            Vec::new()
        }
    }

    /// Acts on a key in the assignment picker (`picker_key_result`).
    pub fn handle_assignment_picker_key(&mut self, key: Key) -> (fx: Vec<Effect>)
        requires
            old(self).wf(),
            old(self).popup matches Some(Popup::AssignmentPicker(_)),
        ensures
            final(self).wf(),
            old(self).popup matches Some(Popup::AssignmentPicker(st)) && picker_key_result(
                *old(self),
                *final(self),
                st,
                key,
                fx@,
            ),
    {
        let popup = self.popup.take();
        match popup {
            Some(Popup::AssignmentPicker(mut st)) => {
                if key == Key::Esc {
                    Vec::new()
                } else if key == Key::Enter {
                    self.picker_enter(st)
                } else {
                    picker_step(&mut st, key);
                    self.popup = Some(Popup::AssignmentPicker(st));
                    Vec::new()
                }
            },
            other => {
                self.popup = other;
                Vec::new()
            },
        }
    }
}

/// What a key does to the new-assignment form while it stays open: Tab and
/// Down move to the next field, BackTab and Up to the previous one (both
/// wrapping around); Space flips the Q-in-Q or wipe switch under focus; in
/// the description field the editing keys edit it (Space too); other keys
/// do nothing.
pub open spec fn new_form_stepped(a: NewAssignmentForm, b: NewAssignmentForm, key: Key, ctrl: bool) -> bool {
    if key == Key::Tab || key == Key::Down {
        b.active_field.pos() == (a.active_field.pos() + 1) % 3 && b == (NewAssignmentForm {
            active_field: b.active_field,
            ..a
        })
    } else if key == Key::BackTab || key == Key::Up {
        b.active_field.pos() == (a.active_field.pos() + 2) % 3 && b == (NewAssignmentForm {
            active_field: b.active_field,
            ..a
        })
    } else if key == Key::Char(' ') && a.active_field == NewAssignmentField::Wipe {
        b == (NewAssignmentForm { wipe: !a.wipe, ..a })
    } else if key == Key::Char(' ') && a.active_field == NewAssignmentField::Qinq {
        b == (NewAssignmentForm { qinq: !a.qinq, ..a })
    } else if is_edit_key(key) && a.active_field == NewAssignmentField::Description {
        edited(a.description, b.description, key, ctrl) && b == (NewAssignmentForm {
            description: b.description,
            ..a
        })
    } else {
        b == a
    }
}

/// What a key does in the new-assignment form `f`: Esc closes it; Enter
/// shows "Description is required" when the description is empty, and
/// otherwise closes the form and starts creating the assignment and
/// scheduling its hosts; other keys act as `new_form_stepped` says.
pub open spec fn new_form_key_result(
    s: App,
    t: App,
    f: NewAssignmentForm,
    key: Key,
    ctrl: bool,
    fx: Seq<Effect>,
) -> bool {
    let closed = App { popup: None, ..s };
    if key == Key::Esc {
        t == closed && fx.len() == 0
    } else if key == Key::Enter {
        if f.description.value@.len() == 0 {
            &&& t.popup matches Some(Popup::Error(m)) && m@ == "Description is required"@
            &&& t == (App { popup: t.popup, ..s })
            &&& fx.len() == 0
        } else {
            new_started(closed, t, f, fx)
        }
    } else {
        &&& t.popup matches Some(Popup::NewAssignmentForm(g)) && new_form_stepped(f, g, key, ctrl)
        &&& t == (App { popup: t.popup, ..s })
        &&& fx.len() == 0
    }
}

/// Applies a key to the new-assignment form while it stays open.
pub fn new_form_step(f: &mut NewAssignmentForm, key: Key, ctrl: bool)
    requires
        old(f).wf(),
    ensures
        final(f).wf(),
        new_form_stepped(*old(f), *final(f), key, ctrl),
{
    if key == Key::Tab || key == Key::Down {
        f.active_field = f.active_field.next();
    } else if key == Key::BackTab || key == Key::Up {
        f.active_field = f.active_field.prev();
    } else if key == Key::Char(' ') && f.active_field == NewAssignmentField::Wipe {
        f.wipe = !f.wipe;
    } else if key == Key::Char(' ') && f.active_field == NewAssignmentField::Qinq {
        f.qinq = !f.qinq;
    } else if f.active_field == NewAssignmentField::Description {
        edit_input(&mut f.description, key, ctrl);
    }
}

impl App {
    /// Acts on Enter in the new-assignment form `f`, whose popup is already
    /// closed.
    fn new_form_enter(&mut self, f: NewAssignmentForm) -> (fx: Vec<Effect>)
        requires
            old(self).wf(),
            old(self).popup is None,
        ensures
            final(self).wf(),
            new_form_key_result(*old(self), *final(self), f, Key::Enter, false, fx@),
    {
        if f.description.is_empty() {
            self.set_error(String::from_str("Description is required"));
            Vec::new()
        } else {
            self.start_schedule_new(f)
        }
    }

    /// Acts on a key in the new-assignment form (`new_form_key_result`);
    /// `ctrl` tells whether Ctrl was held.
    pub fn handle_new_assignment_form_key(&mut self, key: Key, ctrl: bool) -> (fx: Vec<Effect>)
        requires
            old(self).wf(),
            old(self).popup matches Some(Popup::NewAssignmentForm(_)),
        ensures
            final(self).wf(),
            old(self).popup matches Some(Popup::NewAssignmentForm(f)) && new_form_key_result(
                *old(self),
                *final(self),
                f,
                key,
                ctrl,
                fx@,
            ),
    {
        let popup = self.popup.take();
        match popup {
            Some(Popup::NewAssignmentForm(mut f)) => {
                if key == Key::Esc {
                    Vec::new()
                } else if key == Key::Enter {
                    self.new_form_enter(f)
                } else {
                    new_form_step(&mut f, key, ctrl);
                    self.popup = Some(Popup::NewAssignmentForm(f));
                    Vec::new()
                }
            },
            other => {
                self.popup = other;
                Vec::new()
            },
        }
    }
}

/// What a key does to the server form while it stays open: Tab and Down
/// move to the next field, BackTab and Up to the previous one (both wrapping
/// around); Space flips the certificate switch when it has the focus; the
/// editing keys edit the name or URL field under focus; other keys do
/// nothing.
pub open spec fn server_form_stepped(a: ServerForm, b: ServerForm, key: Key, ctrl: bool) -> bool {
    if key == Key::Tab || key == Key::Down {
        b.active_field.pos() == (a.active_field.pos() + 1) % 3 && b == (ServerForm {
            active_field: b.active_field,
            ..a
        })
    } else if key == Key::BackTab || key == Key::Up {
        b.active_field.pos() == (a.active_field.pos() + 2) % 3 && b == (ServerForm {
            active_field: b.active_field,
            ..a
        })
    } else if key == Key::Char(' ') && a.active_field == ServerFormField::VerifySsl {
        b == (ServerForm { verify_ssl: !a.verify_ssl, ..a })
    } else if is_edit_key(key) && a.active_field == ServerFormField::Name {
        edited(a.name, b.name, key, ctrl) && b == (ServerForm { name: b.name, ..a })
    } else if is_edit_key(key) && a.active_field == ServerFormField::Url {
        edited(a.url, b.url, key, ctrl) && b == (ServerForm { url: b.url, ..a })
    } else {
        b == a
    }
}

/// Applies a key to the server form while it stays open.
pub fn server_form_step(f: &mut ServerForm, key: Key, ctrl: bool)
    requires
        old(f).wf(),
    ensures
        final(f).wf(),
        server_form_stepped(*old(f), *final(f), key, ctrl),
{
    if key == Key::Tab || key == Key::Down {
        f.active_field = f.active_field.next();
    } else if key == Key::BackTab || key == Key::Up {
        f.active_field = f.active_field.prev();
    } else if key == Key::Char(' ') && f.active_field == ServerFormField::VerifySsl {
        f.verify_ssl = !f.verify_ssl;
    } else if f.active_field == ServerFormField::Name {
        edit_input(&mut f.name, key, ctrl);
    } else if f.active_field == ServerFormField::Url {
        edit_input(&mut f.url, key, ctrl);
    }
}

/// `d` is `c` after `AppConfig::remove_server(name)`.
pub open spec fn server_removed(c: AppConfig, d: AppConfig, name: Seq<char>) -> bool {
    &&& d.wf()
    &&& d.servers@ == c.servers@.remove(name)
    &&& opt_view(c.default_server) == Some(name) ==> {
        &&& d.servers.keys().len() == 0 ==> d.default_server is None
        &&& d.servers.keys().len() > 0 ==> opt_view(d.default_server) == Some(d.servers.keys()[0])
    }
    &&& opt_view(c.default_server) != Some(name) ==> d.default_server == c.default_server
    &&& d.update_check == c.update_check
    &&& d.last_update_check == c.last_update_check
}

/// `d` is `c` after `AppConfig::add_server(name, e)`.
pub open spec fn server_added(c: AppConfig, d: AppConfig, name: Seq<char>, e: ServerEntry) -> bool {
    &&& d.wf()
    &&& d.servers@ == c.servers@.insert(name, e)
    &&& c.servers.keys().len() == 0 ==> opt_view(d.default_server) == Some(name)
    &&& c.servers.keys().len() > 0 ==> d.default_server == c.default_server
    &&& d.update_check == c.update_check
    &&& d.last_update_check == c.last_update_check
}

/// The entry a submitted server form saves, given the servers it is added
/// to: the form's URL and certificate switch, and the credentials saved for
/// a server of that name, if any.
pub open spec fn form_entry(servers: Map<Seq<char>, ServerEntry>, f: ServerForm) -> ServerEntry {
    let n = f.name.value@;
    ServerEntry {
        url: f.url.value,
        username: if servers.contains_key(n) {
            servers[n].username
        } else {
            None
        },
        password: if servers.contains_key(n) {
            servers[n].password
        } else {
            None
        },
        verify_ssl: f.verify_ssl,
    }
}

/// Whether the form renames the server it edits.
pub open spec fn renames(f: ServerForm) -> bool {
    f.editing_existing matches Some(o) && o@ != f.name.value@
}

/// `d` is the configuration `c` with a submitted server form saved in it:
/// a renamed server's old name is removed first, then the form's entry is
/// added under its name.
pub open spec fn form_saved(c: AppConfig, d: AppConfig, f: ServerForm) -> bool {
    match f.editing_existing {
        Some(o) => if o@ != f.name.value@ {
            exists|m: AppConfig|
                server_removed(c, m, o@) && server_added(
                    m,
                    d,
                    f.name.value@,
                    form_entry(m.servers@, f),
                )
        } else {
            server_added(c, d, f.name.value@, form_entry(c.servers@, f))
        },
        None => server_added(c, d, f.name.value@, form_entry(c.servers@, f)),
    }
}

/// Saves a submitted server form in the configuration (`form_saved`).
pub fn save_server_form(c: &mut AppConfig, f: ServerForm)
    requires
        old(c).wf(),
    ensures
        form_saved(*old(c), *final(c), f),
{
    let ghost f0 = f;
    let ServerForm { name, url, verify_ssl, editing_existing, .. } = f;
    match &editing_existing {
        Some(o) => {
            if !text_eq(o.as_str(), name.value.as_str()) {
                c.remove_server(o.as_str());
            }
        },
        None => {},
    }
    let ghost m = *c;
    let (username, password) = match c.servers.get(name.value.as_str()) {
        Some(e) => (copy_opt(&e.username), copy_opt(&e.password)),
        None => (None, None),
    };
    let entry = ServerEntry { url: url.value, username, password, verify_ssl };
    proof {
        assert(entry == form_entry(m.servers@, f0));
    }
    c.add_server(name.value, entry);
    proof {
        if renames(f0) {
            assert(server_removed(*old(c), m, f0.editing_existing->0@));
        }
    }
}

/// What Enter does in the server form `f`: without a name or URL it shows
/// "Name and URL are required"; otherwise the form closes, its server is
/// saved in the configuration (`form_saved`) and the runner is asked to
/// write the configuration and report back.
pub open spec fn server_form_submitted(s: App, t: App, f: ServerForm, fx: Seq<Effect>) -> bool {
    if f.name.value@.len() == 0 || f.url.value@.len() == 0 {
        &&& t.popup matches Some(Popup::Error(m)) && m@ == "Name and URL are required"@
        &&& t == (App { popup: t.popup, ..s })
        &&& fx.len() == 0
    } else {
        &&& form_saved(s.config, t.config, f)
        &&& t == (App { popup: None, config: t.config, ..s })
        &&& fx == seq![Effect::SaveServerConfig]
    }
}

/// What a key does in the server form `f`: Esc closes it, Enter submits it
/// (`server_form_submitted`), other keys act as `server_form_stepped` says.
pub open spec fn server_form_key_result(
    s: App,
    t: App,
    f: ServerForm,
    key: Key,
    ctrl: bool,
    fx: Seq<Effect>,
) -> bool {
    if key == Key::Esc {
        t == (App { popup: None, ..s }) && fx.len() == 0
    } else if key == Key::Enter {
        server_form_submitted(s, t, f, fx)
    } else {
        &&& t.popup matches Some(Popup::ServerForm(g)) && server_form_stepped(f, g, key, ctrl)
        &&& t == (App { popup: t.popup, ..s })
        &&& fx.len() == 0
    }
}

impl App {
    /// Acts on Enter in the server form `f`, whose popup is already closed.
    fn server_form_enter(&mut self, f: ServerForm) -> (fx: Vec<Effect>)
        requires
            old(self).wf(),
            old(self).popup is None,
        ensures
            final(self).wf(),
            server_form_submitted(*old(self), *final(self), f, fx@),
    {
        if f.name.is_empty() || f.url.is_empty() {
            self.popup = Some(Popup::Error(String::from_str("Name and URL are required")));
            return Vec::new();
        }
        save_server_form(&mut self.config, f);
        let mut fx: Vec<Effect> = Vec::new();
        fx.push(Effect::SaveServerConfig);
        fx
    }

    /// Acts on a key in the server form (`server_form_key_result`); `ctrl`
    /// tells whether Ctrl was held.
    pub fn handle_server_form_key(&mut self, key: Key, ctrl: bool) -> (fx: Vec<Effect>)
        requires
            old(self).wf(),
            old(self).popup matches Some(Popup::ServerForm(_)),
        ensures
            final(self).wf(),
            old(self).popup matches Some(Popup::ServerForm(f)) && server_form_key_result(
                *old(self),
                *final(self),
                f,
                key,
                ctrl,
                fx@,
            ),
    {
        let popup = self.popup.take();
        match popup {
            Some(Popup::ServerForm(mut f)) => {
                if key == Key::Esc {
                    Vec::new()
                } else if key == Key::Enter {
                    self.server_form_enter(f)
                } else {
                    server_form_step(&mut f, key, ctrl);
                    self.popup = Some(Popup::ServerForm(f));
                    Vec::new()
                }
            },
            other => {
                self.popup = other;
                Vec::new()
            },
        }
    }

    /// The configuration was written after a server form was submitted: with
    /// no active session, the cursor goes to the last server in name order
    /// and connecting to it begins (`connect_selected`); otherwise nothing
    /// changes.
    pub fn server_saved(&mut self) -> (fx: Vec<Effect>)
        requires
            old(self).wf(),
            old(self).config.servers.keys().len() > 0,
        ensures
            final(self).wf(),
            old(self).sessions.active() is None ==> connect_selected(
                App {
                    server_selected: (old(self).config.servers.keys().len() - 1) as usize,
                    ..*old(self)
                },
                *final(self),
                fx@,
            ),
            old(self).sessions.active() is Some ==> *final(self) == *old(self) && fx@.len() == 0,
    {
        if self.sessions.active_index().is_some() {
            return Vec::new();
        }
        self.server_selected = self.config.servers.len() - 1;
        self.connect_selected_server()
    }

    /// Writing the configuration after a server form failed with `err`: an
    /// error popup says "Failed to save config: " and the error.
    pub fn server_save_failed(&mut self, err: &str)
        ensures
            final(self).popup matches Some(Popup::Error(m)) && m@ == "Failed to save config: "@
                + err@,
            *final(self) == (App { popup: final(self).popup, ..*old(self) }),
    {
        let msg = crate::flows::concat3("Failed to save config: ", err, "");
        proof {
            reveal_strlit("");
            assert("Failed to save config: "@ + err@ + ""@ =~= "Failed to save config: "@ + err@);
        }
        self.popup = Some(Popup::Error(msg));
    }
}

/// What a key does to the login form while it stays open: Tab, Down,
/// BackTab and Up switch fields; the editing keys edit the field under
/// focus; other keys do nothing.
pub open spec fn auth_form_stepped(a: AuthForm, b: AuthForm, key: Key, ctrl: bool) -> bool {
    if key == Key::Tab || key == Key::Down || key == Key::BackTab || key == Key::Up {
        b.active_field != a.active_field && b == (AuthForm { active_field: b.active_field, ..a })
    } else if is_edit_key(key) && a.active_field == AuthFormField::Username {
        edited(a.username, b.username, key, ctrl) && b == (AuthForm { username: b.username, ..a })
    } else if is_edit_key(key) && a.active_field == AuthFormField::Password {
        edited(a.password, b.password, key, ctrl) && b == (AuthForm { password: b.password, ..a })
    } else {
        b == a
    }
}

/// Applies a key to the login form while it stays open.
pub fn auth_form_step(f: &mut AuthForm, key: Key, ctrl: bool)
    requires
        old(f).wf(),
    ensures
        final(f).wf(),
        auth_form_stepped(*old(f), *final(f), key, ctrl),
{
    if key == Key::Tab || key == Key::Down {
        f.active_field = f.active_field.next();
    } else if key == Key::BackTab || key == Key::Up {
        f.active_field = f.active_field.prev();
    } else if f.active_field == AuthFormField::Username {
        edit_input(&mut f.username, key, ctrl);
    } else {
        edit_input(&mut f.password, key, ctrl);
    }
}

/// What a key does in the login form `f`. When it offers to register, Enter
/// starts registering with its credentials and Esc closes it; other keys do
/// nothing. Otherwise Esc closes it; Enter with a user name and no password
/// moves to the password field, without a user name shows "Username is
/// required", and else starts logging in; other keys act as
/// `auth_form_stepped` says.
pub open spec fn auth_form_key_result(
    s: App,
    t: App,
    f: AuthForm,
    key: Key,
    ctrl: bool,
    fx: Seq<Effect>,
) -> bool {
    let closed = App { popup: None, ..s };
    if f.register_prompt {
        if key == Key::Enter {
            login_started(closed, t, f, true, fx)
        } else if key == Key::Esc {
            t == closed && fx.len() == 0
        } else {
            t == s && fx.len() == 0
        }
    } else if key == Key::Esc {
        t == closed && fx.len() == 0
    } else if key == Key::Enter {
        if f.username.value@.len() > 0 && f.password.value@.len() == 0 {
            &&& t == (App {
                popup: Some(Popup::AuthForm(AuthForm { active_field: AuthFormField::Password, ..f })),
                ..s
            })
            &&& fx.len() == 0
        } else if f.username.value@.len() == 0 {
            &&& t.popup matches Some(Popup::Error(m)) && m@ == "Username is required"@
            &&& t == (App { popup: t.popup, ..s })
            &&& fx.len() == 0
        } else {
            login_started(closed, t, f, false, fx)
        }
    } else {
        &&& t.popup matches Some(Popup::AuthForm(g)) && auth_form_stepped(f, g, key, ctrl)
        &&& t == (App { popup: t.popup, ..s })
        &&& fx.len() == 0
    }
}

impl App {
    /// Acts on Enter in the login form `f` (not offering to register), whose
    /// popup is already closed.
    fn auth_form_enter(&mut self, f: AuthForm) -> (fx: Vec<Effect>)
        requires
            old(self).wf(),
            old(self).popup is None,
            f.wf(),
            !f.register_prompt,
        ensures
            final(self).wf(),
            auth_form_key_result(
                App { popup: Some(Popup::AuthForm(f)), ..*old(self) },
                *final(self),
                f,
                Key::Enter,
                false,
                fx@,
            ),
    {
        if !f.username.is_empty() && f.password.is_empty() {
            let mut f = f;
            f.active_field = AuthFormField::Password;
            self.popup = Some(Popup::AuthForm(f));
            Vec::new()
        } else if f.username.is_empty() {
            self.popup = Some(Popup::Error(String::from_str("Username is required")));
            Vec::new()
        } else {
            self.start_connect(f)
        }
    }

    /// Acts on a key in the login form (`auth_form_key_result`); `ctrl`
    /// tells whether Ctrl was held.
    pub fn handle_auth_form_key(&mut self, key: Key, ctrl: bool) -> (fx: Vec<Effect>)
        requires
            old(self).wf(),
            old(self).popup matches Some(Popup::AuthForm(_)),
        ensures
            final(self).wf(),
            old(self).popup matches Some(Popup::AuthForm(f)) && auth_form_key_result(
                *old(self),
                *final(self),
                f,
                key,
                ctrl,
                fx@,
            ),
    {
        let popup = self.popup.take();
        match popup {
            Some(Popup::AuthForm(mut f)) => {
                if f.register_prompt {
                    if key == Key::Enter {
                        self.start_register(f)
                    } else if key == Key::Esc {
                        Vec::new()
                    } else {
                        self.popup = Some(Popup::AuthForm(f));
                        Vec::new()
                    }
                } else if key == Key::Esc {
                    Vec::new()
                } else if key == Key::Enter {
                    self.auth_form_enter(f)
                } else {
                    auth_form_step(&mut f, key, ctrl);
                    self.popup = Some(Popup::AuthForm(f));
                    Vec::new()
                }
            },
            other => {
                self.popup = other;
                Vec::new()
            },
        }
    }
}

} // verus!
