//! The state of the interface: which screen is shown, what each screen has
//! selected or searched for, and the popups with their forms.
use crate::config::opt_view;
use crate::models::Assignment;
use crate::search::{fuzzy_match, fuzzy_matches};
use crate::text_input::TextInput;
use crate::text_util::{decimal, decimal_text};
use vstd::prelude::*;
use vstd::utf8::encode_utf8;

verus! {

/// An optional text, or the empty text.
pub open spec fn text_or_empty(o: Option<Seq<char>>) -> Seq<char> {
    match o {
        Some(t) => t,
        None => Seq::empty(),
    }
}

/// Whether an assignment matches a search: its cloud name, owner,
/// description, ticket or id (in decimal) fuzzily contains the search.
pub open spec fn assignment_matches(a: Assignment, search: Seq<char>) -> bool {
    ||| fuzzy_matches(text_or_empty(a.cloud_view()), search)
    ||| fuzzy_matches(text_or_empty(opt_view(a.owner)), search)
    ||| fuzzy_matches(text_or_empty(opt_view(a.description)), search)
    ||| fuzzy_matches(text_or_empty(opt_view(a.ticket)), search)
    ||| fuzzy_matches(
        match a.id {
            Some(i) => decimal_text(i as int),
            None => Seq::empty(),
        },
        search,
    )
}

fn text_of(o: &Option<String>) -> (r: &str)
    ensures
        r@ == text_or_empty(opt_view(*o)),
{
    match o {
        Some(s) => s.as_str(),
        None => {
            proof {
                reveal_strlit("");
            }
            ""
        },
    }
}

/// Whether an assignment matches a search.
pub fn assignment_matches_search(a: &Assignment, search: &str) -> (r: bool)
    ensures
        r == assignment_matches(*a, search@),
{
    let cloud = match a.cloud_name() {
        Some(c) => c,
        None => {
            proof {
                reveal_strlit("");
            }
            ""
        },
    };
    if fuzzy_match(cloud, search) {
        return true;
    }
    if fuzzy_match(text_of(&a.owner), search) {
        return true;
    }
    if fuzzy_match(text_of(&a.description), search) {
        return true;
    }
    if fuzzy_match(text_of(&a.ticket), search) {
        return true;
    }
    let id_text = match a.id {
        Some(i) => decimal(i),
        None => String::new(),
    };
    fuzzy_match(id_text.as_str(), search)
}

/// The screens, in tab order.
#[derive(Debug, Clone, Copy, PartialEq, Eq, Structural)]
pub enum Screen {
    Dashboard,
    Hosts,
    Assignments,
    Clouds,
}

impl Screen {
    /// The position of a screen in tab order.
    pub open spec fn pos(self) -> int {
        match self {
            Screen::Dashboard => 0,
            Screen::Hosts => 1,
            Screen::Assignments => 2,
            Screen::Clouds => 3,
        }
    }

    /// The next screen in tab order, wrapping around.
    pub fn next(self) -> (r: Self)
        ensures
            r.pos() == (self.pos() + 1) % 4,
    {
        match self {
            Screen::Dashboard => Screen::Hosts,
            Screen::Hosts => Screen::Assignments,
            Screen::Assignments => Screen::Clouds,
            Screen::Clouds => Screen::Dashboard,
        }
    }

    /// The previous screen in tab order, wrapping around.
    pub fn prev(self) -> (r: Self)
        ensures
            r.pos() == (self.pos() + 3) % 4,
    {
        match self {
            Screen::Dashboard => Screen::Clouds,
            Screen::Hosts => Screen::Dashboard,
            Screen::Assignments => Screen::Hosts,
            Screen::Clouds => Screen::Assignments,
        }
    }
}

/// Screens are told apart by their position.
pub proof fn lemma_screen_pos(a: Screen, b: Screen)
    ensures
        0 <= a.pos() < 4,
        a.pos() == b.pos() ==> a == b,
{
}

/// Which host states the host list shows.
#[derive(Debug, Clone, Copy)]
pub struct HostFilterFlags {
    pub available: bool,
    pub scheduled: bool,
    pub broken: bool,
    pub retired: bool,
}

impl HostFilterFlags {
    /// The flag at position `idx` (available, scheduled, broken, retired);
    /// false past the last.
    pub open spec fn flag(self, idx: int) -> bool {
        if idx == 0 {
            self.available
        } else if idx == 1 {
            self.scheduled
        } else if idx == 2 {
            self.broken
        } else if idx == 3 {
            self.retired
        } else {
            false
        }
    }

    /// Available and scheduled hosts shown, broken and retired ones hidden.
    pub fn default_filters() -> (r: Self)
        ensures
            r.available,
            r.scheduled,
            !r.broken,
            !r.retired,
    {
        HostFilterFlags { available: true, scheduled: true, broken: false, retired: false }
    }

    /// The flag at position `idx`.
    pub fn get(&self, idx: usize) -> (r: bool)
        ensures
            r == self.flag(idx as int),
    {
        match idx {
            0 => self.available,
            1 => self.scheduled,
            2 => self.broken,
            3 => self.retired,
            _ => false,
        }
    }

    /// The flags with the one at position `idx` flipped (none past the
    /// last).
    pub open spec fn toggled_at(self, idx: int) -> HostFilterFlags {
        HostFilterFlags {
            available: if idx == 0 {
                !self.available
            } else {
                self.available
            },
            scheduled: if idx == 1 {
                !self.scheduled
            } else {
                self.scheduled
            },
            broken: if idx == 2 {
                !self.broken
            } else {
                self.broken
            },
            retired: if idx == 3 {
                !self.retired
            } else {
                self.retired
            },
        }
    }

    /// Flips the flag at position `idx`; nothing past the last.
    pub fn toggle(&mut self, idx: usize)
        ensures
            *final(self) == old(self).toggled_at(idx as int),
            forall|i: int|
                #![trigger final(self).flag(i)]
                if i == idx && idx < 4 {
                    final(self).flag(i) == !old(self).flag(i)
                } else {
                    final(self).flag(i) == old(self).flag(i)
                },
    {
        match idx {
            0 => self.available = !self.available,
            1 => self.scheduled = !self.scheduled,
            2 => self.broken = !self.broken,
            3 => self.retired = !self.retired,
            _ => {},
        }
    }

    /// The label of the flag at position `idx`.
    pub fn label(idx: usize) -> (r: &'static str)
        requires
            idx < 4,
        ensures
            idx == 0 ==> r@ == "Available"@,
            idx == 1 ==> r@ == "Scheduled"@,
            idx == 2 ==> r@ == "Broken"@,
            idx == 3 ==> r@ == "Retired"@,
    {
        if idx == 0 {
            "Available"
        } else if idx == 1 {
            "Scheduled"
        } else if idx == 2 {
            "Broken"
        } else {
            "Retired"
        }
    }
}

/// Toggling a flag twice gives back the flags.
pub proof fn law_toggle_twice(f: HostFilterFlags, g: HostFilterFlags, h: HostFilterFlags, idx: int)
    requires
        forall|i: int|
            #![trigger g.flag(i)]
            if i == idx && 0 <= idx < 4 {
                g.flag(i) == !f.flag(i)
            } else {
                g.flag(i) == f.flag(i)
            },
        forall|i: int|
            #![trigger h.flag(i)]
            if i == idx && 0 <= idx < 4 {
                h.flag(i) == !g.flag(i)
            } else {
                h.flag(i) == g.flag(i)
            },
    ensures
        h == f,
{
    assert(h.flag(0) == f.flag(0));
    assert(h.flag(1) == f.flag(1));
    assert(h.flag(2) == f.flag(2));
    assert(h.flag(3) == f.flag(3));
}

/// The two panes of the host filter popup.
#[derive(Debug, Clone, Copy, PartialEq, Eq, Structural)]
pub enum FilterPane {
    Status,
    SelfSchedule,
}

/// The host filter popup: a cursor over the status flags, the flags being
/// edited, the pane in focus and the self-schedulable-only switch.
#[derive(Debug)]
pub struct HostFilterPopup {
    pub cursor: usize,
    pub flags: HostFilterFlags,
    pub pane: FilterPane,
    pub ssm_only: bool,
}

/// The fields of the server form, in tab order.
#[derive(Debug, Clone, Copy, PartialEq, Eq, Structural)]
pub enum ServerFormField {
    Name,
    Url,
    VerifySsl,
}

impl ServerFormField {
    /// The position of a field in tab order.
    pub open spec fn pos(self) -> int {
        match self {
            ServerFormField::Name => 0,
            ServerFormField::Url => 1,
            ServerFormField::VerifySsl => 2,
        }
    }

    /// The next field, wrapping around.
    pub fn next(self) -> (r: Self)
        ensures
            r.pos() == (self.pos() + 1) % 3,
    {
        match self {
            ServerFormField::Name => ServerFormField::Url,
            ServerFormField::Url => ServerFormField::VerifySsl,
            ServerFormField::VerifySsl => ServerFormField::Name,
        }
    }

    /// The previous field, wrapping around.
    pub fn prev(self) -> (r: Self)
        ensures
            r.pos() == (self.pos() + 2) % 3,
    {
        match self {
            ServerFormField::Name => ServerFormField::VerifySsl,
            ServerFormField::Url => ServerFormField::Name,
            ServerFormField::VerifySsl => ServerFormField::Url,
        }
    }
}

/// The form that adds or edits a server.
#[derive(Debug)]
pub struct ServerForm {
    pub name: TextInput,
    pub url: TextInput,
    pub verify_ssl: bool,
    pub active_field: ServerFormField,
    pub editing_existing: Option<String>,
}

impl ServerForm {
    /// Both inputs have their cursor on a character boundary.
    pub open spec fn wf(&self) -> bool {
        self.name.wf() && self.url.wf()
    }

    /// An empty form for a new server, checking certificates.
    pub fn new() -> (r: Self)
        ensures
            r.wf(),
            r.name.value@.len() == 0,
            r.url.value@.len() == 0,
            r.verify_ssl,
            r.active_field == ServerFormField::Name,
            r.editing_existing is None,
    {
        ServerForm {
            name: TextInput::new(),
            url: TextInput::new(),
            verify_ssl: true,
            active_field: ServerFormField::Name,
            editing_existing: None,
        }
    }

    /// The input of the active field; none for the certificate switch.
    pub fn active_input_mut(&mut self) -> (r: Option<&mut TextInput>)
        ensures
            old(self).active_field == ServerFormField::Name ==> (r matches Some(x) && *x == old(
                self,
            ).name && final(self).name == *final(x) && final(self).url == old(self).url),
            old(self).active_field == ServerFormField::Url ==> (r matches Some(x) && *x == old(
                self,
            ).url && final(self).url == *final(x) && final(self).name == old(self).name),
            old(self).active_field == ServerFormField::VerifySsl ==> r is None && final(self).name
                == old(self).name && final(self).url == old(self).url,
            final(self).verify_ssl == old(self).verify_ssl,
            final(self).active_field == old(self).active_field,
            final(self).editing_existing == old(self).editing_existing,
    {
        match self.active_field {
            ServerFormField::Name => Some(&mut self.name),
            ServerFormField::Url => Some(&mut self.url),
            ServerFormField::VerifySsl => None,
        }
    }
}

/// The fields of the login form.
#[derive(Debug, Clone, Copy, PartialEq, Eq, Structural)]
pub enum AuthFormField {
    Username,
    Password,
}

impl AuthFormField {
    /// The other field.
    pub fn next(self) -> (r: Self)
        ensures
            r != self,
    {
        match self {
            AuthFormField::Username => AuthFormField::Password,
            AuthFormField::Password => AuthFormField::Username,
        }
    }

    /// The other field.
    pub fn prev(self) -> (r: Self)
        ensures
            r != self,
    {
        match self {
            AuthFormField::Username => AuthFormField::Password,
            AuthFormField::Password => AuthFormField::Username,
        }
    }
}

/// The login form of a server, with the error of the last attempt and
/// whether it offers to register instead.
#[derive(Debug)]
pub struct AuthForm {
    pub server_name: String,
    pub username: TextInput,
    pub password: TextInput,
    pub active_field: AuthFormField,
    pub error: Option<String>,
    pub register_prompt: bool,
}

impl AuthForm {
    /// Both inputs have their cursor on a character boundary.
    pub open spec fn wf(&self) -> bool {
        self.username.wf() && self.password.wf()
    }

    /// An empty login form for `server_name`.
    pub fn new(server_name: String) -> (r: Self)
        ensures
            r.wf(),
            r.server_name == server_name,
            r.username.value@.len() == 0,
            r.username.cursor == 0,
            r.password.value@.len() == 0,
            r.password.cursor == 0,
            r.active_field == AuthFormField::Username,
            r.error is None,
            !r.register_prompt,
    {
        AuthForm {
            server_name,
            username: TextInput::new(),
            password: TextInput::new(),
            active_field: AuthFormField::Username,
            error: None,
            register_prompt: false,
        }
    }

    /// A login form for `server_name` filled in with saved credentials.
    pub fn with_credentials(server_name: String, username: String, password: String) -> (r: Self)
        ensures
            r.wf(),
            r.server_name == server_name,
            r.username.value@ == username@,
            r.username.cursor == encode_utf8(username@).len(),
            r.password.value@ == password@,
            r.password.cursor == encode_utf8(password@).len(),
            r.active_field == AuthFormField::Username,
            r.error is None,
            !r.register_prompt,
    {
        AuthForm {
            server_name,
            username: TextInput::from(username),
            password: TextInput::from(password),
            active_field: AuthFormField::Username,
            error: None,
            register_prompt: false,
        }
    }

    /// The input of the active field.
    pub fn active_input_mut(&mut self) -> (r: &mut TextInput)
        ensures
            old(self).active_field == AuthFormField::Username ==> *r == old(self).username
                && final(self).username == *final(r) && final(self).password == old(
                self,
            ).password,
            old(self).active_field == AuthFormField::Password ==> *r == old(self).password
                && final(self).password == *final(r) && final(self).username == old(
                self,
            ).username,
            final(self).server_name == old(self).server_name,
            final(self).active_field == old(self).active_field,
            final(self).error == old(self).error,
            final(self).register_prompt == old(self).register_prompt,
    {
        match self.active_field {
            AuthFormField::Username => &mut self.username,
            AuthFormField::Password => &mut self.password,
        }
    }
}

/// The host info popup: the host (by position in the shown list, or by
/// name), the scroll offset, which sections are open and the section under
/// the cursor.
#[derive(Debug)]
pub struct HostInfoState {
    pub host_idx: usize,
    pub host_name: Option<String>,
    pub scroll: u16,
    pub sections: [bool; 4],
    pub cursor: usize,
}

impl HostInfoState {
    /// Info on the host at position `host_idx` of the shown list.
    pub fn new(host_idx: usize) -> (r: Self)
        ensures
            r.host_idx == host_idx,
            r.host_name is None,
            r.scroll == 0,
            r.sections@ == seq![false, false, false, false],
            r.cursor == 0,
    {
        HostInfoState {
            host_idx,
            host_name: None,
            scroll: 0,
            sections: [false, false, false, false],
            cursor: 0,
        }
    }

    /// Info on the host named `name`.
    pub fn from_name(name: String) -> (r: Self)
        ensures
            r.host_idx == 0,
            r.host_name == Some(name),
            r.scroll == 0,
            r.sections@ == seq![false, false, false, false],
            r.cursor == 0,
    {
        HostInfoState {
            host_idx: 0,
            host_name: Some(name),
            scroll: 0,
            sections: [false, false, false, false],
            cursor: 0,
        }
    }
}

/// An entry of the assignment picker.
#[derive(Debug)]
pub enum AssignmentPickerItem {
    Existing { cloud_name: String, description: String },
    NewAssignment,
}

/// The assignment picker: the hosts to schedule, the cursor and the entries.
#[derive(Debug)]
pub struct AssignmentPickerState {
    pub selected_hosts: Vec<String>,
    pub cursor: usize,
    pub items: Vec<AssignmentPickerItem>,
}

/// The fields of the new-assignment form, in tab order.
#[derive(Debug, Clone, Copy, PartialEq, Eq, Structural)]
pub enum NewAssignmentField {
    Description,
    Qinq,
    Wipe,
}

impl NewAssignmentField {
    /// The position of a field in tab order.
    pub open spec fn pos(self) -> int {
        match self {
            NewAssignmentField::Description => 0,
            NewAssignmentField::Qinq => 1,
            NewAssignmentField::Wipe => 2,
        }
    }

    /// The next field, wrapping around.
    pub fn next(self) -> (r: Self)
        ensures
            r.pos() == (self.pos() + 1) % 3,
    {
        match self {
            NewAssignmentField::Description => NewAssignmentField::Qinq,
            NewAssignmentField::Qinq => NewAssignmentField::Wipe,
            NewAssignmentField::Wipe => NewAssignmentField::Description,
        }
    }

    /// The previous field, wrapping around.
    pub fn prev(self) -> (r: Self)
        ensures
            r.pos() == (self.pos() + 2) % 3,
    {
        match self {
            NewAssignmentField::Description => NewAssignmentField::Wipe,
            NewAssignmentField::Qinq => NewAssignmentField::Description,
            NewAssignmentField::Wipe => NewAssignmentField::Qinq,
        }
    }
}

/// The form that creates a self-scheduled assignment for some hosts.
#[derive(Debug)]
pub struct NewAssignmentForm {
    pub selected_hosts: Vec<String>,
    pub description: TextInput,
    pub qinq: bool,
    pub wipe: bool,
    pub active_field: NewAssignmentField,
}

impl NewAssignmentForm {
    /// The description input has its cursor on a character boundary.
    pub open spec fn wf(&self) -> bool {
        self.description.wf()
    }

    /// An empty form for `selected_hosts`: no Q-in-Q, wipe on.
    pub fn new(selected_hosts: Vec<String>) -> (r: Self)
        ensures
            r.wf(),
            r.selected_hosts == selected_hosts,
            r.description.value@.len() == 0,
            !r.qinq,
            r.wipe,
            r.active_field == NewAssignmentField::Description,
    {
        NewAssignmentForm {
            selected_hosts,
            description: TextInput::new(),
            qinq: false,
            wipe: true,
            active_field: NewAssignmentField::Description,
        }
    }
}

/// Hosts being scheduled into a cloud.
#[derive(Debug)]
pub struct SchedulingProgress {
    pub total: usize,
    pub cloud_name: String,
}

} // verus!
