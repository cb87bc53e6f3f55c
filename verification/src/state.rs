//! The whole interface state, the work it asks its runner to do, and what
//! each screen lists.
use crate::app::{
    assignment_matches, assignment_matches_search, text_or_empty, AssignmentPickerState, AuthForm,
    HostFilterFlags, HostFilterPopup, HostInfoState, NewAssignmentForm, SchedulingProgress, Screen,
    ServerForm,
};
use crate::config::{opt_view, AppConfig};
use crate::models::{is_set, Assignment, Cloud, CloudSummary, Host, Schedule};
use crate::search::{fuzzy_match, fuzzy_matches};
use crate::session::{Session, SessionManager};
use crate::text_util::text_eq;
use crate::update::UpdateInfo;
use vstd::prelude::*;

verus! {

/// A key press, as the interface tells keys apart.
#[derive(Debug, Clone, Copy, PartialEq, Eq, Structural)]
pub enum Key {
    Char(char),
    Enter,
    Esc,
    Backspace,
    Delete,
    Left,
    Right,
    Up,
    Down,
    Home,
    End,
    PageUp,
    PageDown,
    Tab,
    BackTab,
    Other,
}

/// Work the interface asks its runner to do; the runner reports back
/// through the `App` methods that take results.
#[derive(Debug)]
pub enum Effect {
    /// Fetch all data of the server `server`.
    Refresh { server: String },
    /// Log in to `server`.
    Connect { server: String, username: String, password: String },
    /// Register at `server`, then log in.
    Register { server: String, username: String, password: String },
    /// Terminate an assignment on the active server.
    Terminate { assignment_id: i64 },
    /// Delete a schedule on the active server.
    Unschedule { schedule_id: i64 },
    /// Schedule hosts into an existing cloud of the active server.
    ScheduleExisting { cloud_name: String, hosts: Vec<String> },
    /// Create a self-scheduled assignment, then schedule hosts into it.
    ScheduleNew {
        description: String,
        owner: String,
        qinq: i64,
        wipe: bool,
        hosts: Vec<String>,
    },
    /// Download and install a newer release.
    SelfUpdate { download_url: String, version: String },
    /// Write the configuration; a failure is not reported.
    SaveConfig,
    /// Write the configuration after a server was added or edited, and
    /// report the outcome.
    SaveServerConfig,
    /// Open the configuration file in the file manager.
    OpenConfigFile,
    /// Open the log file in the file manager.
    OpenLogFile,
    /// Open the configuration directory in the file manager.
    OpenConfigDir,
}

/// Why a login or registration failed, and whether retrying with other
/// credentials (or registering) may help.
#[derive(Debug)]
pub struct ConnectError {
    pub message: String,
    pub is_credential_error: bool,
}

/// The outcome of a login or registration attempt.
pub struct ConnectResult {
    pub server_name: String,
    pub username: String,
    pub password: String,
    pub result: Result<Session, ConnectError>,
}

/// One piece of a data refresh.
pub enum RefreshUpdate {
    Hosts(String, Vec<Host>),
    Clouds(String, Vec<Cloud>),
    CloudSummaries(String, Vec<CloudSummary>),
    Assignments(String, Vec<Assignment>),
    Schedules(String, Vec<Schedule>),
    Error(String),
    Done,
}

/// How scheduling a batch of hosts went.
#[derive(Debug)]
pub struct ScheduleResult {
    pub success_count: usize,
    pub fail_count: usize,
    pub errors: Vec<String>,
}

/// How an action (terminate, unschedule, self-update) went.
#[derive(Debug)]
pub struct ActionResult {
    pub success: bool,
    pub message: String,
    pub clear_detail: bool,
    pub exit_after: bool,
}

/// The popup over the current screen.
#[derive(Debug)]
pub enum Popup {
    HostInfo(HostInfoState),
    HostFilter(HostFilterPopup),
    ConfirmTerminate(i64),
    ServerForm(ServerForm),
    AuthForm(AuthForm),
    Connecting(String),
    ConnectSuccess(String, usize),
    AssignmentPicker(AssignmentPickerState),
    NewAssignmentForm(NewAssignmentForm),
    Scheduling(SchedulingProgress),
    ConfirmUnschedule { schedule_id: i64, host_name: String },
    Working(String),
    UpdateComplete(String),
    Error(String),
    ConfigHelp,
}

/// The forms inside a popup keep their cursors on character boundaries.
pub open spec fn popup_wf(p: Option<Popup>) -> bool {
    match p {
        Some(Popup::ServerForm(f)) => f.wf(),
        Some(Popup::AuthForm(f)) => f.wf(),
        Some(Popup::NewAssignmentForm(f)) => f.wf(),
        Some(Popup::HostInfo(st)) => st.cursor < 4,
        Some(Popup::HostFilter(p)) => p.cursor < 4,
        _ => true,
    }
}

/// No text occurs twice.
pub open spec fn no_duplicates(s: Seq<String>) -> bool {
    forall|i: int, j: int| 0 <= i < j < s.len() ==> #[trigger] s[i]@ != #[trigger] s[j]@
}

/// The spinner frames.
pub open spec fn spinner_frame(i: int) -> char {
    if i == 0 {
        '|'
    } else if i == 1 {
        '/'
    } else if i == 2 {
        '-'
    } else {
        '\\'
    }
}

/// A list's search and selection: whether a search is being typed, the
/// search text, and the selected row.
#[derive(Debug)]
pub struct SearchState {
    pub active: bool,
    pub query: Option<String>,
    pub selected: usize,
}

impl SearchState {
    /// No search and the first row selected.
    pub fn new() -> (r: Self)
        ensures
            !r.active,
            r.query is None,
            r.selected == 0,
    {
        SearchState { active: false, query: None, selected: 0 }
    }
}

/// The host list: its search, its status filters, the self-schedulable
/// filter, whether only self-schedulable hosts are shown, and the names of
/// the hosts picked for scheduling (each once).
#[derive(Debug)]
pub struct HostView {
    pub search: SearchState,
    pub filters: HostFilterFlags,
    pub ssm_filter: bool,
    pub self_schedule_only: bool,
    pub multi_select: Vec<String>,
}

/// The assignment list: its search, whether all assignments or the user's
/// own are shown, and the selected host of the selected assignment.
#[derive(Debug)]
pub struct AssignmentView {
    pub search: SearchState,
    pub show_all: bool,
    pub detail_selected: Option<usize>,
}

/// The cloud list: its search, and whether all clouds or the user's own are
/// shown.
#[derive(Debug)]
pub struct CloudView {
    pub search: SearchState,
    pub show_all: bool,
}

/// The interface state.
pub struct App {
    pub running: bool,
    pub screen: Screen,
    pub previous_screen: Option<Screen>,
    pub config: AppConfig,
    pub sessions: SessionManager,
    pub popup: Option<Popup>,
    /// The host list.
    pub hosts: HostView,
    /// The assignment list.
    pub assignments: AssignmentView,
    /// The cloud list.
    pub clouds: CloudView,
    pub server_selected: usize,
    pub status_message: Option<String>,
    pub loading: bool,
    pub focused: bool,
    pub auto_refresh: bool,
    pub tick: usize,
    /// A login or registration is under way.
    pub pending_connect: bool,
    /// A batch of hosts is being scheduled.
    pub pending_schedule: bool,
    /// An action is under way.
    pub pending_action: bool,
    /// A data refresh is under way.
    pub refreshing: bool,
    /// An update check is under way.
    pub update_pending: bool,
    pub update_available: Option<UpdateInfo>,
}

impl App {
    /// The state's invariant: a well-formed configuration and session set,
    /// forms with their cursors on character boundaries, and no host picked
    /// twice.
    pub open spec fn wf(&self) -> bool {
        &&& self.config.wf()
        &&& self.sessions.wf()
        &&& popup_wf(self.popup)
        &&& no_duplicates(self.hosts.multi_select@)
    }

    /// The interface at start: the dashboard, nothing selected, no session.
    pub fn new(config: AppConfig) -> (r: Self)
        requires
            config.wf(),
        ensures
            r.wf(),
            r.running,
            r.screen == Screen::Dashboard,
            r.previous_screen is None,
            r.config == config,
            r.sessions.sessions@.len() == 0,
            r.sessions.active_server is None,
            r.popup is None,
            r.hosts.filters == HostFilterFlags::default_filters_spec(),
            !r.hosts.ssm_filter,
            !r.hosts.self_schedule_only,
            r.hosts.search.selected == 0,
            r.hosts.search.query is None,
            !r.hosts.search.active,
            r.hosts.multi_select@.len() == 0,
            r.assignments.search.selected == 0,
            !r.assignments.show_all,
            r.assignments.search.query is None,
            !r.assignments.search.active,
            r.assignments.detail_selected is None,
            r.clouds.search.selected == 0,
            r.clouds.show_all,
            r.clouds.search.query is None,
            !r.clouds.search.active,
            r.server_selected == 0,
            r.status_message is None,
            !r.loading,
            r.focused,
            !r.auto_refresh,
            r.tick == 0,
            !r.pending_connect,
            !r.pending_schedule,
            !r.pending_action,
            !r.refreshing,
            !r.update_pending,
            r.update_available is None,
    {
        App {
            running: true,
            screen: Screen::Dashboard,
            previous_screen: None,
            config,
            sessions: SessionManager::new(),
            popup: None,
            hosts: HostView {
                search: SearchState::new(),
                filters: HostFilterFlags::default_filters(),
                ssm_filter: false,
                self_schedule_only: false,
                multi_select: Vec::new(),
            },
            assignments: AssignmentView {
                search: SearchState::new(),
                show_all: false,
                detail_selected: None,
            },
            clouds: CloudView { search: SearchState::new(), show_all: true },
            server_selected: 0,
            status_message: None,
            loading: false,
            focused: true,
            auto_refresh: false,
            tick: 0,
            pending_connect: false,
            pending_schedule: false,
            pending_action: false,
            refreshing: false,
            update_pending: false,
            update_available: None,
        }
    }

    /// The spinner character for the current tick.
    pub fn spinner_char(&self) -> (r: char)
        ensures
            r == spinner_frame(self.tick as int % 4),
    {
        let i = self.tick % 4;
        if i == 0 {
            '|'
        } else if i == 1 {
            '/'
        } else if i == 2 {
            '-'
        } else {
            '\\'
        }
    }

    /// Shows `screen`, remembering the one shown before.
    pub fn navigate(&mut self, screen: Screen)
        ensures
            *final(self) == (App {
                previous_screen: Some(old(self).screen),
                screen: screen,
                ..*old(self)
            }),
    {
        self.previous_screen = Some(self.screen);
        self.screen = screen;
    }

    /// Closes the popup, or else goes back to the dashboard.
    pub fn go_back(&mut self)
        ensures
            *final(self) == (if old(self).popup is Some {
                App { popup: None, ..*old(self) }
            } else {
                App { screen: Screen::Dashboard, ..*old(self) }
            }),
    {
        let popup_open = self.popup.is_some();
        self.back_step(popup_open);
    }

    fn back_step(&mut self, popup_open: bool)
        ensures
            popup_open ==> *final(self) == (App { popup: None, ..*old(self) }),
            !popup_open ==> *final(self) == (App { screen: Screen::Dashboard, ..*old(self) }),
    {
        if popup_open {
            self.popup = None;
        } else {
            self.screen = Screen::Dashboard;
        }
    }

    /// Shows an error popup.
    pub fn set_error(&mut self, msg: String)
        ensures
            *final(self) == (App { popup: Some(Popup::Error(msg)), ..*old(self) }),
    {
        self.popup = Some(Popup::Error(msg));
    }
}

impl HostFilterFlags {
    /// The flags `default_filters` gives.
    pub open spec fn default_filters_spec() -> HostFilterFlags {
        HostFilterFlags { available: true, scheduled: true, broken: false, retired: false }
    }
}

/// The names of the hosts that schedules put hosts on.
pub open spec fn scheduled_names(schedules: Seq<Schedule>) -> Seq<Seq<char>> {
    schedules.map_values(|s: Schedule| s.host_name_of())
}

/// Whether the host list shows host `h` of a session whose schedules name
/// the hosts `scheduled`: the search (if any) must match its name; in the
/// self-schedulable view it must be self-schedulable, in order, home and
/// not scheduled; otherwise it must pass the self-schedulable filter and
/// one of the chosen status filters (any status when none is chosen).
pub open spec fn shows_host(
    search: Option<Seq<char>>,
    self_schedule_only: bool,
    ssm_filter: bool,
    f: HostFilterFlags,
    scheduled: Seq<Seq<char>>,
    h: Host,
) -> bool {
    let search_ok = match search {
        Some(q) => fuzzy_matches(h.name@, q),
        None => true,
    };
    let is_broken = is_set(h.broken);
    let is_retired = is_set(h.retired) && !is_broken;
    let is_available = !is_broken && !is_retired && h.at_home();
    let is_scheduled = !is_broken && !is_retired && !h.at_home();
    let none_selected = !f.available && !f.scheduled && !f.broken && !f.retired;
    &&& search_ok
    &&& if self_schedule_only {
        &&& is_set(h.can_self_schedule)
        &&& !is_set(h.broken)
        &&& !is_set(h.retired)
        &&& h.at_home()
        &&& !scheduled.contains(h.name@)
    } else {
        &&& (!ssm_filter || is_set(h.can_self_schedule))
        &&& (none_selected || (f.available && is_available) || (f.scheduled && is_scheduled) || (
        f.broken && is_broken) || (f.retired && is_retired))
    }
}

impl App {
    /// The host test of the host list, for the schedules' host names
    /// `scheduled`.
    pub open spec fn host_test(&self, scheduled: Seq<Seq<char>>) -> spec_fn(Host) -> bool {
        |h: Host|
            shows_host(
                opt_view(self.hosts.search.query),
                self.hosts.self_schedule_only,
                self.hosts.ssm_filter,
                self.hosts.filters,
                scheduled,
                h,
            )
    }

    /// The hosts the host list shows, in the order of the active session.
    pub open spec fn host_list(&self) -> Seq<Host> {
        match self.sessions.active() {
            Some(s) => s.hosts@.filter(self.host_test(scheduled_names(s.schedules@))),
            None => Seq::empty(),
        }
    }

    /// The positions, in the active session's hosts, of the hosts the host
    /// list shows.
    pub fn filtered_host_indices(&self) -> (r: Vec<usize>)
        requires
            self.wf(),
        ensures
            r@.len() == self.host_list().len(),
            match self.sessions.active() {
                Some(s) => forall|k: int|
                    0 <= k < r@.len() ==> #[trigger] r@[k] < s.hosts@.len()
                        && self.host_list()[k] == s.hosts@[r@[k] as int],
                None => r@.len() == 0,
            },
    {
        let session = match self.sessions.active_session() {
            Some(s) => s,
            None => return Vec::new(),
        };
        let ghost sched = scheduled_names(session.schedules@);
        let mut names: Vec<String> = Vec::new();
        if self.hosts.self_schedule_only {
            let mut j: usize = 0;
            while j < session.schedules.len()
                invariant
                    j <= session.schedules@.len(),
                    names@.len() == j,
                    forall|k: int| 0 <= k < j ==> #[trigger] names@[k]@ == sched[k],
                    sched == scheduled_names(session.schedules@),
                decreases session.schedules.len() - j,
            {
                names.push(session.schedules[j].host_name());
                j += 1;
            }
        }
        let ghost p = self.host_test(sched);
        let ghost hosts = session.hosts@;
        let mut out: Vec<usize> = Vec::new();
        let mut i: usize = 0;
        while i < session.hosts.len()
            invariant
                i <= hosts.len(),
                hosts == session.hosts@,
                p == self.host_test(sched),
                self.hosts.self_schedule_only ==> names@.len() == sched.len() && forall|k: int|
                    0 <= k < names@.len() ==> #[trigger] names@[k]@ == sched[k],
                forall|k: int| 0 <= k < out@.len() ==> #[trigger] out@[k] < i,
                out@.map_values(|k: usize| hosts[k as int]) == hosts.take(i as int).filter(p),
            decreases session.hosts.len() - i,
        {
            let h = &session.hosts[i];
            let keep = self.host_passes(h, &names, Ghost(sched));
            let ghost old_out = out@;
            proof {
                let t = hosts.take(i + 1);
                assert(t.drop_last() =~= hosts.take(i as int));
                assert(t.last() == *h);
                reveal(Seq::filter);
            }
            if keep {
                out.push(i);
                proof {
                    assert(out@.map_values(|k: usize| hosts[k as int]) =~= old_out.map_values(
                        |k: usize| hosts[k as int],
                    ).push(*h));
                }
            }
            i += 1;
        }
        proof {
            assert(hosts.take(i as int) =~= hosts);
            assert forall|k: int| 0 <= k < out@.len() implies #[trigger] out@[k] < hosts.len()
                && self.host_list()[k] == hosts[out@[k] as int] by {
                assert(out@.map_values(|k: usize| hosts[k as int])[k] == hosts[out@[k] as int]);
            }
        }
        out
    }

    fn name_listed(names: &Vec<String>, name: &str) -> (r: bool)
        ensures
            r == names@.map_values(|s: String| s@).contains(name@),
    {
        let ghost v = names@.map_values(|s: String| s@);
        let mut k: usize = 0;
        while k < names.len()
            invariant
                k <= names@.len(),
                v == names@.map_values(|s: String| s@),
                forall|j: int| 0 <= j < k ==> v[j] != name@,
            decreases names.len() - k,
        {
            if text_eq(names[k].as_str(), name) {
                proof {
                    assert(v[k as int] == name@);
                }
                return true;
            }
            k += 1;
        }
        false
    }

    fn host_passes(&self, h: &Host, names: &Vec<String>, sched: Ghost<Seq<Seq<char>>>) -> (r: bool)
        requires
            self.hosts.self_schedule_only ==> names@.len() == sched@.len() && forall|k: int|
                0 <= k < names@.len() ==> #[trigger] names@[k]@ == sched@[k],
        ensures
            r == self.host_test(sched@)(*h),
    {
        if let Some(q) = &self.hosts.search.query {
            if !fuzzy_match(h.name.as_str(), q.as_str()) {
                return false;
            }
        }
        if self.hosts.self_schedule_only {
            let listed = Self::name_listed(names, h.name.as_str());
            proof {
                assert(names@.map_values(|s: String| s@) =~= sched@);
            }
            return h.can_self_schedule == Some(true) && h.broken != Some(true) && h.retired != Some(
                true,
            ) && h.in_default_cloud() && !listed;
        }
        if self.hosts.ssm_filter && h.can_self_schedule != Some(true) {
            return false;
        }
        let is_broken = h.broken == Some(true);
        let is_retired = h.retired == Some(true) && !is_broken;
        let home = h.in_default_cloud();
        let is_available = !is_broken && !is_retired && home;
        let is_scheduled = !is_broken && !is_retired && !home;
        let f = &self.hosts.filters;
        let none_selected = !f.available && !f.scheduled && !f.broken && !f.retired;
        none_selected || (f.available && is_available) || (f.scheduled && is_scheduled) || (f.broken
            && is_broken) || (f.retired && is_retired)
    }
}


/// Whether a cloud summary is owned by `user`.
pub open spec fn owned_cloud(c: CloudSummary, user: Option<Seq<char>>) -> bool {
    match (opt_view(c.owner), user) {
        (Some(o), Some(u)) => o == u,
        _ => false,
    }
}

/// Whether a cloud summary matches a search: its name, owner, ticket or
/// description fuzzily contains it.
pub open spec fn cloud_matches(c: CloudSummary, q: Seq<char>) -> bool {
    ||| fuzzy_matches(c.name@, q)
    ||| fuzzy_matches(text_or_empty(opt_view(c.owner)), q)
    ||| fuzzy_matches(text_or_empty(opt_view(c.ticket)), q)
    ||| fuzzy_matches(text_or_empty(opt_view(c.description)), q)
}

fn text_of_opt(o: &Option<String>) -> (r: &str)
    ensures
        r@ == text_or_empty(opt_view(*o)),
{
    match o {
        Some(s) => s.as_str(),
        None => {
            proof {
                reveal_strlit("");
            }
            ""
        },
    }
}

impl App {
    /// The cloud test of the cloud list, for the user `user` of the active
    /// session.
    pub open spec fn cloud_test(&self, user: Option<Seq<char>>) -> spec_fn(CloudSummary) -> bool {
        |c: CloudSummary|
            (self.clouds.show_all || owned_cloud(c, user)) && match opt_view(self.clouds.search.query) {
                Some(q) => cloud_matches(c, q),
                None => true,
            }
    }

    /// The clouds the cloud list shows: all, or the user's own, narrowed by
    /// the search.
    pub open spec fn cloud_list(&self) -> Seq<CloudSummary> {
        match self.sessions.active() {
            Some(s) => s.cloud_summaries@.filter(self.cloud_test(s.user_view())),
            None => Seq::empty(),
        }
    }

    fn cloud_passes(&self, c: &CloudSummary, user: &Option<String>) -> (r: bool)
        ensures
            r == self.cloud_test(opt_view(*user))(*c),
    {
        if !self.clouds.show_all {
            let mine = match (&c.owner, user) {
                (Some(o), Some(u)) => text_eq(o.as_str(), u.as_str()),
                _ => false,
            };
            if !mine {
                return false;
            }
        }
        match &self.clouds.search.query {
            Some(q) => {
                fuzzy_match(c.name.as_str(), q.as_str()) || fuzzy_match(
                    text_of_opt(&c.owner),
                    q.as_str(),
                ) || fuzzy_match(text_of_opt(&c.ticket), q.as_str()) || fuzzy_match(
                    text_of_opt(&c.description),
                    q.as_str(),
                )
            },
            None => true,
        }
    }

    /// The positions, in the active session's cloud summaries, of the clouds
    /// the cloud list shows.
    pub fn filtered_cloud_indices(&self) -> (r: Vec<usize>)
        requires
            self.wf(),
        ensures
            r@.len() == self.cloud_list().len(),
            match self.sessions.active() {
                Some(s) => forall|k: int|
                    0 <= k < r@.len() ==> #[trigger] r@[k] < s.cloud_summaries@.len()
                        && self.cloud_list()[k] == s.cloud_summaries@[r@[k] as int],
                None => r@.len() == 0,
            },
    {
        let session = match self.sessions.active_session() {
            Some(s) => s,
            None => return Vec::new(),
        };
        let user = session.username();
        let ghost p = self.cloud_test(opt_view(user));
        let ghost items = session.cloud_summaries@;
        let mut out: Vec<usize> = Vec::new();
        let mut i: usize = 0;
        while i < session.cloud_summaries.len()
            invariant
                i <= items.len(),
                items == session.cloud_summaries@,
                p == self.cloud_test(opt_view(user)),
                forall|k: int| 0 <= k < out@.len() ==> #[trigger] out@[k] < i,
                out@.map_values(|k: usize| items[k as int]) == items.take(i as int).filter(p),
            decreases session.cloud_summaries.len() - i,
        {
            let c = &session.cloud_summaries[i];
            let keep = self.cloud_passes(c, &user);
            let ghost old_out = out@;
            proof {
                let t = items.take(i + 1);
                assert(t.drop_last() =~= items.take(i as int));
                assert(t.last() == *c);
                reveal(Seq::filter);
            }
            if keep {
                out.push(i);
                proof {
                    assert(out@.map_values(|k: usize| items[k as int]) =~= old_out.map_values(
                        |k: usize| items[k as int],
                    ).push(*c));
                }
            }
            i += 1;
        }
        proof {
            assert(items.take(i as int) =~= items);
            assert forall|k: int| 0 <= k < out@.len() implies #[trigger] out@[k] < items.len()
                && self.cloud_list()[k] == items[out@[k] as int] by {
                assert(out@.map_values(|k: usize| items[k as int])[k] == items[out@[k] as int]);
            }
        }
        out
    }

    /// The number of clouds the cloud list shows.
    pub fn filtered_cloud_count(&self) -> (r: usize)
        requires
            self.wf(),
        ensures
            r == self.cloud_list().len(),
    {
        self.filtered_cloud_indices().len()
    }

    /// The assignments the assignment list draws from: all, or the user's
    /// own.
    pub open spec fn assignment_source(&self, s: Session) -> Seq<Assignment> {
        if self.assignments.show_all {
            s.assignments@
        } else {
            s.my_assignments@
        }
    }

    /// The assignment test of the assignment list.
    pub open spec fn assignment_test(&self) -> spec_fn(Assignment) -> bool {
        |a: Assignment|
            match opt_view(self.assignments.search.query) {
                Some(q) => assignment_matches(a, q),
                None => true,
            }
    }

    /// The assignments the assignment list shows, narrowed by the search.
    pub open spec fn assignment_list(&self) -> Seq<Assignment> {
        match self.sessions.active() {
            Some(s) => self.assignment_source(s).filter(self.assignment_test()),
            None => Seq::empty(),
        }
    }

    /// The positions, in the list it draws from, of the assignments the
    /// assignment list shows.
    pub fn filtered_assignment_indices(&self) -> (r: Vec<usize>)
        requires
            self.wf(),
        ensures
            r@.len() == self.assignment_list().len(),
            match self.sessions.active() {
                Some(s) => forall|k: int|
                    0 <= k < r@.len() ==> #[trigger] r@[k] < self.assignment_source(s).len()
                        && self.assignment_list()[k] == self.assignment_source(s)[r@[k] as int],
                None => r@.len() == 0,
            },
    {
        let session = match self.sessions.active_session() {
            Some(s) => s,
            None => return Vec::new(),
        };
        let source = if self.assignments.show_all {
            &session.assignments
        } else {
            &session.my_assignments
        };
        let ghost p = self.assignment_test();
        let ghost items = source@;
        let mut out: Vec<usize> = Vec::new();
        let mut i: usize = 0;
        while i < source.len()
            invariant
                i <= items.len(),
                items == source@,
                p == self.assignment_test(),
                forall|k: int| 0 <= k < out@.len() ==> #[trigger] out@[k] < i,
                out@.map_values(|k: usize| items[k as int]) == items.take(i as int).filter(p),
            decreases source.len() - i,
        {
            let a = &source[i];
            let keep = match &self.assignments.search.query {
                Some(q) => assignment_matches_search(a, q.as_str()),
                None => true,
            };
            let ghost old_out = out@;
            proof {
                let t = items.take(i + 1);
                assert(t.drop_last() =~= items.take(i as int));
                assert(t.last() == *a);
                reveal(Seq::filter);
            }
            if keep {
                out.push(i);
                proof {
                    assert(out@.map_values(|k: usize| items[k as int]) =~= old_out.map_values(
                        |k: usize| items[k as int],
                    ).push(*a));
                }
            }
            i += 1;
        }
        proof {
            assert(items.take(i as int) =~= items);
            assert forall|k: int| 0 <= k < out@.len() implies #[trigger] out@[k] < items.len()
                && self.assignment_list()[k] == items[out@[k] as int] by {
                assert(out@.map_values(|k: usize| items[k as int])[k] == items[out@[k] as int]);
            }
        }
        out
    }

    /// The number of assignments the assignment list shows.
    pub fn filtered_assignment_count(&self) -> (r: usize)
        requires
            self.wf(),
        ensures
            r == self.assignment_list().len(),
    {
        self.filtered_assignment_indices().len()
    }
}

} // verus!
