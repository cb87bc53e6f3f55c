//! What the interface does with data refreshes, finished scheduling and
//! finished actions, and with the passing of time.
use crate::app::{NewAssignmentForm, SchedulingProgress, Screen};
use crate::flows::concat3;
use crate::keys::{refresh_effects, refresh_list, refreshed};
use crate::models::{Assignment, Cloud, CloudSummary, Host, Schedule};
use crate::session::Session;
use crate::state::{ActionResult, App, AssignmentView, Effect, HostView, Popup, RefreshUpdate, ScheduleResult};
use crate::text_util::{contains_text, digits_of, digits_string, has_infix};
use crate::update::UpdateInfo;
use vstd::prelude::*;

verus! {

/// The error popup text of a failed refresh with the error `msg`, pointing
/// at the log file `log_path`.
pub open spec fn refresh_error_text(msg: Seq<char>, log_path: Seq<char>) -> Seq<char> {
    "Data refresh failed: "@ + msg + if has_infix(msg, "error sending request"@) {
        "\n\nServer unreachable, check connectivity.\nSee "@ + log_path + " for details."@
    } else {
        "\nSee "@ + log_path + " for details."@
    }
}

/// The session `n` with a part of its data replaced by a refresh.
pub open spec fn refreshed_session(a: Session, u: RefreshUpdate) -> Session {
    match u {
        RefreshUpdate::Hosts(_, d) => Session { hosts: d, ..a },
        RefreshUpdate::Clouds(_, d) => Session { clouds: d, ..a },
        RefreshUpdate::CloudSummaries(_, d) => Session { cloud_summaries: d, ..a },
        RefreshUpdate::Schedules(_, d) => Session { schedules: d, ..a },
        _ => a,
    }
}

/// The server a piece of data comes from.
pub open spec fn update_server(u: RefreshUpdate) -> Option<Seq<char>> {
    match u {
        RefreshUpdate::Hosts(n, _) => Some(n@),
        RefreshUpdate::Clouds(n, _) => Some(n@),
        RefreshUpdate::CloudSummaries(n, _) => Some(n@),
        RefreshUpdate::Assignments(n, _) => Some(n@),
        RefreshUpdate::Schedules(n, _) => Some(n@),
        _ => None,
    }
}

/// What a piece of a refresh does: data goes into the session of its server
/// (if there still is one; new assignments also renew the user's own), an
/// error shows unless a popup is open, and the end of the refresh stops the
/// loading indicator.
pub open spec fn refresh_applied(s: App, t: App, u: RefreshUpdate, log_path: Seq<char>) -> bool {
    match u {
        RefreshUpdate::Error(msg) => if s.popup is None {
            &&& t.popup matches Some(Popup::Error(m)) && m@ == refresh_error_text(msg@, log_path)
            &&& t == (App { popup: t.popup, ..s })
        } else {
            t == s
        },
        RefreshUpdate::Done => t == (App { refreshing: false, loading: false, ..s }),
        RefreshUpdate::Assignments(n, d) => if s.sessions.has(n@) {
            let i = s.sessions.index_of(n@);
            let a = s.sessions.sessions@[i];
            let b = t.sessions.sessions@[i];
            &&& t.sessions.active_server == s.sessions.active_server
            &&& t.sessions.sessions@ == s.sessions.sessions@.update(i, b)
            &&& b.assignments == d
            &&& b.my_assignments@ == (Session { assignments: d, ..a }).mine()
            &&& b == (Session { assignments: d, my_assignments: b.my_assignments, ..a })
            &&& t == (App { sessions: t.sessions, ..s })
        } else {
            t == s
        },
        _ => if s.sessions.has(update_server(u)->0) {
            let i = s.sessions.index_of(update_server(u)->0);
            &&& t.sessions.active_server == s.sessions.active_server
            &&& t.sessions.sessions@ == s.sessions.sessions@.update(
                i,
                refreshed_session(s.sessions.sessions@[i], u),
            )
            &&& t == (App { sessions: t.sessions, ..s })
        } else {
            t == s
        },
    }
}

impl App {
    fn refresh_error(&mut self, msg: &str, log_path: &str)
        requires
            old(self).wf(),
        ensures
            final(self).wf(),
            old(self).popup is None ==> {
                &&& final(self).popup matches Some(Popup::Error(m)) && m@ == refresh_error_text(
                    msg@,
                    log_path@,
                )
                &&& *final(self) == (App { popup: final(self).popup, ..*old(self) })
            },
            old(self).popup is Some ==> *final(self) == *old(self),
    {
        if self.popup.is_none() {
            let net = contains_text(msg, "error sending request");
            let hint = if net {
                concat3("\n\nServer unreachable, check connectivity.\nSee ", log_path, " for details.")
            } else {
                concat3("\nSee ", log_path, " for details.")
            };
            let text = concat3("Data refresh failed: ", msg, hint.as_str());
            self.popup = Some(Popup::Error(text));
        }
    }

    fn put_hosts(&mut self, n: String, d: Vec<Host>, log_path: &str)
        requires
            old(self).wf(),
        ensures
            final(self).wf(),
            refresh_applied(*old(self), *final(self), RefreshUpdate::Hosts(n, d), log_path@),
    {
        let ghost old_s = self.sessions.sessions@;
        let ghost s0 = *self;
        let ghost u = RefreshUpdate::Hosts(n, d);
        let ghost has = s0.sessions.has(n@);
        if let Some(s) = self.sessions.get_session_mut(n.as_str()) {
            s.hosts = d;
        }
        proof {
            self.lemma_names_kept(old_s);
            assert(update_server(u) == Some(n@));
            if has {
                let i = s0.sessions.index_of(n@);
                assert(self.sessions.sessions@ == s0.sessions.sessions@.update(
                    i,
                    refreshed_session(s0.sessions.sessions@[i], u),
                ));
            }
        }
    }

    fn put_clouds(&mut self, n: String, d: Vec<Cloud>, log_path: &str)
        requires
            old(self).wf(),
        ensures
            final(self).wf(),
            refresh_applied(*old(self), *final(self), RefreshUpdate::Clouds(n, d), log_path@),
    {
        let ghost old_s = self.sessions.sessions@;
        let ghost s0 = *self;
        let ghost u = RefreshUpdate::Clouds(n, d);
        let ghost has = s0.sessions.has(n@);
        if let Some(s) = self.sessions.get_session_mut(n.as_str()) {
            s.clouds = d;
        }
        proof {
            self.lemma_names_kept(old_s);
            assert(update_server(u) == Some(n@));
            if has {
                let i = s0.sessions.index_of(n@);
                assert(self.sessions.sessions@ == s0.sessions.sessions@.update(
                    i,
                    refreshed_session(s0.sessions.sessions@[i], u),
                ));
            }
        }
    }

    fn put_cloud_summaries(&mut self, n: String, d: Vec<CloudSummary>, log_path: &str)
        requires
            old(self).wf(),
        ensures
            final(self).wf(),
            refresh_applied(*old(self), *final(self), RefreshUpdate::CloudSummaries(n, d), log_path@),
    {
        let ghost old_s = self.sessions.sessions@;
        let ghost s0 = *self;
        let ghost u = RefreshUpdate::CloudSummaries(n, d);
        let ghost has = s0.sessions.has(n@);
        if let Some(s) = self.sessions.get_session_mut(n.as_str()) {
            s.cloud_summaries = d;
        }
        proof {
            self.lemma_names_kept(old_s);
            assert(update_server(u) == Some(n@));
            if has {
                let i = s0.sessions.index_of(n@);
                assert(self.sessions.sessions@ == s0.sessions.sessions@.update(
                    i,
                    refreshed_session(s0.sessions.sessions@[i], u),
                ));
            }
        }
    }

    fn put_schedules(&mut self, n: String, d: Vec<Schedule>, log_path: &str)
        requires
            old(self).wf(),
        ensures
            final(self).wf(),
            refresh_applied(*old(self), *final(self), RefreshUpdate::Schedules(n, d), log_path@),
    {
        let ghost old_s = self.sessions.sessions@;
        let ghost s0 = *self;
        let ghost u = RefreshUpdate::Schedules(n, d);
        let ghost has = s0.sessions.has(n@);
        if let Some(s) = self.sessions.get_session_mut(n.as_str()) {
            s.schedules = d;
        }
        proof {
            self.lemma_names_kept(old_s);
            assert(update_server(u) == Some(n@));
            if has {
                let i = s0.sessions.index_of(n@);
                assert(self.sessions.sessions@ == s0.sessions.sessions@.update(
                    i,
                    refreshed_session(s0.sessions.sessions@[i], u),
                ));
            }
        }
    }

    fn put_assignments(&mut self, n: String, d: Vec<Assignment>, log_path: &str)
        requires
            old(self).wf(),
        ensures
            final(self).wf(),
            refresh_applied(*old(self), *final(self), RefreshUpdate::Assignments(n, d), log_path@),
    {
        let ghost old_s = self.sessions.sessions@;
        if let Some(s) = self.sessions.get_session_mut(n.as_str()) {
            s.assignments = d;
            s.recalc_my_assignments();
        }
        proof {
            self.lemma_names_kept(old_s);
        }
    }

    fn refresh_done(&mut self, log_path: &str)
        requires
            old(self).wf(),
        ensures
            final(self).wf(),
            refresh_applied(*old(self), *final(self), RefreshUpdate::Done, log_path@),
    {
        self.refreshing = false;
        self.loading = false;
    }

    /// Takes in one piece of a data refresh (`refresh_applied`).
    pub fn apply_refresh(&mut self, update: RefreshUpdate, log_path: &str)
        requires
            old(self).wf(),
        ensures
            final(self).wf(),
            refresh_applied(*old(self), *final(self), update, log_path@),
    {
        match update {
            RefreshUpdate::Error(msg) => self.refresh_error(msg.as_str(), log_path),
            RefreshUpdate::Done => self.refresh_done(log_path),
            RefreshUpdate::Hosts(n, d) => self.put_hosts(n, d, log_path),
            RefreshUpdate::Clouds(n, d) => self.put_clouds(n, d, log_path),
            RefreshUpdate::CloudSummaries(n, d) => self.put_cloud_summaries(n, d, log_path),
            RefreshUpdate::Schedules(n, d) => self.put_schedules(n, d, log_path),
            RefreshUpdate::Assignments(n, d) => self.put_assignments(n, d, log_path),
        }
    }

    proof fn lemma_names_kept(&self, old_s: Seq<Session>)
        requires
            old_s.len() == self.sessions.sessions@.len(),
            forall|k: int| 0 <= k < old_s.len() ==> #[trigger] old_s[k].name == self.sessions.sessions@[k].name,
            forall|a: int, b: int|
                0 <= a < b < old_s.len() ==> #[trigger] old_s[a].name@ != #[trigger] old_s[b].name@,
            self.sessions.active_server is Some ==> exists|k: int|
                0 <= k < old_s.len() && #[trigger] old_s[k].name@ == self.sessions.active_server->0@,
        ensures
            self.sessions.wf(),
    {
        assert forall|a: int, b: int|
            0 <= a < b < self.sessions.sessions@.len() implies #[trigger] self.sessions.sessions@[a].name@
            != #[trigger] self.sessions.sessions@[b].name@ by {
            assert(old_s[a].name@ != old_s[b].name@);
        }
        if self.sessions.active_server is Some {
            let k = choose|k: int| 0 <= k < old_s.len() && #[trigger] old_s[k].name@ == self.sessions.active_server->0@;
            assert(self.sessions.sessions@[k].name@ == old_s[k].name@);
        }
    }
}

/// Texts joined with line breaks between them.
pub open spec fn joined(parts: Seq<Seq<char>>) -> Seq<char>
    decreases parts.len(),
{
    if parts.len() == 0 {
        Seq::empty()
    } else if parts.len() == 1 {
        parts[0]
    } else {
        joined(parts.drop_last()) + "\n"@ + parts.last()
    }
}

/// The texts of a list of strings.
pub open spec fn texts(v: Seq<String>) -> Seq<Seq<char>> {
    v.map_values(|x: String| x@)
}

/// `parts` joined with line breaks.
pub fn join_lines(parts: &Vec<String>) -> (r: String)
    ensures
        r@ == joined(texts(parts@)),
{
    let mut out = String::new();
    let mut i: usize = 0;
    while i < parts.len()
        invariant
            i <= parts@.len(),
            out@ == joined(texts(parts@.take(i as int))),
        decreases parts.len() - i,
    {
        proof {
            assert(texts(parts@.take(i + 1)).drop_last() =~= texts(parts@.take(i as int)));
            assert(texts(parts@.take(i + 1)).last() == parts@[i as int]@);
        }
        if i > 0 {
            out.append("\n");
        }
        out.append(parts[i].as_str());
        proof {
            if i == 0 {
                assert(out@ =~= parts@[0]@);
            }
        }
        i += 1;
    }
    proof {
        assert(parts@.take(i as int) =~= parts@);
    }
    out
}

/// The decimal notation of a count.
pub fn count_text(n: usize) -> (r: String)
    ensures
        r@ == digits_of(n as nat),
{
    digits_string(n as u64)
}

impl ScheduleResult {
    /// No host scheduled yet.
    pub fn new() -> (r: Self)
        ensures
            r.success_count == 0,
            r.fail_count == 0,
            r.errors@.len() == 0,
    {
        ScheduleResult { success_count: 0, fail_count: 0, errors: Vec::new() }
    }

    /// Counts the outcome of scheduling `host`: a success, or a failure
    /// whose line names the host and the error.
    pub fn record(&mut self, host: &str, outcome: Result<i64, String>)
        requires
            old(self).success_count < usize::MAX,
            old(self).errors@.len() < usize::MAX,
        ensures
            match outcome {
                Ok(_) => final(self).success_count == old(self).success_count + 1
                    && final(self).errors@ == old(self).errors@
                    && final(self).fail_count == old(self).fail_count,
                Err(e) => final(self).success_count == old(self).success_count
                    && final(self).errors@.len() == old(self).errors@.len() + 1
                    && final(self).errors@.take(old(self).errors@.len() as int) == old(self).errors@
                    && final(self).errors@.last()@ == host@ + ": "@ + e@
                    && final(self).fail_count == final(self).errors@.len(),
            },
    {
        match outcome {
            Ok(_) => {
                self.success_count = self.success_count + 1;
            },
            Err(e) => {
                self.errors.push(concat3(host, ": ", e.as_str()));
                self.fail_count = self.errors.len();
                proof {
                    assert(self.errors@.take(old(self).errors@.len() as int) =~= old(self).errors@);
                }
            },
        }
    }

    /// Creating the assignment failed, so none of the `total` hosts was
    /// scheduled.
    pub fn creation_failed(total: usize, err: &str) -> (r: Self)
        ensures
            r.success_count == 0,
            r.fail_count == total,
            r.errors@.len() == 1,
            r.errors@[0]@ == "Assignment creation failed: "@ + err@,
    {
        let mut errors: Vec<String> = Vec::new();
        errors.push(concat3("Assignment creation failed: ", err, ""));
        proof {
            reveal_strlit("");
            assert("Assignment creation failed: "@ + err@ + ""@ =~= "Assignment creation failed: "@
                + err@);
        }
        ScheduleResult { success_count: 0, fail_count: total, errors }
    }
}

/// The popup text after some hosts could not be scheduled.
pub open spec fn schedule_report(r: ScheduleResult) -> Seq<char> {
    "Scheduled "@ + digits_of(r.success_count as nat) + "/"@ + digits_of(
        (r.success_count + r.fail_count) as nat,
    ) + " hosts.\nErrors:\n"@ + joined(texts(r.errors@))
}

/// The state once scheduling ended with `r`, before the data is fetched
/// again: the picked hosts are dropped, and either a status says how many
/// hosts were scheduled or an error popup lists the failures.
pub open spec fn schedule_reported(s: App, t: App, r: ScheduleResult) -> bool {
    &&& t.hosts.multi_select@.len() == 0
    &&& t.hosts == (HostView { multi_select: t.hosts.multi_select, ..s.hosts })
    &&& if r.fail_count == 0 {
        &&& t.status_message matches Some(m) && m@ == "Scheduled "@ + digits_of(
            r.success_count as nat,
        ) + " host(s) successfully"@
        &&& t == (App {
            hosts: t.hosts,
            status_message: t.status_message,
            popup: None,
            pending_schedule: false,
            ..s
        })
    } else {
        &&& t.popup matches Some(Popup::Error(m)) && m@ == schedule_report(r)
        &&& t == (App { hosts: t.hosts, popup: t.popup, pending_schedule: false, ..s })
    }
}

/// The state once an action ended with `r`, before any data is fetched
/// again: a finished update asks for a restart; another success shows its
/// message as the status (and closes the hosts of an assignment when asked
/// to); a failure shows its message in an error popup.
pub open spec fn action_reported(s: App, t: App, r: ActionResult) -> bool {
    if r.success {
        if r.exit_after {
            t == (App { popup: Some(Popup::UpdateComplete(r.message)), pending_action: false, ..s })
        } else {
            t == (App {
                status_message: Some(r.message),
                popup: None,
                assignments: AssignmentView {
                    detail_selected: if r.clear_detail {
                        None
                    } else {
                        s.assignments.detail_selected
                    },
                    ..s.assignments
                },
                pending_action: false,
                ..s
            })
        }
    } else {
        t == (App { popup: Some(Popup::Error(r.message)), pending_action: false, ..s })
    }
}

/// Whether an action's outcome is followed by fetching the data again.
pub open spec fn action_refreshes(r: ActionResult) -> bool {
    r.success && !r.exit_after
}

impl App {
    fn report_schedule(&mut self, r: ScheduleResult)
        requires
            old(self).wf(),
            r.success_count + r.fail_count <= usize::MAX,
        ensures
            final(self).wf(),
            schedule_reported(*old(self), *final(self), r),
    {
        let ok = r.fail_count == 0;
        let text = if ok {
            let n = count_text(r.success_count);
            concat3("Scheduled ", n.as_str(), " host(s) successfully")
        } else {
            let a = count_text(r.success_count);
            let b = count_text(r.success_count + r.fail_count);
            let mut m = concat3("Scheduled ", a.as_str(), "/");
            m.append(b.as_str());
            m.append(" hosts.\nErrors:\n");
            let j = join_lines(&r.errors);
            m.append(j.as_str());
            m
        };
        self.schedule_step(ok, text);
    }

    fn schedule_step(&mut self, ok: bool, text: String)
        requires
            old(self).wf(),
        ensures
            final(self).wf(),
            final(self).hosts.multi_select@.len() == 0,
            final(self).hosts == (HostView {
                multi_select: final(self).hosts.multi_select,
                ..old(self).hosts
            }),
            ok ==> *final(self) == (App {
                hosts: final(self).hosts,
                status_message: Some(text),
                popup: None,
                pending_schedule: false,
                ..*old(self)
            }),
            !ok ==> *final(self) == (App {
                hosts: final(self).hosts,
                popup: Some(Popup::Error(text)),
                pending_schedule: false,
                ..*old(self)
            }),
    {
        self.hosts.multi_select = Vec::new();
        self.pending_schedule = false;
        if ok {
            self.status_message = Some(text);
            self.popup = None;
        } else {
            self.popup = Some(Popup::Error(text));
        }
    }

    /// Acts on the end of scheduling a batch of hosts (`schedule_reported`),
    /// then fetches the data again.
    pub fn handle_schedule_result(&mut self, r: ScheduleResult) -> (fx: Vec<Effect>)
        requires
            old(self).wf(),
            r.success_count + r.fail_count <= usize::MAX,
        ensures
            final(self).wf(),
            exists|m: App|
                schedule_reported(*old(self), m, r) && *final(self) == refreshed(m)
                    && refresh_effects(m, fx@),
    {
        let ghost r0 = r;
        self.report_schedule(r);
        let ghost m = *self;
        let fx = refresh_list(self);
        proof {
            assert(schedule_reported(*old(self), m, r0) && *self == refreshed(m) && refresh_effects(
                m,
                fx@,
            ));
        }
        fx
    }

    fn report_action(&mut self, r: ActionResult)
        requires
            old(self).wf(),
        ensures
            final(self).wf(),
            action_reported(*old(self), *final(self), r),
    {
        self.pending_action = false;
        if r.success {
            if r.exit_after {
                self.popup = Some(Popup::UpdateComplete(r.message));
            } else {
                self.status_message = Some(r.message);
                self.popup = None;
                if r.clear_detail {
                    self.assignments.detail_selected = None;
                }
            }
        } else {
            self.popup = Some(Popup::Error(r.message));
        }
    }

    /// Acts on the end of an action (`action_reported`), then fetches the
    /// data again after a success that does not end the program.
    pub fn handle_action_result(&mut self, r: ActionResult) -> (fx: Vec<Effect>)
        requires
            old(self).wf(),
        ensures
            final(self).wf(),
            exists|m: App|
                action_reported(*old(self), m, r) && if action_refreshes(r) {
                    *final(self) == refreshed(m) && refresh_effects(m, fx@)
                } else {
                    *final(self) == m && fx@.len() == 0
                },
    {
        let again = r.success && !r.exit_after;
        let ghost r0 = r;
        self.report_action(r);
        let ghost m = *self;
        let fx = if again {
            refresh_list(self)
        } else {
            Vec::new()
        };
        proof {
            assert(action_refreshes(r0) == again);
            assert(action_reported(*old(self), m, r0) && if action_refreshes(r0) {
                *self == refreshed(m) && refresh_effects(m, fx@)
            } else {
                *self == m && fx@.len() == 0
            });
        }
        fx
    }

    fn begin_action(&mut self, label: &str, e: Effect) -> (fx: Vec<Effect>)
        requires
            old(self).wf(),
        ensures
            final(self).wf(),
            old(self).sessions.active() is Some ==> {
                &&& final(self).popup matches Some(Popup::Working(m)) && m@ == label@
                &&& *final(self) == (App {
                    popup: final(self).popup,
                    pending_action: true,
                    ..*old(self)
                })
                &&& fx@ == seq![e]
            },
            old(self).sessions.active() is None ==> *final(self) == *old(self) && fx@.len() == 0,
    {
        if self.sessions.active_index().is_none() {
            return Vec::new();
        }
        self.pending_action = true;
        self.popup = Some(Popup::Working(String::from_str(label)));
        let mut fx: Vec<Effect> = Vec::new();
        fx.push(e);
        fx
    }

    /// Asks to terminate an assignment of the active server.
    pub fn start_terminate(&mut self, assignment_id: i64) -> (fx: Vec<Effect>)
        requires
            old(self).wf(),
        ensures
            final(self).wf(),
            old(self).sessions.active() is Some ==> {
                &&& final(self).popup matches Some(Popup::Working(m)) && m@
                    == "Terminating assignment..."@
                &&& *final(self) == (App {
                    popup: final(self).popup,
                    pending_action: true,
                    ..*old(self)
                })
                &&& fx@ == seq![Effect::Terminate { assignment_id }]
            },
            old(self).sessions.active() is None ==> *final(self) == *old(self) && fx@.len() == 0,
    {
        self.begin_action("Terminating assignment...", Effect::Terminate { assignment_id })
    }

    /// Asks to remove a host from its assignment on the active server.
    pub fn start_unschedule(&mut self, schedule_id: i64) -> (fx: Vec<Effect>)
        requires
            old(self).wf(),
        ensures
            final(self).wf(),
            old(self).sessions.active() is Some ==> {
                &&& final(self).popup matches Some(Popup::Working(m)) && m@ == "Unscheduling host..."@
                &&& *final(self) == (App {
                    popup: final(self).popup,
                    pending_action: true,
                    ..*old(self)
                })
                &&& fx@ == seq![Effect::Unschedule { schedule_id }]
            },
            old(self).sessions.active() is None ==> *final(self) == *old(self) && fx@.len() == 0,
    {
        self.begin_action("Unscheduling host...", Effect::Unschedule { schedule_id })
    }

    /// Asks to schedule `hosts` into the existing cloud `cloud_name`.
    pub fn start_schedule_existing(&mut self, cloud_name: String, hosts: Vec<String>) -> (fx: Vec<
        Effect,
    >)
        requires
            old(self).wf(),
        ensures
            final(self).wf(),
            existing_started(*old(self), *final(self), cloud_name@, hosts@, fx@),
    {
        if self.sessions.active_index().is_none() {
            return Vec::new();
        }
        let total = hosts.len();
        self.popup = Some(
            Popup::Scheduling(SchedulingProgress { total, cloud_name: cloud_name.clone() }),
        );
        self.pending_schedule = true;
        let mut fx: Vec<Effect> = Vec::new();
        fx.push(Effect::ScheduleExisting { cloud_name, hosts });
        fx
    }

    /// Asks to create a self-scheduled assignment with the form's settings,
    /// owned by the logged-in user, and schedule the form's hosts into it.
    pub fn start_schedule_new(&mut self, form: NewAssignmentForm) -> (fx: Vec<Effect>)
        requires
            old(self).wf(),
        ensures
            final(self).wf(),
            new_started(*old(self), *final(self), form, fx@),
    {
        let owner = match self.sessions.active_session() {
            Some(s) => match s.username() {
                Some(u) => u,
                None => String::new(),
            },
            None => return Vec::new(),
        };
        let total = form.selected_hosts.len();
        self.popup = Some(
            Popup::Scheduling(
                SchedulingProgress { total, cloud_name: String::from_str("creating...") },
            ),
        );
        self.pending_schedule = true;
        let qinq: i64 = if form.qinq {
            1
        } else {
            0
        };
        let mut fx: Vec<Effect> = Vec::new();
        fx.push(
            Effect::ScheduleNew {
                description: form.description.value,
                owner,
                qinq,
                wipe: form.wipe,
                hosts: form.selected_hosts,
            },
        );
        fx
    }

    /// A tick of the clock: the counter moves on (wrapping around), and a
    /// login success popup closes four ticks after it opened.
    pub fn on_tick(&mut self)
        requires
            old(self).wf(),
        ensures
            final(self).wf(),
            final(self).tick == (if old(self).tick == usize::MAX {
                0
            } else {
                old(self).tick + 1
            }),
            success_expired(old(self).popup, final(self).tick) ==> *final(self) == (App {
                tick: final(self).tick,
                popup: None,
                ..*old(self)
            }),
            !success_expired(old(self).popup, final(self).tick) ==> *final(self) == (App {
                tick: final(self).tick,
                ..*old(self)
            }),
    {
        let t = if self.tick == usize::MAX {
            0
        } else {
            self.tick + 1
        };
        let expire = match &self.popup {
            Some(Popup::ConnectSuccess(_, at)) => {
                let at = *at;
                let gap = if t >= at {
                    t - at
                } else {
                    t + (usize::MAX - at) + 1
                };
                gap >= 4
            },
            _ => false,
        };
        self.tick_to(t, expire);
    }

    fn tick_to(&mut self, t: usize, expire: bool)
        ensures
            expire ==> *final(self) == (App { tick: t, popup: None, ..*old(self) }),
            !expire ==> *final(self) == (App { tick: t, ..*old(self) }),
    {
        self.tick = t;
        if expire {
            self.popup = None;
        }
    }

    /// Takes in the outcome of an update check.
    pub fn update_checked(&mut self, info: Option<UpdateInfo>)
        requires
            old(self).wf(),
        ensures
            final(self).wf(),
            info is Some ==> *final(self) == (App {
                update_pending: false,
                update_available: info,
                ..*old(self)
            }),
            info is None ==> *final(self) == (App { update_pending: false, ..*old(self) }),
    {
        let found = info.is_some();
        self.update_step(found, info);
    }

    fn update_step(&mut self, found: bool, info: Option<UpdateInfo>)
        requires
            found == info is Some,
        ensures
            found ==> *final(self) == (App {
                update_pending: false,
                update_available: info,
                ..*old(self)
            }),
            !found ==> *final(self) == (App { update_pending: false, ..*old(self) }),
    {
        self.update_pending = false;
        if found {
            self.update_available = info;
        }
    }

    /// Whether the dashboard should fetch the data again by itself: with
    /// auto-refresh on, the terminal focused, the dashboard shown, no popup
    /// open and no refresh under way (the runner also waits for the refresh
    /// interval).
    pub fn should_auto_refresh(&self) -> (r: bool)
        ensures
            r == (self.auto_refresh && self.focused && self.screen == Screen::Dashboard
                && self.popup is None && !self.refreshing),
    {
        self.auto_refresh && self.focused && self.screen == Screen::Dashboard
            && self.popup.is_none() && !self.refreshing
    }

    /// Records whether the terminal has the focus.
    pub fn set_focus(&mut self, focused: bool)
        ensures
            *final(self) == (App { focused: focused, ..*old(self) }),
    {
        self.focused = focused;
    }
}

/// Scheduling hosts into the existing cloud `cloud` starts (with an active
/// session): the scheduling popup shows and the runner is asked to do it.
pub open spec fn existing_started(s: App, t: App, cloud: Seq<char>, hosts: Seq<String>, fx: Seq<
    Effect,
>) -> bool {
    if s.sessions.active() is Some {
        &&& t.popup matches Some(Popup::Scheduling(p)) && p.total == hosts.len() && p.cloud_name@
            == cloud
        &&& t == (App { popup: t.popup, pending_schedule: true, ..s })
        &&& fx.len() == 1 && (fx[0] matches Effect::ScheduleExisting { cloud_name: c, hosts: h }
            && c@ == cloud && h@ == hosts)
    } else {
        t == s && fx.len() == 0
    }
}

/// Creating an assignment from a form and scheduling its hosts into it
/// starts (with an active session): the scheduling popup shows and the
/// runner is asked to do it, the assignment owned by the logged-in user.
pub open spec fn new_started(s: App, t: App, form: NewAssignmentForm, fx: Seq<Effect>) -> bool {
    match s.sessions.active() {
        Some(a) => {
            &&& t.popup matches Some(Popup::Scheduling(p)) && p.total == form.selected_hosts@.len()
                && p.cloud_name@ == "creating..."@
            &&& t == (App { popup: t.popup, pending_schedule: true, ..s })
            &&& fx.len() == 1 && (fx[0] matches Effect::ScheduleNew {
                description,
                owner,
                qinq,
                wipe,
                hosts,
            } && description@ == form.description.value@ && owner@ == crate::app::text_or_empty(
                a.user_view(),
            ) && qinq == (if form.qinq {
                1i64
            } else {
                0i64
            }) && wipe == form.wipe && hosts@ == form.selected_hosts@)
        },
        None => t == s && fx.len() == 0,
    }
}

/// Whether a login success popup that opened at a tick has been shown for
/// four ticks at tick `t` (ticks wrap around).
pub open spec fn success_expired(p: Option<Popup>, t: usize) -> bool {
    match p {
        Some(Popup::ConnectSuccess(_, at)) => (if t >= at {
            t - at
        } else {
            t + (usize::MAX - at) + 1
        }) >= 4,
        _ => false,
    }
}

impl ActionResult {
    /// The outcome of terminating an assignment.
    pub fn terminated(outcome: Result<String, String>) -> (r: Self)
        ensures
            !r.clear_detail && !r.exit_after,
            match outcome {
                Ok(m) => r.success && r.message == m,
                Err(e) => !r.success && r.message@ == "Termination failed: "@ + e@,
            },
    {
        match outcome {
            Ok(m) => ActionResult { success: true, message: m, clear_detail: false, exit_after: false },
            Err(e) => {
                let message = concat3("Termination failed: ", e.as_str(), "");
                proof {
                    reveal_strlit("");
                    assert("Termination failed: "@ + e@ + ""@ =~= "Termination failed: "@ + e@);
                }
                ActionResult { success: false, message, clear_detail: false, exit_after: false }
            },
        }
    }

    /// The outcome of removing a host from its assignment; a success closes
    /// the hosts of the assignment.
    pub fn unscheduled(outcome: Result<String, String>) -> (r: Self)
        ensures
            !r.exit_after,
            match outcome {
                Ok(m) => r.success && r.message == m && r.clear_detail,
                Err(e) => !r.success && !r.clear_detail && r.message@ == "Unschedule failed: "@
                    + e@,
            },
    {
        match outcome {
            Ok(m) => ActionResult { success: true, message: m, clear_detail: true, exit_after: false },
            Err(e) => {
                let message = concat3("Unschedule failed: ", e.as_str(), "");
                proof {
                    reveal_strlit("");
                    assert("Unschedule failed: "@ + e@ + ""@ =~= "Unschedule failed: "@ + e@);
                }
                ActionResult { success: false, message, clear_detail: false, exit_after: false }
            },
        }
    }

    /// The outcome of installing the release `version`; a success ends the
    /// program.
    pub fn updated(outcome: Result<(), String>, version: &str) -> (r: Self)
        ensures
            !r.clear_detail,
            match outcome {
                Ok(()) => r.success && r.exit_after && r.message@ == "Updated to v"@ + version@
                    + " \u{2014} restart to apply"@,
                Err(e) => !r.success && !r.exit_after && r.message@ == "Update failed: "@ + e@,
            },
    {
        match outcome {
            Ok(()) => {
                let message = concat3("Updated to v", version, " \u{2014} restart to apply");
                ActionResult { success: true, message, clear_detail: false, exit_after: true }
            },
            Err(e) => {
                let message = concat3("Update failed: ", e.as_str(), "");
                proof {
                    reveal_strlit("");
                    assert("Update failed: "@ + e@ + ""@ =~= "Update failed: "@ + e@);
                }
                ActionResult { success: false, message, clear_detail: false, exit_after: false }
            },
        }
    }
}

} // verus!
