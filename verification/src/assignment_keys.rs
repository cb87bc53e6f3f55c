//! What a key does on the assignment list and in the hosts of the selected
//! assignment.
use crate::app::{HostInfoState, Screen};
use crate::keys::{
    backed, ch, is_ch, is_nav, is_nav_key, is_shared, nav, nav_index, refresh_effects, search_key,
    search_step, shared_next, ListAct,
};
use crate::models::{Assignment, Schedule};
use crate::state::{popup_wf, App, AssignmentView, Effect, Key, Popup, SearchState};
use vstd::prelude::*;

verus! {

/// Whether a schedule belongs to the assignment with id `id`.
pub open spec fn sched_of(id: Option<i64>) -> spec_fn(Schedule) -> bool {
    |x: Schedule| x.assignment_id == id
}

impl App {
    /// The assignment under the cursor of the assignment list.
    pub open spec fn selected_assignment(&self) -> Option<Assignment> {
        let l = self.assignment_list();
        if self.assignments.search.selected < l.len() {
            Some(l[self.assignments.search.selected as int])
        } else {
            None
        }
    }

    /// The schedules (hosts) of the selected assignment.
    pub open spec fn detail_schedules(&self) -> Seq<Schedule> {
        match (self.sessions.active(), self.selected_assignment()) {
            (Some(s), Some(a)) => s.schedules@.filter(sched_of(a.id)),
            _ => Seq::empty(),
        }
    }

    /// The assignment `t` terminates: the one under the cursor of the list
    /// as shown, search included.
    pub open spec fn terminate_id(&self) -> Option<i64> {
        match self.selected_assignment() {
            Some(a) => a.id,
            None => None,
        }
    }

    /// The positions, in the active session's schedules, of the schedules
    /// of the selected assignment.
    pub fn detail_schedule_indices(&self) -> (r: Vec<usize>)
        requires
            self.wf(),
        ensures
            r@.len() == self.detail_schedules().len(),
            match self.sessions.active() {
                Some(s) => forall|k: int|
                    0 <= k < r@.len() ==> #[trigger] r@[k] < s.schedules@.len()
                        && self.detail_schedules()[k] == s.schedules@[r@[k] as int],
                None => r@.len() == 0,
            },
    {
        let session = match self.sessions.active_session() {
            Some(s) => s,
            None => return Vec::new(),
        };
        let idx = self.filtered_assignment_indices();
        let sel = self.assignments.search.selected;
        if sel >= idx.len() {
            return Vec::new();
        }
        let id = if self.assignments.show_all {
            session.assignments[idx[sel]].id
        } else {
            session.my_assignments[idx[sel]].id
        };
        let ghost p = sched_of(id);
        let ghost items = session.schedules@;
        let mut out: Vec<usize> = Vec::new();
        let mut i: usize = 0;
        while i < session.schedules.len()
            invariant
                i <= items.len(),
                items == session.schedules@,
                p == sched_of(id),
                forall|k: int| 0 <= k < out@.len() ==> #[trigger] out@[k] < i,
                out@.map_values(|k: usize| items[k as int]) == items.take(i as int).filter(p),
            decreases session.schedules.len() - i,
        {
            let x = &session.schedules[i];
            let keep = x.assignment_id == id;
            let ghost old_out = out@;
            proof {
                let t = items.take(i + 1);
                assert(t.drop_last() =~= items.take(i as int));
                assert(t.last() == *x);
                reveal(Seq::filter);
            }
            if keep {
                out.push(i);
                proof {
                    assert(out@.map_values(|k: usize| items[k as int]) =~= old_out.map_values(
                        |k: usize| items[k as int],
                    ).push(*x));
                }
            }
            i += 1;
        }
        proof {
            assert(items.take(i as int) =~= items);
            assert forall|k: int| 0 <= k < out@.len() implies #[trigger] out@[k] < items.len()
                && self.detail_schedules()[k] == items[out@[k] as int] by {
                assert(out@.map_values(|k: usize| items[k as int])[k] == items[out@[k] as int]);
            }
        }
        out
    }

    /// The number of hosts of the selected assignment.
    pub fn assignment_schedule_count(&self) -> (r: usize)
        requires
            self.wf(),
        ensures
            r == self.detail_schedules().len(),
    {
        self.detail_schedule_indices().len()
    }

    /// The id of the assignment `t` would terminate.
    pub fn terminate_target(&self) -> (r: Option<i64>)
        requires
            self.wf(),
        ensures
            r == self.terminate_id(),
    {
        let session = match self.sessions.active_session() {
            Some(s) => s,
            None => return None,
        };
        let idx = self.filtered_assignment_indices();
        let sel = self.assignments.search.selected;
        if sel >= idx.len() {
            return None;
        }
        if self.assignments.show_all {
            session.assignments[idx[sel]].id
        } else {
            session.my_assignments[idx[sel]].id
        }
    }
}

/// What a key asks of the assignment list outside a search and outside the
/// hosts of an assignment.
pub open spec fn assignments_act(key: Key) -> ListAct {
    if key == Key::Esc {
        ListAct::Back
    } else if is_ch(key, 'q', 'Q') {
        ListAct::Quit
    } else if is_nav_key(key) {
        ListAct::Nav
    } else if key == Key::Enter {
        ListAct::OpenDetail
    } else if key == Key::Tab {
        ListAct::ToggleAll
    } else if key == Key::Char('/') {
        ListAct::StartSearch
    } else if is_ch(key, 't', 'T') {
        ListAct::Terminate
    } else if is_ch(key, 'r', 'R') {
        ListAct::Refresh
    } else if is_ch(key, 'x', 'X') {
        ListAct::AutoRefresh
    } else if is_ch(key, 'd', 'D') {
        ListAct::Goto(Screen::Dashboard)
    } else if is_ch(key, 'h', 'H') {
        ListAct::Goto(Screen::Hosts)
    } else if is_ch(key, 'c', 'C') {
        ListAct::Goto(Screen::Clouds)
    } else if key == Key::Right {
        ListAct::NextScreen
    } else if key == Key::Left {
        ListAct::PrevScreen
    } else {
        ListAct::Nothing
    }
}

fn assignments_act_of(key: Key) -> (r: ListAct)
    ensures
        r == assignments_act(key),
{
    if key == Key::Esc {
        ListAct::Back
    } else if ch(key, 'q', 'Q') {
        ListAct::Quit
    } else if is_nav(key) {
        ListAct::Nav
    } else if key == Key::Enter {
        ListAct::OpenDetail
    } else if key == Key::Tab {
        ListAct::ToggleAll
    } else if key == Key::Char('/') {
        ListAct::StartSearch
    } else if ch(key, 't', 'T') {
        ListAct::Terminate
    } else if ch(key, 'r', 'R') {
        ListAct::Refresh
    } else if ch(key, 'x', 'X') {
        ListAct::AutoRefresh
    } else if ch(key, 'd', 'D') {
        ListAct::Goto(Screen::Dashboard)
    } else if ch(key, 'h', 'H') {
        ListAct::Goto(Screen::Hosts)
    } else if ch(key, 'c', 'C') {
        ListAct::Goto(Screen::Clouds)
    } else if key == Key::Right {
        ListAct::NextScreen
    } else if key == Key::Left {
        ListAct::PrevScreen
    } else {
        ListAct::Nothing
    }
}

/// The assignment list after a key that only concerns it: Esc drops the
/// search; one row up or down also closes the hosts of the old row, while
/// the other moving keys keep them; Enter opens the hosts of the selected
/// assignment when it has some (`hosts` of them); Tab switches between all
/// assignments and the user's own; `/` starts a search.
pub open spec fn assignment_view_next(
    v: AssignmentView,
    act: ListAct,
    key: Key,
    count: int,
    hosts: int,
) -> AssignmentView {
    let sel = v.search.selected;
    match act {
        ListAct::Back => AssignmentView {
            search: SearchState { query: None, selected: 0, ..v.search },
            ..v
        },
        ListAct::Nav => if (key == Key::Up || is_ch(key, 'k', 'K')) && sel > 0 {
            AssignmentView {
                search: SearchState { selected: (sel - 1) as usize, ..v.search },
                detail_selected: None,
                ..v
            }
        } else if (key == Key::Down || is_ch(key, 'j', 'J')) && count > 0 && sel < count - 1 {
            AssignmentView {
                search: SearchState { selected: (sel + 1) as usize, ..v.search },
                detail_selected: None,
                ..v
            }
        } else {
            AssignmentView {
                search: SearchState { selected: nav_index(sel, key, count), ..v.search },
                ..v
            }
        },
        ListAct::OpenDetail => if hosts > 0 {
            AssignmentView { detail_selected: Some(0), ..v }
        } else {
            v
        },
        ListAct::ToggleAll => AssignmentView {
            search: SearchState { selected: 0, ..v.search },
            show_all: !v.show_all,
            detail_selected: None,
        },
        ListAct::StartSearch => AssignmentView {
            search: SearchState { active: true, query: None, selected: 0 },
            detail_selected: None,
            ..v
        },
        _ => v,
    }
}

/// What a key does on the assignment list outside a search and outside the
/// hosts of an assignment, with `count` rows shown and `fx` the work asked
/// for: Esc without a search goes back, `t` asks to confirm terminating the
/// assignment `terminate_id` names, keys that concern the list change it
/// (`assignment_view_next`); the rest is shared.
#[verifier::opaque]
pub open spec fn assignments_key_result(
    s: App,
    t: App,
    key: Key,
    count: int,
    hosts: int,
    fx: Seq<Effect>,
) -> bool {
    let act = assignments_act(key);
    match act {
        ListAct::Back => fx.len() == 0 && if s.assignments.search.query is Some {
            t == App { assignments: assignment_view_next(s.assignments, act, key, count, hosts), ..s }
        } else {
            t == backed(s)
        },
        ListAct::Nav | ListAct::OpenDetail | ListAct::ToggleAll | ListAct::StartSearch => fx.len()
            == 0 && t == App {
            assignments: assignment_view_next(s.assignments, act, key, count, hosts),
            ..s
        },
        ListAct::Terminate => fx.len() == 0 && match s.terminate_id() {
            Some(id) => t == App { popup: Some(Popup::ConfirmTerminate(id)), ..s },
            None => t == s,
        },
        _ => t == shared_next(s, act) && (act == ListAct::Refresh ==> refresh_effects(s, fx)) && (
        act != ListAct::Refresh ==> fx.len() == 0),
    }
}

proof fn lemma_assign_back(s: App, t: App, key: Key, count: int, hosts: int, fx: Seq<Effect>)
    requires
        assignments_act(key) == ListAct::Back,
        fx.len() == 0,
        s.assignments.search.query is Some ==> t == (App {
            assignments: assignment_view_next(s.assignments, ListAct::Back, key, count, hosts),
            ..s
        }),
        s.assignments.search.query is None ==> t == backed(s),
    ensures
        assignments_key_result(s, t, key, count, hosts, fx),
{
    reveal(assignments_key_result);
}

proof fn lemma_assign_view(s: App, t: App, key: Key, count: int, hosts: int, fx: Seq<Effect>)
    requires
        ({
            let act = assignments_act(key);
            act == ListAct::Nav || act == ListAct::OpenDetail || act == ListAct::ToggleAll || act
                == ListAct::StartSearch
        }),
        fx.len() == 0,
        t == (App {
            assignments: assignment_view_next(s.assignments, assignments_act(key), key, count, hosts),
            ..s
        }),
    ensures
        assignments_key_result(s, t, key, count, hosts, fx),
{
    reveal(assignments_key_result);
}

proof fn lemma_assign_terminate(s: App, t: App, key: Key, count: int, hosts: int, fx: Seq<Effect>)
    requires
        assignments_act(key) == ListAct::Terminate,
        fx.len() == 0,
        s.terminate_id() is Some ==> t == (App {
            popup: Some(Popup::ConfirmTerminate(s.terminate_id()->0)),
            ..s
        }),
        s.terminate_id() is None ==> t == s,
    ensures
        assignments_key_result(s, t, key, count, hosts, fx),
{
    reveal(assignments_key_result);
}

proof fn lemma_assign_shared(s: App, t: App, key: Key, count: int, hosts: int, fx: Seq<Effect>)
    requires
        is_shared(assignments_act(key)),
        t == shared_next(s, assignments_act(key)),
        assignments_act(key) == ListAct::Refresh ==> refresh_effects(s, fx),
        assignments_act(key) != ListAct::Refresh ==> fx.len() == 0,
    ensures
        assignments_key_result(s, t, key, count, hosts, fx),
{
    reveal(assignments_key_result);
}

proof fn lemma_nav_view(v: AssignmentView, key: Key, count: int, hosts: int, next: usize, clear: bool)
    requires
        next == nav_index(v.search.selected, key, count),
        clear == (((key == Key::Up || is_ch(key, 'k', 'K')) && v.search.selected > 0) || ((key
            == Key::Down || is_ch(key, 'j', 'J')) && count > 0 && v.search.selected < count - 1)),
    ensures
        assignment_view_next(v, ListAct::Nav, key, count, hosts) == (AssignmentView {
            search: SearchState { selected: next, ..v.search },
            detail_selected: if clear {
                None
            } else {
                v.detail_selected
            },
            ..v
        }),
{
}

impl App {
    fn assign_back_step(&mut self, searched: bool, key: Key, count: usize, hosts: usize)
        requires
            old(self).wf(),
        ensures
            final(self).wf(),
            searched ==> *final(self) == (App {
                assignments: assignment_view_next(
                    old(self).assignments,
                    ListAct::Back,
                    key,
                    count as int,
                    hosts as int,
                ),
                ..*old(self)
            }),
            !searched ==> *final(self) == backed(*old(self)),
    {
        if searched {
            self.assignments.search.query = None;
            self.assignments.search.selected = 0;
        } else {
            self.go_back();
        }
    }

    fn assign_nav_step(&mut self, key: Key, count: usize, hosts: usize)
        requires
            old(self).wf(),
            assignments_act(key) == ListAct::Nav,
        ensures
            final(self).wf(),
            *final(self) == (App {
                assignments: assignment_view_next(
                    old(self).assignments,
                    ListAct::Nav,
                    key,
                    count as int,
                    hosts as int,
                ),
                ..*old(self)
            }),
    {
        let sel = self.assignments.search.selected;
        let one_up = (key == Key::Up || ch(key, 'k', 'K')) && sel > 0;
        let one_down = (key == Key::Down || ch(key, 'j', 'J')) && count > 0 && sel < count - 1;
        let next = nav(sel, key, count);
        let clear = one_up || one_down;
        let detail = if clear {
            None
        } else {
            self.assignments.detail_selected
        };
        proof {
            lemma_nav_view(self.assignments, key, count as int, hosts as int, next, clear);
        }
        self.assignments.search.selected = next;
        self.assignments.detail_selected = detail;
    }

    fn assign_view_step(&mut self, key: Key, count: usize, hosts: usize)
        requires
            old(self).wf(),
            ({
                let act = assignments_act(key);
                act == ListAct::OpenDetail || act == ListAct::ToggleAll || act
                    == ListAct::StartSearch
            }),
        ensures
            final(self).wf(),
            *final(self) == (App {
                assignments: assignment_view_next(
                    old(self).assignments,
                    assignments_act(key),
                    key,
                    count as int,
                    hosts as int,
                ),
                ..*old(self)
            }),
    {
        let act = assignments_act_of(key);
        match act {
            ListAct::OpenDetail => {
                if hosts > 0 {
                    self.assignments.detail_selected = Some(0);
                }
            },
            ListAct::ToggleAll => {
                self.assignments.show_all = !self.assignments.show_all;
                self.assignments.search.selected = 0;
                self.assignments.detail_selected = None;
            },
            _ => {
                self.assignments.search.active = true;
                self.assignments.search.query = None;
                self.assignments.search.selected = 0;
                self.assignments.detail_selected = None;
            },
        }
    }

    fn assign_terminate_step(&mut self, target: Option<i64>)
        requires
            old(self).wf(),
        ensures
            final(self).wf(),
            target is Some ==> *final(self) == (App {
                popup: Some(Popup::ConfirmTerminate(target->0)),
                ..*old(self)
            }),
            target is None ==> *final(self) == *old(self),
    {
        if let Some(id) = target {
            self.popup = Some(Popup::ConfirmTerminate(id));
        }
    }

    fn assign_plain_key(&mut self, key: Key, count: usize, hosts: usize) -> (fx: Vec<Effect>)
        requires
            old(self).wf(),
        ensures
            final(self).wf(),
            assignments_key_result(*old(self), *final(self), key, count as int, hosts as int, fx@),
    {
        let ghost s = *self;
        let act = assignments_act_of(key);
        match act {
            ListAct::Back => {
                let searched = self.assignments.search.query.is_some();
                self.assign_back_step(searched, key, count, hosts);
                proof {
                    lemma_assign_back(s, *self, key, count as int, hosts as int, Seq::empty());
                }
                Vec::new()
            },
            ListAct::Nav => {
                self.assign_nav_step(key, count, hosts);
                proof {
                    lemma_assign_view(s, *self, key, count as int, hosts as int, Seq::empty());
                }
                Vec::new()
            },
            ListAct::OpenDetail | ListAct::ToggleAll | ListAct::StartSearch => {
                self.assign_view_step(key, count, hosts);
                proof {
                    lemma_assign_view(s, *self, key, count as int, hosts as int, Seq::empty());
                }
                Vec::new()
            },
            ListAct::Terminate => {
                let target = self.terminate_target();
                self.assign_terminate_step(target);
                proof {
                    lemma_assign_terminate(s, *self, key, count as int, hosts as int, Seq::empty());
                }
                Vec::new()
            },
            _ => {
                let fx = self.shared_step(act);
                proof {
                    lemma_assign_shared(s, *self, key, count as int, hosts as int, fx@);
                }
                fx
            },
        }
    }
}

/// What a key asks while the hosts of an assignment are shown.
pub open spec fn detail_act(key: Key) -> ListAct {
    if key == Key::Esc {
        ListAct::Back
    } else if key == Key::Up || is_ch(key, 'k', 'K') || key == Key::Down || is_ch(key, 'j', 'J') {
        ListAct::Nav
    } else if key == Key::Enter {
        ListAct::OpenInfo
    } else if is_ch(key, 'u', 'U') {
        ListAct::Unschedule
    } else if is_ch(key, 'q', 'Q') {
        ListAct::Quit
    } else if is_ch(key, 'd', 'D') {
        ListAct::Goto(Screen::Dashboard)
    } else if is_ch(key, 'h', 'H') {
        ListAct::Goto(Screen::Hosts)
    } else if is_ch(key, 'c', 'C') {
        ListAct::Goto(Screen::Clouds)
    } else if key == Key::Right {
        ListAct::NextScreen
    } else if key == Key::Left {
        ListAct::PrevScreen
    } else {
        ListAct::Nothing
    }
}

fn detail_act_of(key: Key) -> (r: ListAct)
    ensures
        r == detail_act(key),
{
    if key == Key::Esc {
        ListAct::Back
    } else if key == Key::Up || ch(key, 'k', 'K') || key == Key::Down || ch(key, 'j', 'J') {
        ListAct::Nav
    } else if key == Key::Enter {
        ListAct::OpenInfo
    } else if ch(key, 'u', 'U') {
        ListAct::Unschedule
    } else if ch(key, 'q', 'Q') {
        ListAct::Quit
    } else if ch(key, 'd', 'D') {
        ListAct::Goto(Screen::Dashboard)
    } else if ch(key, 'h', 'H') {
        ListAct::Goto(Screen::Hosts)
    } else if ch(key, 'c', 'C') {
        ListAct::Goto(Screen::Clouds)
    } else if key == Key::Right {
        ListAct::NextScreen
    } else if key == Key::Left {
        ListAct::PrevScreen
    } else {
        ListAct::Nothing
    }
}

/// The host row selected after a moving key among `n` host rows: one up,
/// one down, or unchanged at the ends.
pub open spec fn detail_moved(d: usize, key: Key, n: int) -> usize {
    if (key == Key::Up || is_ch(key, 'k', 'K')) && d > 0 {
        (d - 1) as usize
    } else if (key == Key::Down || is_ch(key, 'j', 'J')) && n > 0 && d < n - 1 {
        (d + 1) as usize
    } else {
        d
    }
}

/// The popup a key opens on host row `d` of `hosts`, if any: Enter shows
/// the host's info, `u` asks to confirm removing it from the assignment
/// (only for a schedule with an id).
pub open spec fn detail_popup_ok(r: Option<Popup>, act: ListAct, d: usize, hosts: Seq<Schedule>) -> bool {
    if d < hosts.len() && act == ListAct::OpenInfo {
        r matches Some(Popup::HostInfo(st)) && st.host_idx == 0 && (st.host_name matches Some(n)
            && n@ == hosts[d as int].host_name_of()) && st.scroll == 0 && st.sections@ == seq![
            false,
            false,
            false,
            false,
        ] && st.cursor == 0
    } else if d < hosts.len() && act == ListAct::Unschedule && hosts[d as int].id is Some {
        r matches Some(Popup::ConfirmUnschedule { schedule_id, host_name }) && schedule_id
            == hosts[d as int].id->0 && host_name@ == hosts[d as int].host_name_of()
    } else {
        r is None
    }
}

/// What a key does while the hosts of an assignment are shown (`d` the
/// selected host row of `hosts`): Esc closes them, the moving keys move
/// within them, Enter and `u` open popups on the selected host; the rest is
/// shared.
#[verifier::opaque]
pub open spec fn detail_key_result(s: App, t: App, key: Key, hosts: Seq<Schedule>, fx: Seq<
    Effect,
>) -> bool {
    let d = s.assignments.detail_selected->0;
    let act = detail_act(key);
    match act {
        ListAct::Back => fx.len() == 0 && t == App {
            assignments: AssignmentView { detail_selected: None, ..s.assignments },
            ..s
        },
        ListAct::Nav => fx.len() == 0 && t == App {
            assignments: AssignmentView {
                detail_selected: Some(detail_moved(d, key, hosts.len() as int)),
                ..s.assignments
            },
            ..s
        },
        ListAct::OpenInfo | ListAct::Unschedule => fx.len() == 0 && ((detail_popup_ok(
            None,
            act,
            d,
            hosts,
        ) && t == s) || (t.popup is Some && detail_popup_ok(t.popup, act, d, hosts) && t == App {
            popup: t.popup,
            ..s
        })),
        _ => t == shared_next(s, act) && fx.len() == 0,
    }
}

proof fn lemma_detail(s: App, t: App, key: Key, hosts: Seq<Schedule>, fx: Seq<Effect>)
    requires
        ({
            let d = s.assignments.detail_selected->0;
            let act = detail_act(key);
            match act {
                ListAct::Back => fx.len() == 0 && t == (App {
                    assignments: AssignmentView { detail_selected: None, ..s.assignments },
                    ..s
                }),
                ListAct::Nav => fx.len() == 0 && t == (App {
                    assignments: AssignmentView {
                        detail_selected: Some(detail_moved(d, key, hosts.len() as int)),
                        ..s.assignments
                    },
                    ..s
                }),
                ListAct::OpenInfo | ListAct::Unschedule => fx.len() == 0 && ((detail_popup_ok(
                    None,
                    act,
                    d,
                    hosts,
                ) && t == s) || (t.popup is Some && detail_popup_ok(t.popup, act, d, hosts) && t
                    == (App { popup: t.popup, ..s }))),
                _ => t == shared_next(s, act) && fx.len() == 0,
            }
        }),
    ensures
        detail_key_result(s, t, key, hosts, fx),
{
    reveal(detail_key_result);
}

impl App {
    fn detail_popup(&self, act: ListAct) -> (r: Option<Popup>)
        requires
            self.wf(),
            self.assignments.detail_selected is Some,
        ensures
            detail_popup_ok(r, act, self.assignments.detail_selected->0, self.detail_schedules()),
    {
        let d = match self.assignments.detail_selected {
            Some(d) => d,
            None => 0,
        };
        let idx = self.detail_schedule_indices();
        if d >= idx.len() {
            return None;
        }
        let session = self.sessions.active_session().unwrap();
        let sched = &session.schedules[idx[d]];
        if act == ListAct::OpenInfo {
            let name = sched.host_name();
            Some(Popup::HostInfo(HostInfoState::from_name(name)))
        } else if act == ListAct::Unschedule {
            match sched.id {
                Some(sid) => Some(
                    Popup::ConfirmUnschedule { schedule_id: sid, host_name: sched.host_name() },
                ),
                None => None,
            }
        } else {
            None
        }
    }

    fn detail_set_popup(&mut self, p: Option<Popup>)
        requires
            old(self).wf(),
            popup_wf(p),
        ensures
            final(self).wf(),
            p is None ==> *final(self) == *old(self),
            p is Some ==> *final(self) == (App { popup: p, ..*old(self) }),
    {
        if p.is_some() {
            self.popup = p;
        }
    }

    fn detail_key(&mut self, key: Key) -> (fx: Vec<Effect>)
        requires
            old(self).wf(),
            old(self).assignments.detail_selected is Some,
        ensures
            final(self).wf(),
            detail_key_result(*old(self), *final(self), key, old(self).detail_schedules(), fx@),
    {
        let ghost s = *self;
        let d = match self.assignments.detail_selected {
            Some(d) => d,
            None => 0,
        };
        let act = detail_act_of(key);
        match act {
            ListAct::Back => {
                self.assignments.detail_selected = None;
                proof {
                    lemma_detail(s, *self, key, s.detail_schedules(), Seq::empty());
                }
                Vec::new()
            },
            ListAct::Nav => {
                let n = self.assignment_schedule_count();
                let nd = if (key == Key::Up || ch(key, 'k', 'K')) && d > 0 {
                    d - 1
                } else if (key == Key::Down || ch(key, 'j', 'J')) && n > 0 && d < n - 1 {
                    d + 1
                } else {
                    d
                };
                self.assignments.detail_selected = Some(nd);
                proof {
                    lemma_detail(s, *self, key, s.detail_schedules(), Seq::empty());
                }
                Vec::new()
            },
            ListAct::OpenInfo | ListAct::Unschedule => {
                let p = self.detail_popup(act);
                self.detail_set_popup(p);
                proof {
                    lemma_detail(s, *self, key, s.detail_schedules(), Seq::empty());
                }
                Vec::new()
            },
            _ => {
                let fx = self.shared_step(act);
                proof {
                    lemma_detail(s, *self, key, s.detail_schedules(), fx@);
                }
                fx
            },
        }
    }

    fn assign_search_key(&mut self, key: Key, count: usize)
        requires
            old(self).wf(),
            old(self).assignments.search.active,
        ensures
            final(self).wf(),
            search_step(old(self).assignments.search, final(self).assignments.search, key, count as int),
            *final(self) == (App {
                assignments: AssignmentView {
                    search: final(self).assignments.search,
                    ..old(self).assignments
                },
                ..*old(self)
            }),
    {
        search_key(&mut self.assignments.search, key, count);
    }

    /// Acts on a key on the assignment list: while a search is typed, the
    /// key edits it (`search_step`); while the hosts of an assignment are
    /// shown, `detail_key_result` says what it does; otherwise
    /// `assignments_key_result`.
    pub fn handle_assignments_key(&mut self, key: Key) -> (fx: Vec<Effect>)
        requires
            old(self).wf(),
        ensures
            final(self).wf(),
            old(self).assignments.search.active ==> search_step(
                old(self).assignments.search,
                final(self).assignments.search,
                key,
                old(self).assignment_list().len() as int,
            ) && *final(self) == (App {
                assignments: AssignmentView {
                    search: final(self).assignments.search,
                    ..old(self).assignments
                },
                ..*old(self)
            }) && fx@.len() == 0,
            !old(self).assignments.search.active && old(self).assignments.detail_selected is Some
                ==> detail_key_result(
                *old(self),
                *final(self),
                key,
                old(self).detail_schedules(),
                fx@,
            ),
            !old(self).assignments.search.active && old(self).assignments.detail_selected is None
                ==> assignments_key_result(
                *old(self),
                *final(self),
                key,
                old(self).assignment_list().len() as int,
                old(self).detail_schedules().len() as int,
                fx@,
            ),
    {
        let count = self.filtered_assignment_count();
        if self.assignments.search.active {
            self.assign_search_key(key, count);
            return Vec::new();
        }
        if self.assignments.detail_selected.is_some() {
            return self.detail_key(key);
        }
        let hosts = self.assignment_schedule_count();
        self.assign_plain_key(key, count, hosts)
    }
}

} // verus!
