//! What a key does on the host list, and how hosts are picked for
//! scheduling.
use crate::app::{
    AssignmentPickerItem, AssignmentPickerState, FilterPane, HostFilterPopup, HostInfoState, Screen,
};
use crate::config::opt_view;
use crate::keys::{
    backed, ch, is_ch, is_nav, is_nav_key, is_shared, nav, nav_index, refresh_effects, search_key,
    search_step, shared_next, ListAct,
};
use crate::models::{is_set, Assignment, Host};
use crate::state::{no_duplicates, App, Effect, HostView, Key, Popup, SearchState};
use crate::text_util::text_eq;
use vstd::prelude::*;

verus! {

/// The set of texts in a list of strings.
pub open spec fn name_set(v: Seq<String>) -> Set<Seq<char>> {
    Set::new(|n: Seq<char>| exists|i: int| 0 <= i < v.len() && #[trigger] v[i]@ == n)
}

/// `names` with `n` taken out if it is there, put in otherwise.
pub open spec fn toggled(names: Set<Seq<char>>, n: Seq<char>) -> Set<Seq<char>> {
    if names.contains(n) {
        names.remove(n)
    } else {
        names.insert(n)
    }
}

/// The first position of `name` in `v`, or the length of `v`.
fn position_of(v: &Vec<String>, name: &str) -> (i: usize)
    ensures
        i <= v@.len(),
        forall|j: int| 0 <= j < i ==> #[trigger] v@[j]@ != name@,
        i < v@.len() ==> v@[i as int]@ == name@,
{
    let mut i: usize = 0;
    while i < v.len()
        invariant
            i <= v@.len(),
            forall|j: int| 0 <= j < i ==> #[trigger] v@[j]@ != name@,
        decreases v.len() - i,
    {
        if text_eq(v[i].as_str(), name) {
            return i;
        }
        i += 1;
    }
    i
}

/// Takes `name` out of the list if it is there, adds it otherwise.
pub fn toggle_name(v: &mut Vec<String>, name: &str)
    requires
        no_duplicates(old(v)@),
    ensures
        no_duplicates(final(v)@),
        name_set(final(v)@) == toggled(name_set(old(v)@), name@),
{
    let ghost old_v = v@;
    let i = position_of(v, name);
    if i < v.len() {
        assert(v@[i as int]@ == name@);
        v.remove(i);
        proof {
            assert(name_set(old_v).contains(name@));
            assert forall|a: int, b: int| 0 <= a < b < v@.len() implies #[trigger] v@[a]@
                != #[trigger] v@[b]@ by {
                let oa = if a < i {
                    a
                } else {
                    a + 1
                };
                let ob = if b < i {
                    b
                } else {
                    b + 1
                };
                assert(v@[a] == old_v[oa]);
                assert(v@[b] == old_v[ob]);
            }
            assert forall|n: Seq<char>| #[trigger] name_set(v@).contains(n) == name_set(
                old_v,
            ).remove(name@).contains(n) by {
                if name_set(v@).contains(n) {
                    let k = choose|k: int| 0 <= k < v@.len() && #[trigger] v@[k]@ == n;
                    let ok = if k < i {
                        k
                    } else {
                        k + 1
                    };
                    assert(v@[k] == old_v[ok]);
                    assert(ok != i);
                }
                if name_set(old_v).remove(name@).contains(n) {
                    let k = choose|k: int| 0 <= k < old_v.len() && #[trigger] old_v[k]@ == n;
                    assert(k != i);
                    if k < i {
                        assert(v@[k] == old_v[k]);
                    } else {
                        assert(v@[k - 1] == old_v[k]);
                    }
                }
            }
            assert(name_set(v@) =~= name_set(old_v).remove(name@));
        }
    } else {
        v.push(String::from_str(name));
        proof {
            assert(!name_set(old_v).contains(name@));
            assert forall|a: int, b: int| 0 <= a < b < v@.len() implies #[trigger] v@[a]@
                != #[trigger] v@[b]@ by {
                if b == old_v.len() {
                    assert(v@[a] == old_v[a]);
                } else {
                    assert(v@[a] == old_v[a]);
                    assert(v@[b] == old_v[b]);
                }
            }
            assert forall|n: Seq<char>| #[trigger] name_set(v@).contains(n) == name_set(
                old_v,
            ).insert(name@).contains(n) by {
                if name_set(v@).contains(n) {
                    let k = choose|k: int| 0 <= k < v@.len() && #[trigger] v@[k]@ == n;
                    if k < old_v.len() {
                        assert(v@[k] == old_v[k]);
                    }
                }
                if name_set(old_v).insert(name@).contains(n) {
                    if n == name@ {
                        assert(v@[old_v.len() as int]@ == n);
                    } else {
                        let k = choose|k: int| 0 <= k < old_v.len() && #[trigger] old_v[k]@ == n;
                        assert(v@[k] == old_v[k]);
                    }
                }
            }
            assert(name_set(v@) =~= name_set(old_v).insert(name@));
        }
    }
}

/// What a key asks of the host list outside a search; the filter popup is
/// only offered outside the self-schedulable view.
pub open spec fn hosts_act(key: Key, self_schedule_only: bool) -> ListAct {
    if key == Key::Esc {
        ListAct::Back
    } else if is_ch(key, 'q', 'Q') {
        ListAct::Quit
    } else if is_nav_key(key) {
        ListAct::Nav
    } else if key == Key::Char('/') {
        ListAct::StartSearch
    } else if key == Key::Tab {
        ListAct::ToggleAll
    } else if is_ch(key, 'f', 'F') && !self_schedule_only {
        ListAct::OpenFilter
    } else if key == Key::Enter {
        ListAct::OpenInfo
    } else if key == Key::Char(' ') {
        ListAct::ToggleSelect
    } else if is_ch(key, 's', 'S') {
        ListAct::OpenPicker
    } else if is_ch(key, 'r', 'R') {
        ListAct::Refresh
    } else if is_ch(key, 'x', 'X') {
        ListAct::AutoRefresh
    } else if is_ch(key, 'd', 'D') {
        ListAct::Goto(Screen::Dashboard)
    } else if is_ch(key, 'a', 'A') {
        ListAct::Goto(Screen::Assignments)
    } else if is_ch(key, 'c', 'C') {
        ListAct::Goto(Screen::Clouds)
    } else if key == Key::Right {
        ListAct::NextScreen
    } else if key == Key::Left {
        ListAct::PrevScreen
    } else {
        ListAct::Nothing
    }
}

fn hosts_act_of(key: Key, self_schedule_only: bool) -> (r: ListAct)
    ensures
        r == hosts_act(key, self_schedule_only),
{
    if key == Key::Esc {
        ListAct::Back
    } else if ch(key, 'q', 'Q') {
        ListAct::Quit
    } else if is_nav(key) {
        ListAct::Nav
    } else if key == Key::Char('/') {
        ListAct::StartSearch
    } else if key == Key::Tab {
        ListAct::ToggleAll
    } else if ch(key, 'f', 'F') && !self_schedule_only {
        ListAct::OpenFilter
    } else if key == Key::Enter {
        ListAct::OpenInfo
    } else if key == Key::Char(' ') {
        ListAct::ToggleSelect
    } else if ch(key, 's', 'S') {
        ListAct::OpenPicker
    } else if ch(key, 'r', 'R') {
        ListAct::Refresh
    } else if ch(key, 'x', 'X') {
        ListAct::AutoRefresh
    } else if ch(key, 'd', 'D') {
        ListAct::Goto(Screen::Dashboard)
    } else if ch(key, 'a', 'A') {
        ListAct::Goto(Screen::Assignments)
    } else if ch(key, 'c', 'C') {
        ListAct::Goto(Screen::Clouds)
    } else if key == Key::Right {
        ListAct::NextScreen
    } else if key == Key::Left {
        ListAct::PrevScreen
    } else {
        ListAct::Nothing
    }
}

/// The picker entry an assignment gives: its cloud's name (`--` when
/// unknown) and its description (empty when unknown).
pub open spec fn entry_of(a: Assignment) -> (Seq<char>, Seq<char>) {
    (
        match a.cloud_view() {
            Some(c) => c,
            None => "--"@,
        },
        match opt_view(a.description) {
            Some(d) => d,
            None => Seq::empty(),
        },
    )
}

/// The assignments hosts can be added to: active self-scheduled ones.
pub open spec fn open_for_hosts() -> spec_fn(Assignment) -> bool {
    |a: Assignment| is_set(a.is_self_schedule) && is_set(a.active)
}

/// The picker lists one entry per assignment hosts can be added to, in
/// order, then the entry that creates a new assignment.
pub open spec fn picker_items_of(items: Seq<AssignmentPickerItem>, mine: Seq<Assignment>) -> bool {
    let open = mine.filter(open_for_hosts());
    &&& items.len() == open.len() + 1
    &&& forall|k: int|
        0 <= k < open.len() ==> (#[trigger] items[k] matches AssignmentPickerItem::Existing {
            cloud_name,
            description,
        } && (cloud_name@, description@) == entry_of(open[k]))
    &&& items[open.len() as int] is NewAssignment
}

/// The state after the assignment picker opened for the hosts `hosts`.
pub open spec fn picking(s: App, t: App, hosts: Set<Seq<char>>, mine: Seq<Assignment>) -> bool {
    &&& t.popup matches Some(Popup::AssignmentPicker(st)) && name_set(st.selected_hosts@) == hosts
        && no_duplicates(st.selected_hosts@) && st.cursor == 0 && picker_items_of(st.items@, mine)
    &&& t == App { popup: t.popup, ..s }
}

/// `r` is an error popup with the text `msg`.
pub open spec fn is_error(r: Option<Popup>, msg: Seq<char>) -> bool {
    r matches Some(Popup::Error(m)) && m@ == msg
}

/// `r` is the assignment picker for the hosts `hosts`, listing the entries
/// for the assignments `mine`, with the cursor on the first entry.
pub open spec fn is_picker(r: Option<Popup>, hosts: Set<Seq<char>>, mine: Seq<Assignment>) -> bool {
    r matches Some(Popup::AssignmentPicker(st)) && name_set(st.selected_hosts@) == hosts
        && no_duplicates(st.selected_hosts@) && st.cursor == 0 && picker_items_of(st.items@, mine)
}

/// The popup asking to schedule opens (`None`: nothing happens): an error
/// without a login; otherwise the picker for the picked hosts, or, with
/// none picked, for the host under the cursor when it is self-schedulable
/// (an error when it is not, nothing when there is no such row).
pub open spec fn picker_plan_ok(s: App, r: Option<Popup>, list: Seq<Host>) -> bool {
    let sel = s.hosts.search.selected;
    match s.sessions.active() {
        Some(a) => if !a.connected {
            is_error(r, "Must be logged in to schedule hosts"@)
        } else if s.hosts.multi_select@.len() == 0 {
            if sel < list.len() {
                if is_set(list[sel as int].can_self_schedule) {
                    is_picker(r, set![list[sel as int].name@], a.my_assignments@)
                } else {
                    is_error(r, "Host is not self-schedulable"@)
                }
            } else {
                r is None
            }
        } else {
            is_picker(r, name_set(s.hosts.multi_select@), a.my_assignments@)
        },
        None => is_error(r, "Must be logged in to schedule hosts"@),
    }
}

/// What asking to schedule does to the state: the popup `picker_plan_ok`
/// says opens, or nothing.
pub open spec fn picker_opened(s: App, t: App, list: Seq<Host>) -> bool {
    ||| picker_plan_ok(s, None, list) && t == s
    ||| t.popup is Some && picker_plan_ok(s, t.popup, list) && t == (App { popup: t.popup, ..s })
}

/// The picker entries for the assignments hosts can be added to, then the
/// entry that creates a new assignment.
pub fn picker_items(mine: &Vec<Assignment>) -> (r: Vec<AssignmentPickerItem>)
    ensures
        picker_items_of(r@, mine@),
{
    let ghost p = open_for_hosts();
    let mut items: Vec<AssignmentPickerItem> = Vec::new();
    let mut i: usize = 0;
    while i < mine.len()
        invariant
            i <= mine@.len(),
            p == open_for_hosts(),
            items@.len() == mine@.take(i as int).filter(p).len(),
            forall|k: int|
                0 <= k < items@.len() ==> (#[trigger] items@[k] matches AssignmentPickerItem::Existing {
                    cloud_name,
                    description,
                } && (cloud_name@, description@) == entry_of(mine@.take(i as int).filter(p)[k])),
        decreases mine.len() - i,
    {
        let a = &mine[i];
        let keep = a.is_self_schedule == Some(true) && a.active == Some(true);
        proof {
            let t = mine@.take(i + 1);
            assert(t.drop_last() =~= mine@.take(i as int));
            assert(t.last() == *a);
            reveal(Seq::filter);
        }
        if keep {
            let cloud_name = match a.cloud_name() {
                Some(c) => String::from_str(c),
                None => String::from_str("--"),
            };
            let description = match &a.description {
                Some(d) => d.clone(),
                None => String::new(),
            };
            items.push(AssignmentPickerItem::Existing { cloud_name, description });
        }
        i += 1;
    }
    proof {
        assert(mine@.take(i as int) =~= mine@);
    }
    items.push(AssignmentPickerItem::NewAssignment);
    items
}

/// A copy of a list of names.
pub fn copy_names(v: &Vec<String>) -> (r: Vec<String>)
    ensures
        r@.len() == v@.len(),
        forall|k: int| 0 <= k < v@.len() ==> #[trigger] r@[k]@ == v@[k]@,
{
    let mut r: Vec<String> = Vec::new();
    let mut i: usize = 0;
    while i < v.len()
        invariant
            i <= v@.len(),
            r@.len() == i,
            forall|k: int| 0 <= k < i ==> #[trigger] r@[k]@ == v@[k]@,
        decreases v.len() - i,
    {
        r.push(v[i].clone());
        i += 1;
    }
    r
}

impl App {
    /// The popup that asking to schedule opens, if any.
    pub fn picker_plan(&self) -> (r: Option<Popup>)
        requires
            self.wf(),
        ensures
            picker_plan_ok(*self, r, self.host_list()),
    {
        let s = match self.sessions.active_session() {
            Some(s) => s,
            None => return Some(Popup::Error(String::from_str("Must be logged in to schedule hosts"))),
        };
        if !s.connected {
            return Some(Popup::Error(String::from_str("Must be logged in to schedule hosts")));
        }
        let selected_hosts = if self.hosts.multi_select.len() == 0 {
            let idx = self.filtered_host_indices();
            let sel = self.hosts.search.selected;
            if sel >= idx.len() {
                return None;
            }
            let h = &s.hosts[idx[sel]];
            if h.can_self_schedule != Some(true) {
                return Some(Popup::Error(String::from_str("Host is not self-schedulable")));
            }
            let mut v: Vec<String> = Vec::new();
            v.push(h.name.clone());
            proof {
                assert(v@[0]@ == h.name@);
                assert forall|n: Seq<char>| #[trigger] name_set(v@).contains(n) == set![h.name@].contains(n) by {
                    if n == h.name@ {
                        assert(v@[0]@ == n);
                    }
                }
                assert(name_set(v@) =~= set![h.name@]);
            }
            v
        } else {
            let v = copy_names(&self.hosts.multi_select);
            proof {
                assert(name_set(v@) =~= name_set(self.hosts.multi_select@)) by {
                    assert forall|n: Seq<char>| #[trigger] name_set(v@).contains(n) == name_set(
                        self.hosts.multi_select@,
                    ).contains(n) by {
                        if name_set(v@).contains(n) {
                            let k = choose|k: int| 0 <= k < v@.len() && #[trigger] v@[k]@ == n;
                            assert(self.hosts.multi_select@[k]@ == n);
                        }
                        if name_set(self.hosts.multi_select@).contains(n) {
                            let k = choose|k: int|
                                0 <= k < self.hosts.multi_select@.len()
                                    && #[trigger] self.hosts.multi_select@[k]@ == n;
                            assert(v@[k]@ == n);
                        }
                    }
                }
            }
            v
        };
        let items = picker_items(&s.my_assignments);
        Some(Popup::AssignmentPicker(AssignmentPickerState { selected_hosts, cursor: 0, items }))
    }

    /// Opens what asking to schedule opens: the picker, an error, or
    /// nothing.
    pub fn open_assignment_picker(&mut self)
        requires
            old(self).wf(),
        ensures
            final(self).wf(),
            picker_opened(*old(self), *final(self), old(self).host_list()),
    {
        let plan = self.picker_plan();
        if plan.is_some() {
            self.popup = plan;
        }
    }
}

/// What Space does: the host under the cursor, when self-schedulable, is
/// picked or unpicked and the cursor moves down a row; otherwise a status
/// message says it cannot be picked.
pub open spec fn select_toggled(s: App, t: App, list: Seq<Host>) -> bool {
    let sel = s.hosts.search.selected;
    if sel < list.len() {
        if is_set(list[sel as int].can_self_schedule) {
            &&& name_set(t.hosts.multi_select@) == toggled(
                name_set(s.hosts.multi_select@),
                list[sel as int].name@,
            )
            &&& t.hosts.search.selected == (if sel < list.len() - 1 {
                (sel + 1) as usize
            } else {
                sel
            })
            &&& t.hosts.search.active == s.hosts.search.active
            &&& t.hosts.search.query == s.hosts.search.query
            &&& t == App {
                hosts: HostView {
                    multi_select: t.hosts.multi_select,
                    search: t.hosts.search,
                    ..s.hosts
                },
                ..s
            }
        } else {
            &&& t.status_message matches Some(m) && m@ == "Host is not self-schedulable"@
            &&& t == App { status_message: t.status_message, ..s }
        }
    } else {
        t == s
    }
}

/// The host list after a key that only concerns it: Esc drops the search,
/// the moving keys move the selection, `/` starts a search, Tab switches
/// the self-schedulable view.
pub open spec fn host_view_next(v: HostView, act: ListAct, key: Key, count: int) -> HostView {
    match act {
        ListAct::Back => HostView { search: SearchState { query: None, selected: 0, ..v.search }, ..v },
        ListAct::Nav => HostView {
            search: SearchState { selected: nav_index(v.search.selected, key, count), ..v.search },
            ..v
        },
        ListAct::StartSearch => HostView {
            search: SearchState { active: true, query: None, selected: 0 },
            ..v
        },
        ListAct::ToggleAll => HostView {
            search: SearchState { selected: 0, ..v.search },
            self_schedule_only: !v.self_schedule_only,
            ..v
        },
        _ => v,
    }
}

/// The filter popup as it opens: on the first status flag, with the list's
/// current filters.
pub open spec fn filter_popup_of(v: HostView) -> Popup {
    Popup::HostFilter(
        HostFilterPopup { cursor: 0, flags: v.filters, pane: FilterPane::Status, ssm_only: v.ssm_filter },
    )
}

/// The state after the host info popup opened on the host at row `idx`.
pub open spec fn info_opened(s: App, t: App, idx: usize) -> bool {
    &&& t.popup matches Some(Popup::HostInfo(st)) && st.host_idx == idx && st.host_name is None
        && st.scroll == 0 && st.sections@ == seq![false, false, false, false] && st.cursor == 0
    &&& t == App { popup: t.popup, ..s }
}

/// What a key does on the host list outside a search, with `list` the hosts
/// shown and `fx` the work asked for.
#[verifier::opaque]
pub open spec fn hosts_key_result(s: App, t: App, key: Key, list: Seq<Host>, fx: Seq<Effect>) -> bool {
    let count = list.len() as int;
    let act = hosts_act(key, s.hosts.self_schedule_only);
    match act {
        ListAct::Back => fx.len() == 0 && if s.hosts.multi_select@.len() > 0 {
            t.hosts.multi_select@.len() == 0 && t == App {
                hosts: HostView { multi_select: t.hosts.multi_select, ..s.hosts },
                ..s
            }
        } else if s.hosts.search.query is Some {
            t == App { hosts: host_view_next(s.hosts, act, key, count), ..s }
        } else {
            t == backed(s)
        },
        ListAct::Nav | ListAct::StartSearch | ListAct::ToggleAll => fx.len() == 0 && t == App {
            hosts: host_view_next(s.hosts, act, key, count),
            ..s
        },
        ListAct::OpenFilter => fx.len() == 0 && t == App {
            popup: Some(filter_popup_of(s.hosts)),
            ..s
        },
        ListAct::OpenInfo => fx.len() == 0 && info_opened(s, t, s.hosts.search.selected),
        ListAct::ToggleSelect => fx.len() == 0 && select_toggled(s, t, list),
        ListAct::OpenPicker => fx.len() == 0 && picker_opened(s, t, list),
        _ => t == shared_next(s, act) && (act == ListAct::Refresh ==> refresh_effects(s, fx)) && (
        act != ListAct::Refresh ==> fx.len() == 0),
    }
}

proof fn lemma_hosts_back(s: App, t: App, key: Key, list: Seq<Host>, fx: Seq<Effect>)
    requires
        hosts_act(key, s.hosts.self_schedule_only) == ListAct::Back,
        fx.len() == 0,
        s.hosts.multi_select@.len() > 0 ==> t.hosts.multi_select@.len() == 0 && t == (App {
            hosts: HostView { multi_select: t.hosts.multi_select, ..s.hosts },
            ..s
        }),
        s.hosts.multi_select@.len() == 0 && s.hosts.search.query is Some ==> t == (App {
            hosts: host_view_next(s.hosts, ListAct::Back, key, list.len() as int),
            ..s
        }),
        s.hosts.multi_select@.len() == 0 && s.hosts.search.query is None ==> t == backed(s),
    ensures
        hosts_key_result(s, t, key, list, fx),
{
    reveal(hosts_key_result);
}

proof fn lemma_hosts_view(s: App, t: App, key: Key, list: Seq<Host>, fx: Seq<Effect>)
    requires
        ({
            let act = hosts_act(key, s.hosts.self_schedule_only);
            act == ListAct::Nav || act == ListAct::StartSearch || act == ListAct::ToggleAll
        }),
        fx.len() == 0,
        t == (App {
            hosts: host_view_next(
                s.hosts,
                hosts_act(key, s.hosts.self_schedule_only),
                key,
                list.len() as int,
            ),
            ..s
        }),
    ensures
        hosts_key_result(s, t, key, list, fx),
{
    reveal(hosts_key_result);
}

proof fn lemma_hosts_popup(s: App, t: App, key: Key, list: Seq<Host>, fx: Seq<Effect>)
    requires
        fx.len() == 0,
        hosts_act(key, s.hosts.self_schedule_only) == ListAct::OpenFilter ==> t == (App {
            popup: Some(filter_popup_of(s.hosts)),
            ..s
        }),
        hosts_act(key, s.hosts.self_schedule_only) == ListAct::OpenInfo ==> info_opened(
            s,
            t,
            s.hosts.search.selected,
        ),
        hosts_act(key, s.hosts.self_schedule_only) == ListAct::ToggleSelect ==> select_toggled(
            s,
            t,
            list,
        ),
        hosts_act(key, s.hosts.self_schedule_only) == ListAct::OpenPicker ==> picker_opened(
            s,
            t,
            list,
        ),
        ({
            let act = hosts_act(key, s.hosts.self_schedule_only);
            act == ListAct::OpenFilter || act == ListAct::OpenInfo || act == ListAct::ToggleSelect
                || act == ListAct::OpenPicker
        }),
    ensures
        hosts_key_result(s, t, key, list, fx),
{
    reveal(hosts_key_result);
}

proof fn lemma_hosts_shared(s: App, t: App, key: Key, list: Seq<Host>, fx: Seq<Effect>)
    requires
        is_shared(hosts_act(key, s.hosts.self_schedule_only)),
        t == shared_next(s, hosts_act(key, s.hosts.self_schedule_only)),
        hosts_act(key, s.hosts.self_schedule_only) == ListAct::Refresh ==> refresh_effects(s, fx),
        hosts_act(key, s.hosts.self_schedule_only) != ListAct::Refresh ==> fx.len() == 0,
    ensures
        hosts_key_result(s, t, key, list, fx),
{
    reveal(hosts_key_result);
}

impl App {
    fn host_back_step(&mut self, key: Key, count: usize)
        requires
            old(self).wf(),
        ensures
            final(self).wf(),
            old(self).hosts.multi_select@.len() > 0 ==> final(self).hosts.multi_select@.len() == 0
                && *final(self) == (App {
                hosts: HostView { multi_select: final(self).hosts.multi_select, ..old(self).hosts },
                ..*old(self)
            }),
            old(self).hosts.multi_select@.len() == 0 && old(self).hosts.search.query is Some
                ==> *final(self) == (App {
                hosts: host_view_next(old(self).hosts, ListAct::Back, key, count as int),
                ..*old(self)
            }),
            old(self).hosts.multi_select@.len() == 0 && old(self).hosts.search.query is None
                ==> *final(self) == backed(*old(self)),
    {
        if self.hosts.multi_select.len() > 0 {
            self.hosts.multi_select = Vec::new();
        } else {
            let searched = self.hosts.search.query.is_some();
            self.host_back_unpicked(searched, key, count);
        }
    }

    fn host_back_unpicked(&mut self, searched: bool, key: Key, count: usize)
        requires
            old(self).wf(),
        ensures
            final(self).wf(),
            searched ==> *final(self) == (App {
                hosts: host_view_next(old(self).hosts, ListAct::Back, key, count as int),
                ..*old(self)
            }),
            !searched ==> *final(self) == backed(*old(self)),
    {
        if searched {
            self.hosts.search.query = None;
            self.hosts.search.selected = 0;
        } else {
            self.go_back();
        }
    }

    fn host_view_step(&mut self, key: Key, count: usize)
        requires
            old(self).wf(),
            ({
                let act = hosts_act(key, old(self).hosts.self_schedule_only);
                act == ListAct::Nav || act == ListAct::StartSearch || act == ListAct::ToggleAll
            }),
        ensures
            final(self).wf(),
            *final(self) == (App {
                hosts: host_view_next(
                    old(self).hosts,
                    hosts_act(key, old(self).hosts.self_schedule_only),
                    key,
                    count as int,
                ),
                ..*old(self)
            }),
    {
        let act = hosts_act_of(key, self.hosts.self_schedule_only);
        match act {
            ListAct::Nav => {
                self.hosts.search.selected = nav(self.hosts.search.selected, key, count);
            },
            ListAct::StartSearch => {
                self.hosts.search.active = true;
                self.hosts.search.query = None;
                self.hosts.search.selected = 0;
            },
            _ => {
                self.hosts.self_schedule_only = !self.hosts.self_schedule_only;
                self.hosts.search.selected = 0;
            },
        }
    }

    fn host_open_filter(&mut self)
        requires
            old(self).wf(),
        ensures
            final(self).wf(),
            *final(self) == (App { popup: Some(filter_popup_of(old(self).hosts)), ..*old(self) }),
    {
        self.popup = Some(
            Popup::HostFilter(
                HostFilterPopup {
                    cursor: 0,
                    flags: self.hosts.filters,
                    pane: FilterPane::Status,
                    ssm_only: self.hosts.ssm_filter,
                },
            ),
        );
    }

    fn host_open_info(&mut self)
        requires
            old(self).wf(),
        ensures
            final(self).wf(),
            info_opened(*old(self), *final(self), old(self).hosts.search.selected),
    {
        self.popup = Some(Popup::HostInfo(HostInfoState::new(self.hosts.search.selected)));
    }

    /// Picks or unpicks the host under the cursor.
    pub fn toggle_host_selection(&mut self)
        requires
            old(self).wf(),
        ensures
            final(self).wf(),
            select_toggled(*old(self), *final(self), old(self).host_list()),
    {
        let idx = self.filtered_host_indices();
        let sel = self.hosts.search.selected;
        if sel >= idx.len() {
            return;
        }
        let i = idx[sel];
        let (can, name) = match self.sessions.active_session() {
            Some(s) => (s.hosts[i].can_self_schedule == Some(true), s.hosts[i].name.clone()),
            None => (false, String::new()),
        };
        if can {
            let count = idx.len();
            let next = if sel < count - 1 {
                sel + 1
            } else {
                sel
            };
            self.apply_selection(name, next);
        } else {
            self.status_message = Some(String::from_str("Host is not self-schedulable"));
        }
    }

    fn apply_selection(&mut self, name: String, next: usize)
        requires
            old(self).wf(),
        ensures
            final(self).wf(),
            name_set(final(self).hosts.multi_select@) == toggled(
                name_set(old(self).hosts.multi_select@),
                name@,
            ),
            final(self).hosts.search == (SearchState { selected: next, ..old(self).hosts.search }),
            *final(self) == (App {
                hosts: HostView {
                    multi_select: final(self).hosts.multi_select,
                    search: final(self).hosts.search,
                    ..old(self).hosts
                },
                ..*old(self)
            }),
    {
        toggle_name(&mut self.hosts.multi_select, name.as_str());
        self.hosts.search.selected = next;
    }
}

impl App {
    fn hosts_on_back(&mut self, key: Key, count: usize) -> (fx: Vec<Effect>)
        requires
            old(self).wf(),
            hosts_act(key, old(self).hosts.self_schedule_only) == ListAct::Back,
            count == old(self).host_list().len(),
        ensures
            final(self).wf(),
            hosts_key_result(*old(self), *final(self), key, old(self).host_list(), fx@),
    {
        let ghost s = *self;
        self.host_back_step(key, count);
        let fx: Vec<Effect> = Vec::new();
        proof {
            lemma_hosts_back(s, *self, key, s.host_list(), fx@);
        }
        fx
    }

    fn hosts_on_view(&mut self, key: Key, count: usize) -> (fx: Vec<Effect>)
        requires
            old(self).wf(),
            ({
                let act = hosts_act(key, old(self).hosts.self_schedule_only);
                act == ListAct::Nav || act == ListAct::StartSearch || act == ListAct::ToggleAll
            }),
            count == old(self).host_list().len(),
        ensures
            final(self).wf(),
            hosts_key_result(*old(self), *final(self), key, old(self).host_list(), fx@),
    {
        let ghost s = *self;
        self.host_view_step(key, count);
        let fx: Vec<Effect> = Vec::new();
        proof {
            lemma_hosts_view(s, *self, key, s.host_list(), fx@);
        }
        fx
    }

    fn hosts_on_popup(&mut self, key: Key) -> (fx: Vec<Effect>)
        requires
            old(self).wf(),
            ({
                let act = hosts_act(key, old(self).hosts.self_schedule_only);
                act == ListAct::OpenFilter || act == ListAct::OpenInfo || act
                    == ListAct::ToggleSelect || act == ListAct::OpenPicker
            }),
        ensures
            final(self).wf(),
            hosts_key_result(*old(self), *final(self), key, old(self).host_list(), fx@),
    {
        let ghost s = *self;
        let act = hosts_act_of(key, self.hosts.self_schedule_only);
        match act {
            ListAct::OpenFilter => self.host_open_filter(),
            ListAct::OpenInfo => self.host_open_info(),
            ListAct::ToggleSelect => self.toggle_host_selection(),
            _ => self.open_assignment_picker(),
        }
        let fx: Vec<Effect> = Vec::new();
        proof {
            lemma_hosts_popup(s, *self, key, s.host_list(), fx@);
        }
        fx
    }

    fn hosts_on_shared(&mut self, key: Key) -> (fx: Vec<Effect>)
        requires
            old(self).wf(),
            is_shared(hosts_act(key, old(self).hosts.self_schedule_only)),
        ensures
            final(self).wf(),
            hosts_key_result(*old(self), *final(self), key, old(self).host_list(), fx@),
    {
        let ghost s = *self;
        let act = hosts_act_of(key, self.hosts.self_schedule_only);
        let fx = self.shared_step(act);
        proof {
            lemma_hosts_shared(s, *self, key, s.host_list(), fx@);
        }
        fx
    }

    fn hosts_plain_key(&mut self, key: Key, count: usize) -> (fx: Vec<Effect>)
        requires
            old(self).wf(),
            count == old(self).host_list().len(),
        ensures
            final(self).wf(),
            hosts_key_result(*old(self), *final(self), key, old(self).host_list(), fx@),
    {
        let act = hosts_act_of(key, self.hosts.self_schedule_only);
        match act {
            ListAct::Back => self.hosts_on_back(key, count),
            ListAct::Nav | ListAct::StartSearch | ListAct::ToggleAll => self.hosts_on_view(
                key,
                count,
            ),
            ListAct::OpenFilter | ListAct::OpenInfo | ListAct::ToggleSelect
            | ListAct::OpenPicker => self.hosts_on_popup(key),
            _ => self.hosts_on_shared(key),
        }
    }

    fn hosts_search_key(&mut self, key: Key, count: usize)
        requires
            old(self).wf(),
            old(self).hosts.search.active,
        ensures
            final(self).wf(),
            search_step(old(self).hosts.search, final(self).hosts.search, key, count as int),
            *final(self) == (App {
                hosts: HostView { search: final(self).hosts.search, ..old(self).hosts },
                ..*old(self)
            }),
    {
        search_key(&mut self.hosts.search, key, count);
    }

    /// Acts on a key on the host list: while a search is typed, the key
    /// edits it (`search_step`); otherwise `hosts_key_result` says what it
    /// does.
    pub fn handle_hosts_key(&mut self, key: Key) -> (fx: Vec<Effect>)
        requires
            old(self).wf(),
        ensures
            final(self).wf(),
            old(self).hosts.search.active ==> search_step(
                old(self).hosts.search,
                final(self).hosts.search,
                key,
                old(self).host_list().len() as int,
            ) && *final(self) == (App {
                hosts: HostView { search: final(self).hosts.search, ..old(self).hosts },
                ..*old(self)
            }) && fx@.len() == 0,
            !old(self).hosts.search.active ==> hosts_key_result(
                *old(self),
                *final(self),
                key,
                old(self).host_list(),
                fx@,
            ),
    {
        let count = self.filtered_host_indices().len();
        if self.hosts.search.active {
            self.hosts_search_key(key, count);
            Vec::new()
        } else {
            self.hosts_plain_key(key, count)
        }
    }
}

} // verus!
