//! What the lists show and how their selection moves, stated over the
//! fields of the hosts, assignments and clouds themselves.
use crate::app::{assignment_matches, AssignmentPickerItem, HostFilterFlags};
use crate::host_keys::{entry_of, picker_items_of};
use crate::keys::nav_index;
use crate::models::{is_set, Assignment, CloudSummary, Host, HostStatus};
use crate::search::fuzzy_matches;
use crate::state::{cloud_matches, owned_cloud, shows_host, App, Key};
use crate::text_util::decimal_text;
use vstd::prelude::*;

verus! {

broadcast use vstd::seq_lib::group_filter_ensures;

/// A host that is neither broken nor retired and whose current cloud is not
/// its default cloud is shown whenever the Scheduled filter is on, outside
/// the self-schedulable view, with no search, and without the
/// self-schedulable filter or with a self-schedulable host.
pub proof fn law_scheduled_filter_shows_hosts_away(
    ssm_filter: bool,
    f: HostFilterFlags,
    scheduled: Seq<Seq<char>>,
    h: Host,
)
    requires
        f.scheduled,
        h.broken != Some(true),
        h.retired != Some(true),
        h.cloud_view() != h.default_cloud_view(),
        ssm_filter ==> h.can_self_schedule == Some(true),
    ensures
        shows_host(None, false, ssm_filter, f, scheduled, h),
{
}

/// A host that is neither broken nor retired and sits in its default cloud
/// is shown whenever the Available filter is on (same conditions as above);
/// a broken host whenever the Broken filter is on; a retired host that is
/// not broken whenever the Retired filter is on.
pub proof fn law_status_filters_show_their_hosts(
    ssm_filter: bool,
    f: HostFilterFlags,
    scheduled: Seq<Seq<char>>,
    h: Host,
)
    requires
        ssm_filter ==> h.can_self_schedule == Some(true),
    ensures
        f.available && h.broken != Some(true) && h.retired != Some(true) && h.cloud_view()
            == h.default_cloud_view() ==> shows_host(None, false, ssm_filter, f, scheduled, h),
        f.broken && h.broken == Some(true) ==> shows_host(None, false, ssm_filter, f, scheduled, h),
        f.retired && h.broken != Some(true) && h.retired == Some(true) ==> shows_host(
            None,
            false,
            ssm_filter,
            f,
            scheduled,
            h,
        ),
{
}

/// Outside the self-schedulable view, with no search and no
/// self-schedulable filter, a host is shown exactly when no status filter is
/// chosen or the filter of its status (`Host::status_of`) is.
pub proof fn law_host_shown_by_its_status(f: HostFilterFlags, scheduled: Seq<Seq<char>>, h: Host)
    ensures
        shows_host(None, false, false, f, scheduled, h) <==> ((!f.available && !f.scheduled
            && !f.broken && !f.retired) || match h.status_of() {
            HostStatus::Available => f.available,
            HostStatus::Scheduled => f.scheduled,
            HostStatus::Broken => f.broken,
            HostStatus::Retired => f.retired,
        }),
{
}

/// In the self-schedulable view a host is shown exactly when it is
/// self-schedulable, neither broken nor retired, in its default cloud and
/// not named by any schedule (with no search).
pub proof fn law_self_schedule_view(ssm_filter: bool, f: HostFilterFlags, scheduled: Seq<Seq<char>>, h: Host)
    ensures
        shows_host(None, true, ssm_filter, f, scheduled, h) <==> (is_set(h.can_self_schedule)
            && !is_set(h.broken) && !is_set(h.retired) && h.cloud_view() == h.default_cloud_view()
            && !scheduled.contains(h.name@)),
{
}

/// With a search, a shown host's name fuzzily contains the search.
pub proof fn law_host_search_matches_name(
    q: Seq<char>,
    self_only: bool,
    ssm_filter: bool,
    f: HostFilterFlags,
    scheduled: Seq<Seq<char>>,
    h: Host,
)
    ensures
        shows_host(Some(q), self_only, ssm_filter, f, scheduled, h) ==> fuzzy_matches(h.name@, q),
        shows_host(Some(q), self_only, ssm_filter, f, scheduled, h) <==> (fuzzy_matches(h.name@, q)
            && shows_host(None, self_only, ssm_filter, f, scheduled, h)),
{
}

/// On the host list with the Scheduled filter on, no search, neither the
/// self-schedulable view nor its filter, every host of the active session
/// that is neither broken nor retired and is away from its default cloud is
/// listed.
pub proof fn law_hosts_away_are_listed(app: App, i: int)
    requires
        app.sessions.active() is Some,
        0 <= i < app.sessions.active().unwrap().hosts@.len(),
        app.sessions.active().unwrap().hosts@[i].broken != Some(true),
        app.sessions.active().unwrap().hosts@[i].retired != Some(true),
        app.sessions.active().unwrap().hosts@[i].cloud_view()
            != app.sessions.active().unwrap().hosts@[i].default_cloud_view(),
        app.hosts.filters.scheduled,
        app.hosts.search.query is None,
        !app.hosts.self_schedule_only,
        !app.hosts.ssm_filter,
    ensures
        app.host_list().contains(app.sessions.active().unwrap().hosts@[i]),
{
    let s = app.sessions.active().unwrap();
    let names = crate::state::scheduled_names(s.schedules@);
    law_scheduled_filter_shows_hosts_away(false, app.hosts.filters, names, s.hosts@[i]);
    assert(app.host_test(names)(s.hosts@[i]));
    s.hosts@.lemma_filter_contains(app.host_test(names), i);
}

/// Whether a picker entry offers the assignment `a`.
pub open spec fn offers(item: AssignmentPickerItem, a: Assignment) -> bool {
    item matches AssignmentPickerItem::Existing { cloud_name, description } && (
    cloud_name@,
    description@,
    ) == entry_of(a)
}

/// Whether `item` offers one of the assignments `mine` that is both
/// self-scheduled and active.
pub open spec fn offers_open_of(item: AssignmentPickerItem, mine: Seq<Assignment>) -> bool {
    exists|j: int|
        0 <= j < mine.len() && is_set(mine[j].is_self_schedule) && is_set(mine[j].active)
            && #[trigger] offers(item, mine[j])
}

/// Whether some entry before the last of `items` offers `a`.
pub open spec fn offered_in(items: Seq<AssignmentPickerItem>, a: Assignment) -> bool {
    exists|k: int| 0 <= k < items.len() - 1 && #[trigger] offers(items[k], a)
}

/// Every assignment entry of the picker offers one of the user's own
/// assignments that is both self-scheduled and active; every such assignment
/// is offered; the entry that creates a new assignment comes last.
pub proof fn law_picker_offers_open_assignments(items: Seq<AssignmentPickerItem>, mine: Seq<Assignment>)
    requires
        picker_items_of(items, mine),
    ensures
        items.len() > 0,
        items.last() is NewAssignment,
        forall|k: int| 0 <= k < items.len() - 1 ==> offers_open_of(#[trigger] items[k], mine),
        forall|j: int|
            0 <= j < mine.len() && is_set(mine[j].is_self_schedule) && is_set(mine[j].active)
                ==> offered_in(items, #[trigger] mine[j]),
{
    let p = crate::host_keys::open_for_hosts();
    let open = mine.filter(p);
    assert forall|k: int| 0 <= k < items.len() - 1 implies offers_open_of(#[trigger] items[k], mine) by {
        assert(p(open[k]));
        assert(open.contains(open[k]));
        mine.lemma_filter_contains_rev(p, open[k]);
        let j = choose|j: int| 0 <= j < mine.len() && mine[j] == open[k];
        assert(offers(items[k], mine[j]));
    }
    assert forall|j: int|
        0 <= j < mine.len() && is_set(mine[j].is_self_schedule) && is_set(mine[j].active) implies offered_in(
        items,
        #[trigger] mine[j],
    ) by {
        assert(p(mine[j]));
        mine.lemma_filter_contains(p, j);
        let k = choose|k: int| 0 <= k < open.len() && open[k] == mine[j];
        assert(offers(items[k], mine[j]));
    }
}

/// An assignment passes a search when the name of its cloud, its owner, its
/// description, its ticket or its id (in decimal) fuzzily contains it, and
/// only then.
pub proof fn law_assignment_search_fields(a: Assignment, q: Seq<char>)
    ensures
        a.owner matches Some(o) ==> (fuzzy_matches(o@, q) ==> assignment_matches(a, q)),
        a.description matches Some(d) ==> (fuzzy_matches(d@, q) ==> assignment_matches(a, q)),
        a.ticket matches Some(t) ==> (fuzzy_matches(t@, q) ==> assignment_matches(a, q)),
        a.cloud_view() matches Some(c) ==> (fuzzy_matches(c, q) ==> assignment_matches(a, q)),
        a.id matches Some(i) ==> (fuzzy_matches(decimal_text(i as int), q) ==> assignment_matches(
            a,
            q,
        )),
        assignment_matches(a, q) ==> (a.owner matches Some(o) && fuzzy_matches(o@, q)) || (
        a.description matches Some(d) && fuzzy_matches(d@, q)) || (a.ticket matches Some(t)
            && fuzzy_matches(t@, q)) || (a.cloud_view() matches Some(c) && fuzzy_matches(c, q))
            || (a.id matches Some(i) && fuzzy_matches(decimal_text(i as int), q)) || (
        fuzzy_matches(Seq::empty(), q)),
{
}

/// On the assignment list with a search, every assignment of the list's
/// source whose owner fuzzily contains the search is listed.
pub proof fn law_assignments_found_by_owner(app: App, i: int)
    requires
        app.sessions.active() is Some,
        0 <= i < app.assignment_source(app.sessions.active().unwrap()).len(),
        app.assignments.search.query is Some,
        app.assignment_source(app.sessions.active().unwrap())[i].owner matches Some(o)
            && fuzzy_matches(o@, app.assignments.search.query.unwrap()@),
    ensures
        app.assignment_list().contains(app.assignment_source(app.sessions.active().unwrap())[i]),
{
    let src = app.assignment_source(app.sessions.active().unwrap());
    law_assignment_search_fields(src[i], app.assignments.search.query.unwrap()@);
    assert(app.assignment_test()(src[i]));
    src.lemma_filter_contains(app.assignment_test(), i);
}

/// A cloud passes a search when its name, its owner, its ticket or its
/// description fuzzily contains it, and only then.
pub proof fn law_cloud_search_fields(c: CloudSummary, q: Seq<char>)
    ensures
        fuzzy_matches(c.name@, q) ==> cloud_matches(c, q),
        c.owner matches Some(o) ==> (fuzzy_matches(o@, q) ==> cloud_matches(c, q)),
        c.ticket matches Some(t) ==> (fuzzy_matches(t@, q) ==> cloud_matches(c, q)),
        c.description matches Some(d) ==> (fuzzy_matches(d@, q) ==> cloud_matches(c, q)),
        cloud_matches(c, q) ==> fuzzy_matches(c.name@, q) || (c.owner matches Some(o)
            && fuzzy_matches(o@, q)) || (c.ticket matches Some(t) && fuzzy_matches(t@, q)) || (
        c.description matches Some(d) && fuzzy_matches(d@, q)) || fuzzy_matches(Seq::empty(), q),
{
}

/// On the cloud list with a search, every cloud the view shows (all clouds,
/// or the user's own) whose owner fuzzily contains the search is listed.
pub proof fn law_clouds_found_by_owner(app: App, i: int)
    requires
        app.sessions.active() is Some,
        0 <= i < app.sessions.active().unwrap().cloud_summaries@.len(),
        app.clouds.show_all || owned_cloud(
            app.sessions.active().unwrap().cloud_summaries@[i],
            app.sessions.active().unwrap().user_view(),
        ),
        app.clouds.search.query is Some,
        app.sessions.active().unwrap().cloud_summaries@[i].owner matches Some(o) && fuzzy_matches(
            o@,
            app.clouds.search.query.unwrap()@,
        ),
    ensures
        app.cloud_list().contains(app.sessions.active().unwrap().cloud_summaries@[i]),
{
    let s = app.sessions.active().unwrap();
    let cs = s.cloud_summaries@;
    law_cloud_search_fields(cs[i], app.clouds.search.query.unwrap()@);
    assert(app.cloud_test(s.user_view())(cs[i]));
    cs.lemma_filter_contains(app.cloud_test(s.user_view()), i);
}

/// The cloud list outside the all-clouds view shows only clouds whose owner
/// is the user of the active session.
pub proof fn law_own_clouds_view(app: App, user: Option<Seq<char>>, c: CloudSummary)
    requires
        !app.clouds.show_all,
        app.cloud_test(user)(c),
    ensures
        c.owner matches Some(o) && user == Some(o@),
{
}

/// In a list of `count` rows with the selection on a row: PageDown moves it
/// twenty rows down, to the last row at most, and PageUp twenty rows up, to
/// the first row at most (so PageDown never lowers it and PageUp never
/// raises it); Down and `j` move one row down and Up and `k` one row up,
/// staying inside the list; Home goes to the first row and End to the last.
pub proof fn law_moving_keys(sel: usize, count: int)
    requires
        0 <= sel < count <= usize::MAX,
    ensures
        nav_index(sel, Key::PageDown, count) == if sel + 20 < count {
            sel + 20
        } else {
            count - 1
        },
        nav_index(sel, Key::PageUp, count) == if sel >= 20 {
            sel - 20
        } else {
            0
        },
        nav_index(sel, Key::PageDown, count) >= sel,
        nav_index(sel, Key::PageUp, count) <= sel,
        nav_index(sel, Key::Down, count) == if sel + 1 < count {
            sel + 1
        } else {
            sel as int
        },
        nav_index(sel, Key::Char('j'), count) == nav_index(sel, Key::Down, count),
        nav_index(sel, Key::Up, count) == if sel > 0 {
            sel - 1
        } else {
            0
        },
        nav_index(sel, Key::Char('k'), count) == nav_index(sel, Key::Up, count),
        nav_index(sel, Key::Home, count) == 0,
        nav_index(sel, Key::End, count) == count - 1,
{
}

} // verus!
