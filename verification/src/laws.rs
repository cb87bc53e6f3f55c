//! Properties of the interface that span several operations.
use crate::app::{NewAssignmentField, Screen, ServerFormField};
use crate::config::AppConfig;
use crate::dispatch::key_result;
use crate::flows::disconnected;
use crate::form_keys::{form_saved, renames, server_added, server_removed};
use crate::host_keys::toggled;
use crate::keys::{is_nav_key, nav_index, next_screen, prev_screen, search_erased, search_typed};
use crate::popup_keys::edited;
use crate::state::{App, Effect, Key, Popup};
use crate::text_input::TextInput;
use vstd::prelude::*;

verus! {

/// Moving to the next screen and back, or back and then on, returns to the
/// same screen; four steps either way go all the way round.
pub proof fn law_screen_round_trip(s: Screen)
    ensures
        prev_screen(next_screen(s)) == s,
        next_screen(prev_screen(s)) == s,
        next_screen(next_screen(next_screen(next_screen(s)))) == s,
        prev_screen(prev_screen(prev_screen(prev_screen(s)))) == s,
{
}

/// In the server form, Tab then BackTab (or BackTab then Tab) comes back to
/// the same field.
pub proof fn law_server_field_round_trip(a: ServerFormField, b: ServerFormField, c: ServerFormField)
    requires
        (b.pos() == (a.pos() + 1) % 3 && c.pos() == (b.pos() + 2) % 3) || (b.pos() == (a.pos() + 2)
            % 3 && c.pos() == (b.pos() + 1) % 3),
    ensures
        c == a,
{
}

/// In the new-assignment form, Tab then BackTab (or BackTab then Tab) comes
/// back to the same field.
pub proof fn law_assignment_field_round_trip(
    a: NewAssignmentField,
    b: NewAssignmentField,
    c: NewAssignmentField,
)
    requires
        (b.pos() == (a.pos() + 1) % 3 && c.pos() == (b.pos() + 2) % 3) || (b.pos() == (a.pos() + 2)
            % 3 && c.pos() == (b.pos() + 1) % 3),
    ensures
        c == a,
{
}

/// Typing a character into a search and erasing it again gives the search
/// back; erasing the only character ends the search.
pub proof fn law_search_type_then_erase(q: Option<Seq<char>>, c: char)
    ensures
        q matches Some(t) && t.len() > 0 ==> search_erased(search_typed(q, c)) == q,
        q is None ==> search_erased(search_typed(q, c)) is None,
{
    if let Some(t) = q {
        assert(t.push(c).drop_last() =~= t);
    }
}

/// A list's selection stays on a row: after a moving key it is below the
/// number of rows, when it was before.
pub proof fn law_selection_stays_in_list(sel: usize, key: Key, count: int)
    requires
        is_nav_key(key),
        0 <= sel < count,
    ensures
        nav_index(sel, key, count) < count,
{
}

/// Picking a host and picking it again leaves the pick as it was.
pub proof fn law_pick_twice(names: Set<Seq<char>>, n: Seq<char>)
    ensures
        toggled(toggled(names, n), n) == names,
{
    if names.contains(n) {
        assert(names.remove(n).insert(n) =~= names);
    } else {
        assert(names.insert(n).remove(n) =~= names);
    }
}

/// Typing a character and erasing it with Backspace leaves the text on
/// either side of the cursor as it was.
pub proof fn law_type_then_backspace(a: TextInput, b: TextInput, d: TextInput, c: char, ctrl: bool)
    requires
        edited(a, b, Key::Char(c), ctrl),
        edited(b, d, Key::Backspace, ctrl),
    ensures
        d.before() == a.before(),
        d.after() == a.after(),
{
    assert(a.before().push(c).drop_last() =~= a.before());
}

/// Logging out keeps the cached data: the host list shows the same hosts
/// as before, and so do the lists of all assignments and all clouds.
pub proof fn law_logout_keeps_lists(s: App, t: App)
    requires
        s.wf(),
        t.wf(),
        disconnected(s, t),
    ensures
        t.host_list() == s.host_list(),
        s.assignments.show_all ==> t.assignment_list() == s.assignment_list(),
        s.clouds.show_all ==> t.cloud_list() == s.cloud_list(),
{
    match s.sessions.active() {
        Some(a) => {
            let pos = s.sessions.active_pos();
            let b = t.sessions.sessions@[pos];
            let nm = s.sessions.active_server->0@;
            assert(s.sessions.sessions@[pos].name@ == nm);
            assert(t.sessions.sessions@[pos].name@ == nm);
            assert(t.sessions.has(nm));
            let j = t.sessions.index_of(nm);
            if j != pos {
                if j < pos {
                    assert(t.sessions.sessions@[j].name@ != t.sessions.sessions@[pos].name@);
                } else {
                    assert(t.sessions.sessions@[pos].name@ != t.sessions.sessions@[j].name@);
                }
            }
            assert(t.sessions.active() == Some(b));
            assert(t.host_test(crate::state::scheduled_names(b.schedules@)) == s.host_test(
                crate::state::scheduled_names(a.schedules@),
            ));
            assert(t.assignment_test() == s.assignment_test());
            if s.clouds.show_all {
                assert(t.cloud_test(b.user_view()) =~= s.cloud_test(a.user_view()));
            }
        },
        None => {},
    }
}

/// Adding a server and removing it again leaves the other servers as they
/// were.
pub proof fn law_add_then_remove_server(
    c: AppConfig,
    d: AppConfig,
    f: AppConfig,
    name: Seq<char>,
    e: crate::config::ServerEntry,
)
    requires
        server_added(c, d, name, e),
        server_removed(d, f, name),
    ensures
        f.servers@ == c.servers@.remove(name),
{
    assert(c.servers@.insert(name, e).remove(name) =~= c.servers@.remove(name));
}

/// Editing a server in the server form, without renaming it, keeps the
/// credentials saved for it.
pub proof fn law_edit_keeps_credentials(c: AppConfig, d: AppConfig, f: crate::app::ServerForm)
    requires
        form_saved(c, d, f),
        !renames(f),
        c.servers@.contains_key(f.name.value@),
    ensures
        d.servers@.contains_key(f.name.value@),
        d.servers@[f.name.value@].username == c.servers@[f.name.value@].username,
        d.servers@[f.name.value@].password == c.servers@[f.name.value@].password,
        d.servers@[f.name.value@].verify_ssl == f.verify_ssl,
{
}

/// Ctrl+C quits whatever is on show.
pub proof fn law_ctrl_c_quits(s: App, t: App, fx: Seq<Effect>)
    requires
        key_result(s, t, Key::Char('c'), true, fx),
    ensures
        !t.running,
        fx.len() == 0,
{
}

/// An error popup closes on any key, and nothing else changes.
pub proof fn law_error_closes_on_any_key(s: App, t: App, key: Key, fx: Seq<Effect>)
    requires
        s.popup matches Some(Popup::Error(_)),
        !(key == Key::Char('c')),
        key_result(s, t, key, false, fx),
    ensures
        t == (App { popup: None, ..s }),
        fx.len() == 0,
{
}

} // verus!
