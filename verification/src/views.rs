//! What the assignment detail and the dashboard's assignment summary show.
use crate::assignment_keys::sched_of;
use crate::config::opt_view;
use crate::info_view::or_dash;
use crate::models::{is_set, Assignment, Schedule};
use crate::session::Session;
use crate::state::App;
use crate::stats::count_of;
use crate::text_util::{chars_of, chars_less, decimal, decimal_text, lex_less, digits_string, digits_of};
use vstd::prelude::*;

verus! {

/// The labelled rows of an assignment's detail: its id (when known), cloud,
/// owner and description, its ticket (when there is one), whether it is
/// active, whether hosts are wiped (when known) and when it was created
/// (when known).
pub open spec fn detail_rows(a: Assignment) -> Seq<(Seq<char>, Seq<char>)> {
    (match a.id {
        Some(i) => seq![("ID"@, decimal_text(i as int))],
        None => Seq::empty(),
    }) + seq![
        ("Cloud"@, or_dash(a.cloud_view())),
        ("Owner"@, or_dash(a.owner_view())),
        ("Description"@, or_dash(opt_view(a.description))),
    ] + (match a.ticket {
        Some(t) => seq![("Ticket"@, t@)],
        None => Seq::empty(),
    }) + seq![
        (
            "Active"@,
            if is_set(a.active) {
                "Yes"@
            } else {
                "No"@
            },
        ),
    ] + (match a.wipe {
        Some(w) => seq![
            (
                "Wipe"@,
                if w {
                    "Yes"@
                } else {
                    "No"@
                },
            ),
        ],
        None => Seq::empty(),
    }) + (match a.created_at {
        Some(c) => seq![("Created"@, c@)],
        None => Seq::empty(),
    })
}

/// The texts of labelled rows.
pub open spec fn row_texts(v: Seq<(&'static str, String)>) -> Seq<(Seq<char>, Seq<char>)> {
    v.map_values(|r: (&'static str, String)| (r.0@, r.1@))
}

fn text_or_dash(o: Option<&str>) -> (r: String)
    ensures
        match o {
            Some(s) => r@ == s@,
            None => r@ == "--"@,
        },
{
    match o {
        Some(s) => String::from_str(s),
        None => String::from_str("--"),
    }
}

/// The labelled rows of an assignment's detail (`detail_rows`).
pub fn detail_fields(a: &Assignment) -> (r: Vec<(&'static str, String)>)
    ensures
        row_texts(r@) == detail_rows(*a),
{
    let mut v: Vec<(&'static str, String)> = Vec::new();
    match a.id {
        Some(i) => v.push(("ID", decimal(i))),
        None => {},
    }
    v.push(("Cloud", text_or_dash(a.cloud_name())));
    v.push(
        (
            "Owner",
            text_or_dash(
                match &a.owner {
                    Some(o) => Some(o.as_str()),
                    None => None,
                },
            ),
        ),
    );
    v.push(
        (
            "Description",
            text_or_dash(
                match &a.description {
                    Some(d) => Some(d.as_str()),
                    None => None,
                },
            ),
        ),
    );
    match &a.ticket {
        Some(t) => v.push(("Ticket", t.clone())),
        None => {},
    }
    v.push(
        (
            "Active",
            String::from_str(
                if a.active == Some(true) {
                    "Yes"
                } else {
                    "No"
                },
            ),
        ),
    );
    match a.wipe {
        Some(w) => v.push(
            (
                "Wipe",
                String::from_str(
                    if w {
                        "Yes"
                    } else {
                        "No"
                    },
                ),
            ),
        ),
        None => {},
    }
    match &a.created_at {
        Some(c) => v.push(("Created", c.clone())),
        None => {},
    }
    proof {
        assert(row_texts(v@) =~= detail_rows(*a));
    }
    v
}

/// A host row of the assignment detail: the host's name, then its start and
/// end (`--` where unknown) joined by an arrow.
pub open spec fn schedule_text(s: Schedule) -> (Seq<char>, Seq<char>) {
    (s.host_name_of(), or_dash(opt_view(s.start)) + " -> "@ + or_dash(opt_view(s.end)))
}

/// A host row of the assignment detail (`schedule_text`).
pub fn schedule_row(s: &Schedule) -> (r: (String, String))
    ensures
        (r.0@, r.1@) == schedule_text(*s),
{
    let host = s.host_name();
    let mut span = text_or_dash(
        match &s.start {
            Some(x) => Some(x.as_str()),
            None => None,
        },
    );
    span.append(" -> ");
    span.append(
        text_or_dash(
            match &s.end {
                Some(x) => Some(x.as_str()),
                None => None,
            },
        ).as_str(),
    );
    (host, span)
}

/// The latest end, in text order, of the schedules of `s` that belong to
/// the assignment with id `id` and have one.
pub open spec fn latest_end(s: Seq<Schedule>, id: Option<i64>) -> Option<Seq<char>>
    decreases s.len(),
{
    if s.len() == 0 {
        None
    } else {
        let rest = latest_end(s.drop_last(), id);
        let x = s.last();
        if x.assignment_id == id && x.end is Some {
            let e = x.end->0@;
            match rest {
                Some(r) => if lex_less(r, e) {
                    Some(e)
                } else {
                    Some(r)
                },
                None => Some(e),
            }
        } else {
            rest
        }
    }
}

/// How many hosts the assignment with id `id` has among `schedules`, and
/// the latest of their ends (`latest_end`).
pub fn assignment_hosts(schedules: &Vec<Schedule>, id: Option<i64>) -> (r: (usize, Option<String>))
    ensures
        r.0 == count_of(schedules@, sched_of(id)),
        opt_view(r.1) == latest_end(schedules@, id),
{
    let ghost s = schedules@;
    let mut n: usize = 0;
    let mut best: Option<String> = None;
    let mut i: usize = 0;
    while i < schedules.len()
        invariant
            i <= s.len(),
            s == schedules@,
            n == count_of(s.take(i as int), sched_of(id)),
            n <= i,
            opt_view(best) == latest_end(s.take(i as int), id),
        decreases s.len() - i,
    {
        proof {
            assert(s.take(i + 1).drop_last() =~= s.take(i as int));
        }
        let x = &schedules[i];
        if x.assignment_id == id {
            n = n + 1;
            match &x.end {
                Some(e) => {
                    let replace = match &best {
                        Some(b) => chars_less(&chars_of(b.as_str()), &chars_of(e.as_str())),
                        None => true,
                    };
                    if replace {
                        best = Some(e.clone());
                    }
                },
                None => {},
            }
        }
        i = i + 1;
    }
    proof {
        assert(s.take(s.len() as int) =~= s);
    }
    (n, best)
}

/// The heading of the dashboard's assignment summary: the user's own
/// assignments (`--` when not logged in) and all active ones.
pub open spec fn summary_heading(s: Session) -> Seq<char> {
    "  My Assignments: "@ + (if s.user_email is Some {
        digits_of(s.my_assignments@.len())
    } else {
        "--"@
    }) + "  (total active: "@ + digits_of(s.assignments@.len()) + ")"@
}

/// The heading of the dashboard's assignment summary (`summary_heading`).
pub fn summary_heading_text(s: &Session) -> (r: String)
    ensures
        r@ == summary_heading(*s),
{
    let mut t = String::from_str("  My Assignments: ");
    if s.user_email.is_some() {
        t.append(digits_string(s.my_assignments.len() as u64).as_str());
    } else {
        t.append("--");
    }
    t.append("  (total active: ");
    t.append(digits_string(s.assignments.len() as u64).as_str());
    t.append(")");
    t
}

/// How a configured server stands in the server list.
#[derive(Debug, Clone, Copy, PartialEq, Eq, Structural)]
pub enum ServerState {
    /// It has a logged-in session.
    Connected,
    /// It has a session, not logged in: its public data can be read.
    ReadOnly,
    /// It has no session yet.
    Unused,
}

impl App {
    /// How the server `name` stands: logged in, read-only, or not used yet.
    pub fn server_state(&self, name: &str) -> (r: ServerState)
        requires
            self.wf(),
        ensures
            !self.sessions.has(name@) ==> r == ServerState::Unused,
            self.sessions.has(name@) ==> r == (if self.sessions.sessions@[self.sessions.index_of(
                name@,
            )].connected {
                ServerState::Connected
            } else {
                ServerState::ReadOnly
            }),
    {
        match self.sessions.get_session(name) {
            Some(s) => if s.connected {
                ServerState::Connected
            } else {
                ServerState::ReadOnly
            },
            None => ServerState::Unused,
        }
    }
}

} // verus!
