//! The key hints the help bar shows for the screen on show.
use crate::app::Screen;
use crate::state::App;
use crate::text_util::text_eq;
use vstd::prelude::*;

verus! {

/// A key hint: the key and what it does; a joined hint is written as one
/// word with the key inside it (`[t]erminate`).
#[derive(Debug, Clone, Copy)]
pub struct Hint {
    pub key: &'static str,
    pub desc: &'static str,
    pub joined: bool,
}

/// The texts of hints.
pub open spec fn hint_texts(v: Seq<Hint>) -> Seq<(Seq<char>, Seq<char>, bool)> {
    v.map_values(|h: Hint| (h.key@, h.desc@, h.joined))
}

/// A hint's texts.
pub open spec fn hint(key: Seq<char>, desc: Seq<char>) -> (Seq<char>, Seq<char>, bool) {
    (key, desc, false)
}

/// What Enter does on the dashboard: log out of the active server when
/// logged in, log in to it otherwise; select another server.
pub open spec fn enter_label(s: App) -> Seq<char> {
    let active = s.server_selected < s.config.servers.keys().len() && (s.sessions.active() matches Some(
        a,
    ) && a.name@ == s.config.servers.keys()[s.server_selected as int]);
    if active {
        if s.sessions.active()->0.connected {
            "logout"@
        } else {
            "login"@
        }
    } else {
        "select"@
    }
}

/// The hints of the screen on show, after the quit hint: on the dashboard
/// what Enter does, a new server and editing; on the host list host info,
/// then either picking hosts (clearing the pick when there is one) and
/// scheduling them, or clearing the search (when there is one) and the
/// filters, then switching view and searching; on the assignment list
/// clearing the search (when there is one), then for an open assignment
/// host info, unscheduling and going back, otherwise its hosts, terminating,
/// all or mine, and searching; on the cloud list clearing the search (when
/// there is one), the detail, all or mine, and searching.
pub open spec fn screen_hints(s: App) -> Seq<(Seq<char>, Seq<char>, bool)> {
    match s.screen {
        Screen::Dashboard => seq![
            hint("Enter"@, enter_label(s)),
            hint("n"@, "new server"@),
            hint("e"@, "edit"@),
        ],
        Screen::Hosts => seq![hint("Enter"@, "info"@)] + if s.hosts.self_schedule_only {
            seq![hint("Space"@, "select"@)] + (if s.hosts.multi_select@.len() > 0 {
                seq![hint("Esc"@, "clear selection"@)]
            } else {
                Seq::empty()
            }) + seq![hint("s"@, "schedule"@)]
        } else {
            (if s.hosts.search.query is Some {
                seq![hint("Esc"@, "clear search"@)]
            } else {
                Seq::empty()
            }) + seq![hint("f"@, "filter"@)]
        } + seq![hint("Tab"@, "change view"@), hint("/"@, "search"@)],
        Screen::Assignments => (if s.assignments.search.query is Some {
            seq![hint("Esc"@, "clear search"@)]
        } else {
            Seq::empty()
        }) + if s.assignments.detail_selected is Some {
            seq![hint("Enter"@, "host info"@), hint("u"@, "unschedule"@), hint("Esc"@, "back"@)]
        } else {
            seq![
                hint("Enter"@, "hosts"@),
                ("t"@, "erminate"@, true),
                hint("Tab"@, "all/mine"@),
                hint("/"@, "search"@),
            ]
        },
        Screen::Clouds => (if s.clouds.search.query is Some {
            seq![hint("Esc"@, "clear search"@)]
        } else {
            Seq::empty()
        }) + seq![hint("Enter"@, "detail"@), hint("Tab"@, "all/mine"@), hint("/"@, "search"@)],
    }
}

fn push_hint(v: &mut Vec<Hint>, key: &'static str, desc: &'static str)
    ensures
        final(v)@ == old(v)@.push(Hint { key, desc, joined: false }),
{
    v.push(Hint { key, desc, joined: false });
}

impl App {
    fn enter_hint(&self) -> (r: &'static str)
        requires
            self.wf(),
        ensures
            r@ == enter_label(*self),
    {
        let active = match self.config.servers.name_at(self.server_selected) {
            Some(name) => match self.sessions.active_session() {
                Some(a) => if text_eq(a.name.as_str(), name.as_str()) {
                    Some(a.connected)
                } else {
                    None
                },
                None => None,
            },
            None => None,
        };
        match active {
            Some(true) => "logout",
            Some(false) => "login",
            None => "select",
        }
    }

    /// The hints of the screen on show (`screen_hints`).
    pub fn help_hints(&self) -> (r: Vec<Hint>)
        requires
            self.wf(),
        ensures
            hint_texts(r@) == screen_hints(*self),
    {
        let mut v: Vec<Hint> = Vec::new();
        match self.screen {
            Screen::Dashboard => {
                push_hint(&mut v, "Enter", self.enter_hint());
                push_hint(&mut v, "n", "new server");
                push_hint(&mut v, "e", "edit");
            },
            Screen::Hosts => {
                push_hint(&mut v, "Enter", "info");
                if self.hosts.self_schedule_only {
                    push_hint(&mut v, "Space", "select");
                    if self.hosts.multi_select.len() > 0 {
                        push_hint(&mut v, "Esc", "clear selection");
                    }
                    push_hint(&mut v, "s", "schedule");
                } else {
                    if self.hosts.search.query.is_some() {
                        push_hint(&mut v, "Esc", "clear search");
                    }
                    push_hint(&mut v, "f", "filter");
                }
                push_hint(&mut v, "Tab", "change view");
                push_hint(&mut v, "/", "search");
            },
            Screen::Assignments => {
                if self.assignments.search.query.is_some() {
                    push_hint(&mut v, "Esc", "clear search");
                }
                if self.assignments.detail_selected.is_some() {
                    push_hint(&mut v, "Enter", "host info");
                    push_hint(&mut v, "u", "unschedule");
                    push_hint(&mut v, "Esc", "back");
                } else {
                    push_hint(&mut v, "Enter", "hosts");
                    v.push(Hint { key: "t", desc: "erminate", joined: true });
                    push_hint(&mut v, "Tab", "all/mine");
                    push_hint(&mut v, "/", "search");
                }
            },
            Screen::Clouds => {
                if self.clouds.search.query.is_some() {
                    push_hint(&mut v, "Esc", "clear search");
                }
                push_hint(&mut v, "Enter", "detail");
                push_hint(&mut v, "Tab", "all/mine");
                push_hint(&mut v, "/", "search");
            },
        }
        proof {
            assert(hint_texts(v@) =~= screen_hints(*self));
        }
        v
    }

    /// The auto-refresh hint: marked `[on]` while auto-refresh is on.
    pub fn auto_refresh_label(&self) -> (r: &'static str)
        ensures
            r@ == (if self.auto_refresh {
                "auto-refresh [on]"@
            } else {
                "auto-refresh"@
            }),
    {
        if self.auto_refresh {
            "auto-refresh [on]"
        } else {
            "auto-refresh"
        }
    }
}

} // verus!
