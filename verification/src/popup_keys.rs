//! What a key does in each popup.
use crate::app::{FilterPane, HostFilterPopup, HostInfoState};
use crate::keys::is_ch;
use crate::state::{App, HostView, Key, Popup, SearchState};
use crate::text_input::{word_left_target, word_right_target, TextInput};
use vstd::prelude::*;

verus! {

/// A key that edits a text input.
pub open spec fn is_edit_key(key: Key) -> bool {
    ||| key == Key::Left
    ||| key == Key::Right
    ||| key == Key::Home
    ||| key == Key::End
    ||| key == Key::Delete
    ||| key == Key::Backspace
    ||| key is Char
}

/// What an editing key does to a text input: the arrows move the cursor by
/// a character (by a word with Ctrl), Home and End go to the ends, Delete
/// and Backspace remove the character after or before the cursor, and a
/// character is inserted at the cursor.
pub open spec fn edited(a: TextInput, b: TextInput, key: Key, ctrl: bool) -> bool {
    &&& b.wf()
    &&& match key {
        Key::Left => if ctrl {
            b.value == a.value && b.cursor == word_left_target(a.bytes(), a.cursor as int)
        } else {
            b.value == a.value && (if a.before().len() == 0 {
                b.cursor == a.cursor
            } else {
                b.before() == a.before().drop_last() && b.after() == seq![a.before().last()]
                    + a.after()
            })
        },
        Key::Right => if ctrl {
            b.value == a.value && b.cursor == word_right_target(a.bytes(), a.cursor as int)
        } else {
            b.value == a.value && (if a.after().len() == 0 {
                b.cursor == a.cursor
            } else {
                b.before() == a.before().push(a.after()[0]) && b.after() == a.after().drop_first()
            })
        },
        Key::Home => b.value == a.value && b.cursor == 0,
        Key::End => b.value == a.value && b.cursor == a.bytes().len(),
        Key::Delete => if a.after().len() == 0 {
            b == a
        } else {
            b.after() == a.after().drop_first() && b.before() == a.before()
        },
        Key::Backspace => if a.before().len() == 0 {
            b == a
        } else {
            b.before() == a.before().drop_last() && b.after() == a.after()
        },
        Key::Char(c) => b.before() == a.before().push(c) && b.after() == a.after(),
        _ => b == a,
    }
}

/// Applies an editing key to a text input.
pub fn edit_input(input: &mut TextInput, key: Key, ctrl: bool)
    requires
        old(input).wf(),
    ensures
        edited(*old(input), *final(input), key, ctrl),
{
    match key {
        Key::Left => {
            if ctrl {
                input.move_word_left();
            } else {
                input.move_left();
            }
        },
        Key::Right => {
            if ctrl {
                input.move_word_right();
            } else {
                input.move_right();
            }
        },
        Key::Home => input.move_home(),
        Key::End => input.move_end(),
        Key::Delete => input.delete(),
        Key::Backspace => input.backspace(),
        Key::Char(c) => input.insert(c),
        _ => {},
    }
}

/// What a key does in the host filter popup, when it stays open: Tab
/// switches panes; in the status pane the moving keys move the cursor over
/// the four flags; Space flips the flag under the cursor, or the
/// self-schedulable switch in the other pane.
pub open spec fn filter_popup_next(p: HostFilterPopup, key: Key) -> HostFilterPopup {
    if key == Key::Tab {
        HostFilterPopup {
            pane: if p.pane == FilterPane::Status {
                FilterPane::SelfSchedule
            } else {
                FilterPane::Status
            },
            ..p
        }
    } else if key == Key::Up || is_ch(key, 'k', 'K') {
        if p.pane == FilterPane::Status && p.cursor > 0 {
            HostFilterPopup { cursor: (p.cursor - 1) as usize, ..p }
        } else {
            p
        }
    } else if key == Key::Down || is_ch(key, 'j', 'J') {
        if p.pane == FilterPane::Status && p.cursor < 3 {
            HostFilterPopup { cursor: (p.cursor + 1) as usize, ..p }
        } else {
            p
        }
    } else if key == Key::Char(' ') {
        if p.pane == FilterPane::Status {
            HostFilterPopup { flags: p.flags.toggled_at(p.cursor as int), ..p }
        } else {
            HostFilterPopup { ssm_only: !p.ssm_only, ..p }
        }
    } else {
        p
    }
}

/// What a key does in the host filter popup `p`: Esc closes it, Enter
/// applies its filters to the host list (selecting the first row); other
/// keys act as `filter_popup_next` says.
pub open spec fn filter_key_result(s: App, t: App, p: HostFilterPopup, key: Key) -> bool {
    if key == Key::Esc {
        t == (App { popup: None, ..s })
    } else if key == Key::Enter {
        t == (App {
            popup: None,
            hosts: HostView {
                filters: p.flags,
                ssm_filter: p.ssm_only,
                search: SearchState { selected: 0, ..s.hosts.search },
                ..s.hosts
            },
            ..s
        })
    } else {
        t == (App { popup: Some(Popup::HostFilter(filter_popup_next(p, key))), ..s })
    }
}

/// Applies a key to the host filter popup while it stays open.
pub fn filter_popup_step(p: &mut HostFilterPopup, key: Key)
    requires
        old(p).cursor < 4,
    ensures
        *final(p) == filter_popup_next(*old(p), key),
        final(p).cursor < 4,
{
    if key == Key::Tab {
        p.pane = if p.pane == FilterPane::Status {
            FilterPane::SelfSchedule
        } else {
            FilterPane::Status
        };
    } else if key == Key::Up || crate::keys::ch(key, 'k', 'K') {
        if p.pane == FilterPane::Status && p.cursor > 0 {
            p.cursor = p.cursor - 1;
        }
    } else if key == Key::Down || crate::keys::ch(key, 'j', 'J') {
        if p.pane == FilterPane::Status && p.cursor < 3 {
            p.cursor = p.cursor + 1;
        }
    } else if key == Key::Char(' ') {
        if p.pane == FilterPane::Status {
            p.flags.toggle(p.cursor);
        } else {
            p.ssm_only = !p.ssm_only;
        }
    }
}

/// What a key does in the host info popup, when it stays open: the moving
/// keys move over the four sections, Enter and Space open or close the
/// section under the cursor, PageUp and PageDown scroll by ten lines (not
/// past the top or the largest offset), Home scrolls to the top.
pub open spec fn info_popup_next(st: HostInfoState, key: Key) -> HostInfoState {
    if key == Key::Up || is_ch(key, 'k', 'K') {
        if st.cursor > 0 {
            HostInfoState { cursor: (st.cursor - 1) as usize, ..st }
        } else {
            st
        }
    } else if key == Key::Down || is_ch(key, 'j', 'J') {
        if st.cursor < 3 {
            HostInfoState { cursor: (st.cursor + 1) as usize, ..st }
        } else {
            st
        }
    } else if key == Key::PageUp {
        HostInfoState {
            scroll: if st.scroll >= 10 {
                (st.scroll - 10) as u16
            } else {
                0
            },
            ..st
        }
    } else if key == Key::PageDown {
        HostInfoState {
            scroll: if st.scroll <= u16::MAX - 10 {
                (st.scroll + 10) as u16
            } else {
                u16::MAX
            },
            ..st
        }
    } else if key == Key::Home {
        HostInfoState { scroll: 0, ..st }
    } else {
        st
    }
}

/// What a key does in the host info popup `st`: Esc closes it; Enter and
/// Space flip the section under the cursor; other keys act as
/// `info_popup_next` says.
pub open spec fn info_key_result(s: App, t: App, st: HostInfoState, key: Key) -> bool {
    if key == Key::Esc {
        t == (App { popup: None, ..s })
    } else if key == Key::Enter || key == Key::Char(' ') {
        &&& t.popup matches Some(Popup::HostInfo(n)) && n.sections@ == st.sections@.update(
            st.cursor as int,
            !st.sections@[st.cursor as int],
        ) && n == (HostInfoState { sections: n.sections, ..st })
        &&& t == (App { popup: t.popup, ..s })
    } else {
        t == (App { popup: Some(Popup::HostInfo(info_popup_next(st, key))), ..s })
    }
}

/// Applies a key to the host info popup while it stays open.
pub fn info_popup_step(st: &mut HostInfoState, key: Key)
    requires
        old(st).cursor < 4,
        key != Key::Enter && key != Key::Char(' '),
    ensures
        *final(st) == info_popup_next(*old(st), key),
        final(st).cursor < 4,
{
    if key == Key::Up || crate::keys::ch(key, 'k', 'K') {
        if st.cursor > 0 {
            st.cursor = st.cursor - 1;
        }
    } else if key == Key::Down || crate::keys::ch(key, 'j', 'J') {
        if st.cursor < 3 {
            st.cursor = st.cursor + 1;
        }
    } else if key == Key::PageUp {
        st.scroll = st.scroll.saturating_sub(10);
    } else if key == Key::PageDown {
        st.scroll = st.scroll.saturating_add(10);
    } else if key == Key::Home {
        st.scroll = 0;
    }
}

/// Opens or closes the section under the cursor of the host info popup.
pub fn flip_section(st: &mut HostInfoState)
    requires
        old(st).cursor < 4,
    ensures
        final(st).sections@ == old(st).sections@.update(
            old(st).cursor as int,
            !old(st).sections@[old(st).cursor as int],
        ),
        *final(st) == (HostInfoState { sections: final(st).sections, ..*old(st) }),
        final(st).cursor < 4,
{
    let c = st.cursor;
    let a = st.sections;
    let v = !a[c];
    let n: [bool; 4] = [
        if c == 0 {
            v
        } else {
            a[0]
        },
        if c == 1 {
            v
        } else {
            a[1]
        },
        if c == 2 {
            v
        } else {
            a[2]
        },
        if c == 3 {
            v
        } else {
            a[3]
        },
    ];
    st.sections = n;
    proof {
        assert(n@ =~= a@.update(c as int, v));
    }
}

impl App {
    /// Acts on a key in the host filter popup (`filter_key_result`).
    pub fn handle_host_filter_key(&mut self, key: Key)
        requires
            old(self).wf(),
            old(self).popup matches Some(Popup::HostFilter(_)),
        ensures
            final(self).wf(),
            old(self).popup matches Some(Popup::HostFilter(p)) && filter_key_result(
                *old(self),
                *final(self),
                p,
                key,
            ),
    {
        let popup = self.popup.take();
        match popup {
            Some(Popup::HostFilter(mut p)) => {
                if key == Key::Esc {
                } else if key == Key::Enter {
                    self.hosts.filters = p.flags;
                    self.hosts.ssm_filter = p.ssm_only;
                    self.hosts.search.selected = 0;
                } else {
                    filter_popup_step(&mut p, key);
                    self.popup = Some(Popup::HostFilter(p));
                }
            },
            other => {
                self.popup = other;
            },
        }
    }

    /// Acts on a key in the host info popup (`info_key_result`).
    pub fn handle_host_info_key(&mut self, key: Key)
        requires
            old(self).wf(),
            old(self).popup matches Some(Popup::HostInfo(_)),
        ensures
            final(self).wf(),
            old(self).popup matches Some(Popup::HostInfo(st)) && info_key_result(
                *old(self),
                *final(self),
                st,
                key,
            ),
    {
        let popup = self.popup.take();
        match popup {
            Some(Popup::HostInfo(mut st)) => {
                if key == Key::Esc {
                } else if key == Key::Enter || key == Key::Char(' ') {
                    flip_section(&mut st);
                    self.popup = Some(Popup::HostInfo(st));
                } else {
                    info_popup_step(&mut st, key);
                    self.popup = Some(Popup::HostInfo(st));
                }
            },
            other => {
                self.popup = other;
            },
        }
    }
}

} // verus!
