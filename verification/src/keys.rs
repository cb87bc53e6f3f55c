//! What a key does on each screen.
use crate::app::{text_or_empty, Screen};
use crate::config::opt_view;
use crate::state::{App, CloudView, Effect, Key, SearchState};
use crate::text_util::{pop_char, push_char};
use vstd::prelude::*;

verus! {

/// The key is the character `lower` or `upper`.
pub open spec fn is_ch(key: Key, lower: char, upper: char) -> bool {
    key == Key::Char(lower) || key == Key::Char(upper)
}

pub fn ch(key: Key, lower: char, upper: char) -> (r: bool)
    ensures
        r == is_ch(key, lower, upper),
{
    key == Key::Char(lower) || key == Key::Char(upper)
}

/// A key that moves a list's selection.
pub open spec fn is_nav_key(key: Key) -> bool {
    ||| key == Key::Up
    ||| key == Key::Down
    ||| is_ch(key, 'k', 'K')
    ||| is_ch(key, 'j', 'J')
    ||| key == Key::PageUp
    ||| key == Key::PageDown
    ||| key == Key::Home
    ||| key == Key::End
}

/// Where a list's selection goes on a key, in a list of `count` rows: one
/// up or down within the list, twenty up (to the top at most) or down (to
/// the last row at most), to the top, or to the last row.
pub open spec fn nav_index(sel: usize, key: Key, count: int) -> usize {
    if (key == Key::Up || is_ch(key, 'k', 'K')) && sel > 0 {
        (sel - 1) as usize
    } else if (key == Key::Down || is_ch(key, 'j', 'J')) && count > 0 && sel < count - 1 {
        (sel + 1) as usize
    } else if key == Key::PageUp {
        if sel >= 20 {
            (sel - 20) as usize
        } else {
            0
        }
    } else if key == Key::PageDown && count > 0 {
        if sel + 20 <= count - 1 {
            (sel + 20) as usize
        } else {
            (count - 1) as usize
        }
    } else if key == Key::Home {
        0
    } else if key == Key::End && count > 0 {
        (count - 1) as usize
    } else {
        sel
    }
}

/// Moves a selection as `nav_index` says.
pub fn nav(sel: usize, key: Key, count: usize) -> (r: usize)
    ensures
        r == nav_index(sel, key, count as int),
{
    if (key == Key::Up || ch(key, 'k', 'K')) && sel > 0 {
        sel - 1
    } else if (key == Key::Down || ch(key, 'j', 'J')) && count > 0 && sel < count - 1 {
        sel + 1
    } else if key == Key::PageUp {
        if sel >= 20 {
            sel - 20
        } else {
            0
        }
    } else if key == Key::PageDown && count > 0 {
        let last = count - 1;
        if sel <= last && last - sel >= 20 {
            sel + 20
        } else {
            last
        }
    } else if key == Key::Home {
        0
    } else if key == Key::End && count > 0 {
        count - 1
    } else {
        sel
    }
}

/// The state after showing `screen`.
pub open spec fn navigated(s: App, screen: Screen) -> App {
    App { previous_screen: Some(s.screen), screen: screen, ..s }
}

/// The state after going back: the popup closed, or else the dashboard.
pub open spec fn backed(s: App) -> App {
    if s.popup is Some {
        App { popup: None, ..s }
    } else {
        App { screen: Screen::Dashboard, ..s }
    }
}

/// The search text after typing `c`.
pub open spec fn search_typed(q: Option<Seq<char>>, c: char) -> Option<Seq<char>> {
    Some(text_or_empty(q).push(c))
}

/// The search text after erasing its last character; no search once empty.
pub open spec fn search_erased(q: Option<Seq<char>>) -> Option<Seq<char>> {
    match q {
        Some(t) => if t.len() <= 1 {
            None
        } else {
            Some(t.drop_last())
        },
        None => None,
    }
}

/// What a key does while a search is typed: Esc drops the search, Enter
/// ends typing, Backspace and characters edit the search (and reset the
/// selection), Up and Down move the selection in a list of `count` rows.
pub open spec fn search_step(a: SearchState, b: SearchState, key: Key, count: int) -> bool {
    match key {
        Key::Esc => !b.active && b.query is None && b.selected == 0,
        Key::Enter => !b.active && b.query == a.query && b.selected == a.selected,
        Key::Backspace => b.active && opt_view(b.query) == search_erased(opt_view(a.query))
            && b.selected == 0,
        Key::Char(c) => b.active && opt_view(b.query) == search_typed(opt_view(a.query), c)
            && b.selected == 0,
        Key::Up => b.active && b.query == a.query && b.selected == (if a.selected > 0 {
            (a.selected - 1) as usize
        } else {
            a.selected
        }),
        Key::Down => b.active && b.query == a.query && b.selected == (if count > 0 && a.selected
            < count - 1 {
            (a.selected + 1) as usize
        } else {
            a.selected
        }),
        _ => b == a,
    }
}

/// Applies a key to a search being typed.
pub fn search_key(st: &mut SearchState, key: Key, count: usize)
    requires
        old(st).active,
    ensures
        search_step(*old(st), *final(st), key, count as int),
{
    match key {
        Key::Esc => {
            st.active = false;
            st.query = None;
            st.selected = 0;
        },
        Key::Enter => {
            st.active = false;
        },
        Key::Backspace => {
            let q = st.query.take();
            match q {
                Some(mut s) => {
                    pop_char(&mut s);
                    if s.as_str().unicode_len() == 0 {
                        st.query = None;
                    } else {
                        st.query = Some(s);
                    }
                },
                None => {
                    st.query = None;
                },
            }
            st.selected = 0;
        },
        Key::Char(c) => {
            let q = st.query.take();
            let mut s = match q {
                Some(s) => s,
                None => String::new(),
            };
            push_char(&mut s, c);
            st.query = Some(s);
            st.selected = 0;
        },
        Key::Up => {
            if st.selected > 0 {
                st.selected = st.selected - 1;
            }
        },
        Key::Down => {
            if count > 0 && st.selected < count - 1 {
                st.selected = st.selected + 1;
            }
        },
        _ => {},
    }
}

impl App {
    /// Starts fetching the active server's data.
    pub fn start_refresh(&mut self) -> (r: Option<Effect>)
        requires
            old(self).wf(),
        ensures
            match old(self).sessions.active() {
                Some(s) => *final(self) == (App { refreshing: true, loading: true, ..*old(self) })
                    && (r matches Some(Effect::Refresh { server }) && server@ == s.name@),
                None => *final(self) == (App { refreshing: false, ..*old(self) }) && r is None,
            },
    {
        let server = self.active_name();
        self.set_refreshing(server)
    }
}

impl App {
    /// The name of the active session.
    pub fn active_name(&self) -> (r: Option<String>)
        requires
            self.wf(),
        ensures
            match self.sessions.active() {
                Some(s) => r matches Some(n) && n@ == s.name@,
                None => r is None,
            },
    {
        match self.sessions.active_session() {
            Some(s) => Some(s.name.clone()),
            None => None,
        }
    }

    fn set_refreshing(&mut self, server: Option<String>) -> (r: Option<Effect>)
        ensures
            server is Some ==> *final(self) == (App { refreshing: true, loading: true, ..*old(self) }) && r == Some(Effect::Refresh { server: server->0 }),
            server is None ==> *final(self) == (App { refreshing: false, ..*old(self) }) && r is None,
    {
        match server {
            Some(name) => {
                self.refreshing = true;
                self.loading = true;
                Some(Effect::Refresh { server: name })
            },
            None => {
                self.refreshing = false;
                None
            },
        }
    }
}

/// The effects of asking for a refresh from state `s`, as `start_refresh`
/// gives them.
pub open spec fn refresh_effects(s: App, fx: Seq<Effect>) -> bool {
    match s.sessions.active() {
        Some(a) => fx.len() == 1 && (fx[0] matches Effect::Refresh { server } && server@ == a.name@),
        None => fx.len() == 0,
    }
}

/// The state after asking for a refresh from state `s`.
pub open spec fn refreshed(s: App) -> App {
    match s.sessions.active() {
        Some(a) => App { refreshing: true, loading: true, ..s },
        None => App { refreshing: false, ..s },
    }
}

pub fn refresh_list(app: &mut App) -> (fx: Vec<Effect>)
    requires
        old(app).wf(),
    ensures
        *final(app) == refreshed(*old(app)),
        refresh_effects(*old(app), fx@),
{
    let mut fx: Vec<Effect> = Vec::new();
    match app.start_refresh() {
        Some(e) => fx.push(e),
        None => {},
    }
    fx
}

/// What a key asks of a list screen outside a search.
#[derive(Debug, Clone, Copy, PartialEq, Eq, Structural)]
pub enum ListAct {
    Back,
    Quit,
    Nav,
    ToggleAll,
    StartSearch,
    OpenFilter,
    OpenInfo,
    ToggleSelect,
    OpenPicker,
    OpenDetail,
    Terminate,
    Unschedule,
    Refresh,
    AutoRefresh,
    Goto(Screen),
    NextScreen,
    PrevScreen,
    Nothing,
}

/// The actions every screen shares.
pub open spec fn is_shared(act: ListAct) -> bool {
    ||| act == ListAct::Quit
    ||| act == ListAct::Refresh
    ||| act == ListAct::AutoRefresh
    ||| act is Goto
    ||| act == ListAct::NextScreen
    ||| act == ListAct::PrevScreen
    ||| act == ListAct::Nothing
}

/// The next screen in tab order.
pub open spec fn next_screen(s: Screen) -> Screen {
    match s {
        Screen::Dashboard => Screen::Hosts,
        Screen::Hosts => Screen::Assignments,
        Screen::Assignments => Screen::Clouds,
        Screen::Clouds => Screen::Dashboard,
    }
}

/// The previous screen in tab order.
pub open spec fn prev_screen(s: Screen) -> Screen {
    match s {
        Screen::Dashboard => Screen::Clouds,
        Screen::Hosts => Screen::Dashboard,
        Screen::Assignments => Screen::Hosts,
        Screen::Clouds => Screen::Assignments,
    }
}

/// The state after an action every screen shares: quitting, refreshing,
/// toggling auto-refresh, and moving to a screen, the next or the previous.
#[verifier::opaque]
pub open spec fn shared_next(s: App, act: ListAct) -> App {
    match act {
        ListAct::Quit => App { running: false, ..s },
        ListAct::Refresh => refreshed(s),
        ListAct::AutoRefresh => App { auto_refresh: !s.auto_refresh, ..s },
        ListAct::Goto(scr) => navigated(s, scr),
        ListAct::NextScreen => navigated(s, next_screen(s.screen)),
        ListAct::PrevScreen => navigated(s, prev_screen(s.screen)),
        _ => s,
    }
}

proof fn lemma_shared_quit(s: App)
    ensures
        shared_next(s, ListAct::Quit) == (App { running: false, ..s }),
{
    reveal(shared_next);
}

proof fn lemma_shared_auto(s: App)
    ensures
        shared_next(s, ListAct::AutoRefresh) == (App { auto_refresh: !s.auto_refresh, ..s }),
{
    reveal(shared_next);
}

proof fn lemma_shared_goto(s: App, scr: Screen)
    ensures
        shared_next(s, ListAct::Goto(scr)) == navigated(s, scr),
{
    reveal(shared_next);
}

proof fn lemma_shared_step(s: App)
    ensures
        shared_next(s, ListAct::NextScreen) == navigated(s, next_screen(s.screen)),
        shared_next(s, ListAct::PrevScreen) == navigated(s, prev_screen(s.screen)),
{
    reveal(shared_next);
}

proof fn lemma_shared_refresh(s: App)
    ensures
        shared_next(s, ListAct::Refresh) == refreshed(s),
{
    reveal(shared_next);
}

proof fn lemma_shared_nothing(s: App)
    ensures
        shared_next(s, ListAct::Nothing) == s,
{
    reveal(shared_next);
}

impl App {
    fn act_quit(&mut self, act: ListAct)
        requires
            old(self).wf(),
            act == ListAct::Quit,
        ensures
            final(self).wf(),
            *final(self) == shared_next(*old(self), act),
    {
        proof {
            lemma_shared_quit(*self);
        }
        self.running = false;
    }

    fn act_auto_refresh(&mut self, act: ListAct)
        requires
            old(self).wf(),
            act == ListAct::AutoRefresh,
        ensures
            final(self).wf(),
            *final(self) == shared_next(*old(self), act),
    {
        proof {
            lemma_shared_auto(*self);
        }
        self.auto_refresh = !self.auto_refresh;
    }

    fn act_goto(&mut self, act: ListAct)
        requires
            old(self).wf(),
            act is Goto,
        ensures
            final(self).wf(),
            *final(self) == shared_next(*old(self), act),
    {
        if let ListAct::Goto(scr) = act {
            proof {
                lemma_shared_goto(*self, scr);
            }
            self.navigate(scr);
        }
    }

    fn act_step_screen(&mut self, act: ListAct)
        requires
            old(self).wf(),
            act == ListAct::NextScreen || act == ListAct::PrevScreen,
        ensures
            final(self).wf(),
            *final(self) == shared_next(*old(self), act),
    {
        let target = if act == ListAct::NextScreen {
            self.screen.next()
        } else {
            self.screen.prev()
        };
        proof {
            crate::app::lemma_screen_pos(target, next_screen(old(self).screen));
            crate::app::lemma_screen_pos(target, prev_screen(old(self).screen));
        }
        proof {
            lemma_shared_step(*self);
        }
        self.navigate(target);
    }

    fn act_refresh(&mut self, act: ListAct) -> (fx: Vec<Effect>)
        requires
            old(self).wf(),
            act == ListAct::Refresh,
        ensures
            final(self).wf(),
            *final(self) == shared_next(*old(self), act),
            refresh_effects(*old(self), fx@),
    {
        proof {
            lemma_shared_refresh(*self);
        }
        refresh_list(self)
    }

    fn act_nothing(&mut self, act: ListAct)
        requires
            old(self).wf(),
            act == ListAct::Nothing,
        ensures
            final(self).wf(),
            *final(self) == shared_next(*old(self), act),
    {
        proof {
            lemma_shared_nothing(*self);
        }
    }

    /// Carries out an action every screen shares.
    pub fn shared_step(&mut self, act: ListAct) -> (fx: Vec<Effect>)
        requires
            old(self).wf(),
            is_shared(act),
        ensures
            final(self).wf(),
            *final(self) == shared_next(*old(self), act),
            act == ListAct::Refresh ==> refresh_effects(*old(self), fx@),
            act != ListAct::Refresh ==> fx@.len() == 0,
    {
        match act {
            ListAct::Quit => self.act_quit(act),
            ListAct::Refresh => {
                return self.act_refresh(act);
            },
            ListAct::AutoRefresh => self.act_auto_refresh(act),
            ListAct::Goto(_) => self.act_goto(act),
            ListAct::NextScreen => self.act_step_screen(act),
            ListAct::PrevScreen => self.act_step_screen(act),
            _ => self.act_nothing(act),
        }
        Vec::new()
    }
}

/// What a key asks of the cloud list outside a search.
pub open spec fn clouds_act(key: Key) -> ListAct {
    if key == Key::Esc {
        ListAct::Back
    } else if is_ch(key, 'q', 'Q') {
        ListAct::Quit
    } else if is_nav_key(key) {
        ListAct::Nav
    } else if key == Key::Tab {
        ListAct::ToggleAll
    } else if key == Key::Char('/') {
        ListAct::StartSearch
    } else if is_ch(key, 'r', 'R') {
        ListAct::Refresh
    } else if is_ch(key, 'x', 'X') {
        ListAct::AutoRefresh
    } else if is_ch(key, 'd', 'D') {
        ListAct::Goto(Screen::Dashboard)
    } else if is_ch(key, 'h', 'H') {
        ListAct::Goto(Screen::Hosts)
    } else if is_ch(key, 'a', 'A') {
        ListAct::Goto(Screen::Assignments)
    } else if key == Key::Right {
        ListAct::NextScreen
    } else if key == Key::Left {
        ListAct::PrevScreen
    } else {
        ListAct::Nothing
    }
}

pub fn is_nav(key: Key) -> (r: bool)
    ensures
        r == is_nav_key(key),
{
    key == Key::Up || key == Key::Down || ch(key, 'k', 'K') || ch(key, 'j', 'J') || key
        == Key::PageUp || key == Key::PageDown || key == Key::Home || key == Key::End
}

fn clouds_act_of(key: Key) -> (r: ListAct)
    ensures
        r == clouds_act(key),
{
    if key == Key::Esc {
        ListAct::Back
    } else if ch(key, 'q', 'Q') {
        ListAct::Quit
    } else if is_nav(key) {
        ListAct::Nav
    } else if key == Key::Tab {
        ListAct::ToggleAll
    } else if key == Key::Char('/') {
        ListAct::StartSearch
    } else if ch(key, 'r', 'R') {
        ListAct::Refresh
    } else if ch(key, 'x', 'X') {
        ListAct::AutoRefresh
    } else if ch(key, 'd', 'D') {
        ListAct::Goto(Screen::Dashboard)
    } else if ch(key, 'h', 'H') {
        ListAct::Goto(Screen::Hosts)
    } else if ch(key, 'a', 'A') {
        ListAct::Goto(Screen::Assignments)
    } else if key == Key::Right {
        ListAct::NextScreen
    } else if key == Key::Left {
        ListAct::PrevScreen
    } else {
        ListAct::Nothing
    }
}

/// The cloud list after a key that only concerns it: Esc drops the search,
/// the moving keys move the selection, Tab switches between all clouds and
/// the user's own, `/` starts a search.
pub open spec fn cloud_view_next(v: CloudView, act: ListAct, key: Key, count: int) -> CloudView {
    match act {
        ListAct::Back => CloudView {
            search: SearchState { query: None, selected: 0, ..v.search },
            ..v
        },
        ListAct::Nav => CloudView {
            search: SearchState { selected: nav_index(v.search.selected, key, count), ..v.search },
            ..v
        },
        ListAct::ToggleAll => CloudView {
            search: SearchState { selected: 0, ..v.search },
            show_all: !v.show_all,
        },
        ListAct::StartSearch => CloudView {
            search: SearchState { active: true, query: None, selected: 0 },
            ..v
        },
        _ => v,
    }
}

/// What a key does on the cloud list outside a search: Esc without a search
/// goes back; keys that concern only the list change it
/// (`cloud_view_next`); the rest is shared.
#[verifier::opaque]
pub open spec fn clouds_next(s: App, key: Key, count: int) -> App {
    let act = clouds_act(key);
    match act {
        ListAct::Back => if s.clouds.search.query is Some {
            App { clouds: cloud_view_next(s.clouds, act, key, count), ..s }
        } else {
            backed(s)
        },
        ListAct::Nav | ListAct::ToggleAll | ListAct::StartSearch => App {
            clouds: cloud_view_next(s.clouds, act, key, count),
            ..s
        },
        _ => shared_next(s, act),
    }
}

proof fn lemma_clouds_back(s: App, key: Key, count: int)
    requires
        clouds_act(key) == ListAct::Back,
    ensures
        s.clouds.search.query is Some ==> clouds_next(s, key, count) == (App {
            clouds: cloud_view_next(s.clouds, ListAct::Back, key, count),
            ..s
        }),
        s.clouds.search.query is None ==> clouds_next(s, key, count) == backed(s),
{
    reveal(clouds_next);
}

proof fn lemma_clouds_view(s: App, key: Key, count: int)
    requires
        clouds_act(key) == ListAct::Nav || clouds_act(key) == ListAct::ToggleAll || clouds_act(key)
            == ListAct::StartSearch,
    ensures
        clouds_next(s, key, count) == (App {
            clouds: cloud_view_next(s.clouds, clouds_act(key), key, count),
            ..s
        }),
{
    reveal(clouds_next);
}

proof fn lemma_clouds_shared(s: App, key: Key, count: int)
    requires
        is_shared(clouds_act(key)),
    ensures
        clouds_next(s, key, count) == shared_next(s, clouds_act(key)),
{
    reveal(clouds_next);
}

impl App {
    fn cloud_back(&mut self, key: Key, count: usize)
        requires
            old(self).wf(),
            clouds_act(key) == ListAct::Back,
        ensures
            final(self).wf(),
            *final(self) == clouds_next(*old(self), key, count as int),
    {
        proof {
            lemma_clouds_back(*self, key, count as int);
        }
        let searched = self.clouds.search.query.is_some();
        self.cloud_back_step(searched, key, count);
    }

    fn cloud_back_step(&mut self, searched: bool, key: Key, count: usize)
        requires
            old(self).wf(),
        ensures
            final(self).wf(),
            searched ==> *final(self) == (App {
                clouds: cloud_view_next(old(self).clouds, ListAct::Back, key, count as int),
                ..*old(self)
            }),
            !searched ==> *final(self) == backed(*old(self)),
    {
        if searched {
            self.clouds.search.query = None;
            self.clouds.search.selected = 0;
        } else {
            self.go_back();
        }
    }

    fn cloud_view_step(&mut self, key: Key, count: usize)
        requires
            old(self).wf(),
            clouds_act(key) == ListAct::Nav || clouds_act(key) == ListAct::ToggleAll || clouds_act(
                key,
            ) == ListAct::StartSearch,
        ensures
            final(self).wf(),
            *final(self) == clouds_next(*old(self), key, count as int),
    {
        proof {
            lemma_clouds_view(*self, key, count as int);
        }
        let act = clouds_act_of(key);
        match act {
            ListAct::Nav => {
                self.clouds.search.selected = nav(self.clouds.search.selected, key, count);
            },
            ListAct::ToggleAll => {
                self.clouds.show_all = !self.clouds.show_all;
                self.clouds.search.selected = 0;
            },
            _ => {
                self.clouds.search.active = true;
                self.clouds.search.query = None;
                self.clouds.search.selected = 0;
            },
        }
    }

    fn cloud_shared(&mut self, key: Key, count: usize) -> (fx: Vec<Effect>)
        requires
            old(self).wf(),
            is_shared(clouds_act(key)),
        ensures
            final(self).wf(),
            *final(self) == clouds_next(*old(self), key, count as int),
            clouds_act(key) == ListAct::Refresh ==> refresh_effects(*old(self), fx@),
            clouds_act(key) != ListAct::Refresh ==> fx@.len() == 0,
    {
        proof {
            lemma_clouds_shared(*self, key, count as int);
        }
        let act = clouds_act_of(key);
        self.shared_step(act)
    }

    fn clouds_search_key(&mut self, key: Key, count: usize)
        requires
            old(self).wf(),
            old(self).clouds.search.active,
        ensures
            final(self).wf(),
            search_step(old(self).clouds.search, final(self).clouds.search, key, count as int),
            final(self).clouds.show_all == old(self).clouds.show_all,
            *final(self) == (App { clouds: final(self).clouds, ..*old(self) }),
    {
        search_key(&mut self.clouds.search, key, count);
    }

    fn clouds_plain_key(&mut self, key: Key, count: usize) -> (fx: Vec<Effect>)
        requires
            old(self).wf(),
        ensures
            final(self).wf(),
            *final(self) == clouds_next(*old(self), key, count as int),
            clouds_act(key) == ListAct::Refresh ==> refresh_effects(*old(self), fx@),
            clouds_act(key) != ListAct::Refresh ==> fx@.len() == 0,
    {
        let act = clouds_act_of(key);
        match act {
            ListAct::Back => {
                self.cloud_back(key, count);
                Vec::new()
            },
            ListAct::Nav | ListAct::ToggleAll | ListAct::StartSearch => {
                self.cloud_view_step(key, count);
                Vec::new()
            },
            _ => self.cloud_shared(key, count),
        }
    }

    /// Acts on a key on the cloud list: while a search is typed, the key
    /// edits it (`search_step`); otherwise `clouds_next` says what it does.
    pub fn handle_clouds_key(&mut self, key: Key) -> (fx: Vec<Effect>)
        requires
            old(self).wf(),
        ensures
            final(self).wf(),
            old(self).clouds.search.active ==> search_step(
                old(self).clouds.search,
                final(self).clouds.search,
                key,
                old(self).cloud_list().len() as int,
            ) && final(self).clouds.show_all == old(self).clouds.show_all && *final(self) == (App {
                clouds: final(self).clouds,
                ..*old(self)
            }) && fx@.len() == 0,
            !old(self).clouds.search.active ==> *final(self) == clouds_next(
                *old(self),
                key,
                old(self).cloud_list().len() as int,
            ),
            !old(self).clouds.search.active && clouds_act(key) == ListAct::Refresh
                ==> refresh_effects(*old(self), fx@),
            !(!old(self).clouds.search.active && clouds_act(key) == ListAct::Refresh) ==> fx@.len()
                == 0,
    {
        let count = self.filtered_cloud_count();
        if self.clouds.search.active {
            self.clouds_search_key(key, count);
            Vec::new()
        } else {
            self.clouds_plain_key(key, count)
        }
    }
}

} // verus!
