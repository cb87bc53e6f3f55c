use quads_tui::app::{
    AssignmentPickerItem, AssignmentPickerState, HostFilterFlags, HostInfoState, NewAssignmentField,
    Screen, ServerFormField,
};
use quads_tui::config::{AppConfig, ServerEntry};
use quads_tui::models::{CloudRef, Host};
use quads_tui::session::Session;
use quads_tui::state::{App, Effect, Key, Popup};
use quads_tui::update::UpdateInfo;
use quads_tui::views::ServerState;

fn entry(url: &str, user: Option<&str>, pass: Option<&str>) -> ServerEntry {
    ServerEntry {
        url: url.to_string(),
        username: user.map(|s| s.to_string()),
        password: pass.map(|s| s.to_string()),
        verify_ssl: true,
    }
}

fn cloud(name: &str) -> Option<CloudRef> {
    Some(CloudRef { id: None, name: name.to_string(), last_redefined: None })
}

fn host(name: &str, at: &str, home: &str) -> Host {
    Host {
        id: None,
        name: name.to_string(),
        model: None,
        host_type: None,
        cloud: cloud(at),
        default_cloud: cloud(home),
        broken: None,
        retired: None,
        build: None,
        validated: None,
        can_self_schedule: None,
        rack: None,
        switch_config_applied: None,
        last_build: None,
        interfaces: Vec::new(),
        disks: Vec::new(),
        memory: Vec::new(),
        processors: Vec::new(),
    }
}

fn app_with_session() -> App {
    let mut config = AppConfig::new();
    config.add_server("lab".to_string(), entry("https://lab.example.com", None, None));
    let mut app = App::new(config);
    let session = Session::new("lab", &entry("https://lab.example.com", None, None));
    app.sessions.add_session(session);
    app
}

fn type_text(app: &mut App, text: &str) {
    for c in text.chars() {
        let fx = app.handle_key(Key::Char(c), false);
        assert!(fx.is_empty());
    }
}

#[test]
fn new_interface_starts_on_the_dashboard() {
    let app = App::new(AppConfig::new());
    assert!(app.running);
    assert_eq!(app.screen, Screen::Dashboard);
    assert!(app.popup.is_none());
    assert!(app.clouds.show_all);
    assert!(!app.assignments.show_all);
    assert!(app.hosts.filters.available && app.hosts.filters.scheduled);
    assert!(!app.hosts.filters.broken && !app.hosts.filters.retired);
    assert_eq!(app.spinner_char(), '|');
}

#[test]
fn spinner_cycles_every_four_ticks() {
    let mut app = App::new(AppConfig::new());
    let frames: Vec<char> = (0..5)
        .map(|t| {
            app.tick = t;
            app.spinner_char()
        })
        .collect();
    assert_eq!(frames, vec!['|', '/', '-', '\\', '|']);
}

#[test]
fn ctrl_c_quits_even_with_a_popup() {
    let mut app = App::new(AppConfig::new());
    app.popup = Some(Popup::Working("busy".to_string()));
    let fx = app.handle_key(Key::Char('c'), true);
    assert!(fx.is_empty());
    assert!(!app.running);
}

#[test]
fn error_popup_closes_on_any_key() {
    let mut app = App::new(AppConfig::new());
    app.set_error("boom".to_string());
    assert!(matches!(&app.popup, Some(Popup::Error(m)) if m == "boom"));
    app.handle_key(Key::Char('z'), false);
    assert!(app.popup.is_none());
    assert!(app.running);
}

#[test]
fn screens_cycle_both_ways() {
    for s in [Screen::Dashboard, Screen::Hosts, Screen::Assignments, Screen::Clouds] {
        assert_eq!(s.next().prev(), s);
        assert_eq!(s.prev().next(), s);
        assert_eq!(s.next().next().next().next(), s);
    }
    assert_eq!(Screen::Dashboard.next(), Screen::Hosts);
    assert_eq!(Screen::Dashboard.prev(), Screen::Clouds);
}

#[test]
fn form_fields_round_trip() {
    for f in [ServerFormField::Name, ServerFormField::Url, ServerFormField::VerifySsl] {
        assert_eq!(f.next().prev(), f);
        assert_eq!(f.prev().next(), f);
    }
    for f in [NewAssignmentField::Description, NewAssignmentField::Qinq, NewAssignmentField::Wipe] {
        assert_eq!(f.next().prev(), f);
    }
}

#[test]
fn toggling_a_filter_twice_restores_it() {
    let mut f = HostFilterFlags::default_filters();
    f.toggle(2);
    assert!(f.get(2));
    f.toggle(2);
    assert!(!f.get(2));
    assert_eq!(HostFilterFlags::label(0), "Available");
}

#[test]
fn dashboard_keys_navigate() {
    let mut app = App::new(AppConfig::new());
    app.handle_key(Key::Right, false);
    assert_eq!(app.screen, Screen::Hosts);
    assert_eq!(app.previous_screen, Some(Screen::Dashboard));
    let mut app2 = App::new(AppConfig::new());
    app2.handle_key(Key::Left, false);
    assert_eq!(app2.screen, Screen::Clouds);
    let mut app3 = App::new(AppConfig::new());
    app3.handle_key(Key::Char('a'), false);
    assert_eq!(app3.screen, Screen::Assignments);
    app3.go_back();
    assert_eq!(app3.screen, Screen::Dashboard);
    let mut app4 = App::new(AppConfig::new());
    app4.handle_key(Key::Char('x'), false);
    assert!(app4.auto_refresh);
    app4.handle_key(Key::Char('q'), false);
    assert!(!app4.running);
}

#[test]
fn dashboard_cursor_stays_on_a_server() {
    let mut config = AppConfig::new();
    config.add_server("a".to_string(), entry("https://a", None, None));
    config.add_server("b".to_string(), entry("https://b", None, None));
    let mut app = App::new(config);
    app.handle_key(Key::Up, false);
    assert_eq!(app.server_selected, 0);
    app.handle_key(Key::Down, false);
    assert_eq!(app.server_selected, 1);
    app.handle_key(Key::Char('j'), false);
    assert_eq!(app.server_selected, 1);
    app.handle_key(Key::Char('k'), false);
    assert_eq!(app.server_selected, 0);
}

#[test]
fn adding_a_server_through_the_form() {
    let mut app = App::new(AppConfig::new());
    app.handle_key(Key::Char('n'), false);
    assert!(matches!(&app.popup, Some(Popup::ServerForm(f)) if f.editing_existing.is_none() && f.verify_ssl));
    type_text(&mut app, "lab");
    app.handle_key(Key::Tab, false);
    type_text(&mut app, "https://lab.example.com/");
    app.handle_key(Key::Down, false);
    app.handle_key(Key::Char(' '), false);
    let fx = app.handle_key(Key::Enter, false);
    assert!(matches!(fx.as_slice(), [Effect::SaveServerConfig]));
    assert!(app.popup.is_none());
    let e = app.config.servers.get("lab").unwrap();
    assert_eq!(e.url, "https://lab.example.com/");
    assert!(!e.verify_ssl);
    assert_eq!(app.config.default_server.as_deref(), Some("lab"));

    let fx = app.server_saved();
    assert_eq!(app.server_selected, 0);
    assert!(matches!(fx.as_slice(), [Effect::SaveConfig, Effect::Refresh { server }] if server == "lab"));
    assert!(matches!(&app.popup, Some(Popup::AuthForm(f)) if f.server_name == "lab" && f.username.value.is_empty()));
    let s = app.sessions.active_session().unwrap();
    assert_eq!(s.name, "lab");
    assert_eq!(s.client.base_url, "https://lab.example.com");
}

#[test]
fn server_form_needs_name_and_url() {
    let mut app = App::new(AppConfig::new());
    app.handle_key(Key::Char('n'), false);
    type_text(&mut app, "only-name");
    let fx = app.handle_key(Key::Enter, false);
    assert!(fx.is_empty());
    assert!(matches!(&app.popup, Some(Popup::Error(m)) if m == "Name and URL are required"));
    assert!(app.config.servers.is_empty());
}

#[test]
fn failed_save_is_reported() {
    let mut app = App::new(AppConfig::new());
    app.server_save_failed("disk full");
    assert!(matches!(&app.popup, Some(Popup::Error(m)) if m == "Failed to save config: disk full"));
}

#[test]
fn renaming_a_server_drops_saved_credentials() {
    let mut config = AppConfig::new();
    config.add_server("old".to_string(), entry("https://x", Some("u@x"), Some("pw")));
    let mut app = App::new(config);
    app.handle_key(Key::Char('e'), false);
    assert!(matches!(&app.popup, Some(Popup::ServerForm(f)) if f.name.value == "old" && f.url.value == "https://x"));
    app.handle_key(Key::End, false);
    type_text(&mut app, "2");
    let fx = app.handle_key(Key::Enter, false);
    assert!(matches!(fx.as_slice(), [Effect::SaveServerConfig]));
    assert!(!app.config.servers.contains_key("old"));
    let e = app.config.servers.get("old2").unwrap();
    assert_eq!(e.username, None);
    assert_eq!(app.config.default_server.as_deref(), Some("old2"));
}

#[test]
fn editing_a_server_keeps_its_credentials() {
    let mut config = AppConfig::new();
    config.add_server("s".to_string(), entry("https://x", Some("u@x"), Some("pw")));
    let mut app = App::new(config);
    app.handle_key(Key::Char('e'), false);
    app.handle_key(Key::Tab, false);
    app.handle_key(Key::Backspace, false);
    type_text(&mut app, "y");
    app.handle_key(Key::Enter, false);
    let e = app.config.servers.get("s").unwrap();
    assert_eq!(e.url, "https://y");
    assert_eq!(e.username.as_deref(), Some("u@x"));
    assert_eq!(e.password.as_deref(), Some("pw"));
}

#[test]
fn login_form_flow() {
    let mut app = app_with_session();
    let fx = app.handle_key(Key::Enter, false);
    assert!(matches!(fx.as_slice(), [Effect::SaveConfig]));
    assert!(matches!(&app.popup, Some(Popup::AuthForm(_))));
    let fx = app.handle_key(Key::Enter, false);
    assert!(fx.is_empty());
    assert!(matches!(&app.popup, Some(Popup::Error(m)) if m == "Username is required"));

    app.popup = None;
    app.handle_key(Key::Enter, false);
    type_text(&mut app, "me@lab");
    app.handle_key(Key::Enter, false);
    assert!(matches!(&app.popup, Some(Popup::AuthForm(f)) if f.active_field == quads_tui::app::AuthFormField::Password));
    type_text(&mut app, "secret");
    let fx = app.handle_key(Key::Enter, false);
    assert!(matches!(&app.popup, Some(Popup::Connecting(n)) if n == "lab"));
    assert!(app.pending_connect);
    assert!(matches!(fx.as_slice(), [Effect::Connect { server, username, password }]
        if server == "lab" && username == "me@lab" && password == "secret"));
}

#[test]
fn esc_while_connecting_stops_waiting() {
    let mut app = app_with_session();
    app.popup = Some(Popup::Connecting("lab".to_string()));
    app.pending_connect = true;
    app.on_key_press(Key::Char('q'), false);
    assert!(app.running);
    assert!(app.popup.is_some());
    app.on_key_press(Key::Esc, false);
    assert!(app.popup.is_none());
    assert!(!app.pending_connect);
}

#[test]
fn any_key_closes_the_login_success_popup() {
    let mut app = app_with_session();
    app.popup = Some(Popup::ConnectSuccess("lab".to_string(), 0));
    let fx = app.on_key_press(Key::Char('q'), false);
    assert!(fx.is_empty());
    assert!(app.popup.is_none());
    assert!(app.running);
}

#[test]
fn config_help_keys() {
    let mut app = App::new(AppConfig::new());
    app.handle_key(Key::Char('?'), false);
    assert!(matches!(app.popup, Some(Popup::ConfigHelp)));
    let fx = app.handle_key(Key::Char('l'), false);
    assert!(matches!(fx.as_slice(), [Effect::OpenLogFile]));
    assert!(app.popup.is_none());
    app.handle_key(Key::Char('?'), false);
    let fx = app.handle_key(Key::Char('z'), false);
    assert!(fx.is_empty());
    assert!(matches!(app.popup, Some(Popup::ConfigHelp)));
    app.handle_key(Key::Esc, false);
    assert!(app.popup.is_none());
}

#[test]
fn update_key_starts_the_self_update() {
    let mut app = App::new(AppConfig::new());
    app.update_available = Some(UpdateInfo {
        latest_version: "2.0.0".to_string(),
        download_url: "https://example.com/a".to_string(),
    });
    let fx = app.handle_key(Key::Char('U'), false);
    assert!(matches!(&app.popup, Some(Popup::Working(m)) if m == "Updating to v2.0.0..."));
    assert!(app.pending_action);
    assert!(matches!(fx.as_slice(), [Effect::SelfUpdate { download_url, version }]
        if download_url == "https://example.com/a" && version == "2.0.0"));
}

#[test]
fn confirm_terminate() {
    let mut app = app_with_session();
    app.popup = Some(Popup::ConfirmTerminate(5));
    let fx = app.handle_key(Key::Char('y'), false);
    assert!(fx.is_empty());
    assert!(matches!(app.popup, Some(Popup::ConfirmTerminate(5))));
    let fx = app.handle_key(Key::Enter, false);
    assert!(matches!(fx.as_slice(), [Effect::Terminate { assignment_id: 5 }]));
    assert!(matches!(&app.popup, Some(Popup::Working(m)) if m == "Terminating assignment..."));

    let mut lonely = App::new(AppConfig::new());
    lonely.popup = Some(Popup::ConfirmUnschedule { schedule_id: 9, host_name: "h".to_string() });
    let fx = lonely.handle_key(Key::Enter, false);
    assert!(fx.is_empty());
    assert!(matches!(lonely.popup, Some(Popup::ConfirmUnschedule { schedule_id: 9, .. })));
    lonely.handle_key(Key::Esc, false);
    assert!(lonely.popup.is_none());
}

#[test]
fn picker_and_new_assignment_form() {
    let mut app = app_with_session();
    app.popup = Some(Popup::AssignmentPicker(AssignmentPickerState {
        selected_hosts: vec!["h1".to_string(), "h2".to_string()],
        cursor: 0,
        items: vec![
            AssignmentPickerItem::Existing {
                cloud_name: "cloud02".to_string(),
                description: "mine".to_string(),
            },
            AssignmentPickerItem::NewAssignment,
        ],
    }));
    app.handle_key(Key::Down, false);
    app.handle_key(Key::Down, false);
    assert!(matches!(&app.popup, Some(Popup::AssignmentPicker(st)) if st.cursor == 1));
    let fx = app.handle_key(Key::Enter, false);
    assert!(fx.is_empty());
    assert!(matches!(&app.popup, Some(Popup::NewAssignmentForm(f)) if f.selected_hosts == vec!["h1".to_string(), "h2".to_string()] && f.wipe && !f.qinq));

    let fx = app.handle_key(Key::Enter, false);
    assert!(fx.is_empty());
    assert!(matches!(&app.popup, Some(Popup::Error(m)) if m == "Description is required"));

    app.popup = Some(Popup::NewAssignmentForm(quads_tui::app::NewAssignmentForm::new(vec!["h1".to_string()])));
    type_text(&mut app, "demo run");
    app.handle_key(Key::Tab, false);
    app.handle_key(Key::Char(' '), false);
    app.handle_key(Key::Tab, false);
    app.handle_key(Key::Char(' '), false);
    let fx = app.handle_key(Key::Enter, false);
    assert!(app.pending_schedule);
    assert!(matches!(&app.popup, Some(Popup::Scheduling(p)) if p.total == 1 && p.cloud_name == "creating..."));
    assert!(matches!(fx.as_slice(), [Effect::ScheduleNew { description, owner, qinq: 1, wipe: false, hosts }]
        if description == "demo run" && owner.is_empty() && hosts == &vec!["h1".to_string()]));
}

#[test]
fn picking_an_existing_assignment_schedules_into_its_cloud() {
    let mut app = app_with_session();
    app.popup = Some(Popup::AssignmentPicker(AssignmentPickerState {
        selected_hosts: vec!["h1".to_string()],
        cursor: 0,
        items: vec![
            AssignmentPickerItem::Existing {
                cloud_name: "cloud02".to_string(),
                description: "mine".to_string(),
            },
            AssignmentPickerItem::NewAssignment,
        ],
    }));
    let fx = app.handle_key(Key::Enter, false);
    assert!(matches!(fx.as_slice(), [Effect::ScheduleExisting { cloud_name, hosts }]
        if cloud_name == "cloud02" && hosts == &vec!["h1".to_string()]));
    assert!(matches!(&app.popup, Some(Popup::Scheduling(p)) if p.total == 1 && p.cloud_name == "cloud02"));
}

#[test]
fn default_server_opens_at_start() {
    let mut config = AppConfig::new();
    config.add_server("b".to_string(), entry("https://b", None, None));
    config.add_server("a".to_string(), entry("https://a", None, None));
    assert_eq!(config.default_server.as_deref(), Some("b"));
    let mut app = App::new(config);
    let fx = app.open_default_server();
    assert_eq!(app.server_selected, 1);
    assert!(matches!(fx.as_slice(), [Effect::Refresh { server }] if server == "b"));
    assert_eq!(app.sessions.active_session().unwrap().name, "b");
    assert!(app.refreshing && app.loading);

    let mut empty = App::new(AppConfig::new());
    assert!(empty.open_default_server().is_empty());
    assert!(empty.sessions.active_session().is_none());
}

#[test]
fn logout_keeps_cached_hosts() {
    let mut app = app_with_session();
    {
        let s = app.sessions.active_session_mut().unwrap();
        s.hosts.push(host("h1", "cloud01", "cloud01"));
        s.login_succeeded("me@lab", Some("3.0".to_string()));
    }
    assert!(app.sessions.active_session().unwrap().connected);
    let before = app.filtered_host_indices();
    app.handle_key(Key::Enter, false);
    let s = app.sessions.active_session().unwrap();
    assert!(!s.connected);
    assert_eq!(s.user_email, None);
    assert_eq!(s.hosts.len(), 1);
    assert_eq!(app.filtered_host_indices(), before);
    assert_eq!(app.status_message.as_deref(), Some("Disconnected from lab"));
}

#[test]
fn typing_then_erasing_a_search_ends_it() {
    let mut app = app_with_session();
    app.navigate(Screen::Hosts);
    app.handle_key(Key::Char('/'), false);
    assert!(app.hosts.search.active);
    app.handle_key(Key::Char('a'), false);
    assert_eq!(app.hosts.search.query.as_deref(), Some("a"));
    app.handle_key(Key::Char('b'), false);
    app.handle_key(Key::Backspace, false);
    assert_eq!(app.hosts.search.query.as_deref(), Some("a"));
    app.handle_key(Key::Backspace, false);
    assert_eq!(app.hosts.search.query, None);
}

#[test]
fn host_info_finds_host_by_name() {
    let mut app = app_with_session();
    {
        let s = app.sessions.active_session_mut().unwrap();
        s.hosts.push(host("h1", "cloud01", "cloud01"));
        s.hosts.push(host("h2", "cloud02", "cloud01"));
    }
    let by_name = HostInfoState::from_name("h2".to_string());
    assert_eq!(app.info_host_index(&by_name), Some(1));
    let missing = HostInfoState::from_name("zz".to_string());
    assert_eq!(app.info_host_index(&missing), None);
    let by_row = HostInfoState::new(0);
    assert_eq!(app.info_host_index(&by_row), Some(0));
    let past = HostInfoState::new(5);
    assert_eq!(app.info_host_index(&past), None);
}

#[test]
fn server_states_in_the_list() {
    let mut app = app_with_session();
    assert_eq!(app.server_state("lab"), ServerState::ReadOnly);
    assert_eq!(app.server_state("zzz"), ServerState::Unused);
    app.sessions.active_session_mut().unwrap().login_succeeded("me@lab", None);
    assert_eq!(app.server_state("lab"), ServerState::Connected);
}

#[test]
fn esc_on_the_dashboard_quits() {
    let mut app = App::new(AppConfig::new());
    let fx = app.handle_key(Key::Esc, false);
    assert!(fx.is_empty());
    assert!(!app.running);
    let mut other = App::new(AppConfig::new());
    other.navigate(Screen::Clouds);
    other.handle_key(Key::Esc, false);
    assert!(other.running);
    assert_eq!(other.screen, Screen::Dashboard);
}
