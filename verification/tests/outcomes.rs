use quads_tui::app::{AuthForm, Screen};
use quads_tui::config::{AppConfig, ServerEntry};
use quads_tui::flows::{login_failure, register_failure};
use quads_tui::models::{Assignment, CloudRef, CloudSummary, Schedule};
use quads_tui::outcomes::{count_text, join_lines};
use quads_tui::session::Session;
use quads_tui::state::{ActionResult, App, ConnectResult, Effect, Key, Popup, RefreshUpdate, ScheduleResult};
use quads_tui::update::UpdateInfo;

fn entry(user: Option<&str>, pass: Option<&str>) -> ServerEntry {
    ServerEntry {
        url: "https://lab".to_string(),
        username: user.map(|s| s.to_string()),
        password: pass.map(|s| s.to_string()),
        verify_ssl: true,
    }
}

fn app_with_session() -> App {
    let mut config = AppConfig::new();
    config.add_server("lab".to_string(), entry(None, None));
    let mut app = App::new(config);
    app.sessions.add_session(Session::new("lab", &entry(None, None)));
    app
}

fn owned(owner: &str, id: i64) -> Assignment {
    Assignment {
        id: Some(id),
        active: Some(true),
        provisioned: None,
        validated: None,
        description: None,
        owner: Some(owner.to_string()),
        ticket: None,
        qinq: None,
        wipe: None,
        ccuser: None,
        cloud: Some(CloudRef { id: None, name: format!("cloud{:02}", id), last_redefined: None }),
        vlan: None,
        is_self_schedule: None,
        created_at: None,
    }
}

#[test]
fn login_failure_messages() {
    let e = login_failure("bad creds");
    assert_eq!(e.message, "Login failed: bad creds");
    assert!(e.is_credential_error);
    let n = login_failure("error sending request for url");
    assert_eq!(n.message, "Login failed: error sending request for url\n\nServer unreachable, check connectivity.");
    assert!(!n.is_credential_error);
}

#[test]
fn register_failure_messages() {
    let e = register_failure("registration failed: User Already Exists");
    assert_eq!(
        e.message,
        "Registration failed: registration failed: User Already Exists\nContact your QUADS admin to reset your password."
    );
    assert!(!e.is_credential_error);
    assert_eq!(register_failure("nope").message, "Registration failed: nope");
    assert_eq!(
        register_failure("Error Sending Request").message,
        "Registration failed: Error Sending Request\n\nServer unreachable, check connectivity."
    );
}

#[test]
fn failed_login_offers_registration() {
    let mut app = app_with_session();
    app.pending_connect = true;
    let fx = app.handle_connect_result(ConnectResult {
        server_name: "lab".to_string(),
        username: "me@lab".to_string(),
        password: "pw".to_string(),
        result: Err(login_failure("bad creds")),
    });
    assert!(fx.is_empty());
    assert!(!app.pending_connect);
    assert!(matches!(&app.popup, Some(Popup::AuthForm(f))
        if f.register_prompt && f.username.value == "me@lab" && f.password.value == "pw"
            && f.error.as_deref() == Some("Login failed: bad creds")));
}

#[test]
fn successful_login_saves_credentials_and_fetches() {
    let mut app = app_with_session();
    app.pending_connect = true;
    let mut login = Session::new("lab", &entry(None, None));
    login.login_succeeded("me@lab", Some("3.1".to_string()));
    let fx = app.handle_connect_result(ConnectResult {
        server_name: "lab".to_string(),
        username: "me@lab".to_string(),
        password: "pw".to_string(),
        result: Ok(login),
    });
    assert!(matches!(fx.as_slice(), [Effect::SaveConfig, Effect::Refresh { server }] if server == "lab"));
    assert!(matches!(&app.popup, Some(Popup::ConnectSuccess(n, 0)) if n == "lab"));
    assert_eq!(app.status_message.as_deref(), Some("Connected to lab"));
    let e = app.config.servers.get("lab").unwrap();
    assert_eq!(e.username.as_deref(), Some("me@lab"));
    assert_eq!(e.password.as_deref(), Some("pw"));
    let s = app.sessions.active_session().unwrap();
    assert!(s.connected);
    assert_eq!(s.version.as_deref(), Some("3.1"));
}

#[test]
fn success_popup_closes_after_four_ticks() {
    let mut app = app_with_session();
    app.popup = Some(Popup::ConnectSuccess("lab".to_string(), 0));
    for _ in 0..3 {
        app.on_tick();
    }
    assert!(app.popup.is_some());
    app.on_tick();
    assert_eq!(app.tick, 4);
    assert!(app.popup.is_none());
}

#[test]
fn refresh_pieces_land_in_their_session() {
    let mut app = app_with_session();
    app.refreshing = true;
    app.loading = true;
    {
        let s = app.sessions.active_session_mut().unwrap();
        s.user_email = Some("alice@lab".to_string());
    }
    app.apply_refresh(RefreshUpdate::Assignments("lab".to_string(), vec![owned("alice", 1), owned("bob", 2)]), "~/log");
    let s = app.sessions.active_session().unwrap();
    assert_eq!(s.assignments.len(), 2);
    assert_eq!(s.my_assignments.len(), 1);
    assert_eq!(s.my_assignments[0].id, Some(1));
    app.apply_refresh(
        RefreshUpdate::CloudSummaries(
            "lab".to_string(),
            vec![CloudSummary {
                name: "cloud01".to_string(),
                count: Some(1),
                description: None,
                owner: None,
                ticket: None,
                ccuser: None,
                provisioned: None,
                validated: None,
                is_self_schedule: None,
            }],
        ),
        "~/log",
    );
    assert_eq!(app.sessions.active_session().unwrap().cloud_summaries.len(), 1);
    app.apply_refresh(RefreshUpdate::Schedules("other".to_string(), Vec::<Schedule>::new()), "~/log");
    app.apply_refresh(RefreshUpdate::Done, "~/log");
    assert!(!app.refreshing && !app.loading);
}

#[test]
fn refresh_errors_point_at_the_log() {
    let mut app = app_with_session();
    app.apply_refresh(RefreshUpdate::Error("timeout".to_string()), "~/q.log");
    assert!(matches!(&app.popup, Some(Popup::Error(m)) if m == "Data refresh failed: timeout\nSee ~/q.log for details."));
    app.apply_refresh(RefreshUpdate::Error("second".to_string()), "~/q.log");
    assert!(matches!(&app.popup, Some(Popup::Error(m)) if m.contains("timeout")));
    app.popup = None;
    app.apply_refresh(RefreshUpdate::Error("error sending request".to_string()), "L");
    assert!(matches!(&app.popup, Some(Popup::Error(m))
        if m == "Data refresh failed: error sending request\n\nServer unreachable, check connectivity.\nSee L for details."));
}

#[test]
fn schedule_results_are_reported() {
    let mut ok = ScheduleResult::new();
    ok.record("h1", Ok(5));
    ok.record("h2", Ok(6));
    let mut app = app_with_session();
    app.pending_schedule = true;
    app.hosts.multi_select = vec!["h1".to_string()];
    let fx = app.handle_schedule_result(ok);
    assert!(app.hosts.multi_select.is_empty());
    assert_eq!(app.status_message.as_deref(), Some("Scheduled 2 host(s) successfully"));
    assert!(app.popup.is_none());
    assert!(matches!(fx.as_slice(), [Effect::Refresh { server }] if server == "lab"));

    let mut mixed = ScheduleResult::new();
    mixed.record("h1", Ok(5));
    mixed.record("h2", Err("busy".to_string()));
    mixed.record("h3", Err("gone".to_string()));
    assert_eq!(mixed.fail_count, 2);
    let fx = app.handle_schedule_result(mixed);
    assert!(matches!(&app.popup, Some(Popup::Error(m)) if m == "Scheduled 1/3 hosts.\nErrors:\nh2: busy\nh3: gone"));
    assert_eq!(fx.len(), 1);

    let failed = ScheduleResult::creation_failed(4, "denied");
    assert_eq!(failed.fail_count, 4);
    assert_eq!(failed.errors, vec!["Assignment creation failed: denied".to_string()]);
}

#[test]
fn action_results_are_reported() {
    let mut app = app_with_session();
    app.pending_action = true;
    app.assignments.detail_selected = Some(0);
    let fx = app.handle_action_result(ActionResult::unscheduled(Ok("removed".to_string())));
    assert_eq!(app.status_message.as_deref(), Some("removed"));
    assert_eq!(app.assignments.detail_selected, None);
    assert_eq!(fx.len(), 1);
    assert!(!app.pending_action);

    let fx = app.handle_action_result(ActionResult::terminated(Err("locked".to_string())));
    assert!(fx.is_empty());
    assert!(matches!(&app.popup, Some(Popup::Error(m)) if m == "Termination failed: locked"));

    let done = ActionResult::updated(Ok(()), "2.0.0");
    assert!(done.exit_after);
    assert_eq!(done.message, "Updated to v2.0.0 \u{2014} restart to apply");
    let fx = app.handle_action_result(done);
    assert!(fx.is_empty());
    assert!(matches!(&app.popup, Some(Popup::UpdateComplete(_))));
    app.handle_key(Key::Char('x'), false);
    assert!(!app.running);

    let bad = ActionResult::updated(Err("offline".to_string()), "2.0.0");
    assert!(!bad.success && !bad.exit_after);
    assert_eq!(bad.message, "Update failed: offline");
}

#[test]
fn joining_and_counting() {
    assert_eq!(join_lines(&vec!["a".to_string(), "b".to_string()]), "a\nb");
    assert_eq!(join_lines(&Vec::new()), "");
    assert_eq!(count_text(42), "42");
}

#[test]
fn terminate_key_asks_for_confirmation() {
    let mut app = app_with_session();
    {
        let s = app.sessions.active_session_mut().unwrap();
        s.assignments.push(owned("alice", 9));
    }
    app.assignments.show_all = true;
    app.navigate(quads_tui::app::Screen::Assignments);
    let fx = app.handle_key(Key::Char('t'), false);
    assert!(fx.is_empty());
    assert!(matches!(app.popup, Some(Popup::ConfirmTerminate(9))));
}

#[test]
fn auto_refresh_only_on_a_quiet_dashboard() {
    let mut app = app_with_session();
    assert!(!app.should_auto_refresh());
    app.auto_refresh = true;
    assert!(app.should_auto_refresh());
    app.set_focus(false);
    assert!(!app.should_auto_refresh());
    app.set_focus(true);
    app.refreshing = true;
    assert!(!app.should_auto_refresh());
}

fn offer_update(app: &mut App) {
    app.update_available = Some(UpdateInfo {
        latest_version: "9.9.9".to_string(),
        download_url: "https://example.com/q".to_string(),
    });
}

fn press(app: &mut App, keys: &str) {
    for c in keys.chars() {
        let fx = app.handle_key(Key::Char(c), false);
        assert!(fx.is_empty());
    }
}

#[test]
fn terminate_takes_the_row_shown_under_the_cursor() {
    let mut app = app_with_session();
    {
        let s = app.sessions.active_session_mut().unwrap();
        s.my_assignments.push(owned("me", 1));
        s.my_assignments.push(owned("me", 2));
    }
    app.navigate(Screen::Assignments);
    press(&mut app, "/cloud02");
    app.handle_key(Key::Enter, false);
    assert!(!app.assignments.search.active);
    assert_eq!(app.assignments.search.selected, 0);
    assert_eq!(app.terminate_target(), Some(2));
    let fx = app.handle_key(Key::Char('t'), false);
    assert!(fx.is_empty());
    assert!(matches!(app.popup, Some(Popup::ConfirmTerminate(2))));
}

#[test]
fn typing_u_into_a_search_does_not_start_the_update() {
    let mut app = app_with_session();
    offer_update(&mut app);
    app.navigate(Screen::Hosts);
    press(&mut app, "/u");
    assert!(app.hosts.search.active);
    assert_eq!(app.hosts.search.query.as_deref(), Some("u"));
    assert!(app.popup.is_none());
    assert!(!app.pending_action);
}

#[test]
fn u_unschedules_in_the_hosts_of_an_assignment() {
    let mut app = app_with_session();
    offer_update(&mut app);
    {
        let s = app.sessions.active_session_mut().unwrap();
        s.my_assignments.push(owned("me", 1));
        s.schedules.push(Schedule {
            id: Some(9),
            start: None,
            end: None,
            build_start: None,
            build_end: None,
            host: None,
            cloud: None,
            assignment_id: Some(1),
        });
    }
    app.navigate(Screen::Assignments);
    app.handle_key(Key::Enter, false);
    assert_eq!(app.assignments.detail_selected, Some(0));
    let fx = app.handle_key(Key::Char('u'), false);
    assert!(fx.is_empty());
    assert!(matches!(app.popup, Some(Popup::ConfirmUnschedule { schedule_id: 9, .. })));
    assert!(!app.pending_action);
}

#[test]
fn u_on_the_assignment_list_starts_the_update() {
    let mut app = app_with_session();
    offer_update(&mut app);
    app.navigate(Screen::Assignments);
    let fx = app.handle_key(Key::Char('u'), false);
    assert!(matches!(fx.as_slice(), [Effect::SelfUpdate { version, .. }] if version == "9.9.9"));
    assert!(matches!(&app.popup, Some(Popup::Working(m)) if m == "Updating to v9.9.9..."));
}

#[test]
fn login_forms_put_the_cursors_at_the_end() {
    let f = AuthForm::with_credentials("lab".to_string(), "me@lab".to_string(), "pé".to_string());
    assert_eq!(f.username.cursor, 6);
    assert_eq!(f.password.cursor, 3);
    let mut app = app_with_session();
    app.handle_connect_result(ConnectResult {
        server_name: "lab".to_string(),
        username: "me@lab".to_string(),
        password: "pw".to_string(),
        result: Err(login_failure("bad creds")),
    });
    assert!(matches!(&app.popup, Some(Popup::AuthForm(f)) if f.username.cursor == 6 && f.password.cursor == 2));
    app.handle_connect_result(ConnectResult {
        server_name: "lab".to_string(),
        username: "me@lab".to_string(),
        password: "pw".to_string(),
        result: Err(login_failure("error sending request")),
    });
    assert!(matches!(&app.popup, Some(Popup::AuthForm(f))
        if !f.register_prompt && f.username.cursor == 6 && f.password.cursor == 0 && f.password.value.is_empty()));
}
