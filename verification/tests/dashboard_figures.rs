use quads_tui::app::Screen;
use quads_tui::config::{AppConfig, ServerEntry};
use quads_tui::hints::Hint;
use quads_tui::info_view::{
    disk_line, host_flags, interface_lines, memory_line, processor_line, section_counts,
    status_label,
};
use quads_tui::models::{
    Assignment, CloudRef, CloudSummary, Disk, Host, HostStatus, Interface, Memory, Processor,
    Schedule,
};
use quads_tui::session::Session;
use quads_tui::state::App;
use quads_tui::stats::{bar_widths, cloud_counts, host_counts};
use quads_tui::views::{assignment_hosts, detail_fields, schedule_row, summary_heading_text};

fn cloud(name: &str) -> Option<CloudRef> {
    Some(CloudRef { id: None, name: name.to_string(), last_redefined: None })
}

fn host(at: &str, home: &str, broken: bool, retired: bool, css: bool) -> Host {
    Host {
        id: None,
        name: "h".to_string(),
        model: None,
        host_type: None,
        cloud: cloud(at),
        default_cloud: cloud(home),
        broken: Some(broken),
        retired: Some(retired),
        build: None,
        validated: None,
        can_self_schedule: Some(css),
        rack: None,
        switch_config_applied: None,
        last_build: None,
        interfaces: Vec::new(),
        disks: Vec::new(),
        memory: Vec::new(),
        processors: Vec::new(),
    }
}

fn summary(owner: Option<&str>, count: Option<i64>, ss: Option<bool>) -> CloudSummary {
    CloudSummary {
        name: "c".to_string(),
        count,
        description: None,
        owner: owner.map(|s| s.to_string()),
        ticket: None,
        ccuser: None,
        provisioned: None,
        validated: None,
        is_self_schedule: ss,
    }
}

fn schedule(assignment: Option<i64>, end: Option<&str>) -> Schedule {
    Schedule {
        id: None,
        start: Some("2024-01-01".to_string()),
        end: end.map(|s| s.to_string()),
        build_start: None,
        build_end: None,
        host: Some(serde_json::from_str("{\"name\":\"host-a\"}").unwrap()),
        cloud: None,
        assignment_id: assignment,
    }
}

fn assignment() -> Assignment {
    Assignment {
        id: Some(12),
        active: Some(true),
        provisioned: None,
        validated: None,
        description: Some("perf tests".to_string()),
        owner: None,
        ticket: Some("T-1".to_string()),
        qinq: None,
        wipe: Some(false),
        ccuser: None,
        cloud: cloud("cloud04"),
        vlan: None,
        is_self_schedule: None,
        created_at: None,
    }
}

#[test]
fn host_classes_add_up() {
    let hosts = vec![
        host("c1", "c0", false, false, false),
        host("c1", "c0", false, false, true),
        host("c0", "c0", false, false, true),
        host("c0", "c0", false, false, false),
        host("c0", "c0", false, false, false),
        host("c0", "c0", true, true, false),
        host("c0", "c0", false, true, true),
    ];
    let c = host_counts(&hosts);
    assert_eq!(c.total, 7);
    assert_eq!(c.scheduled, 1);
    assert_eq!(c.self_scheduled, 1);
    assert_eq!(c.self_schedulable, 1);
    assert_eq!(c.unassigned, 2);
    assert_eq!(c.broken, 1);
    assert_eq!(c.retired, 1);
    assert_eq!(
        c.scheduled + c.self_scheduled + c.self_schedulable + c.unassigned + c.broken + c.retired,
        c.total
    );
    assert_eq!(c.active(), 5);
    assert_eq!(c.graph_total(), 6);
}

#[test]
fn cloud_classes_add_up() {
    let clouds = vec![
        summary(Some("alice"), Some(3), None),
        summary(Some("bob"), Some(1), Some(true)),
        summary(Some(""), Some(5), None),
        summary(Some("carol"), Some(0), None),
        summary(None, None, Some(true)),
    ];
    let c = cloud_counts(&clouds);
    assert_eq!(c.total, 5);
    assert_eq!(c.provisioned, 1);
    assert_eq!(c.self_scheduled, 1);
    assert_eq!(c.free, 3);
}

#[test]
fn bar_segments_fill_the_width() {
    assert_eq!(bar_widths(&vec![3, 0, 1], 4, 10), Some(vec![8, 0, 2]));
    assert_eq!(bar_widths(&vec![1, 1, 1], 3, 10), Some(vec![4, 4, 2]));
    assert_eq!(bar_widths(&vec![0, 5, 0], 5, 7), Some(vec![0, 7, 0]));
    assert_eq!(bar_widths(&vec![0, 0], 5, 7), Some(vec![0, 0]));
    assert_eq!(bar_widths(&vec![1], 0, 7), None);
    assert_eq!(bar_widths(&vec![1], 1, 0), None);
    let w = bar_widths(&vec![5, 9, 1, 2, 3], 20, 33).unwrap();
    assert_eq!(w.iter().sum::<usize>(), 33);
}

#[test]
fn assignment_detail_rows() {
    let rows = detail_fields(&assignment());
    let texts: Vec<(&str, &str)> = rows.iter().map(|(l, v)| (*l, v.as_str())).collect();
    assert_eq!(
        texts,
        vec![
            ("ID", "12"),
            ("Cloud", "cloud04"),
            ("Owner", "--"),
            ("Description", "perf tests"),
            ("Ticket", "T-1"),
            ("Active", "Yes"),
            ("Wipe", "No"),
        ]
    );
}

#[test]
fn assignment_hosts_and_latest_end() {
    let s = vec![
        schedule(Some(12), Some("2024-03-01")),
        schedule(Some(7), Some("2030-01-01")),
        schedule(Some(12), Some("2024-05-01")),
        schedule(Some(12), None),
    ];
    assert_eq!(assignment_hosts(&s, Some(12)), (3, Some("2024-05-01".to_string())));
    assert_eq!(assignment_hosts(&s, Some(99)), (0, None));
    let (host, span) = schedule_row(&s[3]);
    assert_eq!(host, "host-a");
    assert_eq!(span, "2024-01-01 -> --");
}

#[test]
fn summary_heading_counts() {
    let e = ServerEntry { url: "https://x".to_string(), username: None, password: None, verify_ssl: true };
    let mut s = Session::new("x", &e);
    s.assignments.push(assignment());
    assert_eq!(summary_heading_text(&s), "  My Assignments: --  (total active: 1)");
    s.user_email = Some("me@x".to_string());
    assert_eq!(summary_heading_text(&s), "  My Assignments: 0  (total active: 1)");
}

#[test]
fn host_info_lines() {
    let iface = Interface {
        id: None,
        name: Some("em1".to_string()),
        bios_id: None,
        mac_address: Some("aa:bb".to_string()),
        switch_ip: Some("10.0.0.1".to_string()),
        switch_port: None,
        speed: Some(25),
        vendor: Some("Intel".to_string()),
        pxe_boot: Some(true),
        maintenance: None,
    };
    let (a, b) = interface_lines(&iface);
    assert_eq!(a, "      em1 aa:bb");
    assert_eq!(b, "        sw:10.0.0.1:-- 25G  Intel pxe");
    let disk = Disk { disk_id: None, disk_type: Some("nvme".to_string()), size_gb: Some(960), count: Some(2) };
    assert_eq!(disk_line(&disk), "      nvme 960GB x2");
    let mem = Memory { id: None, size_gb: None, handle: Some("DIMM1".to_string()) };
    assert_eq!(memory_line(&mem), "      DIMM1 --");
    let cpu = Processor {
        id: None,
        handle: None,
        vendor: Some("AMD".to_string()),
        product: None,
        cores: Some(64),
        threads: Some(128),
    };
    assert_eq!(processor_line(&cpu), "      AMD -- 64c/128t");
}

#[test]
fn host_status_flags_and_sections() {
    let mut h = host("c1", "c0", false, false, true);
    h.build = Some(true);
    h.switch_config_applied = Some(true);
    assert_eq!(host_flags(&h), vec!["build", "self-schedule", "switch-config"]);
    assert_eq!(h.status(), HostStatus::Scheduled);
    assert_eq!(status_label(h.status()), "Scheduled");
    assert_eq!(status_label(HostStatus::Broken), "Broken");
    h.disks.push(Disk { disk_id: None, disk_type: None, size_gb: None, count: None });
    assert_eq!(section_counts(&h), [0, 1, 0, 0]);
}

fn hint_texts(v: &[Hint]) -> Vec<(&str, &str, bool)> {
    v.iter().map(|h| (h.key, h.desc, h.joined)).collect()
}

#[test]
fn help_hints_per_screen() {
    let mut app = App::new(AppConfig::new());
    assert_eq!(
        hint_texts(&app.help_hints()),
        vec![("Enter", "select", false), ("n", "new server", false), ("e", "edit", false)]
    );
    app.navigate(Screen::Assignments);
    assert_eq!(
        hint_texts(&app.help_hints()),
        vec![
            ("Enter", "hosts", false),
            ("t", "erminate", true),
            ("Tab", "all/mine", false),
            ("/", "search", false)
        ]
    );
    app.navigate(Screen::Hosts);
    app.hosts.search.query = Some("x".to_string());
    assert_eq!(
        hint_texts(&app.help_hints()),
        vec![
            ("Enter", "info", false),
            ("Esc", "clear search", false),
            ("f", "filter", false),
            ("Tab", "change view", false),
            ("/", "search", false)
        ]
    );
    assert_eq!(app.auto_refresh_label(), "auto-refresh");
    app.auto_refresh = true;
    assert_eq!(app.auto_refresh_label(), "auto-refresh [on]");
}
