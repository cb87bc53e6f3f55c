use quads_tui::config::{AppConfig, ServerEntry, UpdateFrequency};
use quads_tui::config_file::{config_file_edits, FileEdit, FileServer};
use quads_tui::search::fuzzy_match;
use quads_tui::session::user_part;
use quads_tui::text_input::TextInput;
use quads_tui::text_util::{decimal, digits_string, take_chars, text_eq, trim_text};

fn entry(url: &str) -> ServerEntry {
    ServerEntry { url: url.to_string(), username: None, password: None, verify_ssl: true }
}

#[test]
fn typing_then_backspace_restores_input() {
    let mut t = TextInput::from(String::from("abc"));
    t.move_left();
    t.insert('x');
    assert_eq!(t.value, "abxc");
    assert_eq!(t.cursor, 3);
    t.backspace();
    assert_eq!(t.value, "abc");
    assert_eq!(t.cursor, 2);
}

#[test]
fn cursor_moves_over_whole_characters() {
    let mut t = TextInput::new();
    t.insert('é');
    t.insert('a');
    assert_eq!(t.cursor, 3);
    t.move_left();
    assert_eq!(t.cursor, 2);
    t.move_left();
    assert_eq!(t.cursor, 0);
    t.move_left();
    assert_eq!(t.cursor, 0);
    t.delete();
    assert_eq!(t.value, "a");
    assert_eq!(t.cursor, 0);
    t.move_end();
    assert_eq!(t.cursor, 1);
    t.move_right();
    assert_eq!(t.cursor, 1);
    t.move_home();
    assert_eq!(t.cursor, 0);
    t.backspace();
    assert_eq!(t.value, "a");
}

#[test]
fn word_moves_skip_gaps_then_words() {
    let mut t = TextInput::from("foo bar baz".to_string());
    t.move_word_left();
    assert_eq!(t.cursor, 8);
    t.move_word_left();
    assert_eq!(t.cursor, 4);
    t.move_word_right();
    assert_eq!(t.cursor, 8);
    t.move_word_right();
    assert_eq!(t.cursor, 11);
}

#[test]
fn pieces_around_the_cursor() {
    let mut t = TextInput::from("héllo".to_string());
    t.move_home();
    t.move_right();
    assert_eq!(t.cursor, 1);
    assert_eq!(t.before_cursor(), "h");
    assert_eq!(t.char_at_cursor(), "é");
    assert_eq!(t.after_cursor_char(), "llo");
    t.move_end();
    assert_eq!(t.char_at_cursor(), " ");
    assert_eq!(t.after_cursor_char(), "");
    assert!(!t.is_empty());
    assert!(TextInput::new().is_empty());
}

#[test]
fn fuzzy_match_examples() {
    assert!(fuzzy_match("Hello World", "hw"));
    assert!(fuzzy_match("server-01.example", "S01"));
    assert!(!fuzzy_match("abc", "cab"));
    assert!(fuzzy_match("abc", ""));
    assert!(!fuzzy_match("", "a"));
    assert!(fuzzy_match("cloud07", "cloud07"));
    assert!(fuzzy_match("cloud07-more", "cloud07"));
}

#[test]
fn number_texts() {
    assert_eq!(digits_string(0), "0");
    assert_eq!(digits_string(1234), "1234");
    assert_eq!(decimal(-42), "-42");
    assert_eq!(decimal(7), "7");
    assert_eq!(decimal(i64::MIN), "-9223372036854775808");
}

#[test]
fn text_helpers() {
    assert_eq!(trim_text("  \"1.2\"  ", None), "\"1.2\"");
    assert_eq!(trim_text("\"1.2\"", Some('"')), "1.2");
    assert_eq!(take_chars("héllo", 2), "hé");
    assert_eq!(take_chars("hi", 5), "hi");
    assert!(text_eq("a", "a"));
    assert!(!text_eq("a", "A"));
    assert_eq!(user_part("alice@example.com"), "alice");
    assert_eq!(user_part("bob"), "bob");
}

#[test]
fn first_server_added_becomes_default() {
    let mut c = AppConfig::new();
    c.add_server("beta".to_string(), entry("https://b.example.com"));
    assert_eq!(c.default_server.as_deref(), Some("beta"));
    c.add_server("alpha".to_string(), entry("https://a.example.com"));
    assert_eq!(c.default_server.as_deref(), Some("beta"));
    assert_eq!(c.servers.names(), vec!["alpha".to_string(), "beta".to_string()]);
    assert_eq!(c.servers.len(), 2);
    assert!(c.servers.contains_key("alpha"));
    assert_eq!(c.servers.get("alpha").map(|e| e.url.clone()), Some("https://a.example.com".to_string()));
}

#[test]
fn removing_default_server_picks_first_remaining() {
    let mut c = AppConfig::new();
    c.add_server("zeta".to_string(), entry("https://z"));
    c.add_server("gamma".to_string(), entry("https://g"));
    c.add_server("delta".to_string(), entry("https://d"));
    assert_eq!(c.default_server.as_deref(), Some("zeta"));
    c.remove_server("zeta");
    assert_eq!(c.default_server.as_deref(), Some("delta"));
    c.remove_server("gamma");
    assert_eq!(c.default_server.as_deref(), Some("delta"));
    c.remove_server("delta");
    assert_eq!(c.default_server, None);
    assert!(c.servers.is_empty());
}

#[test]
fn adding_an_existing_name_replaces_its_entry() {
    let mut c = AppConfig::new();
    c.add_server("s".to_string(), entry("https://old"));
    c.add_server("s".to_string(), entry("https://new"));
    assert_eq!(c.servers.len(), 1);
    assert_eq!(c.servers.get("s").unwrap().url, "https://new");
}

#[test]
fn update_check_schedule() {
    let mut c = AppConfig::new();
    assert_eq!(c.update_check, UpdateFrequency::Weekly);
    assert!(c.should_check_update_at(10));
    c.mark_update_checked_at(1000);
    assert_eq!(c.last_update_check, Some(1000));
    assert!(!c.should_check_update_at(1000 + 604799));
    assert!(c.should_check_update_at(1000 + 604800));
    assert!(!c.should_check_update_at(5));
    c.update_check = UpdateFrequency::Never;
    assert!(!c.should_check_update_at(u64::MAX));
    c.update_check = UpdateFrequency::OnLaunch;
    assert!(c.should_check_update_at(0));
    c.update_check = UpdateFrequency::Daily;
    assert!(c.should_check_update_at(1000 + 86400));
    assert!(!c.should_check_update_at(1000 + 86399));
}

#[test]
fn update_frequency_names_and_intervals() {
    assert_eq!(UpdateFrequency::OnLaunch.config_name(), "on-launch");
    assert_eq!(UpdateFrequency::Monthly.config_name(), "monthly");
    assert_eq!(UpdateFrequency::Daily.interval_secs(), Some(86400));
    assert_eq!(UpdateFrequency::Monthly.interval_secs(), Some(2592000));
    assert_eq!(UpdateFrequency::Never.interval_secs(), None);
    assert_eq!(UpdateFrequency::OnLaunch.interval_secs(), Some(0));
}

fn debug_of(v: &[quads_tui::config_file::FileEdit]) -> String {
    format!("{:?}", v)
}

#[test]
fn writing_keeps_known_servers_and_drops_removed_ones() {
    let mut c = AppConfig::new();
    c.add_server(
        "b".to_string(),
        ServerEntry { url: "https://b".to_string(), username: Some("me".to_string()), password: None, verify_ssl: true },
    );
    c.mark_update_checked_at(7);
    c.update_check = UpdateFrequency::Daily;
    let file = vec![
        FileServer { name: "a".to_string(), is_table: true },
        FileServer { name: "b".to_string(), is_table: true },
    ];
    let edits = config_file_edits(&c, Some(file));
    let expected = vec![
        FileEdit::SetText("default_server", "b".to_string()),
        FileEdit::SetText("update_check", "daily".to_string()),
        FileEdit::SetInteger("last_update_check", 7),
        FileEdit::OpenServers,
        FileEdit::RemoveServer("a".to_string()),
        FileEdit::SetServerText("b".to_string(), "url", "https://b".to_string()),
        FileEdit::SetServerText("b".to_string(), "username", "me".to_string()),
        FileEdit::RemoveServerField("b".to_string(), "password"),
        FileEdit::SetServerFlag("b".to_string(), "verify_ssl", true),
    ];
    assert_eq!(debug_of(&edits), debug_of(&expected));
}

#[test]
fn writing_an_empty_configuration() {
    let c = AppConfig::new();
    let edits = config_file_edits(&c, Some(Vec::new()));
    let expected = vec![
        FileEdit::Remove("default_server"),
        FileEdit::Remove("update_check"),
        FileEdit::Remove("last_update_check"),
        FileEdit::Remove("servers"),
    ];
    assert_eq!(debug_of(&edits), debug_of(&expected));
}

#[test]
fn new_servers_get_the_certificate_setting_and_odd_entries_stay() {
    let mut c = AppConfig::new();
    c.add_server("n".to_string(), entry("https://n"));
    c.add_server("odd".to_string(), entry("https://o"));
    let file = vec![FileServer { name: "odd".to_string(), is_table: false }];
    let edits = config_file_edits(&c, Some(file));
    let expected = vec![
        FileEdit::SetText("default_server", "n".to_string()),
        FileEdit::Remove("update_check"),
        FileEdit::Remove("last_update_check"),
        FileEdit::OpenServers,
        FileEdit::SetServerText("n".to_string(), "url", "https://n".to_string()),
        FileEdit::RemoveServerField("n".to_string(), "username"),
        FileEdit::RemoveServerField("n".to_string(), "password"),
        FileEdit::SetServerFlag("n".to_string(), "verify_ssl", true),
    ];
    assert_eq!(debug_of(&edits), debug_of(&expected));
    let untouched = config_file_edits(&c, None);
    assert_eq!(untouched.len(), 4);
}

#[test]
fn saving_writes_every_setting_of_a_known_server() {
    let mut c = AppConfig::new();
    c.add_server(
        "lab".to_string(),
        ServerEntry { url: "https://lab".to_string(), username: None, password: None, verify_ssl: false },
    );
    let file = vec![FileServer { name: "lab".to_string(), is_table: true }];
    let edits = config_file_edits(&c, Some(file));
    let expected = vec![
        FileEdit::SetText("default_server", "lab".to_string()),
        FileEdit::Remove("update_check"),
        FileEdit::Remove("last_update_check"),
        FileEdit::OpenServers,
        FileEdit::SetServerText("lab".to_string(), "url", "https://lab".to_string()),
        FileEdit::RemoveServerField("lab".to_string(), "username"),
        FileEdit::RemoveServerField("lab".to_string(), "password"),
        FileEdit::SetServerFlag("lab".to_string(), "verify_ssl", false),
    ];
    assert_eq!(debug_of(&edits), debug_of(&expected));
}

#[test]
fn going_back_to_weekly_checks_removes_the_setting() {
    let mut c = AppConfig::new();
    c.update_check = UpdateFrequency::Daily;
    let daily = config_file_edits(&c, None);
    assert_eq!(debug_of(&daily[1..2]), debug_of(&[FileEdit::SetText("update_check", "daily".to_string())]));
    c.update_check = UpdateFrequency::Weekly;
    let weekly = config_file_edits(&c, None);
    assert_eq!(debug_of(&weekly[1..2]), debug_of(&[FileEdit::Remove("update_check")]));
}

#[test]
fn fuzzy_match_ignores_ascii_case() {
    assert!(fuzzy_match("QUADS-Host01", "qh01"));
    assert!(fuzzy_match("quads-host01", "QH01"));
    assert!(!fuzzy_match("abc", "ca"));
}

#[test]
fn password_is_drawn_as_stars() {
    let mut t = TextInput::from(String::from("pé1"));
    assert_eq!(t.masked(), "***");
    assert_eq!(t.masked_parts(), ("***".to_string(), " ".to_string(), String::new()));
    t.move_left();
    t.move_left();
    assert_eq!(t.masked_parts(), ("*".to_string(), "*".to_string(), "*".to_string()));
    t.move_home();
    assert_eq!(t.masked_parts(), (String::new(), "*".to_string(), "**".to_string()));
    assert_eq!(TextInput::new().masked(), "");
}

fn saved_table(c: &AppConfig, existing: &str) -> (String, toml::Table) {
    let text = quads_tui::config_doc::config_file_text(c, existing);
    let table: toml::Table = toml::from_str(&text).expect("saved text is TOML");
    (text, table)
}

fn lab_config() -> AppConfig {
    let mut c = AppConfig::new();
    c.add_server(
        "lab".to_string(),
        ServerEntry { url: "https://lab".to_string(), username: Some("me".to_string()), password: None, verify_ssl: false },
    );
    c.update_check = UpdateFrequency::Daily;
    c.mark_update_checked_at(42);
    c
}

#[test]
fn saving_keeps_comments_and_unknown_keys_and_writes_every_setting() {
    let existing = "# my settings\ntheme = \"dark\"\n\n[servers.old]\nurl = \"https://old\"\n\n[servers.lab]\nurl = \"https://x\"\npassword = \"pw\"\nverify_ssl = true\n";
    let (text, t) = saved_table(&lab_config(), existing);
    assert!(text.contains("# my settings"));
    assert_eq!(t["theme"].as_str(), Some("dark"));
    assert_eq!(t["default_server"].as_str(), Some("lab"));
    assert_eq!(t["update_check"].as_str(), Some("daily"));
    assert_eq!(t["last_update_check"].as_integer(), Some(42));
    let servers = t["servers"].as_table().unwrap();
    assert!(servers.get("old").is_none());
    let lab = servers["lab"].as_table().unwrap();
    assert_eq!(lab["url"].as_str(), Some("https://lab"));
    assert_eq!(lab["username"].as_str(), Some("me"));
    assert!(lab.get("password").is_none());
    assert_eq!(lab["verify_ssl"].as_bool(), Some(false));
}

#[test]
fn saving_over_no_file_or_a_broken_one_starts_afresh() {
    for existing in ["", "this is = = not toml"] {
        let (text, t) = saved_table(&lab_config(), existing);
        assert!(!text.contains("not toml"));
        assert_eq!(t["servers"]["lab"]["url"].as_str(), Some("https://lab"));
        assert_eq!(t.len(), 4);
    }
}

#[test]
fn saving_an_empty_configuration_drops_the_servers() {
    let existing = "default_server = \"lab\"\nupdate_check = \"daily\"\n[servers.lab]\nurl = \"https://lab\"\n";
    let (_, t) = saved_table(&AppConfig::new(), existing);
    assert!(t.is_empty());
}
