use quads_tui::api::{
    delete_schedule_reply, extract_message, register_reply, schedule_reply, self_assignment_reply,
    terminate_reply, version_from_body, ApiClient, Endpoint, HttpReply,
};
use quads_tui::update::{asset_name, offer, strip_tag, tag_of_release, update_for_release};
use serde_json::Value;

fn reply(status: u16, status_text: &str, body: &str) -> HttpReply {
    HttpReply { status, status_text: status_text.to_string(), body: body.to_string() }
}

fn json(text: &str) -> Value {
    serde_json::from_str(text).unwrap()
}

#[test]
fn client_drops_trailing_slashes_and_builds_urls() {
    let c = ApiClient::new("https://q.example.com//", true);
    assert_eq!(c.base_url, "https://q.example.com");
    assert!(c.verify_ssl);
    assert_eq!(c.token, None);
    assert_eq!(c.url_of(Endpoint::Hosts), "https://q.example.com/api/v3/hosts/");
    assert_eq!(c.url_of(Endpoint::CloudSummary), "https://q.example.com/api/v3/clouds/summary/");
    assert_eq!(
        c.url_of(Endpoint::TerminateAssignment(7)),
        "https://q.example.com/api/v3/assignments/terminate/7/"
    );
    assert_eq!(c.url_of(Endpoint::DeleteSchedule(-1)), "https://q.example.com/api/v3/schedules/-1/");
    assert_eq!(c.api_url("/x/"), "https://q.example.com/api/v3/x/");
    assert_eq!(c.auth_header(), None);
}

#[test]
fn login_keeps_the_token() {
    let mut c = ApiClient::new("https://q", false);
    let r = c.login_reply(&reply(200, "200 OK", "{\"auth_token\":\"abc\"}"));
    assert_eq!(r, Ok("abc".to_string()));
    assert_eq!(c.token.as_deref(), Some("abc"));
    assert_eq!(c.auth_header(), Some("Bearer abc".to_string()));
    let r2 = c.login_reply(&reply(200, "200 OK", "{\"token\":\"t2\"}"));
    assert_eq!(r2, Ok("t2".to_string()));
    c.clear_token();
    assert_eq!(c.auth_header(), None);
}

#[test]
fn login_errors() {
    let mut c = ApiClient::new("https://q", true);
    assert_eq!(
        c.login_reply(&reply(401, "401 Unauthorized", "{\"message\":\"bad creds\"}")),
        Err("bad creds".to_string())
    );
    assert_eq!(c.login_reply(&reply(500, "500 Internal Server Error", "{}")), Err("unknown error".to_string()));
    assert_eq!(
        c.login_reply(&reply(502, "502 Bad Gateway", "<html>")),
        Err("server returned non-JSON response (502 Bad Gateway):\n<html>".to_string())
    );
    assert_eq!(c.token, None);
}

#[test]
fn register_replies() {
    assert_eq!(register_reply(&reply(201, "201 Created", "{\"ok\":true}")), Ok(()));
    assert_eq!(
        register_reply(&reply(409, "409 Conflict", "{\"error\":\"exists\"}")),
        Err("registration failed: exists".to_string())
    );
    assert_eq!(
        register_reply(&reply(400, "400 Bad Request", "{}")),
        Err("registration failed: unknown error".to_string())
    );
    assert_eq!(
        register_reply(&reply(500, "500 Internal Server Error", "oops")),
        Err("server returned non-JSON response (500 Internal Server Error):\noops".to_string())
    );
}

#[test]
fn action_replies() {
    assert_eq!(terminate_reply(&reply(200, "200 OK", "{\"message\":\"done\"}")), Ok("done".to_string()));
    assert_eq!(terminate_reply(&reply(200, "200 OK", "not json")), Ok("assignment terminated".to_string()));
    assert_eq!(terminate_reply(&reply(404, "404 Not Found", "{\"detail\":\"missing\"}")), Err("missing".to_string()));
    assert_eq!(terminate_reply(&reply(500, "500", "oops")), Err("termination failed".to_string()));
    assert_eq!(delete_schedule_reply(&reply(204, "204 No Content", "")), Ok("schedule deleted".to_string()));
    assert_eq!(
        delete_schedule_reply(&reply(403, "403 Forbidden", "{\"error\":\"not yours\"}")),
        Err("not yours".to_string())
    );
    assert_eq!(delete_schedule_reply(&reply(400, "400", "{}")), Err("failed to delete schedule".to_string()));
}

#[test]
fn self_assignment_replies() {
    let ok = self_assignment_reply(&reply(201, "201 Created", "{\"cloud\":{\"name\":\"cloud07\"}}"));
    assert_eq!(ok.map(|r| r.cloud_name), Ok("cloud07".to_string()));
    let forbidden = self_assignment_reply(&reply(403, "403 Forbidden", "{\"cloud\":\"cloud09\"}"));
    assert_eq!(forbidden.map(|r| r.cloud_name), Ok("cloud09".to_string()));
    let none = self_assignment_reply(&reply(200, "200 OK", "{}"));
    assert_eq!(none.map(|r| r.cloud_name), Ok(String::new()));
    let bad = self_assignment_reply(&reply(400, "400 Bad Request", "{\"message\":\"nope\"}"));
    assert_eq!(bad.map(|r| r.cloud_name), Err("nope".to_string()));
}

#[test]
fn schedule_replies() {
    assert_eq!(schedule_reply(&reply(201, "201 Created", "{\"id\":42}")), Ok(42));
    assert_eq!(schedule_reply(&reply(201, "201 Created", "{}")), Ok(0));
    assert_eq!(schedule_reply(&reply(201, "201 Created", "{\"id\":\"7\"}")), Ok(0));
    assert_eq!(schedule_reply(&reply(400, "400", "{}")), Err("schedule creation failed".to_string()));
    assert_eq!(
        schedule_reply(&reply(502, "502 Bad Gateway", "x")),
        Err("server returned non-JSON response (502 Bad Gateway)".to_string())
    );
}

#[test]
fn message_member_precedence() {
    assert_eq!(extract_message(&json("{\"error\":\"e\",\"message\":\"m\"}"), "fb"), "m");
    assert_eq!(extract_message(&json("{\"error\":\"e\",\"detail\":\"d\"}"), "fb"), "e");
    assert_eq!(extract_message(&json("{\"detail\":5}"), "fb"), "fb");
    assert_eq!(extract_message(&json("null"), "fb"), "fb");
}

#[test]
fn version_body_is_trimmed() {
    assert_eq!(version_from_body("  \"3.1.4\"\n"), "3.1.4");
    assert_eq!(version_from_body("2.0"), "2.0");
    assert_eq!(version_from_body("  "), "unknown");
    assert_eq!(version_from_body("\"\""), "unknown");
}

#[test]
fn release_tags() {
    assert_eq!(strip_tag("v1.2.3"), "1.2.3");
    assert_eq!(strip_tag("1.2.3"), "1.2.3");
    assert_eq!(strip_tag("vv1"), "v1");
    assert_eq!(strip_tag(""), "");
    assert_eq!(tag_of_release(&json("{\"tag_name\":\"v0.5.0\"}")), "v0.5.0");
    assert_eq!(tag_of_release(&json("{\"tag_name\":3}")), "");
    assert_eq!(tag_of_release(&json("{}")), "");
}

#[test]
fn assets_per_platform() {
    assert_eq!(asset_name("linux", "x86_64"), Some("quads-tui-linux-x86_64".to_string()));
    assert_eq!(asset_name("macos", "aarch64"), Some("quads-tui-macos-aarch64".to_string()));
    assert_eq!(asset_name("windows", "x86_64"), Some("quads-tui-windows-x86_64.exe".to_string()));
    assert_eq!(asset_name("freebsd", "x86_64"), None);
    assert_eq!(asset_name("linux", "riscv64"), None);
}

#[test]
fn newer_release_is_offered() {
    let info = update_for_release("v1.3.0", "1.2.9", "linux", "aarch64").unwrap();
    assert_eq!(info.latest_version, "1.3.0");
    assert_eq!(
        info.download_url,
        "https://github.com/NewtonChutney/quads-tui/releases/download/v1.3.0/quads-tui-linux-aarch64"
    );
    let other = update_for_release("2.0.0", "1.9.9", "plan9", "x86_64").unwrap();
    assert_eq!(other.latest_version, "2.0.0");
    assert_eq!(other.download_url, "https://github.com/NewtonChutney/quads-tui/releases/download/2.0.0/");
}

#[test]
fn same_older_or_unparsable_release_is_not_offered() {
    assert!(update_for_release("v1.2.9", "1.2.9", "linux", "x86_64").is_none());
    assert!(update_for_release("v1.2.8", "1.2.9", "linux", "x86_64").is_none());
    assert!(update_for_release("v1.3.0-rc.1", "1.3.0", "linux", "x86_64").is_none());
    assert!(update_for_release("latest", "1.2.9", "linux", "x86_64").is_none());
    assert!(update_for_release("", "1.2.9", "linux", "x86_64").is_none());
    assert!(update_for_release("v9.9.9", "dev", "linux", "x86_64").is_none());
}

#[test]
fn no_offer_without_a_newer_release() {
    assert!(offer(false, "v1", "1".to_string(), None).is_none());
    let info = offer(true, "v1", "1.0.0".to_string(), Some("a".to_string())).unwrap();
    assert_eq!(info.download_url, "https://github.com/NewtonChutney/quads-tui/releases/download/v1/a");
}
