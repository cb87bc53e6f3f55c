//! The QUADS v3 API as the client sees it: where each request goes, how it is
//! authenticated, and what each reply means.
//!
//! Sending requests is left to the caller; this module decides the URL and
//! the header of a request, and turns the status and body of a reply into
//! the result the caller acts on.
use crate::json::{
    get_text, json_as_i64, json_as_text, json_get, json_i64, json_member, json_null, json_of_text,
    json_text, member_text, parse_json,
};
use crate::text_util::{
    decimal, decimal_text, first_chars, strip, strip_back, take_chars, trim_end_text, trim_text,
};
use serde_json::Value;
use vstd::prelude::*;

verus! {

/// A reply as the server sent it.
pub struct HttpReply {
    /// The status code.
    pub status: u16,
    /// The status as it is shown to users, such as `404 Not Found`.
    pub status_text: String,
    /// The body, as text.
    pub body: String,
}

/// A 2xx status.
pub open spec fn is_success(status: u16) -> bool {
    200 <= status < 300
}

/// A 4xx or 5xx status.
pub open spec fn is_failure(status: u16) -> bool {
    400 <= status < 600
}

/// The endpoints the client talks to.
#[derive(Debug, Clone, Copy, PartialEq, Eq, Structural)]
pub enum Endpoint {
    Login,
    Register,
    Version,
    Hosts,
    Clouds,
    CloudSummary,
    ActiveAssignments,
    TerminateAssignment(i64),
    DeleteSchedule(i64),
    CurrentSchedules,
    SelfAssignment,
    Schedules,
}

/// The path of an endpoint below the API root.
pub open spec fn endpoint_path(e: Endpoint) -> Seq<char> {
    match e {
        Endpoint::Login => "/login/"@,
        Endpoint::Register => "/register/"@,
        Endpoint::Version => "/version/"@,
        Endpoint::Hosts => "/hosts/"@,
        Endpoint::Clouds => "/clouds/"@,
        Endpoint::CloudSummary => "/clouds/summary/"@,
        Endpoint::ActiveAssignments => "/assignments/active/"@,
        Endpoint::TerminateAssignment(id) => "/assignments/terminate/"@ + decimal_text(id as int)
            + "/"@,
        Endpoint::DeleteSchedule(id) => "/schedules/"@ + decimal_text(id as int) + "/"@,
        Endpoint::CurrentSchedules => "/schedules/current/"@,
        Endpoint::SelfAssignment => "/assignments/self/"@,
        Endpoint::Schedules => "/schedules/"@,
    }
}

/// The path of an endpoint below the API root.
pub fn path_of(e: Endpoint) -> (r: String)
    ensures
        r@ == endpoint_path(e),
{
    match e {
        Endpoint::Login => String::from_str("/login/"),
        Endpoint::Register => String::from_str("/register/"),
        Endpoint::Version => String::from_str("/version/"),
        Endpoint::Hosts => String::from_str("/hosts/"),
        Endpoint::Clouds => String::from_str("/clouds/"),
        Endpoint::CloudSummary => String::from_str("/clouds/summary/"),
        Endpoint::ActiveAssignments => String::from_str("/assignments/active/"),
        Endpoint::TerminateAssignment(id) => {
            let mut s = String::from_str("/assignments/terminate/");
            let d = decimal(id);
            s.append(d.as_str());
            s.append("/");
            s
        },
        Endpoint::DeleteSchedule(id) => {
            let mut s = String::from_str("/schedules/");
            let d = decimal(id);
            s.append(d.as_str());
            s.append("/");
            s
        },
        Endpoint::CurrentSchedules => String::from_str("/schedules/current/"),
        Endpoint::SelfAssignment => String::from_str("/assignments/self/"),
        Endpoint::Schedules => String::from_str("/schedules/"),
    }
}

/// Which member of an error reply carries its message: the first of
/// `message`, `error` and `detail` that is present.
pub open spec fn message_member(v: Value) -> Option<Value> {
    match json_member(v, "message"@) {
        Some(m) => Some(m),
        None => match json_member(v, "error"@) {
            Some(m) => Some(m),
            None => json_member(v, "detail"@),
        },
    }
}

/// The message a reply carries, or `fallback` where its message member is
/// missing or not a string.
pub open spec fn message_of(v: Value, fallback: Seq<char>) -> Seq<char> {
    match message_member(v) {
        Some(m) => match json_as_text(m) {
            Some(t) => t,
            None => fallback,
        },
        None => fallback,
    }
}

/// The message of a reply whose body may not have parsed (`None`).
pub open spec fn opt_message(parsed: Option<Value>, fallback: Seq<char>) -> Seq<char> {
    match parsed {
        Some(v) => message_of(v, fallback),
        None => fallback,
    }
}

/// The message a reply carries, or `fallback`.
pub fn extract_message(parsed: &Value, fallback: &str) -> (r: String)
    ensures
        r@ == message_of(*parsed, fallback@),
{
    let member = match json_get(parsed, "message") {
        Some(m) => Some(m),
        None => match json_get(parsed, "error") {
            Some(m) => Some(m),
            None => json_get(parsed, "detail"),
        },
    };
    match member {
        Some(m) => match json_text(&m) {
            Some(t) => t,
            None => String::from_str(fallback),
        },
        None => String::from_str(fallback),
    }
}

/// The error for a body that is not JSON, with the start of the body when
/// `with_body` is set.
pub open spec fn non_json_message(status_text: Seq<char>, body: Seq<char>, with_body: bool) -> Seq<
    char,
> {
    if with_body {
        "server returned non-JSON response ("@ + status_text + "):\n"@ + first_chars(body, 200)
    } else {
        "server returned non-JSON response ("@ + status_text + ")"@
    }
}

fn non_json_error(reply: &HttpReply, with_body: bool) -> (r: String)
    ensures
        r@ == non_json_message(reply.status_text@, reply.body@, with_body),
{
    let mut s = String::from_str("server returned non-JSON response (");
    s.append(reply.status_text.as_str());
    if with_body {
        s.append("):\n");
        let start = take_chars(reply.body.as_str(), 200);
        s.append(start.as_str());
    } else {
        s.append(")");
    }
    s
}

/// The views of a result of texts.
pub open spec fn text_result(r: Result<String, String>) -> Result<Seq<char>, Seq<char>> {
    match r {
        Ok(s) => Ok(s@),
        Err(e) => Err(e@),
    }
}

/// What a login reply means: the token, or the error.
pub open spec fn login_result(status_text: Seq<char>, body: Seq<char>, parsed: Option<Value>) -> Result<
    Seq<char>,
    Seq<char>,
> {
    match parsed {
        None => Err(non_json_message(status_text, body, true)),
        Some(v) => match member_text(v, "auth_token"@) {
            Some(t) => Ok(t),
            None => match member_text(v, "token"@) {
                Some(t) => Ok(t),
                None => Err(message_of(v, "unknown error"@)),
            },
        },
    }
}

/// What a registration reply means.
pub open spec fn register_result(
    status: u16,
    status_text: Seq<char>,
    body: Seq<char>,
    parsed: Option<Value>,
) -> Result<(), Seq<char>> {
    match parsed {
        None => Err(non_json_message(status_text, body, true)),
        Some(v) => if is_success(status) {
            Ok(())
        } else {
            Err("registration failed: "@ + message_of(v, "unknown error"@))
        },
    }
}

/// What the reply to an action (terminating an assignment, deleting a
/// schedule) means; a body that is not JSON reads as `null`.
pub open spec fn action_result(
    status: u16,
    parsed: Option<Value>,
    failed: Seq<char>,
    done: Seq<char>,
) -> Result<Seq<char>, Seq<char>> {
    if is_failure(status) {
        Err(opt_message(parsed, failed))
    } else {
        Ok(opt_message(parsed, done))
    }
}

/// The cloud a self-assignment reply names: the `name` of its `cloud`
/// member, or the member itself where it is a string, or empty.
pub open spec fn reply_cloud_name(v: Value) -> Seq<char> {
    match json_member(v, "cloud"@) {
        Some(c) => match member_text(c, "name"@) {
            Some(t) => t,
            None => match json_as_text(c) {
                Some(t) => t,
                None => Seq::empty(),
            },
        },
        None => Seq::empty(),
    }
}

/// What a self-assignment reply means: the new cloud's name, or the error.
/// A 403 reply still names the cloud.
pub open spec fn self_assignment_result(
    status: u16,
    status_text: Seq<char>,
    body: Seq<char>,
    parsed: Option<Value>,
) -> Result<Seq<char>, Seq<char>> {
    match parsed {
        None => Err(non_json_message(status_text, body, true)),
        Some(v) => if is_success(status) || status == 403 {
            Ok(reply_cloud_name(v))
        } else {
            Err(message_of(v, "unknown error"@))
        },
    }
}

/// The `id` member of a reply as an integer, 0 where it is missing or no
/// integer.
pub open spec fn reply_id(v: Value) -> i64 {
    match json_member(v, "id"@) {
        Some(m) => match json_as_i64(m) {
            Some(i) => i,
            None => 0,
        },
        None => 0,
    }
}

/// What the reply to scheduling a host means: the schedule's id, or the
/// error.
pub open spec fn schedule_result(
    status: u16,
    status_text: Seq<char>,
    parsed: Option<Value>,
) -> Result<i64, Seq<char>> {
    match parsed {
        None => Err(non_json_message(status_text, Seq::empty(), false)),
        Some(v) => if is_success(status) {
            Ok(reply_id(v))
        } else {
            Err(message_of(v, "schedule creation failed"@))
        },
    }
}

/// The version text in the body of a version reply: the body without white
/// space and double quotes at its ends, or `unknown` when nothing is left.
pub open spec fn version_of(body: Seq<char>) -> Seq<char> {
    let t = strip(strip(body, None), Some('"'));
    if t.len() == 0 {
        "unknown"@
    } else {
        t
    }
}

/// The version text in the body of a version reply.
pub fn version_from_body(body: &str) -> (r: String)
    ensures
        r@ == version_of(body@),
{
    let trimmed = trim_text(body, None);
    let t = trim_text(trimmed.as_str(), Some('"'));
    if t.as_str().unicode_len() == 0 {
        String::from_str("unknown")
    } else {
        t
    }
}

/// The reply to creating a self-scheduled assignment.
pub struct SelfAssignmentResponse {
    pub cloud_name: String,
}

/// A client of one QUADS server: where it is, whether its certificate is
/// checked, and the token of the current login.
pub struct ApiClient {
    pub base_url: String,
    pub verify_ssl: bool,
    pub token: Option<String>,
}

impl ApiClient {
    /// A client for the server at `base_url` (trailing slashes dropped), not
    /// logged in.
    pub fn new(base_url: &str, verify_ssl: bool) -> (r: Self)
        ensures
            r.base_url@ == strip_back(base_url@, Some('/')),
            r.verify_ssl == verify_ssl,
            r.token is None,
    {
        ApiClient { base_url: trim_end_text(base_url, Some('/')), verify_ssl, token: None }
    }

    /// A copy of this client.
    pub fn duplicate(&self) -> (r: Self)
        ensures
            r.base_url@ == self.base_url@,
            r.verify_ssl == self.verify_ssl,
            r.token == self.token,
    {
        let token = match &self.token {
            Some(t) => Some(t.clone()),
            None => None,
        };
        ApiClient { base_url: self.base_url.clone(), verify_ssl: self.verify_ssl, token }
    }

    /// Forgets the login token.
    pub fn clear_token(&mut self)
        ensures
            final(self).token is None,
            final(self).base_url == old(self).base_url,
            final(self).verify_ssl == old(self).verify_ssl,
    {
        self.token = None;
    }

    /// The full URL of `path` below the API root.
    pub fn api_url(&self, path: &str) -> (r: String)
        ensures
            r@ == self.base_url@ + "/api/v3"@ + path@,
    {
        let mut s = self.base_url.clone();
        s.append("/api/v3");
        s.append(path);
        s
    }

    /// The full URL of an endpoint.
    pub fn url_of(&self, e: Endpoint) -> (r: String)
        ensures
            r@ == self.base_url@ + "/api/v3"@ + endpoint_path(e),
    {
        let p = path_of(e);
        self.api_url(p.as_str())
    }

    /// The `Authorization` header value of a logged-in client.
    pub fn auth_header(&self) -> (r: Option<String>)
        ensures
            match self.token {
                Some(t) => r matches Some(h) && h@ == "Bearer "@ + t@,
                None => r is None,
            },
    {
        match &self.token {
            Some(t) => {
                let mut h = String::from_str("Bearer ");
                h.append(t.as_str());
                Some(h)
            },
            None => None,
        }
    }

    /// Acts on a login reply whose body parsed to `parsed` (`None` where it
    /// is no JSON): on success the token is kept and returned.
    pub fn login_outcome(&mut self, reply: &HttpReply, parsed: Option<Value>) -> (r: Result<
        String,
        String,
    >)
        ensures
            text_result(r) == login_result(reply.status_text@, reply.body@, parsed),
            match r {
                Ok(t) => final(self).token matches Some(k) && k@ == t@,
                Err(_) => final(self).token == old(self).token,
            },
            final(self).base_url == old(self).base_url,
            final(self).verify_ssl == old(self).verify_ssl,
    {
        let v = match parsed {
            None => return Err(non_json_error(reply, true)),
            Some(v) => v,
        };
        if let Some(t) = get_text(&v, "auth_token") {
            self.token = Some(t.clone());
            return Ok(t);
        }
        if let Some(t) = get_text(&v, "token") {
            self.token = Some(t.clone());
            return Ok(t);
        }
        Err(extract_message(&v, "unknown error"))
    }

    /// Acts on a login reply.
    pub fn login_reply(&mut self, reply: &HttpReply) -> (r: Result<String, String>)
        ensures
            text_result(r) == login_result(
                reply.status_text@,
                reply.body@,
                json_of_text(reply.body@),
            ),
            match r {
                Ok(t) => final(self).token matches Some(k) && k@ == t@,
                Err(_) => final(self).token == old(self).token,
            },
            final(self).base_url == old(self).base_url,
            final(self).verify_ssl == old(self).verify_ssl,
    {
        let parsed = parse_json(reply.body.as_str());
        self.login_outcome(reply, parsed)
    }
}

/// What a registration reply means, its body having parsed to `parsed`.
pub fn register_outcome(reply: &HttpReply, parsed: Option<Value>) -> (r: Result<(), String>)
    ensures
        match r {
            Ok(()) => register_result(reply.status, reply.status_text@, reply.body@, parsed)
                is Ok,
            Err(e) => register_result(reply.status, reply.status_text@, reply.body@, parsed)
                == Err::<(), Seq<char>>(e@),
        },
{
    let v = match parsed {
        None => return Err(non_json_error(reply, true)),
        Some(v) => v,
    };
    if reply.status >= 200 && reply.status < 300 {
        return Ok(());
    }
    let mut e = String::from_str("registration failed: ");
    let m = extract_message(&v, "unknown error");
    e.append(m.as_str());
    Err(e)
}

/// What a registration reply means.
pub fn register_reply(reply: &HttpReply) -> (r: Result<(), String>)
    ensures
        match r {
            Ok(()) => register_result(
                reply.status,
                reply.status_text@,
                reply.body@,
                json_of_text(reply.body@),
            ) is Ok,
            Err(e) => register_result(
                reply.status,
                reply.status_text@,
                reply.body@,
                json_of_text(reply.body@),
            ) == Err::<(), Seq<char>>(e@),
        },
{
    let parsed = parse_json(reply.body.as_str());
    register_outcome(reply, parsed)
}

fn message_or(parsed: &Option<Value>, fallback: &str) -> (r: String)
    ensures
        r@ == opt_message(*parsed, fallback@),
{
    match parsed {
        Some(v) => extract_message(v, fallback),
        None => {
            let null = json_null();
            let m = extract_message(&null, fallback);
            m
        },
    }
}

/// What the reply to terminating an assignment means, its body having
/// parsed to `parsed`.
pub fn terminate_outcome(reply: &HttpReply, parsed: Option<Value>) -> (r: Result<String, String>)
    ensures
        text_result(r) == action_result(
            reply.status,
            parsed,
            "termination failed"@,
            "assignment terminated"@,
        ),
{
    if reply.status >= 400 && reply.status < 600 {
        Err(message_or(&parsed, "termination failed"))
    } else {
        Ok(message_or(&parsed, "assignment terminated"))
    }
}

/// What the reply to terminating an assignment means.
pub fn terminate_reply(reply: &HttpReply) -> (r: Result<String, String>)
    ensures
        text_result(r) == action_result(
            reply.status,
            json_of_text(reply.body@),
            "termination failed"@,
            "assignment terminated"@,
        ),
{
    let parsed = parse_json(reply.body.as_str());
    terminate_outcome(reply, parsed)
}

/// What the reply to deleting a schedule means, its body having parsed to
/// `parsed`.
pub fn delete_schedule_outcome(reply: &HttpReply, parsed: Option<Value>) -> (r: Result<
    String,
    String,
>)
    ensures
        text_result(r) == action_result(
            reply.status,
            parsed,
            "failed to delete schedule"@,
            "schedule deleted"@,
        ),
{
    if reply.status >= 400 && reply.status < 600 {
        Err(message_or(&parsed, "failed to delete schedule"))
    } else {
        Ok(message_or(&parsed, "schedule deleted"))
    }
}

/// What the reply to deleting a schedule means.
pub fn delete_schedule_reply(reply: &HttpReply) -> (r: Result<String, String>)
    ensures
        text_result(r) == action_result(
            reply.status,
            json_of_text(reply.body@),
            "failed to delete schedule"@,
            "schedule deleted"@,
        ),
{
    let parsed = parse_json(reply.body.as_str());
    delete_schedule_outcome(reply, parsed)
}

fn cloud_name_of(v: &Value) -> (r: String)
    ensures
        r@ == reply_cloud_name(*v),
{
    match json_get(v, "cloud") {
        Some(c) => match get_text(&c, "name") {
            Some(t) => t,
            None => match json_text(&c) {
                Some(t) => t,
                None => String::new(),
            },
        },
        None => String::new(),
    }
}

/// What the reply to creating a self-scheduled assignment means, its body
/// having parsed to `parsed`.
pub fn self_assignment_outcome(reply: &HttpReply, parsed: Option<Value>) -> (r: Result<
    SelfAssignmentResponse,
    String,
>)
    ensures
        match r {
            Ok(resp) => self_assignment_result(reply.status, reply.status_text@, reply.body@, parsed)
                == Ok::<Seq<char>, Seq<char>>(resp.cloud_name@),
            Err(e) => self_assignment_result(reply.status, reply.status_text@, reply.body@, parsed)
                == Err::<Seq<char>, Seq<char>>(e@),
        },
{
    let v = match parsed {
        None => return Err(non_json_error(reply, true)),
        Some(v) => v,
    };
    if (reply.status >= 200 && reply.status < 300) || reply.status == 403 {
        return Ok(SelfAssignmentResponse { cloud_name: cloud_name_of(&v) });
    }
    Err(extract_message(&v, "unknown error"))
}

/// What the reply to creating a self-scheduled assignment means.
pub fn self_assignment_reply(reply: &HttpReply) -> (r: Result<SelfAssignmentResponse, String>)
    ensures
        match r {
            Ok(resp) => self_assignment_result(
                reply.status,
                reply.status_text@,
                reply.body@,
                json_of_text(reply.body@),
            ) == Ok::<Seq<char>, Seq<char>>(resp.cloud_name@),
            Err(e) => self_assignment_result(
                reply.status,
                reply.status_text@,
                reply.body@,
                json_of_text(reply.body@),
            ) == Err::<Seq<char>, Seq<char>>(e@),
        },
{
    let parsed = parse_json(reply.body.as_str());
    self_assignment_outcome(reply, parsed)
}

/// What the reply to scheduling a host means, its body having parsed to
/// `parsed`.
pub fn schedule_outcome(reply: &HttpReply, parsed: Option<Value>) -> (r: Result<i64, String>)
    ensures
        match r {
            Ok(id) => schedule_result(reply.status, reply.status_text@, parsed) == Ok::<
                i64,
                Seq<char>,
            >(id),
            Err(e) => schedule_result(reply.status, reply.status_text@, parsed) == Err::<
                i64,
                Seq<char>,
            >(e@),
        },
{
    let v = match parsed {
        None => return Err(non_json_error(reply, false)),
        Some(v) => v,
    };
    if reply.status >= 200 && reply.status < 300 {
        let id = match json_get(&v, "id") {
            Some(m) => match json_i64(&m) {
                Some(i) => i,
                None => 0,
            },
            None => 0,
        };
        return Ok(id);
    }
    Err(extract_message(&v, "schedule creation failed"))
}

/// What the reply to scheduling a host means.
pub fn schedule_reply(reply: &HttpReply) -> (r: Result<i64, String>)
    ensures
        match r {
            Ok(id) => schedule_result(reply.status, reply.status_text@, json_of_text(reply.body@))
                == Ok::<i64, Seq<char>>(id),
            Err(e) => schedule_result(reply.status, reply.status_text@, json_of_text(reply.body@))
                == Err::<i64, Seq<char>>(e@),
        },
{
    let parsed = parse_json(reply.body.as_str());
    schedule_outcome(reply, parsed)
}

} // verus!
