//! The fetch pipeline: building the session credential and request plans,
//! parsing the two endpoints' responses, and the state machine that turns the
//! outcomes of the credential read and the two HTTP operations into one usage
//! snapshot. The unverified shell performs the reads and the network calls and
//! feeds their outcomes back in; every decision in between is made here.

use vstd::prelude::*;

use crate::config::{local_time_hms, percentage_tenths_of, UsageData};
use crate::token::{decode_identity, token_identity};

verus! {

/// The usage numbers reported for the fixed model: an optional request count
/// and an optional request cap.
#[derive(Clone, Copy, Debug, PartialEq, Eq, Structural)]
pub struct Gpt4Usage {
    pub num_requests: Option<i32>,
    pub max_request_usage: Option<i32>,
}

/// The pairing of a raw token with the identity decoded from it; only
/// constructible when both are present, and the sole ingredient of the
/// authentication header.
#[derive(Debug, PartialEq)]
pub struct SessionContext {
    pub token: String,
    pub user_id: String,
}

/// The session credential string sent as the authentication header: a fixed
/// locale cookie, then the session key holding `user_id::token` with the
/// separator percent-encoded.
pub open spec fn cookie_of(user_id: Seq<char>, token: Seq<char>) -> Seq<char> {
    "NEXT_LOCALE=cn; WorkosCursorSessionToken="@ + user_id + "%3A%3A"@ + token
}

impl Clone for SessionContext {
    fn clone(&self) -> (r: Self)
        ensures
            r == *self,
    {
        SessionContext { token: self.token.clone(), user_id: self.user_id.clone() }
    }
}

impl SessionContext {
    pub open spec fn spec_cookie(self) -> Seq<char> {
        cookie_of(self.user_id@, self.token@)
    }

    /// The credential string for this session.
    pub fn build_cookie(&self) -> (r: String)
        ensures
            r@ == self.spec_cookie(),
    {
        let mut s = String::from_str("NEXT_LOCALE=cn; WorkosCursorSessionToken=");
        s.append(self.user_id.as_str());
        s.append("%3A%3A");
        s.append(self.token.as_str());
        s
    }
}

/// The fixed browser-like headers attached to every request, in order.
pub fn common_headers() -> (r: Vec<(&'static str, &'static str)>)
    ensures
        r@.len() == 13,
        r@[0].0@ == "Accept"@ && r@[0].1@ == "*/*"@,
        r@[1].0@ == "Accept-Language"@ && r@[1].1@
            == "zh-CN,zh;q=0.9,en-US;q=0.8,en;q=0.7,en-GB;q=0.6"@,
        r@[2].0@ == "Cache-Control"@ && r@[2].1@ == "no-cache"@,
        r@[3].0@ == "Connection"@ && r@[3].1@ == "keep-alive"@,
        r@[4].0@ == "Pragma"@ && r@[4].1@ == "no-cache"@,
        r@[5].0@ == "Referer"@ && r@[5].1@ == "https://www.cursor.com/settings"@,
        r@[6].0@ == "User-Agent"@ && r@[6].1@
            == "Mozilla/5.0 (Macintosh; Intel Mac OS X 10_15_7) AppleWebKit/537.36 (KHTML, like Gecko) Chrome/116.0.0.0 Safari/537.36"@,
        r@[7].0@ == "sec-ch-ua"@ && r@[7].1@
            == "\"Chromium\";v=\"116\", \"Not)A;Brand\";v=\"24\", \"Google Chrome\";v=\"116\""@,
        r@[8].0@ == "sec-ch-ua-mobile"@ && r@[8].1@ == "?0"@,
        r@[9].0@ == "sec-ch-ua-platform"@ && r@[9].1@ == "\"macOS\""@,
        r@[10].0@ == "Sec-Fetch-Dest"@ && r@[10].1@ == "empty"@,
        r@[11].0@ == "Sec-Fetch-Mode"@ && r@[11].1@ == "cors"@,
        r@[12].0@ == "Sec-Fetch-Site"@ && r@[12].1@ == "same-origin"@,
{
    let mut v: Vec<(&'static str, &'static str)> = Vec::new();
    v.push(("Accept", "*/*"));
    v.push(("Accept-Language", "zh-CN,zh;q=0.9,en-US;q=0.8,en;q=0.7,en-GB;q=0.6"));
    v.push(("Cache-Control", "no-cache"));
    v.push(("Connection", "keep-alive"));
    v.push(("Pragma", "no-cache"));
    v.push(("Referer", "https://www.cursor.com/settings"));
    v.push(
        (
            "User-Agent",
            "Mozilla/5.0 (Macintosh; Intel Mac OS X 10_15_7) AppleWebKit/537.36 (KHTML, like Gecko) Chrome/116.0.0.0 Safari/537.36",
        ),
    );
    v.push(
        ("sec-ch-ua", "\"Chromium\";v=\"116\", \"Not)A;Brand\";v=\"24\", \"Google Chrome\";v=\"116\""),
    );
    v.push(("sec-ch-ua-mobile", "?0"));
    v.push(("sec-ch-ua-platform", "\"macOS\""));
    v.push(("Sec-Fetch-Dest", "empty"));
    v.push(("Sec-Fetch-Mode", "cors"));
    v.push(("Sec-Fetch-Site", "same-origin"));
    v
}

pub open spec fn profile_url() -> Seq<char> {
    "https://www.cursor.com/api/auth/me"@
}

pub open spec fn usage_url() -> Seq<char> {
    "https://www.cursor.com/api/usage"@
}

/// One GET the shell is asked to perform: the endpoint and the session
/// credential to attach (together with the fixed common headers).
#[derive(Debug, PartialEq)]
pub struct RequestPlan {
    pub url: &'static str,
    pub cookie: String,
}

/// The plan for the profile (account email) endpoint.
pub fn profile_request(ctx: &SessionContext) -> (r: RequestPlan)
    ensures
        r.url@ == profile_url(),
        r.cookie@ == ctx.spec_cookie(),
{
    RequestPlan { url: "https://www.cursor.com/api/auth/me", cookie: ctx.build_cookie() }
}

/// The plan for the usage endpoint.
pub fn usage_request(ctx: &SessionContext) -> (r: RequestPlan)
    ensures
        r.url@ == usage_url(),
        r.cookie@ == ctx.spec_cookie(),
{
    RequestPlan { url: "https://www.cursor.com/api/usage", cookie: ctx.build_cookie() }
}

/// What one HTTP operation came back with, after the shell's bounded retry: a
/// response with its status and raw body, or a transport failure on every
/// allowed attempt.
#[derive(Debug, PartialEq)]
pub enum FetchOutcome {
    Response { status: u16, body: Vec<u8> },
    TransportFailed,
}

/// What parsing a profile body yields: `None` when the bytes are not JSON,
/// otherwise the optional string `email` field.
pub uninterp spec fn profile_email_of(b: Seq<u8>) -> Option<Option<Seq<char>>>;

/// Relies on serde_json's `from_slice`: parsing is a function of the bytes
/// alone. A failed parse is `None`; a parsed body without a string `email`
/// field is `Some(None)`; otherwise the field's value is handed back.
#[verifier::external_body]
fn parse_profile_email(body: &[u8]) -> (r: Option<Option<String>>)
    ensures
        r.deep_view() == profile_email_of(body@),
{
    match serde_json::from_slice::<serde_json::Value>(body) {
        Ok(v) => match v.get("email") {
            Some(serde_json::Value::String(s)) => Some(Some(s.clone())),
            _ => Some(None),
        },
        Err(_) => None,
    }
}

/// What parsing a usage body yields: `None` when the bytes are not JSON or an
/// integer field does not fit, `Some(None)` when the fixed model's object is
/// absent, and otherwise its optional request count and request cap.
pub uninterp spec fn usage_counts_of(b: Seq<u8>) -> Option<Option<(Option<i32>, Option<i32>)>>;

/// Relies on serde_json's `from_slice`: parsing is a function of the bytes
/// alone. The wrapper reads the object under the fixed model key and its
/// `numRequests` and `maxRequestUsage` integer fields.
#[verifier::external_body]
fn parse_usage_counts(body: &[u8]) -> (r: Option<Option<(Option<i32>, Option<i32>)>>)
    ensures
        r.deep_view() == usage_counts_of(body@),
{
    let v: serde_json::Value = match serde_json::from_slice(body) {
        Ok(v) => v,
        Err(_) => return None,
    };
    let g = match v.get("gpt-4") {
        Some(g) => g,
        None => return Some(None),
    };
    let field = |k: &str| match g.get(k) {
        None | Some(serde_json::Value::Null) => Some(None),
        Some(x) => x.as_i64().and_then(|n| i32::try_from(n).ok()).map(Some),
    };
    Some(Some((field("numRequests")?, field("maxRequestUsage")?)))
}

/// The email an outcome of the profile operation yields: present exactly when
/// the response came back with status 200 and a body carrying a string `email`.
/// Every other outcome — transport failure, another status, unparsable body,
/// absent field — yields nothing, silently.
pub open spec fn spec_profile_email(o: FetchOutcome) -> Option<Seq<char>> {
    match o {
        FetchOutcome::Response { status, body } => if status == 200 {
            match profile_email_of(body@) {
                Some(Some(e)) => Some(e),
                _ => None,
            }
        } else {
            None
        },
        FetchOutcome::TransportFailed => None,
    }
}

/// The usage numbers an outcome of the usage operation yields: present exactly
/// when the response came back with status 200 and a body carrying the fixed
/// model's object.
pub open spec fn spec_usage_counts(o: FetchOutcome) -> Option<(Option<i32>, Option<i32>)> {
    match o {
        FetchOutcome::Response { status, body } => if status == 200 {
            match usage_counts_of(body@) {
                Some(Some(c)) => Some(c),
                _ => None,
            }
        } else {
            None
        },
        FetchOutcome::TransportFailed => None,
    }
}

/// The email the profile operation's outcome carries, if any.
pub fn profile_email(o: &FetchOutcome) -> (r: Option<String>)
    ensures
        r.deep_view() == spec_profile_email(*o),
{
    match o {
        FetchOutcome::Response { status, body } => {
            if *status == 200 {
                match parse_profile_email(body.as_slice()) {
                    Some(Some(e)) => Some(e),
                    _ => None,
                }
            } else {
                None
            }
        },
        FetchOutcome::TransportFailed => None,
    }
}

/// The usage numbers the usage operation's outcome carries, if any.
pub fn usage_counts(o: &FetchOutcome) -> (r: Option<Gpt4Usage>)
    ensures
        match r {
            Some(g) => spec_usage_counts(*o) == Some((g.num_requests, g.max_request_usage)),
            None => spec_usage_counts(*o) is None,
        },
{
    match o {
        FetchOutcome::Response { status, body } => {
            if *status == 200 {
                match parse_usage_counts(body.as_slice()) {
                    Some(Some((num_requests, max_request_usage))) => Some(
                        Gpt4Usage { num_requests, max_request_usage },
                    ),
                    _ => None,
                }
            } else {
                None
            }
        },
        FetchOutcome::TransportFailed => None,
    }
}

/// What the credential store read came back with: no stored token (an expected
/// state, not a failure), the raw token, or a store that exists but could not
/// be opened or queried.
#[derive(Debug, PartialEq)]
pub enum TokenReadOutcome {
    Missing,
    Found(String),
    StoreError(String),
}

/// Where one refresh cycle stands.
#[derive(Debug, PartialEq)]
pub enum FetchState {
    /// Waiting for the credential store read.
    AcquireToken,
    /// Waiting for the profile operation's outcome.
    FetchProfile { ctx: SessionContext },
    /// Waiting for the usage operation's outcome.
    FetchUsage { ctx: SessionContext, email: Option<String> },
    /// The cycle is over; its snapshot has been handed out.
    Done,
}

/// What the shell must do next.
#[derive(Debug, PartialEq)]
pub enum FetchAction {
    /// Read the raw token from the credential store.
    ReadToken,
    /// Perform this GET (with the fixed common headers) under the transport
    /// retry policy and hand back the outcome.
    Send(RequestPlan),
    /// The cycle is complete: publish this snapshot to the shared state.
    Publish(UsageData),
}

pub open spec fn no_token_error() -> Seq<char> {
    "Unable to obtain access token, please ensure that Cursor is installed and logged in."@
}

pub open spec fn identity_error() -> Seq<char> {
    "Cannot extract user ID from Token"@
}

pub open spec fn usage_error() -> Seq<char> {
    "Unable to retrieve usage data, please check your network connection."@
}

/// A failed snapshot: counts at their defaults, the reason in `error`, at most a
/// best-effort email, and a fresh timestamp.
pub open spec fn is_failed_snapshot(d: UsageData, msg: Seq<char>, email: Option<Seq<char>>) -> bool {
    &&& d.used == 0
    &&& d.total == 0
    &&& d.percentage_tenths == 0
    &&& d.email.deep_view() == email
    &&& d.error matches Some(m) && m@ == msg
    &&& d.last_update@.len() == 8
    &&& d.wf()
}

/// A count taken from the wire: an absent field counts as zero, and a negative
/// report is clamped to zero so the snapshot's invariant holds.
pub open spec fn count_or_zero(c: Option<i32>) -> i32 {
    match c {
        None => 0,
        Some(v) => if v < 0 {
            0
        } else {
            v
        },
    }
}

/// A successful snapshot: the reported counts (absent ones zero), the exact
/// rounded percentage, no error, and a fresh timestamp.
pub open spec fn is_success_snapshot(
    d: UsageData,
    nr: Option<i32>,
    mx: Option<i32>,
    email: Option<Seq<char>>,
) -> bool {
    &&& d.used == count_or_zero(nr)
    &&& d.total == count_or_zero(mx)
    &&& d.percentage_tenths == percentage_tenths_of(
        count_or_zero(nr) as int,
        count_or_zero(mx) as int,
    )
    &&& d.email.deep_view() == email
    &&& d.error is None
    &&& d.last_update@.len() == 8
    &&& d.wf()
}

fn failed_snapshot(msg: String, email: Option<String>) -> (r: UsageData)
    ensures
        is_failed_snapshot(r, msg@, email.deep_view()),
{
    UsageData {
        used: 0,
        total: 0,
        percentage_tenths: 0,
        email,
        last_update: local_time_hms(),
        error: Some(msg),
    }
}

fn clamped(c: Option<i32>) -> (r: i32)
    ensures
        r == count_or_zero(c),
{
    match c {
        None => 0,
        Some(v) => if v < 0 {
            0
        } else {
            v
        },
    }
}

/// Begins one refresh cycle: the shell is asked to read the credential store.
pub fn start_cycle() -> (r: (FetchState, FetchAction))
    ensures
        r.0 is AcquireToken,
        r.1 is ReadToken,
{
    (FetchState::AcquireToken, FetchAction::ReadToken)
}

/// The cycle's step after the credential store read. No stored token, a store
/// error, or a token whose identity cannot be decoded each end the cycle at
/// once with a failed snapshot — no network call is requested. Only a decodable
/// token builds a session context and moves on to the profile operation.
pub fn on_token_read(outcome: TokenReadOutcome) -> (r: (FetchState, FetchAction))
    ensures
        match outcome {
            TokenReadOutcome::Missing => {
                &&& r.0 is Done
                &&& r.1 matches FetchAction::Publish(d) && is_failed_snapshot(
                    d,
                    no_token_error(),
                    None,
                )
            },
            TokenReadOutcome::StoreError(m) => {
                &&& r.0 is Done
                &&& r.1 matches FetchAction::Publish(d) && is_failed_snapshot(d, m@, None)
            },
            TokenReadOutcome::Found(t) => match token_identity(t@) {
                None => {
                    &&& r.0 is Done
                    &&& r.1 matches FetchAction::Publish(d) && is_failed_snapshot(
                        d,
                        identity_error(),
                        None,
                    )
                },
                Some(id) => {
                    &&& r.0 matches FetchState::FetchProfile { ctx } && ctx.token@ == t@
                        && ctx.user_id@ == id
                    &&& r.1 matches FetchAction::Send(p) && p.url@ == profile_url() && p.cookie@
                        == cookie_of(id, t@)
                },
            },
        },
{
    match outcome {
        TokenReadOutcome::Missing => {
            let d = failed_snapshot(
                String::from_str(
                    "Unable to obtain access token, please ensure that Cursor is installed and logged in.",
                ),
                None,
            );
            (FetchState::Done, FetchAction::Publish(d))
        },
        TokenReadOutcome::StoreError(m) => {
            let d = failed_snapshot(m, None);
            (FetchState::Done, FetchAction::Publish(d))
        },
        TokenReadOutcome::Found(t) => match decode_identity(t.as_str()) {
            None => {
                let d = failed_snapshot(String::from_str("Cannot extract user ID from Token"), None);
                (FetchState::Done, FetchAction::Publish(d))
            },
            Some(id) => {
                let ctx = SessionContext { token: t, user_id: id };
                let plan = profile_request(&ctx);
                (FetchState::FetchProfile { ctx }, FetchAction::Send(plan))
            },
        },
    }
}

/// The cycle's step after the profile operation. Whatever the outcome — success,
/// another status, a malformed body, transport failure — the cycle proceeds to
/// the usage operation: a profile failure never ends the cycle and never sets
/// an error; only a success contributes the best-effort email.
pub fn on_profile_result(ctx: SessionContext, outcome: FetchOutcome) -> (r: (
    FetchState,
    FetchAction,
))
    ensures
        r.0 matches FetchState::FetchUsage { ctx: c, email } && c == ctx && email.deep_view()
            == spec_profile_email(outcome),
        r.1 matches FetchAction::Send(p) && p.url@ == usage_url() && p.cookie@ == ctx.spec_cookie(),
{
    let email = profile_email(&outcome);
    let plan = usage_request(&ctx);
    (FetchState::FetchUsage { ctx, email }, FetchAction::Send(plan))
}

/// The cycle's last step, after the usage operation. A 200 response carrying
/// the fixed model's object yields a complete, error-free snapshot with the
/// exact rounded percentage; every other outcome yields a failed snapshot whose
/// error names the usage fetch, the best-effort email kept either way.
pub fn on_usage_result(email: Option<String>, outcome: FetchOutcome) -> (r: (
    FetchState,
    FetchAction,
))
    ensures
        r.0 is Done,
        r.1 matches FetchAction::Publish(d) && match spec_usage_counts(outcome) {
            Some((nr, mx)) => is_success_snapshot(d, nr, mx, email.deep_view()),
            None => is_failed_snapshot(d, usage_error(), email.deep_view()),
        },
{
    match usage_counts(&outcome) {
        Some(g) => {
            let used = clamped(g.num_requests);
            let total = clamped(g.max_request_usage);
            let mut d = UsageData {
                used,
                total,
                percentage_tenths: 0,
                email,
                last_update: local_time_hms(),
                error: None,
            };
            d.percentage_tenths = d.calculate_percentage();
            (FetchState::Done, FetchAction::Publish(d))
        },
        None => {
            let d = failed_snapshot(
                String::from_str(
                    "Unable to retrieve usage data, please check your network connection.",
                ),
                email,
            );
            (FetchState::Done, FetchAction::Publish(d))
        },
    }
}

} // verus!
