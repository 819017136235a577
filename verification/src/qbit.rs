//! qBittorrent WebAPI client.
//!
//! Every operation logs in when needed, re-authenticates and retries once
//! when the server answers 403, and, for pausing and resuming, falls back
//! to the other API dialect's endpoint when the first one does not exist
//! (404). [`QbitClient::start`] gives the first request of an operation;
//! [`QbitClient::on_response`] takes each response and gives the next
//! request or the result. The HTTP traffic is carried outside this crate.

use vstd::prelude::*;
use vstd::string::*;
use crate::client::SpeedLimits;
use crate::http::{HttpStatus, is_success, status_text};
use crate::text::{
    concat, contains, decimal, int_error_message, parse_u64, parse_u64_str, str_contains,
    str_is_empty, trim, trim_end_char, trim_end_matches_char, trimmed, u64_to_decimal,
};

verus! {

/// Which qBittorrent WebAPI dialect to speak. qBittorrent 5.0 (WebAPI 2.11)
/// renamed the torrents pause/resume endpoints to stop/start.
#[derive(Debug, Clone, Copy, PartialEq, Eq, Structural)]
pub enum QbitApiVersion {
    V4,
    V5,
}

/// Errors from the qBittorrent client.
#[derive(Debug, Clone, PartialEq, Eq)]
pub enum QbitError {
    AuthFailed,
    RequestFailed(String),
}

/// The plain value of a [`QbitError`].
pub enum QbitErrorView {
    AuthFailed,
    RequestFailed(Seq<char>),
}

impl View for QbitError {
    type V = QbitErrorView;

    open spec fn view(&self) -> QbitErrorView {
        match self {
            QbitError::AuthFailed => QbitErrorView::AuthFailed,
            QbitError::RequestFailed(m) => QbitErrorView::RequestFailed(m@),
        }
    }
}

/// The text an error displays.
pub open spec fn error_text(e: QbitErrorView) -> Seq<char> {
    match e {
        QbitErrorView::AuthFailed => "Authentication failed"@,
        QbitErrorView::RequestFailed(m) => "Request failed: "@ + m,
    }
}

impl QbitError {
    /// The text this error displays.
    pub fn message(&self) -> (res: String)
        ensures
            res@ == error_text(self@),
    {
        match self {
            QbitError::AuthFailed => String::from_str("Authentication failed"),
            QbitError::RequestFailed(m) => concat("Request failed: ", m.as_str()),
        }
    }
}

/// Which of the two global speed limits.
#[derive(Debug, Clone, Copy, PartialEq, Eq, Structural)]
pub enum LimitKind {
    Download,
    Upload,
}

/// The operations the client offers.
#[derive(Debug, Clone, Copy, PartialEq, Eq, Structural)]
pub enum QbitOp {
    PauseAll,
    ResumeAll,
    GetDownloadLimit,
    GetUploadLimit,
    GetSpeedLimits,
    SetDownloadLimit(u64),
    SetUploadLimit(u64),
    SetSpeedLimits(SpeedLimits),
    TestConnection,
}

/// What a successful operation returns.
#[derive(Debug)]
pub enum QbitOutput {
    Unit,
    /// One limit (bytes/sec, 0 = unlimited).
    Limit(u64),
    Limits(SpeedLimits),
    /// The server's version text, e.g. "v5.0.2".
    Version(String),
}

/// The plain value of a [`QbitOutput`].
pub enum QbitOutputView {
    Unit,
    Limit(u64),
    Limits(SpeedLimits),
    Version(Seq<char>),
}

impl View for QbitOutput {
    type V = QbitOutputView;

    open spec fn view(&self) -> QbitOutputView {
        match self {
            QbitOutput::Unit => QbitOutputView::Unit,
            QbitOutput::Limit(n) => QbitOutputView::Limit(*n),
            QbitOutput::Limits(l) => QbitOutputView::Limits(*l),
            QbitOutput::Version(v) => QbitOutputView::Version(v@),
        }
    }
}

/// An operation's result as plain values.
pub type QbitResultView = Result<QbitOutputView, QbitErrorView>;

/// The plain value of an operation's result.
pub open spec fn result_view(r: Result<QbitOutput, QbitError>) -> QbitResultView {
    match r {
        Ok(o) => Ok(o@),
        Err(e) => Err(e@),
    }
}

/// A qBittorrent WebUI address with credentials and session state.
#[derive(Debug)]
pub struct QbitClient {
    /// The address without trailing slashes.
    pub base_url: String,
    pub username: String,
    pub password: String,
    pub api_version: QbitApiVersion,
    /// Whether the session is believed to be logged in.
    pub authenticated: bool,
}

/// The plain value of a [`QbitClient`].
pub struct QbitClientView {
    pub base_url: Seq<char>,
    pub username: Seq<char>,
    pub password: Seq<char>,
    pub api_version: QbitApiVersion,
    pub authenticated: bool,
}

impl View for QbitClient {
    type V = QbitClientView;

    open spec fn view(&self) -> QbitClientView {
        QbitClientView {
            base_url: self.base_url@,
            username: self.username@,
            password: self.password@,
            api_version: self.api_version,
            authenticated: self.authenticated,
        }
    }
}

/// An HTTP request to the WebUI; POST bodies are form-encoded pairs.
#[derive(Debug)]
pub enum QbitRequest {
    Post { url: String, form: Vec<(String, String)> },
    Get { url: String },
}

/// The plain value of a [`QbitRequest`].
pub enum QbitRequestView {
    Post { url: Seq<char>, form: Seq<(Seq<char>, Seq<char>)> },
    Get { url: Seq<char> },
}

/// The plain value of a list of form pairs.
pub open spec fn form_view(form: Seq<(String, String)>) -> Seq<(Seq<char>, Seq<char>)> {
    form.map_values(|p: (String, String)| (p.0@, p.1@))
}

impl View for QbitRequest {
    type V = QbitRequestView;

    open spec fn view(&self) -> QbitRequestView {
        match self {
            QbitRequest::Post { url, form } => QbitRequestView::Post { url: url@, form: form_view(form@) },
            QbitRequest::Get { url } => QbitRequestView::Get { url: url@ },
        }
    }
}

/// What came back for a request.
#[derive(Debug)]
pub enum QbitResponse {
    /// The request could not be sent or answered; the transport's message.
    Transport(String),
    /// The status and the body as text, or the message of the failure to
    /// read it.
    Http { status: HttpStatus, body: Result<String, String> },
}

/// The plain value of a [`QbitResponse`].
pub enum QbitResponseView {
    Transport(Seq<char>),
    Http { status: u16, body: Result<Seq<char>, Seq<char>> },
}

impl View for QbitResponse {
    type V = QbitResponseView;

    open spec fn view(&self) -> QbitResponseView {
        match self {
            QbitResponse::Transport(e) => QbitResponseView::Transport(e@),
            QbitResponse::Http { status, body } => QbitResponseView::Http {
                status: status@,
                body: match body {
                    Ok(t) => Ok(t@),
                    Err(e) => Err(e@),
                },
            },
        }
    }
}

/// The request an operation is currently making (after any login).
#[derive(Debug, Clone, Copy, PartialEq, Eq, Structural)]
pub enum Target {
    Pause,
    Resume,
    ReadLimit(LimitKind),
    WriteLimit(LimitKind, u64),
    Version,
}

/// What an operation in flight waits for.
#[derive(Debug, Clone, Copy, PartialEq, Eq, Structural)]
pub enum Waiting {
    /// The response to the login POST.
    Login,
    /// The response to the target request.
    Target,
}

/// An operation in flight.
#[derive(Debug, Clone, Copy, PartialEq, Eq, Structural)]
pub struct QbitRun {
    pub op: QbitOp,
    pub target: Target,
    /// For pausing and resuming: whether the fallback endpoint is in use.
    pub on_fallback: bool,
    /// Whether the target request was already re-sent after a 403.
    pub retried: bool,
    pub waiting: Waiting,
    /// The download limit already read, while reading both limits.
    pub download: u64,
}

/// What to do next.
#[derive(Debug)]
pub enum QbitStep {
    /// Send the request and hand its response back with the run.
    Send(QbitRun, QbitRequest),
    Done(Result<QbitOutput, QbitError>),
}

/// The plain value of a [`QbitStep`].
pub enum QbitStepView {
    Send(QbitRun, QbitRequestView),
    Done(QbitResultView),
}

impl View for QbitStep {
    type V = QbitStepView;

    open spec fn view(&self) -> QbitStepView {
        match self {
            QbitStep::Send(r, q) => QbitStepView::Send(*r, q@),
            QbitStep::Done(r) => QbitStepView::Done(result_view(*r)),
        }
    }
}

// ---------------------------------------------------------------------------
// Specification
// ---------------------------------------------------------------------------

/// No credentials were entered: requests rely on the WebUI's
/// authentication bypass and no login is sent.
pub open spec fn credentials_blank(c: QbitClientView) -> bool {
    c.username.len() == 0 && c.password.len() == 0
}

/// The error reported when the server refuses a request with 403.
pub open spec fn auth_required_spec(c: QbitClientView) -> QbitErrorView {
    if credentials_blank(c) {
        QbitErrorView::RequestFailed(
            "authentication required: enter credentials, or enable \"Bypass authentication for clients on localhost\" in qBittorrent's WebUI settings"@,
        )
    } else {
        QbitErrorView::AuthFailed
    }
}

/// The error for a non-success status that isn't 403: typically a
/// different service answering on the configured URL.
pub open spec fn unexpected_status_spec(status: u16, url: Seq<char>) -> QbitErrorView {
    QbitErrorView::RequestFailed(
        "HTTP "@ + status_text(status) + " from "@ + url
            + " \u{2014} check that the URL points to a qBittorrent WebUI and the right client is selected in Settings"@,
    )
}

/// How a login response is judged: any 2xx whose body does not say
/// "Fails" logs in; otherwise a non-2xx reply with a message reports that
/// message; anything else is an authentication failure.
pub open spec fn login_outcome_spec(status: u16, text: Seq<char>) -> Result<(), QbitErrorView> {
    if is_success(status) && !contains(text, "Fails"@) {
        Ok(())
    } else if !is_success(status) && trimmed(text).len() > 0 && !contains(text, "Fails"@) {
        Err(QbitErrorView::RequestFailed(trimmed(text)))
    } else {
        Err(QbitErrorView::AuthFailed)
    }
}

/// The endpoint path of each pause/resume dialect.
pub open spec fn command_path(target: Target, api: QbitApiVersion, on_fallback: bool) -> Seq<char> {
    // qBittorrent 5.x (WebAPI >= 2.11) renamed pause/resume to stop/start.
    let new_names = (api == QbitApiVersion::V5) != on_fallback;
    match target {
        Target::Pause => if new_names {
            "/api/v2/torrents/stop"@
        } else {
            "/api/v2/torrents/pause"@
        },
        _ => if new_names {
            "/api/v2/torrents/start"@
        } else {
            "/api/v2/torrents/resume"@
        },
    }
}

/// The URL of the target request.
pub open spec fn target_url(c: QbitClientView, run: QbitRun) -> Seq<char> {
    c.base_url + match run.target {
        Target::Pause | Target::Resume => command_path(run.target, c.api_version, run.on_fallback),
        Target::ReadLimit(LimitKind::Download) => "/api/v2/transfer/downloadLimit"@,
        Target::ReadLimit(LimitKind::Upload) => "/api/v2/transfer/uploadLimit"@,
        Target::WriteLimit(LimitKind::Download, _) => "/api/v2/transfer/setDownloadLimit"@,
        Target::WriteLimit(LimitKind::Upload, _) => "/api/v2/transfer/setUploadLimit"@,
        Target::Version => "/api/v2/app/version"@,
    }
}

/// The target request itself.
pub open spec fn target_request(c: QbitClientView, run: QbitRun) -> QbitRequestView {
    let url = target_url(c, run);
    match run.target {
        Target::Pause | Target::Resume => QbitRequestView::Post {
            url,
            form: seq![("hashes"@, "all"@)],
        },
        Target::WriteLimit(_, n) => QbitRequestView::Post {
            url,
            form: seq![("limit"@, decimal(n as nat))],
        },
        _ => QbitRequestView::Get { url },
    }
}

/// The login POST.
pub open spec fn login_request(c: QbitClientView) -> QbitRequestView {
    QbitRequestView::Post {
        url: c.base_url + "/api/v2/auth/login"@,
        form: seq![("username"@, c.username), ("password"@, c.password)],
    }
}

/// Sends the target request of `run`.
pub open spec fn send_target(c: QbitClientView, run: QbitRun) -> (QbitClientView, QbitStepView) {
    (c, QbitStepView::Send(QbitRun { waiting: Waiting::Target, ..run }, target_request(c, run)))
}

/// Logs in, then continues with `run`'s target. With blank credentials
/// there is nothing to log in with: the session counts as authenticated
/// and the target request is sent at once.
pub open spec fn login_then(c: QbitClientView, run: QbitRun) -> (QbitClientView, QbitStepView) {
    if credentials_blank(c) {
        send_target(QbitClientView { authenticated: true, ..c }, run)
    } else {
        (c, QbitStepView::Send(QbitRun { waiting: Waiting::Login, ..run }, login_request(c)))
    }
}

/// Begins the target request of an operation, logging in first when the
/// session is not authenticated (or always, when `force_login`).
pub open spec fn enter(
    c: QbitClientView,
    op: QbitOp,
    target: Target,
    download: u64,
    force_login: bool,
) -> (QbitClientView, QbitStepView) {
    let run = QbitRun {
        op,
        target,
        on_fallback: false,
        retried: false,
        waiting: Waiting::Target,
        download,
    };
    if force_login || !c.authenticated {
        login_then(c, run)
    } else {
        send_target(c, run)
    }
}

/// The first step of each operation.
pub open spec fn start_spec(c: QbitClientView, op: QbitOp) -> (QbitClientView, QbitStepView) {
    match op {
        QbitOp::PauseAll => enter(c, op, Target::Pause, 0, false),
        QbitOp::ResumeAll => enter(c, op, Target::Resume, 0, false),
        QbitOp::GetDownloadLimit => enter(c, op, Target::ReadLimit(LimitKind::Download), 0, false),
        QbitOp::GetUploadLimit => enter(c, op, Target::ReadLimit(LimitKind::Upload), 0, false),
        QbitOp::GetSpeedLimits => enter(c, op, Target::ReadLimit(LimitKind::Download), 0, false),
        QbitOp::SetDownloadLimit(n) => enter(c, op, Target::WriteLimit(LimitKind::Download, n), 0, false),
        QbitOp::SetUploadLimit(n) => enter(c, op, Target::WriteLimit(LimitKind::Upload, n), 0, false),
        QbitOp::SetSpeedLimits(l) => enter(
            c,
            op,
            Target::WriteLimit(LimitKind::Download, l.download),
            0,
            false,
        ),
        // Always logs in, to test the credentials.
        QbitOp::TestConnection => enter(c, op, Target::Version, 0, true),
    }
}

/// An operation ends with an error.
pub open spec fn fail(c: QbitClientView, e: QbitErrorView) -> (QbitClientView, QbitStepView) {
    (c, QbitStepView::Done(Err(e)))
}

/// An operation ends with a result.
pub open spec fn succeed(c: QbitClientView, o: QbitOutputView) -> (QbitClientView, QbitStepView) {
    (c, QbitStepView::Done(Ok(o)))
}

/// The message for a limit that does not parse.
pub open spec fn parse_failure(kind: LimitKind, text: Seq<char>) -> Seq<char> {
    (match kind {
        LimitKind::Download => "failed to parse download limit: "@,
        LimitKind::Upload => "failed to parse upload limit: "@,
    }) + match parse_u64(text) {
        Err(k) => int_error_message(k),
        Ok(_) => Seq::empty(),
    }
}

/// After a successful target request: the operation's result, or its next
/// request (the upload half of reading or setting both limits).
pub open spec fn after_target(
    c: QbitClientView,
    run: QbitRun,
    text: Seq<char>,
) -> (QbitClientView, QbitStepView) {
    match run.target {
        Target::Pause | Target::Resume => succeed(c, QbitOutputView::Unit),
        Target::Version => succeed(c, QbitOutputView::Version(text)),
        Target::WriteLimit(LimitKind::Download, _) => match run.op {
            QbitOp::SetSpeedLimits(l) => enter(
                c,
                run.op,
                Target::WriteLimit(LimitKind::Upload, l.upload),
                0,
                false,
            ),
            _ => succeed(c, QbitOutputView::Unit),
        },
        Target::WriteLimit(LimitKind::Upload, _) => succeed(c, QbitOutputView::Unit),
        Target::ReadLimit(kind) => match parse_u64(trimmed(text)) {
            Err(_) => fail(c, QbitErrorView::RequestFailed(parse_failure(kind, trimmed(text)))),
            Ok(v) => if run.op == QbitOp::GetSpeedLimits && kind == LimitKind::Download {
                enter(c, run.op, Target::ReadLimit(LimitKind::Upload), v as u64, false)
            } else if run.op == QbitOp::GetSpeedLimits {
                succeed(
                    c,
                    QbitOutputView::Limits(SpeedLimits { download: run.download, upload: v as u64 }),
                )
            } else {
                succeed(c, QbitOutputView::Limit(v as u64))
            },
        },
    }
}

/// The target's request is a GET, whose body is read.
pub open spec fn is_get(t: Target) -> bool {
    t is ReadLimit || t is Version
}

/// The client and the next step after a response.
pub open spec fn respond_spec(c: QbitClientView, run: QbitRun, r: QbitResponseView) -> (
    QbitClientView,
    QbitStepView,
) {
    match r {
        QbitResponseView::Transport(e) => fail(c, QbitErrorView::RequestFailed(e)),
        QbitResponseView::Http { status, body } => match run.waiting {
            Waiting::Login => match body {
                Err(e) => fail(c, QbitErrorView::RequestFailed(e)),
                Ok(text) => match login_outcome_spec(status, text) {
                    Err(e) => fail(c, e),
                    Ok(()) => send_target(QbitClientView { authenticated: true, ..c }, run),
                },
            },
            Waiting::Target => if status == 403 && !run.retried {
                // Re-authenticate and retry once.
                login_then(QbitClientView { authenticated: false, ..c }, QbitRun { retried: true, ..run })
            } else if status == 403 {
                fail(c, auth_required_spec(c))
            } else if (run.target is Pause || run.target is Resume) && status == 404 && !run.on_fallback {
                // The endpoint does not exist: try the other dialect's.
                send_target(c, QbitRun { on_fallback: true, retried: false, ..run })
            } else if !is_success(status) {
                fail(c, unexpected_status_spec(status, target_url(c, run)))
            } else if is_get(run.target) {
                match body {
                    Err(e) => fail(c, QbitErrorView::RequestFailed(e)),
                    Ok(text) => after_target(c, run, text),
                }
            } else {
                after_target(c, run, Seq::empty())
            },
        },
    }
}

/// The value `HeaderValue::from_str` accepts: every byte of the text is a
/// tab or at least 32 and not DEL (non-ASCII characters encode as bytes of
/// 128 and up, which are accepted).
pub open spec fn header_value_valid(s: Seq<char>) -> bool {
    forall|i: int| 0 <= i < s.len() ==> (s[i] == '\t' || (s[i] as u32 >= 32 && s[i] as u32 != 127))
}

// ---------------------------------------------------------------------------
// Trusted call
// ---------------------------------------------------------------------------

/// `reqwest::header::HeaderValue::from_str`: succeeds exactly when every
/// byte of the text is a tab or in 32..=255 other than 127.
#[verifier::external_body]
fn header_value_ok(s: &str) -> (res: bool)
    ensures
        res == header_value_valid(s@),
{
    reqwest::header::HeaderValue::from_str(s).is_ok()
}

// ---------------------------------------------------------------------------
// Implementation
// ---------------------------------------------------------------------------

fn failed_str(m: &str) -> (res: QbitError)
    ensures
        res@ == QbitErrorView::RequestFailed(m@),
{
    QbitError::RequestFailed(String::from_str(m))
}

fn done_err(e: QbitError) -> (res: QbitStep)
    ensures
        res@ == QbitStepView::Done(Err(e@)),
{
    QbitStep::Done(Err(e))
}

fn done_ok(o: QbitOutput) -> (res: QbitStep)
    ensures
        res@ == QbitStepView::Done(Ok(o@)),
{
    QbitStep::Done(Ok(o))
}

fn pair(a: &str, b: &str) -> (res: (String, String))
    ensures
        res.0@ == a@,
        res.1@ == b@,
{
    (String::from_str(a), String::from_str(b))
}

/// Judges a login response; see [`login_outcome_spec`].
pub fn login_outcome(status: HttpStatus, text: &str) -> (res: Result<(), QbitError>)
    ensures
        match login_outcome_spec(status@, text@) {
            Ok(()) => res is Ok,
            Err(e) => res matches Err(x) && x@ == e,
        },
{
    let fails = str_contains(text, "Fails");
    if status.is_success() && !fails {
        Ok(())
    } else {
        let t = trim(text);
        if !status.is_success() && !str_is_empty(t.as_str()) && !fails {
            Err(QbitError::RequestFailed(t))
        } else {
            Err(QbitError::AuthFailed)
        }
    }
}

impl QbitClient {
    /// A client for the WebUI at `base_url` (trailing slashes dropped).
    pub fn new(base_url: &str, username: &str, password: &str, api_version: QbitApiVersion) -> (res:
        QbitClient)
        ensures
            res@.base_url == trim_end_char(base_url@, '/'),
            res@.username == username@,
            res@.password == password@,
            res@.api_version == api_version,
            !res@.authenticated,
    {
        QbitClient {
            base_url: trim_end_matches_char(base_url, '/'),
            username: String::from_str(username),
            password: String::from_str(password),
            api_version,
            authenticated: false,
        }
    }

    /// Headers every request carries: qBittorrent 5.x rejects requests
    /// without a Referer/Origin header matching the target host (CSRF
    /// protection), so both are set to the address when it is a valid
    /// header value.
    pub fn default_headers(&self) -> (res: Vec<(String, String)>)
        ensures
            header_value_valid(self.base_url@) ==> res@.len() == 2 && res@[0].0@ == "Referer"@
                && res@[0].1@ == self.base_url@ && res@[1].0@ == "Origin"@ && res@[1].1@
                == self.base_url@,
            !header_value_valid(self.base_url@) ==> res@.len() == 0,
    {
        let mut headers: Vec<(String, String)> = Vec::new();
        if header_value_ok(self.base_url.as_str()) {
            headers.push((String::from_str("Referer"), self.base_url.clone()));
            headers.push((String::from_str("Origin"), self.base_url.clone()));
        }
        headers
    }

    /// Whether the user left the credentials blank.
    pub fn credentials_blank(&self) -> (res: bool)
        ensures
            res == credentials_blank(self@),
    {
        str_is_empty(self.username.as_str()) && str_is_empty(self.password.as_str())
    }

    /// The error to report when the server refuses a request with 403.
    pub fn auth_required_error(&self) -> (res: QbitError)
        ensures
            res@ == auth_required_spec(self@),
    {
        if self.credentials_blank() {
            failed_str(
                "authentication required: enter credentials, or enable \"Bypass authentication for clients on localhost\" in qBittorrent's WebUI settings",
            )
        } else {
            QbitError::AuthFailed
        }
    }

    /// The error for a non-success status that isn't 403.
    pub fn unexpected_status_error(&self, status: HttpStatus, url: &str) -> (res: QbitError)
        ensures
            res@ == unexpected_status_spec(status@, url@),
    {
        let s = concat("HTTP ", status.text().as_str());
        let s = concat(s.as_str(), " from ");
        let s = concat(s.as_str(), url);
        let s = concat(
            s.as_str(),
            " \u{2014} check that the URL points to a qBittorrent WebUI and the right client is selected in Settings",
        );
        QbitError::RequestFailed(s)
    }

    fn target_url(&self, run: QbitRun) -> (res: String)
        ensures
            res@ == target_url(self@, run),
    {
        let new_names = (self.api_version == QbitApiVersion::V5) != run.on_fallback;
        let path = match run.target {
            Target::Pause => if new_names {
                "/api/v2/torrents/stop"
            } else {
                "/api/v2/torrents/pause"
            },
            Target::Resume => if new_names {
                "/api/v2/torrents/start"
            } else {
                "/api/v2/torrents/resume"
            },
            Target::ReadLimit(LimitKind::Download) => "/api/v2/transfer/downloadLimit",
            Target::ReadLimit(LimitKind::Upload) => "/api/v2/transfer/uploadLimit",
            Target::WriteLimit(LimitKind::Download, _) => "/api/v2/transfer/setDownloadLimit",
            Target::WriteLimit(LimitKind::Upload, _) => "/api/v2/transfer/setUploadLimit",
            Target::Version => "/api/v2/app/version",
        };
        concat(self.base_url.as_str(), path)
    }

    fn target_request(&self, run: QbitRun) -> (res: QbitRequest)
        ensures
            res@ == target_request(self@, run),
    {
        let url = self.target_url(run);
        match run.target {
            Target::Pause | Target::Resume => {
                let form = vec![pair("hashes", "all")];
                proof {
                    assert(form_view(form@) =~= seq![("hashes"@, "all"@)]);
                }
                QbitRequest::Post { url, form }
            },
            Target::WriteLimit(_, n) => {
                let form = vec![(String::from_str("limit"), u64_to_decimal(n))];
                proof {
                    assert(form_view(form@) =~= seq![("limit"@, decimal(n as nat))]);
                }
                QbitRequest::Post { url, form }
            },
            _ => QbitRequest::Get { url },
        }
    }

    fn login_request(&self) -> (res: QbitRequest)
        ensures
            res@ == login_request(self@),
    {
        let form = vec![
            (String::from_str("username"), self.username.clone()),
            (String::from_str("password"), self.password.clone()),
        ];
        proof {
            assert(form_view(form@) =~= seq![("username"@, self.username@), ("password"@, self.password@)]);
        }
        QbitRequest::Post { url: concat(self.base_url.as_str(), "/api/v2/auth/login"), form }
    }

    fn send_target(&self, run: QbitRun) -> (res: QbitStep)
        ensures
            res@ == send_target(self@, run).1,
    {
        QbitStep::Send(QbitRun { waiting: Waiting::Target, ..run }, self.target_request(run))
    }

    fn login_then(&mut self, run: QbitRun) -> (res: QbitStep)
        ensures
            (final(self)@, res@) == login_then(old(self)@, run),
    {
        if self.credentials_blank() {
            self.authenticated = true;
            self.send_target(run)
        } else {
            QbitStep::Send(QbitRun { waiting: Waiting::Login, ..run }, self.login_request())
        }
    }

    fn enter(&mut self, op: QbitOp, target: Target, download: u64, force_login: bool) -> (res: QbitStep)
        ensures
            (final(self)@, res@) == enter(old(self)@, op, target, download, force_login),
    {
        let run = QbitRun {
            op,
            target,
            on_fallback: false,
            retried: false,
            waiting: Waiting::Target,
            download,
        };
        if force_login || !self.authenticated {
            self.login_then(run)
        } else {
            self.send_target(run)
        }
    }

    /// Starts an operation; see [`start_spec`].
    pub fn start(&mut self, op: QbitOp) -> (res: QbitStep)
        ensures
            (final(self)@, res@) == start_spec(old(self)@, op),
    {
        match op {
            QbitOp::PauseAll => self.enter(op, Target::Pause, 0, false),
            QbitOp::ResumeAll => self.enter(op, Target::Resume, 0, false),
            QbitOp::GetDownloadLimit => self.enter(op, Target::ReadLimit(LimitKind::Download), 0, false),
            QbitOp::GetUploadLimit => self.enter(op, Target::ReadLimit(LimitKind::Upload), 0, false),
            QbitOp::GetSpeedLimits => self.enter(op, Target::ReadLimit(LimitKind::Download), 0, false),
            QbitOp::SetDownloadLimit(n) => self.enter(
                op,
                Target::WriteLimit(LimitKind::Download, n),
                0,
                false,
            ),
            QbitOp::SetUploadLimit(n) => self.enter(op, Target::WriteLimit(LimitKind::Upload, n), 0, false),
            QbitOp::SetSpeedLimits(l) => self.enter(
                op,
                Target::WriteLimit(LimitKind::Download, l.download),
                0,
                false,
            ),
            QbitOp::TestConnection => self.enter(op, Target::Version, 0, true),
        }
    }

    /// Starts pausing every torrent.
    pub fn pause_all(&mut self) -> (res: QbitStep)
        ensures
            (final(self)@, res@) == start_spec(old(self)@, QbitOp::PauseAll),
    {
        self.start(QbitOp::PauseAll)
    }

    /// Starts resuming every torrent.
    pub fn resume_all(&mut self) -> (res: QbitStep)
        ensures
            (final(self)@, res@) == start_spec(old(self)@, QbitOp::ResumeAll),
    {
        self.start(QbitOp::ResumeAll)
    }

    /// Starts reading the global download limit.
    pub fn get_download_limit(&mut self) -> (res: QbitStep)
        ensures
            (final(self)@, res@) == start_spec(old(self)@, QbitOp::GetDownloadLimit),
    {
        self.start(QbitOp::GetDownloadLimit)
    }

    /// Starts reading the global upload limit.
    pub fn get_upload_limit(&mut self) -> (res: QbitStep)
        ensures
            (final(self)@, res@) == start_spec(old(self)@, QbitOp::GetUploadLimit),
    {
        self.start(QbitOp::GetUploadLimit)
    }

    /// Starts reading both global limits.
    pub fn get_speed_limits(&mut self) -> (res: QbitStep)
        ensures
            (final(self)@, res@) == start_spec(old(self)@, QbitOp::GetSpeedLimits),
    {
        self.start(QbitOp::GetSpeedLimits)
    }

    /// Starts setting the global download limit.
    pub fn set_download_limit(&mut self, limit: u64) -> (res: QbitStep)
        ensures
            (final(self)@, res@) == start_spec(old(self)@, QbitOp::SetDownloadLimit(limit)),
    {
        self.start(QbitOp::SetDownloadLimit(limit))
    }

    /// Starts setting the global upload limit.
    pub fn set_upload_limit(&mut self, limit: u64) -> (res: QbitStep)
        ensures
            (final(self)@, res@) == start_spec(old(self)@, QbitOp::SetUploadLimit(limit)),
    {
        self.start(QbitOp::SetUploadLimit(limit))
    }

    /// Starts setting both global limits, download first.
    pub fn set_speed_limits(&mut self, limits: &SpeedLimits) -> (res: QbitStep)
        ensures
            (final(self)@, res@) == start_spec(old(self)@, QbitOp::SetSpeedLimits(*limits)),
    {
        self.start(QbitOp::SetSpeedLimits(*limits))
    }

    /// Starts asking the client for its version.
    pub fn test_connection(&mut self) -> (res: QbitStep)
        ensures
            (final(self)@, res@) == start_spec(old(self)@, QbitOp::TestConnection),
    {
        self.start(QbitOp::TestConnection)
    }

    fn after_target(&mut self, run: QbitRun, text: &str) -> (res: QbitStep)
        ensures
            (final(self)@, res@) == after_target(old(self)@, run, text@),
    {
        match run.target {
            Target::Pause | Target::Resume => done_ok(QbitOutput::Unit),
            Target::Version => done_ok(QbitOutput::Version(String::from_str(text))),
            Target::WriteLimit(LimitKind::Download, _) => match run.op {
                QbitOp::SetSpeedLimits(l) => self.enter(
                    run.op,
                    Target::WriteLimit(LimitKind::Upload, l.upload),
                    0,
                    false,
                ),
                _ => done_ok(QbitOutput::Unit),
            },
            Target::WriteLimit(LimitKind::Upload, _) => done_ok(QbitOutput::Unit),
            Target::ReadLimit(kind) => {
                let t = trim(text);
                match parse_u64_str(t.as_str()) {
                    Err(k) => {
                        let prefix = match kind {
                            LimitKind::Download => "failed to parse download limit: ",
                            LimitKind::Upload => "failed to parse upload limit: ",
                        };
                        done_err(QbitError::RequestFailed(concat(prefix, k.message().as_str())))
                    },
                    Ok(v) => {
                        if run.op == QbitOp::GetSpeedLimits && kind == LimitKind::Download {
                            self.enter(run.op, Target::ReadLimit(LimitKind::Upload), v, false)
                        } else if run.op == QbitOp::GetSpeedLimits {
                            done_ok(QbitOutput::Limits(SpeedLimits { download: run.download, upload: v }))
                        } else {
                            done_ok(QbitOutput::Limit(v))
                        }
                    },
                }
            },
        }
    }

    /// Takes the response to the last request of a run; see
    /// [`respond_spec`].
    pub fn on_response(&mut self, run: QbitRun, response: QbitResponse) -> (res: QbitStep)
        ensures
            (final(self)@, res@) == respond_spec(old(self)@, run, response@),
    {
        match response {
            QbitResponse::Transport(e) => done_err(QbitError::RequestFailed(e)),
            QbitResponse::Http { status, body } => match run.waiting {
                Waiting::Login => match body {
                    Err(e) => done_err(QbitError::RequestFailed(e)),
                    Ok(text) => match login_outcome(status, text.as_str()) {
                        Err(e) => done_err(e),
                        Ok(()) => {
                            self.authenticated = true;
                            self.send_target(run)
                        },
                    },
                },
                Waiting::Target => {
                    let code = status.code();
                    let is_command = match run.target {
                        Target::Pause | Target::Resume => true,
                        _ => false,
                    };
                    if code == 403 && !run.retried {
                        self.authenticated = false;
                        self.login_then(QbitRun { retried: true, ..run })
                    } else if code == 403 {
                        done_err(self.auth_required_error())
                    } else if is_command && code == 404 && !run.on_fallback {
                        self.send_target(QbitRun { on_fallback: true, retried: false, ..run })
                    } else if !status.is_success() {
                        let url = self.target_url(run);
                        done_err(self.unexpected_status_error(status, url.as_str()))
                    } else {
                        match run.target {
                            Target::ReadLimit(_) | Target::Version => match body {
                                Err(e) => done_err(QbitError::RequestFailed(e)),
                                Ok(text) => self.after_target(run, text.as_str()),
                            },
                            _ => {
                                proof {
                                    reveal_strlit("");
                                }
                                self.after_target(run, "")
                            },
                        }
                    }
                },
            },
        }
    }
}

// ---------------------------------------------------------------------------
// Laws
// ---------------------------------------------------------------------------

/// With blank credentials no login request is ever sent: starting any
/// operation, and re-authenticating after a 403, go straight to the target
/// request.
pub proof fn lemma_blank_credentials_never_log_in(c: QbitClientView, op: QbitOp, run: QbitRun)
    requires
        credentials_blank(c),
    ensures
        start_spec(c, op).1 matches QbitStepView::Send(r, _) ==> r.waiting == Waiting::Target,
        login_then(c, run).1 matches QbitStepView::Send(r, _) ==> r.waiting == Waiting::Target,
{
}

/// A 403 leads to exactly one re-authentication and one retry of the same
/// request; a 403 to the retry ends the operation with the
/// authentication-required error.
pub proof fn lemma_forbidden_retries_once(
    c: QbitClientView,
    run: QbitRun,
    body: Result<Seq<char>, Seq<char>>,
)
    requires
        run.waiting == Waiting::Target,
        !run.retried,
    ensures
        ({
            let (c1, step) = respond_spec(c, run, QbitResponseView::Http { status: 403, body });
            let retry = QbitRun { retried: true, ..run };
            &&& !credentials_blank(c) ==> (!c1.authenticated && step == QbitStepView::Send(
                QbitRun { waiting: Waiting::Login, ..retry },
                login_request(c),
            ))
            &&& credentials_blank(c) ==> step == QbitStepView::Send(
                QbitRun { waiting: Waiting::Target, ..retry },
                target_request(c1, retry),
            )
            &&& target_request(c1, retry) == target_request(c, run)
            &&& respond_spec(c1, QbitRun { waiting: Waiting::Target, ..retry }, QbitResponseView::Http { status: 403, body }).1
                == QbitStepView::Done(Err(auth_required_spec(c1)))
        }),
{
}

/// Without a session and with credentials entered, every operation first
/// posts the username and password to `/auth/login`; a 2xx reply that does
/// not say "Fails" marks the session logged in and moves on to the
/// operation's own request, and any other reply ends the operation with an
/// error.
pub proof fn lemma_login_first(c: QbitClientView, op: QbitOp, status: u16, text: Seq<char>)
    requires
        !c.authenticated,
        !credentials_blank(c),
    ensures
        match start_spec(c, op) {
            (c1, QbitStepView::Send(run, req)) => {
                &&& req == (QbitRequestView::Post {
                    url: c.base_url + "/api/v2/auth/login"@,
                    form: seq![("username"@, c.username), ("password"@, c.password)],
                })
                &&& match respond_spec(c1, run, QbitResponseView::Http { status, body: Ok(text) }) {
                    (c2, QbitStepView::Send(run2, _)) => is_success(status) && !contains(text, "Fails"@)
                        && c2.authenticated && run2.op == op && run2.waiting == Waiting::Target,
                    (_, QbitStepView::Done(r)) => r is Err && !(is_success(status) && !contains(
                        text,
                        "Fails"@,
                    )),
                }
            },
            _ => false,
        },
{
}

/// `req` is a POST to `url`.
pub open spec fn posts_to(req: QbitRequestView, url: Seq<char>) -> bool {
    match req {
        QbitRequestView::Post { url: u, .. } => u == url,
        _ => false,
    }
}

/// Setting both limits on a logged-in session posts the download limit,
/// as `limit=<download>` to `/transfer/setDownloadLimit`, and once that
/// succeeds posts the upload limit, as `limit=<upload>` to
/// `/transfer/setUploadLimit`; when that succeeds too, the operation is done.
pub proof fn lemma_set_speed_limits_sets_each(
    c: QbitClientView,
    l: SpeedLimits,
    status: u16,
    body: Result<Seq<char>, Seq<char>>,
    status2: u16,
    body2: Result<Seq<char>, Seq<char>>,
)
    requires
        c.authenticated,
        is_success(status),
        is_success(status2),
    ensures
        match start_spec(c, QbitOp::SetSpeedLimits(l)) {
            (c1, QbitStepView::Send(run, req)) => {
                &&& req == (QbitRequestView::Post {
                    url: c.base_url + "/api/v2/transfer/setDownloadLimit"@,
                    form: seq![("limit"@, decimal(l.download as nat))],
                })
                &&& match respond_spec(c1, run, QbitResponseView::Http { status, body }) {
                    (c2, QbitStepView::Send(run2, req2)) => {
                        &&& req2 == (QbitRequestView::Post {
                            url: c.base_url + "/api/v2/transfer/setUploadLimit"@,
                            form: seq![("limit"@, decimal(l.upload as nat))],
                        })
                        &&& respond_spec(c2, run2, QbitResponseView::Http { status: status2, body: body2 }).1
                            == QbitStepView::Done(Ok(QbitOutputView::Unit))
                    },
                    _ => false,
                }
            },
            _ => false,
        },
{
}

/// Reading both limits on a logged-in session GETs
/// `/transfer/downloadLimit`, then `/transfer/uploadLimit`, and reports the
/// two numbers read, download first, each from its own reply.
pub proof fn lemma_get_speed_limits_reads_each(c: QbitClientView, t1: Seq<char>, t2: Seq<char>, d: nat, u: nat)
    requires
        c.authenticated,
        parse_u64(trimmed(t1)) == Ok::<nat, crate::text::IntErrorKind>(d),
        parse_u64(trimmed(t2)) == Ok::<nat, crate::text::IntErrorKind>(u),
    ensures
        match start_spec(c, QbitOp::GetSpeedLimits) {
            (c1, QbitStepView::Send(run, req)) => {
                &&& req == (QbitRequestView::Get { url: c.base_url + "/api/v2/transfer/downloadLimit"@ })
                &&& match respond_spec(c1, run, QbitResponseView::Http { status: 200, body: Ok(t1) }) {
                    (c2, QbitStepView::Send(run2, req2)) => {
                        &&& req2 == (QbitRequestView::Get { url: c.base_url + "/api/v2/transfer/uploadLimit"@ })
                        &&& respond_spec(c2, run2, QbitResponseView::Http { status: 200, body: Ok(t2) }).1
                            == QbitStepView::Done(
                            Ok(QbitOutputView::Limits(SpeedLimits { download: d as u64, upload: u as u64 })),
                        )
                    },
                    _ => false,
                }
            },
            _ => false,
        },
{
}

/// A request of a resume run: the login POST, or a POST to
/// `/torrents/start` or `/torrents/resume`.
pub open spec fn resume_request(base: Seq<char>, req: QbitRequestView) -> bool {
    ||| posts_to(req, base + "/api/v2/auth/login"@)
    ||| posts_to(req, base + "/api/v2/torrents/start"@)
    ||| posts_to(req, base + "/api/v2/torrents/resume"@)
}

/// A request of a pause run: the login POST, or a POST to `/torrents/stop`
/// or `/torrents/pause`.
pub open spec fn pause_request(base: Seq<char>, req: QbitRequestView) -> bool {
    ||| posts_to(req, base + "/api/v2/auth/login"@)
    ||| posts_to(req, base + "/api/v2/torrents/stop"@)
    ||| posts_to(req, base + "/api/v2/torrents/pause"@)
}

/// Resuming never touches a stop or pause endpoint: every request of a
/// resume run is the login POST or a POST to `/torrents/start` or
/// `/torrents/resume`, the run stays a resume run, and it ends with no
/// value.
pub proof fn lemma_resume_never_stops(c: QbitClientView, run: QbitRun, r: QbitResponseView)
    requires
        run.op == QbitOp::ResumeAll,
        run.target == Target::Resume,
    ensures
        match start_spec(c, QbitOp::ResumeAll).1 {
            QbitStepView::Send(run1, req1) => run1.op == QbitOp::ResumeAll && run1.target == Target::Resume
                && resume_request(c.base_url, req1),
            QbitStepView::Done(_) => false,
        },
        match respond_spec(c, run, r).1 {
            QbitStepView::Send(run2, req2) => run2.op == QbitOp::ResumeAll && run2.target == Target::Resume
                && resume_request(c.base_url, req2),
            QbitStepView::Done(Ok(o)) => o == QbitOutputView::Unit,
            QbitStepView::Done(Err(_)) => true,
        },
{
}

/// Pausing never touches a start or resume endpoint: every request of a
/// pause run is the login POST or a POST to `/torrents/stop` or
/// `/torrents/pause`, the run stays a pause run, and it ends with no value.
pub proof fn lemma_pause_never_starts(c: QbitClientView, run: QbitRun, r: QbitResponseView)
    requires
        run.op == QbitOp::PauseAll,
        run.target == Target::Pause,
    ensures
        match start_spec(c, QbitOp::PauseAll).1 {
            QbitStepView::Send(run1, req1) => run1.op == QbitOp::PauseAll && run1.target == Target::Pause
                && pause_request(c.base_url, req1),
            QbitStepView::Done(_) => false,
        },
        match respond_spec(c, run, r).1 {
            QbitStepView::Send(run2, req2) => run2.op == QbitOp::PauseAll && run2.target == Target::Pause
                && pause_request(c.base_url, req2),
            QbitStepView::Done(Ok(o)) => o == QbitOutputView::Unit,
            QbitStepView::Done(Err(_)) => true,
        },
{
}

/// On a logged-in session, resuming posts `hashes=all` to
/// `/torrents/start` with the 5.x dialect and to `/torrents/resume` with
/// 4.x, and after a 404 posts the same form to the other one.
pub proof fn lemma_resume_order(c: QbitClientView, body: Result<Seq<char>, Seq<char>>)
    requires
        c.authenticated,
    ensures
        ({
            let (first, second) = if c.api_version == QbitApiVersion::V5 {
                ("/api/v2/torrents/start"@, "/api/v2/torrents/resume"@)
            } else {
                ("/api/v2/torrents/resume"@, "/api/v2/torrents/start"@)
            };
            match start_spec(c, QbitOp::ResumeAll) {
                (c1, QbitStepView::Send(run, req)) => {
                    &&& req == (QbitRequestView::Post {
                        url: c.base_url + first,
                        form: seq![("hashes"@, "all"@)],
                    })
                    &&& match respond_spec(c1, run, QbitResponseView::Http { status: 404, body }).1 {
                        QbitStepView::Send(_, req2) => req2 == (QbitRequestView::Post {
                            url: c.base_url + second,
                            form: seq![("hashes"@, "all"@)],
                        }),
                        _ => false,
                    }
                },
                _ => false,
            }
        }),
{
}

/// Pausing with the 5.x dialect posts to `/torrents/stop` first, moves to
/// `/torrents/pause` only when that endpoint does not exist (404), and
/// reports any other non-success status as an error naming it.
pub proof fn lemma_pause_fallback(c: QbitClientView, status: u16, body: Result<Seq<char>, Seq<char>>)
    requires
        c.authenticated,
        c.api_version == QbitApiVersion::V5,
        100 <= status <= 999,
    ensures
        ({
            let run = QbitRun {
                op: QbitOp::PauseAll,
                target: Target::Pause,
                on_fallback: false,
                retried: false,
                waiting: Waiting::Target,
                download: 0,
            };
            let fallback = QbitRun { on_fallback: true, ..run };
            &&& start_spec(c, QbitOp::PauseAll) == (c, QbitStepView::Send(run, target_request(c, run)))
            &&& target_url(c, run) == c.base_url + "/api/v2/torrents/stop"@
            &&& target_url(c, fallback) == c.base_url + "/api/v2/torrents/pause"@
            &&& status == 404 ==> respond_spec(c, run, QbitResponseView::Http { status, body }) == (
                c,
                QbitStepView::Send(fallback, target_request(c, fallback)),
            )
            &&& (status != 404 && status != 403 && !is_success(status)) ==> respond_spec(
                c,
                run,
                QbitResponseView::Http { status, body },
            ).1 == QbitStepView::Done(Err(unexpected_status_spec(status, target_url(c, run))))
            &&& is_success(status) ==> respond_spec(c, run, QbitResponseView::Http { status, body }).1
                == QbitStepView::Done(Ok(QbitOutputView::Unit))
        }),
{
}

/// A login is accepted by any 2xx reply unless it says "Fails"; a reply
/// that says "Fails" is an authentication failure whatever its status.
pub proof fn lemma_login_fails_marker(status: u16, text: Seq<char>)
    ensures
        contains(text, "Fails"@) ==> login_outcome_spec(status, text) == Err::<(), QbitErrorView>(
            QbitErrorView::AuthFailed,
        ),
        (is_success(status) && !contains(text, "Fails"@)) ==> login_outcome_spec(status, text) is Ok,
{
}

} // verus!
