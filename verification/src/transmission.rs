//! Transmission RPC client. Speaks the JSON-over-HTTP protocol documented in
//! Transmission's rpc-spec: a single endpoint, `{"method", "arguments"}`
//! bodies, HTTP basic auth, and a CSRF handshake where the server replies
//! 409 with an `X-Transmission-Session-Id` header to echo back.
//!
//! Each operation is one RPC. [`TransmissionClient::start`] gives the first
//! POST to send; [`TransmissionClient::on_response`] takes what came back
//! and either asks for the POST to be sent again (after the session-id
//! handshake) or gives the operation's result. The HTTP traffic itself is
//! carried outside this crate.

use vstd::prelude::*;
use vstd::string::*;
use crate::client::SpeedLimits;
use crate::http::{HttpStatus, is_success, status_text};
use crate::json::{
    JsonDocument, JsonDocumentView, JsonField, JsonFieldView, JsonLeaf, JsonLeafView, JsonMember,
    JsonObject, JsonObjectView, JsonTopMember, as_bool, as_str, as_u64, doc_get, lookup,
};
use crate::text::{concat, ends_with, str_ends_with, str_eq, str_is_empty, trim, trim_end_char,
    trim_end_matches_char, trimmed};

verus! {

/// Transmission uses SI units: RPC speed limits are in "KBps" meaning
/// thousands of bytes per second.
pub const KBPS: u64 = 1000;

/// Errors from the Transmission client.
#[derive(Debug, Clone, PartialEq, Eq)]
pub enum TransmissionError {
    AuthFailed,
    RequestFailed(String),
}

/// The plain value of a [`TransmissionError`].
pub enum TransmissionErrorView {
    AuthFailed,
    RequestFailed(Seq<char>),
}

impl View for TransmissionError {
    type V = TransmissionErrorView;

    open spec fn view(&self) -> TransmissionErrorView {
        match self {
            TransmissionError::AuthFailed => TransmissionErrorView::AuthFailed,
            TransmissionError::RequestFailed(m) => TransmissionErrorView::RequestFailed(m@),
        }
    }
}

/// The text an error displays.
pub open spec fn error_text(e: TransmissionErrorView) -> Seq<char> {
    match e {
        TransmissionErrorView::AuthFailed => "Authentication failed"@,
        TransmissionErrorView::RequestFailed(m) => "Request failed: "@ + m,
    }
}

impl TransmissionError {
    /// The text this error displays.
    pub fn message(&self) -> (res: String)
        ensures
            res@ == error_text(self@),
    {
        match self {
            TransmissionError::AuthFailed => String::from_str("Authentication failed"),
            TransmissionError::RequestFailed(m) => concat("Request failed: ", m.as_str()),
        }
    }
}

/// The operations the client offers.
#[derive(Debug, Clone, Copy, PartialEq, Eq, Structural)]
pub enum TransmissionOp {
    PauseAll,
    ResumeAll,
    GetSpeedLimits,
    SetSpeedLimits(SpeedLimits),
    TestConnection,
}

/// What a successful operation returns.
#[derive(Debug)]
pub enum TransmissionOutput {
    /// Pausing, resuming and setting limits return nothing.
    Unit,
    /// Both global speed limits (bytes/sec, 0 = unlimited).
    Limits(SpeedLimits),
    /// The server version, e.g. "4.0.6".
    Version(String),
}

/// The plain value of a [`TransmissionOutput`].
pub enum TransmissionOutputView {
    Unit,
    Limits(SpeedLimits),
    Version(Seq<char>),
}

impl View for TransmissionOutput {
    type V = TransmissionOutputView;

    open spec fn view(&self) -> TransmissionOutputView {
        match self {
            TransmissionOutput::Unit => TransmissionOutputView::Unit,
            TransmissionOutput::Limits(l) => TransmissionOutputView::Limits(*l),
            TransmissionOutput::Version(v) => TransmissionOutputView::Version(v@),
        }
    }
}

/// The result of an operation, as plain values.
pub type OpResultView = Result<TransmissionOutputView, TransmissionErrorView>;

/// The plain value of an operation's result.
pub open spec fn result_view(r: Result<TransmissionOutput, TransmissionError>) -> OpResultView {
    match r {
        Ok(o) => Ok(o@),
        Err(e) => Err(e@),
    }
}

/// A Transmission RPC endpoint with its credentials and the CSRF token the
/// server handed out, if any.
#[derive(Debug)]
pub struct TransmissionClient {
    pub rpc_url: String,
    pub username: String,
    pub password: String,
    /// CSRF token handed out by the server via a 409 response.
    pub session_id: Option<String>,
}

/// The plain value of a [`TransmissionClient`].
pub struct TransmissionClientView {
    pub rpc_url: Seq<char>,
    pub username: Seq<char>,
    pub password: Seq<char>,
    pub session_id: Option<Seq<char>>,
}

impl View for TransmissionClient {
    type V = TransmissionClientView;

    open spec fn view(&self) -> TransmissionClientView {
        TransmissionClientView {
            rpc_url: self.rpc_url@,
            username: self.username@,
            password: self.password@,
            session_id: crate::engine::opt_view(self.session_id),
        }
    }
}

/// A POST to the RPC endpoint.
#[derive(Debug)]
pub struct RpcPost {
    pub url: String,
    /// Credentials for HTTP basic auth, when any are set.
    pub basic_auth: Option<(String, String)>,
    /// Value of the `X-Transmission-Session-Id` header, when one is known.
    pub session_id: Option<String>,
    pub body: JsonDocument,
}

/// The plain value of an [`RpcPost`].
pub struct RpcPostView {
    pub url: Seq<char>,
    pub basic_auth: Option<(Seq<char>, Seq<char>)>,
    pub session_id: Option<Seq<char>>,
    pub body: JsonDocumentView,
}

impl View for RpcPost {
    type V = RpcPostView;

    open spec fn view(&self) -> RpcPostView {
        RpcPostView {
            url: self.url@,
            basic_auth: match self.basic_auth {
                Some((u, p)) => Some((u@, p@)),
                None => None,
            },
            session_id: crate::engine::opt_view(self.session_id),
            body: self.body@,
        }
    }
}

/// What came back for a POST.
#[derive(Debug)]
pub enum RpcResponse {
    /// The request could not be sent or answered; the transport's message.
    Transport(String),
    Http {
        status: HttpStatus,
        /// The `X-Transmission-Session-Id` header, when present and text.
        session_id: Option<String>,
        /// The body parsed as JSON, or the parser's message.
        body: Result<JsonDocument, String>,
    },
}

/// The plain value of an [`RpcResponse`].
pub enum RpcResponseView {
    Transport(Seq<char>),
    Http { status: u16, session_id: Option<Seq<char>>, body: Result<JsonDocumentView, Seq<char>> },
}

impl View for RpcResponse {
    type V = RpcResponseView;

    open spec fn view(&self) -> RpcResponseView {
        match self {
            RpcResponse::Transport(e) => RpcResponseView::Transport(e@),
            RpcResponse::Http { status, session_id, body } => RpcResponseView::Http {
                status: status@,
                session_id: crate::engine::opt_view(*session_id),
                body: match body {
                    Ok(d) => Ok(d@),
                    Err(e) => Err(e@),
                },
            },
        }
    }
}

/// An RPC in flight.
#[derive(Debug, Clone, Copy, PartialEq, Eq, Structural)]
pub struct RpcExchange {
    pub op: TransmissionOp,
    /// Whether the POST was already sent again after a 409.
    pub retried: bool,
}

/// What to do after a response.
#[derive(Debug)]
pub enum RpcStep {
    /// Send this POST and hand its response back with the exchange.
    Send(RpcExchange, RpcPost),
    /// The operation is over.
    Done(Result<TransmissionOutput, TransmissionError>),
}

/// The plain value of an [`RpcStep`].
pub enum RpcStepView {
    Send(RpcExchange, RpcPostView),
    Done(OpResultView),
}

impl View for RpcStep {
    type V = RpcStepView;

    open spec fn view(&self) -> RpcStepView {
        match self {
            RpcStep::Send(ex, p) => RpcStepView::Send(*ex, p@),
            RpcStep::Done(r) => RpcStepView::Done(result_view(*r)),
        }
    }
}

// ---------------------------------------------------------------------------
// Specification
// ---------------------------------------------------------------------------

/// The RPC endpoint for a configured address: a trailing `/rpc` path is
/// kept as given, anything else gets `/transmission/rpc` appended.
pub open spec fn rpc_url_spec(base_url: Seq<char>) -> Seq<char> {
    let base = trim_end_char(base_url, '/');
    if ends_with(base, "/rpc"@) {
        base
    } else {
        base + "/transmission/rpc"@
    }
}

/// No credentials were entered.
pub open spec fn credentials_blank(c: TransmissionClientView) -> bool {
    c.username.len() == 0 && c.password.len() == 0
}

/// The error reported when the server answers 401.
pub open spec fn auth_required_spec(c: TransmissionClientView) -> TransmissionErrorView {
    if credentials_blank(c) {
        TransmissionErrorView::RequestFailed(
            "authentication required: enter the username and password from Transmission's remote access settings"@,
        )
    } else {
        TransmissionErrorView::AuthFailed
    }
}

/// The RPC method of each operation.
pub open spec fn method_spec(op: TransmissionOp) -> Seq<char> {
    match op {
        TransmissionOp::PauseAll => "torrent-stop"@,
        TransmissionOp::ResumeAll => "torrent-start"@,
        TransmissionOp::SetSpeedLimits(_) => "session-set"@,
        _ => "session-get"@,
    }
}

/// A limit in bytes/sec as Transmission's KBps, rounded down but never
/// below 1, so that a small nonzero limit never becomes a stalled 0.
pub open spec fn to_kbps(bytes: u64) -> u64 {
    if bytes / KBPS < 1 {
        1
    } else {
        (bytes / KBPS) as u64
    }
}

/// One `session-set` member pair for a limit: enabled when nonzero, and
/// the value only then (a zero limit leaves the stored value untouched).
pub open spec fn limit_args(field: Seq<char>, bytes: u64) -> JsonObjectView {
    let enabled = seq![(field + "-enabled"@, JsonLeafView::Bool(bytes > 0))];
    if bytes > 0 {
        enabled.push((field, JsonLeafView::UInt(to_kbps(bytes))))
    } else {
        enabled
    }
}

/// The arguments of each operation; omitting "ids" applies a request to
/// all torrents.
pub open spec fn arguments_spec(op: TransmissionOp) -> JsonObjectView {
    match op {
        TransmissionOp::PauseAll => Seq::empty(),
        TransmissionOp::ResumeAll => Seq::empty(),
        TransmissionOp::GetSpeedLimits => seq![
            (
                "fields"@,
                JsonLeafView::StrArray(
                    seq![
                        "speed-limit-down"@,
                        "speed-limit-down-enabled"@,
                        "speed-limit-up"@,
                        "speed-limit-up-enabled"@,
                    ],
                ),
            ),
        ],
        TransmissionOp::SetSpeedLimits(l) => limit_args("speed-limit-down"@, l.download)
            + limit_args("speed-limit-up"@, l.upload),
        TransmissionOp::TestConnection => seq![
            ("fields"@, JsonLeafView::StrArray(seq!["version"@])),
        ],
    }
}

/// The body of each operation's POST.
pub open spec fn body_spec(op: TransmissionOp) -> JsonDocumentView {
    JsonDocumentView::Object(
        seq![
            ("method"@, JsonFieldView::Leaf(JsonLeafView::Str(method_spec(op)))),
            ("arguments"@, JsonFieldView::Object(arguments_spec(op))),
        ],
    )
}

/// The POST for an operation: basic auth unless the credentials are blank,
/// and the session id when one is known.
pub open spec fn request_spec(c: TransmissionClientView, op: TransmissionOp) -> RpcPostView {
    RpcPostView {
        url: c.rpc_url,
        basic_auth: if credentials_blank(c) {
            None
        } else {
            Some((c.username, c.password))
        },
        session_id: c.session_id,
        body: body_spec(op),
    }
}

/// The reply's "result" member as a string, or empty.
pub open spec fn result_field(doc: JsonDocumentView) -> Seq<char> {
    match doc_get(doc, "result"@) {
        Some(JsonFieldView::Leaf(JsonLeafView::Str(s))) => s,
        _ => Seq::empty(),
    }
}

/// The reply's "arguments" object (no members when it is missing or not
/// an object).
pub open spec fn reply_args(doc: JsonDocumentView) -> JsonObjectView {
    match doc_get(doc, "arguments"@) {
        Some(JsonFieldView::Object(o)) => o,
        _ => Seq::empty(),
    }
}

/// An error with a message.
pub open spec fn failed(m: Seq<char>) -> TransmissionErrorView {
    TransmissionErrorView::RequestFailed(m)
}

/// One limit read from a `session-get` reply, in bytes/sec; a disabled
/// limit is unlimited (0).
pub open spec fn read_limit_spec(args: JsonObjectView, field: Seq<char>) -> Result<u64, TransmissionErrorView> {
    match as_bool(lookup(args, field + "-enabled"@)) {
        None => Err(failed("session-get reply missing "@ + field + "-enabled"@)),
        Some(false) => Ok(0),
        Some(true) => match as_u64(lookup(args, field)) {
            None => Err(failed("session-get reply missing "@ + field)),
            Some(k) => Ok((k * KBPS) as u64),
        },
    }
}

/// Both limits read from a `session-get` reply, download first.
pub open spec fn limits_spec(args: JsonObjectView) -> OpResultView {
    match read_limit_spec(args, "speed-limit-down"@) {
        Err(e) => Err(e),
        Ok(d) => match read_limit_spec(args, "speed-limit-up"@) {
            Err(e) => Err(e),
            Ok(u) => Ok(TransmissionOutputView::Limits(SpeedLimits { download: d, upload: u })),
        },
    }
}

/// The trimmed version from a `session-get` reply, which must not be empty.
pub open spec fn version_spec(args: JsonObjectView) -> OpResultView {
    let v = match as_str(lookup(args, "version"@)) {
        Some(s) => trimmed(s),
        None => Seq::empty(),
    };
    if v.len() == 0 {
        Err(failed("session-get reply missing version"@))
    } else {
        Ok(TransmissionOutputView::Version(v))
    }
}

/// What an operation returns for the arguments of a successful reply.
pub open spec fn finish_spec(op: TransmissionOp, args: JsonObjectView) -> OpResultView {
    match op {
        TransmissionOp::GetSpeedLimits => limits_spec(args),
        TransmissionOp::TestConnection => version_spec(args),
        _ => Ok(TransmissionOutputView::Unit),
    }
}

/// The result of an operation for a final HTTP response.
pub open spec fn outcome_spec(
    c: TransmissionClientView,
    op: TransmissionOp,
    status: u16,
    body: Result<JsonDocumentView, Seq<char>>,
) -> OpResultView {
    if status == 401 {
        Err(auth_required_spec(c))
    } else if status == 403 {
        Err(failed("forbidden: check Transmission's rpc-whitelist settings"@))
    } else if status == 409 {
        Err(failed("could not negotiate a session id"@))
    } else if !is_success(status) {
        Err(failed("HTTP "@ + status_text(status)))
    } else {
        match body {
            Err(e) => Err(failed("invalid RPC reply: "@ + e)),
            Ok(doc) => {
                let r = result_field(doc);
                if r != "success"@ {
                    Err(
                        failed(
                            if r.len() == 0 {
                                "RPC reply missing result field"@
                            } else {
                                r
                            },
                        ),
                    )
                } else {
                    finish_spec(op, reply_args(doc))
                }
            },
        }
    }
}

/// The client and the next step after a response. A first 409 carries the
/// fresh session id: it is kept and the same POST is sent again with it.
pub open spec fn respond_spec(
    c: TransmissionClientView,
    ex: RpcExchange,
    r: RpcResponseView,
) -> (TransmissionClientView, RpcStepView) {
    match r {
        RpcResponseView::Transport(e) => (c, RpcStepView::Done(Err(failed(e)))),
        RpcResponseView::Http { status, session_id, body } => if status == 409 && !ex.retried {
            match session_id {
                None => (
                    c,
                    RpcStepView::Done(Err(failed("server sent 409 without a session id header"@))),
                ),
                Some(id) => {
                    let c1 = TransmissionClientView { session_id: Some(id), ..c };
                    (
                        c1,
                        RpcStepView::Send(
                            RpcExchange { op: ex.op, retried: true },
                            request_spec(c1, ex.op),
                        ),
                    )
                },
            }
        } else {
            (c, RpcStepView::Done(outcome_spec(c, ex.op, status, body)))
        },
    }
}

/// Reading `field` multiplies its KBps value past `u64::MAX`: the limit is
/// enabled and its value times 1000 does not fit in 64 bits.
pub open spec fn limit_overflows(args: JsonObjectView, field: Seq<char>) -> bool {
    &&& as_bool(lookup(args, field + "-enabled"@)) == Some(true)
    &&& as_u64(lookup(args, field)) matches Some(k) && k * KBPS > u64::MAX
}

/// Reading the limits of a `session-get` reply never overflows: neither the
/// download limit, read first, nor the upload limit when the download limit
/// was read.
pub open spec fn limits_fit(args: JsonObjectView) -> bool {
    &&& !limit_overflows(args, "speed-limit-down"@)
    &&& read_limit_spec(args, "speed-limit-down"@) is Ok ==> !limit_overflows(args, "speed-limit-up"@)
}

/// A response the client can take: a successful `session-get` reply for the
/// speed limits must hold limits that convert to bytes/sec without
/// overflow.
pub open spec fn response_fits(op: TransmissionOp, r: RpcResponseView) -> bool {
    match r {
        RpcResponseView::Http { status, body: Ok(doc), .. } => {
            op == TransmissionOp::GetSpeedLimits && is_success(status) && result_field(doc) == "success"@
                ==> limits_fit(reply_args(doc))
        },
        _ => true,
    }
}

// ---------------------------------------------------------------------------
// Implementation
// ---------------------------------------------------------------------------

fn fail(m: String) -> (res: TransmissionError)
    ensures
        res@ == failed(m@),
{
    TransmissionError::RequestFailed(m)
}

fn fail_str(m: &str) -> (res: TransmissionError)
    ensures
        res@ == failed(m@),
{
    TransmissionError::RequestFailed(String::from_str(m))
}

fn member(key: &str, value: JsonLeaf) -> (res: JsonMember)
    ensures
        res.key@ == key@,
        res.value == value,
{
    JsonMember { key: String::from_str(key), value }
}

fn push_limit_args(members: &mut Vec<JsonMember>, field: &str, bytes: u64)
    ensures
        final(members)@.map_values(|m: JsonMember| (m.key@, m.value@)) == old(members)@.map_values(
            |m: JsonMember| (m.key@, m.value@),
        ) + limit_args(field@, bytes),
{
    let ghost before = members@.map_values(|m: JsonMember| (m.key@, m.value@));
    members.push(member(concat(field, "-enabled").as_str(), JsonLeaf::Bool(bytes > 0)));
    if bytes > 0 {
        let k = bytes / KBPS;
        let kbps = if k < 1 {
            1
        } else {
            k
        };
        members.push(member(field, JsonLeaf::UInt(kbps)));
    }
    proof {
        assert(members@.map_values(|m: JsonMember| (m.key@, m.value@)) =~= before + limit_args(
            field@,
            bytes,
        ));
    }
}

fn str_list(items: Vec<&str>) -> (res: Vec<String>)
    ensures
        res@.len() == items@.len(),
        forall|i: int| 0 <= i < items@.len() ==> #[trigger] res@[i]@ == items@[i]@,
{
    let mut res: Vec<String> = Vec::new();
    let mut i: usize = 0;
    while i < items.len()
        invariant
            i <= items@.len(),
            res@.len() == i,
            forall|k: int| 0 <= k < i ==> #[trigger] res@[k]@ == items@[k]@,
        decreases items@.len() - i,
    {
        res.push(String::from_str(items[i]));
        i += 1;
    }
    res
}

/// The arguments object of an operation.
fn arguments(op: TransmissionOp) -> (res: JsonObject)
    ensures
        res@ == arguments_spec(op),
{
    let mut members: Vec<JsonMember> = Vec::new();
    match op {
        TransmissionOp::PauseAll | TransmissionOp::ResumeAll => {
            proof {
                assert(members@.map_values(|m: JsonMember| (m.key@, m.value@)) =~= arguments_spec(op));
            }
        },
        TransmissionOp::GetSpeedLimits => {
            let fields = str_list(
                vec![
                    "speed-limit-down",
                    "speed-limit-down-enabled",
                    "speed-limit-up",
                    "speed-limit-up-enabled",
                ],
            );
            members.push(member("fields", JsonLeaf::StrArray(fields)));
            proof {
                let v = members@.map_values(|m: JsonMember| (m.key@, m.value@));
                assert(crate::text::views(fields@) =~= seq![
                    "speed-limit-down"@,
                    "speed-limit-down-enabled"@,
                    "speed-limit-up"@,
                    "speed-limit-up-enabled"@,
                ]);
                assert(v =~= arguments_spec(op));
            }
        },
        TransmissionOp::TestConnection => {
            let fields = str_list(vec!["version"]);
            members.push(member("fields", JsonLeaf::StrArray(fields)));
            proof {
                let v = members@.map_values(|m: JsonMember| (m.key@, m.value@));
                assert(crate::text::views(fields@) =~= seq!["version"@]);
                assert(v =~= arguments_spec(op));
            }
        },
        TransmissionOp::SetSpeedLimits(l) => {
            proof {
                assert(members@.map_values(|m: JsonMember| (m.key@, m.value@)) =~= Seq::empty());
            }
            push_limit_args(&mut members, "speed-limit-down", l.download);
            push_limit_args(&mut members, "speed-limit-up", l.upload);
            proof {
                assert(members@.map_values(|m: JsonMember| (m.key@, m.value@)) =~= arguments_spec(op));
            }
        },
    }
    JsonObject { members }
}

/// The method name of an operation.
fn method(op: TransmissionOp) -> (res: String)
    ensures
        res@ == method_spec(op),
{
    match op {
        TransmissionOp::PauseAll => String::from_str("torrent-stop"),
        TransmissionOp::ResumeAll => String::from_str("torrent-start"),
        TransmissionOp::SetSpeedLimits(_) => String::from_str("session-set"),
        _ => String::from_str("session-get"),
    }
}

/// The POST body of an operation.
pub fn body(op: TransmissionOp) -> (res: JsonDocument)
    ensures
        res@ == body_spec(op),
{
    let mut members: Vec<JsonTopMember> = Vec::new();
    members.push(
        JsonTopMember {
            key: String::from_str("method"),
            value: JsonField::Leaf(JsonLeaf::Str(method(op))),
        },
    );
    members.push(
        JsonTopMember { key: String::from_str("arguments"), value: JsonField::Object(arguments(op)) },
    );
    let res = JsonDocument::Object(members);
    proof {
        if let JsonDocumentView::Object(m) = res@ {
            assert(m =~= seq![
                ("method"@, JsonFieldView::Leaf(JsonLeafView::Str(method_spec(op)))),
                ("arguments"@, JsonFieldView::Object(arguments_spec(op))),
            ]);
        }
    }
    res
}

/// One limit read from the reply arguments.
fn read_limit(args: &JsonObject, field: &str) -> (res: Result<u64, TransmissionError>)
    requires
        !limit_overflows(args@, field@),
    ensures
        match read_limit_spec(args@, field@) {
            Ok(v) => res matches Ok(x) && x == v,
            Err(e) => res matches Err(x) && x@ == e,
        },
{
    let enabled_key = concat(field, "-enabled");
    match args.get_bool(enabled_key.as_str()) {
        None => Err(fail(concat(concat("session-get reply missing ", field).as_str(), "-enabled"))),
        Some(false) => Ok(0),
        Some(true) => match args.get_u64(field) {
            None => Err(fail(concat("session-get reply missing ", field))),
            Some(k) => Ok(k * KBPS),
        },
    }
}

/// The arguments object of a reply.
fn reply_arguments(doc: &JsonDocument) -> (res: Option<&JsonObject>)
    ensures
        match res {
            Some(o) => reply_args(doc@) == o@,
            None => reply_args(doc@) == Seq::<(Seq<char>, JsonLeafView)>::empty(),
        },
{
    match doc.get("arguments") {
        Some(JsonField::Object(o)) => Some(o),
        _ => None,
    }
}

/// What an operation returns for the arguments of a successful reply.
fn finish(op: TransmissionOp, doc: &JsonDocument) -> (res: Result<TransmissionOutput, TransmissionError>)
    requires
        op == TransmissionOp::GetSpeedLimits ==> limits_fit(reply_args(doc@)),
    ensures
        result_view(res) == finish_spec(op, reply_args(doc@)),
{
    let empty = JsonObject { members: Vec::new() };
    proof {
        assert(empty@ =~= Seq::<(Seq<char>, JsonLeafView)>::empty());
    }
    let args = match reply_arguments(doc) {
        Some(o) => o,
        None => &empty,
    };
    match op {
        TransmissionOp::GetSpeedLimits => {
            proof {
                reveal_strlit("speed-limit-down");
                reveal_strlit("speed-limit-up");
                reveal_strlit("-enabled");
                reveal_strlit("speed-limit-down-enabled");
                reveal_strlit("speed-limit-up-enabled");
                assert("speed-limit-down"@ + "-enabled"@ =~= "speed-limit-down-enabled"@);
                assert("speed-limit-up"@ + "-enabled"@ =~= "speed-limit-up-enabled"@);
            }
            let download = match read_limit(args, "speed-limit-down") {
                Ok(d) => d,
                Err(e) => return Err(e),
            };
            let upload = match read_limit(args, "speed-limit-up") {
                Ok(u) => u,
                Err(e) => return Err(e),
            };
            Ok(TransmissionOutput::Limits(SpeedLimits { download, upload }))
        },
        TransmissionOp::TestConnection => {
            let version = match args.get_str("version") {
                Some(s) => trim(s.as_str()),
                None => String::new(),
            };
            if str_is_empty(version.as_str()) {
                Err(fail_str("session-get reply missing version"))
            } else {
                Ok(TransmissionOutput::Version(version))
            }
        },
        _ => Ok(TransmissionOutput::Unit),
    }
}


/// Whether reading `field` from the reply arguments overflows; see
/// [`limit_overflows`].
fn limit_overflows_check(args: &JsonObject, field: &str) -> (res: bool)
    ensures
        res == limit_overflows(args@, field@),
{
    let enabled_key = concat(field, "-enabled");
    match (args.get_bool(enabled_key.as_str()), args.get_u64(field)) {
        (Some(true), Some(k)) => k > u64::MAX / KBPS,
        _ => false,
    }
}

/// Whether the limits in a `session-get` reply's arguments convert to
/// bytes/sec without overflow; see [`limits_fit`].
fn limits_fit_check(args: &JsonObject) -> (res: bool)
    ensures
        res == limits_fit(args@),
{
    if limit_overflows_check(args, "speed-limit-down") {
        return false;
    }
    let enabled_key = concat("speed-limit-down", "-enabled");
    let down_read = match args.get_bool(enabled_key.as_str()) {
        None => false,
        Some(false) => true,
        Some(true) => args.get_u64("speed-limit-down").is_some(),
    };
    !down_read || !limit_overflows_check(args, "speed-limit-up")
}

/// The reply's "result" member as a string, or empty.
fn result_text(doc: &JsonDocument) -> (res: String)
    ensures
        res@ == result_field(doc@),
{
    match doc.get("result") {
        Some(JsonField::Leaf(JsonLeaf::Str(s))) => s.clone(),
        _ => String::new(),
    }
}

/// Whether the client can take `response` to an exchange for `op`; see
/// [`response_fits`].
pub fn response_fits_check(op: TransmissionOp, response: &RpcResponse) -> (res: bool)
    ensures
        res == response_fits(op, response@),
{
    match response {
        RpcResponse::Http { status, body: Ok(doc), .. } => {
            if op == TransmissionOp::GetSpeedLimits && status.is_success() && str_eq(
                result_text(doc).as_str(),
                "success",
            ) {
                let empty = JsonObject { members: Vec::new() };
                proof {
                    assert(empty@ =~= Seq::<(Seq<char>, JsonLeafView)>::empty());
                }
                let args = match reply_arguments(doc) {
                    Some(o) => o,
                    None => &empty,
                };
                limits_fit_check(args)
            } else {
                true
            }
        },
        _ => true,
    }
}

impl TransmissionClient {
    /// A client for the Transmission at `base_url`. Both a bare address
    /// (`http://localhost:9091`) and a full RPC path (`.../transmission/rpc`,
    /// or a custom `.../rpc` behind a reverse proxy) are accepted.
    pub fn new(base_url: &str, username: &str, password: &str) -> (res: TransmissionClient)
        ensures
            res@.rpc_url == rpc_url_spec(base_url@),
            res@.username == username@,
            res@.password == password@,
            res@.session_id is None,
    {
        let base = trim_end_matches_char(base_url, '/');
        let rpc_url = if str_ends_with(base.as_str(), "/rpc") {
            base
        } else {
            concat(base.as_str(), "/transmission/rpc")
        };
        TransmissionClient {
            rpc_url,
            username: String::from_str(username),
            password: String::from_str(password),
            session_id: None,
        }
    }

    /// Whether the user left the credentials blank, meaning the RPC server is
    /// expected to allow unauthenticated access.
    pub fn credentials_blank(&self) -> (res: bool)
        ensures
            res == credentials_blank(self@),
    {
        str_is_empty(self.username.as_str()) && str_is_empty(self.password.as_str())
    }

    /// The error to report when the server refuses a request with 401.
    pub fn auth_required_error(&self) -> (res: TransmissionError)
        ensures
            res@ == auth_required_spec(self@),
    {
        if self.credentials_blank() {
            fail_str(
                "authentication required: enter the username and password from Transmission's remote access settings",
            )
        } else {
            TransmissionError::AuthFailed
        }
    }

    /// The POST for an operation.
    pub fn request(&self, op: TransmissionOp) -> (res: RpcPost)
        ensures
            res@ == request_spec(self@, op),
    {
        let basic_auth = if self.credentials_blank() {
            None
        } else {
            Some((self.username.clone(), self.password.clone()))
        };
        let session_id = match &self.session_id {
            Some(id) => Some(id.clone()),
            None => None,
        };
        RpcPost { url: self.rpc_url.clone(), basic_auth, session_id, body: body(op) }
    }

    /// Starts an operation: the exchange to keep and the first POST.
    pub fn start(&self, op: TransmissionOp) -> (res: (RpcExchange, RpcPost))
        ensures
            res.0 == (RpcExchange { op, retried: false }),
            res.1@ == request_spec(self@, op),
    {
        (RpcExchange { op, retried: false }, self.request(op))
    }

    /// Starts stopping every torrent.
    pub fn pause_all(&self) -> (res: (RpcExchange, RpcPost))
        ensures
            res.0 == (RpcExchange { op: TransmissionOp::PauseAll, retried: false }),
            res.1@ == request_spec(self@, TransmissionOp::PauseAll),
    {
        self.start(TransmissionOp::PauseAll)
    }

    /// Starts starting every torrent again.
    pub fn resume_all(&self) -> (res: (RpcExchange, RpcPost))
        ensures
            res.0 == (RpcExchange { op: TransmissionOp::ResumeAll, retried: false }),
            res.1@ == request_spec(self@, TransmissionOp::ResumeAll),
    {
        self.start(TransmissionOp::ResumeAll)
    }

    /// Starts reading the session's speed limits.
    pub fn get_speed_limits(&self) -> (res: (RpcExchange, RpcPost))
        ensures
            res.0 == (RpcExchange { op: TransmissionOp::GetSpeedLimits, retried: false }),
            res.1@ == request_spec(self@, TransmissionOp::GetSpeedLimits),
    {
        self.start(TransmissionOp::GetSpeedLimits)
    }

    /// Starts setting the session's speed limits.
    pub fn set_speed_limits(&self, limits: &SpeedLimits) -> (res: (RpcExchange, RpcPost))
        ensures
            res.0 == (RpcExchange { op: TransmissionOp::SetSpeedLimits(*limits), retried: false }),
            res.1@ == request_spec(self@, TransmissionOp::SetSpeedLimits(*limits)),
    {
        self.start(TransmissionOp::SetSpeedLimits(*limits))
    }

    /// Starts asking the daemon for its version.
    pub fn test_connection(&self) -> (res: (RpcExchange, RpcPost))
        ensures
            res.0 == (RpcExchange { op: TransmissionOp::TestConnection, retried: false }),
            res.1@ == request_spec(self@, TransmissionOp::TestConnection),
    {
        self.start(TransmissionOp::TestConnection)
    }

    /// Takes the response to the last POST of an exchange; see
    /// [`respond_spec`].
    pub fn on_response(&mut self, ex: RpcExchange, response: RpcResponse) -> (res: RpcStep)
        requires
            response_fits(ex.op, response@),
        ensures
            (final(self)@, res@) == respond_spec(old(self)@, ex, response@),
    {
        match response {
            RpcResponse::Transport(e) => RpcStep::Done(Err(fail(e))),
            RpcResponse::Http { status, session_id, body } => {
                let code = status.code();
                if code == 409 && !ex.retried {
                    match session_id {
                        None => RpcStep::Done(Err(fail_str("server sent 409 without a session id header"))),
                        Some(id) => {
                            self.session_id = Some(id);
                            let next = RpcExchange { op: ex.op, retried: true };
                            RpcStep::Send(next, self.request(ex.op))
                        },
                    }
                } else {
                    RpcStep::Done(self.outcome(ex.op, status, body))
                }
            },
        }
    }

    fn outcome(&self, op: TransmissionOp, status: HttpStatus, body: Result<JsonDocument, String>) -> (res:
        Result<TransmissionOutput, TransmissionError>)
        requires
            body matches Ok(doc) ==> (op == TransmissionOp::GetSpeedLimits && is_success(status@)
                && result_field(doc@) == "success"@ ==> limits_fit(reply_args(doc@))),
        ensures
            result_view(res) == outcome_spec(self@, op, status@, match body {
                Ok(d) => Ok(d@),
                Err(e) => Err(e@),
            }),
    {
        let code = status.code();
        if code == 401 {
            Err(self.auth_required_error())
        } else if code == 403 {
            Err(fail_str("forbidden: check Transmission's rpc-whitelist settings"))
        } else if code == 409 {
            Err(fail_str("could not negotiate a session id"))
        } else if !status.is_success() {
            Err(fail(concat("HTTP ", status.text().as_str())))
        } else {
            match body {
                Err(e) => Err(fail(concat("invalid RPC reply: ", e.as_str()))),
                Ok(doc) => {
                    let r = result_text(&doc);
                    if !str_eq(r.as_str(), "success") {
                        if str_is_empty(r.as_str()) {
                            Err(fail_str("RPC reply missing result field"))
                        } else {
                            Err(fail(r))
                        }
                    } else {
                        finish(op, &doc)
                    }
                },
            }
        }
    }
}

// ---------------------------------------------------------------------------
// Laws
// ---------------------------------------------------------------------------

/// The session-id handshake: a first 409 with a session id makes the client
/// keep the id and send the same body again, now carrying that id; a second
/// 409 ends the operation with "could not negotiate a session id".
pub proof fn lemma_session_handshake(
    c: TransmissionClientView,
    op: TransmissionOp,
    id: Seq<char>,
    body: Result<JsonDocumentView, Seq<char>>,
    body2: Result<JsonDocumentView, Seq<char>>,
    id2: Option<Seq<char>>,
)
    ensures
        ({
            let first = RpcExchange { op, retried: false };
            let (c1, step) = respond_spec(
                c,
                first,
                RpcResponseView::Http { status: 409, session_id: Some(id), body },
            );
            &&& c1.session_id == Some(id)
            &&& step matches RpcStepView::Send(ex, post) && ex.retried && post.session_id == Some(id)
                && post.body == request_spec(c, op).body && post.url == c.rpc_url
            &&& respond_spec(
                c1,
                RpcExchange { op, retried: true },
                RpcResponseView::Http { status: 409, session_id: id2, body: body2 },
            ).1 == RpcStepView::Done(Err(failed("could not negotiate a session id"@)))
        }),
{
}

/// Basic auth is sent exactly when credentials were entered.
pub proof fn lemma_basic_auth_only_with_credentials(c: TransmissionClientView, op: TransmissionOp)
    ensures
        request_spec(c, op).basic_auth is None <==> credentials_blank(c),
        request_spec(c, op).basic_auth matches Some((u, p)) ==> u == c.username && p == c.password,
{
}

/// Setting limits and reading them back gives each limit rounded down to
/// whole KBps, at least 1 KBps when nonzero; a zero (unlimited) limit
/// stays unlimited. Reading them back never overflows.
pub proof fn lemma_set_then_get_limits(l: SpeedLimits)
    ensures
        limits_fit(arguments_spec(TransmissionOp::SetSpeedLimits(l))),
        limits_spec(arguments_spec(TransmissionOp::SetSpeedLimits(l))) == Ok::<
            TransmissionOutputView,
            TransmissionErrorView,
        >(
            TransmissionOutputView::Limits(
                SpeedLimits {
                    download: if l.download == 0 {
                        0
                    } else {
                        (to_kbps(l.download) * KBPS) as u64
                    },
                    upload: if l.upload == 0 {
                        0
                    } else {
                        (to_kbps(l.upload) * KBPS) as u64
                    },
                },
            ),
        ),
{
    reveal_strlit("speed-limit-down");
    reveal_strlit("speed-limit-up");
    reveal_strlit("-enabled");
    let args = arguments_spec(TransmissionOp::SetSpeedLimits(l));
    let dn = "speed-limit-down"@;
    let up = "speed-limit-up"@;
    let den = dn + "-enabled"@;
    let uen = up + "-enabled"@;
    let d = limit_args(dn, l.download);
    let u = limit_args(up, l.upload);
    assert(args == d + u);
    assert(den != uen) by {
        assert(den[12] != uen[12]);
    }
    assert(den != up) by {
        assert(den.len() != up.len());
    }
    assert(dn != uen) by {
        assert(dn.len() != uen.len());
    }
    assert(dn != up) by {
        assert(dn.len() != up.len());
    }
    assert(dn != den) by {
        assert(dn.len() != den.len());
    }
    assert(up != uen) by {
        assert(up.len() != uen.len());
    }
    assert(lookup(args, den) == Some(JsonLeafView::Bool(l.download > 0)));
    if l.download > 0 {
        assert(args[1] == (dn, JsonLeafView::UInt(to_kbps(l.download))));
        assert(lookup(args.drop_first(), dn) == Some(JsonLeafView::UInt(to_kbps(l.download))));
        assert(lookup(args, dn) == Some(JsonLeafView::UInt(to_kbps(l.download))));
    }
    let rest = if l.download > 0 {
        args.drop_first().drop_first()
    } else {
        args.drop_first()
    };
    assert(rest =~= u);
    assert(lookup(args, uen) == lookup(rest, uen)) by {
        if l.download > 0 {
            assert(lookup(args.drop_first(), uen) == lookup(rest, uen));
        }
    }
    assert(lookup(rest, uen) == Some(JsonLeafView::Bool(l.upload > 0)));
    if l.upload > 0 {
        assert(lookup(rest.drop_first(), up) == Some(JsonLeafView::UInt(to_kbps(l.upload))));
        assert(lookup(args, up) == lookup(rest, up)) by {
            if l.download > 0 {
                assert(lookup(args.drop_first(), up) == lookup(rest, up));
            }
        }
    }
    assert(to_kbps(l.download) * KBPS <= u64::MAX);
    assert(to_kbps(l.upload) * KBPS <= u64::MAX);
}

/// The `session-set` request for new limits switches each limit on exactly
/// when it is nonzero and then sends its value in KBps; a zero limit is
/// switched off and its stored value left untouched (no value is sent).
pub proof fn lemma_set_limits_request(l: SpeedLimits)
    ensures
        ({
            let args = arguments_spec(TransmissionOp::SetSpeedLimits(l));
            &&& method_spec(TransmissionOp::SetSpeedLimits(l)) == "session-set"@
            &&& lookup(args, "speed-limit-down-enabled"@) == Some(JsonLeafView::Bool(l.download > 0))
            &&& lookup(args, "speed-limit-up-enabled"@) == Some(JsonLeafView::Bool(l.upload > 0))
            &&& l.download > 0 ==> lookup(args, "speed-limit-down"@) == Some(
                JsonLeafView::UInt(to_kbps(l.download)),
            )
            &&& l.download == 0 ==> lookup(args, "speed-limit-down"@) is None
            &&& l.upload > 0 ==> lookup(args, "speed-limit-up"@) == Some(JsonLeafView::UInt(to_kbps(l.upload)))
            &&& l.upload == 0 ==> lookup(args, "speed-limit-up"@) is None
        }),
{
    reveal_strlit("speed-limit-down");
    reveal_strlit("speed-limit-up");
    reveal_strlit("-enabled");
    reveal_strlit("speed-limit-down-enabled");
    reveal_strlit("speed-limit-up-enabled");
    let args = arguments_spec(TransmissionOp::SetSpeedLimits(l));
    let dn = "speed-limit-down"@;
    let up = "speed-limit-up"@;
    let den = dn + "-enabled"@;
    let uen = up + "-enabled"@;
    assert(den =~= "speed-limit-down-enabled"@);
    assert(uen =~= "speed-limit-up-enabled"@);
    let d = limit_args(dn, l.download);
    let u = limit_args(up, l.upload);
    assert(args == d + u);
    assert(den.len() != uen.len() && den.len() != up.len() && dn.len() != uen.len());
    assert(dn.len() != up.len() && dn.len() != den.len() && up.len() != uen.len());
    assert(lookup(args, den) == Some(JsonLeafView::Bool(l.download > 0)));
    if l.download > 0 {
        assert(args[1] == (dn, JsonLeafView::UInt(to_kbps(l.download))));
        assert(lookup(args.drop_first(), dn) == Some(JsonLeafView::UInt(to_kbps(l.download))));
    }
    let rest = if l.download > 0 {
        args.drop_first().drop_first()
    } else {
        args.drop_first()
    };
    assert(rest =~= u);
    assert(lookup(args, uen) == lookup(rest, uen)) by {
        if l.download > 0 {
            assert(lookup(args.drop_first(), uen) == lookup(rest, uen));
        }
    }
    assert(lookup(args, up) == lookup(rest, up)) by {
        if l.download > 0 {
            assert(lookup(args.drop_first(), up) == lookup(rest, up));
        }
    }
    if l.download == 0 {
        assert(lookup(rest, dn) == lookup(args, dn));
        if l.upload > 0 {
            assert(lookup(rest.drop_first(), dn) == lookup(rest.drop_first().drop_first(), dn));
            assert(rest.drop_first().drop_first().len() == 0);
        } else {
            assert(rest.drop_first().len() == 0);
        }
    }
    if l.upload > 0 {
        assert(lookup(rest.drop_first(), up) == Some(JsonLeafView::UInt(to_kbps(l.upload))));
    } else {
        assert(rest.drop_first().len() == 0);
    }
}

/// A limit goes to Transmission as whole KBps (1000 bytes/sec): the largest
/// number of KBps not above it, but never 0 for a nonzero limit.
pub proof fn lemma_kbps_rounding(b: u64)
    requires
        b > 0,
    ensures
        b >= 1000 ==> to_kbps(b) * 1000 <= b && b < (to_kbps(b) + 1) * 1000,
        b < 1000 ==> to_kbps(b) == 1,
{
}

/// A `session-get` reply that reports each limit's switch and value gives
/// each limit in bytes/sec: its value times 1000 when switched on, and 0
/// (unlimited) when switched off.
pub proof fn lemma_get_limits_reads_reply(
    c: TransmissionClientView,
    retried: bool,
    session_id: Option<Seq<char>>,
    ed: bool,
    kd: u64,
    eu: bool,
    ku: u64,
)
    ensures
        ({
            let args = seq![
                ("speed-limit-down-enabled"@, JsonLeafView::Bool(ed)),
                ("speed-limit-down"@, JsonLeafView::UInt(kd)),
                ("speed-limit-up-enabled"@, JsonLeafView::Bool(eu)),
                ("speed-limit-up"@, JsonLeafView::UInt(ku)),
            ];
            let doc = JsonDocumentView::Object(
                seq![
                    ("result"@, JsonFieldView::Leaf(JsonLeafView::Str("success"@))),
                    ("arguments"@, JsonFieldView::Object(args)),
                ],
            );
            respond_spec(
                c,
                RpcExchange { op: TransmissionOp::GetSpeedLimits, retried },
                RpcResponseView::Http { status: 200, session_id, body: Ok(doc) },
            ).1 == RpcStepView::Done(
                Ok(
                    TransmissionOutputView::Limits(
                        SpeedLimits {
                            download: if ed {
                                (kd * 1000) as u64
                            } else {
                                0
                            },
                            upload: if eu {
                                (ku * 1000) as u64
                            } else {
                                0
                            },
                        },
                    ),
                ),
            )
        }),
{
    reveal_strlit("speed-limit-down-enabled");
    reveal_strlit("speed-limit-down");
    reveal_strlit("speed-limit-up-enabled");
    reveal_strlit("speed-limit-up");
    reveal_strlit("-enabled");
    reveal_strlit("result");
    reveal_strlit("arguments");
    reveal_strlit("success");
    let dn = "speed-limit-down"@;
    let up = "speed-limit-up"@;
    let den = "speed-limit-down-enabled"@;
    let uen = "speed-limit-up-enabled"@;
    assert(dn + "-enabled"@ =~= den);
    assert(up + "-enabled"@ =~= uen);
    let args = seq![
        (den, JsonLeafView::Bool(ed)),
        (dn, JsonLeafView::UInt(kd)),
        (uen, JsonLeafView::Bool(eu)),
        (up, JsonLeafView::UInt(ku)),
    ];
    let top = seq![
        ("result"@, JsonFieldView::Leaf(JsonLeafView::Str("success"@))),
        ("arguments"@, JsonFieldView::Object(args)),
    ];
    assert(top.drop_first()[0] == top[1]);
    assert(lookup(top, "result"@) == Some(JsonFieldView::Leaf(JsonLeafView::Str("success"@))));
    assert("result"@.len() != "arguments"@.len());
    assert(lookup(top.drop_first(), "arguments"@) == Some(JsonFieldView::Object(args)));
    assert(lookup(top, "arguments"@) == Some(JsonFieldView::Object(args)));
    let a1 = args.drop_first();
    let a2 = a1.drop_first();
    let a3 = a2.drop_first();
    assert(a1[0] == args[1] && a2[0] == args[2] && a3[0] == args[3]);
    assert(den.len() != dn.len() && den.len() != uen.len() && den.len() != up.len());
    assert(dn.len() != uen.len() && dn.len() != up.len() && uen.len() != up.len());
    assert(lookup(args, den) == Some(JsonLeafView::Bool(ed)));
    assert(lookup(a1, dn) == Some(JsonLeafView::UInt(kd)));
    assert(lookup(args, dn) == Some(JsonLeafView::UInt(kd)));
    assert(lookup(a2, uen) == Some(JsonLeafView::Bool(eu)));
    assert(lookup(a1, uen) == lookup(a2, uen));
    assert(lookup(args, uen) == Some(JsonLeafView::Bool(eu)));
    assert(lookup(a3, up) == Some(JsonLeafView::UInt(ku)));
    assert(lookup(a2, up) == lookup(a3, up));
    assert(lookup(a1, up) == lookup(a2, up));
    assert(lookup(args, up) == Some(JsonLeafView::UInt(ku)));
}

/// Pausing and resuming name no torrent ids, so they apply to all torrents.
pub proof fn lemma_pause_resume_apply_to_all()
    ensures
        arguments_spec(TransmissionOp::PauseAll).len() == 0,
        arguments_spec(TransmissionOp::ResumeAll).len() == 0,
        method_spec(TransmissionOp::PauseAll) == "torrent-stop"@,
        method_spec(TransmissionOp::ResumeAll) == "torrent-start"@,
{
}

/// Normalising an address is idempotent: a client built from another
/// client's RPC URL talks to the same endpoint.
pub proof fn lemma_rpc_url_idempotent(base_url: Seq<char>)
    ensures
        rpc_url_spec(rpc_url_spec(base_url)) == rpc_url_spec(base_url),
        ends_with(rpc_url_spec(base_url), "/rpc"@),
{
    reveal_strlit("/rpc");
    reveal_strlit("/transmission/rpc");
    let base = trim_end_char(base_url, '/');
    let u = rpc_url_spec(base_url);
    if !ends_with(base, "/rpc"@) {
        let t = "/transmission/rpc"@;
        assert(u == base + t);
        assert(u.subrange(u.len() - 4, u.len() as int) =~= "/rpc"@);
    }
    assert(u.subrange(u.len() - 4, u.len() as int) == "/rpc"@);
    assert(u.subrange(u.len() - 4, u.len() as int)[3] == u.last());
    assert(u.last() == 'c');
    assert(u.len() > 0);
    assert(trim_end_char(u, '/') == u);
}

} // verus!
