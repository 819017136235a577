//! Torrent client abstraction. The engine and the settings window talk to
//! [`TorrentClient`]; adding support for a new torrent client means adding a
//! variant here (plus a [`ClientKind`] entry) and implementing the same set
//! of operations.

use vstd::prelude::*;
use vstd::string::*;
use crate::config::{ClientKind, Config, ConfigView};
use crate::engine::{ClientCall, ClientReply, ClientReplyView};
use crate::qbit::{
    QbitApiVersion, QbitClient, QbitClientView, QbitOp, QbitOutput, QbitOutputView, QbitRequest,
    QbitRequestView, QbitResponse, QbitResponseView, QbitRun, QbitStep, QbitStepView,
};
use crate::text::{concat, trim, trim_end_char, trimmed};
use crate::transmission::{
    RpcExchange, RpcPost, RpcPostView, RpcResponse, RpcResponseView, RpcStep, RpcStepView,
    TransmissionClient, TransmissionClientView, TransmissionOp, TransmissionOutput,
    TransmissionOutputView, response_fits, rpc_url_spec,
};

verus! {

/// Stored speed limits (bytes/sec). 0 means unlimited.
#[derive(Debug, Clone, Copy, PartialEq, Eq, Structural)]
pub struct SpeedLimits {
    pub download: u64,
    pub upload: u64,
}

/// A handle to whichever torrent client the user configured.
#[derive(Debug)]
pub enum TorrentClient {
    Qbit(QbitClient),
    Transmission(TransmissionClient),
}

/// The plain value of a [`TorrentClient`].
pub enum TorrentClientView {
    Qbit(QbitClientView),
    Transmission(TransmissionClientView),
}

impl View for TorrentClient {
    type V = TorrentClientView;

    open spec fn view(&self) -> TorrentClientView {
        match self {
            TorrentClient::Qbit(c) => TorrentClientView::Qbit(c@),
            TorrentClient::Transmission(c) => TorrentClientView::Transmission(c@),
        }
    }
}

/// What is asked of a torrent client: one of the engine's calls, or a
/// connection test.
#[derive(Debug, Clone, Copy, PartialEq, Eq, Structural)]
pub enum ClientOp {
    Call(ClientCall),
    TestConnection,
}

/// The end of a [`ClientOp`].
#[derive(Debug)]
pub enum ClientOutcome {
    /// The reply to an engine call.
    Reply(ClientReply),
    /// A human-readable client description such as "qBittorrent v5.0.2",
    /// or the error's text.
    Tested(Result<String, String>),
}

/// The plain value of a [`ClientOutcome`].
pub enum ClientOutcomeView {
    Reply(ClientReplyView),
    Tested(Result<Seq<char>, Seq<char>>),
}

impl View for ClientOutcome {
    type V = ClientOutcomeView;

    open spec fn view(&self) -> ClientOutcomeView {
        match self {
            ClientOutcome::Reply(r) => ClientOutcomeView::Reply(r@),
            ClientOutcome::Tested(Ok(s)) => ClientOutcomeView::Tested(Ok(s@)),
            ClientOutcome::Tested(Err(e)) => ClientOutcomeView::Tested(Err(e@)),
        }
    }
}

/// A request to send for a client.
#[derive(Debug)]
pub enum ClientRequest {
    Qbit(QbitRequest),
    Transmission(RpcPost),
}

/// What came back for a [`ClientRequest`].
#[derive(Debug)]
pub enum ClientResponse {
    Qbit(QbitResponse),
    Transmission(RpcResponse),
}

/// An operation in flight.
#[derive(Debug, Clone, Copy, PartialEq, Eq, Structural)]
pub enum ClientExchange {
    Qbit(ClientOp, QbitRun),
    Transmission(ClientOp, RpcExchange),
}

/// What to do next.
#[derive(Debug)]
pub enum ClientStep {
    Send(ClientExchange, ClientRequest),
    Done(ClientOutcome),
}

/// The plain value of a [`ClientRequest`].
pub enum ClientRequestView {
    Qbit(QbitRequestView),
    Transmission(RpcPostView),
}

/// The plain value of a [`ClientResponse`].
pub enum ClientResponseView {
    Qbit(QbitResponseView),
    Transmission(RpcResponseView),
}

impl View for ClientResponse {
    type V = ClientResponseView;

    open spec fn view(&self) -> ClientResponseView {
        match self {
            ClientResponse::Qbit(r) => ClientResponseView::Qbit(r@),
            ClientResponse::Transmission(r) => ClientResponseView::Transmission(r@),
        }
    }
}

/// The plain value of a [`ClientStep`].
pub enum ClientStepView {
    Send(ClientExchange, ClientRequestView),
    Done(ClientOutcomeView),
}

impl View for ClientStep {
    type V = ClientStepView;

    open spec fn view(&self) -> ClientStepView {
        match self {
            ClientStep::Send(ex, ClientRequest::Qbit(q)) => ClientStepView::Send(
                *ex,
                ClientRequestView::Qbit(q@),
            ),
            ClientStep::Send(ex, ClientRequest::Transmission(p)) => ClientStepView::Send(
                *ex,
                ClientRequestView::Transmission(p@),
            ),
            ClientStep::Done(o) => ClientStepView::Done(o@),
        }
    }
}

/// The client a configuration selects.
pub open spec fn from_config_spec(cfg: ConfigView) -> TorrentClientView {
    match cfg.client_kind {
        ClientKind::Transmission => TorrentClientView::Transmission(
            TransmissionClientView {
                rpc_url: rpc_url_spec(cfg.qbit_url),
                username: cfg.qbit_username,
                password: cfg.qbit_password,
                session_id: None,
            },
        ),
        kind => TorrentClientView::Qbit(
            QbitClientView {
                base_url: trim_end_char(cfg.qbit_url, '/'),
                username: cfg.qbit_username,
                password: cfg.qbit_password,
                api_version: if kind == ClientKind::QbitV4 {
                    QbitApiVersion::V4
                } else {
                    QbitApiVersion::V5
                },
                authenticated: false,
            },
        ),
    }
}

/// The qBittorrent operation for a request.
pub open spec fn qbit_op(op: ClientOp) -> QbitOp {
    match op {
        ClientOp::Call(ClientCall::PauseAll) => QbitOp::PauseAll,
        ClientOp::Call(ClientCall::ResumeAll) => QbitOp::ResumeAll,
        ClientOp::Call(ClientCall::GetSpeedLimits) => QbitOp::GetSpeedLimits,
        ClientOp::Call(ClientCall::SetSpeedLimits(l)) => QbitOp::SetSpeedLimits(l),
        ClientOp::TestConnection => QbitOp::TestConnection,
    }
}

/// The Transmission operation for a request.
pub open spec fn transmission_op(op: ClientOp) -> TransmissionOp {
    match op {
        ClientOp::Call(ClientCall::PauseAll) => TransmissionOp::PauseAll,
        ClientOp::Call(ClientCall::ResumeAll) => TransmissionOp::ResumeAll,
        ClientOp::Call(ClientCall::GetSpeedLimits) => TransmissionOp::GetSpeedLimits,
        ClientOp::Call(ClientCall::SetSpeedLimits(l)) => TransmissionOp::SetSpeedLimits(l),
        ClientOp::TestConnection => TransmissionOp::TestConnection,
    }
}

/// An operation's end, from a client's result: errors become their text,
/// limits stay limits, and a tested version is prefixed with the product
/// name and trimmed.
pub open spec fn outcome_spec(
    op: ClientOp,
    product: Seq<char>,
    ok: bool,
    err_text: Seq<char>,
    limits: Option<crate::client::SpeedLimits>,
    version: Seq<char>,
) -> ClientOutcomeView {
    match op {
        ClientOp::TestConnection => ClientOutcomeView::Tested(
            if ok {
                Ok(product + " "@ + trimmed(version))
            } else {
                Err(err_text)
            },
        ),
        ClientOp::Call(ClientCall::GetSpeedLimits) => ClientOutcomeView::Reply(
            ClientReplyView::Limits(
                if ok {
                    Ok(
                        match limits {
                            Some(l) => l,
                            None => SpeedLimits { download: 0, upload: 0 },
                        },
                    )
                } else {
                    Err(err_text)
                },
            ),
        ),
        _ => ClientOutcomeView::Reply(
            ClientReplyView::Done(
                if ok {
                    Ok(())
                } else {
                    Err(err_text)
                },
            ),
        ),
    }
}

/// The end of a qBittorrent operation.
pub open spec fn qbit_outcome(op: ClientOp, r: crate::qbit::QbitResultView) -> ClientOutcomeView {
    match r {
        Ok(o) => outcome_spec(
            op,
            "qBittorrent"@,
            true,
            Seq::empty(),
            match o {
                QbitOutputView::Limits(l) => Some(l),
                _ => None,
            },
            match o {
                QbitOutputView::Version(v) => v,
                _ => Seq::empty(),
            },
        ),
        Err(e) => outcome_spec(op, "qBittorrent"@, false, crate::qbit::error_text(e), None, Seq::empty()),
    }
}

/// The end of a Transmission operation.
pub open spec fn transmission_outcome(op: ClientOp, r: crate::transmission::OpResultView) -> ClientOutcomeView {
    match r {
        Ok(o) => outcome_spec(
            op,
            "Transmission"@,
            true,
            Seq::empty(),
            match o {
                TransmissionOutputView::Limits(l) => Some(l),
                _ => None,
            },
            match o {
                TransmissionOutputView::Version(v) => v,
                _ => Seq::empty(),
            },
        ),
        Err(e) => outcome_spec(
            op,
            "Transmission"@,
            false,
            crate::transmission::error_text(e),
            None,
            Seq::empty(),
        ),
    }
}

/// A qBittorrent step as a client step.
pub open spec fn lift_qbit(op: ClientOp, s: QbitStepView) -> ClientStepView {
    match s {
        QbitStepView::Send(run, req) => ClientStepView::Send(
            ClientExchange::Qbit(op, run),
            ClientRequestView::Qbit(req),
        ),
        QbitStepView::Done(r) => ClientStepView::Done(qbit_outcome(op, r)),
    }
}

/// A Transmission step as a client step.
pub open spec fn lift_transmission(op: ClientOp, s: RpcStepView) -> ClientStepView {
    match s {
        RpcStepView::Send(ex, post) => ClientStepView::Send(
            ClientExchange::Transmission(op, ex),
            ClientRequestView::Transmission(post),
        ),
        RpcStepView::Done(r) => ClientStepView::Done(transmission_outcome(op, r)),
    }
}

/// The first step of an operation.
pub open spec fn client_start_spec(c: TorrentClientView, op: ClientOp) -> (TorrentClientView, ClientStepView) {
    match c {
        TorrentClientView::Qbit(q) => {
            let (q1, s) = crate::qbit::start_spec(q, qbit_op(op));
            (TorrentClientView::Qbit(q1), lift_qbit(op, s))
        },
        TorrentClientView::Transmission(t) => (
            c,
            ClientStepView::Send(
                ClientExchange::Transmission(op, RpcExchange { op: transmission_op(op), retried: false }),
                ClientRequestView::Transmission(crate::transmission::request_spec(t, transmission_op(op))),
            ),
        ),
    }
}

/// The response fits the client and exchange it is handed to.
pub open spec fn client_response_fits(
    c: TorrentClientView,
    ex: ClientExchange,
    r: ClientResponseView,
) -> bool {
    match (c, ex, r) {
        (TorrentClientView::Qbit(_), ClientExchange::Qbit(_, _), ClientResponseView::Qbit(_)) => true,
        (
            TorrentClientView::Transmission(_),
            ClientExchange::Transmission(_, rex),
            ClientResponseView::Transmission(rr),
        ) => response_fits(rex.op, rr),
        _ => false,
    }
}

/// The next step after a response.
pub open spec fn client_respond_spec(
    c: TorrentClientView,
    ex: ClientExchange,
    r: ClientResponseView,
) -> (TorrentClientView, ClientStepView) {
    match (c, ex, r) {
        (TorrentClientView::Qbit(q), ClientExchange::Qbit(op, run), ClientResponseView::Qbit(qr)) => {
            let (q1, s) = crate::qbit::respond_spec(q, run, qr);
            (TorrentClientView::Qbit(q1), lift_qbit(op, s))
        },
        (
            TorrentClientView::Transmission(t),
            ClientExchange::Transmission(op, rex),
            ClientResponseView::Transmission(tr),
        ) => {
            let (t1, s) = crate::transmission::respond_spec(t, rex, tr);
            (TorrentClientView::Transmission(t1), lift_transmission(op, s))
        },
        _ => (c, ClientStepView::Done(ClientOutcomeView::Tested(Err(Seq::empty())))),
    }
}

fn to_qbit_op(op: ClientOp) -> (res: QbitOp)
    ensures
        res == qbit_op(op),
{
    match op {
        ClientOp::Call(ClientCall::PauseAll) => QbitOp::PauseAll,
        ClientOp::Call(ClientCall::ResumeAll) => QbitOp::ResumeAll,
        ClientOp::Call(ClientCall::GetSpeedLimits) => QbitOp::GetSpeedLimits,
        ClientOp::Call(ClientCall::SetSpeedLimits(l)) => QbitOp::SetSpeedLimits(l),
        ClientOp::TestConnection => QbitOp::TestConnection,
    }
}

fn to_transmission_op(op: ClientOp) -> (res: TransmissionOp)
    ensures
        res == transmission_op(op),
{
    match op {
        ClientOp::Call(ClientCall::PauseAll) => TransmissionOp::PauseAll,
        ClientOp::Call(ClientCall::ResumeAll) => TransmissionOp::ResumeAll,
        ClientOp::Call(ClientCall::GetSpeedLimits) => TransmissionOp::GetSpeedLimits,
        ClientOp::Call(ClientCall::SetSpeedLimits(l)) => TransmissionOp::SetSpeedLimits(l),
        ClientOp::TestConnection => TransmissionOp::TestConnection,
    }
}

fn outcome(
    op: ClientOp,
    product: &str,
    ok: bool,
    err_text: String,
    limits: Option<SpeedLimits>,
    version: &str,
) -> (res: ClientOutcome)
    ensures
        res@ == outcome_spec(op, product@, ok, err_text@, limits, version@),
{
    match op {
        ClientOp::TestConnection => ClientOutcome::Tested(
            if ok {
                let s = concat(product, " ");
                Ok(concat(s.as_str(), trim(version).as_str()))
            } else {
                Err(err_text)
            },
        ),
        ClientOp::Call(ClientCall::GetSpeedLimits) => ClientOutcome::Reply(
            ClientReply::Limits(
                if ok {
                    Ok(
                        match limits {
                            Some(l) => l,
                            None => SpeedLimits { download: 0, upload: 0 },
                        },
                    )
                } else {
                    Err(err_text)
                },
            ),
        ),
        _ => ClientOutcome::Reply(
            ClientReply::Done(
                if ok {
                    Ok(())
                } else {
                    Err(err_text)
                },
            ),
        ),
    }
}

fn lift_qbit_step(op: ClientOp, s: QbitStep) -> (res: ClientStep)
    ensures
        res@ == lift_qbit(op, s@),
{
    match s {
        QbitStep::Send(run, req) => ClientStep::Send(ClientExchange::Qbit(op, run), ClientRequest::Qbit(req)),
        QbitStep::Done(Ok(o)) => {
            let limits = match &o {
                QbitOutput::Limits(l) => Some(*l),
                _ => None,
            };
            let version = match &o {
                QbitOutput::Version(v) => v.clone(),
                _ => String::new(),
            };
            ClientStep::Done(outcome(op, "qBittorrent", true, String::new(), limits, version.as_str()))
        },
        QbitStep::Done(Err(e)) => ClientStep::Done(
            outcome(op, "qBittorrent", false, e.message(), None, ""),
        ),
    }
}

fn lift_transmission_step(op: ClientOp, s: RpcStep) -> (res: ClientStep)
    ensures
        res@ == lift_transmission(op, s@),
{
    match s {
        RpcStep::Send(ex, post) => ClientStep::Send(
            ClientExchange::Transmission(op, ex),
            ClientRequest::Transmission(post),
        ),
        RpcStep::Done(Ok(o)) => {
            let limits = match &o {
                TransmissionOutput::Limits(l) => Some(*l),
                _ => None,
            };
            let version = match &o {
                TransmissionOutput::Version(v) => v.clone(),
                _ => String::new(),
            };
            ClientStep::Done(outcome(op, "Transmission", true, String::new(), limits, version.as_str()))
        },
        RpcStep::Done(Err(e)) => ClientStep::Done(
            outcome(op, "Transmission", false, e.message(), None, ""),
        ),
    }
}

impl TorrentClient {
    /// Builds the concrete client selected in the configuration.
    pub fn from_config(config: &Config) -> (res: TorrentClient)
        ensures
            res@ == from_config_spec(config@),
    {
        match config.client_kind {
            ClientKind::QbitV5 | ClientKind::QbitV4 => {
                let api_version = match config.client_kind {
                    ClientKind::QbitV4 => QbitApiVersion::V4,
                    _ => QbitApiVersion::V5,
                };
                TorrentClient::Qbit(
                    QbitClient::new(
                        config.qbit_url.as_str(),
                        config.qbit_username.as_str(),
                        config.qbit_password.as_str(),
                        api_version,
                    ),
                )
            },
            ClientKind::Transmission => TorrentClient::Transmission(
                TransmissionClient::new(
                    config.qbit_url.as_str(),
                    config.qbit_username.as_str(),
                    config.qbit_password.as_str(),
                ),
            ),
        }
    }

    /// Starts an operation; see [`client_start_spec`].
    pub fn start(&mut self, op: ClientOp) -> (res: ClientStep)
        ensures
            (final(self)@, res@) == client_start_spec(old(self)@, op),
    {
        match self {
            TorrentClient::Qbit(q) => {
                let s = q.start(to_qbit_op(op));
                lift_qbit_step(op, s)
            },
            TorrentClient::Transmission(t) => {
                let (ex, post) = t.start(to_transmission_op(op));
                ClientStep::Send(ClientExchange::Transmission(op, ex), ClientRequest::Transmission(post))
            },
        }
    }

    /// Starts pausing every torrent.
    pub fn pause_all(&mut self) -> (res: ClientStep)
        ensures
            (final(self)@, res@) == client_start_spec(old(self)@, ClientOp::Call(ClientCall::PauseAll)),
    {
        self.start(ClientOp::Call(ClientCall::PauseAll))
    }

    /// Starts resuming every torrent.
    pub fn resume_all(&mut self) -> (res: ClientStep)
        ensures
            (final(self)@, res@) == client_start_spec(old(self)@, ClientOp::Call(ClientCall::ResumeAll)),
    {
        self.start(ClientOp::Call(ClientCall::ResumeAll))
    }

    /// Starts reading the global speed limits.
    pub fn get_speed_limits(&mut self) -> (res: ClientStep)
        ensures
            (final(self)@, res@) == client_start_spec(
                old(self)@,
                ClientOp::Call(ClientCall::GetSpeedLimits),
            ),
    {
        self.start(ClientOp::Call(ClientCall::GetSpeedLimits))
    }

    /// Starts setting the global speed limits.
    pub fn set_speed_limits(&mut self, limits: &SpeedLimits) -> (res: ClientStep)
        ensures
            (final(self)@, res@) == client_start_spec(
                old(self)@,
                ClientOp::Call(ClientCall::SetSpeedLimits(*limits)),
            ),
    {
        self.start(ClientOp::Call(ClientCall::SetSpeedLimits(*limits)))
    }

    /// Starts checking the connection and reading the client's version.
    pub fn test_connection(&mut self) -> (res: ClientStep)
        ensures
            (final(self)@, res@) == client_start_spec(old(self)@, ClientOp::TestConnection),
    {
        self.start(ClientOp::TestConnection)
    }

    /// Takes the response to the last request of an operation; see
    /// [`client_respond_spec`].
    pub fn on_response(&mut self, ex: ClientExchange, response: ClientResponse) -> (res: ClientStep)
        requires
            client_response_fits(old(self)@, ex, response@),
        ensures
            (final(self)@, res@) == client_respond_spec(old(self)@, ex, response@),
    {
        match (self, ex, response) {
            (TorrentClient::Qbit(q), ClientExchange::Qbit(op, run), ClientResponse::Qbit(r)) => {
                let s = q.on_response(run, r);
                lift_qbit_step(op, s)
            },
            (
                TorrentClient::Transmission(t),
                ClientExchange::Transmission(op, rex),
                ClientResponse::Transmission(r),
            ) => {
                let s = t.on_response(rex, r);
                lift_transmission_step(op, s)
            },
            _ => ClientStep::Done(ClientOutcome::Tested(Err(String::new()))),
        }
    }
}

// ---------------------------------------------------------------------------
// Laws
// ---------------------------------------------------------------------------

/// The configuration picks the client: Transmission for `Transmission`,
/// otherwise qBittorrent speaking the 4.x dialect for `QbitV4` and 5.x for
/// `QbitV5`; the address, username and password are the configured ones,
/// and no session exists yet.
pub proof fn lemma_from_config_picks_client(cfg: ConfigView)
    ensures
        match from_config_spec(cfg) {
            TorrentClientView::Transmission(t) => {
                &&& cfg.client_kind == ClientKind::Transmission
                &&& t.username == cfg.qbit_username && t.password == cfg.qbit_password
                &&& t.session_id is None
            },
            TorrentClientView::Qbit(q) => {
                &&& cfg.client_kind != ClientKind::Transmission
                &&& (q.api_version == QbitApiVersion::V4 <==> cfg.client_kind == ClientKind::QbitV4)
                &&& q.username == cfg.qbit_username && q.password == cfg.qbit_password
                &&& q.base_url == trim_end_char(cfg.qbit_url, '/')
                &&& !q.authenticated
            },
        },
{
}

/// The client layer relays what the concrete client read unchanged: when a
/// read of the speed limits ends with limits `l`, from qBittorrent or from
/// Transmission, the reply is `Limits(Ok(l))`; when it ends with an error,
/// the reply is that error's text.
pub proof fn lemma_limits_relayed(c: TorrentClientView, ex: ClientExchange, r: ClientResponseView, l: SpeedLimits)
    requires
        ex matches ClientExchange::Qbit(op, _) ==> op == ClientOp::Call(ClientCall::GetSpeedLimits),
        ex matches ClientExchange::Transmission(op, _) ==> op == ClientOp::Call(ClientCall::GetSpeedLimits),
    ensures
        match (c, ex, r) {
            (TorrentClientView::Qbit(q), ClientExchange::Qbit(_, run), ClientResponseView::Qbit(qr)) => {
                &&& crate::qbit::respond_spec(q, run, qr).1 == QbitStepView::Done(Ok(QbitOutputView::Limits(l)))
                    ==> client_respond_spec(c, ex, r).1 == ClientStepView::Done(
                    ClientOutcomeView::Reply(ClientReplyView::Limits(Ok(l))),
                )
                &&& crate::qbit::respond_spec(q, run, qr).1 matches QbitStepView::Done(Err(e))
                    ==> client_respond_spec(c, ex, r).1 == ClientStepView::Done(
                    ClientOutcomeView::Reply(ClientReplyView::Limits(Err(crate::qbit::error_text(e)))),
                )
            },
            (
                TorrentClientView::Transmission(t),
                ClientExchange::Transmission(_, rex),
                ClientResponseView::Transmission(tr),
            ) => {
                &&& crate::transmission::respond_spec(t, rex, tr).1 == RpcStepView::Done(
                    Ok(TransmissionOutputView::Limits(l)),
                ) ==> client_respond_spec(c, ex, r).1 == ClientStepView::Done(
                    ClientOutcomeView::Reply(ClientReplyView::Limits(Ok(l))),
                )
                &&& crate::transmission::respond_spec(t, rex, tr).1 matches RpcStepView::Done(Err(e))
                    ==> client_respond_spec(c, ex, r).1 == ClientStepView::Done(
                    ClientOutcomeView::Reply(ClientReplyView::Limits(Err(crate::transmission::error_text(e)))),
                )
            },
            _ => true,
        },
{
}

/// What else the client layer relays: a finished pause, resume or set of
/// the limits is `Done(Ok(()))`, and a connection test that read the
/// version `v` reports the product name, a space and `v` trimmed.
pub proof fn lemma_results_relayed(c: TorrentClientView, ex: ClientExchange, r: ClientResponseView, v: Seq<char>)
    ensures
        match (c, ex, r) {
            (TorrentClientView::Qbit(q), ClientExchange::Qbit(op, run), ClientResponseView::Qbit(qr)) => {
                &&& op == ClientOp::TestConnection && crate::qbit::respond_spec(q, run, qr).1
                    == QbitStepView::Done(Ok(QbitOutputView::Version(v))) ==> client_respond_spec(c, ex, r).1
                    == ClientStepView::Done(ClientOutcomeView::Tested(Ok("qBittorrent "@ + trimmed(v))))
                &&& op != ClientOp::TestConnection && op != ClientOp::Call(ClientCall::GetSpeedLimits)
                    && crate::qbit::respond_spec(
                    q,
                    run,
                    qr,
                ).1 == QbitStepView::Done(Ok(QbitOutputView::Unit)) ==> client_respond_spec(c, ex, r).1
                    == ClientStepView::Done(ClientOutcomeView::Reply(ClientReplyView::Done(Ok(()))))
            },
            (
                TorrentClientView::Transmission(t),
                ClientExchange::Transmission(op, rex),
                ClientResponseView::Transmission(tr),
            ) => {
                &&& op == ClientOp::TestConnection && crate::transmission::respond_spec(t, rex, tr).1
                    == RpcStepView::Done(Ok(TransmissionOutputView::Version(v))) ==> client_respond_spec(
                    c,
                    ex,
                    r,
                ).1 == ClientStepView::Done(ClientOutcomeView::Tested(Ok("Transmission "@ + trimmed(v))))
                &&& op != ClientOp::TestConnection && op != ClientOp::Call(ClientCall::GetSpeedLimits)
                    && crate::transmission::respond_spec(t, rex, tr).1 == RpcStepView::Done(
                    Ok(TransmissionOutputView::Unit),
                ) ==> client_respond_spec(c, ex, r).1 == ClientStepView::Done(
                    ClientOutcomeView::Reply(ClientReplyView::Done(Ok(()))),
                )
            },
            _ => true,
        },
{
    reveal_strlit("qBittorrent");
    reveal_strlit("qBittorrent ");
    reveal_strlit("Transmission");
    reveal_strlit("Transmission ");
    reveal_strlit(" ");
    assert("qBittorrent"@ + " "@ =~= "qBittorrent "@);
    assert("Transmission"@ + " "@ =~= "Transmission "@);
    assert(("qBittorrent"@ + " "@) + trimmed(v) == "qBittorrent "@ + trimmed(v));
    assert(("Transmission"@ + " "@) + trimmed(v) == "Transmission "@ + trimmed(v));
}

/// The client layer hands each engine call to the concrete client as the
/// same operation: the first request of a call is the one the concrete
/// client makes for that operation.
pub proof fn lemma_calls_forwarded(c: TorrentClientView, l: SpeedLimits)
    ensures
        match c {
            TorrentClientView::Qbit(q) => {
                &&& qbit_op(ClientOp::Call(ClientCall::PauseAll)) == QbitOp::PauseAll
                &&& qbit_op(ClientOp::Call(ClientCall::ResumeAll)) == QbitOp::ResumeAll
                &&& qbit_op(ClientOp::Call(ClientCall::GetSpeedLimits)) == QbitOp::GetSpeedLimits
                &&& qbit_op(ClientOp::Call(ClientCall::SetSpeedLimits(l))) == QbitOp::SetSpeedLimits(l)
                &&& qbit_op(ClientOp::TestConnection) == QbitOp::TestConnection
            },
            TorrentClientView::Transmission(t) => {
                &&& transmission_op(ClientOp::Call(ClientCall::PauseAll)) == TransmissionOp::PauseAll
                &&& transmission_op(ClientOp::Call(ClientCall::ResumeAll)) == TransmissionOp::ResumeAll
                &&& transmission_op(ClientOp::Call(ClientCall::GetSpeedLimits)) == TransmissionOp::GetSpeedLimits
                &&& transmission_op(ClientOp::Call(ClientCall::SetSpeedLimits(l)))
                    == TransmissionOp::SetSpeedLimits(l)
                &&& transmission_op(ClientOp::TestConnection) == TransmissionOp::TestConnection
            },
        },
{
}

} // verus!
