//! The monitoring engine: one cycle decides, from the processes that matched
//! and whether torrents are currently engaged, whether to pause or throttle
//! the configured torrent client, or to resume it and restore its limits.
//!
//! A cycle is a state machine. [`start_cycle`] looks at the scan and either
//! finishes at once or names the first client call to make; the caller makes
//! that call and hands its reply to [`continue_cycle`], which finishes or
//! names the next call. The calls themselves are made outside this crate.

use vstd::prelude::*;
use vstd::string::*;
use crate::client::SpeedLimits;
use crate::config::{ActionMode, Config, ConfigView};
use crate::text::{trim, trimmed, views};

verus! {

/// What a cycle did to the torrent client.
#[derive(Debug, Clone, Copy, PartialEq, Eq, Structural)]
pub enum ActionTaken {
    Paused,
    Resumed,
    Throttled,
    Unthrottled,
    NoAction,
}

/// The outcome of one monitoring cycle.
#[derive(Debug)]
pub struct MonitorResult {
    pub matched_processes: Vec<String>,
    pub action_taken: ActionTaken,
    /// The limits that were in force before a throttle was applied.
    pub saved_limits: Option<SpeedLimits>,
    pub error: Option<String>,
}

/// The plain value of a [`MonitorResult`].
pub struct MonitorResultView {
    pub matched_processes: Seq<Seq<char>>,
    pub action_taken: ActionTaken,
    pub saved_limits: Option<SpeedLimits>,
    pub error: Option<Seq<char>>,
}

/// The plain value of an optional string.
pub open spec fn opt_view(s: Option<String>) -> Option<Seq<char>> {
    match s {
        Some(x) => Some(x@),
        None => None,
    }
}

impl View for MonitorResult {
    type V = MonitorResultView;

    open spec fn view(&self) -> MonitorResultView {
        MonitorResultView {
            matched_processes: views(self.matched_processes@),
            action_taken: self.action_taken,
            saved_limits: self.saved_limits,
            error: opt_view(self.error),
        }
    }
}

/// A request the engine makes of the torrent client.
#[derive(Debug, Clone, Copy, PartialEq, Eq, Structural)]
pub enum ClientCall {
    PauseAll,
    ResumeAll,
    GetSpeedLimits,
    SetSpeedLimits(SpeedLimits),
}

/// The torrent client's answer to a [`ClientCall`]; errors are the
/// client's human-readable messages.
#[derive(Debug)]
pub enum ClientReply {
    /// Answer to `PauseAll`, `ResumeAll` and `SetSpeedLimits`.
    Done(Result<(), String>),
    /// Answer to `GetSpeedLimits`.
    Limits(Result<SpeedLimits, String>),
}

/// The plain value of a [`ClientReply`].
pub enum ClientReplyView {
    Done(Result<(), Seq<char>>),
    Limits(Result<SpeedLimits, Seq<char>>),
}

impl View for ClientReply {
    type V = ClientReplyView;

    open spec fn view(&self) -> ClientReplyView {
        match self {
            ClientReply::Done(Ok(())) => ClientReplyView::Done(Ok(())),
            ClientReply::Done(Err(e)) => ClientReplyView::Done(Err(e@)),
            ClientReply::Limits(Ok(l)) => ClientReplyView::Limits(Ok(*l)),
            ClientReply::Limits(Err(e)) => ClientReplyView::Limits(Err(e@)),
        }
    }
}

/// Which call a running cycle is waiting on.
#[derive(Debug, Clone, Copy, PartialEq, Eq, Structural)]
pub enum CycleStage {
    /// Waiting on `PauseAll`.
    Pausing,
    /// Waiting on `ResumeAll`.
    Resuming,
    /// Waiting on `GetSpeedLimits`, before throttling.
    ReadingLimits,
    /// Waiting on `SetSpeedLimits` with the throttle; `saved` are the limits
    /// read before it.
    Throttling { saved: SpeedLimits },
    /// Waiting on `SetSpeedLimits` that restores the saved limits.
    Restoring,
}

/// A cycle that waits on a client call.
#[derive(Debug)]
pub struct Cycle {
    pub matched: Vec<String>,
    /// The throttle to apply, in bytes/sec.
    pub target: SpeedLimits,
    pub stage: CycleStage,
}

/// The plain value of a [`Cycle`].
pub struct CycleView {
    pub matched: Seq<Seq<char>>,
    pub target: SpeedLimits,
    pub stage: CycleStage,
}

impl View for Cycle {
    type V = CycleView;

    open spec fn view(&self) -> CycleView {
        CycleView { matched: views(self.matched@), target: self.target, stage: self.stage }
    }
}

/// What a cycle does next.
#[derive(Debug)]
pub enum CycleStep {
    /// Make `call` and hand its reply, with the cycle, to [`continue_cycle`].
    Call(Cycle, ClientCall),
    /// The cycle is over.
    Finish(MonitorResult),
}

/// The plain value of a [`CycleStep`].
pub enum CycleStepView {
    Call(CycleView, ClientCall),
    Finish(MonitorResultView),
}

impl View for CycleStep {
    type V = CycleStepView;

    open spec fn view(&self) -> CycleStepView {
        match self {
            CycleStep::Call(c, call) => CycleStepView::Call(c@, *call),
            CycleStep::Finish(r) => CycleStepView::Finish(r@),
        }
    }
}

/// The hint reported when a match is found but no client URL is set.
pub open spec fn missing_url_message() -> Seq<char> {
    "Torrent client URL not configured \u{2014} open Settings"@
}

/// The throttle to apply: the configured KB/s as bytes/sec (times 1024).
pub open spec fn throttle_target(cfg: ConfigView) -> SpeedLimits {
    SpeedLimits {
        download: (cfg.throttle_download_kbps * 1024) as u64,
        upload: (cfg.throttle_upload_kbps * 1024) as u64,
    }
}

/// The configured throttle fits in bytes/sec.
pub open spec fn throttle_fits(cfg: ConfigView) -> bool {
    cfg.throttle_download_kbps * 1024 <= u64::MAX && cfg.throttle_upload_kbps * 1024 <= u64::MAX
}

/// A cycle with these inputs engages the client in throttle mode.
pub open spec fn engages_throttle(cfg: ConfigView, was_engaged: bool, matched: Seq<Seq<char>>) -> bool {
    &&& matched.len() > 0
    &&& !was_engaged
    &&& trimmed(cfg.qbit_url).len() > 0
    &&& cfg.action_mode == ActionMode::Throttle
}

/// A finished cycle.
pub open spec fn finish(
    matched: Seq<Seq<char>>,
    action: ActionTaken,
    saved: Option<SpeedLimits>,
    error: Option<Seq<char>>,
) -> CycleStepView {
    CycleStepView::Finish(
        MonitorResultView {
            matched_processes: matched,
            action_taken: action,
            saved_limits: saved,
            error: error,
        },
    )
}

/// A cycle waiting in `stage` for the reply to `call`.
pub open spec fn call(
    matched: Seq<Seq<char>>,
    target: SpeedLimits,
    stage: CycleStage,
    c: ClientCall,
) -> CycleStepView {
    CycleStepView::Call(CycleView { matched, target, stage }, c)
}

/// The limits restored on disengaging: the saved ones, or unlimited.
pub open spec fn restore_limits(saved: Option<SpeedLimits>) -> SpeedLimits {
    match saved {
        Some(l) => l,
        None => SpeedLimits { download: 0, upload: 0 },
    }
}

/// The first step of a cycle.
///
/// With matches and nothing engaged, the client is engaged: paused, or
/// throttled after its current limits are read (unless no client URL is
/// set, which is reported instead). Without matches and engaged, the client
/// is disengaged: resumed, or given back the saved limits (unlimited when
/// none were saved). Otherwise nothing is done.
pub open spec fn start_spec(
    cfg: ConfigView,
    was_engaged: bool,
    saved: Option<SpeedLimits>,
    matched: Seq<Seq<char>>,
) -> CycleStepView {
    let has_matches = matched.len() > 0;
    let none = SpeedLimits { download: 0, upload: 0 };
    if has_matches && !was_engaged {
        if trimmed(cfg.qbit_url).len() == 0 {
            finish(matched, ActionTaken::NoAction, None, Some(missing_url_message()))
        } else {
            match cfg.action_mode {
                ActionMode::Pause => call(matched, none, CycleStage::Pausing, ClientCall::PauseAll),
                ActionMode::Throttle => call(
                    matched,
                    throttle_target(cfg),
                    CycleStage::ReadingLimits,
                    ClientCall::GetSpeedLimits,
                ),
            }
        }
    } else if !has_matches && was_engaged {
        disengage_spec(cfg, saved, matched)
    } else {
        finish(matched, ActionTaken::NoAction, None, None)
    }
}

/// The first step of disengaging in the configured mode.
pub open spec fn disengage_spec(
    cfg: ConfigView,
    saved: Option<SpeedLimits>,
    matched: Seq<Seq<char>>,
) -> CycleStepView {
    let none = SpeedLimits { download: 0, upload: 0 };
    match cfg.action_mode {
        ActionMode::Pause => call(matched, none, CycleStage::Resuming, ClientCall::ResumeAll),
        ActionMode::Throttle => call(
            matched,
            none,
            CycleStage::Restoring,
            ClientCall::SetSpeedLimits(restore_limits(saved)),
        ),
    }
}

/// The reply fits the call the cycle waits on.
pub open spec fn reply_fits(stage: CycleStage, reply: ClientReplyView) -> bool {
    match stage {
        CycleStage::ReadingLimits => reply is Limits,
        _ => reply is Done,
    }
}

/// The step after the reply to the call a cycle waited on. A failed call
/// ends the cycle with its error and no action; a read of the limits is
/// followed by the throttle; every other successful call ends the cycle
/// with the action it performed.
pub open spec fn continue_spec(c: CycleView, reply: ClientReplyView) -> CycleStepView {
    let m = c.matched;
    match reply {
        ClientReplyView::Done(Err(e)) => finish(m, ActionTaken::NoAction, None, Some(e)),
        ClientReplyView::Limits(Err(e)) => finish(m, ActionTaken::NoAction, None, Some(e)),
        ClientReplyView::Limits(Ok(current)) => call(
            m,
            c.target,
            CycleStage::Throttling { saved: current },
            ClientCall::SetSpeedLimits(c.target),
        ),
        ClientReplyView::Done(Ok(())) => match c.stage {
            CycleStage::Pausing => finish(m, ActionTaken::Paused, None, None),
            CycleStage::Resuming => finish(m, ActionTaken::Resumed, None, None),
            CycleStage::Throttling { saved } => finish(m, ActionTaken::Throttled, Some(saved), None),
            _ => finish(m, ActionTaken::Unthrottled, None, None),
        },
    }
}

/// Whether the configured throttle converts to bytes/sec without overflow;
/// see [`throttle_fits`].
pub fn throttle_fits_check(config: &Config) -> (res: bool)
    ensures
        res == throttle_fits(config@),
{
    config.throttle_download_kbps <= u64::MAX / 1024 && config.throttle_upload_kbps <= u64::MAX / 1024
}

/// Whether a cycle with these inputs would engage the throttle; see
/// [`engages_throttle`].
pub fn engages_throttle_check(config: &Config, was_engaged: bool, matched: &Vec<String>) -> (res: bool)
    ensures
        res == engages_throttle(config@, was_engaged, views(matched@)),
{
    matched.len() > 0 && !was_engaged && trim(config.qbit_url.as_str()).unicode_len() > 0
        && config.action_mode == ActionMode::Throttle
}

fn finished(
    matched: Vec<String>,
    action: ActionTaken,
    saved: Option<SpeedLimits>,
    error: Option<String>,
) -> (res: CycleStep)
    ensures
        res@ == finish(views(matched@), action, saved, opt_view(error)),
{
    CycleStep::Finish(
        MonitorResult { matched_processes: matched, action_taken: action, saved_limits: saved, error },
    )
}

/// Starts one monitoring cycle for the processes in `matched`.
pub fn start_cycle(
    config: &Config,
    was_engaged: bool,
    saved_limits: Option<SpeedLimits>,
    matched: Vec<String>,
) -> (res: CycleStep)
    requires
        engages_throttle(config@, was_engaged, views(matched@)) ==> throttle_fits(config@),
    ensures
        res@ == start_spec(config@, was_engaged, saved_limits, views(matched@)),
{
    let has_matches = matched.len() > 0;
    let none = SpeedLimits { download: 0, upload: 0 };
    if has_matches && !was_engaged {
        let url = trim(config.qbit_url.as_str());
        if url.unicode_len() == 0 {
            let msg = String::from_str("Torrent client URL not configured \u{2014} open Settings");
            finished(matched, ActionTaken::NoAction, None, Some(msg))
        } else {
            match config.action_mode {
                ActionMode::Pause => CycleStep::Call(
                    Cycle { matched, target: none, stage: CycleStage::Pausing },
                    ClientCall::PauseAll,
                ),
                ActionMode::Throttle => {
                    let target = SpeedLimits {
                        download: config.throttle_download_kbps * 1024,
                        upload: config.throttle_upload_kbps * 1024,
                    };
                    CycleStep::Call(
                        Cycle { matched, target, stage: CycleStage::ReadingLimits },
                        ClientCall::GetSpeedLimits,
                    )
                },
            }
        }
    } else if !has_matches && was_engaged {
        disengage(config, saved_limits, matched)
    } else {
        finished(matched, ActionTaken::NoAction, None, None)
    }
}

/// Starts resuming torrents or restoring speed limits, depending on the
/// action mode.
pub fn disengage(config: &Config, saved_limits: Option<SpeedLimits>, matched: Vec<String>) -> (res:
    CycleStep)
    ensures
        res@ == disengage_spec(config@, saved_limits, views(matched@)),
{
    let none = SpeedLimits { download: 0, upload: 0 };
    match config.action_mode {
        ActionMode::Pause => CycleStep::Call(
            Cycle { matched, target: none, stage: CycleStage::Resuming },
            ClientCall::ResumeAll,
        ),
        ActionMode::Throttle => {
            let restore = match saved_limits {
                Some(l) => l,
                None => none,
            };
            CycleStep::Call(
                Cycle { matched, target: none, stage: CycleStage::Restoring },
                ClientCall::SetSpeedLimits(restore),
            )
        },
    }
}

/// Hands the reply to the call a cycle waited on back to the cycle.
pub fn continue_cycle(cycle: Cycle, reply: ClientReply) -> (res: CycleStep)
    requires
        reply_fits(cycle.stage, reply@),
    ensures
        res@ == continue_spec(cycle@, reply@),
{
    let Cycle { matched, target, stage } = cycle;
    match reply {
        ClientReply::Done(Err(e)) => finished(matched, ActionTaken::NoAction, None, Some(e)),
        ClientReply::Limits(Err(e)) => finished(matched, ActionTaken::NoAction, None, Some(e)),
        ClientReply::Limits(Ok(current)) => CycleStep::Call(
            Cycle { matched, target, stage: CycleStage::Throttling { saved: current } },
            ClientCall::SetSpeedLimits(target),
        ),
        ClientReply::Done(Ok(())) => match stage {
            CycleStage::Pausing => finished(matched, ActionTaken::Paused, None, None),
            CycleStage::Resuming => finished(matched, ActionTaken::Resumed, None, None),
            CycleStage::Throttling { saved } => finished(
                matched,
                ActionTaken::Throttled,
                Some(saved),
                None,
            ),
            _ => finished(matched, ActionTaken::Unthrottled, None, None),
        },
    }
}

// ---------------------------------------------------------------------------
// Laws
// ---------------------------------------------------------------------------

/// When the scan agrees with the engaged state (matches while engaged, or
/// none while not engaged), a cycle asks nothing of the client and reports
/// no action and no error.
pub proof fn lemma_steady_state_makes_no_call(
    cfg: ConfigView,
    was_engaged: bool,
    saved: Option<SpeedLimits>,
    matched: Seq<Seq<char>>,
)
    requires
        (matched.len() > 0) == was_engaged,
    ensures
        start_spec(cfg, was_engaged, saved, matched) == finish(matched, ActionTaken::NoAction, None, None),
{
}

/// Throttling then unthrottling gives the client back the limits it had:
/// the limits read before the throttle are reported as saved, and a later
/// disengaging cycle that is handed them sets exactly those limits. The
/// throttle set in between is the configured KB/s times 1024, in bytes/sec.
pub proof fn lemma_throttle_round_trip(
    cfg: ConfigView,
    matched: Seq<Seq<char>>,
    before: SpeedLimits,
)
    requires
        matched.len() > 0,
        trimmed(cfg.qbit_url).len() > 0,
        cfg.action_mode == ActionMode::Throttle,
    ensures
        ({
            let none = SpeedLimits { download: 0, upload: 0 };
            let read = CycleView {
                matched,
                target: throttle_target(cfg),
                stage: CycleStage::ReadingLimits,
            };
            let throttle = CycleView {
                matched,
                target: throttle_target(cfg),
                stage: CycleStage::Throttling { saved: before },
            };
            let restore = CycleView {
                matched: Seq::empty(),
                target: none,
                stage: CycleStage::Restoring,
            };
            &&& start_spec(cfg, false, None, matched) == CycleStepView::Call(
                read,
                ClientCall::GetSpeedLimits,
            )
            &&& continue_spec(read, ClientReplyView::Limits(Ok(before))) == CycleStepView::Call(
                throttle,
                ClientCall::SetSpeedLimits(
                    SpeedLimits {
                        download: (cfg.throttle_download_kbps * 1024) as u64,
                        upload: (cfg.throttle_upload_kbps * 1024) as u64,
                    },
                ),
            )
            &&& continue_spec(throttle, ClientReplyView::Done(Ok(()))) == finish(
                matched,
                ActionTaken::Throttled,
                Some(before),
                None,
            )
            &&& start_spec(cfg, true, Some(before), Seq::empty()) == CycleStepView::Call(
                restore,
                ClientCall::SetSpeedLimits(before),
            )
            &&& continue_spec(restore, ClientReplyView::Done(Ok(()))) == finish(
                Seq::empty(),
                ActionTaken::Unthrottled,
                None,
                None,
            )
        }),
{
}

/// Pausing then resuming: an engaging cycle in pause mode pauses all
/// torrents, and the disengaging cycle that follows resumes them all.
pub proof fn lemma_pause_round_trip(cfg: ConfigView, matched: Seq<Seq<char>>, saved: Option<SpeedLimits>)
    requires
        matched.len() > 0,
        trimmed(cfg.qbit_url).len() > 0,
        cfg.action_mode == ActionMode::Pause,
    ensures
        ({
            let none = SpeedLimits { download: 0, upload: 0 };
            let pausing = CycleView { matched, target: none, stage: CycleStage::Pausing };
            let resuming = CycleView { matched: Seq::empty(), target: none, stage: CycleStage::Resuming };
            &&& start_spec(cfg, false, saved, matched) == CycleStepView::Call(pausing, ClientCall::PauseAll)
            &&& continue_spec(pausing, ClientReplyView::Done(Ok(()))) == finish(
                matched,
                ActionTaken::Paused,
                None,
                None,
            )
            &&& start_spec(cfg, true, saved, Seq::empty()) == CycleStepView::Call(
                resuming,
                ClientCall::ResumeAll,
            )
            &&& continue_spec(resuming, ClientReplyView::Done(Ok(()))) == finish(
                Seq::empty(),
                ActionTaken::Resumed,
                None,
                None,
            )
        }),
{
}

/// Disengaging resumes all torrents in pause mode; in throttle mode it sets
/// the saved limits back, or no limits (0, unlimited) when none were saved.
pub proof fn lemma_disengage_restores(cfg: ConfigView, saved: Option<SpeedLimits>, matched: Seq<Seq<char>>)
    ensures
        match disengage_spec(cfg, saved, matched) {
            CycleStepView::Call(_, call) => call == match cfg.action_mode {
                ActionMode::Pause => ClientCall::ResumeAll,
                ActionMode::Throttle => ClientCall::SetSpeedLimits(
                    match saved {
                        Some(l) => l,
                        None => SpeedLimits { download: 0, upload: 0 },
                    },
                ),
            },
            CycleStepView::Finish(_) => false,
        },
{
}

/// A failed client call ends the cycle with no action, no saved limits and
/// the client's message as the error.
pub proof fn lemma_failure_reports_error(c: CycleView, e: Seq<char>)
    ensures
        continue_spec(c, ClientReplyView::Done(Err(e))) == finish(c.matched, ActionTaken::NoAction, None, Some(e)),
        continue_spec(c, ClientReplyView::Limits(Err(e))) == finish(
            c.matched,
            ActionTaken::NoAction,
            None,
            Some(e),
        ),
{
}

/// A cycle makes at most two client calls: only the read of the limits is
/// followed by another call, and the answer to that call always ends the
/// cycle.
pub proof fn lemma_at_most_two_calls(c: CycleView, r1: ClientReplyView, r2: ClientReplyView)
    ensures
        continue_spec(c, r1) matches CycleStepView::Call(next, _) ==> {
            &&& r1 is Limits
            &&& next.stage is Throttling
            &&& reply_fits(next.stage, r2) ==> continue_spec(next, r2) is Finish
        },
{
}

/// What a finished cycle may report: an unengaged start ends paused,
/// throttled or with no action; an engaged start ends resumed, unthrottled
/// or with no action; saved limits come only with a throttle, and an error
/// only with no action.
pub open spec fn outcome_allowed(was_engaged: bool, r: MonitorResultView) -> bool {
    &&& !was_engaged ==> (r.action_taken == ActionTaken::Paused || r.action_taken == ActionTaken::Throttled
        || r.action_taken == ActionTaken::NoAction)
    &&& was_engaged ==> (r.action_taken == ActionTaken::Resumed || r.action_taken == ActionTaken::Unthrottled
        || r.action_taken == ActionTaken::NoAction)
    &&& r.saved_limits is Some ==> r.action_taken == ActionTaken::Throttled
    &&& r.error is Some ==> r.action_taken == ActionTaken::NoAction
}

/// Every outcome of a whole cycle is allowed: whether it finishes at once,
/// after the first client reply, or after the second, and whatever the
/// client answers (each reply answering the call it was asked).
pub proof fn lemma_cycle_outcome(
    cfg: ConfigView,
    was_engaged: bool,
    saved: Option<SpeedLimits>,
    matched: Seq<Seq<char>>,
    r1: ClientReplyView,
    r2: ClientReplyView,
)
    ensures
        start_spec(cfg, was_engaged, saved, matched) matches CycleStepView::Finish(res) ==> outcome_allowed(
            was_engaged,
            res,
        ),
        start_spec(cfg, was_engaged, saved, matched) matches CycleStepView::Call(c1, _) ==> (reply_fits(
            c1.stage,
            r1,
        ) ==> {
            &&& continue_spec(c1, r1) matches CycleStepView::Finish(res) ==> outcome_allowed(was_engaged, res)
            &&& continue_spec(c1, r1) matches CycleStepView::Call(c2, _) ==> (reply_fits(c2.stage, r2)
                ==> (continue_spec(c2, r2) matches CycleStepView::Finish(res) && outcome_allowed(
                was_engaged,
                res,
            )))
        }),
{
}

/// The engine reports the scanned matches unchanged, whatever it does.
pub proof fn lemma_matches_reported(
    cfg: ConfigView,
    was_engaged: bool,
    saved: Option<SpeedLimits>,
    matched: Seq<Seq<char>>,
    c: CycleView,
    r: ClientReplyView,
)
    ensures
        start_spec(cfg, was_engaged, saved, matched) matches CycleStepView::Finish(res) ==> res.matched_processes == matched,
        start_spec(cfg, was_engaged, saved, matched) matches CycleStepView::Call(next, _) ==> next.matched == matched,
        continue_spec(c, r) matches CycleStepView::Finish(res) ==> res.matched_processes == c.matched,
        continue_spec(c, r) matches CycleStepView::Call(next, _) ==> next.matched == c.matched,
{
}

} // verus!
