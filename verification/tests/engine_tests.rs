use torrent_throttle::client::SpeedLimits;
use torrent_throttle::config::{ActionMode, Config};
use torrent_throttle::engine::{
    continue_cycle, disengage, start_cycle, ActionTaken, ClientCall, ClientReply, CycleStep,
    MonitorResult,
};

fn config(mode: ActionMode) -> Config {
    let mut c = Config::default();
    c.qbit_url = "http://localhost:8080".to_string();
    c.action_mode = mode;
    c.throttle_download_kbps = 100;
    c.throttle_upload_kbps = 50;
    c
}

fn matched(names: &[&str]) -> Vec<String> {
    names.iter().map(|s| s.to_string()).collect()
}

/// Drives a cycle, answering each call with the next reply.
fn drive(mut step: CycleStep, replies: Vec<ClientReply>) -> (MonitorResult, Vec<ClientCall>) {
    let mut calls = Vec::new();
    let mut replies = replies.into_iter();
    loop {
        match step {
            CycleStep::Call(cycle, call) => {
                calls.push(call);
                step = continue_cycle(cycle, replies.next().expect("more calls than replies"));
            }
            CycleStep::Finish(result) => return (result, calls),
        }
    }
}

#[test]
fn nothing_happens_in_steady_state() {
    let c = config(ActionMode::Pause);
    let (r, calls) = drive(start_cycle(&c, false, None, vec![]), vec![]);
    assert!(calls.is_empty());
    assert_eq!(r.action_taken, ActionTaken::NoAction);
    assert!(r.error.is_none());
    let (r, calls) = drive(start_cycle(&c, true, None, matched(&["steam"])), vec![]);
    assert!(calls.is_empty());
    assert_eq!(r.matched_processes, matched(&["steam"]));
    assert_eq!(r.action_taken, ActionTaken::NoAction);
}

#[test]
fn pauses_on_match_and_resumes_after() {
    let c = config(ActionMode::Pause);
    let (r, calls) =
        drive(start_cycle(&c, false, None, matched(&["steam"])), vec![ClientReply::Done(Ok(()))]);
    assert_eq!(calls, vec![ClientCall::PauseAll]);
    assert_eq!(r.action_taken, ActionTaken::Paused);
    let (r, calls) = drive(start_cycle(&c, true, None, vec![]), vec![ClientReply::Done(Ok(()))]);
    assert_eq!(calls, vec![ClientCall::ResumeAll]);
    assert_eq!(r.action_taken, ActionTaken::Resumed);
}

#[test]
fn throttle_saves_and_restores_limits() {
    let c = config(ActionMode::Throttle);
    let before = SpeedLimits { download: 5_000_000, upload: 0 };
    let (r, calls) = drive(
        start_cycle(&c, false, None, matched(&["game"])),
        vec![ClientReply::Limits(Ok(before)), ClientReply::Done(Ok(()))],
    );
    assert_eq!(
        calls,
        vec![
            ClientCall::GetSpeedLimits,
            ClientCall::SetSpeedLimits(SpeedLimits { download: 102_400, upload: 51_200 })
        ]
    );
    assert_eq!(r.action_taken, ActionTaken::Throttled);
    assert_eq!(r.saved_limits, Some(before));

    let (r, calls) =
        drive(start_cycle(&c, true, r.saved_limits, vec![]), vec![ClientReply::Done(Ok(()))]);
    assert_eq!(calls, vec![ClientCall::SetSpeedLimits(before)]);
    assert_eq!(r.action_taken, ActionTaken::Unthrottled);
    assert_eq!(r.saved_limits, None);
}

#[test]
fn restore_without_saved_limits_lifts_the_throttle() {
    let c = config(ActionMode::Throttle);
    let (_, calls) = drive(disengage(&c, None, vec![]), vec![ClientReply::Done(Ok(()))]);
    assert_eq!(calls, vec![ClientCall::SetSpeedLimits(SpeedLimits { download: 0, upload: 0 })]);
}

#[test]
fn missing_url_is_reported_without_calls() {
    let mut c = config(ActionMode::Pause);
    c.qbit_url = "   ".to_string();
    let (r, calls) = drive(start_cycle(&c, false, None, matched(&["steam"])), vec![]);
    assert!(calls.is_empty());
    assert_eq!(r.action_taken, ActionTaken::NoAction);
    assert_eq!(
        r.error.as_deref(),
        Some("Torrent client URL not configured \u{2014} open Settings")
    );
}

#[test]
fn failed_calls_report_errors() {
    let c = config(ActionMode::Throttle);
    let (r, calls) = drive(
        start_cycle(&c, false, None, matched(&["game"])),
        vec![ClientReply::Limits(Err("Request failed: boom".to_string()))],
    );
    assert_eq!(calls.len(), 1);
    assert_eq!(r.action_taken, ActionTaken::NoAction);
    assert_eq!(r.saved_limits, None);
    assert_eq!(r.error.as_deref(), Some("Request failed: boom"));

    let (r, _) = drive(
        start_cycle(&c, false, None, matched(&["game"])),
        vec![
            ClientReply::Limits(Ok(SpeedLimits { download: 1, upload: 2 })),
            ClientReply::Done(Err("Authentication failed".to_string())),
        ],
    );
    assert_eq!(r.action_taken, ActionTaken::NoAction);
    assert_eq!(r.saved_limits, None);
    assert_eq!(r.error.as_deref(), Some("Authentication failed"));
}

fn replies(kind: u8) -> Vec<ClientReply> {
    let limits = SpeedLimits { download: 7, upload: 8 };
    match kind {
        0 => vec![ClientReply::Done(Ok(()))],
        1 => vec![ClientReply::Done(Err("boom".to_string()))],
        2 => vec![ClientReply::Limits(Ok(limits)), ClientReply::Done(Ok(()))],
        3 => vec![ClientReply::Limits(Ok(limits)), ClientReply::Done(Err("boom".to_string()))],
        _ => vec![ClientReply::Limits(Err("boom".to_string()))],
    }
}

#[test]
fn every_cycle_outcome_fits_its_start() {
    for mode in [ActionMode::Pause, ActionMode::Throttle] {
        for was_engaged in [false, true] {
            for names in [vec![], matched(&["steam"])] {
                for kind in 0..5u8 {
                    let c = config(mode);
                    let step = start_cycle(&c, was_engaged, Some(SpeedLimits { download: 1, upload: 2 }), names.clone());
                    // Only answer calls with replies of the kind they ask for.
                    let first_is_read = matches!(&step, CycleStep::Call(_, ClientCall::GetSpeedLimits));
                    if matches!(&step, CycleStep::Call(..)) && first_is_read != (kind >= 2) {
                        continue;
                    }
                    let (r, _) = drive(step, replies(kind));
                    let allowed = if was_engaged {
                        [ActionTaken::Resumed, ActionTaken::Unthrottled, ActionTaken::NoAction]
                    } else {
                        [ActionTaken::Paused, ActionTaken::Throttled, ActionTaken::NoAction]
                    };
                    assert!(allowed.contains(&r.action_taken));
                    if r.saved_limits.is_some() {
                        assert_eq!(r.action_taken, ActionTaken::Throttled);
                    }
                    if r.error.is_some() {
                        assert_eq!(r.action_taken, ActionTaken::NoAction);
                    }
                }
            }
        }
    }
}
