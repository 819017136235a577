use torrent_throttle::client::SpeedLimits;
use torrent_throttle::http::HttpStatus;
use torrent_throttle::qbit::{
    login_outcome, QbitApiVersion, QbitClient, QbitError, QbitOp, QbitOutput, QbitRequest,
    QbitResponse, QbitStep,
};

const URL: &str = "http://127.0.0.1:8080";

fn status(code: u16) -> HttpStatus {
    HttpStatus::from_code(code).unwrap()
}

/// Runs `op` against canned (status, body) responses, served in order, and
/// returns the result with the requests that were made.
fn run(
    client: &mut QbitClient,
    op: QbitOp,
    responses: Vec<(u16, &str)>,
) -> (Result<QbitOutput, QbitError>, Vec<QbitRequest>) {
    let mut requests = Vec::new();
    let mut responses = responses.into_iter();
    let mut step = client.start(op);
    loop {
        match step {
            QbitStep::Send(run, request) => {
                requests.push(request);
                let (code, body) = responses.next().expect("more requests than responses");
                step = client.on_response(
                    run,
                    QbitResponse::Http { status: status(code), body: Ok(body.to_string()) },
                );
            }
            QbitStep::Done(result) => return (result, requests),
        }
    }
}

fn url_of(request: &QbitRequest) -> &str {
    match request {
        QbitRequest::Post { url, .. } => url,
        QbitRequest::Get { url } => url,
    }
}

/// A Transmission server answers qBittorrent API requests with 409 and an
/// HTML body. That must surface as a clear error, not a number-parse
/// failure on the HTML ("invalid digit found in string").
#[test]
fn get_limit_rejects_non_success_status() {
    let mut client = QbitClient::new(URL, "", "", QbitApiVersion::V5);
    let (result, _) = run(
        &mut client,
        QbitOp::GetDownloadLimit,
        vec![(409, "<h1>409: Conflict</h1><p>invalid session_id header.</p>")],
    );
    match result.unwrap_err() {
        QbitError::RequestFailed(msg) => {
            assert!(msg.contains("HTTP 409"), "unexpected message: {msg}");
            assert!(!msg.contains("invalid digit"), "unexpected message: {msg}");
        }
        other => panic!("expected RequestFailed, got {other:?}"),
    }
}

/// pause_all against a non-qBittorrent server must fail, not silently
/// succeed (only 404 triggers the version fallback).
#[test]
fn pause_all_rejects_non_success_status() {
    let mut client = QbitClient::new(URL, "", "", QbitApiVersion::V5);
    let (result, _) = run(&mut client, QbitOp::PauseAll, vec![(409, "<h1>409: Conflict</h1>")]);
    match result.unwrap_err() {
        QbitError::RequestFailed(msg) => assert!(msg.contains("HTTP 409"), "unexpected message: {msg}"),
        other => panic!("expected RequestFailed, got {other:?}"),
    }
}

/// set limits must also report non-success statuses.
#[test]
fn set_limit_rejects_non_success_status() {
    let mut client = QbitClient::new(URL, "", "", QbitApiVersion::V5);
    let (result, _) =
        run(&mut client, QbitOp::SetDownloadLimit(1024), vec![(500, "something broke")]);
    match result.unwrap_err() {
        QbitError::RequestFailed(msg) => assert!(msg.contains("HTTP 500"), "unexpected message: {msg}"),
        other => panic!("expected RequestFailed, got {other:?}"),
    }
}

/// The 404 endpoint-rename fallback still works: stop -> 404, pause -> 200.
#[test]
fn pause_all_falls_back_on_404() {
    let mut client = QbitClient::new(URL, "", "", QbitApiVersion::V5);
    let (result, requests) = run(&mut client, QbitOp::PauseAll, vec![(404, ""), (200, "Ok.")]);
    assert!(matches!(result.unwrap(), QbitOutput::Unit));
    assert!(matches!(requests[0], QbitRequest::Post { .. }));
    assert!(url_of(&requests[0]).ends_with("/api/v2/torrents/stop"));
    assert!(url_of(&requests[1]).ends_with("/api/v2/torrents/pause"));
}

/// Happy path: limits parse from plain numeric bodies.
#[test]
fn get_speed_limits_parses_numbers() {
    let mut client = QbitClient::new(URL, "", "", QbitApiVersion::V5);
    let (result, requests) =
        run(&mut client, QbitOp::GetSpeedLimits, vec![(200, "1048576"), (200, "0")]);
    match result.unwrap() {
        QbitOutput::Limits(limits) => {
            assert_eq!(limits, SpeedLimits { download: 1_048_576, upload: 0 })
        }
        other => panic!("expected limits, got {other:?}"),
    }
    assert_eq!(url_of(&requests[0]), "http://127.0.0.1:8080/api/v2/transfer/downloadLimit");
    assert_eq!(url_of(&requests[1]), "http://127.0.0.1:8080/api/v2/transfer/uploadLimit");
}

#[test]
fn message_names_status_reason_and_url() {
    let mut client = QbitClient::new("http://host:8080///", "", "", QbitApiVersion::V5);
    assert_eq!(client.base_url, "http://host:8080");
    let (result, _) = run(&mut client, QbitOp::GetUploadLimit, vec![(502, "")]);
    assert_eq!(
        result.unwrap_err().message(),
        "Request failed: HTTP 502 Bad Gateway from http://host:8080/api/v2/transfer/uploadLimit \
         \u{2014} check that the URL points to a qBittorrent WebUI and the right client is \
         selected in Settings"
    );
}

#[test]
fn unknown_status_code_has_placeholder_reason() {
    let mut client = QbitClient::new(URL, "", "", QbitApiVersion::V5);
    let (result, _) = run(&mut client, QbitOp::GetUploadLimit, vec![(599, "")]);
    match result.unwrap_err() {
        QbitError::RequestFailed(msg) => {
            assert!(msg.starts_with("HTTP 599 <unknown status code> from "), "{msg}")
        }
        other => panic!("expected RequestFailed, got {other:?}"),
    }
}

#[test]
fn v4_pauses_with_old_endpoint_first() {
    let mut client = QbitClient::new(URL, "", "", QbitApiVersion::V4);
    let (result, requests) = run(&mut client, QbitOp::ResumeAll, vec![(404, ""), (200, "")]);
    assert!(result.is_ok());
    assert!(url_of(&requests[0]).ends_with("/api/v2/torrents/resume"));
    assert!(url_of(&requests[1]).ends_with("/api/v2/torrents/start"));
    match &requests[0] {
        QbitRequest::Post { form, .. } => {
            assert_eq!(form, &vec![("hashes".to_string(), "all".to_string())])
        }
        other => panic!("expected a POST, got {other:?}"),
    }
}

#[test]
fn fallback_failure_names_fallback_url() {
    let mut client = QbitClient::new(URL, "", "", QbitApiVersion::V5);
    let (result, _) = run(&mut client, QbitOp::PauseAll, vec![(404, ""), (404, "")]);
    match result.unwrap_err() {
        QbitError::RequestFailed(msg) => {
            assert!(msg.contains("HTTP 404 Not Found from http://127.0.0.1:8080/api/v2/torrents/pause"), "{msg}")
        }
        other => panic!("expected RequestFailed, got {other:?}"),
    }
}

#[test]
fn credentials_log_in_before_first_request() {
    let mut client = QbitClient::new(URL, "admin", "secret", QbitApiVersion::V5);
    let (result, requests) = run(
        &mut client,
        QbitOp::SetUploadLimit(2048),
        vec![(200, "Ok."), (200, "")],
    );
    assert!(result.is_ok());
    assert_eq!(requests.len(), 2);
    match &requests[0] {
        QbitRequest::Post { url, form } => {
            assert_eq!(url, "http://127.0.0.1:8080/api/v2/auth/login");
            assert_eq!(
                form,
                &vec![
                    ("username".to_string(), "admin".to_string()),
                    ("password".to_string(), "secret".to_string())
                ]
            );
        }
        other => panic!("expected login POST, got {other:?}"),
    }
    match &requests[1] {
        QbitRequest::Post { url, form } => {
            assert!(url.ends_with("/api/v2/transfer/setUploadLimit"));
            assert_eq!(form, &vec![("limit".to_string(), "2048".to_string())]);
        }
        other => panic!("expected POST, got {other:?}"),
    }
    assert!(client.authenticated);
    // A second operation needs no new login.
    let (_, requests) = run(&mut client, QbitOp::GetDownloadLimit, vec![(200, "5")]);
    assert_eq!(requests.len(), 1);
}

#[test]
fn bad_credentials_report_auth_failed() {
    let mut client = QbitClient::new(URL, "admin", "wrong", QbitApiVersion::V5);
    let (result, _) = run(&mut client, QbitOp::PauseAll, vec![(200, "Fails.")]);
    assert_eq!(result.unwrap_err(), QbitError::AuthFailed);
}

#[test]
fn banned_ip_message_surfaces() {
    let result = login_outcome(
        status(403),
        "  Your IP address has been banned after too many failed authentication attempts.\n",
    );
    assert_eq!(
        result.unwrap_err(),
        QbitError::RequestFailed(
            "Your IP address has been banned after too many failed authentication attempts."
                .to_string()
        )
    );
    assert!(login_outcome(status(204), "").is_ok());
    assert_eq!(login_outcome(status(500), "  "), Err(QbitError::AuthFailed));
}

#[test]
fn forbidden_relogs_in_once_then_reports_auth_required() {
    let mut client = QbitClient::new(URL, "", "", QbitApiVersion::V5);
    let (result, requests) = run(&mut client, QbitOp::PauseAll, vec![(403, ""), (403, "")]);
    assert_eq!(requests.len(), 2);
    match result.unwrap_err() {
        QbitError::RequestFailed(msg) => assert!(msg.starts_with("authentication required")),
        other => panic!("expected RequestFailed, got {other:?}"),
    }

    let mut client = QbitClient::new(URL, "u", "p", QbitApiVersion::V5);
    client.authenticated = true;
    let (result, requests) =
        run(&mut client, QbitOp::PauseAll, vec![(403, ""), (200, "Ok."), (200, "")]);
    assert!(result.is_ok());
    assert_eq!(requests.len(), 3);
    assert!(url_of(&requests[1]).ends_with("/api/v2/auth/login"));
    assert!(url_of(&requests[2]).ends_with("/api/v2/torrents/stop"));
}

#[test]
fn unparsable_limit_names_the_parse_error() {
    let mut client = QbitClient::new(URL, "", "", QbitApiVersion::V5);
    let (result, _) = run(&mut client, QbitOp::GetUploadLimit, vec![(200, "fast")]);
    assert_eq!(
        result.unwrap_err(),
        QbitError::RequestFailed("failed to parse upload limit: invalid digit found in string".to_string())
    );
    let (result, _) = run(&mut client, QbitOp::GetDownloadLimit, vec![(200, " \n")]);
    assert_eq!(
        result.unwrap_err(),
        QbitError::RequestFailed(
            "failed to parse download limit: cannot parse integer from empty string".to_string()
        )
    );
}

#[test]
fn test_connection_always_logs_in_and_reads_version() {
    let mut client = QbitClient::new(URL, "admin", "pw", QbitApiVersion::V5);
    client.authenticated = true;
    let (result, requests) =
        run(&mut client, QbitOp::TestConnection, vec![(200, "Ok."), (200, "v5.0.2")]);
    assert_eq!(requests.len(), 2);
    assert!(url_of(&requests[1]).ends_with("/api/v2/app/version"));
    match result.unwrap() {
        QbitOutput::Version(v) => assert_eq!(v, "v5.0.2"),
        other => panic!("expected version, got {other:?}"),
    }
}

#[test]
fn transport_error_is_request_failed() {
    let mut client = QbitClient::new(URL, "", "", QbitApiVersion::V5);
    let step = client.start(QbitOp::PauseAll);
    let run = match step {
        QbitStep::Send(run, _) => run,
        QbitStep::Done(_) => panic!("expected a request"),
    };
    match client.on_response(run, QbitResponse::Transport("connection refused".to_string())) {
        QbitStep::Done(Err(e)) => {
            assert_eq!(e, QbitError::RequestFailed("connection refused".to_string()));
            assert_eq!(e.message(), "Request failed: connection refused");
        }
        other => panic!("expected failure, got {other:?}"),
    }
}

#[test]
fn referer_and_origin_headers_follow_base_url() {
    let client = QbitClient::new("http://localhost:8080/", "", "", QbitApiVersion::V5);
    let headers = client.default_headers();
    assert_eq!(
        headers,
        vec![
            ("Referer".to_string(), "http://localhost:8080".to_string()),
            ("Origin".to_string(), "http://localhost:8080".to_string())
        ]
    );
    let bad = QbitClient::new("http://local\nhost", "", "", QbitApiVersion::V5);
    assert!(bad.default_headers().is_empty());
}
