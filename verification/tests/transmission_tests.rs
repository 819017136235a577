use torrent_throttle::client::SpeedLimits;
use torrent_throttle::http::HttpStatus;
use torrent_throttle::json::{
    JsonDocument, JsonField, JsonLeaf, JsonMember, JsonObject, JsonTopMember,
};
use torrent_throttle::transmission::{
    response_fits_check, RpcPost, RpcResponse, RpcStep, TransmissionClient, TransmissionError,
    TransmissionOp, TransmissionOutput,
};

const URL: &str = "http://127.0.0.1:9091";

/// A canned response: status, session id header, reply document.
struct Canned {
    status: u16,
    session_id: Option<&'static str>,
    body: Result<JsonDocument, String>,
}

fn leaf_member(key: &str, value: JsonLeaf) -> JsonMember {
    JsonMember { key: key.to_string(), value }
}

/// `{"result": result, "arguments": {args}}`.
fn reply(result: &str, args: Vec<JsonMember>) -> JsonDocument {
    JsonDocument::Object(vec![
        JsonTopMember { key: "result".to_string(), value: JsonField::Leaf(JsonLeaf::Str(result.to_string())) },
        JsonTopMember {
            key: "arguments".to_string(),
            value: JsonField::Object(JsonObject { members: args }),
        },
    ])
}

fn success_empty() -> Canned {
    Canned { status: 200, session_id: None, body: Ok(reply("success", vec![])) }
}

fn run(
    client: &mut TransmissionClient,
    op: TransmissionOp,
    responses: Vec<Canned>,
) -> (Result<TransmissionOutput, TransmissionError>, Vec<RpcPost>) {
    let mut posts = Vec::new();
    let mut responses = responses.into_iter();
    let (mut ex, post) = client.start(op);
    posts.push(post);
    loop {
        let canned = responses.next().expect("more requests than responses");
        let response = RpcResponse::Http {
            status: HttpStatus::from_code(canned.status).unwrap(),
            session_id: canned.session_id.map(str::to_string),
            body: canned.body,
        };
        match client.on_response(ex, response) {
            RpcStep::Send(next, post) => {
                posts.push(post);
                ex = next;
            }
            RpcStep::Done(result) => return (result, posts),
        }
    }
}

fn method_of(post: &RpcPost) -> String {
    match &post.body {
        JsonDocument::Object(members) => match &members[0].value {
            JsonField::Leaf(JsonLeaf::Str(m)) if members[0].key == "method" => m.clone(),
            _ => panic!("first member is not the method"),
        },
        JsonDocument::Other => panic!("body is not an object"),
    }
}

fn arguments_of(post: &RpcPost) -> &JsonObject {
    match &post.body {
        JsonDocument::Object(members) => match &members[1].value {
            JsonField::Object(o) if members[1].key == "arguments" => o,
            _ => panic!("second member is not the arguments"),
        },
        JsonDocument::Other => panic!("body is not an object"),
    }
}

#[test]
fn session_id_handshake_and_pause_all() {
    let mut client = TransmissionClient::new(URL, "", "");
    let (result, posts) = run(
        &mut client,
        TransmissionOp::PauseAll,
        vec![
            Canned { status: 409, session_id: Some("abc123"), body: Err("EOF".to_string()) },
            success_empty(),
        ],
    );
    result.unwrap();
    assert_eq!(posts.len(), 2);
    // Bare URL gets the default RPC path appended.
    assert_eq!(posts[0].url, "http://127.0.0.1:9091/transmission/rpc");
    // First request has no session id; the retry echoes the fresh one.
    assert_eq!(posts[0].session_id, None);
    assert_eq!(posts[1].session_id.as_deref(), Some("abc123"));
    // The retry re-sends the same RPC body.
    assert_eq!(method_of(&posts[1]), "torrent-stop");
    // Omitted ids = all torrents.
    assert!(arguments_of(&posts[1]).members.iter().all(|m| m.key != "ids"));
    assert_eq!(client.session_id.as_deref(), Some("abc123"));
}

#[test]
fn custom_rpc_path_is_preserved() {
    let mut client = TransmissionClient::new(&format!("{URL}/tr/rpc/"), "", "");
    let (result, posts) = run(&mut client, TransmissionOp::ResumeAll, vec![success_empty()]);
    result.unwrap();
    assert_eq!(posts[0].url, "http://127.0.0.1:9091/tr/rpc");
    assert_eq!(method_of(&posts[0]), "torrent-start");
}

#[test]
fn get_speed_limits_converts_units() {
    // Download limited to 100 KBps (SI), upload unlimited (disabled).
    let mut client = TransmissionClient::new(URL, "", "");
    let args = vec![
        leaf_member("speed-limit-down", JsonLeaf::UInt(100)),
        leaf_member("speed-limit-down-enabled", JsonLeaf::Bool(true)),
        leaf_member("speed-limit-up", JsonLeaf::UInt(50)),
        leaf_member("speed-limit-up-enabled", JsonLeaf::Bool(false)),
    ];
    let (result, posts) = run(
        &mut client,
        TransmissionOp::GetSpeedLimits,
        vec![Canned { status: 200, session_id: None, body: Ok(reply("success", args)) }],
    );
    match result.unwrap() {
        TransmissionOutput::Limits(limits) => {
            assert_eq!(limits, SpeedLimits { download: 100_000, upload: 0 })
        }
        other => panic!("expected limits, got {other:?}"),
    }
    assert_eq!(method_of(&posts[0]), "session-get");
    match arguments_of(&posts[0]).get("fields") {
        Some(JsonLeaf::StrArray(fields)) => assert_eq!(
            fields,
            &vec![
                "speed-limit-down".to_string(),
                "speed-limit-down-enabled".to_string(),
                "speed-limit-up".to_string(),
                "speed-limit-up-enabled".to_string()
            ]
        ),
        other => panic!("expected fields, got {other:?}"),
    }
}

#[test]
fn set_speed_limits_converts_and_disables() {
    let mut client = TransmissionClient::new(URL, "", "");
    // 102400 bytes/sec -> 102 KBps enabled; 0 -> disabled, value untouched.
    let (result, posts) = run(
        &mut client,
        TransmissionOp::SetSpeedLimits(SpeedLimits { download: 102_400, upload: 0 }),
        vec![success_empty()],
    );
    result.unwrap();
    let args = arguments_of(&posts[0]);
    assert_eq!(method_of(&posts[0]), "session-set");
    assert_eq!(args.get_u64("speed-limit-down"), Some(102));
    assert_eq!(args.get_bool("speed-limit-down-enabled"), Some(true));
    assert_eq!(args.get_bool("speed-limit-up-enabled"), Some(false));
    assert!(args.get("speed-limit-up").is_none());
}

#[test]
fn small_nonzero_limit_rounds_up_to_one_kbps() {
    let mut client = TransmissionClient::new(URL, "", "");
    let (_, posts) = run(
        &mut client,
        TransmissionOp::SetSpeedLimits(SpeedLimits { download: 10, upload: 51_200 }),
        vec![success_empty()],
    );
    let args = arguments_of(&posts[0]);
    assert_eq!(args.get_u64("speed-limit-down"), Some(1));
    assert_eq!(args.get_u64("speed-limit-up"), Some(51));
}

#[test]
fn blank_credentials_get_helpful_auth_error() {
    let mut client = TransmissionClient::new(URL, "", "");
    let (result, posts) = run(
        &mut client,
        TransmissionOp::PauseAll,
        vec![Canned { status: 401, session_id: None, body: Err("EOF".to_string()) }],
    );
    match result.unwrap_err() {
        TransmissionError::RequestFailed(msg) => assert!(msg.contains("authentication required")),
        other => panic!("expected RequestFailed, got {other:?}"),
    }
    assert!(posts[0].basic_auth.is_none());
}

#[test]
fn wrong_credentials_report_auth_failed() {
    let mut client = TransmissionClient::new(URL, "user", "wrong");
    let (result, posts) = run(
        &mut client,
        TransmissionOp::PauseAll,
        vec![Canned { status: 401, session_id: None, body: Err("EOF".to_string()) }],
    );
    assert_eq!(result.unwrap_err(), TransmissionError::AuthFailed);
    // Basic auth was actually sent.
    assert_eq!(posts[0].basic_auth, Some(("user".to_string(), "wrong".to_string())));
}

#[test]
fn test_connection_reads_version_and_rpc_errors_surface() {
    let mut client = TransmissionClient::new(URL, "", "");
    let version = vec![leaf_member("version", JsonLeaf::Str("4.0.6".to_string()))];
    let (result, _) = run(
        &mut client,
        TransmissionOp::TestConnection,
        vec![Canned { status: 200, session_id: None, body: Ok(reply("success", version)) }],
    );
    match result.unwrap() {
        TransmissionOutput::Version(v) => assert_eq!(v, "4.0.6"),
        other => panic!("expected version, got {other:?}"),
    }

    let only_result = JsonDocument::Object(vec![JsonTopMember {
        key: "result".to_string(),
        value: JsonField::Leaf(JsonLeaf::Str("method name not recognized".to_string())),
    }]);
    let (result, _) = run(
        &mut client,
        TransmissionOp::PauseAll,
        vec![Canned { status: 200, session_id: None, body: Ok(only_result) }],
    );
    assert_eq!(
        result.unwrap_err(),
        TransmissionError::RequestFailed("method name not recognized".to_string())
    );
}

#[test]
fn status_errors_are_named() {
    let cases = [
        (403, "forbidden: check Transmission's rpc-whitelist settings"),
        (500, "HTTP 500 Internal Server Error"),
    ];
    for (code, expected) in cases {
        let mut client = TransmissionClient::new(URL, "", "");
        let (result, _) = run(
            &mut client,
            TransmissionOp::PauseAll,
            vec![Canned { status: code, session_id: None, body: Err("EOF".to_string()) }],
        );
        assert_eq!(result.unwrap_err(), TransmissionError::RequestFailed(expected.to_string()));
    }
}

#[test]
fn second_conflict_cannot_negotiate() {
    let mut client = TransmissionClient::new(URL, "", "");
    let (result, _) = run(
        &mut client,
        TransmissionOp::PauseAll,
        vec![
            Canned { status: 409, session_id: Some("a"), body: Err("EOF".to_string()) },
            Canned { status: 409, session_id: Some("b"), body: Err("EOF".to_string()) },
        ],
    );
    assert_eq!(
        result.unwrap_err(),
        TransmissionError::RequestFailed("could not negotiate a session id".to_string())
    );
    let mut client = TransmissionClient::new(URL, "", "");
    let (result, _) = run(
        &mut client,
        TransmissionOp::PauseAll,
        vec![Canned { status: 409, session_id: None, body: Err("EOF".to_string()) }],
    );
    assert_eq!(
        result.unwrap_err(),
        TransmissionError::RequestFailed("server sent 409 without a session id header".to_string())
    );
}

#[test]
fn malformed_replies_are_reported() {
    let mut client = TransmissionClient::new(URL, "", "");
    let (result, _) = run(
        &mut client,
        TransmissionOp::ResumeAll,
        vec![Canned { status: 200, session_id: None, body: Err("expected value at line 1".to_string()) }],
    );
    assert_eq!(
        result.unwrap_err(),
        TransmissionError::RequestFailed("invalid RPC reply: expected value at line 1".to_string())
    );
    let (result, _) = run(
        &mut client,
        TransmissionOp::ResumeAll,
        vec![Canned { status: 200, session_id: None, body: Ok(JsonDocument::Other) }],
    );
    assert_eq!(
        result.unwrap_err(),
        TransmissionError::RequestFailed("RPC reply missing result field".to_string())
    );
    let args = vec![leaf_member("speed-limit-down", JsonLeaf::UInt(1))];
    let (result, _) = run(
        &mut client,
        TransmissionOp::GetSpeedLimits,
        vec![Canned { status: 200, session_id: None, body: Ok(reply("success", args)) }],
    );
    assert_eq!(
        result.unwrap_err(),
        TransmissionError::RequestFailed("session-get reply missing speed-limit-down-enabled".to_string())
    );
    let (result, _) = run(
        &mut client,
        TransmissionOp::TestConnection,
        vec![Canned { status: 200, session_id: None, body: Ok(reply("success", vec![])) }],
    );
    assert_eq!(
        result.unwrap_err(),
        TransmissionError::RequestFailed("session-get reply missing version".to_string())
    );
    assert_eq!(result_message(), "Request failed: x");
}

fn result_message() -> String {
    TransmissionError::RequestFailed("x".to_string()).message()
}

fn limits_response(status: u16, result: &str, down: u64, up: u64) -> RpcResponse {
    let args = vec![
        leaf_member("speed-limit-down-enabled", JsonLeaf::Bool(true)),
        leaf_member("speed-limit-down", JsonLeaf::UInt(down)),
        leaf_member("speed-limit-up-enabled", JsonLeaf::Bool(true)),
        leaf_member("speed-limit-up", JsonLeaf::UInt(up)),
    ];
    RpcResponse::Http {
        status: HttpStatus::from_code(status).unwrap(),
        session_id: None,
        body: Ok(reply(result, args)),
    }
}

#[test]
fn only_overflowing_limit_replies_are_refused() {
    let huge = u64::MAX / 1000 + 1;
    let fits = u64::MAX / 1000;
    let op = TransmissionOp::GetSpeedLimits;
    assert!(response_fits_check(op, &limits_response(200, "success", fits, fits)));
    assert!(!response_fits_check(op, &limits_response(200, "success", huge, 1)));
    assert!(!response_fits_check(op, &limits_response(200, "success", 1, huge)));
    // Replies that end in an error never reach the conversion.
    assert!(response_fits_check(op, &limits_response(200, "no such method", huge, huge)));
    assert!(response_fits_check(op, &limits_response(409, "success", huge, huge)));
    assert!(response_fits_check(TransmissionOp::TestConnection, &limits_response(200, "success", huge, huge)));
    // The largest limit that fits is converted exactly.
    let mut client = TransmissionClient::new(URL, "", "");
    let (ex, _) = client.get_speed_limits();
    match client.on_response(ex, limits_response(200, "success", fits, 0)) {
        RpcStep::Done(Ok(TransmissionOutput::Limits(l))) => {
            assert_eq!(l, SpeedLimits { download: fits * 1000, upload: 0 })
        }
        _ => panic!("expected the limits"),
    }
}

/// Sets `limits`, then reads them back from a daemon that stores exactly
/// the arguments it was sent.
fn set_then_get(client: &mut TransmissionClient, limits: SpeedLimits) -> SpeedLimits {
    let (result, posts) = run(client, TransmissionOp::SetSpeedLimits(limits), vec![success_empty()]);
    result.unwrap();
    let stored = arguments_of(&posts[0]).members.clone();
    let (result, _) = run(
        client,
        TransmissionOp::GetSpeedLimits,
        vec![Canned { status: 200, session_id: None, body: Ok(reply("success", stored)) }],
    );
    match result.unwrap() {
        TransmissionOutput::Limits(l) => l,
        other => panic!("expected limits, got {other:?}"),
    }
}

#[test]
fn throttle_and_restore_round_trip() {
    let mut client = TransmissionClient::new(URL, "", "");
    // The engine's 100 and 50 KB/s become 102400 and 51200 bytes/sec,
    // which the daemon keeps as 102 and 51 KBps.
    let applied = set_then_get(&mut client, SpeedLimits { download: 100 * 1024, upload: 50 * 1024 });
    assert_eq!(applied, SpeedLimits { download: 102_000, upload: 51_000 });
    // Limits read from the daemon are whole KBps and come back unchanged.
    let saved = SpeedLimits { download: 2_000_000, upload: 0 };
    assert_eq!(set_then_get(&mut client, saved), saved);
}
