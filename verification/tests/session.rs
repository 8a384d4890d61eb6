use robloxapi::errors::ApiError;
use robloxapi::session::{decode_body, FlowPhase, FlowStep, RequestFlow};
use robloxapi::Session;

/// A fresh session sends its first request with no token; a 4xx response
/// carrying a fresh token triggers exactly one retry with that token, and
/// the token is stored.
#[test]
fn token_refresh_stores_and_retries() {
    let mut session = Session::new();
    let (mut flow, first_token) = RequestFlow::start(&session);
    assert!(first_token.is_none());
    assert!(matches!(flow.phase, FlowPhase::SentFirst));

    let step = flow.on_response(&mut session, 403, Some("T1".to_string()));
    match step {
        FlowStep::Send { token } => assert_eq!(token.unwrap(), "T1"),
        _ => panic!("expected a retry send"),
    }
    assert_eq!(session.token.as_deref(), Some("T1"));
    assert!(matches!(flow.phase, FlowPhase::SentRetry));
}

/// If the retried request also returns 4xx, the exchange settles with a
/// decode of that response; no third request is issued.
#[test]
fn no_third_request_after_retried_4xx() {
    let mut session = Session::new();
    let (mut flow, _) = RequestFlow::start(&session);
    let _ = flow.on_response(&mut session, 403, Some("T1".to_string()));

    let step = flow.on_response(&mut session, 403, Some("T2".to_string()));
    let status = match step {
        FlowStep::Decode { status } => status,
        _ => panic!("the retried response must settle the exchange"),
    };
    assert_eq!(status, 403);
    assert!(matches!(flow.phase, FlowPhase::Settled));

    // the settled 4xx body decodes into an error for the caller
    let env = envelope(Some("Token Validation Failed"), None, None);
    let outcome = decode_body::<u8>(status, Some(env), Err("not a payload".to_string()));
    match outcome {
        Err(ApiError::Roblox { status_code, reason }) => {
            assert_eq!(status_code, 403);
            assert_eq!(reason, "Token Validation Failed");
        }
        _ => panic!("the caller must see an error"),
    }
}

/// A challenge without a fresh token retries with the previously stored
/// token.
#[test]
fn challenge_without_header_reuses_stored_token() {
    let mut session = Session { token: Some("OLD".to_string()) };
    let (mut flow, first_token) = RequestFlow::start(&session);
    assert_eq!(first_token.as_deref(), Some("OLD"));

    let step = flow.on_response(&mut session, 429, None);
    match step {
        FlowStep::Send { token } => assert_eq!(token.unwrap(), "OLD"),
        _ => panic!("expected a retry send with the stored token"),
    }
    assert_eq!(session.token.as_deref(), Some("OLD"));
}

/// A challenge with no fresh token and no stored token is a logic fault.
#[test]
fn challenge_without_any_token_fails() {
    let mut session = Session::new();
    let (mut flow, _) = RequestFlow::start(&session);
    let step = flow.on_response(&mut session, 401, None);
    assert!(matches!(step, FlowStep::Fail));
    assert!(matches!(flow.phase, FlowPhase::Settled));
    assert!(session.token.is_none());
}

/// A success on the first send settles immediately: one request, no retry.
#[test]
fn success_settles_without_retry() {
    let mut session = Session { token: Some("TOK".to_string()) };
    let (mut flow, _) = RequestFlow::start(&session);
    let step = flow.on_response(&mut session, 200, None);
    match step {
        FlowStep::Decode { status } => assert_eq!(status, 200),
        _ => panic!("a 2xx response must settle the exchange"),
    }
    assert_eq!(session.token.as_deref(), Some("TOK"));
}

fn envelope(
    message: Option<&str>,
    title: Option<&str>,
    success: Option<bool>,
) -> robloxapi::errors::RobloxApiErrorResponse {
    robloxapi::errors::RobloxApiErrorResponse {
        message: message.map(|s| s.to_string()),
        title: title.map(|s| s.to_string()),
        errors: None,
        success,
    }
}

/// A non-empty envelope wins over the typed payload and carries its
/// resolved reason and the response's status code.
#[test]
fn decode_prefers_error_envelope() {
    let env = envelope(Some("A"), Some("B"), None);
    let r = decode_body::<u8>(400, Some(env), Ok(7));
    match r {
        Err(ApiError::Roblox { status_code, reason }) => {
            assert_eq!(status_code, 400);
            assert_eq!(reason, "A");
        }
        _ => panic!("expected a Roblox error"),
    }
}

/// An envelope that is non-empty yet yields no reason reports
/// "Unknown error".
#[test]
fn decode_defaults_unknown_reason() {
    let env = envelope(None, None, Some(false));
    let r = decode_body::<u8>(500, Some(env), Ok(7));
    match r {
        Err(ApiError::Roblox { status_code, reason }) => {
            assert_eq!(status_code, 500);
            assert_eq!(reason, "Unknown error");
        }
        _ => panic!("expected a Roblox error"),
    }
}

/// An empty envelope raises no error: the body is parsed as the target
/// type instead.
#[test]
fn decode_empty_envelope_parses_target() {
    let env = envelope(None, None, None);
    let r = decode_body::<u8>(200, Some(env), Ok(7));
    assert_eq!(r.unwrap(), 7);
}

/// A body that matched neither shape fails with ParseJson.
#[test]
fn decode_reports_parse_failure() {
    let r = decode_body::<u8>(200, None, Err("bad json".to_string()));
    match r {
        Err(ApiError::ParseJson { reason }) => assert_eq!(reason, "bad json"),
        _ => panic!("expected a ParseJson error"),
    }
}

/// A token-dependent POST needs a previously obtained token.
#[test]
fn post_token_requires_prior_challenge() {
    let session = Session::new();
    assert!(matches!(session.token_for_post(), Err(ApiError::SetupFailed)));

    let seeded = Session { token: Some("T1".to_string()) };
    assert_eq!(seeded.token_for_post().unwrap(), "T1");
}
