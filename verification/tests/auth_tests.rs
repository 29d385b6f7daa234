use unicreate::api_error::{ApiError, ApiErrorKind};
use unicreate::auth::{
    authenticate_github, check_device_status, check_identity_status, device_flow_started,
    device_poll_outcome, next_poll_interval, poll_device_flow, start_device_flow,
    DeviceCodeResponse, DeviceTokenResponse, PollOutcome,
};
use unicreate::http::{HttpRequest, Method, RequestBody};

fn answer(token: Option<&str>, error: Option<&str>) -> DeviceTokenResponse {
    DeviceTokenResponse {
        access_token: token.map(str::to_string),
        error: error.map(str::to_string),
    }
}

fn pairs(req: &HttpRequest) -> (Vec<(String, String)>, Vec<(String, String)>) {
    let headers = req.headers.iter().map(|h| (h.name.clone(), h.value.clone())).collect();
    let fields = match &req.body {
        RequestBody::Form { fields } => {
            fields.iter().map(|h| (h.name.clone(), h.value.clone())).collect()
        }
        _ => panic!("a form is expected"),
    };
    (headers, fields)
}

fn pair(a: &str, b: &str) -> (String, String) {
    (a.to_string(), b.to_string())
}

#[test]
fn poll_returns_pending_while_the_user_has_not_confirmed() {
    let outcome = device_poll_outcome(answer(None, Some("authorization_pending")));
    assert!(matches!(outcome, PollOutcome::Pending));
    assert_eq!(outcome.message(), "pending");
    assert!(outcome.is_retry());
    assert_eq!(next_poll_interval(5, &outcome), Some(5));
}

#[test]
fn poll_returns_slow_down_and_the_wait_grows() {
    let outcome = device_poll_outcome(answer(None, Some("slow_down")));
    assert!(matches!(outcome, PollOutcome::SlowDown));
    assert_eq!(outcome.message(), "slow_down");
    assert!(outcome.is_retry());
    assert_eq!(next_poll_interval(5, &outcome), Some(10));
    assert_eq!(next_poll_interval(u64::MAX - 2, &outcome), Some(u64::MAX));
}

#[test]
fn poll_returns_the_token_once_granted() {
    let outcome = device_poll_outcome(answer(Some("gho_abc"), None));
    assert!(matches!(&outcome, PollOutcome::Granted { token } if token == "gho_abc"));
    assert_eq!(outcome.message(), "gho_abc");
    assert!(!outcome.is_retry());
    assert_eq!(next_poll_interval(5, &outcome), None);
    let both = device_poll_outcome(answer(Some("gho_abc"), Some("slow_down")));
    assert!(matches!(both, PollOutcome::Granted { .. }));
}

#[test]
fn expiry_denial_and_other_errors_end_the_flow() {
    let expired = device_poll_outcome(answer(None, Some("expired_token")));
    assert!(matches!(expired, PollOutcome::Expired));
    assert_eq!(expired.message(), "Le code a expiré, veuillez réessayer.");
    let denied = device_poll_outcome(answer(None, Some("access_denied")));
    assert!(matches!(denied, PollOutcome::Denied));
    assert_eq!(denied.message(), "Accès refusé par l'utilisateur.");
    let other = device_poll_outcome(answer(None, Some("incorrect_client_credentials")));
    assert!(matches!(&other, PollOutcome::Failed { code } if code == "incorrect_client_credentials"));
    assert_eq!(other.message(), "Erreur: incorrect_client_credentials");
    let nothing = device_poll_outcome(answer(None, None));
    assert!(matches!(nothing, PollOutcome::Unexpected));
    assert_eq!(nothing.message(), "Réponse inattendue de GitHub");
    for o in [expired, denied, other, nothing] {
        assert!(!o.is_retry());
        assert_eq!(next_poll_interval(5, &o), None);
    }
}

#[test]
fn the_flow_is_started_with_client_and_scope() {
    let req = start_device_flow();
    assert_eq!(req.method, Method::Post);
    assert_eq!(req.url, "https://github.com/login/device/code");
    let (headers, fields) = pairs(&req);
    assert_eq!(headers, vec![pair("accept", "application/json"), pair("user-agent", "UniCreate/1.0")]);
    assert_eq!(
        fields,
        vec![pair("client_id", "Ov23liEtB73yhdcAHuOR"), pair("scope", "public_repo")]
    );
}

#[test]
fn the_question_names_client_code_and_grant() {
    let req = poll_device_flow("dev-123");
    assert_eq!(req.method, Method::Post);
    assert_eq!(req.url, "https://github.com/login/oauth/access_token");
    let (headers, fields) = pairs(&req);
    assert_eq!(headers, vec![pair("accept", "application/json"), pair("user-agent", "UniCreate/1.0")]);
    assert_eq!(
        fields,
        vec![
            pair("client_id", "Ov23liEtB73yhdcAHuOR"),
            pair("device_code", "dev-123"),
            pair("grant_type", "urn:ietf:params:oauth:grant-type:device_code"),
        ]
    );
}

#[test]
fn the_interval_is_five_seconds_unless_the_service_names_one() {
    let start = |interval| {
        device_flow_started(DeviceCodeResponse {
            device_code: "d".to_string(),
            user_code: "ABCD-1234".to_string(),
            verification_uri: "https://github.com/login/device".to_string(),
            interval,
        })
    };
    let s = start(None);
    assert_eq!(s.interval, 5);
    assert_eq!(s.device_code, "d");
    assert_eq!(s.user_code, "ABCD-1234");
    assert_eq!(s.verification_uri, "https://github.com/login/device");
    assert_eq!(start(Some(0)).interval, 0);
    assert_eq!(start(Some(12)).interval, 12);
}

#[test]
fn an_empty_token_is_refused_before_any_request() {
    for token in ["", "   ", "\t\n"] {
        let e = authenticate_github(token).err().expect("refused");
        assert_eq!(e.kind, ApiErrorKind::MissingToken);
        assert_eq!(e.message(), "Missing token");
    }
}

#[test]
fn the_user_is_asked_for_with_the_trimmed_token() {
    let req = authenticate_github(" tok ").expect("a request");
    assert_eq!(req.method, Method::Get);
    assert_eq!(req.url, "https://api.github.com/user");
    let headers: Vec<_> = req.headers.iter().map(|h| (h.name.as_str(), h.value.as_str())).collect();
    assert_eq!(
        headers,
        vec![
            ("authorization", "Bearer tok"),
            ("accept", "application/vnd.github.v3+json"),
            ("user-agent", "UniCreate/1.0"),
        ]
    );
}

#[test]
fn a_token_that_cannot_be_sent_is_left_out() {
    let req = authenticate_github("to\nk").expect("a request");
    let names: Vec<_> = req.headers.iter().map(|h| h.name.as_str()).collect();
    assert_eq!(names, vec!["accept", "user-agent"]);
    let req = authenticate_github("t\u{e9}\tk").expect("a request");
    assert_eq!(req.headers[0].value, "Bearer t\u{e9}\tk");
    let req = authenticate_github("to\u{7f}k").expect("a request");
    assert_eq!(req.headers.len(), 2);
}

#[test]
fn statuses_that_report_no_success_are_failures() {
    assert!(check_identity_status(200).is_ok());
    assert!(check_identity_status(299).is_ok());
    let e = check_identity_status(401).err().expect("refused");
    assert_eq!(e.kind, ApiErrorKind::InvalidToken);
    assert_eq!(e.message(), "Invalid token (HTTP 401 Unauthorized)");
    assert_eq!(check_identity_status(199).err().expect("refused").message(), "Invalid token (HTTP 199 <unknown status code>)");
    assert_eq!(check_identity_status(300).err().expect("refused").message(), "Invalid token (HTTP 300 Multiple Choices)");
    assert_eq!(check_identity_status(99).err().expect("refused").message(), "Invalid token (HTTP 99)");
    assert!(check_device_status(200, "").is_ok());
    let e = check_device_status(404, "{\"message\":\"Not Found\"}").err().expect("refused");
    assert_eq!(e.kind, ApiErrorKind::DeviceRejected);
    assert_eq!(e.message(), "GitHub returned 404 Not Found : {\"message\":\"Not Found\"}");
}

#[test]
fn every_kind_of_api_error_has_its_message() {
    assert_eq!(ApiError::transport("timed out").message(), "Request failed: timed out");
    assert_eq!(ApiError::parse("EOF").message(), "Parse error: EOF");
    assert_eq!(ApiError::plain(ApiErrorKind::NotGitHubUrl).message(), "Not a GitHub URL");
    assert_eq!(ApiError::plain(ApiErrorKind::UrlParse).message(), "URL parse failed: ");
    assert_eq!(
        ApiError::rejected(ApiErrorKind::SearchFailed, 422, "bad").message(),
        "GitHub search failed (HTTP 422 Unprocessable Entity): bad"
    );
}
