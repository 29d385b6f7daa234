//! Signing in: by a token that the user has, or by the device flow, in which
//! the user confirms a code in a browser while the application asks the
//! service again and again whether that has happened.

use crate::api_error::{ApiError, ApiErrorKind, ApiErrorView};
use crate::chars::{chars_of, is_text, opt_text, push_str, string_of};
use crate::http::{
    api_headers, build_headers, header, header_views, is_success, HttpRequest, HttpRequestView,
    Header, Method, RequestBody, RequestBodyView,
};
use crate::text::{trim, trimmed};
use vstd::prelude::*;

verus! {

/// The user that a token belongs to.
#[derive(Debug, Clone)]
pub struct GitHubUser {
    pub login: String,
    pub avatar_url: String,
}

impl View for GitHubUser {
    type V = (Seq<char>, Seq<char>);

    /// The login and the address of the avatar.
    open spec fn view(&self) -> (Seq<char>, Seq<char>) {
        (self.login@, self.avatar_url@)
    }
}

/// What the service answers when a device flow is started.
#[derive(Debug, Clone)]
pub struct DeviceCodeResponse {
    pub device_code: String,
    pub user_code: String,
    pub verification_uri: String,
    pub interval: Option<u64>,
}

/// A device flow that has been started: the code to ask with, the code to
/// show to the user, where the user enters it, and how many seconds to wait
/// between two questions.
#[derive(Debug, Clone)]
pub struct DeviceFlowStart {
    pub device_code: String,
    pub user_code: String,
    pub verification_uri: String,
    pub interval: u64,
}

/// The texts of a [`DeviceFlowStart`].
pub struct DeviceFlowStartView {
    pub device_code: Seq<char>,
    pub user_code: Seq<char>,
    pub verification_uri: Seq<char>,
    pub interval: u64,
}

impl View for DeviceFlowStart {
    type V = DeviceFlowStartView;

    open spec fn view(&self) -> DeviceFlowStartView {
        DeviceFlowStartView {
            device_code: self.device_code@,
            user_code: self.user_code@,
            verification_uri: self.verification_uri@,
            interval: self.interval,
        }
    }
}

/// What the service answers to a question of the device flow.
#[derive(Debug, Clone)]
pub struct DeviceTokenResponse {
    pub access_token: Option<String>,
    pub error: Option<String>,
}

/// What a question of the device flow came to.
#[derive(Debug, Clone)]
pub enum PollOutcome {
    /// The user has confirmed: this is the token.
    Granted { token: String },
    /// The user has not confirmed yet: ask again after the interval.
    Pending,
    /// The questions come too fast: wait longer before the next one.
    SlowDown,
    /// The code has expired: the flow is over.
    Expired,
    /// The user has refused: the flow is over.
    Denied,
    /// The service reports another error: the flow is over.
    Failed { code: String },
    /// The answer holds neither a token nor an error: the flow is over.
    Unexpected,
}

/// The texts of a [`PollOutcome`].
pub enum PollOutcomeView {
    Granted { token: Seq<char> },
    Pending,
    SlowDown,
    Expired,
    Denied,
    Failed { code: Seq<char> },
    Unexpected,
}

impl View for PollOutcome {
    type V = PollOutcomeView;

    open spec fn view(&self) -> PollOutcomeView {
        match self {
            PollOutcome::Granted { token } => PollOutcomeView::Granted { token: token@ },
            PollOutcome::Pending => PollOutcomeView::Pending,
            PollOutcome::SlowDown => PollOutcomeView::SlowDown,
            PollOutcome::Expired => PollOutcomeView::Expired,
            PollOutcome::Denied => PollOutcomeView::Denied,
            PollOutcome::Failed { code } => PollOutcomeView::Failed { code: code@ },
            PollOutcome::Unexpected => PollOutcomeView::Unexpected,
        }
    }
}

/// The public identifier of the application at the service.
pub open spec fn client_id() -> Seq<char> {
    "Ov23liEtB73yhdcAHuOR"@
}

/// The headers of a request of the device flow.
pub open spec fn device_headers() -> Seq<(Seq<char>, Seq<char>)> {
    seq![("accept"@, "application/json"@), ("user-agent"@, "UniCreate/1.0"@)]
}

/// The request that starts a device flow.
pub open spec fn device_code_request() -> HttpRequestView {
    HttpRequestView {
        method: Method::Post,
        url: "https://github.com/login/device/code"@,
        headers: device_headers(),
        body: RequestBodyView::Form {
            fields: seq![("client_id"@, client_id()), ("scope"@, "public_repo"@)],
        },
    }
}

/// The request that asks whether the user has confirmed.
pub open spec fn device_token_request(device_code: Seq<char>) -> HttpRequestView {
    HttpRequestView {
        method: Method::Post,
        url: "https://github.com/login/oauth/access_token"@,
        headers: device_headers(),
        body: RequestBodyView::Form {
            fields: seq![
                ("client_id"@, client_id()),
                ("device_code"@, device_code),
                ("grant_type"@, "urn:ietf:params:oauth:grant-type:device_code"@),
            ],
        },
    }
}

/// A device flow from the service's answer: with an interval of five
/// seconds where the answer names none.
pub open spec fn flow_from(
    device_code: Seq<char>,
    user_code: Seq<char>,
    verification_uri: Seq<char>,
    interval: Option<u64>,
) -> DeviceFlowStartView {
    DeviceFlowStartView {
        device_code,
        user_code,
        verification_uri,
        interval: match interval {
            Some(n) => n,
            None => 5,
        },
    }
}

/// What an answer to a question of the device flow comes to. A token counts
/// before an error.
pub open spec fn poll_outcome(access_token: Option<Seq<char>>, error: Option<Seq<char>>) -> PollOutcomeView {
    match access_token {
        Some(token) => PollOutcomeView::Granted { token },
        None => match error {
            Some(code) => if code == "authorization_pending"@ {
                PollOutcomeView::Pending
            } else if code == "slow_down"@ {
                PollOutcomeView::SlowDown
            } else if code == "expired_token"@ {
                PollOutcomeView::Expired
            } else if code == "access_denied"@ {
                PollOutcomeView::Denied
            } else {
                PollOutcomeView::Failed { code }
            },
            None => PollOutcomeView::Unexpected,
        },
    }
}

/// What the caller is told when a question did not bring a token. `pending`
/// and `slow_down` are no failures: they tell the caller to ask again.
pub open spec fn outcome_message(o: PollOutcomeView) -> Seq<char> {
    match o {
        PollOutcomeView::Granted { token } => token,
        PollOutcomeView::Pending => "pending"@,
        PollOutcomeView::SlowDown => "slow_down"@,
        PollOutcomeView::Expired => "Le code a expiré, veuillez réessayer."@,
        PollOutcomeView::Denied => "Accès refusé par l'utilisateur."@,
        PollOutcomeView::Failed { code } => "Erreur: "@ + code,
        PollOutcomeView::Unexpected => "Réponse inattendue de GitHub"@,
    }
}

/// How many seconds to wait before the next question: the interval while
/// the user has not confirmed, five seconds more when the service asks for
/// slower questions, and no next question once the flow is over.
pub open spec fn next_interval(interval: u64, o: PollOutcomeView) -> Option<u64> {
    match o {
        PollOutcomeView::Pending => Some(interval),
        PollOutcomeView::SlowDown => Some(
            if interval + 5 <= u64::MAX {
                (interval + 5) as u64
            } else {
                u64::MAX
            },
        ),
        _ => None,
    }
}

/// While the user has not confirmed, a question is answered by `pending`,
/// which is no failure: the next question follows after the same interval.
/// When the service asks for slower questions the answer is `slow_down`, and
/// the next question follows after a longer interval, five seconds longer
/// unless that would leave 64 bits. Every other answer without a token ends
/// the flow.
pub proof fn law_sentinels_keep_the_flow_going(error: Option<Seq<char>>, interval: u64)
    ensures
        ({
            let o = poll_outcome(None, error);
            &&& error == Some("authorization_pending"@) ==> o is Pending && outcome_message(o)
                == "pending"@ && next_interval(interval, o) == Some(interval)
            &&& error == Some("slow_down"@) ==> o is SlowDown && outcome_message(o)
                == "slow_down"@ && next_interval(interval, o) is Some && next_interval(
                interval,
                o,
            )->0 >= interval && (interval <= u64::MAX - 5 ==> next_interval(interval, o)->0
                == interval + 5)
            &&& error != Some("authorization_pending"@) && error != Some("slow_down"@)
                ==> next_interval(interval, o) is None
            &&& !(o is Granted)
        }),
{
    reveal_strlit("authorization_pending");
    reveal_strlit("slow_down");
    assert("authorization_pending"@.len() != "slow_down"@.len());
}

fn device_header_list() -> (r: Vec<Header>)
    ensures
        header_views(r@) == device_headers(),
{
    let mut v: Vec<Header> = Vec::new();
    let a = header("accept", "application/json");
    let b = header("user-agent", "UniCreate/1.0");
    v.push(a);
    v.push(b);
    proof {
        assert(header_views(v@) == seq![a@, b@]);
    }
    v
}

/// The request that starts a device flow.
pub fn start_device_flow() -> (r: HttpRequest)
    ensures
        r@ == device_code_request(),
{
    let mut fields: Vec<Header> = Vec::new();
    let a = header("client_id", "Ov23liEtB73yhdcAHuOR");
    let b = header("scope", "public_repo");
    fields.push(a);
    fields.push(b);
    proof {
        assert(header_views(fields@) == seq![a@, b@]);
    }
    HttpRequest {
        method: Method::Post,
        url: "https://github.com/login/device/code".to_owned(),
        headers: device_header_list(),
        body: RequestBody::Form { fields },
    }
}

/// The device flow that the service's answer starts.
pub fn device_flow_started(answer: DeviceCodeResponse) -> (r: DeviceFlowStart)
    ensures
        r@ == flow_from(
            answer.device_code@,
            answer.user_code@,
            answer.verification_uri@,
            answer.interval,
        ),
{
    DeviceFlowStart {
        device_code: answer.device_code,
        user_code: answer.user_code,
        verification_uri: answer.verification_uri,
        interval: match answer.interval {
            Some(n) => n,
            None => 5,
        },
    }
}

/// The request that asks whether the user has confirmed.
pub fn poll_device_flow(device_code: &str) -> (r: HttpRequest)
    ensures
        r@ == device_token_request(device_code@),
{
    let mut fields: Vec<Header> = Vec::new();
    let a = header("client_id", "Ov23liEtB73yhdcAHuOR");
    let b = header("device_code", device_code);
    let c = header("grant_type", "urn:ietf:params:oauth:grant-type:device_code");
    fields.push(a);
    fields.push(b);
    fields.push(c);
    proof {
        assert(header_views(fields@) == seq![a@, b@, c@]);
    }
    HttpRequest {
        method: Method::Post,
        url: "https://github.com/login/oauth/access_token".to_owned(),
        headers: device_header_list(),
        body: RequestBody::Form { fields },
    }
}

/// What an answer to a question of the device flow comes to.
pub fn device_poll_outcome(answer: DeviceTokenResponse) -> (r: PollOutcome)
    ensures
        r@ == poll_outcome(opt_text(answer.access_token), opt_text(answer.error)),
{
    match answer.access_token {
        Some(token) => PollOutcome::Granted { token },
        None => match answer.error {
            Some(code) => {
                let c = chars_of(code.as_str());
                if is_text(&c, "authorization_pending") {
                    PollOutcome::Pending
                } else if is_text(&c, "slow_down") {
                    PollOutcome::SlowDown
                } else if is_text(&c, "expired_token") {
                    PollOutcome::Expired
                } else if is_text(&c, "access_denied") {
                    PollOutcome::Denied
                } else {
                    PollOutcome::Failed { code }
                }
            },
            None => PollOutcome::Unexpected,
        },
    }
}

impl PollOutcome {
    /// What the caller is told: the token, or why there is none.
    pub fn message(&self) -> (r: String)
        ensures
            r@ == outcome_message(self@),
    {
        match self {
            PollOutcome::Granted { token } => token.clone(),
            PollOutcome::Pending => "pending".to_owned(),
            PollOutcome::SlowDown => "slow_down".to_owned(),
            PollOutcome::Expired => "Le code a expiré, veuillez réessayer.".to_owned(),
            PollOutcome::Denied => "Accès refusé par l'utilisateur.".to_owned(),
            PollOutcome::Failed { code } => {
                let mut out = chars_of("Erreur: ");
                push_str(&mut out, code.as_str());
                string_of(&out)
            },
            PollOutcome::Unexpected => "Réponse inattendue de GitHub".to_owned(),
        }
    }

    /// Whether the flow goes on: the caller has to ask again.
    pub fn is_retry(&self) -> (r: bool)
        ensures
            r == (self@ is Pending || self@ is SlowDown),
            r == next_interval(0, self@) is Some,
    {
        match self {
            PollOutcome::Pending | PollOutcome::SlowDown => true,
            _ => false,
        }
    }
}

/// How many seconds to wait before the next question, if there is one.
pub fn next_poll_interval(interval: u64, outcome: &PollOutcome) -> (r: Option<u64>)
    ensures
        r == next_interval(interval, outcome@),
{
    match outcome {
        PollOutcome::Pending => Some(interval),
        PollOutcome::SlowDown => Some(
            if interval <= u64::MAX - 5 {
                interval + 5
            } else {
                u64::MAX
            },
        ),
        _ => None,
    }
}

/// The request that asks who a token belongs to, or the failure where the
/// token is empty or white space only.
pub open spec fn identity_request(token: Seq<char>) -> Result<HttpRequestView, ApiErrorView> {
    if trimmed(token).len() == 0 {
        Err(ApiErrorView { kind: ApiErrorKind::MissingToken, status: 0, detail: Seq::empty() })
    } else {
        Ok(
            HttpRequestView {
                method: Method::Get,
                url: "https://api.github.com/user"@,
                headers: api_headers(Some(token)),
                body: RequestBodyView::Empty,
            },
        )
    }
}

/// The request that asks who a token belongs to.
pub fn authenticate_github(token: &str) -> (r: Result<HttpRequest, ApiError>)
    ensures
        match r {
            Ok(request) => identity_request(token@) == Ok::<HttpRequestView, ApiErrorView>(
                request@,
            ),
            Err(e) => identity_request(token@) == Err::<HttpRequestView, ApiErrorView>(e@),
        },
{
    let t = trim(&chars_of(token));
    if t.len() == 0 {
        Err(ApiError::plain(ApiErrorKind::MissingToken))
    } else {
        Ok(
            HttpRequest {
                method: Method::Get,
                url: "https://api.github.com/user".to_owned(),
                headers: build_headers(token),
                body: RequestBody::Empty,
            },
        )
    }
}

/// Whether the service accepted the token: it did where the status reports
/// success.
pub fn check_identity_status(status: u16) -> (r: Result<(), ApiError>)
    ensures
        match r {
            Ok(_) => is_success(status),
            Err(e) => !is_success(status) && e@ == (ApiErrorView {
                kind: ApiErrorKind::InvalidToken,
                status,
                detail: Seq::empty(),
            }),
        },
{
    if 200 <= status && status <= 299 {
        Ok(())
    } else {
        Err(ApiError { kind: ApiErrorKind::InvalidToken, status, detail: String::new() })
    }
}

/// Whether the service started the device flow: it did where the status
/// reports success; otherwise the failure holds the status and the answer's
/// text.
pub fn check_device_status(status: u16, body: &str) -> (r: Result<(), ApiError>)
    ensures
        match r {
            Ok(_) => is_success(status),
            Err(e) => !is_success(status) && e@ == (ApiErrorView {
                kind: ApiErrorKind::DeviceRejected,
                status,
                detail: body@,
            }),
        },
{
    if 200 <= status && status <= 299 {
        Ok(())
    } else {
        Err(ApiError::rejected(ApiErrorKind::DeviceRejected, status, body))
    }
}

} // verus!
