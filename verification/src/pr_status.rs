//! The live status of pull requests that were opened earlier.
//!
//! For each address of a batch the pull request is asked for, with the token
//! if there is one. Only where the service answers that request with 401 or
//! 403 is the address asked for once more, without the token. An address
//! that cannot be read, a request that fails and an answer that cannot be
//! used each give a record of their own; nothing ends the batch early.

use crate::chars::{
    chars_of, copy_opt, copy_texts, is_text, opt_text, push_str, rows, string_of, texts,
};
use crate::decimal::{decimal_text, parse_u64, parse_unsigned, push_decimal};
use crate::http::{
    api_headers, build_headers_optional, is_auth_failure, is_success, opt_str, HttpRequest,
    HttpRequestView, Method, RequestBody, RequestBodyView,
};
use crate::text::{
    before_first, contains_text, drop_trailing, has_text, split, split_on, take_before_first, trim,
    trim_end_by, trimmed, CharClass,
};
use vstd::prelude::*;

verus! {

/// What is known of a pull request after a reconciliation.
#[derive(Debug, Clone)]
pub struct PrLiveStatus {
    pub pr_url: String,
    pub status: String,
    pub has_issues: bool,
    pub mergeable_state: Option<String>,
}

/// The texts of a [`PrLiveStatus`].
pub struct PrLiveStatusView {
    pub pr_url: Seq<char>,
    pub status: Seq<char>,
    pub has_issues: bool,
    pub mergeable_state: Option<Seq<char>>,
}

impl View for PrLiveStatus {
    type V = PrLiveStatusView;

    open spec fn view(&self) -> PrLiveStatusView {
        PrLiveStatusView {
            pr_url: self.pr_url@,
            status: self.status@,
            has_issues: self.has_issues,
            mergeable_state: opt_text(self.mergeable_state),
        }
    }
}

/// The views of a list of records, in order.
pub open spec fn status_views(v: Seq<PrLiveStatus>) -> Seq<PrLiveStatusView> {
    v.map_values(|r: PrLiveStatus| r@)
}

/// What the service says of a pull request.
#[derive(Debug, Clone)]
pub struct PullStatusResponse {
    pub state: String,
    pub merged_at: Option<String>,
    pub draft: Option<bool>,
    pub mergeable_state: Option<String>,
}

/// The texts of a [`PullStatusResponse`].
pub struct PullStatusResponseView {
    pub state: Seq<char>,
    pub merged_at: Option<Seq<char>>,
    pub draft: Option<bool>,
    pub mergeable_state: Option<Seq<char>>,
}

impl View for PullStatusResponse {
    type V = PullStatusResponseView;

    open spec fn view(&self) -> PullStatusResponseView {
        PullStatusResponseView {
            state: self.state@,
            merged_at: opt_text(self.merged_at),
            draft: self.draft,
            mergeable_state: opt_text(self.mergeable_state),
        }
    }
}

/// The owner, the repository and the number that the address of a pull
/// request names. The address is trimmed and loses the slashes at its end;
/// split at slashes it must have seven pieces or more, of which the third
/// holds `github.com`, the fourth is the owner, the fifth the repository,
/// the sixth is `pull`, and the seventh up to a question mark is the number.
pub open spec fn pr_url_parts(pr_url: Seq<char>) -> Option<(Seq<char>, Seq<char>, nat)> {
    let clean = drop_trailing(trimmed(pr_url), CharClass::Only('/'));
    let parts = split(clean, '/');
    if parts.len() < 7 || !contains_text(parts[2], "github.com"@) || parts[5] != "pull"@ {
        None
    } else {
        match parse_unsigned(before_first(parts[6], '?'), u64::MAX as nat) {
            Some(n) => Some((parts[3], parts[4], n)),
            None => None,
        }
    }
}

/// A mergeable state that stands for trouble.
pub open spec fn is_troubled(state: Seq<char>) -> bool {
    ||| state == "dirty"@
    ||| state == "blocked"@
    ||| state == "behind"@
    ||| state == "unstable"@
    ||| state == "draft"@
}

/// Whether a pull request needs attention: never when it is merged, always
/// when it is closed, else when it is a draft, else when its mergeable state
/// stands for trouble.
pub open spec fn has_issues(status: Seq<char>, draft: bool, mergeable_state: Option<Seq<char>>) -> bool {
    if status == "merged"@ {
        false
    } else if status == "closed"@ {
        true
    } else if draft {
        true
    } else {
        match mergeable_state {
            Some(s) => is_troubled(s),
            None => false,
        }
    }
}

/// The status of a pull request: `merged` where it has a time of merging,
/// else `open` or `closed` as the service says, else `unknown`.
pub open spec fn status_of(pull: PullStatusResponseView) -> Seq<char> {
    if pull.merged_at is Some {
        "merged"@
    } else if pull.state == "open"@ {
        "open"@
    } else if pull.state == "closed"@ {
        "closed"@
    } else {
        "unknown"@
    }
}

/// The record of an address that names no pull request.
pub open spec fn invalid_record(pr_url: Seq<char>) -> PrLiveStatusView {
    PrLiveStatusView {
        pr_url,
        status: "unknown"@,
        has_issues: true,
        mergeable_state: Some("invalid-url"@),
    }
}

/// The record of a pull request of which nothing could be learned.
pub open spec fn unresolved_record(pr_url: Seq<char>) -> PrLiveStatusView {
    PrLiveStatusView { pr_url, status: "unknown"@, has_issues: true, mergeable_state: None }
}

/// The record of a pull request from what the service says of it.
pub open spec fn resolved_record(pr_url: Seq<char>, pull: PullStatusResponseView) -> PrLiveStatusView {
    let draft = match pull.draft {
        Some(d) => d,
        None => false,
    };
    PrLiveStatusView {
        pr_url,
        status: status_of(pull),
        has_issues: has_issues(status_of(pull), draft, pull.mergeable_state),
        mergeable_state: pull.mergeable_state,
    }
}

/// The address at which the service describes a pull request.
pub open spec fn pull_endpoint(owner: Seq<char>, repo: Seq<char>, number: nat) -> Seq<char> {
    "https://api.github.com/repos/"@ + owner + "/"@ + repo + "/pulls/"@ + decimal_text(number)
}

/// Whether a pull request needs attention goes by precedence: merged says
/// no whatever else holds, closed says yes, then a draft says yes, and only
/// then the mergeable state decides.
pub proof fn law_has_issues_precedence(
    status: Seq<char>,
    draft: bool,
    mergeable_state: Option<Seq<char>>,
)
    ensures
        !has_issues("merged"@, draft, mergeable_state),
        has_issues("closed"@, draft, mergeable_state),
        status != "merged"@ && status != "closed"@ ==> has_issues(status, true, mergeable_state),
        status != "merged"@ && status != "closed"@ ==> has_issues(status, false, mergeable_state)
            == (mergeable_state matches Some(s) && is_troubled(s)),
        status != "merged"@ && status != "closed"@ ==> !has_issues(status, false, None),
{
    reveal_strlit("closed");
    reveal_strlit("merged");
    assert("closed"@[0] != "merged"@[0]);
}

/// One of the four statuses that a record can have.
pub open spec fn is_known_status(status: Seq<char>) -> bool {
    status == "open"@ || status == "closed"@ || status == "merged"@ || status == "unknown"@
}

/// Whatever the service says, the status of a record is `open`, `closed`,
/// `merged` or `unknown`; a merged pull request never needs attention and a
/// closed one always does.
pub proof fn law_status_is_known(pr_url: Seq<char>, pull: PullStatusResponseView)
    ensures
        is_known_status(invalid_record(pr_url).status),
        is_known_status(unresolved_record(pr_url).status),
        is_known_status(resolved_record(pr_url, pull).status),
        pull.merged_at is Some ==> !resolved_record(pr_url, pull).has_issues,
        pull.merged_at is None && pull.state == "closed"@ ==> resolved_record(
            pr_url,
            pull,
        ).has_issues,
{
    reveal_strlit("open");
    reveal_strlit("closed");
    reveal_strlit("merged");
    assert("closed"@.len() != "merged"@.len() || "closed"@[0] != "merged"@[0]);
    assert("open"@.len() != "merged"@.len());
}

/// The owner, the repository and the number that the address of a pull
/// request names.
pub fn parse_github_pr_url(pr_url: &str) -> (r: Option<(String, String, u64)>)
    ensures
        match r {
            Some((owner, repo, number)) => pr_url_parts(pr_url@) == Some(
                (owner@, repo@, number as nat),
            ),
            None => pr_url_parts(pr_url@) is None,
        },
{
    let t = trim(&chars_of(pr_url));
    let clean = trim_end_by(&t, CharClass::Only('/'));
    let parts = split_on(&clean, '/');
    if parts.len() < 7 {
        proof {
            assert(rows(parts@).len() == parts@.len());
        }
        return None;
    }
    proof {
        assert(rows(parts@).len() == parts@.len());
        assert(rows(parts@)[2] == parts@[2]@);
        assert(rows(parts@)[3] == parts@[3]@);
        assert(rows(parts@)[4] == parts@[4]@);
        assert(rows(parts@)[5] == parts@[5]@);
        assert(rows(parts@)[6] == parts@[6]@);
    }
    let host = chars_of("github.com");
    if !has_text(&parts[2], &host) || !is_text(&parts[5], "pull") {
        return None;
    }
    let digits = take_before_first(&parts[6], '?');
    match parse_u64(&digits) {
        Some(n) => Some((string_of(&parts[3]), string_of(&parts[4]), n)),
        None => None,
    }
}

/// Whether a pull request needs attention.
pub fn has_pr_issues(status: &str, draft: bool, mergeable_state: Option<&str>) -> (r: bool)
    ensures
        r == has_issues(status@, draft, opt_str(mergeable_state)),
{
    let s = chars_of(status);
    if is_text(&s, "merged") {
        return false;
    }
    if is_text(&s, "closed") {
        return true;
    }
    if draft {
        return true;
    }
    match mergeable_state {
        Some(m) => {
            let v = chars_of(m);
            is_text(&v, "dirty") || is_text(&v, "blocked") || is_text(&v, "behind") || is_text(
                &v,
                "unstable",
            ) || is_text(&v, "draft")
        },
        None => false,
    }
}

/// The status of a pull request from what the service says of it.
pub fn classify_status(pull: &PullStatusResponse) -> (r: &'static str)
    ensures
        r@ == status_of(pull@),
{
    let state = chars_of(pull.state.as_str());
    if pull.merged_at.is_some() {
        "merged"
    } else if is_text(&state, "open") {
        "open"
    } else if is_text(&state, "closed") {
        "closed"
    } else {
        "unknown"
    }
}

/// The record of an address that names no pull request.
pub fn invalid_status(pr_url: &str) -> (r: PrLiveStatus)
    ensures
        r@ == invalid_record(pr_url@),
{
    PrLiveStatus {
        pr_url: pr_url.to_owned(),
        status: "unknown".to_owned(),
        has_issues: true,
        mergeable_state: Some("invalid-url".to_owned()),
    }
}

/// The record of a pull request of which nothing could be learned.
pub fn unresolved_status(pr_url: &str) -> (r: PrLiveStatus)
    ensures
        r@ == unresolved_record(pr_url@),
{
    PrLiveStatus {
        pr_url: pr_url.to_owned(),
        status: "unknown".to_owned(),
        has_issues: true,
        mergeable_state: None,
    }
}

/// The record of a pull request from what the service says of it.
pub fn resolved_status(pr_url: &str, pull: &PullStatusResponse) -> (r: PrLiveStatus)
    ensures
        r@ == resolved_record(pr_url@, pull@),
{
    let status = classify_status(pull);
    let draft = match pull.draft {
        Some(d) => d,
        None => false,
    };
    let (issues, state) = match &pull.mergeable_state {
        Some(m) => (has_pr_issues(status, draft, Some(m.as_str())), Some(m.clone())),
        None => (has_pr_issues(status, draft, None), None),
    };
    PrLiveStatus {
        pr_url: pr_url.to_owned(),
        status: status.to_owned(),
        has_issues: issues,
        mergeable_state: state,
    }
}

/// The address at which the service describes a pull request.
pub fn pull_endpoint_of(owner: &str, repo: &str, number: u64) -> (r: String)
    ensures
        r@ == pull_endpoint(owner@, repo@, number as nat),
{
    let mut out = chars_of("https://api.github.com/repos/");
    push_str(&mut out, owner);
    push_str(&mut out, "/");
    push_str(&mut out, repo);
    push_str(&mut out, "/pulls/");
    push_decimal(&mut out, number);
    string_of(&out)
}

/// What the caller reports after it has sent a request.
#[derive(Debug, Clone)]
pub enum PrEvent {
    /// The request could not be sent, or no answer came.
    TransportFailed,
    /// The answer's status code, and what the answer says of the pull
    /// request where the status reports success and the answer can be read.
    Response { status: u16, pull: Option<PullStatusResponse> },
}

/// What the caller has to do next.
#[derive(Debug, Clone)]
pub enum PrAction {
    /// Send the request and report the answer.
    Send(HttpRequest),
    /// The batch is done: these are the records, one for each address.
    Finish(Vec<PrLiveStatus>),
}

/// The texts of a [`PrAction`].
pub enum PrActionView {
    Send(HttpRequestView),
    Finish(Seq<PrLiveStatusView>),
}

impl View for PrAction {
    type V = PrActionView;

    open spec fn view(&self) -> PrActionView {
        match self {
            PrAction::Send(r) => PrActionView::Send(r@),
            PrAction::Finish(records) => PrActionView::Finish(status_views(records@)),
        }
    }
}

/// The state of the reconciliation of one batch.
#[derive(Debug)]
pub struct PrReconciler {
    urls: Vec<String>,
    token: Option<String>,
    index: usize,
    with_token: bool,
    results: Vec<PrLiveStatus>,
}

/// The texts of a [`PrReconciler`]: the addresses, the token if there is
/// one, the index of the address that is being asked for, whether the token
/// is used for it, and the records so far.
pub struct PrReconcilerView {
    pub urls: Seq<Seq<char>>,
    pub token: Option<Seq<char>>,
    pub index: nat,
    pub with_token: bool,
    pub results: Seq<PrLiveStatusView>,
}

impl View for PrReconciler {
    type V = PrReconcilerView;

    closed spec fn view(&self) -> PrReconcilerView {
        PrReconcilerView {
            urls: texts(self.urls@),
            token: opt_text(self.token),
            index: self.index as nat,
            with_token: self.with_token,
            results: status_views(self.results@),
        }
    }
}

/// A state in which there is a record for each address before the index, in
/// the order of the addresses, and the record of each address that names no
/// pull request says so.
pub open spec fn records_match(s: PrReconcilerView) -> bool {
    &&& s.index <= s.urls.len()
    &&& s.results.len() == s.index
    &&& s.with_token ==> s.token is Some
    &&& forall|i: int|
        0 <= i < s.index ==> (#[trigger] s.results[i]).pr_url == s.urls[i] && (pr_url_parts(
            s.urls[i],
        ) is None ==> s.results[i] == invalid_record(s.urls[i]))
}

/// A state whose records match and in which the address at the index names
/// a pull request.
pub open spec fn reconciler_well_formed(s: PrReconcilerView) -> bool {
    &&& records_match(s)
    &&& s.index < s.urls.len() ==> pr_url_parts(s.urls[s.index as int]) is Some
}

/// The state after every address from the index on that names no pull
/// request has got its record.
pub open spec fn settled(s: PrReconcilerView) -> PrReconcilerView
    decreases s.urls.len() - s.index,
{
    if s.index < s.urls.len() && pr_url_parts(s.urls[s.index as int]) is None {
        settled(
            PrReconcilerView {
                index: s.index + 1,
                results: s.results.push(invalid_record(s.urls[s.index as int])),
                ..s
            },
        )
    } else {
        s
    }
}

/// The state after the address at the index has got its record.
pub open spec fn item_done(s: PrReconcilerView, record: PrLiveStatusView) -> PrReconcilerView {
    settled(
        PrReconcilerView {
            index: s.index + 1,
            with_token: s.token is Some,
            results: s.results.push(record),
            ..s
        },
    )
}

/// The state after an event. Where the token was used and the request was
/// answered with 401 or 403, the address is asked for again without the
/// token; nothing else leads to a second request. Anything else ends the
/// work on the address: with the record of the pull request where the answer
/// reports success and can be read, and with the record of a pull request of
/// which nothing could be learned otherwise, also where the request could
/// not be sent or no answer came.
pub open spec fn reconcile_next(s: PrReconcilerView, e: PrEvent) -> PrReconcilerView {
    if s.index >= s.urls.len() {
        s
    } else {
        let url = s.urls[s.index as int];
        let retry = PrReconcilerView { with_token: false, ..s };
        match e {
            PrEvent::TransportFailed => item_done(s, unresolved_record(url)),
            PrEvent::Response { status, pull } => if is_success(status) {
                match pull {
                    Some(p) => item_done(s, resolved_record(url, p@)),
                    None => item_done(s, unresolved_record(url)),
                }
            } else if s.with_token && is_auth_failure(status) {
                retry
            } else {
                item_done(s, unresolved_record(url))
            },
        }
    }
}

/// The token that is used: the given one, trimmed, unless it is missing or
/// blank.
pub open spec fn usable_token(token: Option<Seq<char>>) -> Option<Seq<char>> {
    match token {
        Some(t) => if trimmed(t).len() > 0 {
            Some(trimmed(t))
        } else {
            None
        },
        None => None,
    }
}

/// The state in which a batch starts.
pub open spec fn reconcile_start(urls: Seq<Seq<char>>, token: Option<Seq<char>>) -> PrReconcilerView {
    settled(
        PrReconcilerView {
            urls,
            token: usable_token(token),
            index: 0,
            with_token: usable_token(token) is Some,
            results: Seq::empty(),
        },
    )
}

/// What the caller has to do in a state.
pub open spec fn reconcile_action(s: PrReconcilerView) -> PrActionView {
    if s.index >= s.urls.len() {
        PrActionView::Finish(s.results)
    } else {
        let parts = pr_url_parts(s.urls[s.index as int])->0;
        PrActionView::Send(
            HttpRequestView {
                method: Method::Get,
                url: pull_endpoint(parts.0, parts.1, parts.2),
                headers: api_headers(
                    if s.with_token {
                        s.token
                    } else {
                        None
                    },
                ),
                body: RequestBodyView::Empty,
            },
        )
    }
}

/// How far a batch is from its end: two for each address that has no record
/// yet, and one more while the token is in use.
pub open spec fn work_left(s: PrReconcilerView) -> int {
    2 * (s.urls.len() - s.index) + if s.with_token {
        1int
    } else {
        0int
    }
}

/// Settling keeps a state well formed, changes neither addresses nor token,
/// and does not move the index back.
pub proof fn lemma_settled(s: PrReconcilerView)
    requires
        records_match(s),
    ensures
        reconciler_well_formed(settled(s)),
        settled(s).urls == s.urls,
        settled(s).token == s.token,
        settled(s).with_token == s.with_token,
        settled(s).index >= s.index,
        settled(s).results.take(s.index as int) == s.results,
    decreases s.urls.len() - s.index,
{
    if s.index < s.urls.len() && pr_url_parts(s.urls[s.index as int]) is None {
        let t = PrReconcilerView {
            index: s.index + 1,
            results: s.results.push(invalid_record(s.urls[s.index as int])),
            ..s
        };
        assert forall|i: int| 0 <= i < t.index implies (#[trigger] t.results[i]).pr_url
            == t.urls[i] && (pr_url_parts(t.urls[i]) is None ==> t.results[i] == invalid_record(
            t.urls[i],
        )) by {
            if i < s.index {
                assert(t.results[i] == s.results[i]);
            }
        }
        lemma_settled(t);
        assert(settled(s).results.take(s.index as int) == settled(t).results.take(
            t.index as int,
        ).take(s.index as int));
        assert(t.results.take(s.index as int) == s.results);
    } else {
        assert(s.results.take(s.index as int) == s.results);
    }
}

/// An event leads to a second request for the same address exactly where
/// the token was in use and the service answered with 401 or 403.
pub open spec fn falls_back(s: PrReconcilerView, e: PrEvent) -> bool {
    s.with_token && (e matches PrEvent::Response { status, .. } && is_auth_failure(status))
}

/// Every event leads from a well-formed state to a well-formed state, keeps
/// the addresses and the records that are there, and, while the batch is not
/// done, brings it nearer to its end: one failure never ends the batch, and
/// no address is asked for more than twice. Only an answer of 401 or 403 to
/// a request with the token is followed by a request without it; every other
/// event, a failed request too, gives the address its record.
pub proof fn law_reconcile_progress(s: PrReconcilerView, e: PrEvent)
    requires
        reconciler_well_formed(s),
    ensures
        reconciler_well_formed(reconcile_next(s, e)),
        reconcile_next(s, e).urls == s.urls,
        reconcile_next(s, e).token == s.token,
        reconcile_next(s, e).results.take(s.index as int) == s.results,
        s.index < s.urls.len() ==> work_left(reconcile_next(s, e)) < work_left(s),
        s.index >= s.urls.len() ==> reconcile_next(s, e) == s,
        s.index < s.urls.len() && falls_back(s, e) ==> reconcile_next(s, e) == (PrReconcilerView {
            with_token: false,
            ..s
        }),
        s.index < s.urls.len() && !falls_back(s, e) ==> reconcile_next(s, e).index > s.index
            && reconcile_next(s, e).results.len() > s.results.len(),
        s.index < s.urls.len() && e is TransportFailed ==> reconcile_next(s, e).results[s.index as int]
            == unresolved_record(s.urls[s.index as int]),
{
    let t = reconcile_next(s, e);
    if s.index < s.urls.len() {
        let url = s.urls[s.index as int];
        let retry = falls_back(s, e);
        if retry {
            assert(t == PrReconcilerView { with_token: false, ..s });
            assert(t.results.take(s.index as int) == s.results);
        } else {
            let record = match e {
                PrEvent::TransportFailed => unresolved_record(url),
                PrEvent::Response { status, pull } => if is_success(status) {
                    match pull {
                        Some(p) => resolved_record(url, p@),
                        None => unresolved_record(url),
                    }
                } else {
                    unresolved_record(url)
                },
            };
            let mid = PrReconcilerView {
                index: s.index + 1,
                with_token: s.token is Some,
                results: s.results.push(record),
                ..s
            };
            assert(t == settled(mid));
            assert(record.pr_url == url);
            assert forall|i: int| 0 <= i < mid.index implies (#[trigger] mid.results[i]).pr_url
                == mid.urls[i] && (pr_url_parts(mid.urls[i]) is None ==> mid.results[i]
                == invalid_record(mid.urls[i])) by {
                if i < s.index {
                    assert(mid.results[i] == s.results[i]);
                }
            }
            lemma_settled(mid);
            assert(t.results.take(s.index as int) == t.results.take(mid.index as int).take(
                s.index as int,
            ));
            assert(mid.results.take(s.index as int) == s.results);
            assert(t.results[s.index as int] == t.results.take(mid.index as int)[s.index as int]);
            assert(mid.results[s.index as int] == record);
        }
    } else {
        assert(s.results.take(s.index as int) == s.results);
    }
}

/// When the batch is done there is one record for each address, in the order
/// of the addresses, and an address that names no pull request has the
/// status `unknown`, is marked as needing attention, and has `invalid-url`
/// as its mergeable state.
pub proof fn law_one_record_for_each_address(s: PrReconcilerView, i: int)
    requires
        reconciler_well_formed(s),
        s.index >= s.urls.len(),
        0 <= i < s.urls.len(),
    ensures
        reconcile_action(s) == PrActionView::Finish(s.results),
        s.results.len() == s.urls.len(),
        s.results[i].pr_url == s.urls[i],
        pr_url_parts(s.urls[i]) is None ==> s.results[i].status == "unknown"@
            && s.results[i].has_issues && s.results[i].mergeable_state == Some("invalid-url"@),
{
}

fn copy_record(r: &PrLiveStatus) -> (c: PrLiveStatus)
    ensures
        c@ == r@,
{
    PrLiveStatus {
        pr_url: r.pr_url.clone(),
        status: r.status.clone(),
        has_issues: r.has_issues,
        mergeable_state: copy_opt(&r.mergeable_state),
    }
}

fn copy_records(v: &Vec<PrLiveStatus>) -> (c: Vec<PrLiveStatus>)
    ensures
        status_views(c@) == status_views(v@),
{
    let mut out: Vec<PrLiveStatus> = Vec::new();
    let mut i: usize = 0;
    while i < v.len()
        invariant
            i <= v.len(),
            status_views(out@) == status_views(v@).take(i as int),
        decreases v.len() - i,
    {
        let r = copy_record(&v[i]);
        proof {
            assert(status_views(out@.push(r)) == status_views(out@).push(r@));
            assert(status_views(v@).take(i + 1) == status_views(v@).take(i as int).push(r@));
        }
        out.push(r);
        i += 1;
    }
    proof {
        assert(status_views(v@).take(v.len() as int) == status_views(v@));
    }
    out
}


/// Starts the reconciliation of a batch of pull requests.
pub fn fetch_pr_statuses(pr_urls: &[String], token: Option<&str>) -> (r: PrReconciler)
    ensures
        r.wf(),
        r@ == reconcile_start(texts(pr_urls@), opt_str(token)),
{
    let usable: Option<String> = match token {
        Some(t) => {
            let tv = trim(&chars_of(t));
            if tv.len() > 0 {
                Some(string_of(&tv))
            } else {
                None
            }
        },
        None => None,
    };
    let with_token = usable.is_some();
    let results: Vec<PrLiveStatus> = Vec::new();
    proof {
        assert(status_views(results@) == Seq::<PrLiveStatusView>::empty());
    }
    let mut r = PrReconciler {
        urls: copy_texts(pr_urls),
        token: usable,
        index: 0,
        with_token,
        results,
    };
    r.settle();
    r
}

impl PrReconciler {
    /// Whether the records so far match the addresses before the index.
    pub open spec fn wf(&self) -> bool {
        reconciler_well_formed(self@)
    }

    fn settle(&mut self)
        requires
            records_match(old(self)@),
        ensures
            final(self)@ == settled(old(self)@),
            final(self).wf(),
    {
        let mut found = false;
        while !found && self.index < self.urls.len()
            invariant
                records_match(self@),
                self.index <= self.urls.len(),
                settled(self@) == settled(old(self)@),
                found ==> self.index < self.urls.len() && pr_url_parts(
                    self@.urls[self.index as int],
                ) is Some,
            decreases self.urls.len() - self.index + if found { 0int } else { 1int },
        {
            let url = self.urls[self.index].as_str();
            proof {
                assert(texts(self.urls@)[self.index as int] == url@);
            }
            if parse_github_pr_url(url).is_some() {
                found = true;
            } else {
                let record = invalid_status(url);
                let ghost before = self@;
                proof {
                    assert(status_views(self.results@.push(record)) == status_views(
                        self.results@,
                    ).push(record@));
                }
                self.results.push(record);
                self.index = self.index + 1;
                proof {
                    assert forall|i: int| 0 <= i < self@.index implies (
                    #[trigger] self@.results[i]).pr_url == self@.urls[i] && (pr_url_parts(
                        self@.urls[i],
                    ) is None ==> self@.results[i] == invalid_record(self@.urls[i])) by {
                        if i < before.index {
                            assert(self@.results[i] == before.results[i]);
                        }
                    }
                }
            }
        }
    }

    /// What the caller has to do next.
    pub fn action(&self) -> (r: PrAction)
        requires
            self.wf(),
        ensures
            r@ == reconcile_action(self@),
    {
        if self.index >= self.urls.len() {
            PrAction::Finish(copy_records(&self.results))
        } else {
            let url = self.urls[self.index].as_str();
            proof {
                assert(texts(self.urls@)[self.index as int] == url@);
            }
            let endpoint = match parse_github_pr_url(url) {
                Some((owner, repo, number)) => pull_endpoint_of(
                    owner.as_str(),
                    repo.as_str(),
                    number,
                ),
                None => vstd::pervasive::unreached(),
            };
            let headers = if self.with_token {
                match &self.token {
                    Some(t) => build_headers_optional(Some(t.as_str())),
                    None => vstd::pervasive::unreached(),
                }
            } else {
                build_headers_optional(None)
            };
            PrAction::Send(
                HttpRequest { method: Method::Get, url: endpoint, headers, body: RequestBody::Empty },
            )
        }
    }

    fn finish_item(&mut self, record: PrLiveStatus)
        requires
            old(self).wf(),
            old(self)@.index < old(self)@.urls.len(),
            record@.pr_url == old(self)@.urls[old(self)@.index as int],
        ensures
            final(self)@ == item_done(old(self)@, record@),
            final(self).wf(),
    {
        proof {
            assert(status_views(self.results@.push(record)) == status_views(self.results@).push(
                record@,
            ));
        }
        let ghost before = self@;
        assert(self.index < self.urls.len());
        self.results.push(record);
        self.index = self.index + 1;
        self.with_token = self.token.is_some();
        proof {
            assert forall|i: int| 0 <= i < self@.index implies (#[trigger] self@.results[i]).pr_url
                == self@.urls[i] && (pr_url_parts(self@.urls[i]) is None ==> self@.results[i]
                == invalid_record(self@.urls[i])) by {
                if i < before.index {
                    assert(self@.results[i] == before.results[i]);
                }
            }
        }
        self.settle();
    }

    /// Takes in what came of the last request. Once the batch is done, an
    /// event changes nothing.
    pub fn advance(&mut self, event: PrEvent)
        requires
            old(self).wf(),
        ensures
            final(self).wf(),
            final(self)@ == reconcile_next(old(self)@, event),
    {
        if self.index >= self.urls.len() {
            return;
        }
        let url = self.urls[self.index].clone();
        proof {
            assert(texts(self.urls@)[self.index as int] == url@);
        }
        match event {
            PrEvent::TransportFailed => {
                self.finish_item(unresolved_status(url.as_str()));
            },
            PrEvent::Response { status, pull } => {
                if 200 <= status && status <= 299 {
                    match pull {
                        Some(p) => {
                            self.finish_item(resolved_status(url.as_str(), &p));
                        },
                        None => {
                            self.finish_item(unresolved_status(url.as_str()));
                        },
                    }
                } else if self.with_token && (status == 401 || status == 403) {
                    self.with_token = false;
                } else {
                    self.finish_item(unresolved_status(url.as_str()));
                }
            },
        }
    }
}

} // verus!
