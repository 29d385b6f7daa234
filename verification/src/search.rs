//! Finding the pull requests that the user opened with this tool before.

use crate::api_error::{ApiError, ApiErrorKind, ApiErrorView};
use crate::auth::GitHubUser;
use crate::chars::{chars_of, opt_text, push_str, string_of};
use crate::decimal::{decimal_of, decimal_text};
use crate::http::{
    api_headers, build_headers, header, header_views, is_success, Header, HttpRequest,
    HttpRequestView, Method, RequestBody, RequestBodyView,
};
use vstd::prelude::*;

verus! {

/// One hit of a search for issues.
#[derive(Debug, Clone)]
pub struct SearchIssueItem {
    pub html_url: String,
    pub title: String,
    pub created_at: String,
    pub user_login: String,
    /// Whether the hit is a pull request.
    pub is_pull_request: bool,
}

/// The texts of a [`SearchIssueItem`].
pub struct SearchIssueItemView {
    pub html_url: Seq<char>,
    pub title: Seq<char>,
    pub created_at: Seq<char>,
    pub user_login: Seq<char>,
    pub is_pull_request: bool,
}

impl View for SearchIssueItem {
    type V = SearchIssueItemView;

    open spec fn view(&self) -> SearchIssueItemView {
        SearchIssueItemView {
            html_url: self.html_url@,
            title: self.title@,
            created_at: self.created_at@,
            user_login: self.user_login@,
            is_pull_request: self.is_pull_request,
        }
    }
}

/// A pull request that was found again.
#[derive(Debug, Clone)]
pub struct RecoveredPr {
    pub pr_url: String,
    pub title: String,
    pub created_at: String,
    pub user_login: String,
}

/// The texts of a [`RecoveredPr`].
pub struct RecoveredPrView {
    pub pr_url: Seq<char>,
    pub title: Seq<char>,
    pub created_at: Seq<char>,
    pub user_login: Seq<char>,
}

impl View for RecoveredPr {
    type V = RecoveredPrView;

    open spec fn view(&self) -> RecoveredPrView {
        RecoveredPrView {
            pr_url: self.pr_url@,
            title: self.title@,
            created_at: self.created_at@,
            user_login: self.user_login@,
        }
    }
}

/// The views of a list of hits, in order.
pub open spec fn hit_views(v: Seq<SearchIssueItem>) -> Seq<SearchIssueItemView> {
    v.map_values(|i: SearchIssueItem| i@)
}

/// The views of a list of pull requests, in order.
pub open spec fn recovered_views(v: Seq<RecoveredPr>) -> Seq<RecoveredPrView> {
    v.map_values(|p: RecoveredPr| p@)
}

/// An address with pairs of a query added to it, each name and value
/// encoded as in a form, if the address can be read as one.
pub uninterp spec fn query_url(base: Seq<char>, pairs: Seq<(Seq<char>, Seq<char>)>) -> Option<
    Seq<char>,
>;

/// `Url::parse` of `reqwest` reads the address, and `extend_pairs` on its
/// `query_pairs_mut` adds the pairs to its query. `query_url` names the text
/// of the address that comes out, or none where the address cannot be read.
/// An address without a fragment and of modest length keeps every position
/// in it within 32 bits, which the outside code relies on.
#[verifier::external_body]
fn url_with_query(base: &str, pairs: &Vec<Header>) -> (r: Option<String>)
    requires
        base@.len() <= 65536,
        !base@.contains('#'),
    ensures
        opt_text(r) == query_url(base@, header_views(pairs@)),
{
    let mut url = reqwest::Url::parse(base).ok()?;
    url.query_pairs_mut().extend_pairs(pairs.iter().map(|p| (p.name.as_str(), p.value.as_str())));
    Some(url.into())
}

/// How many hits are asked for: the limit, or ten without one, but at least
/// one and at most thirty.
pub open spec fn per_page(limit: Option<u32>) -> u32 {
    let n = match limit {
        Some(n) => n,
        None => 10,
    };
    if n < 1 {
        1
    } else if n > 30 {
        30
    } else {
        n
    }
}

/// The words of the search: pull requests of the manifest repository by the
/// user that name this tool.
pub open spec fn search_query(login: Seq<char>) -> Seq<char> {
    "repo:microsoft/winget-pkgs is:pr author:"@ + login + " \"Created with [UniCreate]\""@
}

/// The pairs of the search's query: the words, and the newest first.
pub open spec fn search_pairs(login: Seq<char>, limit: Option<u32>) -> Seq<(Seq<char>, Seq<char>)> {
    seq![
        ("q"@, search_query(login)),
        ("sort"@, "created"@),
        ("order"@, "desc"@),
        ("per_page"@, decimal_text(per_page(limit) as nat)),
    ]
}

/// The address of the search.
pub open spec fn search_base() -> Seq<char> {
    "https://api.github.com/search/issues"@
}

/// The request of the search, or the failure where its address cannot be
/// built.
pub open spec fn search_request(token: Seq<char>, login: Seq<char>, limit: Option<u32>) -> Result<
    HttpRequestView,
    ApiErrorView,
> {
    match query_url(search_base(), search_pairs(login, limit)) {
        Some(url) => Ok(
            HttpRequestView {
                method: Method::Get,
                url,
                headers: api_headers(Some(token)),
                body: RequestBodyView::Empty,
            },
        ),
        None => Err(ApiErrorView { kind: ApiErrorKind::UrlParse, status: 0, detail: Seq::empty() }),
    }
}

/// The pull requests among the hits, in the order of the hits.
pub open spec fn recovered(items: Seq<SearchIssueItemView>) -> Seq<RecoveredPrView>
    decreases items.len(),
{
    if items.len() == 0 {
        Seq::empty()
    } else {
        let before = recovered(items.drop_last());
        let item = items.last();
        if item.is_pull_request {
            before.push(
                RecoveredPrView {
                    pr_url: item.html_url,
                    title: item.title,
                    created_at: item.created_at,
                    user_login: item.user_login,
                },
            )
        } else {
            before
        }
    }
}

/// How many hits are asked for.
pub fn page_size(limit: Option<u32>) -> (r: u32)
    ensures
        r == per_page(limit),
        1 <= r <= 30,
{
    let n = match limit {
        Some(n) => n,
        None => 10,
    };
    if n < 1 {
        1
    } else if n > 30 {
        30
    } else {
        n
    }
}

/// The request that searches for the pull requests that the user opened
/// with this tool, the newest first.
pub fn fetch_unicreate_recent_prs(token: &str, user: &GitHubUser, limit: Option<u32>) -> (r: Result<
    HttpRequest,
    ApiError,
>)
    ensures
        match r {
            Ok(request) => search_request(token@, user.login@, limit) == Ok::<
                HttpRequestView,
                ApiErrorView,
            >(request@),
            Err(e) => search_request(token@, user.login@, limit) == Err::<
                HttpRequestView,
                ApiErrorView,
            >(e@),
        },
{
    let mut query = chars_of("repo:microsoft/winget-pkgs is:pr author:");
    push_str(&mut query, user.login.as_str());
    push_str(&mut query, " \"Created with [UniCreate]\"");
    let count = string_of(&decimal_of(page_size(limit) as u64));
    let mut pairs: Vec<Header> = Vec::new();
    let a = header("q", string_of(&query).as_str());
    let b = header("sort", "created");
    let c = header("order", "desc");
    let d = header("per_page", count.as_str());
    pairs.push(a);
    pairs.push(b);
    pairs.push(c);
    pairs.push(d);
    proof {
        assert(header_views(pairs@) == seq![a@, b@, c@, d@]);
        reveal_strlit("https://api.github.com/search/issues");
        let base = "https://api.github.com/search/issues"@;
        assert(!base.contains('#')) by {
            assert forall|i: int| 0 <= i < base.len() implies base[i] != '#' by {}
        }
    }
    match url_with_query("https://api.github.com/search/issues", &pairs) {
        Some(url) => Ok(
            HttpRequest {
                method: Method::Get,
                url,
                headers: build_headers(token),
                body: RequestBody::Empty,
            },
        ),
        None => Err(ApiError::plain(ApiErrorKind::UrlParse)),
    }
}

/// Whether the service carried out the search: it did where the status
/// reports success; otherwise the failure holds the status and the answer's
/// text.
pub fn check_search_status(status: u16, body: &str) -> (r: Result<(), ApiError>)
    ensures
        match r {
            Ok(_) => is_success(status),
            Err(e) => !is_success(status) && e@ == (ApiErrorView {
                kind: ApiErrorKind::SearchFailed,
                status,
                detail: body@,
            }),
        },
{
    if 200 <= status && status <= 299 {
        Ok(())
    } else {
        Err(ApiError::rejected(ApiErrorKind::SearchFailed, status, body))
    }
}

/// The pull requests among the hits of a search, in the order of the hits.
pub fn recovered_prs(items: Vec<SearchIssueItem>) -> (r: Vec<RecoveredPr>)
    ensures
        recovered_views(r@) == recovered(hit_views(items@)),
{
    let mut out: Vec<RecoveredPr> = Vec::new();
    let ghost all = hit_views(items@);
    let mut i: usize = 0;
    proof {
        assert(recovered_views(out@) == Seq::<RecoveredPrView>::empty());
        assert(all.take(0) == Seq::<SearchIssueItemView>::empty());
    }
    while i < items.len()
        invariant
            i <= items.len(),
            all == hit_views(items@),
            recovered_views(out@) == recovered(all.take(i as int)),
        decreases items.len() - i,
    {
        proof {
            assert(all.take(i + 1).drop_last() == all.take(i as int));
            assert(all.take(i + 1).last() == items@[i as int]@);
        }
        if items[i].is_pull_request {
            let pr = RecoveredPr {
                pr_url: items[i].html_url.clone(),
                title: items[i].title.clone(),
                created_at: items[i].created_at.clone(),
                user_login: items[i].user_login.clone(),
            };
            proof {
                assert(recovered_views(out@.push(pr)) == recovered_views(out@).push(pr@));
            }
            out.push(pr);
        }
        i += 1;
    }
    proof {
        assert(all.take(items.len() as int) == all);
    }
    out
}

} // verus!
