//! What the service knows of a repository and of one of its releases, to
//! fill in a manifest from the address of an installer.
//!
//! Two requests follow one another: the repository, then the release that
//! the address names or, without one, the newest release. The lookup is a
//! state machine like the others.

use crate::api_error::{ApiError, ApiErrorKind, ApiErrorView};
use crate::chars::{
    chars_of, copy_opt, copy_texts, is_text, opt_text, push_str, rows, string_of, texts,
};
use crate::http::{
    api_headers, build_headers_optional, HttpRequest, HttpRequestView, Method, RequestBody,
    RequestBodyView,
};
use crate::manifest::opt_texts;
use crate::release::{ReleaseDescriptor, ReleaseDescriptorView};
use crate::text::{
    contains_text, drop_trailing, has_text, split, split_on, trim_end_by, CharClass,
};
use crate::version::{clean_version, cleaned_version};
use vstd::prelude::*;

verus! {

/// What the service says of a repository.
#[derive(Debug, Clone)]
pub struct RepoInfo {
    pub name: String,
    pub description: Option<String>,
    pub html_url: String,
    pub homepage: Option<String>,
    pub topics: Option<Vec<String>>,
    pub owner_login: String,
    /// The identifier of the license, if the repository has a license and
    /// the license has an identifier.
    pub license_spdx_id: Option<String>,
}

/// The texts of a [`RepoInfo`].
pub struct RepoInfoView {
    pub name: Seq<char>,
    pub description: Option<Seq<char>>,
    pub html_url: Seq<char>,
    pub homepage: Option<Seq<char>>,
    pub topics: Option<Seq<Seq<char>>>,
    pub owner_login: Seq<char>,
    pub license_spdx_id: Option<Seq<char>>,
}

impl View for RepoInfo {
    type V = RepoInfoView;

    open spec fn view(&self) -> RepoInfoView {
        RepoInfoView {
            name: self.name@,
            description: opt_text(self.description),
            html_url: self.html_url@,
            homepage: opt_text(self.homepage),
            topics: opt_texts(self.topics),
            owner_login: self.owner_login@,
            license_spdx_id: opt_text(self.license_spdx_id),
        }
    }
}

/// What is known of a repository and its release.
#[derive(Debug, Clone)]
pub struct RepoMetadata {
    pub owner: String,
    pub repo_name: String,
    pub description: Option<String>,
    pub license: Option<String>,
    pub homepage: Option<String>,
    pub html_url: String,
    pub topics: Vec<String>,
    pub version: Option<String>,
    pub release_notes: Option<String>,
    pub release_url: Option<String>,
}

/// The texts of a [`RepoMetadata`].
pub struct RepoMetadataView {
    pub owner: Seq<char>,
    pub repo_name: Seq<char>,
    pub description: Option<Seq<char>>,
    pub license: Option<Seq<char>>,
    pub homepage: Option<Seq<char>>,
    pub html_url: Seq<char>,
    pub topics: Seq<Seq<char>>,
    pub version: Option<Seq<char>>,
    pub release_notes: Option<Seq<char>>,
    pub release_url: Option<Seq<char>>,
}

impl View for RepoMetadata {
    type V = RepoMetadataView;

    open spec fn view(&self) -> RepoMetadataView {
        RepoMetadataView {
            owner: self.owner@,
            repo_name: self.repo_name@,
            description: opt_text(self.description),
            license: opt_text(self.license),
            homepage: opt_text(self.homepage),
            html_url: self.html_url@,
            topics: texts(self.topics@),
            version: opt_text(self.version),
            release_notes: opt_text(self.release_notes),
            release_url: opt_text(self.release_url),
        }
    }
}

/// The index of the first piece that holds the name of the service's host,
/// or the number of pieces if none does.
pub open spec fn host_index(parts: Seq<Seq<char>>) -> int
    decreases parts.len(),
{
    if parts.len() == 0 || contains_text(parts[0], "github.com"@) {
        0
    } else {
        1 + host_index(parts.drop_first())
    }
}

/// The owner, the repository and the tag that an address names. The address
/// loses the slashes at its end and is split at slashes; the two pieces
/// behind the first piece with the host's name are owner and repository.
/// There is a tag where `releases` and then `download` or `tag` follow, and
/// one more piece: that piece.
pub open spec fn github_url_parts(url: Seq<char>) -> Option<(Seq<char>, Seq<char>, Option<Seq<char>>)> {
    let parts = split(drop_trailing(url, CharClass::Only('/')), '/');
    let g = host_index(parts);
    if g >= parts.len() || parts.len() < g + 3 {
        None
    } else {
        Some(
            (
                parts[g + 1],
                parts[g + 2],
                if parts.len() > g + 5 && parts[g + 3] == "releases"@ && (parts[g + 4]
                    == "download"@ || parts[g + 4] == "tag"@) {
                    Some(parts[g + 5])
                } else {
                    None
                },
            ),
        )
    }
}

/// An index with no piece before it that holds the host's name, which is
/// the number of pieces or the index of such a piece, is the host index.
proof fn lemma_host_index(parts: Seq<Seq<char>>, i: int)
    requires
        0 <= i <= parts.len(),
        forall|j: int| 0 <= j < i ==> !contains_text(parts[j], "github.com"@),
        i < parts.len() ==> contains_text(parts[i], "github.com"@),
    ensures
        host_index(parts) == i,
    decreases i,
{
    if i > 0 {
        let rest = parts.drop_first();
        assert forall|j: int| 0 <= j < i - 1 implies !contains_text(rest[j], "github.com"@) by {
            assert(rest[j] == parts[j + 1]);
        }
        lemma_host_index(rest, i - 1);
    }
}

/// The owner, the repository and the tag that an address names.
pub fn parse_github_url(url: &str) -> (r: Option<(String, String, Option<String>)>)
    ensures
        match r {
            Some((owner, repo, tag)) => github_url_parts(url@) == Some(
                (owner@, repo@, opt_text(tag)),
            ),
            None => github_url_parts(url@) is None,
        },
{
    let clean = trim_end_by(&chars_of(url), CharClass::Only('/'));
    let parts = split_on(&clean, '/');
    let host = chars_of("github.com");
    let ghost all = rows(parts@);
    let mut g: usize = 0;
    while g < parts.len() && !has_text(&parts[g], &host)
        invariant
            g <= parts.len(),
            all == rows(parts@),
            host@ == "github.com"@,
            forall|j: int| 0 <= j < g ==> !contains_text(all[j], "github.com"@),
        decreases parts.len() - g,
    {
        proof {
            assert(all[g as int] == parts@[g as int]@);
        }
        g += 1;
    }
    proof {
        if g < parts.len() {
            assert(all[g as int] == parts@[g as int]@);
        }
        lemma_host_index(all, g as int);
        assert(all.len() == parts@.len());
    }
    if g >= parts.len() || parts.len() - g < 3 {
        return None;
    }
    proof {
        assert(all[g + 1] == parts@[g + 1]@);
        assert(all[g + 2] == parts@[g + 2]@);
    }
    let owner = string_of(&parts[g + 1]);
    let repo = string_of(&parts[g + 2]);
    let tag = if parts.len() - g > 5 {
        proof {
            assert(all[g + 3] == parts@[g + 3]@);
            assert(all[g + 4] == parts@[g + 4]@);
            assert(all[g + 5] == parts@[g + 5]@);
        }
        if is_text(&parts[g + 3], "releases") && (is_text(&parts[g + 4], "download") || is_text(
            &parts[g + 4],
            "tag",
        )) {
            Some(string_of(&parts[g + 5]))
        } else {
            None
        }
    } else {
        None
    };
    Some((owner, repo, tag))
}

/// What of a release goes into the metadata: its version, its notes and its
/// address.
pub struct ReleaseFacts {
    pub version: Option<Seq<char>>,
    pub release_notes: Option<Seq<char>>,
    pub release_url: Option<Seq<char>>,
}

/// The facts of a release that was read.
pub open spec fn facts_of(release: ReleaseDescriptorView) -> ReleaseFacts {
    ReleaseFacts {
        version: Some(cleaned_version(release.tag_name)),
        release_notes: release.body,
        release_url: Some(release.html_url),
    }
}

/// The facts where no release could be read: the version of the tag that
/// the address names, if it names one.
pub open spec fn facts_without_release(tag: Option<Seq<char>>) -> ReleaseFacts {
    ReleaseFacts {
        version: match tag {
            Some(t) => Some(cleaned_version(t)),
            None => None,
        },
        release_notes: None,
        release_url: None,
    }
}

/// What is known of a repository and its release: a license counts unless
/// its identifier is `NOASSERTION`, a homepage unless it is empty, and the
/// topics are empty where the service names none.
pub open spec fn metadata_of(info: RepoInfoView, facts: ReleaseFacts) -> RepoMetadataView {
    RepoMetadataView {
        owner: info.owner_login,
        repo_name: info.name,
        description: info.description,
        license: match info.license_spdx_id {
            Some(id) => if id != "NOASSERTION"@ {
                Some(id)
            } else {
                None
            },
            None => None,
        },
        homepage: match info.homepage {
            Some(h) => if h.len() > 0 {
                Some(h)
            } else {
                None
            },
            None => None,
        },
        html_url: info.html_url,
        topics: match info.topics {
            Some(t) => t,
            None => Seq::empty(),
        },
        version: facts.version,
        release_notes: facts.release_notes,
        release_url: facts.release_url,
    }
}

/// The steps of the lookup and its two final states.
#[derive(Debug, Clone, Copy, PartialEq, Eq, Structural)]
pub enum RepoStep {
    /// Read the repository.
    ReadRepo,
    /// Read the release.
    ReadRelease,
    /// The metadata is there.
    Done,
    /// The lookup has failed.
    Failed,
}

/// What the caller reports after it has sent a request.
#[derive(Debug, Clone)]
pub enum RepoEvent {
    /// The request could not be sent, or no answer came.
    TransportFailed { detail: String },
    /// The answer could not be read.
    ParseFailed { detail: String },
    /// The repository.
    RepoRead { info: RepoInfo },
    /// The release.
    ReleaseRead { release: ReleaseDescriptor },
}

/// What the caller has to do next.
#[derive(Debug, Clone)]
pub enum RepoAction {
    /// Send the request and report the answer.
    Send(HttpRequest),
    /// The lookup is done: this is the metadata.
    Finish(RepoMetadata),
    /// The lookup has failed.
    Fail(ApiError),
}

/// The texts of a [`RepoAction`].
pub enum RepoActionView {
    Send(HttpRequestView),
    Finish(RepoMetadataView),
    Fail(ApiErrorView),
}

impl View for RepoAction {
    type V = RepoActionView;

    open spec fn view(&self) -> RepoActionView {
        match self {
            RepoAction::Send(r) => RepoActionView::Send(r@),
            RepoAction::Finish(m) => RepoActionView::Finish(m@),
            RepoAction::Fail(e) => RepoActionView::Fail(e@),
        }
    }
}

/// The state of one lookup.
#[derive(Debug)]
pub struct RepoLookup {
    owner: String,
    repo: String,
    tag: Option<String>,
    step: RepoStep,
    info: Option<RepoInfo>,
    found: Option<RepoMetadata>,
    failure: Option<ApiError>,
}

/// The texts of a [`RepoLookup`].
pub struct RepoLookupView {
    pub owner: Seq<char>,
    pub repo: Seq<char>,
    pub tag: Option<Seq<char>>,
    pub step: RepoStep,
    pub info: Option<RepoInfoView>,
    pub found: Option<RepoMetadataView>,
    pub failure: Option<ApiErrorView>,
}

impl View for RepoLookup {
    type V = RepoLookupView;

    closed spec fn view(&self) -> RepoLookupView {
        RepoLookupView {
            owner: self.owner@,
            repo: self.repo@,
            tag: opt_text(self.tag),
            step: self.step,
            info: match self.info {
                Some(i) => Some(i@),
                None => None,
            },
            found: match self.found {
                Some(m) => Some(m@),
                None => None,
            },
            failure: match self.failure {
                Some(e) => Some(e@),
                None => None,
            },
        }
    }
}

/// A state whose step has what it needs.
pub open spec fn repo_well_formed(s: RepoLookupView) -> bool {
    &&& s.step == RepoStep::ReadRelease ==> s.info is Some
    &&& s.step == RepoStep::Done <==> s.found is Some
    &&& s.step == RepoStep::Failed <==> s.failure is Some
}

/// The address at which the service describes a repository.
pub open spec fn repo_url(owner: Seq<char>, repo: Seq<char>) -> Seq<char> {
    "https://api.github.com/repos/"@ + owner + "/"@ + repo
}

/// The address of the release to read: that of the tag, or the newest.
pub open spec fn release_url(owner: Seq<char>, repo: Seq<char>, tag: Option<Seq<char>>) -> Seq<char> {
    match tag {
        Some(t) => repo_url(owner, repo) + "/releases/tags/"@ + t,
        None => repo_url(owner, repo) + "/releases/latest"@,
    }
}

/// What the caller has to do in a state.
pub open spec fn repo_action(s: RepoLookupView) -> RepoActionView {
    match s.step {
        RepoStep::Done => RepoActionView::Finish(s.found->0),
        RepoStep::Failed => RepoActionView::Fail(s.failure->0),
        _ => RepoActionView::Send(
            HttpRequestView {
                method: Method::Get,
                url: if s.step == RepoStep::ReadRepo {
                    repo_url(s.owner, s.repo)
                } else {
                    release_url(s.owner, s.repo, s.tag)
                },
                headers: api_headers(None),
                body: RequestBodyView::Empty,
            },
        ),
    }
}

/// The state after a failure.
pub open spec fn repo_failed(s: RepoLookupView, kind: ApiErrorKind, detail: Seq<char>) -> RepoLookupView {
    RepoLookupView {
        step: RepoStep::Failed,
        failure: Some(ApiErrorView { kind, status: 0, detail }),
        ..s
    }
}

/// The state after an event. A release that cannot be read is no failure:
/// the metadata then goes without it. An event that does not answer the
/// action of the state leaves the state as it is.
pub open spec fn repo_next(s: RepoLookupView, e: RepoEvent) -> RepoLookupView {
    match e {
        RepoEvent::TransportFailed { detail } => if s.step == RepoStep::ReadRepo || s.step
            == RepoStep::ReadRelease {
            repo_failed(s, ApiErrorKind::Transport, detail@)
        } else {
            s
        },
        RepoEvent::ParseFailed { detail } => if s.step == RepoStep::ReadRepo {
            repo_failed(s, ApiErrorKind::Parse, detail@)
        } else if s.step == RepoStep::ReadRelease {
            RepoLookupView {
                step: RepoStep::Done,
                found: Some(metadata_of(s.info->0, facts_without_release(s.tag))),
                ..s
            }
        } else {
            s
        },
        RepoEvent::RepoRead { info } => if s.step == RepoStep::ReadRepo {
            RepoLookupView { step: RepoStep::ReadRelease, info: Some(info@), ..s }
        } else {
            s
        },
        RepoEvent::ReleaseRead { release } => if s.step == RepoStep::ReadRelease {
            RepoLookupView {
                step: RepoStep::Done,
                found: Some(metadata_of(s.info->0, facts_of(release@))),
                ..s
            }
        } else {
            s
        },
    }
}

/// The state in which a lookup starts: at its first step, or failed at once
/// where the address names no repository.
pub open spec fn repo_start(url: Seq<char>) -> RepoLookupView {
    match github_url_parts(url) {
        Some((owner, repo, tag)) => RepoLookupView {
            owner,
            repo,
            tag,
            step: RepoStep::ReadRepo,
            info: None,
            found: None,
            failure: None,
        },
        None => RepoLookupView {
            owner: Seq::empty(),
            repo: Seq::empty(),
            tag: None,
            step: RepoStep::Failed,
            info: None,
            found: None,
            failure: Some(
                ApiErrorView { kind: ApiErrorKind::NotGitHubUrl, status: 0, detail: Seq::empty() },
            ),
        },
    }
}

/// Every event leads from a well-formed state to a well-formed state, and a
/// lookup that is done or has failed stays as it is.
pub proof fn law_repo_lookup_runs_forward(s: RepoLookupView, e: RepoEvent)
    requires
        repo_well_formed(s),
    ensures
        repo_well_formed(repo_next(s, e)),
        s.step == RepoStep::Done || s.step == RepoStep::Failed ==> repo_next(s, e) == s,
        s.step == RepoStep::ReadRelease ==> repo_next(s, e).step != RepoStep::ReadRepo,
{
}



fn copy_metadata(m: &RepoMetadata) -> (r: RepoMetadata)
    ensures
        r@ == m@,
{
    RepoMetadata {
        owner: m.owner.clone(),
        repo_name: m.repo_name.clone(),
        description: copy_opt(&m.description),
        license: copy_opt(&m.license),
        homepage: copy_opt(&m.homepage),
        html_url: m.html_url.clone(),
        topics: copy_texts(m.topics.as_slice()),
        version: copy_opt(&m.version),
        release_notes: copy_opt(&m.release_notes),
        release_url: copy_opt(&m.release_url),
    }
}

/// What is known of a repository, with the given facts of its release.
pub fn repo_metadata(
    info: &RepoInfo,
    version: Option<String>,
    release_notes: Option<String>,
    release_url: Option<String>,
) -> (r: RepoMetadata)
    ensures
        r@ == metadata_of(
            info@,
            ReleaseFacts {
                version: opt_text(version),
                release_notes: opt_text(release_notes),
                release_url: opt_text(release_url),
            },
        ),
{
    let license = match &info.license_spdx_id {
        Some(id) => {
            let v = chars_of(id.as_str());
            if is_text(&v, "NOASSERTION") {
                None
            } else {
                Some(id.clone())
            }
        },
        None => None,
    };
    let homepage = match &info.homepage {
        Some(h) => {
            let v = chars_of(h.as_str());
            if v.len() > 0 {
                Some(h.clone())
            } else {
                None
            }
        },
        None => None,
    };
    let topics = match &info.topics {
        Some(t) => copy_texts(t.as_slice()),
        None => {
            let v: Vec<String> = Vec::new();
            proof {
                assert(texts(v@) == Seq::<Seq<char>>::empty());
            }
            v
        },
    };
    RepoMetadata {
        owner: info.owner_login.clone(),
        repo_name: info.name.clone(),
        description: copy_opt(&info.description),
        license,
        homepage,
        html_url: info.html_url.clone(),
        topics,
        version,
        release_notes,
        release_url,
    }
}

/// Starts the lookup of a repository by the address of one of its files or
/// pages.
pub fn fetch_repo_metadata(url: &str) -> (r: RepoLookup)
    ensures
        r.wf(),
        r@ == repo_start(url@),
{
    match parse_github_url(url) {
        Some((owner, repo, tag)) => RepoLookup {
            owner,
            repo,
            tag,
            step: RepoStep::ReadRepo,
            info: None,
            found: None,
            failure: None,
        },
        None => RepoLookup {
            owner: String::new(),
            repo: String::new(),
            tag: None,
            step: RepoStep::Failed,
            info: None,
            found: None,
            failure: Some(ApiError::plain(ApiErrorKind::NotGitHubUrl)),
        },
    }
}

impl RepoLookup {
    /// Whether the step that is due has what it needs.
    pub open spec fn wf(&self) -> bool {
        repo_well_formed(self@)
    }

    fn url(&self) -> (r: String)
        ensures
            r@ == if self@.step == RepoStep::ReadRepo {
                repo_url(self@.owner, self@.repo)
            } else {
                release_url(self@.owner, self@.repo, self@.tag)
            },
    {
        let mut out = chars_of("https://api.github.com/repos/");
        push_str(&mut out, self.owner.as_str());
        push_str(&mut out, "/");
        push_str(&mut out, self.repo.as_str());
        if self.step != RepoStep::ReadRepo {
            match &self.tag {
                Some(t) => {
                    push_str(&mut out, "/releases/tags/");
                    push_str(&mut out, t.as_str());
                },
                None => {
                    push_str(&mut out, "/releases/latest");
                },
            }
        }
        string_of(&out)
    }

    /// The step that is due.
    pub fn step(&self) -> (r: RepoStep)
        ensures
            r == self@.step,
    {
        self.step
    }

    /// What the caller has to do next.
    pub fn action(&self) -> (r: RepoAction)
        requires
            self.wf(),
        ensures
            r@ == repo_action(self@),
    {
        match self.step {
            RepoStep::Done => match &self.found {
                Some(m) => RepoAction::Finish(copy_metadata(m)),
                None => vstd::pervasive::unreached(),
            },
            RepoStep::Failed => match &self.failure {
                Some(e) => RepoAction::Fail(
                    ApiError { kind: e.kind, status: e.status, detail: e.detail.clone() },
                ),
                None => vstd::pervasive::unreached(),
            },
            _ => RepoAction::Send(
                HttpRequest {
                    method: Method::Get,
                    url: self.url(),
                    headers: build_headers_optional(None),
                    body: RequestBody::Empty,
                },
            ),
        }
    }

    fn finish(&mut self, version: Option<String>, notes: Option<String>, url: Option<String>)
        requires
            old(self)@.info is Some,
        ensures
            final(self)@ == (RepoLookupView {
                step: RepoStep::Done,
                found: Some(
                    metadata_of(
                        old(self)@.info->0,
                        ReleaseFacts {
                            version: opt_text(version),
                            release_notes: opt_text(notes),
                            release_url: opt_text(url),
                        },
                    ),
                ),
                ..old(self)@
            }),
    {
        let found = match &self.info {
            Some(info) => Some(repo_metadata(info, version, notes, url)),
            None => vstd::pervasive::unreached(),
        };
        self.found = found;
        self.step = RepoStep::Done;
    }

    /// Takes in what came of the last request. An event that does not answer
    /// that request changes nothing.
    pub fn advance(&mut self, event: RepoEvent)
        requires
            old(self).wf(),
        ensures
            final(self).wf(),
            final(self)@ == repo_next(old(self)@, event),
    {
        proof {
            law_repo_lookup_runs_forward(self@, event);
        }
        match event {
            RepoEvent::TransportFailed { detail } => {
                if self.step == RepoStep::ReadRepo || self.step == RepoStep::ReadRelease {
                    self.failure = Some(
                        ApiError { kind: ApiErrorKind::Transport, status: 0, detail },
                    );
                    self.step = RepoStep::Failed;
                }
            },
            RepoEvent::ParseFailed { detail } => {
                if self.step == RepoStep::ReadRepo {
                    self.failure = Some(ApiError { kind: ApiErrorKind::Parse, status: 0, detail });
                    self.step = RepoStep::Failed;
                } else if self.step == RepoStep::ReadRelease {
                    let version = match &self.tag {
                        Some(t) => Some(clean_version(t.as_str())),
                        None => None,
                    };
                    self.finish(version, None, None);
                }
            },
            RepoEvent::RepoRead { info } => {
                if self.step == RepoStep::ReadRepo {
                    self.info = Some(info);
                    self.step = RepoStep::ReadRelease;
                }
            },
            RepoEvent::ReleaseRead { release } => {
                if self.step == RepoStep::ReadRelease {
                    let version = Some(clean_version(release.tag_name.as_str()));
                    self.finish(version, release.body, Some(release.html_url));
                }
            },
        }
    }
}

} // verus!
