use unicreate::api_error::ApiErrorKind;
use unicreate::release::ReleaseDescriptor;
use unicreate::repo_metadata::{
    fetch_repo_metadata, parse_github_url, repo_metadata, RepoAction, RepoEvent, RepoInfo,
    RepoLookup, RepoMetadata,
};

fn parts(url: &str) -> Option<(String, String, Option<String>)> {
    parse_github_url(url)
}

fn some(owner: &str, repo: &str, tag: Option<&str>) -> Option<(String, String, Option<String>)> {
    Some((owner.to_string(), repo.to_string(), tag.map(str::to_string)))
}

fn info() -> RepoInfo {
    RepoInfo {
        name: "repo".to_string(),
        description: Some("A tool".to_string()),
        html_url: "https://github.com/owner/repo".to_string(),
        homepage: Some("https://example.com".to_string()),
        topics: Some(vec!["cli".to_string(), "windows".to_string()]),
        owner_login: "Owner".to_string(),
        license_spdx_id: Some("MIT".to_string()),
    }
}

fn release(tag: &str) -> ReleaseDescriptor {
    ReleaseDescriptor {
        tag_name: tag.to_string(),
        body: Some("notes".to_string()),
        html_url: "https://github.com/owner/repo/releases/tag/v2.0".to_string(),
        published_at: None,
        assets: vec![],
    }
}

fn url(l: &RepoLookup) -> String {
    match l.action() {
        RepoAction::Send(r) => {
            assert_eq!(r.headers.len(), 2);
            r.url
        }
        other => panic!("a request is expected, not {:?}", other),
    }
}

fn found(l: &RepoLookup) -> RepoMetadata {
    match l.action() {
        RepoAction::Finish(m) => m,
        other => panic!("metadata is expected, not {:?}", other),
    }
}

fn failure(l: &RepoLookup) -> String {
    match l.action() {
        RepoAction::Fail(e) => e.message(),
        other => panic!("a failure is expected, not {:?}", other),
    }
}

#[test]
fn addresses_name_owner_repository_and_tag() {
    assert_eq!(
        parts("https://github.com/owner/repo/releases/download/v1.0/file.exe"),
        some("owner", "repo", Some("v1.0"))
    );
    assert_eq!(parts("https://github.com/owner/repo/releases/tag/v1.0"), some("owner", "repo", Some("v1.0")));
    assert_eq!(parts("https://github.com/owner/repo/releases/tag/v1.0///"), some("owner", "repo", Some("v1.0")));
    assert_eq!(parts("https://github.com/owner/repo"), some("owner", "repo", None));
    assert_eq!(parts("github.com/owner/repo/"), some("owner", "repo", None));
    assert_eq!(parts("https://github.com/owner/repo/releases/latest"), some("owner", "repo", None));
    assert_eq!(parts("https://github.com/owner/repo/releases/tag"), some("owner", "repo", None));
    assert_eq!(parts("https://github.com/owner/repo/tree/main/src"), some("owner", "repo", None));
    assert_eq!(
        parts("https://raw.githubusercontent.com/x/github.com/owner/repo"),
        some("owner", "repo", None)
    );
    assert_eq!(parts("https://github.com/owner"), None);
    assert_eq!(parts("https://gitlab.com/owner/repo"), None);
    assert_eq!(parts(""), None);
    assert_eq!(parts("https://github.com//"), None);
}

#[test]
fn metadata_filters_license_homepage_and_topics() {
    let m = repo_metadata(&info(), Some("1.0".to_string()), None, None);
    assert_eq!(m.owner, "Owner");
    assert_eq!(m.repo_name, "repo");
    assert_eq!(m.description.as_deref(), Some("A tool"));
    assert_eq!(m.license.as_deref(), Some("MIT"));
    assert_eq!(m.homepage.as_deref(), Some("https://example.com"));
    assert_eq!(m.html_url, "https://github.com/owner/repo");
    assert_eq!(m.topics, vec!["cli", "windows"]);
    assert_eq!(m.version.as_deref(), Some("1.0"));
    let mut bare = info();
    bare.license_spdx_id = Some("NOASSERTION".to_string());
    bare.homepage = Some(String::new());
    bare.topics = None;
    let m = repo_metadata(&bare, None, None, None);
    assert_eq!(m.license, None);
    assert_eq!(m.homepage, None);
    assert!(m.topics.is_empty());
    assert_eq!(m.version, None);
}

#[test]
fn a_lookup_by_tag_reads_that_release() {
    let mut l = fetch_repo_metadata("https://github.com/owner/repo/releases/download/v2.0/app.exe");
    assert_eq!(url(&l), "https://api.github.com/repos/owner/repo");
    l.advance(RepoEvent::RepoRead { info: info() });
    assert_eq!(url(&l), "https://api.github.com/repos/owner/repo/releases/tags/v2.0");
    l.advance(RepoEvent::ReleaseRead { release: release("V2.0") });
    let m = found(&l);
    assert_eq!(m.version.as_deref(), Some("2.0"));
    assert_eq!(m.release_notes.as_deref(), Some("notes"));
    assert_eq!(m.release_url.as_deref(), Some("https://github.com/owner/repo/releases/tag/v2.0"));
    assert_eq!(m.owner, "Owner");
}

#[test]
fn a_lookup_without_tag_reads_the_newest_release() {
    let mut l = fetch_repo_metadata("https://github.com/owner/repo");
    l.advance(RepoEvent::RepoRead { info: info() });
    assert_eq!(url(&l), "https://api.github.com/repos/owner/repo/releases/latest");
    l.advance(RepoEvent::ParseFailed { detail: "no release".to_string() });
    let m = found(&l);
    assert_eq!(m.version, None);
    assert_eq!(m.release_notes, None);
    assert_eq!(m.release_url, None);
}

#[test]
fn a_release_that_cannot_be_read_leaves_the_version_of_the_tag() {
    let mut l = fetch_repo_metadata("https://github.com/owner/repo/releases/tag/v3.1");
    l.advance(RepoEvent::RepoRead { info: info() });
    l.advance(RepoEvent::ParseFailed { detail: "eof".to_string() });
    let m = found(&l);
    assert_eq!(m.version.as_deref(), Some("3.1"));
    assert_eq!(m.release_notes, None);
    assert_eq!(m.release_url, None);
}

#[test]
fn a_lookup_fails_on_a_foreign_address_and_on_failed_requests() {
    let l = fetch_repo_metadata("https://example.com/owner/repo");
    assert_eq!(failure(&l), "Not a GitHub URL");
    match l.action() {
        RepoAction::Fail(e) => assert_eq!(e.kind, ApiErrorKind::NotGitHubUrl),
        other => panic!("a failure is expected, not {:?}", other),
    }
    let mut l = fetch_repo_metadata("https://github.com/owner/repo");
    l.advance(RepoEvent::ParseFailed { detail: "bad json".to_string() });
    assert_eq!(failure(&l), "Parse error: bad json");
    let mut l = fetch_repo_metadata("https://github.com/owner/repo");
    l.advance(RepoEvent::TransportFailed { detail: "dns".to_string() });
    assert_eq!(failure(&l), "Request failed: dns");
    let mut l = fetch_repo_metadata("https://github.com/owner/repo");
    l.advance(RepoEvent::RepoRead { info: info() });
    l.advance(RepoEvent::TransportFailed { detail: "reset".to_string() });
    assert_eq!(failure(&l), "Request failed: reset");
    l.advance(RepoEvent::ReleaseRead { release: release("1") });
    assert_eq!(failure(&l), "Request failed: reset");
}
