use unicreate::api_error::ApiErrorKind;
use unicreate::auth::GitHubUser;
use unicreate::http::Method;
use unicreate::chars::{chars_of, string_of};
use unicreate::package_id::{manifest_folder, push_package_dir, push_package_dir_with};
use unicreate::search::{
    check_search_status, fetch_unicreate_recent_prs, page_size, recovered_prs, SearchIssueItem,
};

fn user(login: &str) -> GitHubUser {
    GitHubUser { login: login.to_string(), avatar_url: String::new() }
}

fn hit(n: u32, is_pull_request: bool) -> SearchIssueItem {
    SearchIssueItem {
        html_url: format!("https://github.com/microsoft/winget-pkgs/pull/{}", n),
        title: format!("New version: A.B version {}", n),
        created_at: format!("2024-01-0{}T00:00:00Z", n),
        user_login: "octocat".to_string(),
        is_pull_request,
    }
}

#[test]
fn the_page_size_is_between_one_and_thirty() {
    assert_eq!(page_size(None), 10);
    assert_eq!(page_size(Some(0)), 1);
    assert_eq!(page_size(Some(1)), 1);
    assert_eq!(page_size(Some(17)), 17);
    assert_eq!(page_size(Some(30)), 30);
    assert_eq!(page_size(Some(31)), 30);
    assert_eq!(page_size(Some(u32::MAX)), 30);
}

#[test]
fn the_search_address_holds_the_encoded_query() {
    let req = fetch_unicreate_recent_prs("tok", &user("octocat"), None).expect("a request");
    assert_eq!(req.method, Method::Get);
    assert_eq!(
        req.url,
        "https://api.github.com/search/issues?q=repo%3Amicrosoft%2Fwinget-pkgs+is%3Apr+author%3Aoctocat+%22Created+with+%5BUniCreate%5D%22&sort=created&order=desc&per_page=10"
    );
    let headers: Vec<_> = req.headers.iter().map(|h| (h.name.as_str(), h.value.as_str())).collect();
    assert_eq!(headers[0], ("authorization", "Bearer tok"));
    let req = fetch_unicreate_recent_prs("tok", &user("a&b=c\u{e9}"), Some(99)).expect("a request");
    assert_eq!(
        req.url,
        "https://api.github.com/search/issues?q=repo%3Amicrosoft%2Fwinget-pkgs+is%3Apr+author%3Aa%26b%3Dc%C3%A9+%22Created+with+%5BUniCreate%5D%22&sort=created&order=desc&per_page=30"
    );
}

#[test]
fn a_refused_search_reports_status_and_text() {
    assert!(check_search_status(200, "").is_ok());
    let e = check_search_status(403, "rate limit").err().expect("refused");
    assert_eq!(e.kind, ApiErrorKind::SearchFailed);
    assert_eq!(e.message(), "GitHub search failed (HTTP 403 Forbidden): rate limit");
}

#[test]
fn only_pull_requests_are_recovered_in_order() {
    let prs = recovered_prs(vec![hit(1, true), hit(2, false), hit(3, true)]);
    let got: Vec<_> = prs
        .iter()
        .map(|p| (p.pr_url.as_str(), p.title.as_str(), p.created_at.as_str(), p.user_login.as_str()))
        .collect();
    assert_eq!(
        got,
        vec![
            (
                "https://github.com/microsoft/winget-pkgs/pull/1",
                "New version: A.B version 1",
                "2024-01-01T00:00:00Z",
                "octocat"
            ),
            (
                "https://github.com/microsoft/winget-pkgs/pull/3",
                "New version: A.B version 3",
                "2024-01-03T00:00:00Z",
                "octocat"
            ),
        ]
    );
    assert!(recovered_prs(vec![]).is_empty());
    assert!(recovered_prs(vec![hit(1, false)]).is_empty());
}

#[test]
fn files_are_saved_below_letter_publisher_package_and_version() {
    assert_eq!(
        manifest_folder("Publisher.Package", "1.2.3"),
        vec!["winget-manifests", "p", "Publisher", "Package", "1.2.3"]
    );
    assert_eq!(manifest_folder("Solo", "1"), vec!["winget-manifests", "s", "Solo", "Solo", "1"]);
    assert_eq!(manifest_folder("", "1"), vec!["winget-manifests", "_", "", "", "1"]);
    assert_eq!(manifest_folder(".B", "1"), vec!["winget-manifests", ".", "", "B", "1"]);
    assert_eq!(
        manifest_folder("\u{130}stanbul.App", "1"),
        vec!["winget-manifests", "i\u{307}", "\u{130}stanbul", "App", "1"]
    );
}

#[test]
fn the_package_directory_is_built_from_letter_publisher_and_package() {
    let mut out = chars_of("contents/");
    push_package_dir_with(&mut out, &chars_of("p"), &chars_of("Publisher"), &chars_of("Package"));
    assert_eq!(string_of(&out), "contents/manifests/p/Publisher/Package");
    let mut out = Vec::new();
    push_package_dir_with(&mut out, &chars_of(""), &chars_of(""), &chars_of(""));
    assert_eq!(string_of(&out), "manifests///");
    let mut out = Vec::new();
    push_package_dir(&mut out, &chars_of("Publisher.Package"), &chars_of("Publisher"), &chars_of("Package"));
    assert_eq!(string_of(&out), "manifests/p/Publisher/Package");
}
