use unicreate::http::{HttpRequest, Method, RequestBody};
use unicreate::manifest::YamlFile;
use unicreate::publish::{
    submit_manifest, FailureKind, PipelineAction, PipelineEvent, PipelineState, PipelineStep,
    Reply,
};

fn file(name: &str, content: &str) -> YamlFile {
    YamlFile { file_name: name.to_string(), content: content.to_string() }
}

fn two_files() -> Vec<YamlFile> {
    vec![
        file("Publisher.Package.yaml", "version"),
        file("Publisher.Package.installer.yaml", "installer"),
    ]
}

fn request(p: &PipelineState) -> HttpRequest {
    match p.action() {
        PipelineAction::Send(r) => r,
        other => panic!("a request is expected, not {:?}", other),
    }
}

fn sha(s: &str) -> String {
    s.to_string()
}

fn ok(reply: Reply) -> PipelineEvent {
    PipelineEvent::Replied { status: 200, reply }
}

fn refused(status: u16) -> PipelineEvent {
    PipelineEvent::Replied { status, reply: Reply::Other }
}

fn identified(login: &str) -> PipelineEvent {
    ok(Reply::User { login: login.to_string() })
}

fn forked() -> PipelineEvent {
    ok(Reply::Other)
}

fn object(sha: &str) -> PipelineEvent {
    PipelineEvent::Replied { status: 201, reply: Reply::Object { sha: sha.to_string() } }
}

fn branch_created() -> PipelineEvent {
    PipelineEvent::Replied { status: 201, reply: Reply::Other }
}

fn opened(url: &str) -> PipelineEvent {
    PipelineEvent::Replied { status: 201, reply: Reply::PullRequest { html_url: url.to_string() } }
}

fn unread(detail: &str) -> PipelineEvent {
    ok(Reply::Unread { detail: detail.to_string() })
}

/// Runs a pipeline up to the step that creates the tree.
fn up_to_tree(files: &[YamlFile], id: &str, version: &str) -> PipelineState {
    let mut p = submit_manifest("tok", files, id, version);
    p.advance(identified("octocat"));
    p.advance(forked());
    p.advance(PipelineEvent::Settled);
    p.advance(object("base"));
    for i in 0..files.len() {
        p.advance(object(&format!("blob{}", i)));
    }
    p
}

#[test]
fn end_to_end_tree_paths_follow_the_files() {
    let files = two_files();
    let p = up_to_tree(&files, "Publisher.Package", "1.2.3");
    let r = request(&p);
    assert_eq!(r.method, Method::Post);
    assert_eq!(r.url, "https://api.github.com/repos/octocat/winget-pkgs/git/trees");
    match r.body {
        RequestBody::Tree { base_tree, tree } => {
            assert_eq!(base_tree, "base");
            let got: Vec<_> = tree
                .iter()
                .map(|e| (e.path.as_str(), e.mode.as_str(), e.entry_type.as_str(), e.sha.as_str()))
                .collect();
            assert_eq!(
                got,
                vec![
                    ("manifests/p/Publisher/Package/1.2.3/Publisher.Package.yaml", "100644", "blob", "blob0"),
                    (
                        "manifests/p/Publisher/Package/1.2.3/Publisher.Package.installer.yaml",
                        "100644",
                        "blob",
                        "blob1"
                    ),
                ]
            );
        }
        other => panic!("a tree is expected, not {:?}", other),
    }
}

#[test]
fn the_steps_follow_one_another() {
    let files = two_files();
    let mut p = submit_manifest(" tok ", &files, "Publisher.Package", "1.2.3");

    let r = request(&p);
    assert_eq!((r.method, r.url.as_str()), (Method::Get, "https://api.github.com/user"));
    let headers: Vec<_> = r.headers.iter().map(|h| (h.name.as_str(), h.value.as_str())).collect();
    assert_eq!(
        headers,
        vec![
            ("authorization", "Bearer tok"),
            ("accept", "application/vnd.github.v3+json"),
            ("user-agent", "UniCreate/1.0"),
        ]
    );
    assert!(matches!(r.body, RequestBody::Empty));
    p.advance(identified("octocat"));

    let r = request(&p);
    assert_eq!(
        (r.method, r.url.as_str()),
        (Method::Post, "https://api.github.com/repos/microsoft/winget-pkgs/forks")
    );
    p.advance(forked());

    assert!(matches!(p.action(), PipelineAction::Wait { seconds: 3 }));
    p.advance(PipelineEvent::Settled);

    let r = request(&p);
    assert_eq!(
        (r.method, r.url.as_str()),
        (Method::Get, "https://api.github.com/repos/octocat/winget-pkgs/git/ref/heads/master")
    );
    p.advance(object("base"));

    for (i, f) in files.iter().enumerate() {
        let r = request(&p);
        assert_eq!(
            (r.method, r.url.as_str()),
            (Method::Post, "https://api.github.com/repos/octocat/winget-pkgs/git/blobs")
        );
        match r.body {
            RequestBody::Blob { content, encoding } => {
                assert_eq!(content, f.content);
                assert_eq!(encoding, "utf-8");
            }
            other => panic!("a blob is expected, not {:?}", other),
        }
        p.advance(object(&format!("blob{}", i)));
    }

    let r = request(&p);
    assert!(matches!(r.body, RequestBody::Tree { .. }));
    p.advance(object("tree"));

    let r = request(&p);
    assert_eq!(
        (r.method, r.url.as_str()),
        (Method::Post, "https://api.github.com/repos/octocat/winget-pkgs/git/commits")
    );
    match r.body {
        RequestBody::Commit { message, tree, parent } => {
            assert_eq!(message, "New version: Publisher.Package version 1.2.3");
            assert_eq!(tree, "tree");
            assert_eq!(parent, "base");
        }
        other => panic!("a commit is expected, not {:?}", other),
    }
    p.advance(object("commit"));

    let r = request(&p);
    assert_eq!(
        (r.method, r.url.as_str()),
        (Method::Post, "https://api.github.com/repos/octocat/winget-pkgs/git/refs")
    );
    match r.body {
        RequestBody::Ref { ref_name, sha } => {
            assert_eq!(ref_name, "refs/heads/Publisher-Package-1-2-3");
            assert_eq!(sha, "commit");
        }
        other => panic!("a ref is expected, not {:?}", other),
    }
    p.advance(branch_created());

    let r = request(&p);
    assert_eq!(
        (r.method, r.url.as_str()),
        (Method::Post, "https://api.github.com/repos/microsoft/winget-pkgs/pulls")
    );
    match r.body {
        RequestBody::PullRequest { title, head, base, body } => {
            assert_eq!(title, "New version: Publisher.Package version 1.2.3");
            assert_eq!(head, "octocat:Publisher-Package-1-2-3");
            assert_eq!(base, "master");
            assert_eq!(
                body,
                "## Package: Publisher.Package\n## Version: 1.2.3\n\nCreated with [UniCreate](https://github.com/drrakendu78/UniCreate)"
            );
        }
        other => panic!("a pull request is expected, not {:?}", other),
    }
    p.advance(opened("https://github.com/microsoft/winget-pkgs/pull/1"));

    match p.action() {
        PipelineAction::Finish { pr_url } => {
            assert_eq!(pr_url, "https://github.com/microsoft/winget-pkgs/pull/1")
        }
        other => panic!("the end is expected, not {:?}", other),
    }
    p.advance(PipelineEvent::TransportFailed { detail: "late".to_string() });
    assert!(matches!(p.action(), PipelineAction::Finish { .. }));
}

#[test]
fn a_missing_token_fails_before_any_request() {
    for token in ["", "  "] {
        let p = submit_manifest(token, &two_files(), "Publisher.Package", "1.2.3");
        match p.action() {
            PipelineAction::Fail(e) => {
                assert_eq!(e.kind, FailureKind::MissingToken);
                assert_eq!(e.message(), "Missing token");
            }
            other => panic!("a failure is expected, not {:?}", other),
        }
    }
}

#[test]
fn a_refused_token_fails_the_pipeline() {
    let mut p = submit_manifest("tok", &two_files(), "Publisher.Package", "1.2.3");
    p.advance(refused(401));
    match p.action() {
        PipelineAction::Fail(e) => {
            assert_eq!(e.kind, FailureKind::InvalidToken);
            assert_eq!(e.step, PipelineStep::Identify);
            assert_eq!(e.message(), "Invalid token (HTTP 401 Unauthorized)");
        }
        other => panic!("a failure is expected, not {:?}", other),
    }
}

/// Runs a pipeline for `steps` events that succeed, then hands it over.
fn after(steps: usize) -> PipelineState {
    let mut p = submit_manifest("tok", &two_files(), "Publisher.Package", "1.2.3");
    let events = vec![
        identified("octocat"),
        forked(),
        PipelineEvent::Settled,
        object("base"),
        object("b0"),
        object("b1"),
        object("tree"),
        object("commit"),
        branch_created(),
    ];
    for e in events.into_iter().take(steps) {
        p.advance(e);
    }
    p
}

fn failure_message(mut p: PipelineState, event: PipelineEvent) -> Option<String> {
    p.advance(event);
    match p.action() {
        PipelineAction::Fail(e) => Some(e.message()),
        _ => None,
    }
}

#[test]
fn each_step_names_itself_when_a_request_fails() {
    let cases = [
        (0, "Request failed: x"),
        (1, "Fork failed: x"),
        (3, "Get ref failed: x"),
        (4, "Blob create failed: x"),
        (5, "Blob create failed: x"),
        (6, "Tree create failed: x"),
        (7, "Commit create failed: x"),
        (8, "Branch create failed: x"),
        (9, "PR create failed: x"),
    ];
    for (steps, message) in cases {
        let got = failure_message(after(steps), PipelineEvent::TransportFailed { detail: "x".to_string() });
        assert_eq!(got.as_deref(), Some(message), "after {} steps", steps);
    }
    assert_eq!(failure_message(after(2), PipelineEvent::TransportFailed { detail: "x".to_string() }), None);
}

#[test]
fn each_step_names_itself_when_an_answer_cannot_be_read() {
    let cases = [
        (0, Some("Parse error: x")),
        (1, Some("Fork parse: x")),
        (2, None),
        (3, Some("Ref parse: x")),
        (4, Some("Blob parse: x")),
        (6, Some("Tree parse: x")),
        (7, Some("Commit parse: x")),
        (8, None),
        (9, Some("PR parse: x")),
    ];
    for (steps, message) in cases {
        let got = failure_message(after(steps), unread("x"));
        assert_eq!(got.as_deref(), message, "after {} steps", steps);
    }
}

#[test]
fn a_failure_is_final_and_keeps_what_was_recorded() {
    let mut p = after(5);
    p.advance(PipelineEvent::TransportFailed { detail: "down".to_string() });
    p.advance(object("b1"));
    p.advance(object("tree"));
    match p.action() {
        PipelineAction::Fail(e) => {
            assert_eq!(e.step, PipelineStep::Blobs);
            assert_eq!(e.kind, FailureKind::Transport);
            assert_eq!(e.detail, "down");
        }
        other => panic!("a failure is expected, not {:?}", other),
    }
}

#[test]
fn events_that_do_not_answer_the_action_change_nothing() {
    let mut p = after(0);
    p.advance(forked());
    p.advance(object("b"));
    p.advance(opened("u"));
    p.advance(PipelineEvent::Settled);
    assert_eq!(request(&p).url, "https://api.github.com/user");
    let mut p = after(1);
    p.advance(PipelineEvent::Settled);
    assert_eq!(request(&p).url, "https://api.github.com/repos/microsoft/winget-pkgs/forks");
    let mut p = after(2);
    p.advance(object("x"));
    p.advance(refused(500));
    p.advance(PipelineEvent::TransportFailed { detail: "x".to_string() });
    assert!(matches!(p.action(), PipelineAction::Wait { seconds: 3 }));
    let mut p = after(3);
    p.advance(identified("someone"));
    p.advance(opened("u"));
    assert_eq!(
        request(&p).url,
        "https://api.github.com/repos/octocat/winget-pkgs/git/ref/heads/master"
    );
}

#[test]
fn a_refused_request_fails_the_run_at_its_step() {
    let cases = [
        (0, 401, PipelineStep::Identify, FailureKind::InvalidToken, "Invalid token (HTTP 401 Unauthorized)"),
        (1, 403, PipelineStep::Fork, FailureKind::Status, "Fork failed: HTTP 403 Forbidden"),
        (3, 404, PipelineStep::BaseRef, FailureKind::Status, "Get ref failed: HTTP 404 Not Found"),
        (4, 422, PipelineStep::Blobs, FailureKind::Status, "Blob create failed: HTTP 422 Unprocessable Entity"),
        (6, 500, PipelineStep::Tree, FailureKind::Status, "Tree create failed: HTTP 500 Internal Server Error"),
        (7, 409, PipelineStep::Commit, FailureKind::Status, "Commit create failed: HTTP 409 Conflict"),
        (8, 422, PipelineStep::Branch, FailureKind::Status, "Branch create failed: HTTP 422 Unprocessable Entity"),
        (9, 422, PipelineStep::PullRequest, FailureKind::Status, "PR create failed: HTTP 422 Unprocessable Entity"),
    ];
    for (steps, status, step, kind, message) in cases {
        let mut p = after(steps);
        p.advance(refused(status));
        match p.action() {
            PipelineAction::Fail(e) => {
                assert_eq!(e.step, step);
                assert_eq!(e.kind, kind);
                assert_eq!(e.status, status);
                assert_eq!(e.message(), message);
            }
            other => panic!("a failure is expected after {} steps, not {:?}", steps, other),
        }
    }
}

#[test]
fn a_branch_that_is_left_over_is_not_followed_by_a_pull_request() {
    let mut p = after(8);
    assert_eq!(request(&p).url, "https://api.github.com/repos/octocat/winget-pkgs/git/refs");
    p.advance(PipelineEvent::Replied {
        status: 422,
        reply: Reply::Unread { detail: "Reference already exists".to_string() },
    });
    assert!(matches!(p.action(), PipelineAction::Fail(_)));
    p.advance(branch_created());
    p.advance(opened("https://github.com/microsoft/winget-pkgs/pull/1"));
    match p.action() {
        PipelineAction::Fail(e) => {
            assert_eq!(e.step, PipelineStep::Branch);
            assert_eq!(e.message(), "Branch create failed: HTTP 422 Unprocessable Entity");
        }
        other => panic!("a failure is expected, not {:?}", other),
    }
}

#[test]
fn a_refused_fork_does_not_pass_as_a_fork() {
    let mut p = after(1);
    p.advance(PipelineEvent::Replied { status: 403, reply: Reply::Other });
    assert!(matches!(p.action(), PipelineAction::Fail(_)));
    let mut p = after(1);
    p.advance(PipelineEvent::Replied { status: 202, reply: Reply::Other });
    assert!(matches!(p.action(), PipelineAction::Wait { seconds: 3 }));
}

#[test]
fn the_answer_to_the_branch_request_is_not_read() {
    let mut p = after(8);
    p.advance(unread("not json"));
    assert_eq!(request(&p).url, "https://api.github.com/repos/microsoft/winget-pkgs/pulls");
}

#[test]
fn without_files_the_tree_follows_the_base_ref() {
    let p = up_to_tree(&[], "Publisher.Package", "1.0");
    match request(&p).body {
        RequestBody::Tree { base_tree, tree } => {
            assert_eq!(base_tree, "base");
            assert!(tree.is_empty());
        }
        other => panic!("a tree is expected, not {:?}", other),
    }
}

#[test]
fn an_identifier_without_a_dot_is_publisher_and_package() {
    let p = up_to_tree(&[file("a.yaml", "")], "Solo", "2");
    match request(&p).body {
        RequestBody::Tree { tree, .. } => assert_eq!(tree[0].path, "manifests/s/Solo/Solo/2/a.yaml"),
        other => panic!("a tree is expected, not {:?}", other),
    }
    let p = up_to_tree(&[file("a.yaml", "")], "", "2");
    match request(&p).body {
        RequestBody::Tree { tree, .. } => assert_eq!(tree[0].path, "manifests/_///2/a.yaml"),
        other => panic!("a tree is expected, not {:?}", other),
    }
}

#[test]
fn only_the_first_dot_splits_the_identifier() {
    let p = up_to_tree(&[file("a.yaml", "")], "\u{c9}diteur.Suite.Outil", "1.0");
    match request(&p).body {
        RequestBody::Tree { tree, .. } => {
            assert_eq!(tree[0].path, "manifests/\u{e9}/\u{c9}diteur/Suite.Outil/1.0/a.yaml")
        }
        other => panic!("a tree is expected, not {:?}", other),
    }
}
