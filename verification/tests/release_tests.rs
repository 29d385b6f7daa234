use unicreate::release::{
    app_release_request, check_app_update, eligible, pick_preferred_exe_asset,
    preferred_asset_index, score, ReleaseAsset, ReleaseDescriptor,
};

fn asset(name: &str) -> ReleaseAsset {
    ReleaseAsset {
        name: name.to_string(),
        browser_download_url: format!("https://example.com/{}", name),
    }
}

fn release(tag: &str, names: &[&str]) -> ReleaseDescriptor {
    ReleaseDescriptor {
        tag_name: tag.to_string(),
        body: Some("notes".to_string()),
        html_url: "https://example.com/release".to_string(),
        published_at: Some("2024-01-01T00:00:00Z".to_string()),
        assets: names.iter().map(|n| asset(n)).collect(),
    }
}

#[test]
fn setup_for_x64_is_preferred_to_portable_and_msi() {
    let r = release("v1.0.0", &["App-portable.exe", "App-Setup-x64.exe", "App.msi"]);
    assert_eq!(preferred_asset_index(&r.assets), Some(1));
    assert_eq!(pick_preferred_exe_asset(&r).map(|a| a.name.as_str()), Some("App-Setup-x64.exe"));
}

#[test]
fn only_exe_names_are_eligible() {
    assert!(eligible("a.exe"));
    assert!(eligible("A.EXE"));
    assert!(!eligible("a.msi"));
    assert!(!eligible("a.exe.zip"));
    assert!(!eligible("exe"));
    let r = release("1", &["App.msi", "App-setup.zip"]);
    assert_eq!(preferred_asset_index(&r.assets), None);
    assert!(pick_preferred_exe_asset(&r).is_none());
    let none = release("1", &[]);
    assert_eq!(preferred_asset_index(&none.assets), None);
}

#[test]
fn of_equal_scores_the_first_is_taken() {
    let r = release("1", &["b.msi", "one.exe", "two.exe", "three-portable.exe"]);
    assert_eq!(preferred_asset_index(&r.assets), Some(1));
    let r = release("1", &["a-portable.exe", "b-setup.exe", "c-installer.exe"]);
    assert_eq!(preferred_asset_index(&r.assets), Some(1));
}

#[test]
fn scores_add_up() {
    assert_eq!(score("App.exe"), 0);
    assert_eq!(score("App-Setup.exe"), 40);
    assert_eq!(score("App-Installer.exe"), 40);
    assert_eq!(score("App-Setup-Installer.exe"), 40);
    assert_eq!(score("App-Setup-x64.exe"), 50);
    assert_eq!(score("App-amd64.exe"), 10);
    assert_eq!(score("App-win64.exe"), 10);
    assert_eq!(score("App-portable.exe"), -12);
    assert_eq!(score("App-arm64.exe"), -4);
    assert_eq!(score("App-arm.exe"), -4);
    assert_eq!(score("App-debug.exe"), -50);
    assert_eq!(score("App-symbols.exe"), -50);
    assert_eq!(score("App.pdb.exe"), -50);
    assert_eq!(score("SETUP-X64-PORTABLE-ARM64-DEBUG.exe"), 40 + 10 - 12 - 4 - 50);
}

#[test]
fn update_info_holds_the_cleaned_tag_and_the_download() {
    let r = release("v1.2.0", &["App-portable.exe", "App-Setup-x64.exe"]);
    let info = check_app_update("1.1.9", &r);
    assert_eq!(info.current_version, "1.1.9");
    assert_eq!(info.latest_version, "1.2.0");
    assert!(info.has_update);
    assert_eq!(info.release_notes.as_deref(), Some("notes"));
    assert_eq!(info.release_url, "https://example.com/release");
    assert_eq!(info.published_at.as_deref(), Some("2024-01-01T00:00:00Z"));
    assert_eq!(info.download_url.as_deref(), Some("https://example.com/App-Setup-x64.exe"));
    assert_eq!(info.download_name.as_deref(), Some("App-Setup-x64.exe"));
}

#[test]
fn no_update_for_the_same_version_and_no_download_without_an_exe() {
    let r = release("v1.2.0", &["App.msi"]);
    let info = check_app_update("1.2", &r);
    assert!(!info.has_update);
    assert_eq!(info.download_url, None);
    assert_eq!(info.download_name, None);
}

#[test]
fn the_newest_release_is_asked_for_without_a_token() {
    let req = app_release_request();
    assert_eq!(req.url, "https://api.github.com/repos/drrakendu78/UniCreate/releases/latest");
    assert_eq!(req.method, unicreate::http::Method::Get);
    let headers: Vec<(&str, &str)> =
        req.headers.iter().map(|h| (h.name.as_str(), h.value.as_str())).collect();
    assert_eq!(
        headers,
        vec![("accept", "application/vnd.github.v3+json"), ("user-agent", "UniCreate/1.0")]
    );
}
