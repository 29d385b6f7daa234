//! Releases of the application itself: which asset of a release is the
//! installer to download, and whether a release is newer than what runs.

use crate::chars::{chars_of, copy_opt, lowercase_ascii, opt_text, to_ascii_lowercase};
use crate::http::{api_headers, build_headers_optional, HttpRequest, HttpRequestView, Method,
    RequestBody, RequestBodyView};
use crate::text::{contains_text, ends_with, has_suffix, has_word};
use crate::version::{clean_version, cleaned_version, is_newer, is_newer_version};
use vstd::prelude::*;

verus! {

/// One file of a release.
#[derive(Debug, Clone)]
pub struct ReleaseAsset {
    pub name: String,
    pub browser_download_url: String,
}

impl View for ReleaseAsset {
    type V = (Seq<char>, Seq<char>);

    /// The name and the address of the asset.
    open spec fn view(&self) -> (Seq<char>, Seq<char>) {
        (self.name@, self.browser_download_url@)
    }
}

/// A release as the service describes it.
#[derive(Debug, Clone)]
pub struct ReleaseDescriptor {
    pub tag_name: String,
    pub body: Option<String>,
    pub html_url: String,
    pub published_at: Option<String>,
    pub assets: Vec<ReleaseAsset>,
}

/// The texts of a [`ReleaseDescriptor`].
pub struct ReleaseDescriptorView {
    pub tag_name: Seq<char>,
    pub body: Option<Seq<char>>,
    pub html_url: Seq<char>,
    pub published_at: Option<Seq<char>>,
    pub assets: Seq<(Seq<char>, Seq<char>)>,
}

impl View for ReleaseDescriptor {
    type V = ReleaseDescriptorView;

    open spec fn view(&self) -> ReleaseDescriptorView {
        ReleaseDescriptorView {
            tag_name: self.tag_name@,
            body: opt_text(self.body),
            html_url: self.html_url@,
            published_at: opt_text(self.published_at),
            assets: self.assets@.map_values(|a: ReleaseAsset| a@),
        }
    }
}

/// What a check for a newer release found.
#[derive(Debug, Clone)]
pub struct AppUpdateInfo {
    pub current_version: String,
    pub latest_version: String,
    pub has_update: bool,
    pub release_notes: Option<String>,
    pub release_url: String,
    pub published_at: Option<String>,
    pub download_url: Option<String>,
    pub download_name: Option<String>,
}

/// The texts of an [`AppUpdateInfo`].
pub struct AppUpdateInfoView {
    pub current_version: Seq<char>,
    pub latest_version: Seq<char>,
    pub has_update: bool,
    pub release_notes: Option<Seq<char>>,
    pub release_url: Seq<char>,
    pub published_at: Option<Seq<char>>,
    pub download_url: Option<Seq<char>>,
    pub download_name: Option<Seq<char>>,
}

impl View for AppUpdateInfo {
    type V = AppUpdateInfoView;

    open spec fn view(&self) -> AppUpdateInfoView {
        AppUpdateInfoView {
            current_version: self.current_version@,
            latest_version: self.latest_version@,
            has_update: self.has_update,
            release_notes: opt_text(self.release_notes),
            release_url: self.release_url@,
            published_at: opt_text(self.published_at),
            download_url: opt_text(self.download_url),
            download_name: opt_text(self.download_name),
        }
    }
}

/// Whether an asset can be the installer: its name ends with `.exe` in any
/// letter case.
pub open spec fn is_eligible(name: Seq<char>) -> bool {
    ends_with(lowercase_ascii(name), ".exe"@)
}

/// Points for a name that holds one of the given words.
pub open spec fn points(found: bool, value: int) -> int {
    if found {
        value
    } else {
        0
    }
}

/// The score of an asset's name, in any letter case: 40 for `setup` or
/// `installer`, 10 for `x64`, `amd64` or `win64`, minus 12 for `portable`,
/// minus 4 for `arm`, minus 50 for `debug`, `symbols` or `pdb`.
pub open spec fn asset_score(name: Seq<char>) -> int {
    let lower = lowercase_ascii(name);
    points(contains_text(lower, "setup"@) || contains_text(lower, "installer"@), 40) + points(
        contains_text(lower, "x64"@) || contains_text(lower, "amd64"@) || contains_text(
            lower,
            "win64"@,
        ),
        10,
    ) - points(contains_text(lower, "portable"@), 12) - points(
        contains_text(lower, "arm64"@) || contains_text(lower, "arm"@),
        4,
    ) - points(
        contains_text(lower, "debug"@) || contains_text(lower, "symbols"@) || contains_text(
            lower,
            "pdb"@,
        ),
        50,
    )
}

/// The asset at `i` is the one to download: it is eligible, no eligible
/// asset has a higher score, and every eligible asset before it has a lower
/// score.
pub open spec fn is_preferred(names: Seq<Seq<char>>, i: int) -> bool {
    &&& 0 <= i < names.len()
    &&& is_eligible(names[i])
    &&& forall|j: int|
        0 <= j < names.len() && is_eligible(#[trigger] names[j]) ==> asset_score(names[j])
            <= asset_score(names[i])
    &&& forall|j: int|
        0 <= j < i && is_eligible(#[trigger] names[j]) ==> asset_score(names[j]) < asset_score(
            names[i],
        )
}

/// No asset is eligible.
pub open spec fn none_eligible(names: Seq<Seq<char>>) -> bool {
    forall|j: int| 0 <= j < names.len() ==> !is_eligible(#[trigger] names[j])
}

/// The names of the assets of a release, in order.
pub open spec fn asset_names(assets: Seq<ReleaseAsset>) -> Seq<Seq<char>> {
    assets.map_values(|a: ReleaseAsset| a.name@)
}

/// At most one asset is the one to download: which one is chosen depends on
/// the names alone.
pub proof fn law_preferred_is_unique(names: Seq<Seq<char>>, i: int, j: int)
    requires
        is_preferred(names, i),
        is_preferred(names, j),
    ensures
        i == j,
{
    if i < j {
        assert(asset_score(names[i]) < asset_score(names[j]));
        assert(asset_score(names[j]) <= asset_score(names[i]));
    } else if j < i {
        assert(asset_score(names[j]) < asset_score(names[i]));
        assert(asset_score(names[i]) <= asset_score(names[j]));
    }
}

/// The index of the asset to download: the one that is preferred, if there
/// is one.
pub open spec fn preferred(names: Seq<Seq<char>>) -> Option<int> {
    if exists|i: int| is_preferred(names, i) {
        Some(choose|i: int| is_preferred(names, i))
    } else {
        None
    }
}

/// There is an asset to download exactly when some asset is eligible, and
/// then it is the first of the eligible assets with the highest score.
pub proof fn law_preferred_among_eligible(names: Seq<Seq<char>>)
    ensures
        match preferred(names) {
            Some(i) => is_preferred(names, i),
            None => none_eligible(names),
        },
    decreases names.len(),
{
    if names.len() > 0 && !(exists|i: int| is_preferred(names, i)) {
        let head = names.drop_last();
        let last = names.len() - 1;
        law_preferred_among_eligible(head);
        assert forall|j: int| 0 <= j < head.len() implies #[trigger] names[j] == head[j] by {}
        match preferred(head) {
            Some(b) => {
                if is_eligible(names[last]) && asset_score(names[last]) > asset_score(head[b]) {
                    assert(is_preferred(names, last));
                } else {
                    assert(is_preferred(names, b));
                }
            },
            None => {
                if is_eligible(names[last]) {
                    assert(is_preferred(names, last));
                }
            },
        }
    }
}

/// Whether an asset's name ends with `.exe` in any letter case.
pub fn eligible(name: &str) -> (r: bool)
    ensures
        r == is_eligible(name@),
{
    let lower = to_ascii_lowercase(&chars_of(name));
    let suffix = chars_of(".exe");
    has_suffix(&lower, &suffix)
}


/// The score of an asset's name.
pub fn score(asset_name: &str) -> (r: i32)
    ensures
        r == asset_score(asset_name@),
{
    let lower = to_ascii_lowercase(&chars_of(asset_name));
    let mut total: i32 = 0;
    if has_word(&lower, "setup") || has_word(&lower, "installer") {
        total = total + 40;
    }
    if has_word(&lower, "x64") || has_word(&lower, "amd64") || has_word(&lower, "win64") {
        total = total + 10;
    }
    if has_word(&lower, "portable") {
        total = total - 12;
    }
    if has_word(&lower, "arm64") || has_word(&lower, "arm") {
        total = total - 4;
    }
    if has_word(&lower, "debug") || has_word(&lower, "symbols") || has_word(&lower, "pdb") {
        total = total - 50;
    }
    total
}

/// The index of the asset to download, if any asset is eligible.
pub fn preferred_asset_index(assets: &Vec<ReleaseAsset>) -> (r: Option<usize>)
    ensures
        match r {
            Some(i) => preferred(asset_names(assets@)) == Some(i as int),
            None => preferred(asset_names(assets@)) is None,
        },
{
    let ghost names = asset_names(assets@);
    let mut best: Option<usize> = None;
    let mut best_score: i32 = 0;
    let mut i: usize = 0;
    while i < assets.len()
        invariant
            i <= assets.len(),
            names == asset_names(assets@),
            match best {
                Some(b) => is_preferred(names.take(i as int), b as int) && best_score
                    == asset_score(names[b as int]),
                None => none_eligible(names.take(i as int)),
            },
        decreases assets.len() - i,
    {
        let name = assets[i].name.as_str();
        proof {
            assert(names[i as int] == name@);
        }
        let ghost before = names.take(i as int);
        let ghost after = names.take(i + 1);
        proof {
            assert forall|j: int| 0 <= j < i implies #[trigger] after[j] == before[j] by {}
            assert(after[i as int] == names[i as int]);
        }
        if eligible(name) {
            let s = score(name);
            let take = match best {
                Some(_) => s > best_score,
                None => true,
            };
            if take {
                best = Some(i);
                best_score = s;
                proof {
                    assert(is_preferred(after, i as int));
                }
            } else {
                proof {
                    assert(is_preferred(after, best->0 as int));
                }
            }
        } else {
            proof {
                match best {
                    Some(b) => {
                        assert(is_preferred(after, b as int));
                    },
                    None => {
                        assert(none_eligible(after));
                    },
                }
            }
        }
        i += 1;
    }
    proof {
        assert(names.take(assets.len() as int) == names);
        match best {
            Some(b) => {
                let i = choose|i: int| is_preferred(names, i);
                law_preferred_is_unique(names, i, b as int);
            },
            None => {
                assert forall|i: int| !is_preferred(names, i) by {}
            },
        }
    }
    best
}

/// The asset of a release to download as its installer: among the assets
/// whose name ends with `.exe`, the first of those with the highest score.
pub fn pick_preferred_exe_asset(release: &ReleaseDescriptor) -> (r: Option<&ReleaseAsset>)
    ensures
        match r {
            Some(asset) => preferred(asset_names(release.assets@)) matches Some(i)
                && *asset == release.assets@[i],
            None => preferred(asset_names(release.assets@)) is None,
        },
{
    match preferred_asset_index(&release.assets) {
        Some(i) => Some(&release.assets[i]),
        None => None,
    }
}

/// The address and the name of the asset to download.
pub open spec fn download_of(assets: Seq<(Seq<char>, Seq<char>)>, i: Option<int>) -> (
    Option<Seq<char>>,
    Option<Seq<char>>,
) {
    match i {
        Some(i) => (Some(assets[i].1), Some(assets[i].0)),
        None => (None, None),
    }
}

/// What a release means for the version that runs: the release's version is
/// its cleaned tag, there is an update where that is newer than the current
/// version, and the download is the preferred asset.
pub open spec fn update_info(current: Seq<char>, release: ReleaseDescriptorView) -> AppUpdateInfoView {
    let latest = cleaned_version(release.tag_name);
    let chosen = preferred(view_names(release.assets));
    AppUpdateInfoView {
        current_version: current,
        latest_version: latest,
        has_update: is_newer(latest, current),
        release_notes: release.body,
        release_url: release.html_url,
        published_at: release.published_at,
        download_url: download_of(release.assets, chosen).0,
        download_name: download_of(release.assets, chosen).1,
    }
}

/// The names of the assets in the view of a release, in order.
pub open spec fn view_names(assets: Seq<(Seq<char>, Seq<char>)>) -> Seq<Seq<char>> {
    assets.map_values(|a: (Seq<char>, Seq<char>)| a.0)
}

/// The request for the newest release of the application.
pub open spec fn latest_release_request() -> HttpRequestView {
    HttpRequestView {
        method: Method::Get,
        url: "https://api.github.com/repos/drrakendu78/UniCreate/releases/latest"@,
        headers: api_headers(None),
        body: RequestBodyView::Empty,
    }
}

/// The request for the newest release of the application.
pub fn app_release_request() -> (r: HttpRequest)
    ensures
        r@ == latest_release_request(),
{
    HttpRequest {
        method: Method::Get,
        url: "https://api.github.com/repos/drrakendu78/UniCreate/releases/latest".to_owned(),
        headers: build_headers_optional(None),
        body: RequestBody::Empty,
    }
}


/// Compares the newest release with the version that runs.
pub fn check_app_update(current_version: &str, release: &ReleaseDescriptor) -> (r: AppUpdateInfo)
    ensures
        r@ == update_info(current_version@, release@),
{
    let latest = clean_version(release.tag_name.as_str());
    let has_update = is_newer_version(latest.as_str(), current_version);
    let picked = preferred_asset_index(&release.assets);
    let (download_url, download_name) = match picked {
        Some(i) => (
            Some(release.assets[i].browser_download_url.clone()),
            Some(release.assets[i].name.clone()),
        ),
        None => (None, None),
    };
    let info = AppUpdateInfo {
        current_version: current_version.to_owned(),
        latest_version: latest,
        has_update,
        release_notes: copy_opt(&release.body),
        release_url: release.html_url.clone(),
        published_at: copy_opt(&release.published_at),
        download_url,
        download_name,
    };
    proof {
        assert(view_names(release@.assets) == asset_names(release.assets@));
        assert(info@ == update_info(current_version@, release@));
    }
    info
}

} // verus!
