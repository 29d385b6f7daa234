//! Looking up the newest manifest of a package in the manifest repository,
//! to fill in a new version from it.
//!
//! Three requests follow one another: the versions of the package, the files
//! of the newest version, and the locale file among them. The lookup is a
//! state machine: [`fetch_existing_manifest`] returns it with the first
//! action, and [`ManifestLookup::advance`] takes in what came of an action
//! and returns the next one.

use crate::chars::{
    char_is_whitespace, chars_of, copy_opt, copy_texts, is_text, is_whitespace, opt_text, push_str,
    string_of, texts,
};
use crate::codec::{base64_decode, base64_decoded, string_from_utf8, utf8_error_text};
use crate::http::{api_headers, build_headers_optional, HttpRequest, HttpRequestView, Method,
    RequestBody, RequestBodyView};
use crate::package_id::{identifier_parts, package_dir, push_package_dir, split_identifier};
use crate::text::{contains_text, has_text};
use crate::yaml_reader::{field_of, parse_yaml_field, parse_yaml_tags, tags_of};
use vstd::prelude::*;
use vstd::utf8::{decode_utf8, valid_utf8};

verus! {

/// One entry of a directory listing of the repository.
#[derive(Debug, Clone)]
pub struct ContentItem {
    pub name: String,
    pub item_type: String,
}

/// The texts of a [`ContentItem`].
pub struct ContentItemView {
    pub name: Seq<char>,
    pub item_type: Seq<char>,
}

impl View for ContentItem {
    type V = ContentItemView;

    open spec fn view(&self) -> ContentItemView {
        ContentItemView { name: self.name@, item_type: self.item_type@ }
    }
}

/// The views of a listing, in order.
pub open spec fn item_views(v: Seq<ContentItem>) -> Seq<ContentItemView> {
    v.map_values(|i: ContentItem| i@)
}

/// What the newest manifest of a package says about it.
#[derive(Debug, Clone)]
pub struct ExistingManifest {
    pub package_identifier: String,
    pub latest_version: String,
    pub publisher: String,
    pub package_name: String,
    pub license: String,
    pub short_description: String,
    pub description: Option<String>,
    pub publisher_url: Option<String>,
    pub package_url: Option<String>,
    pub license_url: Option<String>,
    pub privacy_url: Option<String>,
    pub author: Option<String>,
    pub moniker: Option<String>,
    pub tags: Vec<String>,
    pub release_notes_url: Option<String>,
    pub package_locale: String,
}

/// The texts of an [`ExistingManifest`].
pub struct ExistingManifestView {
    pub package_identifier: Seq<char>,
    pub latest_version: Seq<char>,
    pub publisher: Seq<char>,
    pub package_name: Seq<char>,
    pub license: Seq<char>,
    pub short_description: Seq<char>,
    pub description: Option<Seq<char>>,
    pub publisher_url: Option<Seq<char>>,
    pub package_url: Option<Seq<char>>,
    pub license_url: Option<Seq<char>>,
    pub privacy_url: Option<Seq<char>>,
    pub author: Option<Seq<char>>,
    pub moniker: Option<Seq<char>>,
    pub tags: Seq<Seq<char>>,
    pub release_notes_url: Option<Seq<char>>,
    pub package_locale: Seq<char>,
}

impl View for ExistingManifest {
    type V = ExistingManifestView;

    open spec fn view(&self) -> ExistingManifestView {
        ExistingManifestView {
            package_identifier: self.package_identifier@,
            latest_version: self.latest_version@,
            publisher: self.publisher@,
            package_name: self.package_name@,
            license: self.license@,
            short_description: self.short_description@,
            description: opt_text(self.description),
            publisher_url: opt_text(self.publisher_url),
            package_url: opt_text(self.package_url),
            license_url: opt_text(self.license_url),
            privacy_url: opt_text(self.privacy_url),
            author: opt_text(self.author),
            moniker: opt_text(self.moniker),
            tags: texts(self.tags@),
            release_notes_url: opt_text(self.release_notes_url),
            package_locale: self.package_locale@,
        }
    }
}

/// What can go wrong in a lookup.
#[derive(Debug, Clone, Copy, PartialEq, Eq, Structural)]
pub enum LookupErrorKind {
    /// The identifier has no dot.
    InvalidIdentifier,
    /// A request could not be sent or answered.
    Transport,
    /// The listing of the package's versions could not be read.
    NotFound,
    /// The package has no version.
    NoVersions,
    /// An answer could not be read.
    Parse,
    /// The newest version has no locale file.
    NoLocaleFile,
    /// The locale file has no content.
    EmptyFile,
    /// The content is not Base64.
    Base64,
    /// The content is not UTF-8.
    Utf8,
}

/// Why a lookup failed: the kind of failure and, for most kinds, a detail.
#[derive(Debug, Clone)]
pub struct LookupError {
    pub kind: LookupErrorKind,
    pub detail: String,
}

impl View for LookupError {
    type V = (LookupErrorKind, Seq<char>);

    open spec fn view(&self) -> (LookupErrorKind, Seq<char>) {
        (self.kind, self.detail@)
    }
}

/// The message of an error.
pub open spec fn lookup_message(e: (LookupErrorKind, Seq<char>)) -> Seq<char> {
    match e.0 {
        LookupErrorKind::InvalidIdentifier =>
            "Invalid package identifier format (expected Publisher.Package)"@,
        LookupErrorKind::Transport => "Request failed: "@ + e.1,
        LookupErrorKind::NotFound => "Package '"@ + e.1 + "' not found in winget-pkgs"@,
        LookupErrorKind::NoVersions => "No versions found"@,
        LookupErrorKind::Parse => "Parse error: "@ + e.1,
        LookupErrorKind::NoLocaleFile => "No locale file found"@,
        LookupErrorKind::EmptyFile => "Empty file"@,
        LookupErrorKind::Base64 => "Base64 decode error: "@ + e.1,
        LookupErrorKind::Utf8 => "UTF-8 error: "@ + e.1,
    }
}

impl LookupError {
    /// The message of the error.
    pub fn message(&self) -> (r: String)
        ensures
            r@ == lookup_message(self@),
    {
        let (head, tail) = match self.kind {
            LookupErrorKind::InvalidIdentifier => {
                return "Invalid package identifier format (expected Publisher.Package)".to_owned();
            },
            LookupErrorKind::NoVersions => {
                return "No versions found".to_owned();
            },
            LookupErrorKind::NoLocaleFile => {
                return "No locale file found".to_owned();
            },
            LookupErrorKind::EmptyFile => {
                return "Empty file".to_owned();
            },
            LookupErrorKind::Transport => ("Request failed: ", ""),
            LookupErrorKind::NotFound => ("Package '", "' not found in winget-pkgs"),
            LookupErrorKind::Parse => ("Parse error: ", ""),
            LookupErrorKind::Base64 => ("Base64 decode error: ", ""),
            LookupErrorKind::Utf8 => ("UTF-8 error: ", ""),
        };
        let mut out = chars_of(head);
        push_str(&mut out, self.detail.as_str());
        push_str(&mut out, tail);
        proof {
            reveal_strlit("");
            assert(out@ == lookup_message(self@));
        }
        string_of(&out)
    }
}

/// `a` comes before `b`, or is `b`, in the order of strings: character by
/// character, by code point, a prefix first.
pub open spec fn text_le(a: Seq<char>, b: Seq<char>) -> bool
    decreases a.len(),
{
    if a.len() == 0 {
        true
    } else if b.len() == 0 {
        false
    } else if a[0] != b[0] {
        a[0] < b[0]
    } else {
        text_le(a.drop_first(), b.drop_first())
    }
}

/// The greatest name among the directories of a listing, if there is a
/// directory.
pub open spec fn latest_dir(items: Seq<ContentItemView>) -> Option<Seq<char>>
    decreases items.len(),
{
    if items.len() == 0 {
        None
    } else {
        let before = latest_dir(items.drop_last());
        let item = items.last();
        if item.item_type == "dir"@ {
            match before {
                Some(best) => if text_le(item.name, best) {
                    before
                } else {
                    Some(item.name)
                },
                None => Some(item.name),
            }
        } else {
            before
        }
    }
}

/// The name of the first entry of a listing that holds `.locale.`.
pub open spec fn locale_file(items: Seq<ContentItemView>) -> Option<Seq<char>>
    decreases items.len(),
{
    if items.len() == 0 {
        None
    } else if contains_text(items[0].name, ".locale."@) {
        Some(items[0].name)
    } else {
        locale_file(items.drop_first())
    }
}

/// A text without its white space.
pub open spec fn without_whitespace(s: Seq<char>) -> Seq<char>
    decreases s.len(),
{
    if s.len() == 0 {
        Seq::empty()
    } else if is_whitespace(s.last()) {
        without_whitespace(s.drop_last())
    } else {
        without_whitespace(s.drop_last()).push(s.last())
    }
}

/// The text of a file from its content as the repository returns it: Base64
/// with line feeds in between, of UTF-8.
pub open spec fn decoded_content(content: Seq<char>) -> Result<Seq<char>, (LookupErrorKind, Seq<char>)> {
    match base64_decoded(without_whitespace(content)) {
        Ok(bytes) => if valid_utf8(bytes) {
            Ok(decode_utf8(bytes))
        } else {
            Err((LookupErrorKind::Utf8, utf8_error_text(bytes)))
        },
        Err(message) => Err((LookupErrorKind::Base64, message)),
    }
}

/// The value of a field, or the empty text where the file gives none.
pub open spec fn field_or_empty(yaml: Seq<char>, field: Seq<char>) -> Seq<char> {
    match field_of(yaml, field) {
        Some(v) => v,
        None => Seq::empty(),
    }
}

/// What the text of a locale file says about the package. A locale that the
/// file does not name is taken to be `en-US`.
pub open spec fn manifest_from(
    package_id: Seq<char>,
    latest_version: Seq<char>,
    yaml: Seq<char>,
) -> ExistingManifestView {
    ExistingManifestView {
        package_identifier: package_id,
        latest_version,
        publisher: field_or_empty(yaml, "Publisher"@),
        package_name: field_or_empty(yaml, "PackageName"@),
        license: field_or_empty(yaml, "License"@),
        short_description: field_or_empty(yaml, "ShortDescription"@),
        description: field_of(yaml, "Description"@),
        publisher_url: field_of(yaml, "PublisherUrl"@),
        package_url: field_of(yaml, "PackageUrl"@),
        license_url: field_of(yaml, "LicenseUrl"@),
        privacy_url: field_of(yaml, "PrivacyUrl"@),
        author: field_of(yaml, "Author"@),
        moniker: field_of(yaml, "Moniker"@),
        tags: tags_of(yaml),
        release_notes_url: field_of(yaml, "ReleaseNotesUrl"@),
        package_locale: match field_of(yaml, "PackageLocale"@) {
            Some(v) => v,
            None => "en-US"@,
        },
    }
}

/// The address of the directory of a package in the repository, if the
/// identifier has a dot.
pub open spec fn package_url(package_id: Seq<char>) -> Option<Seq<char>> {
    match identifier_parts(package_id) {
        Some((publisher, package)) => Some(
            "https://api.github.com/repos/microsoft/winget-pkgs/contents/"@ + package_dir(
                publisher,
                publisher,
                package,
            ),
        ),
        None => None,
    }
}

/// `text_le` holds between a text and itself.
pub proof fn lemma_text_le_reflexive(a: Seq<char>)
    ensures
        text_le(a, a),
    decreases a.len(),
{
    if a.len() > 0 {
        lemma_text_le_reflexive(a.drop_first());
    }
}

/// Of two texts, one comes before the other or is the other.
pub proof fn lemma_text_le_total(a: Seq<char>, b: Seq<char>)
    ensures
        text_le(a, b) || text_le(b, a),
    decreases a.len(),
{
    if a.len() > 0 && b.len() > 0 && a[0] == b[0] {
        lemma_text_le_total(a.drop_first(), b.drop_first());
    }
}

/// `text_le` is transitive.
pub proof fn lemma_text_le_transitive(a: Seq<char>, b: Seq<char>, c: Seq<char>)
    requires
        text_le(a, b),
        text_le(b, c),
    ensures
        text_le(a, c),
    decreases a.len(),
{
    if a.len() > 0 && b.len() > 0 && c.len() > 0 && a[0] == b[0] && b[0] == c[0] {
        lemma_text_le_transitive(a.drop_first(), b.drop_first(), c.drop_first());
    }
}

/// The newest version is the name of a directory of the listing, and the
/// name of no directory comes after it. There is one exactly when the
/// listing has a directory.
pub proof fn law_latest_is_greatest(items: Seq<ContentItemView>)
    ensures
        match latest_dir(items) {
            Some(best) => {
                &&& exists|i: int|
                    0 <= i < items.len() && items[i].item_type == "dir"@ && items[i].name == best
                &&& forall|i: int|
                    0 <= i < items.len() && items[i].item_type == "dir"@ ==> text_le(
                        #[trigger] items[i].name,
                        best,
                    )
            },
            None => forall|i: int| 0 <= i < items.len() ==> (#[trigger] items[i]).item_type != "dir"@,
        },
    decreases items.len(),
{
    if items.len() > 0 {
        let head = items.drop_last();
        let item = items.last();
        law_latest_is_greatest(head);
        match latest_dir(items) {
            Some(best) => {
                if item.item_type == "dir"@ && latest_dir(items) == Some(item.name) {
                    assert(items[items.len() - 1].name == best);
                } else {
                    let i = choose|i: int|
                        0 <= i < head.len() && head[i].item_type == "dir"@ && head[i].name == best;
                    assert(items[i] == head[i]);
                }
                assert forall|i: int|
                    0 <= i < items.len() && items[i].item_type == "dir"@ implies text_le(
                    #[trigger] items[i].name,
                    best,
                ) by {
                    if i < head.len() {
                        assert(items[i] == head[i]);
                        let old_best = latest_dir(head)->0;
                        if old_best != best {
                            lemma_text_le_total(item.name, old_best);
                            lemma_text_le_transitive(items[i].name, old_best, best);
                        }
                    } else {
                        if best == item.name {
                            lemma_text_le_reflexive(best);
                        }
                    }
                }
            },
            None => {
                assert forall|i: int| 0 <= i < items.len() implies (#[trigger] items[i]).item_type
                    != "dir"@ by {
                    if i < head.len() {
                        assert(items[i] == head[i]);
                    }
                }
            },
        }
    }
}

fn text_less_or_equal(a: &Vec<char>, b: &Vec<char>) -> (r: bool)
    ensures
        r == text_le(a@, b@),
{
    let mut i: usize = 0;
    proof {
        assert(a@.skip(0) == a@);
        assert(b@.skip(0) == b@);
    }
    while i < a.len() && i < b.len()
        invariant
            i <= a.len(),
            i <= b.len(),
            text_le(a@, b@) == text_le(a@.skip(i as int), b@.skip(i as int)),
        decreases a.len() - i,
    {
        proof {
            assert(a@.skip(i as int).drop_first() == a@.skip(i + 1));
            assert(b@.skip(i as int).drop_first() == b@.skip(i + 1));
        }
        if a[i] != b[i] {
            return a[i] < b[i];
        }
        i += 1;
    }
    i == a.len()
}

/// The greatest name among the directories of a listing.
pub fn latest_version(items: &Vec<ContentItem>) -> (r: Option<String>)
    ensures
        opt_text(r) == latest_dir(item_views(items@)),
{
    let mut best: Option<Vec<char>> = None;
    let mut i: usize = 0;
    let ghost all = item_views(items@);
    while i < items.len()
        invariant
            i <= items.len(),
            all == item_views(items@),
            match best {
                Some(b) => latest_dir(all.take(i as int)) == Some(b@),
                None => latest_dir(all.take(i as int)) is None,
            },
        decreases items.len() - i,
    {
        proof {
            assert(all.take(i + 1).drop_last() == all.take(i as int));
            assert(all.take(i + 1).last() == items@[i as int]@);
        }
        let kind = chars_of(items[i].item_type.as_str());
        if is_text(&kind, "dir") {
            let name = chars_of(items[i].name.as_str());
            let keep = match &best {
                Some(b) => text_less_or_equal(&name, b),
                None => false,
            };
            if !keep {
                best = Some(name);
            }
        }
        i += 1;
    }
    proof {
        assert(all.take(items.len() as int) == all);
    }
    match best {
        Some(b) => Some(string_of(&b)),
        None => None,
    }
}

/// The name of the first entry of a listing that holds `.locale.`.
pub fn find_locale_file(items: &Vec<ContentItem>) -> (r: Option<String>)
    ensures
        opt_text(r) == locale_file(item_views(items@)),
{
    let pattern = chars_of(".locale.");
    let ghost all = item_views(items@);
    let mut i: usize = 0;
    proof {
        assert(all.skip(0) == all);
    }
    while i < items.len()
        invariant
            i <= items.len(),
            all == item_views(items@),
            pattern@ == ".locale."@,
            locale_file(all) == locale_file(all.skip(i as int)),
        decreases items.len() - i,
    {
        proof {
            assert(all.skip(i as int)[0] == items@[i as int]@);
            assert(all.skip(i as int).drop_first() == all.skip(i + 1));
        }
        let name = chars_of(items[i].name.as_str());
        if has_text(&name, &pattern) {
            return Some(items[i].name.clone());
        }
        i += 1;
    }
    None
}

fn strip_whitespace(v: &Vec<char>) -> (r: Vec<char>)
    ensures
        r@ == without_whitespace(v@),
{
    let mut out: Vec<char> = Vec::new();
    let mut i: usize = 0;
    while i < v.len()
        invariant
            i <= v.len(),
            out@ == without_whitespace(v@.take(i as int)),
        decreases v.len() - i,
    {
        proof {
            assert(v@.take(i + 1).drop_last() == v@.take(i as int));
        }
        if !char_is_whitespace(v[i]) {
            out.push(v[i]);
        }
        i += 1;
    }
    proof {
        assert(v@.take(v.len() as int) == v@);
    }
    out
}

/// The text of a file from its content as the repository returns it.
pub fn decode_content(content: &str) -> (r: Result<String, LookupError>)
    ensures
        match r {
            Ok(text) => decoded_content(content@) == Ok::<Seq<char>, (LookupErrorKind, Seq<char>)>(
                text@,
            ),
            Err(e) => decoded_content(content@) == Err::<Seq<char>, (LookupErrorKind, Seq<char>)>(
                e@,
            ),
        },
{
    let cv = chars_of(content);
    let clean = strip_whitespace(&cv);
    let clean_text = string_of(&clean);
    match base64_decode(clean_text.as_str()) {
        Ok(bytes) => match string_from_utf8(bytes) {
            Ok(text) => Ok(text),
            Err(message) => Err(LookupError { kind: LookupErrorKind::Utf8, detail: message }),
        },
        Err(message) => Err(LookupError { kind: LookupErrorKind::Base64, detail: message }),
    }
}

fn field_or_default(yaml: &str, field: &str, default: &str) -> (r: String)
    ensures
        r@ == match field_of(yaml@, field@) {
            Some(v) => v,
            None => default@,
        },
{
    match parse_yaml_field(yaml, field) {
        Some(v) => v,
        None => default.to_owned(),
    }
}

/// What the text of a locale file says about the package.
pub fn existing_manifest_from_yaml(package_id: &str, latest_version: &str, yaml: &str) -> (r:
    ExistingManifest)
    ensures
        r@ == manifest_from(package_id@, latest_version@, yaml@),
{
    proof {
        reveal_strlit("");
        assert(""@ == Seq::<char>::empty());
    }
    ExistingManifest {
        package_identifier: package_id.to_owned(),
        latest_version: latest_version.to_owned(),
        publisher: field_or_default(yaml, "Publisher", ""),
        package_name: field_or_default(yaml, "PackageName", ""),
        license: field_or_default(yaml, "License", ""),
        short_description: field_or_default(yaml, "ShortDescription", ""),
        description: parse_yaml_field(yaml, "Description"),
        publisher_url: parse_yaml_field(yaml, "PublisherUrl"),
        package_url: parse_yaml_field(yaml, "PackageUrl"),
        license_url: parse_yaml_field(yaml, "LicenseUrl"),
        privacy_url: parse_yaml_field(yaml, "PrivacyUrl"),
        author: parse_yaml_field(yaml, "Author"),
        moniker: parse_yaml_field(yaml, "Moniker"),
        tags: parse_yaml_tags(yaml),
        release_notes_url: parse_yaml_field(yaml, "ReleaseNotesUrl"),
        package_locale: field_or_default(yaml, "PackageLocale", "en-US"),
    }
}

/// The address of the directory of a package in the repository.
pub fn package_address(package_id: &str) -> (r: Option<String>)
    ensures
        opt_text(r) == package_url(package_id@),
{
    let idv = chars_of(package_id);
    match split_identifier(&idv) {
        Some((publisher, package)) => {
            let mut out = chars_of("https://api.github.com/repos/microsoft/winget-pkgs/contents/");
            push_package_dir(&mut out, &publisher, &publisher, &package);
            Some(string_of(&out))
        },
        None => None,
    }
}

/// The steps of a lookup and its two final states.
#[derive(Debug, Clone, Copy, PartialEq, Eq, Structural)]
pub enum LookupStep {
    /// List the versions of the package.
    ListVersions,
    /// List the files of the newest version.
    ListFiles,
    /// Read the locale file.
    ReadFile,
    /// The manifest is there.
    Done,
    /// The lookup has failed.
    Failed,
}

/// What the caller reports after it has sent a request.
#[derive(Debug, Clone)]
pub enum LookupEvent {
    /// The request could not be sent, or no answer came.
    TransportFailed { detail: String },
    /// The answer could not be read.
    ParseFailed { detail: String },
    /// The entries of a directory.
    Listed { items: Vec<ContentItem> },
    /// The content of a file, if the answer holds one.
    FileRead { content: Option<String> },
}

/// What the caller has to do next.
#[derive(Debug, Clone)]
pub enum LookupAction {
    /// Send the request and report the answer.
    Send(HttpRequest),
    /// The lookup is done: this is the manifest.
    Finish(ExistingManifest),
    /// The lookup has failed.
    Fail(LookupError),
}

/// The texts of a [`LookupAction`].
pub enum LookupActionView {
    Send(HttpRequestView),
    Finish(ExistingManifestView),
    Fail((LookupErrorKind, Seq<char>)),
}

impl View for LookupAction {
    type V = LookupActionView;

    open spec fn view(&self) -> LookupActionView {
        match self {
            LookupAction::Send(r) => LookupActionView::Send(r@),
            LookupAction::Finish(m) => LookupActionView::Finish(m@),
            LookupAction::Fail(e) => LookupActionView::Fail(e@),
        }
    }
}

/// The state of one lookup.
#[derive(Debug)]
pub struct ManifestLookup {
    package_id: String,
    step: LookupStep,
    latest_version: String,
    locale_name: String,
    found: Option<ExistingManifest>,
    failure: Option<LookupError>,
}

/// The texts of a [`ManifestLookup`].
pub struct ManifestLookupView {
    pub package_id: Seq<char>,
    pub step: LookupStep,
    pub latest_version: Seq<char>,
    pub locale_name: Seq<char>,
    pub found: Option<ExistingManifestView>,
    pub failure: Option<(LookupErrorKind, Seq<char>)>,
}

impl View for ManifestLookup {
    type V = ManifestLookupView;

    closed spec fn view(&self) -> ManifestLookupView {
        ManifestLookupView {
            package_id: self.package_id@,
            step: self.step,
            latest_version: self.latest_version@,
            locale_name: self.locale_name@,
            found: match self.found {
                Some(m) => Some(m@),
                None => None,
            },
            failure: match self.failure {
                Some(e) => Some(e@),
                None => None,
            },
        }
    }
}

/// A step that sends a request.
pub open spec fn lookup_sends(step: LookupStep) -> bool {
    step != LookupStep::Done && step != LookupStep::Failed
}

/// A state whose step has what it needs.
pub open spec fn lookup_well_formed(s: ManifestLookupView) -> bool {
    &&& s.step == LookupStep::Done <==> s.found is Some
    &&& s.step == LookupStep::Failed <==> s.failure is Some
    &&& lookup_sends(s.step) ==> package_url(s.package_id) is Some
}

/// The address that a step asks for.
pub open spec fn lookup_url(s: ManifestLookupView) -> Seq<char> {
    let dir = package_url(s.package_id)->0;
    match s.step {
        LookupStep::ListVersions => dir,
        LookupStep::ListFiles => dir + "/"@ + s.latest_version,
        _ => dir + "/"@ + s.latest_version + "/"@ + s.locale_name,
    }
}

/// What the caller has to do in a state.
pub open spec fn lookup_action(s: ManifestLookupView) -> LookupActionView {
    match s.step {
        LookupStep::Done => LookupActionView::Finish(s.found->0),
        LookupStep::Failed => LookupActionView::Fail(s.failure->0),
        _ => LookupActionView::Send(
            HttpRequestView {
                method: Method::Get,
                url: lookup_url(s),
                headers: api_headers(None),
                body: RequestBodyView::Empty,
            },
        ),
    }
}

/// The state after a failure.
pub open spec fn lookup_failed(s: ManifestLookupView, kind: LookupErrorKind, detail: Seq<char>) -> ManifestLookupView {
    ManifestLookupView { step: LookupStep::Failed, failure: Some((kind, detail)), ..s }
}

/// The state after an event. An event that does not answer the action of the
/// state leaves the state as it is.
pub open spec fn lookup_next(s: ManifestLookupView, e: LookupEvent) -> ManifestLookupView {
    match e {
        LookupEvent::TransportFailed { detail } => if lookup_sends(s.step) {
            lookup_failed(s, LookupErrorKind::Transport, detail@)
        } else {
            s
        },
        LookupEvent::ParseFailed { detail } => if s.step == LookupStep::ListVersions {
            lookup_failed(s, LookupErrorKind::NotFound, s.package_id)
        } else if lookup_sends(s.step) {
            lookup_failed(s, LookupErrorKind::Parse, detail@)
        } else {
            s
        },
        LookupEvent::Listed { items } => if s.step == LookupStep::ListVersions {
            match latest_dir(item_views(items@)) {
                Some(v) => ManifestLookupView { step: LookupStep::ListFiles, latest_version: v, ..s },
                None => lookup_failed(s, LookupErrorKind::NoVersions, Seq::empty()),
            }
        } else if s.step == LookupStep::ListFiles {
            match locale_file(item_views(items@)) {
                Some(n) => ManifestLookupView { step: LookupStep::ReadFile, locale_name: n, ..s },
                None => lookup_failed(s, LookupErrorKind::NoLocaleFile, Seq::empty()),
            }
        } else {
            s
        },
        LookupEvent::FileRead { content } => if s.step == LookupStep::ReadFile {
            match content {
                Some(c) => match decoded_content(c@) {
                    Ok(yaml) => ManifestLookupView {
                        step: LookupStep::Done,
                        found: Some(manifest_from(s.package_id, s.latest_version, yaml)),
                        ..s
                    },
                    Err(e) => lookup_failed(s, e.0, e.1),
                },
                None => lookup_failed(s, LookupErrorKind::EmptyFile, Seq::empty()),
            }
        } else {
            s
        },
    }
}

/// The state in which a lookup starts: at its first step, or failed at once
/// where the identifier has no dot.
pub open spec fn lookup_start(package_id: Seq<char>) -> ManifestLookupView {
    let valid = identifier_parts(package_id) is Some;
    ManifestLookupView {
        package_id,
        step: if valid {
            LookupStep::ListVersions
        } else {
            LookupStep::Failed
        },
        latest_version: Seq::empty(),
        locale_name: Seq::empty(),
        found: None,
        failure: if valid {
            None
        } else {
            Some((LookupErrorKind::InvalidIdentifier, Seq::empty()))
        },
    }
}

/// A lookup that is done or has failed stays as it is, and a lookup never
/// returns to an earlier step.
pub proof fn law_lookup_runs_forward(s: ManifestLookupView, e: LookupEvent)
    requires
        lookup_well_formed(s),
    ensures
        lookup_well_formed(lookup_next(s, e)),
        !lookup_sends(s.step) ==> lookup_next(s, e) == s,
        lookup_next(s, e).package_id == s.package_id,
        s.step == LookupStep::ListFiles ==> lookup_next(s, e).step != LookupStep::ListVersions,
        s.step == LookupStep::ReadFile ==> lookup_next(s, e).step != LookupStep::ListVersions
            && lookup_next(s, e).step != LookupStep::ListFiles,
{
}

fn copy_manifest(m: &ExistingManifest) -> (r: ExistingManifest)
    ensures
        r@ == m@,
{
    ExistingManifest {
        package_identifier: m.package_identifier.clone(),
        latest_version: m.latest_version.clone(),
        publisher: m.publisher.clone(),
        package_name: m.package_name.clone(),
        license: m.license.clone(),
        short_description: m.short_description.clone(),
        description: copy_opt(&m.description),
        publisher_url: copy_opt(&m.publisher_url),
        package_url: copy_opt(&m.package_url),
        license_url: copy_opt(&m.license_url),
        privacy_url: copy_opt(&m.privacy_url),
        author: copy_opt(&m.author),
        moniker: copy_opt(&m.moniker),
        tags: copy_texts(m.tags.as_slice()),
        release_notes_url: copy_opt(&m.release_notes_url),
        package_locale: m.package_locale.clone(),
    }
}


/// Starts the lookup of the newest manifest of a package.
pub fn fetch_existing_manifest(package_id: &str) -> (r: ManifestLookup)
    ensures
        r.wf(),
        r@ == lookup_start(package_id@),
{
    let idv = chars_of(package_id);
    let valid = split_identifier(&idv).is_some();
    ManifestLookup {
        package_id: package_id.to_owned(),
        step: if valid {
            LookupStep::ListVersions
        } else {
            LookupStep::Failed
        },
        latest_version: String::new(),
        locale_name: String::new(),
        found: None,
        failure: if valid {
            None
        } else {
            Some(LookupError { kind: LookupErrorKind::InvalidIdentifier, detail: String::new() })
        },
    }
}

impl ManifestLookup {
    /// Whether the step that is due has what it needs.
    pub open spec fn wf(&self) -> bool {
        lookup_well_formed(self@)
    }

    fn fail(&mut self, kind: LookupErrorKind, detail: String)
        ensures
            final(self)@ == lookup_failed(old(self)@, kind, detail@),
    {
        self.failure = Some(LookupError { kind, detail });
        self.step = LookupStep::Failed;
    }

    fn sends_request(&self) -> (r: bool)
        ensures
            r == lookup_sends(self@.step),
    {
        match self.step {
            LookupStep::Done | LookupStep::Failed => false,
            _ => true,
        }
    }

    fn url(&self) -> (r: String)
        requires
            self.wf(),
            lookup_sends(self@.step),
        ensures
            r@ == lookup_url(self@),
    {
        let mut out: Vec<char> = match package_address(self.package_id.as_str()) {
            Some(dir) => chars_of(dir.as_str()),
            None => vstd::pervasive::unreached(),
        };
        match self.step {
            LookupStep::ListVersions => {},
            LookupStep::ListFiles => {
                push_str(&mut out, "/");
                push_str(&mut out, self.latest_version.as_str());
            },
            _ => {
                push_str(&mut out, "/");
                push_str(&mut out, self.latest_version.as_str());
                push_str(&mut out, "/");
                push_str(&mut out, self.locale_name.as_str());
            },
        }
        string_of(&out)
    }

    /// The step that is due.
    pub fn step(&self) -> (r: LookupStep)
        ensures
            r == self@.step,
    {
        self.step
    }

    /// What the caller has to do next.
    pub fn action(&self) -> (r: LookupAction)
        requires
            self.wf(),
        ensures
            r@ == lookup_action(self@),
    {
        match self.step {
            LookupStep::Done => match &self.found {
                Some(m) => LookupAction::Finish(copy_manifest(m)),
                None => vstd::pervasive::unreached(),
            },
            LookupStep::Failed => match &self.failure {
                Some(e) => LookupAction::Fail(LookupError { kind: e.kind, detail: e.detail.clone() }),
                None => vstd::pervasive::unreached(),
            },
            _ => LookupAction::Send(
                HttpRequest {
                    method: Method::Get,
                    url: self.url(),
                    headers: build_headers_optional(None),
                    body: RequestBody::Empty,
                },
            ),
        }
    }

    /// Takes in what came of the last request. An event that does not answer
    /// that request changes nothing.
    pub fn advance(&mut self, event: LookupEvent)
        requires
            old(self).wf(),
        ensures
            final(self).wf(),
            final(self)@ == lookup_next(old(self)@, event),
    {
        proof {
            law_lookup_runs_forward(self@, event);
        }
        match event {
            LookupEvent::TransportFailed { detail } => {
                if self.sends_request() {
                    self.fail(LookupErrorKind::Transport, detail);
                }
            },
            LookupEvent::ParseFailed { detail } => {
                if self.step == LookupStep::ListVersions {
                    let id = self.package_id.clone();
                    self.fail(LookupErrorKind::NotFound, id);
                } else if self.sends_request() {
                    self.fail(LookupErrorKind::Parse, detail);
                }
            },
            LookupEvent::Listed { items } => {
                if self.step == LookupStep::ListVersions {
                    match latest_version(&items) {
                        Some(v) => {
                            self.latest_version = v;
                            self.step = LookupStep::ListFiles;
                        },
                        None => {
                            self.fail(LookupErrorKind::NoVersions, String::new());
                        },
                    }
                } else if self.step == LookupStep::ListFiles {
                    match find_locale_file(&items) {
                        Some(n) => {
                            self.locale_name = n;
                            self.step = LookupStep::ReadFile;
                        },
                        None => {
                            self.fail(LookupErrorKind::NoLocaleFile, String::new());
                        },
                    }
                }
            },
            LookupEvent::FileRead { content } => {
                if self.step == LookupStep::ReadFile {
                    match content {
                        Some(c) => match decode_content(c.as_str()) {
                            Ok(yaml) => {
                                let m = existing_manifest_from_yaml(
                                    self.package_id.as_str(),
                                    self.latest_version.as_str(),
                                    yaml.as_str(),
                                );
                                self.found = Some(m);
                                self.step = LookupStep::Done;
                            },
                            Err(e) => {
                                self.fail(e.kind, e.detail);
                            },
                        },
                        None => {
                            self.fail(LookupErrorKind::EmptyFile, String::new());
                        },
                    }
                }
            },
        }
    }
}

/// The request that asks whether a package is in the repository, if the
/// identifier has a dot; without one the package is taken not to be there.
pub open spec fn exists_request(package_id: Seq<char>) -> Option<HttpRequestView> {
    match package_url(package_id) {
        Some(url) => Some(
            HttpRequestView {
                method: Method::Get,
                url,
                headers: api_headers(None),
                body: RequestBodyView::Empty,
            },
        ),
        None => None,
    }
}

/// The request that asks whether a package is in the repository. The
/// package is there where the answer's status reports success.
pub fn check_package_exists(package_id: &str) -> (r: Option<HttpRequest>)
    ensures
        match r {
            Some(request) => exists_request(package_id@) == Some(request@),
            None => exists_request(package_id@) is None,
        },
{
    match package_address(package_id) {
        Some(url) => Some(
            HttpRequest {
                method: Method::Get,
                url,
                headers: build_headers_optional(None),
                body: RequestBody::Empty,
            },
        ),
        None => None,
    }
}

} // verus!
