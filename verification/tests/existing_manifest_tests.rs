use unicreate::existing_manifest::{
    check_package_exists, decode_content, existing_manifest_from_yaml, fetch_existing_manifest,
    find_locale_file, latest_version, package_address, ContentItem, ExistingManifest, LookupAction,
    LookupError, LookupErrorKind, LookupEvent, ManifestLookup,
};
use unicreate::http::Method;
use unicreate::yaml_reader::{parse_yaml_field, parse_yaml_tags};

fn item(name: &str, kind: &str) -> ContentItem {
    ContentItem { name: name.to_string(), item_type: kind.to_string() }
}

fn url(l: &ManifestLookup) -> String {
    match l.action() {
        LookupAction::Send(r) => {
            assert_eq!(r.method, Method::Get);
            assert_eq!(r.headers.len(), 2);
            r.url
        }
        other => panic!("a request is expected, not {:?}", other),
    }
}

fn failure(l: &ManifestLookup) -> LookupError {
    match l.action() {
        LookupAction::Fail(e) => e,
        other => panic!("a failure is expected, not {:?}", other),
    }
}

fn found(l: &ManifestLookup) -> ExistingManifest {
    match l.action() {
        LookupAction::Finish(m) => m,
        other => panic!("a manifest is expected, not {:?}", other),
    }
}

const YAML: &str = "# comment\nPackageIdentifier: Drrakendu78.StarTradFR\nPackageLocale: fr-FR\nPublisher: \"Drrakendu78\"\nPackageName: 'StarTrad FR'\nLicense: MIT\nShortDescription:   Traduction  \nDescription:\nDescription: second\nPublisherUrl: https://example.com\nTags:\n  - \"jeu\"\n  - ''\n  - traduction\nMoniker: startrad\n- not a tag\n";

// `YAML` in Base64, with line feeds in between as the service sends it.
const YAML_B64: &str = "IyBjb21tZW50ClBhY2thZ2VJZGVudGlmaWVyOiBEcnJha2VuZHU3OC5TdGFyVHJhZEZSClBhY2th\nZ2VMb2NhbGU6IGZyLUZSClB1Ymxpc2hlcjogIkRycmFrZW5kdTc4IgpQYWNrYWdlTmFtZTogJ1N0\nYXJUcmFkIEZSJwpMaWNlbnNlOiBNSVQKU2hvcnREZXNjcmlwdGlvbjogICBUcmFkdWN0aW9uICAK\nRGVzY3JpcHRpb246CkRlc2NyaXB0aW9uOiBzZWNvbmQKUHVibGlzaGVyVXJsOiBodHRwczovL2V4\nYW1wbGUuY29tClRhZ3M6CiAgLSAiamV1IgogIC0gJycKICAtIHRyYWR1Y3Rpb24KTW9uaWtlcjog\nc3RhcnRyYWQKLSBub3QgYSB0YWcK\n";

#[test]
fn fields_are_read_line_by_line() {
    assert_eq!(parse_yaml_field(YAML, "Publisher").as_deref(), Some("Drrakendu78"));
    assert_eq!(parse_yaml_field(YAML, "PackageName").as_deref(), Some("StarTrad FR"));
    assert_eq!(parse_yaml_field(YAML, "ShortDescription").as_deref(), Some("Traduction"));
    assert_eq!(parse_yaml_field(YAML, "Description").as_deref(), Some("second"));
    assert_eq!(parse_yaml_field(YAML, "PublisherUrl").as_deref(), Some("https://example.com"));
    assert_eq!(parse_yaml_field(YAML, "Author"), None);
    assert_eq!(parse_yaml_field(YAML, "Package").as_deref(), None);
    assert_eq!(parse_yaml_field("Key:value", "Key").as_deref(), Some("value"));
    assert_eq!(parse_yaml_field("  Key: \"'v'\"  ", "Key").as_deref(), Some("v"));
    assert_eq!(parse_yaml_field("Key: \"\"", "Key"), None);
    assert_eq!(parse_yaml_field("KeyMore: v", "Key"), None);
    assert_eq!(parse_yaml_field("", "Key"), None);
}

#[test]
fn tags_are_the_items_below_the_heading() {
    assert_eq!(parse_yaml_tags(YAML), vec!["jeu", "traduction"]);
    assert_eq!(parse_yaml_tags("Tags:\n- a\n\n- b\n"), vec!["a"]);
    assert_eq!(parse_yaml_tags("- a\nTags:\n- b\nTags:\n- c\nX: y\n- d"), vec!["b", "c"]);
    assert_eq!(parse_yaml_tags("Tags: [a, b]"), Vec::<String>::new());
    assert_eq!(parse_yaml_tags("Tags:\n-a\n- b"), Vec::<String>::new());
    assert_eq!(parse_yaml_tags(""), Vec::<String>::new());
}

#[test]
fn the_newest_version_is_the_greatest_directory_name() {
    let items = vec![
        item("1.9.0", "dir"),
        item("1.10.0", "dir"),
        item("9.9.9", "file"),
        item("1.2", "dir"),
        item("1.9.0", "dir"),
    ];
    assert_eq!(latest_version(&items).as_deref(), Some("1.9.0"));
    let mut sorted: Vec<&str> =
        items.iter().filter(|i| i.item_type == "dir").map(|i| i.name.as_str()).collect();
    sorted.sort();
    assert_eq!(latest_version(&items).as_deref(), sorted.last().copied());
    assert_eq!(latest_version(&vec![item("1.0", "file")]), None);
    assert_eq!(latest_version(&vec![]), None);
    let unicode = vec![item("z", "dir"), item("\u{e9}", "dir"), item("\u{1F600}", "dir"), item("zz", "dir")];
    assert_eq!(latest_version(&unicode).as_deref(), Some("\u{1F600}"));
}

#[test]
fn the_locale_file_is_the_first_with_locale_in_its_name() {
    let items = vec![
        item("P.K.installer.yaml", "file"),
        item("P.K.locale.fr-FR.yaml", "file"),
        item("P.K.locale.en-US.yaml", "file"),
    ];
    assert_eq!(find_locale_file(&items).as_deref(), Some("P.K.locale.fr-FR.yaml"));
    assert_eq!(find_locale_file(&vec![item("P.K.yaml", "file")]), None);
}

#[test]
fn content_is_decoded_from_base64_and_utf8() {
    assert_eq!(decode_content(YAML_B64).ok().as_deref(), Some(YAML));
    assert_eq!(decode_content("aGVs\nbG8=\r\n").ok().as_deref(), Some("hello"));
    assert_eq!(decode_content("").ok().as_deref(), Some(""));
    assert_eq!(decode_content("w6k=").ok().as_deref(), Some("\u{e9}"));
    let e = decode_content("aGVsbG8").err().expect("no padding");
    assert_eq!(e.kind, LookupErrorKind::Base64);
    assert_eq!(e.message(), "Base64 decode error: Invalid padding");
    let e = decode_content("aGV$bG8=").err().expect("bad symbol");
    assert_eq!(e.kind, LookupErrorKind::Base64);
    assert_eq!(e.message(), "Base64 decode error: Invalid symbol 36, offset 3.");
    let e = decode_content("/w==").err().expect("not utf-8");
    assert_eq!(e.kind, LookupErrorKind::Utf8);
    assert_eq!(e.message(), "UTF-8 error: invalid utf-8 sequence of 1 bytes from index 0");
}

#[test]
fn a_manifest_is_read_from_the_locale_file() {
    let m = existing_manifest_from_yaml("Drrakendu78.StarTradFR", "1.4.0", YAML);
    assert_eq!(m.package_identifier, "Drrakendu78.StarTradFR");
    assert_eq!(m.latest_version, "1.4.0");
    assert_eq!(m.publisher, "Drrakendu78");
    assert_eq!(m.package_name, "StarTrad FR");
    assert_eq!(m.license, "MIT");
    assert_eq!(m.short_description, "Traduction");
    assert_eq!(m.description.as_deref(), Some("second"));
    assert_eq!(m.publisher_url.as_deref(), Some("https://example.com"));
    assert_eq!(m.package_url, None);
    assert_eq!(m.license_url, None);
    assert_eq!(m.privacy_url, None);
    assert_eq!(m.author, None);
    assert_eq!(m.moniker.as_deref(), Some("startrad"));
    assert_eq!(m.tags, vec!["jeu", "traduction"]);
    assert_eq!(m.release_notes_url, None);
    assert_eq!(m.package_locale, "fr-FR");
    let empty = existing_manifest_from_yaml("A.B", "1", "");
    assert_eq!(empty.publisher, "");
    assert_eq!(empty.package_locale, "en-US");
    assert!(empty.tags.is_empty());
}

#[test]
fn the_package_directory_is_below_the_first_letter_of_the_publisher() {
    assert_eq!(
        package_address("Drrakendu78.StarTradFR").as_deref(),
        Some("https://api.github.com/repos/microsoft/winget-pkgs/contents/manifests/d/Drrakendu78/StarTradFR")
    );
    assert_eq!(
        package_address("A.B.C").as_deref(),
        Some("https://api.github.com/repos/microsoft/winget-pkgs/contents/manifests/a/A/B.C")
    );
    assert_eq!(
        package_address(".B").as_deref(),
        Some("https://api.github.com/repos/microsoft/winget-pkgs/contents/manifests/_//B")
    );
    assert_eq!(package_address("NoDot"), None);
    let req = check_package_exists("A.B").expect("a request");
    assert_eq!(req.url, "https://api.github.com/repos/microsoft/winget-pkgs/contents/manifests/a/A/B");
    assert_eq!(req.method, Method::Get);
    assert!(check_package_exists("NoDot").is_none());
}

#[test]
fn a_lookup_goes_through_versions_files_and_content() {
    let mut l = fetch_existing_manifest("Drrakendu78.StarTradFR");
    let base = "https://api.github.com/repos/microsoft/winget-pkgs/contents/manifests/d/Drrakendu78/StarTradFR";
    assert_eq!(url(&l), base);
    l.advance(LookupEvent::Listed { items: vec![item("1.3.0", "dir"), item("1.4.0", "dir"), item("x", "file")] });
    assert_eq!(url(&l), format!("{}/1.4.0", base));
    l.advance(LookupEvent::Listed {
        items: vec![item("a.installer.yaml", "file"), item("a.locale.fr-FR.yaml", "file")],
    });
    assert_eq!(url(&l), format!("{}/1.4.0/a.locale.fr-FR.yaml", base));
    l.advance(LookupEvent::FileRead { content: Some(YAML_B64.to_string()) });
    let m = found(&l);
    assert_eq!(m.latest_version, "1.4.0");
    assert_eq!(m.publisher, "Drrakendu78");
    assert_eq!(m.tags, vec!["jeu", "traduction"]);
    l.advance(LookupEvent::TransportFailed { detail: "late".to_string() });
    assert_eq!(found(&l).package_locale, "fr-FR");
}

#[test]
fn a_lookup_fails_with_the_message_of_its_step() {
    let l = fetch_existing_manifest("NoDot");
    assert_eq!(failure(&l).kind, LookupErrorKind::InvalidIdentifier);
    assert_eq!(failure(&l).message(), "Invalid package identifier format (expected Publisher.Package)");

    let start = || fetch_existing_manifest("A.B");
    let listed = || {
        let mut l = start();
        l.advance(LookupEvent::Listed { items: vec![item("1.0", "dir")] });
        l
    };
    let reading = || {
        let mut l = listed();
        l.advance(LookupEvent::Listed { items: vec![item("A.B.locale.en-US.yaml", "file")] });
        l
    };

    let mut l = start();
    l.advance(LookupEvent::TransportFailed { detail: "dns".to_string() });
    assert_eq!(failure(&l).message(), "Request failed: dns");
    let mut l = start();
    l.advance(LookupEvent::ParseFailed { detail: "expected a sequence".to_string() });
    assert_eq!(failure(&l).kind, LookupErrorKind::NotFound);
    assert_eq!(failure(&l).message(), "Package 'A.B' not found in winget-pkgs");
    let mut l = start();
    l.advance(LookupEvent::Listed { items: vec![item("readme", "file")] });
    assert_eq!(failure(&l).message(), "No versions found");

    let mut l = listed();
    l.advance(LookupEvent::ParseFailed { detail: "eof".to_string() });
    assert_eq!(failure(&l).message(), "Parse error: eof");
    let mut l = listed();
    l.advance(LookupEvent::Listed { items: vec![item("A.B.yaml", "file")] });
    assert_eq!(failure(&l).message(), "No locale file found");

    let mut l = reading();
    l.advance(LookupEvent::FileRead { content: None });
    assert_eq!(failure(&l).message(), "Empty file");
    let mut l = reading();
    l.advance(LookupEvent::FileRead { content: Some("@".to_string()) });
    assert_eq!(failure(&l).kind, LookupErrorKind::Base64);
    let mut l = reading();
    l.advance(LookupEvent::FileRead { content: Some("/w==".to_string()) });
    assert_eq!(failure(&l).kind, LookupErrorKind::Utf8);
    let mut l = reading();
    l.advance(LookupEvent::TransportFailed { detail: "reset".to_string() });
    assert_eq!(failure(&l).message(), "Request failed: reset");
    l.advance(LookupEvent::FileRead { content: Some(String::new()) });
    assert_eq!(failure(&l).message(), "Request failed: reset");
}
