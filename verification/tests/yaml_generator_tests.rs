use unicreate::manifest::{InstallerEntry, InstallerSwitches, LocaleData, ManifestData};
use unicreate::yaml_generator::{
    generate_additional_locale_yaml, generate_installer_yaml, generate_locale_yaml,
    generate_version_yaml, generate_yaml,
};

fn switches() -> InstallerSwitches {
    InstallerSwitches {
        silent: None,
        silent_with_progress: None,
        interactive: None,
        install_location: None,
        log: None,
        upgrade: None,
        custom: None,
        repair: None,
    }
}

fn installer(kind: &str) -> InstallerEntry {
    InstallerEntry {
        architecture: "x64".to_string(),
        installer_type: kind.to_string(),
        installer_url: "https://example.com/app.exe".to_string(),
        installer_sha256: "ABCDEF".to_string(),
        scope: None,
        installer_switches: None,
        install_modes: None,
        signature_sha256: None,
        product_code: None,
        upgrade_behavior: None,
        elevation_requirement: None,
    }
}

fn locale(name: &str) -> LocaleData {
    LocaleData {
        package_locale: name.to_string(),
        publisher: "Publisher".to_string(),
        publisher_url: None,
        publisher_support_url: None,
        privacy_url: None,
        author: None,
        package_name: "Package".to_string(),
        package_url: None,
        license: "MIT".to_string(),
        license_url: None,
        copyright: None,
        copyright_url: None,
        short_description: "A tool".to_string(),
        description: None,
        moniker: None,
        tags: None,
        release_notes: None,
        release_notes_url: None,
    }
}

fn manifest(installers: Vec<InstallerEntry>) -> ManifestData {
    ManifestData {
        package_identifier: "Publisher.Package".to_string(),
        package_version: "1.2.3".to_string(),
        default_locale: "en-US".to_string(),
        minimum_os_version: None,
        installers,
        locale: locale("en-US"),
        additional_locales: None,
    }
}

const VERSION_HEAD: &str = "# yaml-language-server: $schema=https://aka.ms/winget-manifest.version.1.9.0.schema.json\n\nPackageIdentifier: Publisher.Package\nPackageVersion: 1.2.3\n";

#[test]
fn version_file() {
    let f = generate_version_yaml(&manifest(vec![]));
    assert_eq!(f.file_name, "Publisher.Package.yaml");
    assert_eq!(
        f.content,
        format!("{}DefaultLocale: en-US\nManifestType: version\nManifestVersion: 1.9.0\n", VERSION_HEAD)
    );
}

#[test]
fn installer_file_of_an_exe_gets_the_default_silent_switches() {
    let f = generate_installer_yaml(&manifest(vec![installer("EXE")]));
    assert_eq!(f.file_name, "Publisher.Package.installer.yaml");
    assert_eq!(
        f.content,
        "# yaml-language-server: $schema=https://aka.ms/winget-manifest.installer.1.9.0.schema.json\n\n\
PackageIdentifier: Publisher.Package\n\
PackageVersion: 1.2.3\n\
Installers:\n\
- Architecture: x64\n\
\x20 InstallerType: EXE\n\
\x20 InstallerUrl: https://example.com/app.exe\n\
\x20 InstallerSha256: ABCDEF\n\
\x20 InstallerSwitches:\n\
\x20   Silent: /S\n\
\x20   SilentWithProgress: /S\n\
ManifestType: installer\n\
ManifestVersion: 1.9.0\n"
    );
}

#[test]
fn installer_file_without_switches_for_other_types() {
    let f = generate_installer_yaml(&manifest(vec![installer("msi")]));
    assert!(!f.content.contains("InstallerSwitches"));
    let mut with_empty = installer("msi");
    with_empty.installer_switches = Some(InstallerSwitches { silent: Some(String::new()), ..switches() });
    let f = generate_installer_yaml(&manifest(vec![with_empty]));
    assert!(!f.content.contains("InstallerSwitches"));
}

#[test]
fn installer_file_with_every_field() {
    let mut m = manifest(vec![]);
    m.minimum_os_version = Some("10.0.0.0".to_string());
    let mut a = installer("msi");
    a.scope = Some("machine".to_string());
    a.signature_sha256 = Some("FEDCBA".to_string());
    a.product_code = Some("{1234}".to_string());
    a.upgrade_behavior = Some("install".to_string());
    a.elevation_requirement = Some("elevatesSelf".to_string());
    a.install_modes = Some(vec!["silent".to_string(), "interactive".to_string()]);
    a.installer_switches = Some(InstallerSwitches {
        silent: Some("/quiet".to_string()),
        silent_with_progress: Some("/passive".to_string()),
        interactive: Some("/i".to_string()),
        install_location: Some("DIR=\"<INSTALLPATH>\"".to_string()),
        log: Some("/log: x".to_string()),
        upgrade: Some("/u".to_string()),
        custom: Some("-c".to_string()),
        repair: Some("/r".to_string()),
    });
    let mut b = installer("exe");
    b.architecture = "arm64".to_string();
    b.scope = Some(String::new());
    b.install_modes = Some(vec![]);
    b.installer_switches = Some(InstallerSwitches { custom: Some("/x".to_string()), ..switches() });
    m.installers = vec![a, b];
    let f = generate_installer_yaml(&m);
    assert_eq!(
        f.content,
        "# yaml-language-server: $schema=https://aka.ms/winget-manifest.installer.1.9.0.schema.json\n\n\
PackageIdentifier: Publisher.Package\n\
PackageVersion: 1.2.3\n\
MinimumOSVersion: 10.0.0.0\n\
Installers:\n\
- Architecture: x64\n\
\x20 InstallerType: msi\n\
\x20 InstallerUrl: https://example.com/app.exe\n\
\x20 InstallerSha256: ABCDEF\n\
\x20 Scope: machine\n\
\x20 SignatureSha256: FEDCBA\n\
\x20 ProductCode: '{1234}'\n\
\x20 UpgradeBehavior: install\n\
\x20 ElevationRequirement: elevatesSelf\n\
\x20 InstallModes:\n\
\x20 - silent\n\
\x20 - interactive\n\
\x20 InstallerSwitches:\n\
\x20   Silent: /quiet\n\
\x20   SilentWithProgress: /passive\n\
\x20   Interactive: /i\n\
\x20   InstallLocation: DIR=\"<INSTALLPATH>\"\n\
\x20   Log: '/log: x'\n\
\x20   Upgrade: /u\n\
\x20   Custom: '-c'\n\
\x20   Repair: /r\n\
- Architecture: arm64\n\
\x20 InstallerType: exe\n\
\x20 InstallerUrl: https://example.com/app.exe\n\
\x20 InstallerSha256: ABCDEF\n\
\x20 InstallerSwitches:\n\
\x20   Silent: /S\n\
\x20   SilentWithProgress: /S\n\
\x20   Custom: /x\n\
ManifestType: installer\n\
ManifestVersion: 1.9.0\n"
    );
}

#[test]
fn default_locale_file() {
    let mut m = manifest(vec![]);
    m.locale.publisher_url = Some("https://example.com".to_string());
    m.locale.author = Some(String::new());
    m.locale.description = Some("Line one\nLine two".to_string());
    m.locale.moniker = Some("pkg".to_string());
    m.locale.tags = Some(vec!["cli".to_string(), "yes".to_string()]);
    m.locale.release_notes_url = Some("https://example.com/notes".to_string());
    let f = generate_locale_yaml(&m);
    assert_eq!(f.file_name, "Publisher.Package.locale.en-US.yaml");
    assert_eq!(
        f.content,
        "# yaml-language-server: $schema=https://aka.ms/winget-manifest.defaultLocale.1.9.0.schema.json\n\n\
PackageIdentifier: Publisher.Package\n\
PackageVersion: 1.2.3\n\
PackageLocale: en-US\n\
Publisher: Publisher\n\
PublisherUrl: https://example.com\n\
PackageName: Package\n\
License: MIT\n\
ShortDescription: A tool\n\
Description: |-\n\
\x20 Line one\n\
\x20 Line two\n\
Moniker: pkg\n\
Tags:\n\
- cli\n\
- 'yes'\n\
ReleaseNotesUrl: https://example.com/notes\n\
ManifestType: defaultLocale\n\
ManifestVersion: 1.9.0\n"
    );
}

#[test]
fn additional_locale_file_has_no_moniker() {
    let m = manifest(vec![]);
    let mut fr = locale("fr-FR");
    fr.moniker = Some("pkg".to_string());
    fr.copyright = Some("(c) 2024".to_string());
    fr.tags = Some(vec![]);
    let f = generate_additional_locale_yaml(&m, &fr);
    assert_eq!(f.file_name, "Publisher.Package.locale.fr-FR.yaml");
    assert_eq!(
        f.content,
        "# yaml-language-server: $schema=https://aka.ms/winget-manifest.locale.1.9.0.schema.json\n\n\
PackageIdentifier: Publisher.Package\n\
PackageVersion: 1.2.3\n\
PackageLocale: fr-FR\n\
Publisher: Publisher\n\
PackageName: Package\n\
License: MIT\n\
Copyright: (c) 2024\n\
ShortDescription: A tool\n\
ManifestType: locale\n\
ManifestVersion: 1.9.0\n"
    );
}

#[test]
fn all_files_in_order() {
    let mut m = manifest(vec![installer("exe")]);
    m.additional_locales = Some(vec![locale("fr-FR"), locale("de-DE")]);
    let files = generate_yaml(&m);
    let names: Vec<_> = files.iter().map(|f| f.file_name.as_str()).collect();
    assert_eq!(
        names,
        vec![
            "Publisher.Package.yaml",
            "Publisher.Package.installer.yaml",
            "Publisher.Package.locale.en-US.yaml",
            "Publisher.Package.locale.fr-FR.yaml",
            "Publisher.Package.locale.de-DE.yaml",
        ]
    );
    assert_eq!(files[0].content, generate_version_yaml(&m).content);
    assert_eq!(files[1].content, generate_installer_yaml(&m).content);
    assert_eq!(files[2].content, generate_locale_yaml(&m).content);
    assert_eq!(files[3].content, generate_additional_locale_yaml(&m, &locale("fr-FR")).content);
    m.additional_locales = None;
    assert_eq!(generate_yaml(&m).len(), 3);
    m.additional_locales = Some(vec![]);
    assert_eq!(generate_yaml(&m).len(), 3);
}
