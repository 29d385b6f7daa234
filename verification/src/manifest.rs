//! The data of a package manifest, as the caller fills it in, and the files
//! generated from it.

use crate::chars::{opt_text, texts};
use vstd::prelude::*;

verus! {

/// The views of an optional list of strings.
pub open spec fn opt_texts(o: Option<Vec<String>>) -> Option<Seq<Seq<char>>> {
    match o {
        Some(v) => Some(texts(v@)),
        None => None,
    }
}

/// Command-line switches of one installer.
#[derive(Debug, Clone)]
pub struct InstallerSwitches {
    pub silent: Option<String>,
    pub silent_with_progress: Option<String>,
    pub interactive: Option<String>,
    pub install_location: Option<String>,
    pub log: Option<String>,
    pub upgrade: Option<String>,
    pub custom: Option<String>,
    pub repair: Option<String>,
}

/// The texts of an [`InstallerSwitches`].
pub struct InstallerSwitchesView {
    pub silent: Option<Seq<char>>,
    pub silent_with_progress: Option<Seq<char>>,
    pub interactive: Option<Seq<char>>,
    pub install_location: Option<Seq<char>>,
    pub log: Option<Seq<char>>,
    pub upgrade: Option<Seq<char>>,
    pub custom: Option<Seq<char>>,
    pub repair: Option<Seq<char>>,
}

impl View for InstallerSwitches {
    type V = InstallerSwitchesView;

    open spec fn view(&self) -> InstallerSwitchesView {
        InstallerSwitchesView {
            silent: opt_text(self.silent),
            silent_with_progress: opt_text(self.silent_with_progress),
            interactive: opt_text(self.interactive),
            install_location: opt_text(self.install_location),
            log: opt_text(self.log),
            upgrade: opt_text(self.upgrade),
            custom: opt_text(self.custom),
            repair: opt_text(self.repair),
        }
    }
}

/// The view of optional switches.
pub open spec fn opt_switches(o: Option<InstallerSwitches>) -> Option<InstallerSwitchesView> {
    match o {
        Some(s) => Some(s@),
        None => None,
    }
}

/// One installer of a package version.
#[derive(Debug, Clone)]
pub struct InstallerEntry {
    pub architecture: String,
    pub installer_type: String,
    pub installer_url: String,
    pub installer_sha256: String,
    pub scope: Option<String>,
    pub installer_switches: Option<InstallerSwitches>,
    pub install_modes: Option<Vec<String>>,
    pub signature_sha256: Option<String>,
    pub product_code: Option<String>,
    pub upgrade_behavior: Option<String>,
    pub elevation_requirement: Option<String>,
}

/// The texts of an [`InstallerEntry`].
pub struct InstallerEntryView {
    pub architecture: Seq<char>,
    pub installer_type: Seq<char>,
    pub installer_url: Seq<char>,
    pub installer_sha256: Seq<char>,
    pub scope: Option<Seq<char>>,
    pub installer_switches: Option<InstallerSwitchesView>,
    pub install_modes: Option<Seq<Seq<char>>>,
    pub signature_sha256: Option<Seq<char>>,
    pub product_code: Option<Seq<char>>,
    pub upgrade_behavior: Option<Seq<char>>,
    pub elevation_requirement: Option<Seq<char>>,
}

impl View for InstallerEntry {
    type V = InstallerEntryView;

    open spec fn view(&self) -> InstallerEntryView {
        InstallerEntryView {
            architecture: self.architecture@,
            installer_type: self.installer_type@,
            installer_url: self.installer_url@,
            installer_sha256: self.installer_sha256@,
            scope: opt_text(self.scope),
            installer_switches: opt_switches(self.installer_switches),
            install_modes: opt_texts(self.install_modes),
            signature_sha256: opt_text(self.signature_sha256),
            product_code: opt_text(self.product_code),
            upgrade_behavior: opt_text(self.upgrade_behavior),
            elevation_requirement: opt_text(self.elevation_requirement),
        }
    }
}

/// The descriptive texts of a package in one locale.
#[derive(Debug, Clone)]
pub struct LocaleData {
    pub package_locale: String,
    pub publisher: String,
    pub publisher_url: Option<String>,
    pub publisher_support_url: Option<String>,
    pub privacy_url: Option<String>,
    pub author: Option<String>,
    pub package_name: String,
    pub package_url: Option<String>,
    pub license: String,
    pub license_url: Option<String>,
    pub copyright: Option<String>,
    pub copyright_url: Option<String>,
    pub short_description: String,
    pub description: Option<String>,
    pub moniker: Option<String>,
    pub tags: Option<Vec<String>>,
    pub release_notes: Option<String>,
    pub release_notes_url: Option<String>,
}

/// The texts of a [`LocaleData`].
pub struct LocaleDataView {
    pub package_locale: Seq<char>,
    pub publisher: Seq<char>,
    pub publisher_url: Option<Seq<char>>,
    pub publisher_support_url: Option<Seq<char>>,
    pub privacy_url: Option<Seq<char>>,
    pub author: Option<Seq<char>>,
    pub package_name: Seq<char>,
    pub package_url: Option<Seq<char>>,
    pub license: Seq<char>,
    pub license_url: Option<Seq<char>>,
    pub copyright: Option<Seq<char>>,
    pub copyright_url: Option<Seq<char>>,
    pub short_description: Seq<char>,
    pub description: Option<Seq<char>>,
    pub moniker: Option<Seq<char>>,
    pub tags: Option<Seq<Seq<char>>>,
    pub release_notes: Option<Seq<char>>,
    pub release_notes_url: Option<Seq<char>>,
}

impl View for LocaleData {
    type V = LocaleDataView;

    open spec fn view(&self) -> LocaleDataView {
        LocaleDataView {
            package_locale: self.package_locale@,
            publisher: self.publisher@,
            publisher_url: opt_text(self.publisher_url),
            publisher_support_url: opt_text(self.publisher_support_url),
            privacy_url: opt_text(self.privacy_url),
            author: opt_text(self.author),
            package_name: self.package_name@,
            package_url: opt_text(self.package_url),
            license: self.license@,
            license_url: opt_text(self.license_url),
            copyright: opt_text(self.copyright),
            copyright_url: opt_text(self.copyright_url),
            short_description: self.short_description@,
            description: opt_text(self.description),
            moniker: opt_text(self.moniker),
            tags: opt_texts(self.tags),
            release_notes: opt_text(self.release_notes),
            release_notes_url: opt_text(self.release_notes_url),
        }
    }
}

/// The views of a list of installers, in order.
pub open spec fn installer_views(v: Seq<InstallerEntry>) -> Seq<InstallerEntryView> {
    v.map_values(|e: InstallerEntry| e@)
}

/// The views of a list of locales, in order.
pub open spec fn locale_views(v: Seq<LocaleData>) -> Seq<LocaleDataView> {
    v.map_values(|l: LocaleData| l@)
}

/// The views of an optional list of locales.
pub open spec fn opt_locales(o: Option<Vec<LocaleData>>) -> Option<Seq<LocaleDataView>> {
    match o {
        Some(v) => Some(locale_views(v@)),
        None => None,
    }
}

/// Everything that the manifest of one package version is generated from.
#[derive(Debug)]
pub struct ManifestData {
    pub package_identifier: String,
    pub package_version: String,
    pub default_locale: String,
    pub minimum_os_version: Option<String>,
    pub installers: Vec<InstallerEntry>,
    pub locale: LocaleData,
    pub additional_locales: Option<Vec<LocaleData>>,
}

/// The texts of a [`ManifestData`].
pub struct ManifestDataView {
    pub package_identifier: Seq<char>,
    pub package_version: Seq<char>,
    pub default_locale: Seq<char>,
    pub minimum_os_version: Option<Seq<char>>,
    pub installers: Seq<InstallerEntryView>,
    pub locale: LocaleDataView,
    pub additional_locales: Option<Seq<LocaleDataView>>,
}

impl View for ManifestData {
    type V = ManifestDataView;

    open spec fn view(&self) -> ManifestDataView {
        ManifestDataView {
            package_identifier: self.package_identifier@,
            package_version: self.package_version@,
            default_locale: self.default_locale@,
            minimum_os_version: opt_text(self.minimum_os_version),
            installers: installer_views(self.installers@),
            locale: self.locale@,
            additional_locales: opt_locales(self.additional_locales),
        }
    }
}

/// One generated manifest file: its name and its text.
#[derive(Debug, Clone)]
pub struct YamlFile {
    pub file_name: String,
    pub content: String,
}

/// The texts of a [`YamlFile`].
pub struct YamlFileView {
    pub file_name: Seq<char>,
    pub content: Seq<char>,
}

impl View for YamlFile {
    type V = YamlFileView;

    open spec fn view(&self) -> YamlFileView {
        YamlFileView { file_name: self.file_name@, content: self.content@ }
    }
}

/// The views of a list of files, in order.
pub open spec fn file_views(v: Seq<YamlFile>) -> Seq<YamlFileView> {
    v.map_values(|f: YamlFile| f@)
}

} // verus!
