//! The manifest files of one package version: the version file, the installer
//! file, the default locale file and one file for each further locale.

use crate::chars::{
    chars_of, is_text, lowercase_ascii, opt_text, push_all, push_str, string_of, texts,
    to_ascii_lowercase,
};
use crate::manifest::{
    file_views, installer_views, locale_views, InstallerEntry, InstallerEntryView,
    InstallerSwitches, InstallerSwitchesView, LocaleData, LocaleDataView, ManifestData,
    ManifestDataView, YamlFile, YamlFileView,
};
use crate::yaml_scalar::{
    push_header, push_opt_field, push_scalar, push_str_field, schema_version, yaml_field,
    yaml_header, yaml_opt_field, yaml_scalar,
};
use vstd::prelude::*;

verus! {

/// A label, the value as a scalar, and a line feed.
pub open spec fn scalar_line(label: Seq<char>, value: Seq<char>) -> Seq<char> {
    label + yaml_scalar(value) + "\n"@
}

/// A label, the value as it is, and a line feed.
pub open spec fn raw_line(label: Seq<char>, value: Seq<char>) -> Seq<char> {
    label + value + "\n"@
}

/// An optional value, absent where it is empty.
pub open spec fn filled(o: Option<Seq<char>>) -> Option<Seq<char>> {
    match o {
        Some(v) => if v.len() > 0 {
            o
        } else {
            None
        },
        None => None,
    }
}

/// A scalar line for a value that is present; nothing for one that is not.
pub open spec fn some_scalar_line(label: Seq<char>, o: Option<Seq<char>>) -> Seq<char> {
    match o {
        Some(v) => scalar_line(label, v),
        None => Seq::empty(),
    }
}

/// A raw line for a value that is present; nothing for one that is not.
pub open spec fn some_raw_line(label: Seq<char>, o: Option<Seq<char>>) -> Seq<char> {
    match o {
        Some(v) => raw_line(label, v),
        None => Seq::empty(),
    }
}

/// One scalar line for each item, each behind the same prefix.
pub open spec fn item_lines(prefix: Seq<char>, items: Seq<Seq<char>>) -> Seq<char>
    decreases items.len(),
{
    if items.len() == 0 {
        Seq::empty()
    } else {
        item_lines(prefix, items.drop_last()) + scalar_line(prefix, items.last())
    }
}

/// A heading and the items below it; nothing where the list is absent or
/// empty.
pub open spec fn item_block(heading: Seq<char>, prefix: Seq<char>, o: Option<Seq<Seq<char>>>) -> Seq<
    char,
> {
    match o {
        Some(items) => if items.len() > 0 {
            heading + item_lines(prefix, items)
        } else {
            Seq::empty()
        },
        None => Seq::empty(),
    }
}

/// The silent switch of installers of type `exe` that name none.
pub open spec fn default_silent_switch() -> Seq<char> {
    "/S"@
}

/// A switch that is filled in, or the default silent switch where `fallback`
/// holds.
pub open spec fn or_silent(o: Option<Seq<char>>, fallback: bool) -> Option<Seq<char>> {
    match filled(o) {
        Some(v) => Some(v),
        None => if fallback {
            Some(default_silent_switch())
        } else {
            None
        },
    }
}

/// No switch at all.
pub open spec fn no_switches() -> InstallerSwitchesView {
    InstallerSwitchesView {
        silent: None,
        silent_with_progress: None,
        interactive: None,
        install_location: None,
        log: None,
        upgrade: None,
        custom: None,
        repair: None,
    }
}

/// The switches that are written for an installer: those that are filled in,
/// and for an installer whose type is `exe` in any letter case the default
/// silent switch in place of a missing silent or silent-with-progress switch.
pub open spec fn effective_switches(e: InstallerEntryView) -> InstallerSwitchesView {
    let is_exe = lowercase_ascii(e.installer_type) == "exe"@;
    let s = match e.installer_switches {
        Some(s) => s,
        None => no_switches(),
    };
    InstallerSwitchesView {
        silent: or_silent(s.silent, is_exe),
        silent_with_progress: or_silent(s.silent_with_progress, is_exe),
        interactive: filled(s.interactive),
        install_location: filled(s.install_location),
        log: filled(s.log),
        upgrade: filled(s.upgrade),
        custom: filled(s.custom),
        repair: filled(s.repair),
    }
}

/// Whether any switch is present.
pub open spec fn any_switch(s: InstallerSwitchesView) -> bool {
    ||| s.silent is Some
    ||| s.silent_with_progress is Some
    ||| s.interactive is Some
    ||| s.install_location is Some
    ||| s.log is Some
    ||| s.upgrade is Some
    ||| s.custom is Some
    ||| s.repair is Some
}

/// The switches of an installer under their heading; nothing where there is
/// no switch.
pub open spec fn switches_block(s: InstallerSwitchesView) -> Seq<char> {
    if any_switch(s) {
        "  InstallerSwitches:\n"@ + some_scalar_line("    Silent: "@, s.silent) + some_scalar_line(
            "    SilentWithProgress: "@,
            s.silent_with_progress,
        ) + some_scalar_line("    Interactive: "@, s.interactive) + some_scalar_line(
            "    InstallLocation: "@,
            s.install_location,
        ) + some_scalar_line("    Log: "@, s.log) + some_scalar_line("    Upgrade: "@, s.upgrade)
            + some_scalar_line("    Custom: "@, s.custom) + some_scalar_line(
            "    Repair: "@,
            s.repair,
        )
    } else {
        Seq::empty()
    }
}

/// The entry of one installer in the installer file.
pub open spec fn installer_block(e: InstallerEntryView) -> Seq<char> {
    scalar_line("- Architecture: "@, e.architecture) + scalar_line(
        "  InstallerType: "@,
        e.installer_type,
    ) + scalar_line("  InstallerUrl: "@, e.installer_url) + raw_line(
        "  InstallerSha256: "@,
        e.installer_sha256,
    ) + some_scalar_line("  Scope: "@, filled(e.scope)) + some_raw_line(
        "  SignatureSha256: "@,
        filled(e.signature_sha256),
    ) + some_scalar_line("  ProductCode: "@, filled(e.product_code)) + some_scalar_line(
        "  UpgradeBehavior: "@,
        filled(e.upgrade_behavior),
    ) + some_scalar_line("  ElevationRequirement: "@, filled(e.elevation_requirement))
        + item_block("  InstallModes:\n"@, "  - "@, e.install_modes) + switches_block(
        effective_switches(e),
    )
}

/// The entries of all installers, in order.
pub open spec fn installer_blocks(es: Seq<InstallerEntryView>) -> Seq<char>
    decreases es.len(),
{
    if es.len() == 0 {
        Seq::empty()
    } else {
        installer_blocks(es.drop_last()) + installer_block(es.last())
    }
}

/// The two fields that end every manifest file.
pub open spec fn yaml_footer(kind: Seq<char>) -> Seq<char> {
    yaml_field("ManifestType"@, kind) + yaml_field("ManifestVersion"@, schema_version())
}

/// The two fields that follow the header of every manifest file.
pub open spec fn yaml_identity(m: ManifestDataView) -> Seq<char> {
    yaml_field("PackageIdentifier"@, m.package_identifier) + yaml_field(
        "PackageVersion"@,
        m.package_version,
    )
}

/// The version file.
pub open spec fn version_yaml(m: ManifestDataView) -> YamlFileView {
    YamlFileView {
        file_name: m.package_identifier + ".yaml"@,
        content: yaml_header("version"@) + yaml_identity(m) + yaml_field(
            "DefaultLocale"@,
            m.default_locale,
        ) + yaml_footer("version"@),
    }
}

/// The installer file.
pub open spec fn installer_yaml(m: ManifestDataView) -> YamlFileView {
    YamlFileView {
        file_name: m.package_identifier + ".installer.yaml"@,
        content: yaml_header("installer"@) + yaml_identity(m) + yaml_opt_field(
            "MinimumOSVersion"@,
            m.minimum_os_version,
        ) + "Installers:\n"@ + installer_blocks(m.installers) + yaml_footer("installer"@),
    }
}

/// The kind of a locale file.
pub open spec fn locale_kind(default: bool) -> Seq<char> {
    if default {
        "defaultLocale"@
    } else {
        "locale"@
    }
}

/// The fields of a locale from the locale's name to its description.
pub open spec fn locale_fields(l: LocaleDataView) -> Seq<char> {
    yaml_field("PackageLocale"@, l.package_locale) + yaml_field("Publisher"@, l.publisher)
        + yaml_opt_field("PublisherUrl"@, l.publisher_url) + yaml_opt_field(
        "PublisherSupportUrl"@,
        l.publisher_support_url,
    ) + yaml_opt_field("PrivacyUrl"@, l.privacy_url) + yaml_opt_field("Author"@, l.author)
        + yaml_field("PackageName"@, l.package_name) + yaml_opt_field("PackageUrl"@, l.package_url)
        + yaml_field("License"@, l.license) + yaml_opt_field("LicenseUrl"@, l.license_url)
        + yaml_opt_field("Copyright"@, l.copyright) + yaml_opt_field(
        "CopyrightUrl"@,
        l.copyright_url,
    ) + yaml_field("ShortDescription"@, l.short_description) + yaml_opt_field(
        "Description"@,
        l.description,
    )
}

/// The moniker field, which only the default locale file has.
pub open spec fn moniker_field(l: LocaleDataView, default: bool) -> Seq<char> {
    if default {
        yaml_opt_field("Moniker"@, l.moniker)
    } else {
        Seq::empty()
    }
}

/// The fields of a locale from its tags to its release notes.
pub open spec fn locale_tail(l: LocaleDataView) -> Seq<char> {
    item_block("Tags:\n"@, "- "@, l.tags) + yaml_opt_field("ReleaseNotes"@, l.release_notes)
        + yaml_opt_field("ReleaseNotesUrl"@, l.release_notes_url)
}

/// The file of one locale: of the default locale, or of a further one.
pub open spec fn locale_yaml(m: ManifestDataView, l: LocaleDataView, default: bool) -> YamlFileView {
    YamlFileView {
        file_name: m.package_identifier + ".locale."@ + l.package_locale + ".yaml"@,
        content: yaml_header(locale_kind(default)) + yaml_identity(m) + locale_fields(l)
            + moniker_field(l, default) + locale_tail(l) + yaml_footer(locale_kind(default)),
    }
}

/// The files of the further locales, in order.
pub open spec fn additional_yaml(m: ManifestDataView, ls: Seq<LocaleDataView>) -> Seq<
    YamlFileView,
> {
    ls.map_values(|l: LocaleDataView| locale_yaml(m, l, false))
}

/// All files of a manifest: version, installer, default locale, then one for
/// each further locale in the order given.
pub open spec fn manifest_files(m: ManifestDataView) -> Seq<YamlFileView> {
    seq![version_yaml(m), installer_yaml(m), locale_yaml(m, m.locale, true)] + (
    match m.additional_locales {
        Some(ls) => additional_yaml(m, ls),
        None => Seq::empty(),
    })
}

fn fill(o: &Option<String>) -> (r: Option<Vec<char>>)
    ensures
        match r {
            Some(v) => filled(opt_text(*o)) == Some(v@),
            None => filled(opt_text(*o)) is None,
        },
{
    match o {
        Some(s) => {
            let v = chars_of(s.as_str());
            if v.len() > 0 {
                Some(v)
            } else {
                None
            }
        },
        None => None,
    }
}

/// The view of an optional character vector.
pub open spec fn opt_row(o: Option<Vec<char>>) -> Option<Seq<char>> {
    match o {
        Some(v) => Some(v@),
        None => None,
    }
}

fn fill_or_silent(o: &Option<String>, fallback: bool) -> (r: Option<Vec<char>>)
    ensures
        opt_row(r) == or_silent(opt_text(*o), fallback),
{
    match fill(o) {
        Some(v) => Some(v),
        None => if fallback {
            Some(chars_of("/S"))
        } else {
            None
        },
    }
}

fn push_scalar_line(out: &mut Vec<char>, label: &str, value: &Vec<char>)
    ensures
        final(out)@ == old(out)@ + scalar_line(label@, value@),
{
    let ghost before = out@;
    push_str(out, label);
    push_scalar(out, value);
    push_str(out, "\n");
    proof {
        assert(out@ == before + scalar_line(label@, value@));
    }
}

fn push_raw_line(out: &mut Vec<char>, label: &str, value: &Vec<char>)
    ensures
        final(out)@ == old(out)@ + raw_line(label@, value@),
{
    let ghost before = out@;
    push_str(out, label);
    push_all(out, value);
    push_str(out, "\n");
    proof {
        assert(out@ == before + raw_line(label@, value@));
    }
}

fn push_some_scalar_line(out: &mut Vec<char>, label: &str, value: &Option<Vec<char>>)
    ensures
        final(out)@ == old(out)@ + some_scalar_line(label@, opt_row(*value)),
{
    match value {
        Some(v) => push_scalar_line(out, label, v),
        None => {},
    }
}

fn push_some_raw_line(out: &mut Vec<char>, label: &str, value: &Option<Vec<char>>)
    ensures
        final(out)@ == old(out)@ + some_raw_line(label@, opt_row(*value)),
{
    match value {
        Some(v) => push_raw_line(out, label, v),
        None => {},
    }
}

fn push_item_block(out: &mut Vec<char>, heading: &str, prefix: &str, items: &Option<Vec<String>>)
    ensures
        final(out)@ == old(out)@ + item_block(
            heading@,
            prefix@,
            crate::manifest::opt_texts(*items),
        ),
{
    let ghost before = out@;
    match items {
        Some(list) => {
            if list.len() > 0 {
                push_str(out, heading);
                let ghost head = out@;
                let mut i: usize = 0;
                while i < list.len()
                    invariant
                        i <= list.len(),
                        out@ == head + item_lines(prefix@, texts(list@).take(i as int)),
                    decreases list.len() - i,
                {
                    proof {
                        assert(texts(list@).take(i + 1).drop_last() == texts(list@).take(i as int));
                        assert(texts(list@).take(i + 1).last() == list@[i as int]@);
                    }
                    let item = chars_of(list[i].as_str());
                    push_scalar_line(out, prefix, &item);
                    i += 1;
                }
                proof {
                    assert(texts(list@).take(list.len() as int) == texts(list@));
                    assert(out@ == before + (heading@ + item_lines(prefix@, texts(list@))));
                }
            }
        },
        None => {},
    }
}

/// The switches that are written for one installer.
struct ChosenSwitches {
    silent: Option<Vec<char>>,
    progress: Option<Vec<char>>,
    interactive: Option<Vec<char>>,
    location: Option<Vec<char>>,
    log: Option<Vec<char>>,
    upgrade: Option<Vec<char>>,
    custom: Option<Vec<char>>,
    repair: Option<Vec<char>>,
}

spec fn chosen_view(s: ChosenSwitches) -> InstallerSwitchesView {
    InstallerSwitchesView {
        silent: opt_row(s.silent),
        silent_with_progress: opt_row(s.progress),
        interactive: opt_row(s.interactive),
        install_location: opt_row(s.location),
        log: opt_row(s.log),
        upgrade: opt_row(s.upgrade),
        custom: opt_row(s.custom),
        repair: opt_row(s.repair),
    }
}

fn choose_switches(inst: &InstallerEntry) -> (r: ChosenSwitches)
    ensures
        chosen_view(r) == effective_switches(inst@),
{
    let kind = chars_of(inst.installer_type.as_str());
    let lower = to_ascii_lowercase(&kind);
    let is_exe = is_text(&lower, "exe");
    match &inst.installer_switches {
        Some(s) => ChosenSwitches {
            silent: fill_or_silent(&s.silent, is_exe),
            progress: fill_or_silent(&s.silent_with_progress, is_exe),
            interactive: fill(&s.interactive),
            location: fill(&s.install_location),
            log: fill(&s.log),
            upgrade: fill(&s.upgrade),
            custom: fill(&s.custom),
            repair: fill(&s.repair),
        },
        None => {
            let silent = if is_exe {
                Some(chars_of("/S"))
            } else {
                None
            };
            let progress = if is_exe {
                Some(chars_of("/S"))
            } else {
                None
            };
            ChosenSwitches {
                silent,
                progress,
                interactive: None,
                location: None,
                log: None,
                upgrade: None,
                custom: None,
                repair: None,
            }
        },
    }
}

fn switches_text(s: &ChosenSwitches) -> (r: Vec<char>)
    ensures
        r@ == switches_block(chosen_view(*s)),
{
    if s.silent.is_some() || s.progress.is_some() || s.custom.is_some() || s.interactive.is_some()
        || s.location.is_some() || s.log.is_some() || s.upgrade.is_some() || s.repair.is_some() {
        let mut part = chars_of("  InstallerSwitches:\n");
        push_some_scalar_line(&mut part, "    Silent: ", &s.silent);
        push_some_scalar_line(&mut part, "    SilentWithProgress: ", &s.progress);
        push_some_scalar_line(&mut part, "    Interactive: ", &s.interactive);
        push_some_scalar_line(&mut part, "    InstallLocation: ", &s.location);
        push_some_scalar_line(&mut part, "    Log: ", &s.log);
        push_some_scalar_line(&mut part, "    Upgrade: ", &s.upgrade);
        push_some_scalar_line(&mut part, "    Custom: ", &s.custom);
        push_some_scalar_line(&mut part, "    Repair: ", &s.repair);
        part
    } else {
        Vec::new()
    }
}

fn installer_text(inst: &InstallerEntry) -> (r: Vec<char>)
    ensures
        r@ == installer_block(inst@),
{
    let arch = chars_of(inst.architecture.as_str());
    let kind = chars_of(inst.installer_type.as_str());
    let url = chars_of(inst.installer_url.as_str());
    let sha = chars_of(inst.installer_sha256.as_str());
    let mut part: Vec<char> = Vec::new();
    push_scalar_line(&mut part, "- Architecture: ", &arch);
    proof {
        assert(part@ == scalar_line("- Architecture: "@, arch@));
    }
    push_scalar_line(&mut part, "  InstallerType: ", &kind);
    push_scalar_line(&mut part, "  InstallerUrl: ", &url);
    push_raw_line(&mut part, "  InstallerSha256: ", &sha);
    let scope = fill(&inst.scope);
    let sig = fill(&inst.signature_sha256);
    let code = fill(&inst.product_code);
    let upgrade = fill(&inst.upgrade_behavior);
    let elevation = fill(&inst.elevation_requirement);
    proof {
        assert(opt_row(scope) == filled(inst@.scope));
        assert(opt_row(sig) == filled(inst@.signature_sha256));
        assert(opt_row(code) == filled(inst@.product_code));
        assert(opt_row(upgrade) == filled(inst@.upgrade_behavior));
        assert(opt_row(elevation) == filled(inst@.elevation_requirement));
    }
    push_some_scalar_line(&mut part, "  Scope: ", &scope);
    push_some_raw_line(&mut part, "  SignatureSha256: ", &sig);
    push_some_scalar_line(&mut part, "  ProductCode: ", &code);
    push_some_scalar_line(&mut part, "  UpgradeBehavior: ", &upgrade);
    push_some_scalar_line(&mut part, "  ElevationRequirement: ", &elevation);
    push_item_block(&mut part, "  InstallModes:\n", "  - ", &inst.install_modes);
    let chosen = choose_switches(inst);
    let switches = switches_text(&chosen);
    push_all(&mut part, &switches);
    part
}

fn push_installer(out: &mut Vec<char>, inst: &InstallerEntry)
    ensures
        final(out)@ == old(out)@ + installer_block(inst@),
{
    let part = installer_text(inst);
    push_all(out, &part);
}

fn push_identity(out: &mut Vec<char>, m: &ManifestData)
    ensures
        final(out)@ == old(out)@ + yaml_identity(m@),
{
    let ghost before = out@;
    push_str_field(out, "PackageIdentifier", m.package_identifier.as_str());
    push_str_field(out, "PackageVersion", m.package_version.as_str());
    proof {
        assert(out@ == before + yaml_identity(m@));
    }
}

fn push_footer(out: &mut Vec<char>, kind: &str)
    ensures
        final(out)@ == old(out)@ + yaml_footer(kind@),
{
    let ghost before = out@;
    push_str_field(out, "ManifestType", kind);
    push_str_field(out, "ManifestVersion", "1.9.0");
    proof {
        assert(out@ == before + yaml_footer(kind@));
    }
}

/// The version file of a manifest.
pub fn generate_version_yaml(m: &ManifestData) -> (r: YamlFile)
    ensures
        r@ == version_yaml(m@),
{
    let mut content: Vec<char> = Vec::new();
    push_header(&mut content, "version");
    push_identity(&mut content, m);
    push_str_field(&mut content, "DefaultLocale", m.default_locale.as_str());
    push_footer(&mut content, "version");
    let mut name = chars_of(m.package_identifier.as_str());
    push_str(&mut name, ".yaml");
    proof {
        assert(content@ == version_yaml(m@).content);
    }
    YamlFile { file_name: string_of(&name), content: string_of(&content) }
}

/// The installer file of a manifest.
pub fn generate_installer_yaml(m: &ManifestData) -> (r: YamlFile)
    ensures
        r@ == installer_yaml(m@),
{
    let mut content: Vec<char> = Vec::new();
    push_header(&mut content, "installer");
    push_identity(&mut content, m);
    push_opt_field(&mut content, "MinimumOSVersion", &m.minimum_os_version);
    push_str(&mut content, "Installers:\n");
    let ghost head = content@;
    let mut i: usize = 0;
    while i < m.installers.len()
        invariant
            i <= m.installers.len(),
            content@ == head + installer_blocks(installer_views(m.installers@).take(i as int)),
        decreases m.installers.len() - i,
    {
        proof {
            let all = installer_views(m.installers@);
            assert(all.take(i + 1).drop_last() == all.take(i as int));
            assert(all.take(i + 1).last() == m.installers@[i as int]@);
        }
        push_installer(&mut content, &m.installers[i]);
        i += 1;
    }
    proof {
        let all = installer_views(m.installers@);
        assert(all.take(m.installers.len() as int) == all);
    }
    push_footer(&mut content, "installer");
    let mut name = chars_of(m.package_identifier.as_str());
    push_str(&mut name, ".installer.yaml");
    proof {
        assert(content@ == installer_yaml(m@).content);
    }
    YamlFile { file_name: string_of(&name), content: string_of(&content) }
}

fn push_locale_fields(out: &mut Vec<char>, l: &LocaleData)
    ensures
        final(out)@ == old(out)@ + locale_fields(l@),
{
    let mut part: Vec<char> = Vec::new();
    push_str_field(&mut part, "PackageLocale", l.package_locale.as_str());
    proof {
        assert(part@ == yaml_field("PackageLocale"@, l@.package_locale));
    }
    push_str_field(&mut part, "Publisher", l.publisher.as_str());
    push_opt_field(&mut part, "PublisherUrl", &l.publisher_url);
    push_opt_field(&mut part, "PublisherSupportUrl", &l.publisher_support_url);
    push_opt_field(&mut part, "PrivacyUrl", &l.privacy_url);
    push_opt_field(&mut part, "Author", &l.author);
    push_str_field(&mut part, "PackageName", l.package_name.as_str());
    push_opt_field(&mut part, "PackageUrl", &l.package_url);
    push_str_field(&mut part, "License", l.license.as_str());
    push_opt_field(&mut part, "LicenseUrl", &l.license_url);
    push_opt_field(&mut part, "Copyright", &l.copyright);
    push_opt_field(&mut part, "CopyrightUrl", &l.copyright_url);
    push_str_field(&mut part, "ShortDescription", l.short_description.as_str());
    push_opt_field(&mut part, "Description", &l.description);
    push_all(out, &part);
}

fn push_locale_tail(out: &mut Vec<char>, l: &LocaleData)
    ensures
        final(out)@ == old(out)@ + locale_tail(l@),
{
    let ghost before = out@;
    push_item_block(out, "Tags:\n", "- ", &l.tags);
    push_opt_field(out, "ReleaseNotes", &l.release_notes);
    push_opt_field(out, "ReleaseNotesUrl", &l.release_notes_url);
    proof {
        assert(out@ == before + locale_tail(l@));
    }
}

fn locale_file(m: &ManifestData, l: &LocaleData, default: bool) -> (r: YamlFile)
    ensures
        r@ == locale_yaml(m@, l@, default),
{
    let kind = if default {
        "defaultLocale"
    } else {
        "locale"
    };
    let mut content: Vec<char> = Vec::new();
    push_header(&mut content, kind);
    push_identity(&mut content, m);
    push_locale_fields(&mut content, l);
    if default {
        push_opt_field(&mut content, "Moniker", &l.moniker);
    }
    push_locale_tail(&mut content, l);
    push_footer(&mut content, kind);
    let mut name = chars_of(m.package_identifier.as_str());
    push_str(&mut name, ".locale.");
    push_str(&mut name, l.package_locale.as_str());
    push_str(&mut name, ".yaml");
    proof {
        assert(content@ == locale_yaml(m@, l@, default).content);
        assert(name@ == locale_yaml(m@, l@, default).file_name);
    }
    YamlFile { file_name: string_of(&name), content: string_of(&content) }
}

/// The default locale file of a manifest.
pub fn generate_locale_yaml(m: &ManifestData) -> (r: YamlFile)
    ensures
        r@ == locale_yaml(m@, m@.locale, true),
{
    locale_file(m, &m.locale, true)
}

/// The file of a further locale of a manifest.
pub fn generate_additional_locale_yaml(m: &ManifestData, l: &LocaleData) -> (r: YamlFile)
    ensures
        r@ == locale_yaml(m@, l@, false),
{
    locale_file(m, l, false)
}

/// All files of a manifest: version, installer, default locale, then one for
/// each further locale in the order given.
pub fn generate_yaml(manifest: &ManifestData) -> (files: Vec<YamlFile>)
    ensures
        file_views(files@) == manifest_files(manifest@),
{
    let mut files: Vec<YamlFile> = Vec::new();
    files.push(generate_version_yaml(manifest));
    files.push(generate_installer_yaml(manifest));
    files.push(generate_locale_yaml(manifest));
    let ghost m = manifest@;
    let ghost head = seq![version_yaml(m), installer_yaml(m), locale_yaml(m, m.locale, true)];
    proof {
        assert(file_views(files@) == head);
    }
    match &manifest.additional_locales {
        Some(locales) => {
            let mut i: usize = 0;
            while i < locales.len()
                invariant
                    i <= locales.len(),
                    m == manifest@,
                    file_views(files@) == head + additional_yaml(m, locale_views(locales@)).take(
                        i as int,
                    ),
                decreases locales.len() - i,
            {
                let file = generate_additional_locale_yaml(manifest, &locales[i]);
                proof {
                    let all = additional_yaml(m, locale_views(locales@));
                    assert(all.take(i + 1) == all.take(i as int).push(file@));
                    assert(file_views(files@.push(file)) == file_views(files@).push(file@));
                }
                files.push(file);
                i += 1;
            }
            proof {
                let all = additional_yaml(m, locale_views(locales@));
                assert(all.take(locales.len() as int) == all);
            }
        },
        None => {},
    }
    files
}

} // verus!
