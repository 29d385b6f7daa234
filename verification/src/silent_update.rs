//! An update of the application by a script: the script downloads the
//! installer, waits until the application has ended, runs the installer
//! without any window and starts the application again.
//!
//! The library checks the request and writes the script; the caller finds
//! the directories, writes the script to a file and starts it.

use crate::chars::{
    chars_of, is_text, lowercase_ascii, push_all, push_str, slice_of, string_of,
    to_ascii_lowercase,
};
use crate::decimal::{decimal_text, push_decimal};
use crate::http::opt_str;
use crate::text::{
    after_last, after_last_char, before_first, has_prefix, last_index, replace_char, replaced,
    starts_with, take_after_last, take_before_first, trim, trimmed,
};
use crate::update_error::{UpdateError, UpdateErrorKind};
use vstd::prelude::*;

verus! {

/// The system that the application runs on.
#[derive(Debug, Clone, Copy, PartialEq, Eq, Structural)]
pub enum Platform {
    Windows,
    Other,
}

/// The two kinds of installer that can be run without a window.
#[derive(Debug, Clone, Copy, PartialEq, Eq, Structural)]
pub enum InstallerKind {
    Exe,
    Msi,
}

/// A request for a silent update that has been checked.
#[derive(Debug, Clone)]
pub struct SilentUpdate {
    /// Where to download the installer from.
    pub download_url: String,
    /// The name of the file that the installer is saved under.
    pub installer_name: String,
    /// How the installer is run.
    pub kind: InstallerKind,
}

/// The texts of a [`SilentUpdate`].
pub struct SilentUpdateView {
    pub download_url: Seq<char>,
    pub installer_name: Seq<char>,
    pub kind: InstallerKind,
}

impl View for SilentUpdate {
    type V = SilentUpdateView;

    open spec fn view(&self) -> SilentUpdateView {
        SilentUpdateView {
            download_url: self.download_url@,
            installer_name: self.installer_name@,
            kind: self.kind,
        }
    }
}

/// A text as it stands between single quotes in a script: with each single
/// quote doubled.
pub open spec fn quoted(value: Seq<char>) -> Seq<char> {
    replaced(value, '\'', "''"@)
}

/// Characters that a file name cannot hold.
pub open spec fn is_reserved(c: char) -> bool {
    ||| c == '<'
    ||| c == '>'
    ||| c == ':'
    ||| c == '"'
    ||| c == '/'
    ||| c == '\\'
    ||| c == '|'
    ||| c == '?'
    ||| c == '*'
}

/// A text as a file name: with an underscore in place of each character that
/// a file name cannot hold.
pub open spec fn sanitized(value: Seq<char>) -> Seq<char> {
    value.map_values(
        |c: char|
            if is_reserved(c) {
                '_'
            } else {
                c
            },
    )
}

/// The name of the installer where neither the caller nor the address gives
/// one.
pub open spec fn default_installer_name() -> Seq<char> {
    "UniCreate-update.exe"@
}

/// The file name that an address gives: what stands after the last slash of
/// the address without its query, trimmed and sanitized, or the default name
/// where that is empty.
pub open spec fn name_from_url(url: Seq<char>) -> Seq<char> {
    let t = trimmed(after_last(before_first(url, '?'), '/'));
    if t.len() == 0 {
        default_installer_name()
    } else {
        sanitized(t)
    }
}

/// The name under which the installer is saved: the caller's name, trimmed
/// and sanitized, unless it is missing or blank; then the name that the
/// address gives.
pub open spec fn installer_name(url: Seq<char>, file_name: Option<Seq<char>>) -> Seq<char> {
    match file_name {
        Some(n) => if trimmed(n).len() > 0 {
            sanitized(trimmed(n))
        } else {
            name_from_url(url)
        },
        None => name_from_url(url),
    }
}

/// The extension of a file name: what follows its last dot, unless the name
/// is `..`, has no dot, or has its only dot at the start.
pub open spec fn extension(name: Seq<char>) -> Option<Seq<char>> {
    let i = last_index(name, '.');
    if name == ".."@ || i <= 0 {
        None
    } else {
        Some(name.skip(i + 1))
    }
}

/// The kind of installer that a file name stands for, by its extension in
/// any letter case.
pub open spec fn installer_kind(name: Seq<char>) -> Option<InstallerKind> {
    match extension(name) {
        Some(ext) => if lowercase_ascii(ext) == "exe"@ {
            Some(InstallerKind::Exe)
        } else if lowercase_ascii(ext) == "msi"@ {
            Some(InstallerKind::Msi)
        } else {
            None
        },
        None => None,
    }
}

/// What a request for a silent update comes to. On any system but Windows it
/// is refused. Otherwise the trimmed address must not be empty and must
/// start with `https://`, and the installer's name must end in `.exe` or
/// `.msi`; the checks are made in this order.
pub open spec fn silent_update(
    download_url: Seq<char>,
    file_name: Option<Seq<char>>,
    platform: Platform,
) -> Result<SilentUpdateView, UpdateErrorKind> {
    let url = trimmed(download_url);
    let name = installer_name(url, file_name);
    if platform != Platform::Windows {
        Err(UpdateErrorKind::UnsupportedPlatform)
    } else if url.len() == 0 {
        Err(UpdateErrorKind::MissingUrl)
    } else if !starts_with(url, "https://"@) {
        Err(UpdateErrorKind::InsecureUrl)
    } else {
        match installer_kind(name) {
            Some(kind) => Ok(SilentUpdateView { download_url: url, installer_name: name, kind }),
            None => Err(UpdateErrorKind::UnsupportedInstaller),
        }
    }
}

/// The lines of the script that run the installer and hand on its exit code
/// if that is not 0.
pub open spec fn install_block(installer_path: Seq<char>, kind: InstallerKind) -> Seq<char> {
    match kind {
        InstallerKind::Msi => "$p = Start-Process -FilePath 'msiexec.exe' -ArgumentList @('/i', '"@
            + quoted(installer_path)
            + "', '/qn', '/norestart') -PassThru -WindowStyle Hidden\n$p.WaitForExit()\nif ($p.ExitCode -ne 0) { exit $p.ExitCode }"@,
        InstallerKind::Exe => "$p = Start-Process -FilePath '"@ + quoted(installer_path)
            + "' -ArgumentList @('/S') -PassThru -WindowStyle Hidden\n$p.WaitForExit()\nif ($p.ExitCode -ne 0) { exit $p.ExitCode }"@,
    }
}

/// The script of a silent update.
pub open spec fn update_script(
    download_url: Seq<char>,
    installer_path: Seq<char>,
    app_path: Seq<char>,
    pid: u32,
    kind: InstallerKind,
) -> Seq<char> {
    "$ErrorActionPreference = 'Stop'\n$ProgressPreference = 'SilentlyContinue'\n$downloadUrl = '"@
        + quoted(download_url) + "'\n$installerPath = '"@ + quoted(installer_path)
        + "'\n$appPath = '"@ + quoted(app_path)
        + "'\nInvoke-WebRequest -Uri $downloadUrl -OutFile $installerPath\nfor ($i = 0; $i -lt 600; $i++) {\n$proc = Get-Process -Id "@
        + decimal_text(pid as nat)
        + " -ErrorAction SilentlyContinue\nif (-not $proc) { break }\nStart-Sleep -Milliseconds 250\n}\n"@
        + install_block(installer_path, kind)
        + "\nStart-Sleep -Seconds 1\nStart-Process -FilePath $appPath\n"@
}

/// The name of the script's file for a time stamp in seconds.
pub open spec fn script_name(stamp: u64) -> Seq<char> {
    "run-update-"@ + decimal_text(stamp as nat) + ".ps1"@
}

fn quote(value: &str) -> (r: Vec<char>)
    ensures
        r@ == quoted(value@),
{
    let v = chars_of(value);
    let doubled = chars_of("''");
    replace_char(&v, '\'', &doubled)
}

/// A text as it stands between single quotes in a script.
pub fn ps_quote(value: &str) -> (r: String)
    ensures
        r@ == quoted(value@),
{
    let q = quote(value);
    string_of(&q)
}

fn reserved(c: char) -> (r: bool)
    ensures
        r == is_reserved(c),
{
    c == '<' || c == '>' || c == ':' || c == '"' || c == '/' || c == '\\' || c == '|' || c == '?'
        || c == '*'
}

fn sanitize(v: &Vec<char>) -> (r: Vec<char>)
    ensures
        r@ == sanitized(v@),
{
    let mut out: Vec<char> = Vec::new();
    let mut i: usize = 0;
    while i < v.len()
        invariant
            i <= v.len(),
            out@ == sanitized(v@).take(i as int),
        decreases v.len() - i,
    {
        let c = if reserved(v[i]) {
            '_'
        } else {
            v[i]
        };
        proof {
            assert(sanitized(v@).take(i + 1) == sanitized(v@).take(i as int).push(c));
        }
        out.push(c);
        i += 1;
    }
    proof {
        assert(sanitized(v@).take(v.len() as int) == sanitized(v@));
    }
    out
}

/// A text as a file name.
pub fn safe_file_name(value: &str) -> (r: String)
    ensures
        r@ == sanitized(value@),
{
    let v = chars_of(value);
    let s = sanitize(&v);
    string_of(&s)
}

fn url_name(url: &Vec<char>) -> (r: Vec<char>)
    ensures
        r@ == name_from_url(url@),
{
    let no_query = take_before_first(url, '?');
    let last = take_after_last(&no_query, '/');
    let t = trim(&last);
    if t.len() == 0 {
        chars_of("UniCreate-update.exe")
    } else {
        sanitize(&t)
    }
}

/// The file name that an address gives.
pub fn file_name_from_download_url(url: &str) -> (r: String)
    ensures
        r@ == name_from_url(url@),
{
    let v = chars_of(url);
    let n = url_name(&v);
    string_of(&n)
}

fn extension_of(name: &Vec<char>) -> (r: Option<Vec<char>>)
    ensures
        match r {
            Some(ext) => extension(name@) == Some(ext@),
            None => extension(name@) is None,
        },
{
    let after = after_last_char(name, '.');
    if is_text(name, "..") || after <= 1 {
        None
    } else {
        Some(slice_of(name, after, name.len()))
    }
}

/// The kind of installer that a file name stands for.
pub fn installer_kind_of(name: &Vec<char>) -> (r: Option<InstallerKind>)
    ensures
        r == installer_kind(name@),
{
    match extension_of(name) {
        Some(ext) => {
            let lower = to_ascii_lowercase(&ext);
            if is_text(&lower, "exe") {
                Some(InstallerKind::Exe)
            } else if is_text(&lower, "msi") {
                Some(InstallerKind::Msi)
            } else {
                None
            }
        },
        None => None,
    }
}

/// Checks a request for a silent update and settles the installer's name and
/// kind.
pub fn start_silent_update(download_url: &str, file_name: Option<&str>, platform: Platform) -> (r:
    Result<SilentUpdate, UpdateError>)
    ensures
        match r {
            Ok(plan) => silent_update(download_url@, opt_str(file_name), platform) == Ok::<
                SilentUpdateView,
                UpdateErrorKind,
            >(plan@),
            Err(e) => silent_update(download_url@, opt_str(file_name), platform) == Err::<
                SilentUpdateView,
                UpdateErrorKind,
            >(e.kind) && e.detail@.len() == 0,
        },
{
    match platform {
        Platform::Windows => {},
        Platform::Other => {
            return Err(UpdateError::plain(UpdateErrorKind::UnsupportedPlatform));
        },
    }
    let url = trim(&chars_of(download_url));
    if url.len() == 0 {
        return Err(UpdateError::plain(UpdateErrorKind::MissingUrl));
    }
    let scheme = chars_of("https://");
    if !has_prefix(&url, &scheme) {
        return Err(UpdateError::plain(UpdateErrorKind::InsecureUrl));
    }
    let given: Option<Vec<char>> = match file_name {
        Some(n) => {
            let t = trim(&chars_of(n));
            if t.len() > 0 {
                Some(sanitize(&t))
            } else {
                None
            }
        },
        None => None,
    };
    let name = match given {
        Some(n) => n,
        None => url_name(&url),
    };
    match installer_kind_of(&name) {
        Some(kind) => Ok(
            SilentUpdate { download_url: string_of(&url), installer_name: string_of(&name), kind },
        ),
        None => Err(UpdateError::plain(UpdateErrorKind::UnsupportedInstaller)),
    }
}

fn push_install_block(out: &mut Vec<char>, installer_path: &str, kind: InstallerKind)
    ensures
        final(out)@ == old(out)@ + install_block(installer_path@, kind),
{
    let q = quote(installer_path);
    let mut part: Vec<char>;
    match kind {
        InstallerKind::Msi => {
            part = chars_of("$p = Start-Process -FilePath 'msiexec.exe' -ArgumentList @('/i', '");
            push_all(&mut part, &q);
            push_str(
                &mut part,
                "', '/qn', '/norestart') -PassThru -WindowStyle Hidden\n$p.WaitForExit()\nif ($p.ExitCode -ne 0) { exit $p.ExitCode }",
            );
        },
        InstallerKind::Exe => {
            part = chars_of("$p = Start-Process -FilePath '");
            push_all(&mut part, &q);
            push_str(
                &mut part,
                "' -ArgumentList @('/S') -PassThru -WindowStyle Hidden\n$p.WaitForExit()\nif ($p.ExitCode -ne 0) { exit $p.ExitCode }",
            );
        },
    }
    push_all(out, &part);
}

/// The script of a silent update: it downloads the installer to
/// `installer_path`, waits for the process `pid` to end, runs the installer
/// and starts the program at `app_path`.
pub fn silent_update_script(
    download_url: &str,
    installer_path: &str,
    app_path: &str,
    pid: u32,
    kind: InstallerKind,
) -> (r: String)
    ensures
        r@ == update_script(download_url@, installer_path@, app_path@, pid, kind),
{
    let mut out = chars_of(
        "$ErrorActionPreference = 'Stop'\n$ProgressPreference = 'SilentlyContinue'\n$downloadUrl = '",
    );
    push_all(&mut out, &quote(download_url));
    push_str(&mut out, "'\n$installerPath = '");
    push_all(&mut out, &quote(installer_path));
    push_str(&mut out, "'\n$appPath = '");
    push_all(&mut out, &quote(app_path));
    push_str(
        &mut out,
        "'\nInvoke-WebRequest -Uri $downloadUrl -OutFile $installerPath\nfor ($i = 0; $i -lt 600; $i++) {\n$proc = Get-Process -Id ",
    );
    push_decimal(&mut out, pid as u64);
    push_str(
        &mut out,
        " -ErrorAction SilentlyContinue\nif (-not $proc) { break }\nStart-Sleep -Milliseconds 250\n}\n",
    );
    push_install_block(&mut out, installer_path, kind);
    push_str(&mut out, "\nStart-Sleep -Seconds 1\nStart-Process -FilePath $appPath\n");
    string_of(&out)
}

/// The name of the script's file for a time stamp in seconds.
pub fn script_file_name(stamp: u64) -> (r: String)
    ensures
        r@ == script_name(stamp),
{
    let mut out = chars_of("run-update-");
    push_decimal(&mut out, stamp);
    push_str(&mut out, ".ps1");
    string_of(&out)
}

} // verus!
