//! Failures of an update of the application.

use crate::chars::{chars_of, push_str, string_of};
use crate::decimal::{decimal_text, push_decimal};
use crate::http::{push_status, status_text};
use vstd::prelude::*;

verus! {

/// What can go wrong in an update.
#[derive(Debug, Clone, Copy, PartialEq, Eq, Structural)]
pub enum UpdateErrorKind {
    /// No address to download from.
    MissingUrl,
    /// The address does not start with `https://`.
    InsecureUrl,
    /// The file to download is neither an `.exe` nor an `.msi`.
    UnsupportedInstaller,
    /// An update by script is not offered on this system.
    UnsupportedPlatform,
    /// The directory for the download could not be made ready for the script.
    PrepareTempDir,
    /// The running program could not be found.
    LocateApp,
    /// The script could not be written.
    WriteScript,
    /// The script could not be started.
    StartUpdater,
    /// The updater was started without its arguments.
    NoArguments,
    /// The client for the download could not be set up.
    HttpClient,
    /// The download could not be started.
    Download,
    /// The download was answered with a status that does not report success.
    DownloadStatus,
    /// The directory for the download could not be created.
    CreateTempDir,
    /// The file for the download could not be created.
    CreateFile,
    /// The download broke off.
    Stream,
    /// A part of the download could not be written.
    Write,
    /// The end of the download could not be written.
    Flush,
    /// An `.msi` cannot be installed on this system.
    MsiUnsupported,
    /// An `.exe` cannot be installed on this system.
    ExeUnsupported,
    /// The installer could not be started.
    RunInstaller,
    /// Waiting for the installer was interrupted.
    Wait,
    /// The installer could not be waited for.
    Installer,
    /// The installer reported a failure.
    InstallerExit,
    /// The application could not be started again.
    Relaunch,
}

/// Why an update failed: the kind of failure and, for most kinds, a detail
/// that ends the message.
#[derive(Debug, Clone)]
pub struct UpdateError {
    pub kind: UpdateErrorKind,
    pub detail: String,
}

impl View for UpdateError {
    type V = (UpdateErrorKind, Seq<char>);

    open spec fn view(&self) -> (UpdateErrorKind, Seq<char>) {
        (self.kind, self.detail@)
    }
}

/// What the message of an error says before the detail.
pub open spec fn update_message_head(kind: UpdateErrorKind) -> Seq<char> {
    match kind {
        UpdateErrorKind::MissingUrl => "Missing update download URL"@,
        UpdateErrorKind::InsecureUrl => "Update URL must use https://"@,
        UpdateErrorKind::UnsupportedInstaller =>
            "Unsupported installer format. Expected .exe or .msi"@,
        UpdateErrorKind::UnsupportedPlatform =>
            "Silent update is currently supported on Windows only"@,
        UpdateErrorKind::PrepareTempDir => "Cannot prepare temp dir: "@,
        UpdateErrorKind::LocateApp => "Cannot locate app executable: "@,
        UpdateErrorKind::WriteScript => "Cannot write updater script: "@,
        UpdateErrorKind::StartUpdater => "Cannot start updater: "@,
        UpdateErrorKind::NoArguments => "No update arguments"@,
        UpdateErrorKind::HttpClient => "HTTP client error: "@,
        UpdateErrorKind::Download => "Download failed: "@,
        UpdateErrorKind::DownloadStatus => "Download returned status "@,
        UpdateErrorKind::CreateTempDir => "Cannot create temp dir: "@,
        UpdateErrorKind::CreateFile => "Cannot create file: "@,
        UpdateErrorKind::Stream => "Download stream error: "@,
        UpdateErrorKind::Write => "Write error: "@,
        UpdateErrorKind::Flush => "Flush error: "@,
        UpdateErrorKind::MsiUnsupported => "MSI install only supported on Windows"@,
        UpdateErrorKind::ExeUnsupported => "EXE install only supported on Windows"@,
        UpdateErrorKind::RunInstaller => "Failed to run installer: "@,
        UpdateErrorKind::Wait => "Wait error: "@,
        UpdateErrorKind::Installer => "Installer error: "@,
        UpdateErrorKind::InstallerExit => "Installer exited with code "@,
        UpdateErrorKind::Relaunch => "Failed to relaunch: "@,
    }
}

/// The message of an error.
pub open spec fn update_message(e: (UpdateErrorKind, Seq<char>)) -> Seq<char> {
    update_message_head(e.0) + e.1
}

/// How an exit code is shown: `Some(` and the number and `)`, or `None` for
/// an installer that a signal ended.
pub open spec fn exit_code_text(code: Option<i32>) -> Seq<char> {
    match code {
        Some(n) => if n < 0 {
            "Some(-"@ + decimal_text((-n) as nat) + ")"@
        } else {
            "Some("@ + decimal_text(n as nat) + ")"@
        },
        None => "None"@,
    }
}

fn head_of(kind: UpdateErrorKind) -> (r: &'static str)
    ensures
        r@ == update_message_head(kind),
{
    match kind {
        UpdateErrorKind::MissingUrl => "Missing update download URL",
        UpdateErrorKind::InsecureUrl => "Update URL must use https://",
        UpdateErrorKind::UnsupportedInstaller =>
            "Unsupported installer format. Expected .exe or .msi",
        UpdateErrorKind::UnsupportedPlatform =>
            "Silent update is currently supported on Windows only",
        UpdateErrorKind::PrepareTempDir => "Cannot prepare temp dir: ",
        UpdateErrorKind::LocateApp => "Cannot locate app executable: ",
        UpdateErrorKind::WriteScript => "Cannot write updater script: ",
        UpdateErrorKind::StartUpdater => "Cannot start updater: ",
        UpdateErrorKind::NoArguments => "No update arguments",
        UpdateErrorKind::HttpClient => "HTTP client error: ",
        UpdateErrorKind::Download => "Download failed: ",
        UpdateErrorKind::DownloadStatus => "Download returned status ",
        UpdateErrorKind::CreateTempDir => "Cannot create temp dir: ",
        UpdateErrorKind::CreateFile => "Cannot create file: ",
        UpdateErrorKind::Stream => "Download stream error: ",
        UpdateErrorKind::Write => "Write error: ",
        UpdateErrorKind::Flush => "Flush error: ",
        UpdateErrorKind::MsiUnsupported => "MSI install only supported on Windows",
        UpdateErrorKind::ExeUnsupported => "EXE install only supported on Windows",
        UpdateErrorKind::RunInstaller => "Failed to run installer: ",
        UpdateErrorKind::Wait => "Wait error: ",
        UpdateErrorKind::Installer => "Installer error: ",
        UpdateErrorKind::InstallerExit => "Installer exited with code ",
        UpdateErrorKind::Relaunch => "Failed to relaunch: ",
    }
}

impl UpdateError {
    /// An error of a kind that needs no detail.
    pub fn plain(kind: UpdateErrorKind) -> (r: UpdateError)
        ensures
            r@ == (kind, Seq::<char>::empty()),
    {
        UpdateError { kind, detail: String::new() }
    }

    /// An error with the detail that the caller reports.
    pub fn with_detail(kind: UpdateErrorKind, detail: &str) -> (r: UpdateError)
        ensures
            r@ == (kind, detail@),
    {
        UpdateError { kind, detail: detail.to_owned() }
    }

    /// The error for a download that was answered with the given status.
    pub fn download_status(status: u16) -> (r: UpdateError)
        ensures
            r@ == (UpdateErrorKind::DownloadStatus, status_text(status)),
    {
        let mut out: Vec<char> = Vec::new();
        push_status(&mut out, status);
        UpdateError { kind: UpdateErrorKind::DownloadStatus, detail: string_of(&out) }
    }

    /// The error for an installer that ended with the given exit code.
    pub fn installer_exit(code: Option<i32>) -> (r: UpdateError)
        ensures
            r@ == (UpdateErrorKind::InstallerExit, exit_code_text(code)),
    {
        let detail = match code {
            Some(n) => {
                let mut out = chars_of("Some(");
                if n < 0 {
                    out.push('-');
                    proof {
                        reveal_strlit("Some(");
                        reveal_strlit("Some(-");
                        assert(out@ == "Some(-"@);
                    }
                    push_decimal(&mut out, (-(n as i64)) as u64);
                } else {
                    push_decimal(&mut out, n as u64);
                }
                push_str(&mut out, ")");
                string_of(&out)
            },
            None => "None".to_owned(),
        };
        UpdateError { kind: UpdateErrorKind::InstallerExit, detail }
    }

    /// The message of the error.
    pub fn message(&self) -> (r: String)
        ensures
            r@ == update_message(self@),
    {
        let mut out = chars_of(head_of(self.kind));
        push_str(&mut out, self.detail.as_str());
        string_of(&out)
    }
}

} // verus!
