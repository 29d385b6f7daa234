use unicreate::chars::chars_of;
use unicreate::silent_update::{
    file_name_from_download_url, installer_kind_of, ps_quote, safe_file_name, script_file_name,
    silent_update_script, start_silent_update, InstallerKind, Platform,
};
use unicreate::update_error::{UpdateError, UpdateErrorKind};

fn refused(url: &str, name: Option<&str>, platform: Platform) -> UpdateError {
    start_silent_update(url, name, platform).err().expect("refused")
}

#[test]
fn single_quotes_are_doubled() {
    assert_eq!(ps_quote("C:\\Users\\O'Neil\\it''s"), "C:\\Users\\O''Neil\\it''''s");
    assert_eq!(ps_quote(""), "");
}

#[test]
fn characters_that_a_file_name_cannot_hold_become_underscores() {
    assert_eq!(safe_file_name("a<b>c:d\"e/f\\g|h?i*j.exe"), "a_b_c_d_e_f_g_h_i_j.exe");
    assert_eq!(safe_file_name("App Setup (1).exe"), "App Setup (1).exe");
    assert_eq!(safe_file_name(""), "");
}

#[test]
fn the_address_names_the_file() {
    assert_eq!(file_name_from_download_url("https://h/p/App.exe"), "App.exe");
    assert_eq!(file_name_from_download_url("https://h/p/App.exe?x=/y.msi"), "App.exe");
    assert_eq!(file_name_from_download_url("https://h/p/ App:1.exe "), "App_1.exe");
    assert_eq!(file_name_from_download_url("https://h/p/"), "UniCreate-update.exe");
    assert_eq!(file_name_from_download_url("https://h/p/%20?x"), "%20");
    assert_eq!(file_name_from_download_url(""), "UniCreate-update.exe");
    assert_eq!(file_name_from_download_url("App.msi"), "App.msi");
}

#[test]
fn the_kind_of_installer_goes_by_the_extension() {
    let kind = |name: &str| installer_kind_of(&chars_of(name));
    assert_eq!(kind("App.exe"), Some(InstallerKind::Exe));
    assert_eq!(kind("App.EXE"), Some(InstallerKind::Exe));
    assert_eq!(kind("App.Msi"), Some(InstallerKind::Msi));
    assert_eq!(kind("a.b.msi"), Some(InstallerKind::Msi));
    assert_eq!(kind("..exe"), Some(InstallerKind::Exe));
    assert_eq!(kind(".exe"), None);
    assert_eq!(kind("exe"), None);
    assert_eq!(kind("App.exe."), None);
    assert_eq!(kind("App.zip"), None);
    assert_eq!(kind(".."), None);
    assert_eq!(kind("."), None);
    assert_eq!(kind(""), None);
    for name in ["App.exe", "..exe", ".exe", "a.", "..", ".", "", "a.b.MSI"] {
        let ext = std::path::Path::new(name)
            .extension()
            .and_then(|e| e.to_str())
            .unwrap_or("")
            .to_ascii_lowercase();
        let want = match ext.as_str() {
            "exe" => Some(InstallerKind::Exe),
            "msi" => Some(InstallerKind::Msi),
            _ => None,
        };
        assert_eq!(kind(name), want, "{:?}", name);
    }
}

#[test]
fn a_request_is_checked_in_order() {
    let e = refused("", None, Platform::Other);
    assert_eq!(e.kind, UpdateErrorKind::UnsupportedPlatform);
    assert_eq!(e.message(), "Silent update is currently supported on Windows only");
    assert_eq!(
        refused("https://h/App.exe", Some("App.exe"), Platform::Other).kind,
        UpdateErrorKind::UnsupportedPlatform
    );
    let e = refused("   ", Some("App.exe"), Platform::Windows);
    assert_eq!(e.kind, UpdateErrorKind::MissingUrl);
    assert_eq!(e.message(), "Missing update download URL");
    let e = refused("http://h/App.exe", Some("App.zip"), Platform::Windows);
    assert_eq!(e.kind, UpdateErrorKind::InsecureUrl);
    assert_eq!(e.message(), "Update URL must use https://");
    assert_eq!(refused("HTTPS://h/App.exe", None, Platform::Windows).kind, UpdateErrorKind::InsecureUrl);
    let e = refused("https://h/App.zip", None, Platform::Windows);
    assert_eq!(e.kind, UpdateErrorKind::UnsupportedInstaller);
    assert_eq!(e.message(), "Unsupported installer format. Expected .exe or .msi");
    assert_eq!(
        refused("https://h/App.exe", Some("App.zip"), Platform::Windows).kind,
        UpdateErrorKind::UnsupportedInstaller
    );
}

#[test]
fn a_request_that_passes_names_address_file_and_kind() {
    let plan = start_silent_update("  https://h/p/App.msi?x=1 ", None, Platform::Windows).ok().expect("accepted");
    assert_eq!(plan.download_url, "https://h/p/App.msi?x=1");
    assert_eq!(plan.installer_name, "App.msi");
    assert_eq!(plan.kind, InstallerKind::Msi);
    let plan =
        start_silent_update("https://h/p/App.msi", Some(" Setup:x64.EXE "), Platform::Windows).ok().expect("accepted");
    assert_eq!(plan.installer_name, "Setup_x64.EXE");
    assert_eq!(plan.kind, InstallerKind::Exe);
    let plan = start_silent_update("https://h/p/App.msi", Some("   "), Platform::Windows).ok().expect("accepted");
    assert_eq!(plan.installer_name, "App.msi");
    let plan = start_silent_update("https://h/p/", None, Platform::Windows).ok().expect("accepted");
    assert_eq!(plan.installer_name, "UniCreate-update.exe");
    assert_eq!(plan.kind, InstallerKind::Exe);
}

#[test]
fn the_script_for_an_exe() {
    let script = silent_update_script(
        "https://h/App.exe?a='b'",
        "C:\\Temp\\unicreate-updater\\App.exe",
        "C:\\Users\\O'Neil\\UniCreate.exe",
        4242,
        InstallerKind::Exe,
    );
    assert_eq!(
        script,
        "$ErrorActionPreference = 'Stop'\n\
$ProgressPreference = 'SilentlyContinue'\n\
$downloadUrl = 'https://h/App.exe?a=''b'''\n\
$installerPath = 'C:\\Temp\\unicreate-updater\\App.exe'\n\
$appPath = 'C:\\Users\\O''Neil\\UniCreate.exe'\n\
Invoke-WebRequest -Uri $downloadUrl -OutFile $installerPath\n\
for ($i = 0; $i -lt 600; $i++) {\n\
  $proc = Get-Process -Id 4242 -ErrorAction SilentlyContinue\n\
  if (-not $proc) { break }\n\
  Start-Sleep -Milliseconds 250\n\
}\n\
$p = Start-Process -FilePath 'C:\\Temp\\unicreate-updater\\App.exe' -ArgumentList @('/S') -PassThru -WindowStyle Hidden\n\
$p.WaitForExit()\n\
if ($p.ExitCode -ne 0) { exit $p.ExitCode }\n\
Start-Sleep -Seconds 1\n\
Start-Process -FilePath $appPath\n"
    );
}

#[test]
fn the_script_for_an_msi() {
    let script = silent_update_script("https://h/App.msi", "C:\\T\\App.msi", "C:\\A.exe", 0, InstallerKind::Msi);
    assert_eq!(
        script,
        format!(
            "$ErrorActionPreference = 'Stop'\n\
$ProgressPreference = 'SilentlyContinue'\n\
$downloadUrl = '{download_url}'\n\
$installerPath = '{installer_path}'\n\
$appPath = '{app_path}'\n\
Invoke-WebRequest -Uri $downloadUrl -OutFile $installerPath\n\
for ($i = 0; $i -lt 600; $i++) {{\n\
  $proc = Get-Process -Id {current_pid} -ErrorAction SilentlyContinue\n\
  if (-not $proc) {{ break }}\n\
  Start-Sleep -Milliseconds 250\n\
}}\n\
{install_block}\n\
Start-Sleep -Seconds 1\n\
Start-Process -FilePath $appPath\n",
            download_url = "https://h/App.msi",
            installer_path = "C:\\T\\App.msi",
            app_path = "C:\\A.exe",
            current_pid = 0,
            install_block = "$p = Start-Process -FilePath 'msiexec.exe' -ArgumentList @('/i', 'C:\\T\\App.msi', '/qn', '/norestart') -PassThru -WindowStyle Hidden\n$p.WaitForExit()\nif ($p.ExitCode -ne 0) { exit $p.ExitCode }"
        )
    );
    assert!(script.contains("{\n$proc = Get-Process -Id 0 "));
}

#[test]
fn the_script_file_is_named_by_the_time() {
    assert_eq!(script_file_name(1700000000), "run-update-1700000000.ps1");
    assert_eq!(script_file_name(0), "run-update-0.ps1");
}

#[test]
fn every_kind_of_update_error_has_its_message() {
    let cases = [
        (UpdateErrorKind::PrepareTempDir, "Cannot prepare temp dir: x"),
        (UpdateErrorKind::LocateApp, "Cannot locate app executable: x"),
        (UpdateErrorKind::WriteScript, "Cannot write updater script: x"),
        (UpdateErrorKind::StartUpdater, "Cannot start updater: x"),
        (UpdateErrorKind::HttpClient, "HTTP client error: x"),
        (UpdateErrorKind::Download, "Download failed: x"),
        (UpdateErrorKind::CreateTempDir, "Cannot create temp dir: x"),
        (UpdateErrorKind::CreateFile, "Cannot create file: x"),
        (UpdateErrorKind::Stream, "Download stream error: x"),
        (UpdateErrorKind::Write, "Write error: x"),
        (UpdateErrorKind::Flush, "Flush error: x"),
        (UpdateErrorKind::RunInstaller, "Failed to run installer: x"),
        (UpdateErrorKind::Wait, "Wait error: x"),
        (UpdateErrorKind::Installer, "Installer error: x"),
        (UpdateErrorKind::Relaunch, "Failed to relaunch: x"),
    ];
    for (kind, message) in cases {
        assert_eq!(UpdateError::with_detail(kind, "x").message(), message);
    }
    assert_eq!(UpdateError::plain(UpdateErrorKind::NoArguments).message(), "No update arguments");
    assert_eq!(
        UpdateError::plain(UpdateErrorKind::MsiUnsupported).message(),
        "MSI install only supported on Windows"
    );
    assert_eq!(
        UpdateError::plain(UpdateErrorKind::ExeUnsupported).message(),
        "EXE install only supported on Windows"
    );
    assert_eq!(UpdateError::download_status(503).message(), "Download returned status 503 Service Unavailable");
    for code in [Some(0), Some(1), Some(-1), Some(1603), Some(i32::MAX), Some(i32::MIN), None] {
        assert_eq!(
            UpdateError::installer_exit(code).message(),
            format!("Installer exited with code {:?}", code)
        );
    }
}
