use unicreate::silent_update::Platform;
use unicreate::update_error::UpdateErrorKind;
use unicreate::updater::{
    download_percent, get_update_args, start_update, Phase, UpdateCommand, UpdateEvent, UpdateRun,
    UpdateSession,
};
use unicreate::updater_args::{parse_args, UpdateArgs};

fn line(list: &[&str]) -> Vec<String> {
    list.iter().map(|s| s.to_string()).collect()
}

fn parsed(list: &[&str]) -> Option<(String, String, String, u32)> {
    parse_args(&line(list)).map(|a| (a.url, a.name, a.app, a.pid))
}

fn args(name: &str) -> UpdateArgs {
    UpdateArgs {
        url: "https://example.com/dl/App-Setup.exe".to_string(),
        name: name.to_string(),
        app: "C:\\Apps\\UniCreate.exe".to_string(),
        pid: 4242,
    }
}

fn shots(v: &[UpdateSession]) -> Vec<(&str, u32, &str)> {
    v.iter().map(|s| (s.phase.name(), s.percent, s.detail.as_str())).collect()
}

fn failure(run: &UpdateRun) -> String {
    match run.command() {
        UpdateCommand::Fail(e) => e.message(),
        other => panic!("a failure is expected, not {:?}", other),
    }
}

/// A run that has come to the download, of the given length.
fn receiving(total: Option<u64>, platform: Platform) -> UpdateRun {
    receiving_named("", total, platform)
}

/// A run that has come to the download of a file that is saved under the
/// given name.
fn receiving_named(name: &str, total: Option<u64>, platform: Platform) -> UpdateRun {
    let (mut run, _) = start_update(args(name), platform);
    run.advance(UpdateEvent::ProcessGone);
    run.advance(UpdateEvent::Connected { status: 200, content_length: total });
    run
}

#[test]
fn arguments_are_read_from_the_command_line() {
    assert_eq!(
        parsed(&["updater", "--url", "https://h/a.exe", "--name", "a.exe", "--app", "C:\\a.exe", "--pid", "42"]),
        Some(("https://h/a.exe".to_string(), "a.exe".to_string(), "C:\\a.exe".to_string(), 42))
    );
    assert_eq!(
        parsed(&["updater", "--pid", "+7", "--app", "app", "x", "--url", "u"]),
        Some(("u".to_string(), String::new(), "app".to_string(), 7))
    );
    assert_eq!(
        parsed(&["updater", "--url", "first", "--url", "second", "--app", "a", "--pid", "1"]),
        Some(("second".to_string(), String::new(), "a".to_string(), 1))
    );
    assert_eq!(
        parsed(&["updater", "--url", "--app", "--app", "a", "--pid", "1"]),
        Some(("--app".to_string(), String::new(), "a".to_string(), 1))
    );
}

#[test]
fn arguments_are_missing_without_url_app_or_process() {
    assert_eq!(parsed(&[]), None);
    assert_eq!(parsed(&["updater"]), None);
    assert_eq!(parsed(&["--url", "u", "--app", "a", "--pid", "1"]), None);
    assert_eq!(parsed(&["updater", "--app", "a", "--pid", "1"]), None);
    assert_eq!(parsed(&["updater", "--url", "u", "--pid", "1"]), None);
    assert_eq!(parsed(&["updater", "--url", "u", "--app", "a"]), None);
    assert_eq!(parsed(&["updater", "--url", "u", "--app", "a", "--pid"]), None);
    assert_eq!(parsed(&["updater", "--url", "u", "--app", "a", "--pid", "x"]), None);
    assert_eq!(parsed(&["updater", "--url", "u", "--app", "a", "--pid", "-1"]), None);
    assert_eq!(parsed(&["updater", "--url", "u", "--app", "a", "--pid", "4294967296"]), None);
    assert_eq!(parsed(&["updater", "--url", "u", "--app", "a", "--pid", "1", "--pid", "x"]), None);
    assert_eq!(
        parsed(&["updater", "--url", "u", "--app", "a", "--pid", "4294967295"]).map(|a| a.3),
        Some(u32::MAX)
    );
}

#[test]
fn a_run_without_arguments_is_refused() {
    let e = get_update_args(None).err().expect("refused");
    assert_eq!(e.kind, UpdateErrorKind::NoArguments);
    assert_eq!(e.message(), "No update arguments");
    assert_eq!(get_update_args(Some(args("x"))).ok().map(|a| a.pid), Some(4242));
}

#[test]
fn percent_is_whole_and_at_most_a_hundred() {
    assert_eq!(download_percent(0, 0), 0);
    assert_eq!(download_percent(500, 0), 0);
    assert_eq!(download_percent(0, 100), 0);
    assert_eq!(download_percent(1, 100), 1);
    assert_eq!(download_percent(29, 100), 29);
    assert_eq!(download_percent(99, 100), 99);
    assert_eq!(download_percent(100, 100), 100);
    assert_eq!(download_percent(101, 100), 100);
    assert_eq!(download_percent(1, 3), 33);
    assert_eq!(download_percent(2, 3), 66);
    assert_eq!(download_percent(199, 200), 99);
    assert_eq!(download_percent(u64::MAX - 1, u64::MAX), 99);
    assert_eq!(download_percent(u64::MAX, u64::MAX), 100);
    assert_eq!(download_percent(u64::MAX / 2, u64::MAX), 49);
}

#[test]
fn a_run_goes_through_its_phases_in_order() {
    let (mut run, first) = start_update(args(""), Platform::Windows);
    assert_eq!(shots(&[first]), vec![("waiting", 0, "Waiting for UniCreate to close...")]);

    assert!(matches!(run.command(), UpdateCommand::CheckProcess { pid: 4242 }));
    assert!(run.advance(UpdateEvent::ProcessRunning).is_empty());
    assert!(matches!(run.command(), UpdateCommand::Sleep { millis: 200 }));
    assert!(run.advance(UpdateEvent::Slept).is_empty());
    assert!(matches!(run.command(), UpdateCommand::CheckProcess { pid: 4242 }));

    let s = run.advance(UpdateEvent::ProcessGone);
    assert_eq!(
        shots(&s),
        vec![("waiting", 100, "UniCreate closed."), ("downloading", 0, "Starting download...")]
    );
    assert!(matches!(run.command(), UpdateCommand::Connect { url } if url == "https://example.com/dl/App-Setup.exe"));

    assert!(run.advance(UpdateEvent::Connected { status: 200, content_length: Some(1000) }).is_empty());
    match run.command() {
        UpdateCommand::Receive { directory, file_name } => {
            assert_eq!(directory, "unicreate-updater");
            assert_eq!(file_name, "App-Setup.exe");
        }
        other => panic!("a download is expected, not {:?}", other),
    }

    assert!(run.advance(UpdateEvent::Chunk { len: 9 }).is_empty());
    assert_eq!(shots(&run.advance(UpdateEvent::Chunk { len: 1 })), vec![("downloading", 1, "Downloading... 1%")]);
    assert!(run.advance(UpdateEvent::Chunk { len: 9 }).is_empty());
    assert_eq!(
        shots(&run.advance(UpdateEvent::Chunk { len: 481 })),
        vec![("downloading", 50, "Downloading... 50%")]
    );
    assert_eq!(
        shots(&run.advance(UpdateEvent::Chunk { len: 500 })),
        vec![("downloading", 100, "Downloading... 100%")]
    );
    assert!(matches!(run.command(), UpdateCommand::Receive { .. }));

    let s = run.advance(UpdateEvent::Finished {
        installer_path: "C:\\Temp\\unicreate-updater\\App-Setup.exe".to_string(),
    });
    assert_eq!(
        shots(&s),
        vec![("downloading", 100, "Download complete."), ("installing", 0, "Installing update...")]
    );
    match run.command() {
        UpdateCommand::RunInstaller { program, arguments } => {
            assert_eq!(program, "C:\\Temp\\unicreate-updater\\App-Setup.exe");
            assert_eq!(arguments, vec!["/S"]);
        }
        other => panic!("an installer is expected, not {:?}", other),
    }

    let s = run.advance(UpdateEvent::InstallerExited { success: true, code: Some(0) });
    assert_eq!(
        shots(&s),
        vec![("installing", 100, "Installation complete."), ("relaunching", 100, "Launching UniCreate...")]
    );
    assert!(matches!(run.command(), UpdateCommand::Sleep { millis: 500 }));
    assert!(run.advance(UpdateEvent::Slept).is_empty());
    assert!(matches!(run.command(), UpdateCommand::Launch { program } if program == "C:\\Apps\\UniCreate.exe"));
    assert_eq!(shots(&run.advance(UpdateEvent::Launched)), vec![("relaunching", 100, "UniCreate launched.")]);
    assert!(matches!(run.command(), UpdateCommand::Sleep { millis: 300 }));
    assert!(run.advance(UpdateEvent::Slept).is_empty());
    assert!(matches!(run.command(), UpdateCommand::Exit { code: 0 }));
    assert!(run.advance(UpdateEvent::Slept).is_empty());
    assert!(run.advance(UpdateEvent::Failed { kind: UpdateErrorKind::Relaunch, detail: "late".to_string() }).is_empty());
    assert!(matches!(run.command(), UpdateCommand::Exit { code: 0 }));
}

#[test]
fn without_a_length_the_percentage_stays_at_zero() {
    let mut run = receiving(None, Platform::Windows);
    for _ in 0..5 {
        assert!(run.advance(UpdateEvent::Chunk { len: 1 << 20 }).is_empty());
    }
    let s = run.advance(UpdateEvent::Finished { installer_path: "p".to_string() });
    assert_eq!(s[0].percent, 100);
}

#[test]
fn the_given_name_is_used_for_the_download() {
    let (mut run, _) = start_update(args("Given.msi"), Platform::Windows);
    run.advance(UpdateEvent::ProcessGone);
    run.advance(UpdateEvent::Connected { status: 200, content_length: None });
    assert!(matches!(run.command(), UpdateCommand::Receive { file_name, .. } if file_name == "Given.msi"));
}

#[test]
fn an_msi_is_run_by_the_installer_service() {
    for name in ["App.MSI", "a.b.msi", "sub/App.msi", "sub\\App.Msi", "dir.x/..msi"] {
        let mut run = receiving_named(name, Some(10), Platform::Windows);
        run.advance(UpdateEvent::Finished { installer_path: "C:\\T\\App.MSI".to_string() });
        match run.command() {
            UpdateCommand::RunInstaller { program, arguments } => {
                assert_eq!(program, "msiexec.exe", "{}", name);
                assert_eq!(arguments, vec!["/i", "C:\\T\\App.MSI", "/qn", "/norestart"]);
            }
            other => panic!("an installer is expected, not {:?}", other),
        }
    }
}

#[test]
fn anything_but_an_msi_is_run_as_a_program() {
    for name in ["App", "App.zip", "App.exe", "App.msi.", ".msi", "sub/.msi", "dir.msi/App", "dir.msi\\App", ".."] {
        let mut run = receiving_named(name, Some(10), Platform::Windows);
        run.advance(UpdateEvent::Finished { installer_path: "C:\\T\\App".to_string() });
        match run.command() {
            UpdateCommand::RunInstaller { program, arguments } => {
                assert_eq!(program, "C:\\T\\App", "{}", name);
                assert_eq!(arguments, vec!["/S"]);
            }
            other => panic!("an installer is expected, not {:?}", other),
        }
    }
}

#[test]
fn without_a_name_the_kind_goes_by_the_end_of_the_address() {
    let with_url = |url: &str| {
        let mut a = args("");
        a.url = url.to_string();
        let (mut run, _) = start_update(a, Platform::Windows);
        run.advance(UpdateEvent::ProcessGone);
        run.advance(UpdateEvent::Connected { status: 200, content_length: None });
        run.advance(UpdateEvent::Finished { installer_path: "p".to_string() });
        match run.command() {
            UpdateCommand::RunInstaller { program, .. } => program,
            other => panic!("an installer is expected, not {:?}", other),
        }
    };
    assert_eq!(with_url("https://example.com/dl/App.msi"), "msiexec.exe");
    assert_eq!(with_url("https://example.com/dl/App.exe"), "p");
    assert_eq!(with_url("https://example.com/dl/"), "p");
}

#[test]
fn a_run_fails_where_a_step_fails() {
    let (mut run, _) = start_update(args(""), Platform::Windows);
    run.advance(UpdateEvent::ProcessGone);
    assert!(run.advance(UpdateEvent::Connected { status: 404, content_length: Some(3) }).is_empty());
    assert_eq!(failure(&run), "Download returned status 404 Not Found");

    let (mut run, _) = start_update(args(""), Platform::Windows);
    run.advance(UpdateEvent::ProcessGone);
    run.advance(UpdateEvent::Failed { kind: UpdateErrorKind::Download, detail: "dns".to_string() });
    assert_eq!(failure(&run), "Download failed: dns");

    let mut run = receiving(Some(10), Platform::Windows);
    run.advance(UpdateEvent::Failed { kind: UpdateErrorKind::Stream, detail: "reset".to_string() });
    assert_eq!(failure(&run), "Download stream error: reset");
    assert!(run.advance(UpdateEvent::Chunk { len: 5 }).is_empty());
    assert_eq!(failure(&run), "Download stream error: reset");

    let mut run = receiving(Some(10), Platform::Windows);
    run.advance(UpdateEvent::Finished { installer_path: "p.exe".to_string() });
    assert!(run.advance(UpdateEvent::InstallerExited { success: false, code: Some(1603) }).is_empty());
    assert_eq!(failure(&run), "Installer exited with code Some(1603)");

    let mut run = receiving(Some(10), Platform::Windows);
    run.advance(UpdateEvent::Finished { installer_path: "p.exe".to_string() });
    run.advance(UpdateEvent::InstallerExited { success: false, code: None });
    assert_eq!(failure(&run), "Installer exited with code None");
}

#[test]
fn installers_are_run_on_windows_only() {
    let mut run = receiving_named("p.msi", Some(10), Platform::Other);
    let s = run.advance(UpdateEvent::Finished { installer_path: "p.msi".to_string() });
    assert_eq!(s.len(), 2);
    assert_eq!(failure(&run), "MSI install only supported on Windows");
    let mut run = receiving_named("p.exe", Some(10), Platform::Other);
    run.advance(UpdateEvent::Finished { installer_path: "p.exe".to_string() });
    assert_eq!(failure(&run), "EXE install only supported on Windows");
}

#[test]
fn events_that_do_not_answer_the_command_change_nothing() {
    let (mut run, _) = start_update(args(""), Platform::Windows);
    assert!(run.advance(UpdateEvent::Slept).is_empty());
    assert!(run.advance(UpdateEvent::Chunk { len: 5 }).is_empty());
    assert!(run.advance(UpdateEvent::Launched).is_empty());
    assert!(run.advance(UpdateEvent::InstallerExited { success: true, code: Some(0) }).is_empty());
    assert!(matches!(run.command(), UpdateCommand::CheckProcess { pid: 4242 }));
    assert_eq!(Phase::Waiting.name(), "waiting");
    assert_eq!(Phase::Relaunching.name(), "relaunching");
}
