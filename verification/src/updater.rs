//! The run of the updater: it waits for the application to end, downloads
//! the installer, runs it and starts the application again.
//!
//! The run is a state machine. [`UpdateRun::command`] says what the caller
//! has to do next, and [`UpdateRun::advance`] takes in what came of it and
//! returns the progress snapshots to show, in order.

use crate::chars::{chars_of, push_str, string_of, texts};
use crate::decimal::{decimal_text, push_decimal};
use crate::http::{is_success, status_text};
use crate::silent_update::{installer_kind, installer_kind_of, InstallerKind, Platform};
use crate::text::{after_last, take_after_last};
use crate::update_error::{exit_code_text, UpdateError, UpdateErrorKind};
use crate::updater_args::{UpdateArgs, UpdateArgsView};
use vstd::prelude::*;

verus! {

/// The phases of a run, in order.
#[derive(Debug, Clone, Copy, PartialEq, Eq, Structural)]
pub enum Phase {
    Waiting,
    Downloading,
    Installing,
    Relaunching,
}

/// The position of a phase in the order of the run.
pub open spec fn phase_rank(p: Phase) -> nat {
    match p {
        Phase::Waiting => 0,
        Phase::Downloading => 1,
        Phase::Installing => 2,
        Phase::Relaunching => 3,
    }
}

/// The name of a phase as observers see it.
pub open spec fn phase_name(p: Phase) -> Seq<char> {
    match p {
        Phase::Waiting => "waiting"@,
        Phase::Downloading => "downloading"@,
        Phase::Installing => "installing"@,
        Phase::Relaunching => "relaunching"@,
    }
}

impl Phase {
    /// The name of the phase as observers see it.
    pub fn name(&self) -> (r: &'static str)
        ensures
            r@ == phase_name(*self),
    {
        match self {
            Phase::Waiting => "waiting",
            Phase::Downloading => "downloading",
            Phase::Installing => "installing",
            Phase::Relaunching => "relaunching",
        }
    }
}

/// A snapshot of the progress of a run.
#[derive(Debug, Clone)]
pub struct UpdateSession {
    pub phase: Phase,
    pub percent: u32,
    pub detail: String,
}

/// The texts of an [`UpdateSession`].
pub struct UpdateSessionView {
    pub phase: Phase,
    pub percent: u32,
    pub detail: Seq<char>,
}

impl View for UpdateSession {
    type V = UpdateSessionView;

    open spec fn view(&self) -> UpdateSessionView {
        UpdateSessionView { phase: self.phase, percent: self.percent, detail: self.detail@ }
    }
}

/// The views of a list of snapshots, in order.
pub open spec fn session_views(v: Seq<UpdateSession>) -> Seq<UpdateSessionView> {
    v.map_values(|s: UpdateSession| s@)
}

/// Where a run stands.
#[derive(Debug, Clone, Copy, PartialEq, Eq, Structural)]
pub enum RunStep {
    /// Asking whether the application still runs.
    Waiting,
    /// Pausing before asking again.
    WaitingPause,
    /// Asking for the download.
    Connecting,
    /// Receiving the download.
    Receiving,
    /// Running the installer.
    Installing,
    /// Pausing before the application is started.
    RelaunchPause,
    /// Starting the application.
    Relaunching,
    /// Pausing before the updater ends.
    ExitPause,
    /// The run is over.
    Done,
    /// The run has failed.
    Failed,
}

/// What the caller reports after it has carried out a command.
#[derive(Debug, Clone)]
pub enum UpdateEvent {
    /// The process still runs.
    ProcessRunning,
    /// The process has ended.
    ProcessGone,
    /// The pause is over.
    Slept,
    /// The download was answered with this status and, if the answer says
    /// so, this length.
    Connected { status: u16, content_length: Option<u64> },
    /// A piece of this length was received and written.
    Chunk { len: u64 },
    /// The download is complete: the installer is at this path.
    Finished { installer_path: String },
    /// The installer has ended.
    InstallerExited { success: bool, code: Option<i32> },
    /// The application was started.
    Launched,
    /// The command could not be carried out.
    Failed { kind: UpdateErrorKind, detail: String },
}

/// What the caller has to do next.
#[derive(Debug, Clone)]
pub enum UpdateCommand {
    /// Find out whether the process runs; report `ProcessRunning` or
    /// `ProcessGone`.
    CheckProcess { pid: u32 },
    /// Pause; report `Slept`.
    Sleep { millis: u64 },
    /// Ask for the download; report `Connected`.
    Connect { url: String },
    /// Receive the next piece into the file of this name in this directory
    /// below the system's directory for temporary files; report `Chunk`, or
    /// `Finished` once there is no more.
    Receive { directory: String, file_name: String },
    /// Run the installer without a window and wait for it; report
    /// `InstallerExited`.
    RunInstaller { program: String, arguments: Vec<String> },
    /// Start the application; report `Launched`.
    Launch { program: String },
    /// End the updater.
    Exit { code: i32 },
    /// The run has failed.
    Fail(UpdateError),
}

/// The texts of an [`UpdateCommand`].
pub enum UpdateCommandView {
    CheckProcess { pid: u32 },
    Sleep { millis: u64 },
    Connect { url: Seq<char> },
    Receive { directory: Seq<char>, file_name: Seq<char> },
    RunInstaller { program: Seq<char>, arguments: Seq<Seq<char>> },
    Launch { program: Seq<char> },
    Exit { code: i32 },
    Fail((UpdateErrorKind, Seq<char>)),
}

impl View for UpdateCommand {
    type V = UpdateCommandView;

    open spec fn view(&self) -> UpdateCommandView {
        match self {
            UpdateCommand::CheckProcess { pid } => UpdateCommandView::CheckProcess { pid: *pid },
            UpdateCommand::Sleep { millis } => UpdateCommandView::Sleep { millis: *millis },
            UpdateCommand::Connect { url } => UpdateCommandView::Connect { url: url@ },
            UpdateCommand::Receive { directory, file_name } => UpdateCommandView::Receive {
                directory: directory@,
                file_name: file_name@,
            },
            UpdateCommand::RunInstaller { program, arguments } => UpdateCommandView::RunInstaller {
                program: program@,
                arguments: texts(arguments@),
            },
            UpdateCommand::Launch { program } => UpdateCommandView::Launch { program: program@ },
            UpdateCommand::Exit { code } => UpdateCommandView::Exit { code: *code },
            UpdateCommand::Fail(e) => UpdateCommandView::Fail(e@),
        }
    }
}

/// The state of one run.
#[derive(Debug)]
pub struct UpdateRun {
    args: UpdateArgs,
    platform: Platform,
    step: RunStep,
    phase: Phase,
    total: u64,
    downloaded: u64,
    last_percent: u32,
    installer_path: String,
    kind: InstallerKind,
    failure: Option<UpdateError>,
}

/// The texts of an [`UpdateRun`].
pub struct UpdateRunView {
    pub args: UpdateArgsView,
    pub platform: Platform,
    pub step: RunStep,
    /// The phase of the last snapshot.
    pub phase: Phase,
    /// The length of the download, or 0 where it is not known.
    pub total: u64,
    /// The number of bytes received.
    pub downloaded: u64,
    /// The percentage of the last snapshot of the download.
    pub last_percent: u32,
    pub installer_path: Seq<char>,
    pub kind: InstallerKind,
    pub failure: Option<(UpdateErrorKind, Seq<char>)>,
}

impl View for UpdateRun {
    type V = UpdateRunView;

    closed spec fn view(&self) -> UpdateRunView {
        UpdateRunView {
            args: self.args@,
            platform: self.platform,
            step: self.step,
            phase: self.phase,
            total: self.total,
            downloaded: self.downloaded,
            last_percent: self.last_percent,
            installer_path: self.installer_path@,
            kind: self.kind,
            failure: match self.failure {
                Some(e) => Some(e@),
                None => None,
            },
        }
    }
}

/// A snapshot.
pub open spec fn snapshot(phase: Phase, percent: u32, detail: Seq<char>) -> UpdateSessionView {
    UpdateSessionView { phase, percent, detail }
}

/// The share of a download that has been received, in whole per cent: 0
/// where the length of the download is not known, and never more than 100.
pub open spec fn percent_of(downloaded: u64, total: u64) -> u32 {
    if total == 0 {
        0
    } else if downloaded >= total {
        100
    } else {
        ((downloaded as int * 100) / (total as int)) as u32
    }
}

/// The name under which the installer is saved: the given name, or without
/// one what stands after the last slash of the address.
pub open spec fn download_target(args: UpdateArgsView) -> Seq<char> {
    if args.name.len() == 0 {
        after_last(args.url, '/')
    } else {
        args.name
    }
}

/// The directory for downloads below the system's directory for temporary
/// files.
pub open spec fn download_directory() -> Seq<char> {
    "unicreate-updater"@
}

/// The last part of a file name that names folders too: what stands after
/// its last slash, and of that what stands after the last backslash.
pub open spec fn last_component(name: Seq<char>) -> Seq<char> {
    after_last(after_last(name, '/'), '\\')
}

/// How the installer is run, by the name under which it was saved: by the
/// system's installer service where the extension of the name is `msi` in
/// any letter case, and as a program of its own otherwise.
pub open spec fn run_kind(file_name: Seq<char>) -> InstallerKind {
    match installer_kind(last_component(file_name)) {
        Some(InstallerKind::Msi) => InstallerKind::Msi,
        _ => InstallerKind::Exe,
    }
}

/// The program that runs an installer.
pub open spec fn installer_program(path: Seq<char>, kind: InstallerKind) -> Seq<char> {
    match kind {
        InstallerKind::Msi => "msiexec.exe"@,
        InstallerKind::Exe => path,
    }
}

/// The arguments that make an installer run without questions.
pub open spec fn installer_arguments(path: Seq<char>, kind: InstallerKind) -> Seq<Seq<char>> {
    match kind {
        InstallerKind::Msi => seq!["/i"@, path, "/qn"@, "/norestart"@],
        InstallerKind::Exe => seq!["/S"@],
    }
}

/// How long the run pauses between two looks at the process, in
/// milliseconds.
pub open spec fn poll_millis() -> u64 {
    200
}

/// What the caller has to do in a state.
pub open spec fn command_of(s: UpdateRunView) -> UpdateCommandView {
    match s.step {
        RunStep::Waiting => UpdateCommandView::CheckProcess { pid: s.args.pid },
        RunStep::WaitingPause => UpdateCommandView::Sleep { millis: poll_millis() },
        RunStep::Connecting => UpdateCommandView::Connect { url: s.args.url },
        RunStep::Receiving => UpdateCommandView::Receive {
            directory: download_directory(),
            file_name: download_target(s.args),
        },
        RunStep::Installing => UpdateCommandView::RunInstaller {
            program: installer_program(s.installer_path, s.kind),
            arguments: installer_arguments(s.installer_path, s.kind),
        },
        RunStep::RelaunchPause => UpdateCommandView::Sleep { millis: 500 },
        RunStep::Relaunching => UpdateCommandView::Launch { program: s.args.app },
        RunStep::ExitPause => UpdateCommandView::Sleep { millis: 300 },
        RunStep::Done => UpdateCommandView::Exit { code: 0 },
        RunStep::Failed => UpdateCommandView::Fail(s.failure->0),
    }
}

/// The state after a failure.
pub open spec fn run_failed(s: UpdateRunView, kind: UpdateErrorKind, detail: Seq<char>) -> UpdateRunView {
    UpdateRunView { step: RunStep::Failed, failure: Some((kind, detail)), ..s }
}

/// A run that is neither over nor has failed.
pub open spec fn is_running(step: RunStep) -> bool {
    step != RunStep::Done && step != RunStep::Failed
}

/// The two snapshots between waiting and downloading.
pub open spec fn download_begins() -> Seq<UpdateSessionView> {
    seq![
        snapshot(Phase::Waiting, 100, "UniCreate closed."@),
        snapshot(Phase::Downloading, 0, "Starting download..."@),
    ]
}

/// The two snapshots between downloading and installing.
pub open spec fn install_begins() -> Seq<UpdateSessionView> {
    seq![
        snapshot(Phase::Downloading, 100, "Download complete."@),
        snapshot(Phase::Installing, 0, "Installing update..."@),
    ]
}

/// The snapshot at the end of relaunching.
pub open spec fn relaunch_ends() -> Seq<UpdateSessionView> {
    seq![snapshot(Phase::Relaunching, 100, "UniCreate launched."@)]
}

/// The two snapshots between installing and relaunching.
pub open spec fn relaunch_begins() -> Seq<UpdateSessionView> {
    seq![
        snapshot(Phase::Installing, 100, "Installation complete."@),
        snapshot(Phase::Relaunching, 100, "Launching UniCreate..."@),
    ]
}

/// The snapshot of a download in progress.
pub open spec fn download_progress(percent: u32) -> UpdateSessionView {
    snapshot(
        Phase::Downloading,
        percent,
        "Downloading... "@ + decimal_text(percent as nat) + "%"@,
    )
}

/// The error for an installer that cannot be run on a system.
pub open spec fn unsupported(kind: InstallerKind) -> UpdateErrorKind {
    match kind {
        InstallerKind::Msi => UpdateErrorKind::MsiUnsupported,
        InstallerKind::Exe => UpdateErrorKind::ExeUnsupported,
    }
}

/// The state after an event, and the snapshots that the event brings. An
/// event that does not answer the command of the state changes nothing and
/// brings no snapshot; a failure that the caller reports ends any run that
/// is not over. A piece that would take the count of bytes beyond 64 bits
/// is not counted.
pub open spec fn run_next(s: UpdateRunView, e: UpdateEvent) -> (UpdateRunView, Seq<UpdateSessionView>) {
    let same = (s, Seq::<UpdateSessionView>::empty());
    match e {
        UpdateEvent::Failed { kind, detail } => if is_running(s.step) {
            (run_failed(s, kind, detail@), Seq::empty())
        } else {
            same
        },
        UpdateEvent::ProcessRunning => if s.step == RunStep::Waiting {
            (UpdateRunView { step: RunStep::WaitingPause, ..s }, Seq::empty())
        } else {
            same
        },
        UpdateEvent::ProcessGone => if s.step == RunStep::Waiting {
            (
                UpdateRunView { step: RunStep::Connecting, phase: Phase::Downloading, ..s },
                download_begins(),
            )
        } else {
            same
        },
        UpdateEvent::Slept => if s.step == RunStep::WaitingPause {
            (UpdateRunView { step: RunStep::Waiting, ..s }, Seq::empty())
        } else if s.step == RunStep::RelaunchPause {
            (UpdateRunView { step: RunStep::Relaunching, ..s }, Seq::empty())
        } else if s.step == RunStep::ExitPause {
            (UpdateRunView { step: RunStep::Done, ..s }, Seq::empty())
        } else {
            same
        },
        UpdateEvent::Connected { status, content_length } => if s.step == RunStep::Connecting {
            if is_success(status) {
                (
                    UpdateRunView {
                        step: RunStep::Receiving,
                        total: match content_length {
                            Some(n) => n,
                            None => 0,
                        },
                        ..s
                    },
                    Seq::empty(),
                )
            } else {
                (run_failed(s, UpdateErrorKind::DownloadStatus, status_text(status)), Seq::empty())
            }
        } else {
            same
        },
        UpdateEvent::Chunk { len } => if s.step == RunStep::Receiving && s.downloaded + len
            <= u64::MAX {
            let downloaded = (s.downloaded + len) as u64;
            let percent = percent_of(downloaded, s.total);
            (
                UpdateRunView { downloaded, last_percent: percent, ..s },
                if percent != s.last_percent {
                    seq![download_progress(percent)]
                } else {
                    Seq::empty()
                },
            )
        } else {
            same
        },
        UpdateEvent::Finished { installer_path } => if s.step == RunStep::Receiving {
            let kind = run_kind(download_target(s.args));
            let t = UpdateRunView {
                step: RunStep::Installing,
                phase: Phase::Installing,
                installer_path: installer_path@,
                kind,
                ..s
            };
            if s.platform == Platform::Windows {
                (t, install_begins())
            } else {
                (run_failed(t, unsupported(kind), Seq::empty()), install_begins())
            }
        } else {
            same
        },
        UpdateEvent::InstallerExited { success, code } => if s.step == RunStep::Installing {
            if success {
                (
                    UpdateRunView { step: RunStep::RelaunchPause, phase: Phase::Relaunching, ..s },
                    relaunch_begins(),
                )
            } else {
                (
                    run_failed(s, UpdateErrorKind::InstallerExit, exit_code_text(code)),
                    Seq::empty(),
                )
            }
        } else {
            same
        },
        UpdateEvent::Launched => if s.step == RunStep::Relaunching {
            (UpdateRunView { step: RunStep::ExitPause, ..s }, relaunch_ends())
        } else {
            same
        },
    }
}

/// The state in which a run starts.
pub open spec fn run_start(args: UpdateArgsView, platform: Platform) -> UpdateRunView {
    UpdateRunView {
        args,
        platform,
        step: RunStep::Waiting,
        phase: Phase::Waiting,
        total: 0,
        downloaded: 0,
        last_percent: 0,
        installer_path: Seq::empty(),
        kind: InstallerKind::Exe,
        failure: None,
    }
}

/// The snapshot with which a run starts.
pub open spec fn first_snapshot() -> UpdateSessionView {
    snapshot(Phase::Waiting, 0, "Waiting for UniCreate to close..."@)
}

/// The phase that goes with a step of a run that has not failed.
pub open spec fn phase_of_step(step: RunStep) -> Phase {
    match step {
        RunStep::Waiting | RunStep::WaitingPause => Phase::Waiting,
        RunStep::Connecting | RunStep::Receiving => Phase::Downloading,
        RunStep::Installing => Phase::Installing,
        _ => Phase::Relaunching,
    }
}

/// A state whose phase goes with its step, whose last percentage is at most
/// 100, and which has an error exactly if it has failed.
pub open spec fn run_well_formed(s: UpdateRunView) -> bool {
    &&& s.step == RunStep::Failed <==> s.failure is Some
    &&& s.step != RunStep::Failed ==> s.phase == phase_of_step(s.step)
    &&& s.last_percent <= 100
}

/// The phases run in strict order and a percentage is never above 100:
/// every snapshot that an event brings is of the phase before the event or a
/// later one, the snapshots of one event come in the order of their phases,
/// and the phase after the event is that of the last snapshot. A run that
/// is over or has failed stays as it is.
pub proof fn law_phases_in_order(s: UpdateRunView, e: UpdateEvent)
    requires
        run_well_formed(s),
    ensures
        run_well_formed(run_next(s, e).0),
        phase_rank(run_next(s, e).0.phase) >= phase_rank(s.phase),
        forall|i: int|
            0 <= i < run_next(s, e).1.len() ==> phase_rank(s.phase) <= phase_rank(
                (#[trigger] run_next(s, e).1[i]).phase,
            ) <= phase_rank(run_next(s, e).0.phase) && run_next(s, e).1[i].percent <= 100,
        forall|i: int, j: int|
            0 <= i <= j < run_next(s, e).1.len() ==> phase_rank(run_next(s, e).1[i].phase)
                <= phase_rank(run_next(s, e).1[j].phase),
        run_next(s, e).1.len() > 0 ==> run_next(s, e).1.last().phase == run_next(s, e).0.phase,
        !is_running(s.step) ==> run_next(s, e).0 == s && run_next(s, e).1.len() == 0,
        run_next(s, e).0.args == s.args,
{
    let (t, shots) = run_next(s, e);
    match e {
        UpdateEvent::Chunk { len } => {
            if s.step == RunStep::Receiving && s.downloaded + len <= u64::MAX {
                let d = (s.downloaded + len) as u64;
                if s.total != 0 && d < s.total {
                    assert((d as int * 100) / (s.total as int) < 100) by (nonlinear_arith)
                        requires
                            0 <= d < s.total,
                    ;
                    assert((d as int * 100) / (s.total as int) >= 0) by (nonlinear_arith)
                        requires
                            0 <= d,
                            s.total > 0,
                    ;
                }
            }
        },
        _ => {},
    }
}

/// Every phase has a snapshot on entry and a snapshot on completion. A run
/// starts with the entry of waiting. The end of the process brings the
/// completion of waiting and the entry of downloading, the end of the
/// download the completion of downloading and the entry of installing, the
/// end of the installer the completion of installing and the entry of
/// relaunching, and the start of the application the completion of
/// relaunching.
pub proof fn law_snapshots_on_entry_and_completion(s: UpdateRunView, path: String, code: Option<i32>)
    requires
        run_well_formed(s),
    ensures
        first_snapshot().phase == Phase::Waiting,
        s.step == RunStep::Waiting ==> run_next(s, UpdateEvent::ProcessGone).1 == seq![
            snapshot(Phase::Waiting, 100, "UniCreate closed."@),
            snapshot(Phase::Downloading, 0, "Starting download..."@),
        ],
        s.step == RunStep::Receiving ==> run_next(
            s,
            UpdateEvent::Finished { installer_path: path },
        ).1 == seq![
            snapshot(Phase::Downloading, 100, "Download complete."@),
            snapshot(Phase::Installing, 0, "Installing update..."@),
        ],
        s.step == RunStep::Installing ==> run_next(
            s,
            UpdateEvent::InstallerExited { success: true, code },
        ).1 == seq![
            snapshot(Phase::Installing, 100, "Installation complete."@),
            snapshot(Phase::Relaunching, 100, "Launching UniCreate..."@),
        ],
        s.step == RunStep::Relaunching ==> run_next(s, UpdateEvent::Launched).1 == seq![
            snapshot(Phase::Relaunching, 100, "UniCreate launched."@),
        ],
{
}

/// Only whole per cent are shown: a piece of the download brings a snapshot
/// exactly when it changes the percentage, and then the snapshot shows the
/// new percentage.
pub proof fn law_progress_on_change(s: UpdateRunView, len: u64)
    requires
        run_well_formed(s),
        s.step == RunStep::Receiving,
        s.downloaded + len <= u64::MAX,
    ensures
        ({
            let (t, shots) = run_next(s, UpdateEvent::Chunk { len });
            let percent = percent_of((s.downloaded + len) as u64, s.total);
            &&& t.downloaded == s.downloaded + len
            &&& t.last_percent == percent
            &&& percent == s.last_percent ==> shots.len() == 0
            &&& percent != s.last_percent ==> shots == seq![download_progress(percent)]
            &&& s.total == 0 ==> percent == 0
        }),
{
}

fn shot(phase: Phase, percent: u32, detail: &str) -> (r: UpdateSession)
    ensures
        r@ == snapshot(phase, percent, detail@),
{
    UpdateSession { phase, percent, detail: detail.to_owned() }
}

fn pair(a: UpdateSession, b: UpdateSession) -> (r: Vec<UpdateSession>)
    ensures
        session_views(r@) == seq![a@, b@],
{
    let mut v: Vec<UpdateSession> = Vec::new();
    v.push(a);
    v.push(b);
    proof {
        assert(session_views(v@) == seq![a@, b@]);
    }
    v
}

fn none() -> (r: Vec<UpdateSession>)
    ensures
        session_views(r@) == Seq::<UpdateSessionView>::empty(),
{
    let v: Vec<UpdateSession> = Vec::new();
    proof {
        assert(session_views(v@) == Seq::<UpdateSessionView>::empty());
    }
    v
}

/// The share of a download that has been received, in whole per cent.
pub fn download_percent(downloaded: u64, total: u64) -> (r: u32)
    ensures
        r == percent_of(downloaded, total),
        r <= 100,
{
    if total == 0 {
        0
    } else if downloaded >= total {
        100
    } else {
        let wide: u128 = (downloaded as u128) * 100 / (total as u128);
        proof {
            assert((downloaded as int * 100) / (total as int) < 100) by (nonlinear_arith)
                requires
                    0 <= downloaded < total,
            ;
            assert((downloaded as int * 100) / (total as int) >= 0) by (nonlinear_arith)
                requires
                    0 <= downloaded,
                    total > 0,
            ;
        }
        wide as u32
    }
}

/// Starts a run of the updater with the given arguments, and returns the
/// snapshot with which the run starts.
pub fn start_update(args: UpdateArgs, platform: Platform) -> (r: (UpdateRun, UpdateSession))
    ensures
        r.0.wf(),
        r.0@ == run_start(args@, platform),
        r.1@ == first_snapshot(),
{
    let run = UpdateRun {
        args,
        platform,
        step: RunStep::Waiting,
        phase: Phase::Waiting,
        total: 0,
        downloaded: 0,
        last_percent: 0,
        installer_path: String::new(),
        kind: InstallerKind::Exe,
        failure: None,
    };
    (run, shot(Phase::Waiting, 0, "Waiting for UniCreate to close..."))
}

/// What is answered where the updater was started without its arguments.
pub fn get_update_args(args: Option<UpdateArgs>) -> (r: Result<UpdateArgs, UpdateError>)
    ensures
        match r {
            Ok(a) => args == Some(a),
            Err(e) => args is None && e@ == (UpdateErrorKind::NoArguments, Seq::<char>::empty()),
        },
{
    match args {
        Some(a) => Ok(a),
        None => Err(UpdateError::plain(UpdateErrorKind::NoArguments)),
    }
}

impl UpdateRun {
    /// Whether the phase goes with the step.
    pub open spec fn wf(&self) -> bool {
        run_well_formed(self@)
    }

    fn fail(&mut self, kind: UpdateErrorKind, detail: String)
        ensures
            final(self)@ == run_failed(old(self)@, kind, detail@),
    {
        self.failure = Some(UpdateError { kind, detail });
        self.step = RunStep::Failed;
    }

    fn running(&self) -> (r: bool)
        ensures
            r == is_running(self@.step),
    {
        match self.step {
            RunStep::Done | RunStep::Failed => false,
            _ => true,
        }
    }

    fn target(&self) -> (r: String)
        ensures
            r@ == download_target(self@.args),
    {
        let name = chars_of(self.args.name.as_str());
        if name.len() == 0 {
            let url = chars_of(self.args.url.as_str());
            string_of(&take_after_last(&url, '/'))
        } else {
            string_of(&name)
        }
    }

    fn kind_of_target(&self) -> (r: InstallerKind)
        ensures
            r == run_kind(download_target(self@.args)),
    {
        let name = chars_of(self.target().as_str());
        let part = take_after_last(&take_after_last(&name, '/'), '\\');
        match installer_kind_of(&part) {
            Some(InstallerKind::Msi) => InstallerKind::Msi,
            _ => InstallerKind::Exe,
        }
    }

    fn arguments(&self) -> (r: Vec<String>)
        ensures
            texts(r@) == installer_arguments(self@.installer_path, self@.kind),
    {
        let mut v: Vec<String> = Vec::new();
        match self.kind {
            InstallerKind::Msi => {
                let a = "/i".to_owned();
                let b = self.installer_path.clone();
                let c = "/qn".to_owned();
                let d = "/norestart".to_owned();
                v.push(a);
                v.push(b);
                v.push(c);
                v.push(d);
                proof {
                    assert(texts(v@) == seq![a@, b@, c@, d@]);
                }
            },
            InstallerKind::Exe => {
                let a = "/S".to_owned();
                v.push(a);
                proof {
                    assert(texts(v@) == seq![a@]);
                }
            },
        }
        v
    }

    /// What the caller has to do next.
    pub fn command(&self) -> (r: UpdateCommand)
        requires
            self.wf(),
        ensures
            r@ == command_of(self@),
    {
        match self.step {
            RunStep::Waiting => UpdateCommand::CheckProcess { pid: self.args.pid },
            RunStep::WaitingPause => UpdateCommand::Sleep { millis: 200 },
            RunStep::Connecting => UpdateCommand::Connect { url: self.args.url.clone() },
            RunStep::Receiving => UpdateCommand::Receive {
                directory: "unicreate-updater".to_owned(),
                file_name: self.target(),
            },
            RunStep::Installing => UpdateCommand::RunInstaller {
                program: match self.kind {
                    InstallerKind::Msi => "msiexec.exe".to_owned(),
                    InstallerKind::Exe => self.installer_path.clone(),
                },
                arguments: self.arguments(),
            },
            RunStep::RelaunchPause => UpdateCommand::Sleep { millis: 500 },
            RunStep::Relaunching => UpdateCommand::Launch { program: self.args.app.clone() },
            RunStep::ExitPause => UpdateCommand::Sleep { millis: 300 },
            RunStep::Done => UpdateCommand::Exit { code: 0 },
            RunStep::Failed => match &self.failure {
                Some(e) => UpdateCommand::Fail(
                    UpdateError { kind: e.kind, detail: e.detail.clone() },
                ),
                None => vstd::pervasive::unreached(),
            },
        }
    }

    /// Takes in what came of the last command and returns the snapshots to
    /// show, in order.
    pub fn advance(&mut self, event: UpdateEvent) -> (shots: Vec<UpdateSession>)
        requires
            old(self).wf(),
        ensures
            final(self).wf(),
            (final(self)@, session_views(shots@)) == run_next(old(self)@, event),
    {
        proof {
            law_phases_in_order(self@, event);
        }
        match event {
            UpdateEvent::Failed { kind, detail } => {
                if self.running() {
                    self.fail(kind, detail);
                }
                none()
            },
            UpdateEvent::ProcessRunning => {
                if self.step == RunStep::Waiting {
                    self.step = RunStep::WaitingPause;
                }
                none()
            },
            UpdateEvent::ProcessGone => {
                if self.step == RunStep::Waiting {
                    self.step = RunStep::Connecting;
                    self.phase = Phase::Downloading;
                    pair(
                        shot(Phase::Waiting, 100, "UniCreate closed."),
                        shot(Phase::Downloading, 0, "Starting download..."),
                    )
                } else {
                    none()
                }
            },
            UpdateEvent::Slept => {
                if self.step == RunStep::WaitingPause {
                    self.step = RunStep::Waiting;
                } else if self.step == RunStep::RelaunchPause {
                    self.step = RunStep::Relaunching;
                } else if self.step == RunStep::ExitPause {
                    self.step = RunStep::Done;
                }
                none()
            },
            UpdateEvent::Connected { status, content_length } => {
                if self.step == RunStep::Connecting {
                    if 200 <= status && status <= 299 {
                        self.total = match content_length {
                            Some(n) => n,
                            None => 0,
                        };
                        self.step = RunStep::Receiving;
                    } else {
                        let e = UpdateError::download_status(status);
                        self.fail(e.kind, e.detail);
                    }
                }
                none()
            },
            UpdateEvent::Chunk { len } => {
                if self.step == RunStep::Receiving && len <= u64::MAX - self.downloaded {
                    self.downloaded = self.downloaded + len;
                    let percent = download_percent(self.downloaded, self.total);
                    if percent != self.last_percent {
                        self.last_percent = percent;
                        let mut detail = chars_of("Downloading... ");
                        push_decimal(&mut detail, percent as u64);
                        push_str(&mut detail, "%");
                        let s = UpdateSession {
                            phase: Phase::Downloading,
                            percent,
                            detail: string_of(&detail),
                        };
                        let mut v: Vec<UpdateSession> = Vec::new();
                        v.push(s);
                        proof {
                            assert(session_views(v@) == seq![s@]);
                        }
                        v
                    } else {
                        none()
                    }
                } else {
                    none()
                }
            },
            UpdateEvent::Finished { installer_path } => {
                if self.step == RunStep::Receiving {
                    let kind = self.kind_of_target();
                    self.installer_path = installer_path;
                    self.kind = kind;
                    self.step = RunStep::Installing;
                    self.phase = Phase::Installing;
                    match self.platform {
                        Platform::Windows => {},
                        Platform::Other => {
                            let which = match kind {
                                InstallerKind::Msi => UpdateErrorKind::MsiUnsupported,
                                InstallerKind::Exe => UpdateErrorKind::ExeUnsupported,
                            };
                            self.fail(which, String::new());
                        },
                    }
                    pair(
                        shot(Phase::Downloading, 100, "Download complete."),
                        shot(Phase::Installing, 0, "Installing update..."),
                    )
                } else {
                    none()
                }
            },
            UpdateEvent::InstallerExited { success, code } => {
                if self.step == RunStep::Installing {
                    if success {
                        self.step = RunStep::RelaunchPause;
                        self.phase = Phase::Relaunching;
                        pair(
                            shot(Phase::Installing, 100, "Installation complete."),
                            shot(Phase::Relaunching, 100, "Launching UniCreate..."),
                        )
                    } else {
                        let e = UpdateError::installer_exit(code);
                        self.fail(e.kind, e.detail);
                        none()
                    }
                } else {
                    none()
                }
            },
            UpdateEvent::Launched => {
                if self.step == RunStep::Relaunching {
                    self.step = RunStep::ExitPause;
                    let s = shot(Phase::Relaunching, 100, "UniCreate launched.");
                    let mut v: Vec<UpdateSession> = Vec::new();
                    v.push(s);
                    proof {
                        assert(session_views(v@) == seq![s@]);
                    }
                    v
                } else {
                    none()
                }
            },
        }
    }
}

} // verus!
