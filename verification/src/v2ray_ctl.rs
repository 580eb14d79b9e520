//! The process controller: what the proxy program is, how it is launched for
//! one configuration, and how it is torn down.
//!
//! The controller never touches a process or a file itself. It names the
//! steps, and its driver performs them and reports how each went.

use vstd::prelude::*;
use vstd::string::StringExecFns;
use crate::pattern::{capture, regex_capture};
use crate::text::{contains, occurs_in};

verus! {

/// The pattern that finds the version in what the program prints when asked
/// for it.
pub const VERSION_PATTERN: &'static str = "V2Ray (?P<ver>\\d+\\.\\d+\\.\\d+) ";

/// The name of the group of [`VERSION_PATTERN`] that holds the version.
pub const VERSION_GROUP: &'static str = "ver";

/// Seconds to wait for the program to report that it is ready.
pub const READINESS_TIMEOUT_SECS: u64 = 5;

/// The proxy program: where it is and which version it reports.
#[derive(Debug)]
pub struct V2rayApp {
    program: String,
    version: String,
}

/// What contracts see of [`V2rayApp`].
pub struct V2rayAppView {
    pub program: Seq<char>,
    pub version: Seq<char>,
}

impl View for V2rayApp {
    type V = V2rayAppView;

    closed spec fn view(&self) -> V2rayAppView {
        V2rayAppView { program: self.program@, version: self.version@ }
    }
}

/// The version named in `output`, if one is.
pub open spec fn version_in(output: Seq<char>) -> Option<Seq<char>> {
    regex_capture(VERSION_PATTERN@, VERSION_GROUP@, output)
}

/// The line fragment with which a program of this version reports that it is ready.
pub open spec fn ready_marker(version: Seq<char>) -> Seq<char> {
    "V2Ray "@ + version + " started"@
}

/// The name of the configuration file for a launch with this suffix.
pub open spec fn config_file_name(suffix: Seq<char>) -> Seq<char> {
    "v2ray-maid-running-"@ + suffix + ".json"@
}

/// Whether `c` is a digit or one of the letters `a` to `f`.
pub open spec fn is_lower_hex(c: char) -> bool {
    ('0' <= c && c <= '9') || ('a' <= c && c <= 'f')
}

/// Whether `suffix` is 32 lower-case hexadecimal digits.
pub open spec fn is_unique_suffix(suffix: Seq<char>) -> bool {
    suffix.len() == 32 && forall|i: int| 0 <= i < suffix.len() ==> is_lower_hex(#[trigger] suffix[i])
}

/// Trusted: `Uuid::new_v4` followed by `to_simple` and `to_string` yields a
/// random identifier written as 32 lower-case hexadecimal digits. Which one
/// is a matter of chance, so only its shape is claimed.
#[verifier::external_body]
fn random_suffix() -> (r: String)
    ensures
        is_unique_suffix(r@),
{
    uuid::Uuid::new_v4().to_simple().to_string()
}

impl V2rayApp {
    /// The controller for the program at `program`, given what the program
    /// printed when it was asked for its version. There is no controller
    /// where that output names no version.
    pub fn init(program: &str, version_output: &str) -> (r: Option<V2rayApp>)
        ensures
            match version_in(version_output@) {
                Some(version) => r matches Some(app) && app@ == (V2rayAppView {
                    program: program@,
                    version,
                }),
                None => r is None,
            },
    {
        V2rayApp::with_version(program, capture(VERSION_PATTERN, VERSION_GROUP, version_output))
    }

    /// The controller for the program at `program` that reports `version`;
    /// none where no version was found.
    pub fn with_version(program: &str, version: Option<String>) -> (r: Option<V2rayApp>)
        ensures
            match version {
                Some(v) => r matches Some(app) && app@ == (V2rayAppView {
                    program: program@,
                    version: v@,
                }),
                None => r is None,
            },
    {
        match version {
            Some(version) => Some(V2rayApp { program: String::from_str(program), version }),
            None => None,
        }
    }

    /// Where the program is.
    pub fn program(&self) -> (r: &str)
        ensures
            r@ == self@.program,
    {
        self.program.as_str()
    }

    /// The version that the program reports.
    pub fn version(&self) -> (r: &str)
        ensures
            r@ == self@.version,
    {
        self.version.as_str()
    }

    /// The line fragment with which the program reports that it is ready.
    pub fn ready_marker(&self) -> (r: String)
        ensures
            r@ == ready_marker(self@.version),
    {
        let mut marker = String::from_str("V2Ray ");
        marker.append(self.version.as_str());
        marker.append(" started");
        marker
    }

    /// Whether `line` reports that the program is ready.
    pub fn is_ready_line(&self, line: &str) -> (r: bool)
        ensures
            r == occurs_in(ready_marker(self@.version), line@),
    {
        let marker = self.ready_marker();
        contains(line, marker.as_str())
    }
}

/// The name of the configuration file for a launch with this suffix.
pub fn config_file_name_for(suffix: &str) -> (r: String)
    ensures
        r@ == config_file_name(suffix@),
{
    let mut name = String::from_str("v2ray-maid-running-");
    name.append(suffix);
    name.append(".json");
    name
}

/// A name for a configuration file that no other launch uses: the suffix is
/// drawn at random.
pub fn fresh_config_file_name() -> (r: String)
    ensures
        exists|suffix: Seq<char>| is_unique_suffix(suffix) && r@ == config_file_name(suffix),
{
    let suffix = random_suffix();
    let name = config_file_name_for(suffix.as_str());
    assert(is_unique_suffix(suffix@) && name@ == config_file_name(suffix@));
    name
}

/// Why a launch failed.
#[derive(Debug, Clone, Copy, PartialEq, Eq, Structural)]
pub enum StartError {
    /// The configuration could not be written or the program could not be run.
    SpawnFailed,
    /// The program ran but did not report that it is ready.
    ReadinessTimeout,
}

/// Where a launch stands.
#[derive(Debug, Clone, Copy, PartialEq, Eq, Structural)]
pub enum LaunchPhase {
    /// Nothing has been done yet.
    Fresh,
    /// The configuration file is being written.
    WritingConfig,
    /// The program is being run.
    Spawning,
    /// The program runs; its output is read line by line.
    Watching,
    /// The launch has failed for the given reason; the program, if any, is
    /// being killed and the configuration file removed.
    CleaningUp(StartError),
    /// The program reported that it is ready.
    Ready,
    /// The launch has failed and nothing of it is left.
    Failed(StartError),
}

/// What the driver reports to a launch.
#[derive(Debug, Clone, Copy)]
pub enum LaunchEvent<'a> {
    /// The launch begins.
    Begin,
    /// Writing the configuration file succeeded or failed.
    ConfigWritten(bool),
    /// Running the program succeeded or failed.
    Spawned(bool),
    /// The program printed this line.
    Line(&'a str),
    /// The program's output ended or could not be read.
    StreamEnded,
    /// [`READINESS_TIMEOUT_SECS`] have passed since the program was run.
    Expired,
    /// The program, if any, was killed and the configuration file removed.
    CleanedUp,
}

/// What a launch asks the driver to do next.
#[derive(Debug, Clone, Copy, PartialEq, Eq, Structural)]
pub enum LaunchAction {
    /// Write the configuration to the launch's file.
    WriteConfig,
    /// Run the program on the launch's file, capturing its output.
    Spawn,
    /// Read one more line of the program's output, within the time allowed.
    ReadLine,
    /// Kill the program, if it was run, and remove the configuration file.
    CleanUp,
    /// The launch is over: the program is up.
    Succeed,
    /// The launch is over: it failed for this reason and left nothing behind.
    Fail(StartError),
}

impl LaunchPhase {
    /// What the driver is waiting to hear about in this phase.
    pub open spec fn pending(self) -> LaunchAction {
        match self {
            LaunchPhase::Fresh => LaunchAction::WriteConfig,
            LaunchPhase::WritingConfig => LaunchAction::WriteConfig,
            LaunchPhase::Spawning => LaunchAction::Spawn,
            LaunchPhase::Watching => LaunchAction::ReadLine,
            LaunchPhase::CleaningUp(_) => LaunchAction::CleanUp,
            LaunchPhase::Ready => LaunchAction::Succeed,
            LaunchPhase::Failed(e) => LaunchAction::Fail(e),
        }
    }

    /// The phase after `event`, for a program that reports readiness with `marker`.
    ///
    /// Whatever goes wrong leads to `CleaningUp` first; `Failed` is reached
    /// only from there. A report that the phase does not wait for changes nothing.
    pub open spec fn next(self, marker: Seq<char>, event: LaunchEvent) -> LaunchPhase {
        match (self, event) {
            (LaunchPhase::Fresh, _) => LaunchPhase::WritingConfig,
            (LaunchPhase::WritingConfig, LaunchEvent::ConfigWritten(ok)) => if ok {
                LaunchPhase::Spawning
            } else {
                LaunchPhase::CleaningUp(StartError::SpawnFailed)
            },
            (LaunchPhase::Spawning, LaunchEvent::Spawned(ok)) => if ok {
                LaunchPhase::Watching
            } else {
                LaunchPhase::CleaningUp(StartError::SpawnFailed)
            },
            (LaunchPhase::Watching, LaunchEvent::Line(line)) => if occurs_in(marker, line@) {
                LaunchPhase::Ready
            } else {
                LaunchPhase::Watching
            },
            (LaunchPhase::Watching, LaunchEvent::StreamEnded) => LaunchPhase::CleaningUp(
                StartError::ReadinessTimeout,
            ),
            (LaunchPhase::Watching, LaunchEvent::Expired) => LaunchPhase::CleaningUp(
                StartError::ReadinessTimeout,
            ),
            (LaunchPhase::CleaningUp(e), LaunchEvent::CleanedUp) => LaunchPhase::Failed(e),
            _ => self,
        }
    }
}

/// One launch of the program.
#[derive(Debug)]
pub struct Launch {
    marker: String,
    config_name: String,
    phase: LaunchPhase,
}

/// What contracts see of [`Launch`].
pub struct LaunchView {
    pub marker: Seq<char>,
    pub config_name: Seq<char>,
    pub phase: LaunchPhase,
}

impl View for Launch {
    type V = LaunchView;

    closed spec fn view(&self) -> LaunchView {
        LaunchView { marker: self.marker@, config_name: self.config_name@, phase: self.phase }
    }
}

impl Launch {
    /// A launch of `app` whose configuration file is named with `suffix`.
    pub fn with_suffix(app: &V2rayApp, suffix: &str) -> (r: Launch)
        ensures
            r@ == (LaunchView {
                marker: ready_marker(app@.version),
                config_name: config_file_name(suffix@),
                phase: LaunchPhase::Fresh,
            }),
    {
        Launch {
            marker: app.ready_marker(),
            config_name: config_file_name_for(suffix),
            phase: LaunchPhase::Fresh,
        }
    }

    /// A launch of `app` with a configuration file of its own.
    pub fn new(app: &V2rayApp) -> (r: Launch)
        ensures
            r@.marker == ready_marker(app@.version),
            r@.phase == LaunchPhase::Fresh,
            exists|suffix: Seq<char>|
                is_unique_suffix(suffix) && r@.config_name == config_file_name(suffix),
    {
        let suffix = random_suffix();
        let r = Launch::with_suffix(app, suffix.as_str());
        assert(is_unique_suffix(suffix@) && r@.config_name == config_file_name(suffix@));
        r
    }

    /// The name of the launch's configuration file, to be placed in the
    /// directory for temporary files.
    pub fn config_name(&self) -> (r: &str)
        ensures
            r@ == self@.config_name,
    {
        self.config_name.as_str()
    }

    /// Where the launch stands.
    pub fn phase(&self) -> (r: LaunchPhase)
        ensures
            r == self@.phase,
    {
        self.phase
    }

    /// Takes the report `event` and says what the driver is to do next.
    pub fn step(&mut self, event: LaunchEvent) -> (action: LaunchAction)
        ensures
            final(self)@ == (LaunchView {
                phase: old(self)@.phase.next(old(self)@.marker, event),
                ..old(self)@
            }),
            action == final(self)@.phase.pending(),
    {
        let next = match self.phase {
            LaunchPhase::Fresh => LaunchPhase::WritingConfig,
            LaunchPhase::WritingConfig => match event {
                LaunchEvent::ConfigWritten(ok) => if ok {
                    LaunchPhase::Spawning
                } else {
                    LaunchPhase::CleaningUp(StartError::SpawnFailed)
                },
                _ => self.phase,
            },
            LaunchPhase::Spawning => match event {
                LaunchEvent::Spawned(ok) => if ok {
                    LaunchPhase::Watching
                } else {
                    LaunchPhase::CleaningUp(StartError::SpawnFailed)
                },
                _ => self.phase,
            },
            LaunchPhase::Watching => match event {
                LaunchEvent::Line(line) => if contains(line, self.marker.as_str()) {
                    LaunchPhase::Ready
                } else {
                    LaunchPhase::Watching
                },
                LaunchEvent::StreamEnded => LaunchPhase::CleaningUp(StartError::ReadinessTimeout),
                LaunchEvent::Expired => LaunchPhase::CleaningUp(StartError::ReadinessTimeout),
                _ => self.phase,
            },
            LaunchPhase::CleaningUp(e) => match event {
                LaunchEvent::CleanedUp => LaunchPhase::Failed(e),
                _ => self.phase,
            },
            LaunchPhase::Ready => self.phase,
            LaunchPhase::Failed(_) => self.phase,
        };
        self.phase = next;
        match next {
            LaunchPhase::Fresh => LaunchAction::WriteConfig,
            LaunchPhase::WritingConfig => LaunchAction::WriteConfig,
            LaunchPhase::Spawning => LaunchAction::Spawn,
            LaunchPhase::Watching => LaunchAction::ReadLine,
            LaunchPhase::CleaningUp(_) => LaunchAction::CleanUp,
            LaunchPhase::Ready => LaunchAction::Succeed,
            LaunchPhase::Failed(e) => LaunchAction::Fail(e),
        }
    }
}

/// A launch is reported as failed only when nothing of it is left: the phase
/// `Failed` is entered from `CleaningUp`, on the report that cleaning up is
/// done, and from nowhere else.
pub proof fn law_failure_follows_cleanup(phase: LaunchPhase, marker: Seq<char>, event: LaunchEvent)
    ensures
        phase.next(marker, event) matches LaunchPhase::Failed(e) ==> phase == LaunchPhase::Failed(e)
            || (phase == LaunchPhase::CleaningUp(e) && event is CleanedUp),
        phase.next(marker, event).pending() is Fail ==> phase.next(marker, event) is Failed,
{
}

/// A launch succeeds only on a line that holds the readiness marker, read
/// while the program's output was being watched.
pub proof fn law_ready_needs_marker(phase: LaunchPhase, marker: Seq<char>, event: LaunchEvent)
    ensures
        phase.next(marker, event) == LaunchPhase::Ready ==> phase == LaunchPhase::Ready || (phase
            == LaunchPhase::Watching && (event matches LaunchEvent::Line(line) && occurs_in(
            marker,
            line@,
        ))),
{
}

/// While the output is watched, the end of the output and the end of the
/// allowed time both end the launch with `ReadinessTimeout`, after cleaning up.
pub proof fn law_silence_times_out(marker: Seq<char>, event: LaunchEvent)
    requires
        event is StreamEnded || event is Expired,
    ensures
        LaunchPhase::Watching.next(marker, event) == LaunchPhase::CleaningUp(
            StartError::ReadinessTimeout,
        ),
        LaunchPhase::Watching.next(marker, event).next(marker, LaunchEvent::CleanedUp)
            == LaunchPhase::Failed(StartError::ReadinessTimeout),
{
}

/// What went wrong while a program was torn down.
#[derive(Debug, Clone, Copy, PartialEq, Eq, Structural)]
pub struct TeardownError {
    /// The program could not be killed.
    pub kill_failed: bool,
    /// The configuration file could not be removed.
    pub cleanup_failed: bool,
}

/// Where a teardown stands.
#[derive(Debug, Clone, Copy, PartialEq, Eq, Structural)]
pub enum TeardownPhase {
    /// Nothing has been done yet.
    Fresh,
    /// The program is being killed.
    Killing,
    /// The configuration file is being removed; the flag says whether the
    /// program could be killed.
    Removing(bool),
    /// Both steps were attempted; the flags say whether each succeeded.
    Finished(bool, bool),
}

/// What a teardown asks the driver to do next.
#[derive(Debug, Clone, Copy, PartialEq, Eq, Structural)]
pub enum TeardownAction {
    /// Kill the program; a program that has already exited counts as killed.
    Kill,
    /// Remove the configuration file.
    RemoveConfig,
    /// The teardown is over: both steps succeeded.
    Succeed,
    /// The teardown is over: the steps named in the error failed.
    Fail(TeardownError),
}

/// The outcome of a teardown whose two steps went as the flags say.
pub open spec fn teardown_outcome(killed: bool, removed: bool) -> Result<(), TeardownError> {
    if killed && removed {
        Ok(())
    } else {
        Err(TeardownError { kill_failed: !killed, cleanup_failed: !removed })
    }
}

/// The action that ends a teardown with the given outcome.
pub open spec fn finish_with(outcome: Result<(), TeardownError>) -> TeardownAction {
    match outcome {
        Ok(_) => TeardownAction::Succeed,
        Err(e) => TeardownAction::Fail(e),
    }
}

impl TeardownPhase {
    /// What the driver is waiting to hear about in this phase.
    pub open spec fn pending(self) -> TeardownAction {
        match self {
            TeardownPhase::Fresh => TeardownAction::Kill,
            TeardownPhase::Killing => TeardownAction::Kill,
            TeardownPhase::Removing(_) => TeardownAction::RemoveConfig,
            TeardownPhase::Finished(killed, removed) => finish_with(
                teardown_outcome(killed, removed),
            ),
        }
    }

    /// The phase after the driver reported whether the step it was asked for
    /// succeeded. The file is removed whether or not the program could be killed.
    pub open spec fn next(self, succeeded: bool) -> TeardownPhase {
        match self {
            TeardownPhase::Fresh => TeardownPhase::Killing,
            TeardownPhase::Killing => TeardownPhase::Removing(succeeded),
            TeardownPhase::Removing(killed) => TeardownPhase::Finished(killed, succeeded),
            TeardownPhase::Finished(killed, removed) => self,
        }
    }
}

/// A proxy program that is up, known by the configuration file it runs on.
/// There is one for every launch that succeeded, and it ends in a teardown.
#[derive(Debug)]
pub struct V2rayAppProcess {
    config_name: String,
}

/// What contracts see of [`V2rayAppProcess`].
pub struct V2rayAppProcessView {
    pub config_name: Seq<char>,
}

impl View for V2rayAppProcess {
    type V = V2rayAppProcessView;

    closed spec fn view(&self) -> V2rayAppProcessView {
        V2rayAppProcessView { config_name: self.config_name@ }
    }
}

impl V2rayAppProcess {
    /// The name of the configuration file that the program runs on.
    pub fn config_name(&self) -> (r: &str)
        ensures
            r@ == self@.config_name,
    {
        self.config_name.as_str()
    }
}

impl Launch {
    /// Ends a launch. If the program reported that it is ready, this hands
    /// out the running program, which carries the launch's configuration
    /// file; from any other phase there is no program to hand out.
    pub fn into_process(self) -> (r: Option<V2rayAppProcess>)
        ensures
            match r {
                Some(process) => self@.phase == LaunchPhase::Ready && process@.config_name
                    == self@.config_name,
                None => self@.phase != LaunchPhase::Ready,
            },
    {
        match self.phase {
            LaunchPhase::Ready => Some(V2rayAppProcess { config_name: self.config_name }),
            _ => None,
        }
    }
}

/// One teardown of a launched program.
#[derive(Debug)]
pub struct Teardown {
    config_name: String,
    phase: TeardownPhase,
}

/// What contracts see of [`Teardown`]: which configuration file it removes
/// and where it stands.
pub struct TeardownView {
    pub config_name: Seq<char>,
    pub phase: TeardownPhase,
}

impl View for Teardown {
    type V = TeardownView;

    closed spec fn view(&self) -> TeardownView {
        TeardownView { config_name: self.config_name@, phase: self.phase }
    }
}

impl Teardown {
    /// The teardown of `process`, not yet begun. It removes the
    /// configuration file that the program runs on.
    pub fn new(process: V2rayAppProcess) -> (r: Teardown)
        ensures
            r@ == (TeardownView {
                config_name: process@.config_name,
                phase: TeardownPhase::Fresh,
            }),
    {
        Teardown { config_name: process.config_name, phase: TeardownPhase::Fresh }
    }

    /// The name of the configuration file that this teardown removes.
    pub fn config_name(&self) -> (r: &str)
        ensures
            r@ == self@.config_name,
    {
        self.config_name.as_str()
    }

    /// Where the teardown stands.
    pub fn phase(&self) -> (r: TeardownPhase)
        ensures
            r == self@.phase,
    {
        self.phase
    }

    /// Takes the report on the step that was asked for last (anything, for
    /// the first call) and says what the driver is to do next.
    pub fn step(&mut self, succeeded: bool) -> (action: TeardownAction)
        ensures
            final(self)@ == (TeardownView {
                phase: old(self)@.phase.next(succeeded),
                ..old(self)@
            }),
            action == final(self)@.phase.pending(),
    {
        let next = match self.phase {
            TeardownPhase::Fresh => TeardownPhase::Killing,
            TeardownPhase::Killing => TeardownPhase::Removing(succeeded),
            TeardownPhase::Removing(killed) => TeardownPhase::Finished(killed, succeeded),
            TeardownPhase::Finished(_, _) => self.phase,
        };
        self.phase = next;
        match next {
            TeardownPhase::Fresh => TeardownAction::Kill,
            TeardownPhase::Killing => TeardownAction::Kill,
            TeardownPhase::Removing(_) => TeardownAction::RemoveConfig,
            TeardownPhase::Finished(killed, removed) => match stop_outcome(killed, removed) {
                Ok(_) => TeardownAction::Succeed,
                Err(e) => TeardownAction::Fail(e),
            },
        }
    }
}

/// The outcome of a teardown whose two steps went as the flags say: success
/// if both succeeded, and otherwise an error that names each step that failed.
pub fn stop_outcome(killed: bool, removed: bool) -> (r: Result<(), TeardownError>)
    ensures
        r == teardown_outcome(killed, removed),
        r is Ok <==> killed && removed,
{
    if killed && removed {
        Ok(())
    } else {
        Err(TeardownError { kill_failed: !killed, cleanup_failed: !removed })
    }
}

/// A teardown attempts both steps whatever the first one yields, and its
/// outcome reports each failure: after the report on the kill and the report
/// on the removal, it is over with exactly those two results.
pub proof fn law_teardown_attempts_both(killed: bool, removed: bool, start: bool)
    ensures
        TeardownPhase::Fresh.next(start).pending() == TeardownAction::Kill,
        TeardownPhase::Fresh.next(start).next(killed).pending() == TeardownAction::RemoveConfig,
        TeardownPhase::Fresh.next(start).next(killed).next(removed).pending() == finish_with(
            teardown_outcome(killed, removed),
        ),
{
}

impl V2rayApp {
    /// Begins a launch of the program: the steps that write the
    /// configuration, run the program and wait for it to be ready, with a
    /// configuration file that no other launch uses.
    pub fn start(&self) -> (r: Launch)
        ensures
            r@.marker == ready_marker(self@.version),
            r@.phase == LaunchPhase::Fresh,
            exists|suffix: Seq<char>|
                is_unique_suffix(suffix) && r@.config_name == config_file_name(suffix),
    {
        Launch::new(self)
    }

    /// Begins the teardown of `process`: the steps that kill the program
    /// and remove the configuration file it runs on. The process is given
    /// up to the teardown, so no program is torn down twice.
    pub fn stop(&self, process: V2rayAppProcess) -> (r: Teardown)
        ensures
            r@ == (TeardownView {
                config_name: process@.config_name,
                phase: TeardownPhase::Fresh,
            }),
    {
        Teardown::new(process)
    }
}

} // verus!

