//! The binary resolver: a state machine that locates or installs the DBML
//! language-server binary.
//!
//! Resolution proceeds through a fixed sequence of phases: a cache check, a
//! toolchain probe (runtime, then package manager), an installed-package
//! query, a conditional install, a global-root lookup, and a search over
//! candidate paths (two well-known locations under the root, then a
//! platform lookup utility). Each step consumes the outcome of the previous
//! probe (an `Event`) and decides the next phase together with the host
//! actions to perform (`Action`): checking a file, running a command, or
//! reporting a status. The host performs the actions and feeds the outcome
//! back; all decisions are made here.

use vstd::prelude::*;
use vstd::string::StringExecFns;

use crate::status::ErrorView;
use crate::status::InstallationStatus;
use crate::status::ResolveError;
use crate::status::StatusView;
use crate::status::binary_not_found_text;
use crate::status::install_fail_message;
use crate::status::install_fail_prefix;
use crate::status::install_fail_message_string;
use crate::status::lemma_install_fail_message_keeps_stderr;
use crate::status::install_launch_failed_string;
use crate::status::install_launch_failed_text;
use crate::status::package_list_failed_text;
use crate::status::root_lookup_failed_text;
use crate::status::toolchain_missing_text;
use crate::text::first_line_of;
use crate::text::first_line_trimmed;

verus! {

/// Operating-system family. It decides the name of the binary file and of
/// the system lookup utility; the choice is made once, at startup.
#[derive(Clone, Copy, PartialEq, Eq, Structural)]
pub enum Os {
    Posix,
    Windows,
}

/// What a finished external command handed back: its exit status (absent
/// when the process ended without one) and its captured output streams.
pub struct CommandOutput {
    pub status: Option<i32>,
    pub stdout: String,
    pub stderr: String,
}

/// Mathematical image of `CommandOutput`.
pub ghost struct OutputView {
    pub status: Option<i32>,
    pub stdout: Seq<char>,
    pub stderr: Seq<char>,
}

impl View for CommandOutput {
    type V = OutputView;

    open spec fn view(&self) -> OutputView {
        OutputView { status: self.status, stdout: self.stdout@, stderr: self.stderr@ }
    }
}

/// Outcome of the host action a step asked for: whether a path exists as a
/// file, or what a command produced (`None` when it could not be run).
pub enum Event {
    FileChecked(bool),
    CommandDone(Option<CommandOutput>),
}

/// Mathematical image of `Event`.
pub ghost enum EventView {
    FileChecked(bool),
    CommandDone(Option<OutputView>),
}

impl View for Event {
    type V = EventView;

    open spec fn view(&self) -> EventView {
        match self {
            Event::FileChecked(b) => EventView::FileChecked(*b),
            Event::CommandDone(o) => EventView::CommandDone(
                match o {
                    Some(out) => Some(out@),
                    None => None,
                },
            ),
        }
    }
}

/// A host action requested by a step: check whether a path exists as a
/// file, run a command and capture its output, or report a status.
pub enum Action {
    CheckFile(String),
    RunCommand(String, Vec<String>),
    Report(InstallationStatus),
}

/// Mathematical image of `Action`.
pub ghost enum ActionView {
    CheckFile(Seq<char>),
    RunCommand(Seq<char>, Seq<Seq<char>>),
    Report(StatusView),
}

impl View for Action {
    type V = ActionView;

    open spec fn view(&self) -> ActionView {
        match self {
            Action::CheckFile(p) => ActionView::CheckFile(p@),
            Action::RunCommand(program, args) => ActionView::RunCommand(
                program@,
                args.deep_view(),
            ),
            Action::Report(s) => ActionView::Report(s@),
        }
    }
}

impl DeepView for Action {
    type V = ActionView;

    open spec fn deep_view(&self) -> ActionView {
        self.view()
    }
}

/// Where a resolution attempt stands. `Done` and `Failed` are terminal; the
/// other phases each await the outcome of one host action.
pub enum Phase {
    CheckingCache(String),
    ProbingRuntime,
    ProbingManager,
    CheckingInstalled,
    Installing,
    LookingUpRoot,
    CheckingPrimary(String),
    CheckingAlternate(String),
    RunningLookup,
    VerifyingLookup(String),
    Done(String),
    Failed(ResolveError),
}

/// Mathematical image of `Phase`. `CheckingPrimary` and `CheckingAlternate`
/// carry the global root; `CheckingCache`, `VerifyingLookup` and `Done`
/// carry the candidate or resolved path.
pub ghost enum PhaseView {
    CheckingCache(Seq<char>),
    ProbingRuntime,
    ProbingManager,
    CheckingInstalled,
    Installing,
    LookingUpRoot,
    CheckingPrimary(Seq<char>),
    CheckingAlternate(Seq<char>),
    RunningLookup,
    VerifyingLookup(Seq<char>),
    Done(Seq<char>),
    Failed(ErrorView),
}

impl View for Phase {
    type V = PhaseView;

    open spec fn view(&self) -> PhaseView {
        match self {
            Phase::CheckingCache(p) => PhaseView::CheckingCache(p@),
            Phase::ProbingRuntime => PhaseView::ProbingRuntime,
            Phase::ProbingManager => PhaseView::ProbingManager,
            Phase::CheckingInstalled => PhaseView::CheckingInstalled,
            Phase::Installing => PhaseView::Installing,
            Phase::LookingUpRoot => PhaseView::LookingUpRoot,
            Phase::CheckingPrimary(root) => PhaseView::CheckingPrimary(root@),
            Phase::CheckingAlternate(root) => PhaseView::CheckingAlternate(root@),
            Phase::RunningLookup => PhaseView::RunningLookup,
            Phase::VerifyingLookup(p) => PhaseView::VerifyingLookup(p@),
            Phase::Done(p) => PhaseView::Done(p@),
            Phase::Failed(e) => PhaseView::Failed(e@),
        }
    }
}

/// Name of the runtime probed before anything is installed.
pub open spec fn runtime_program() -> Seq<char> {
    "node"@
}

/// Name of the package manager used for queries and installs.
pub open spec fn manager_program() -> Seq<char> {
    "npm"@
}

/// Name of the installed package.
pub open spec fn package_name() -> Seq<char> {
    "dbml-language-server"@
}

/// Package together with the pinned version handed to the installer.
pub open spec fn package_with_version() -> Seq<char> {
    "dbml-language-server@0.1.0"@
}

/// Binary file name, per operating system.
pub open spec fn binary_name_of(os: Os) -> Seq<char> {
    if os is Windows {
        "dbml-language-server.exe"@
    } else {
        "dbml-language-server"@
    }
}

/// Name of the system lookup utility, per operating system.
pub open spec fn lookup_program_of(os: Os) -> Seq<char> {
    if os is Windows {
        "where"@
    } else {
        "which"@
    }
}

/// Arguments of a version probe.
pub open spec fn version_args() -> Seq<Seq<char>> {
    seq!["--version"@]
}

/// Arguments of the installed-package query.
pub open spec fn list_args() -> Seq<Seq<char>> {
    seq!["ls"@, "-g"@, package_name()]
}

/// Arguments of the install command.
pub open spec fn install_args() -> Seq<Seq<char>> {
    seq!["install"@, "-g"@, package_with_version()]
}

/// Arguments of the global-root query.
pub open spec fn root_args() -> Seq<Seq<char>> {
    seq!["root"@, "-g"@]
}

/// Well-known primary location of the binary under the global root.
pub open spec fn primary_candidate(root: Seq<char>) -> Seq<char> {
    root + "/dbml-language-server/bin/dbml-language-server"@
}

/// Well-known alternate location of the binary under the global root.
pub open spec fn alternate_candidate(root: Seq<char>) -> Seq<char> {
    root + "/.bin/dbml-language-server"@
}

/// Whether a command ran and exited successfully.
pub open spec fn command_ok(out: Option<OutputView>) -> bool {
    match out {
        Some(o) => o.status == Some(0i32),
        None => false,
    }
}

/// Cache, phase and actions a step leaves behind.
pub ghost struct StepOutcome {
    pub cache: Option<Seq<char>>,
    pub phase: PhaseView,
    pub actions: Seq<ActionView>,
}

/// Phase and actions a resolution attempt starts with: a file check of the
/// cached path if one is held, else the runtime probe.
pub open spec fn start_model(cache: Option<Seq<char>>) -> (PhaseView, Seq<ActionView>) {
    match cache {
        Some(p) => (
            PhaseView::CheckingCache(p),
            seq![ActionView::CheckFile(p)],
        ),
        None => (
            PhaseView::ProbingRuntime,
            seq![ActionView::RunCommand(runtime_program(), version_args())],
        ),
    }
}

/// Which event a phase awaits. Terminal phases await none.
pub open spec fn phase_expects(phase: PhaseView, event: EventView) -> bool {
    match phase {
        PhaseView::CheckingCache(_) => event is FileChecked,
        PhaseView::ProbingRuntime => event is CommandDone,
        PhaseView::ProbingManager => event is CommandDone,
        PhaseView::CheckingInstalled => event is CommandDone,
        PhaseView::Installing => event is CommandDone,
        PhaseView::LookingUpRoot => event is CommandDone,
        PhaseView::CheckingPrimary(_) => event is FileChecked,
        PhaseView::CheckingAlternate(_) => event is FileChecked,
        PhaseView::RunningLookup => event is CommandDone,
        PhaseView::VerifyingLookup(_) => event is FileChecked,
        PhaseView::Done(_) => false,
        PhaseView::Failed(_) => false,
    }
}

/// The transition table of the resolver: from the cache, the current phase
/// and the outcome of the awaited host action to the new cache, the next
/// phase and the actions to perform. Pairs that `phase_expects` rules out
/// change nothing.
pub open spec fn step_model(
    os: Os,
    cache: Option<Seq<char>>,
    phase: PhaseView,
    event: EventView,
) -> StepOutcome {
    match (phase, event) {
        (PhaseView::CheckingCache(p), EventView::FileChecked(true)) => StepOutcome {
            cache: Some(p),
            phase: PhaseView::Done(p),
            actions: Seq::empty(),
        },
        (PhaseView::CheckingCache(_), EventView::FileChecked(false)) => StepOutcome {
            cache: None,
            phase: PhaseView::ProbingRuntime,
            actions: seq![ActionView::RunCommand(runtime_program(), version_args())],
        },
        (PhaseView::ProbingRuntime, EventView::CommandDone(out)) => if command_ok(out) {
            StepOutcome {
                cache,
                phase: PhaseView::ProbingManager,
                actions: seq![ActionView::RunCommand(manager_program(), version_args())],
            }
        } else {
            StepOutcome {
                cache,
                phase: PhaseView::Failed(ErrorView::ToolchainMissing),
                actions: seq![ActionView::Report(StatusView::Failed(toolchain_missing_text()))],
            }
        },
        (PhaseView::ProbingManager, EventView::CommandDone(out)) => if command_ok(out) {
            StepOutcome {
                cache,
                phase: PhaseView::CheckingInstalled,
                actions: seq![
                    ActionView::Report(StatusView::CheckingForUpdate),
                    ActionView::RunCommand(manager_program(), list_args()),
                ],
            }
        } else {
            StepOutcome {
                cache,
                phase: PhaseView::Failed(ErrorView::ToolchainMissing),
                actions: seq![ActionView::Report(StatusView::Failed(toolchain_missing_text()))],
            }
        },
        (PhaseView::CheckingInstalled, EventView::CommandDone(out)) => match out {
            Some(o) => if o.status == Some(0i32) {
                StepOutcome {
                    cache,
                    phase: PhaseView::LookingUpRoot,
                    actions: seq![ActionView::RunCommand(manager_program(), root_args())],
                }
            } else {
                StepOutcome {
                    cache,
                    phase: PhaseView::Installing,
                    actions: seq![
                        ActionView::Report(StatusView::Downloading),
                        ActionView::RunCommand(manager_program(), install_args()),
                    ],
                }
            },
            None => StepOutcome {
                cache,
                phase: PhaseView::Failed(ErrorView::PackageListFailed),
                actions: seq![ActionView::Report(StatusView::Failed(package_list_failed_text()))],
            },
        },
        (PhaseView::Installing, EventView::CommandDone(out)) => match out {
            Some(o) => if o.status == Some(0i32) {
                StepOutcome {
                    cache,
                    phase: PhaseView::LookingUpRoot,
                    actions: seq![
                        ActionView::Report(StatusView::Downloaded),
                        ActionView::RunCommand(manager_program(), root_args()),
                    ],
                }
            } else {
                StepOutcome {
                    cache,
                    phase: PhaseView::Failed(
                        ErrorView::InstallFailed(install_fail_message(o.stderr)),
                    ),
                    actions: seq![
                        ActionView::Report(StatusView::Failed(install_fail_message(o.stderr))),
                    ],
                }
            },
            None => StepOutcome {
                cache,
                phase: PhaseView::Failed(
                    ErrorView::InstallFailed(install_launch_failed_text()),
                ),
                actions: seq![
                    ActionView::Report(StatusView::Failed(install_launch_failed_text())),
                ],
            },
        },
        (PhaseView::LookingUpRoot, EventView::CommandDone(out)) => match out {
            Some(o) => if o.status == Some(0i32) && first_line_of(o.stdout).len() > 0 {
                StepOutcome {
                    cache,
                    phase: PhaseView::CheckingPrimary(first_line_of(o.stdout)),
                    actions: seq![
                        ActionView::CheckFile(primary_candidate(first_line_of(o.stdout))),
                    ],
                }
            } else {
                StepOutcome {
                    cache,
                    phase: PhaseView::Failed(ErrorView::GlobalRootLookupFailed),
                    actions: seq![
                        ActionView::Report(StatusView::Failed(root_lookup_failed_text())),
                    ],
                }
            },
            None => StepOutcome {
                cache,
                phase: PhaseView::Failed(ErrorView::GlobalRootLookupFailed),
                actions: seq![ActionView::Report(StatusView::Failed(root_lookup_failed_text()))],
            },
        },
        (PhaseView::CheckingPrimary(root), EventView::FileChecked(true)) => StepOutcome {
            cache: Some(primary_candidate(root)),
            phase: PhaseView::Done(primary_candidate(root)),
            actions: seq![ActionView::Report(StatusView::Cleared)],
        },
        (PhaseView::CheckingPrimary(root), EventView::FileChecked(false)) => StepOutcome {
            cache,
            phase: PhaseView::CheckingAlternate(root),
            actions: seq![ActionView::CheckFile(alternate_candidate(root))],
        },
        (PhaseView::CheckingAlternate(root), EventView::FileChecked(true)) => StepOutcome {
            cache: Some(alternate_candidate(root)),
            phase: PhaseView::Done(alternate_candidate(root)),
            actions: seq![ActionView::Report(StatusView::Cleared)],
        },
        (PhaseView::CheckingAlternate(_), EventView::FileChecked(false)) => StepOutcome {
            cache,
            phase: PhaseView::RunningLookup,
            actions: seq![
                ActionView::RunCommand(lookup_program_of(os), seq![binary_name_of(os)]),
            ],
        },
        (PhaseView::RunningLookup, EventView::CommandDone(out)) => match out {
            Some(o) => if o.status == Some(0i32) && first_line_of(o.stdout).len() > 0 {
                StepOutcome {
                    cache,
                    phase: PhaseView::VerifyingLookup(first_line_of(o.stdout)),
                    actions: seq![ActionView::CheckFile(first_line_of(o.stdout))],
                }
            } else {
                StepOutcome {
                    cache,
                    phase: PhaseView::Failed(ErrorView::BinaryNotFound),
                    actions: seq![ActionView::Report(StatusView::Failed(binary_not_found_text()))],
                }
            },
            None => StepOutcome {
                cache,
                phase: PhaseView::Failed(ErrorView::BinaryNotFound),
                actions: seq![ActionView::Report(StatusView::Failed(binary_not_found_text()))],
            },
        },
        (PhaseView::VerifyingLookup(p), EventView::FileChecked(true)) => StepOutcome {
            cache: Some(p),
            phase: PhaseView::Done(p),
            actions: seq![ActionView::Report(StatusView::Cleared)],
        },
        (PhaseView::VerifyingLookup(_), EventView::FileChecked(false)) => StepOutcome {
            cache,
            phase: PhaseView::Failed(ErrorView::BinaryNotFound),
            actions: seq![ActionView::Report(StatusView::Failed(binary_not_found_text()))],
        },
        _ => StepOutcome { cache, phase, actions: Seq::empty() },
    }
}

/// Binary file name for `os`.
fn binary_name_str(os: Os) -> (r: &'static str)
    ensures
        r@ == binary_name_of(os),
{
    match os {
        Os::Windows => "dbml-language-server.exe",
        Os::Posix => "dbml-language-server",
    }
}

/// Name of the system lookup utility for `os`.
fn lookup_program_str(os: Os) -> (r: &'static str)
    ensures
        r@ == lookup_program_of(os),
{
    match os {
        Os::Windows => "where",
        Os::Posix => "which",
    }
}

/// One-element argument list.
fn one_arg(a0: &str) -> (r: Vec<String>)
    ensures
        r.deep_view() == seq![a0@],
{
    let mut r: Vec<String> = Vec::new();
    r.push(a0.to_owned());
    proof {
        assert(r.deep_view() =~= seq![a0@]);
    }
    r
}

/// Two-element argument list.
fn two_args(a0: &str, a1: &str) -> (r: Vec<String>)
    ensures
        r.deep_view() == seq![a0@, a1@],
{
    let mut r: Vec<String> = Vec::new();
    r.push(a0.to_owned());
    r.push(a1.to_owned());
    proof {
        assert(r.deep_view() =~= seq![a0@, a1@]);
    }
    r
}

/// Three-element argument list.
fn three_args(a0: &str, a1: &str, a2: &str) -> (r: Vec<String>)
    ensures
        r.deep_view() == seq![a0@, a1@, a2@],
{
    let mut r: Vec<String> = Vec::new();
    r.push(a0.to_owned());
    r.push(a1.to_owned());
    r.push(a2.to_owned());
    proof {
        assert(r.deep_view() =~= seq![a0@, a1@, a2@]);
    }
    r
}

/// Single action as a vector.
fn single_action(a: Action) -> (r: Vec<Action>)
    ensures
        r.deep_view() == seq![a@],
{
    let mut r: Vec<Action> = Vec::new();
    r.push(a);
    proof {
        assert(r.deep_view() =~= seq![r@[0]@]);
    }
    r
}

/// Two actions as a vector.
fn two_actions(a: Action, b: Action) -> (r: Vec<Action>)
    ensures
        r.deep_view() == seq![a@, b@],
{
    let mut r: Vec<Action> = Vec::new();
    r.push(a);
    r.push(b);
    proof {
        assert(r.deep_view() =~= seq![r@[0]@, r@[1]@]);
    }
    r
}

/// View of an optional command outcome.
pub open spec fn opt_output_view(out: Option<CommandOutput>) -> Option<OutputView> {
    match out {
        Some(o) => Some(o@),
        None => None,
    }
}

/// Whether `o` exited successfully.
fn output_succeeded(o: &CommandOutput) -> (r: bool)
    ensures
        r == (o.status == Some(0i32)),
{
    match o.status {
        Some(code) => code == 0,
        None => false,
    }
}

/// Whether `out` is a command outcome with a successful exit.
fn command_succeeded(out: &Option<CommandOutput>) -> (r: bool)
    ensures
        r == command_ok(opt_output_view(*out)),
{
    match out {
        Some(o) => match o.status {
            Some(code) => code == 0,
            None => false,
        },
        None => false,
    }
}

/// Builds the primary candidate path under the global root.
fn primary_candidate_string(root: &String) -> (r: String)
    ensures
        r@ == primary_candidate(root@),
{
    let mut r = root.clone();
    r.append("/dbml-language-server/bin/dbml-language-server");
    r
}

/// Builds the alternate candidate path under the global root.
fn alternate_candidate_string(root: &String) -> (r: String)
    ensures
        r@ == alternate_candidate(root@),
{
    let mut r = root.clone();
    r.append("/.bin/dbml-language-server");
    r
}

/// Launch specification handed to the host for a resolved binary: the
/// executable, its argument list, and environment overrides.
pub struct LaunchSpec {
    pub command: String,
    pub args: Vec<String>,
    pub env: Vec<(String, String)>,
}

/// The resolver. It owns the one piece of state that outlives a resolution
/// attempt: the cached path of a previously resolved binary. The cache is
/// trusted only after a file check; a stale entry is dropped.
pub struct DbmlExtension {
    pub cached_binary_path: Option<String>,
}

impl DbmlExtension {
    /// View of the cache as an optional character sequence.
    pub open spec fn cache_view(&self) -> Option<Seq<char>> {
        match self.cached_binary_path {
            Some(p) => Some(p@),
            None => None,
        }
    }

    /// Fresh resolver with an empty cache.
    pub fn new() -> (r: DbmlExtension)
        ensures
            r.cache_view() is None,
    {
        DbmlExtension { cached_binary_path: None }
    }

    /// Binary file name for `os`.
    pub fn get_binary_name(&self, os: Os) -> (r: &'static str)
        ensures
            r@ == binary_name_of(os),
    {
        binary_name_str(os)
    }

    /// First phase and actions of a resolution attempt, per `start_model`:
    /// a file check of the cached path if one is held, else the runtime
    /// probe. The cache itself is untouched.
    pub fn start_resolution(&self) -> (r: (Phase, Vec<Action>))
        ensures
            ({
                let m = start_model(self.cache_view());
                r.0@ == m.0 && r.1.deep_view() == m.1
            }),
    {
        match &self.cached_binary_path {
            Some(p) => {
                let acts = single_action(Action::CheckFile(p.clone()));
                (Phase::CheckingCache(p.clone()), acts)
            },
            None => {
                let acts = single_action(
                    Action::RunCommand("node".to_owned(), one_arg("--version")),
                );
                (Phase::ProbingRuntime, acts)
            },
        }
    }

    /// One step of the resolver, per `step_model`: consumes the outcome of
    /// the awaited host action and decides the next phase, the actions to
    /// perform, and the new cache contents.
    pub fn step(&mut self, os: Os, phase: Phase, event: Event) -> (r: (Phase, Vec<Action>))
        requires
            phase_expects(phase@, event@),
        ensures
            ({
                let m = step_model(os, old(self).cache_view(), phase@, event@);
                &&& final(self).cache_view() == m.cache
                &&& r.0@ == m.phase
                &&& r.1.deep_view() == m.actions
            }),
    {
        match phase {
            Phase::CheckingCache(p) => match event {
                Event::FileChecked(hit) => {
                    if hit {
                        self.cached_binary_path = Some(p.clone());
                        let acts: Vec<Action> = Vec::new();
                        proof {
                            assert(acts.deep_view() =~= Seq::<ActionView>::empty());
                        }
                        (Phase::Done(p), acts)
                    } else {
                        self.cached_binary_path = None;
                        let acts = single_action(
                            Action::RunCommand("node".to_owned(), one_arg("--version")),
                        );
                        (Phase::ProbingRuntime, acts)
                    }
                },
                _ => vstd::pervasive::unreached(),
            },
            Phase::ProbingRuntime => match event {
                Event::CommandDone(out) => {
                    if command_succeeded(&out) {
                        let acts = single_action(
                            Action::RunCommand("npm".to_owned(), one_arg("--version")),
                        );
                        (Phase::ProbingManager, acts)
                    } else {
                        let err = ResolveError::ToolchainMissing;
                        let msg = err.message();
                        let acts = single_action(
                            Action::Report(InstallationStatus::Failed(msg)),
                        );
                        (Phase::Failed(err), acts)
                    }
                },
                _ => vstd::pervasive::unreached(),
            },
            Phase::ProbingManager => match event {
                Event::CommandDone(out) => {
                    if command_succeeded(&out) {
                        let acts = two_actions(
                            Action::Report(InstallationStatus::CheckingForUpdate),
                            Action::RunCommand(
                                "npm".to_owned(),
                                three_args("ls", "-g", "dbml-language-server"),
                            ),
                        );
                        (Phase::CheckingInstalled, acts)
                    } else {
                        let err = ResolveError::ToolchainMissing;
                        let msg = err.message();
                        let acts = single_action(
                            Action::Report(InstallationStatus::Failed(msg)),
                        );
                        (Phase::Failed(err), acts)
                    }
                },
                _ => vstd::pervasive::unreached(),
            },
            Phase::CheckingInstalled => match event {
                Event::CommandDone(out) => match out {
                    Some(o) => {
                        if output_succeeded(&o) {
                            let acts = single_action(
                                Action::RunCommand("npm".to_owned(), two_args("root", "-g")),
                            );
                            (Phase::LookingUpRoot, acts)
                        } else {
                            let acts = two_actions(
                                Action::Report(InstallationStatus::Downloading),
                                Action::RunCommand(
                                    "npm".to_owned(),
                                    three_args("install", "-g", "dbml-language-server@0.1.0"),
                                ),
                            );
                            (Phase::Installing, acts)
                        }
                    },
                    None => {
                        let err = ResolveError::PackageListFailed;
                        let msg = err.message();
                        let acts = single_action(
                            Action::Report(InstallationStatus::Failed(msg)),
                        );
                        (Phase::Failed(err), acts)
                    },
                },
                _ => vstd::pervasive::unreached(),
            },
            Phase::Installing => match event {
                Event::CommandDone(out) => match out {
                    Some(o) => {
                        if output_succeeded(&o) {
                            let acts = two_actions(
                                Action::Report(InstallationStatus::Downloaded),
                                Action::RunCommand("npm".to_owned(), two_args("root", "-g")),
                            );
                            (Phase::LookingUpRoot, acts)
                        } else {
                            let msg = install_fail_message_string(o.stderr.as_str());
                            let acts = single_action(
                                Action::Report(InstallationStatus::Failed(msg.clone())),
                            );
                            (Phase::Failed(ResolveError::InstallFailed(msg)), acts)
                        }
                    },
                    None => {
                        let msg = install_launch_failed_string();
                        let acts = single_action(
                            Action::Report(InstallationStatus::Failed(msg.clone())),
                        );
                        (Phase::Failed(ResolveError::InstallFailed(msg)), acts)
                    },
                },
                _ => vstd::pervasive::unreached(),
            },
            Phase::LookingUpRoot => match event {
                Event::CommandDone(out) => match out {
                    Some(o) => {
                        if output_succeeded(&o) {
                            let root = first_line_trimmed(o.stdout.as_str());
                            if root.as_str().is_empty() {
                                let err = ResolveError::GlobalRootLookupFailed;
                                let msg = err.message();
                                let acts = single_action(
                                    Action::Report(InstallationStatus::Failed(msg)),
                                );
                                (Phase::Failed(err), acts)
                            } else {
                                let acts = single_action(
                                    Action::CheckFile(primary_candidate_string(&root)),
                                );
                                (Phase::CheckingPrimary(root), acts)
                            }
                        } else {
                            let err = ResolveError::GlobalRootLookupFailed;
                            let msg = err.message();
                            let acts = single_action(
                                Action::Report(InstallationStatus::Failed(msg)),
                            );
                            (Phase::Failed(err), acts)
                        }
                    },
                    None => {
                        let err = ResolveError::GlobalRootLookupFailed;
                        let msg = err.message();
                        let acts = single_action(
                            Action::Report(InstallationStatus::Failed(msg)),
                        );
                        (Phase::Failed(err), acts)
                    },
                },
                _ => vstd::pervasive::unreached(),
            },
            Phase::CheckingPrimary(root) => match event {
                Event::FileChecked(hit) => {
                    if hit {
                        let found = primary_candidate_string(&root);
                        self.cached_binary_path = Some(found.clone());
                        let acts = single_action(
                            Action::Report(InstallationStatus::Cleared),
                        );
                        (Phase::Done(found), acts)
                    } else {
                        let acts = single_action(
                            Action::CheckFile(alternate_candidate_string(&root)),
                        );
                        (Phase::CheckingAlternate(root), acts)
                    }
                },
                _ => vstd::pervasive::unreached(),
            },
            Phase::CheckingAlternate(root) => match event {
                Event::FileChecked(hit) => {
                    if hit {
                        let found = alternate_candidate_string(&root);
                        self.cached_binary_path = Some(found.clone());
                        let acts = single_action(
                            Action::Report(InstallationStatus::Cleared),
                        );
                        (Phase::Done(found), acts)
                    } else {
                        let acts = single_action(
                            Action::RunCommand(
                                lookup_program_str(os).to_owned(),
                                one_arg(binary_name_str(os)),
                            ),
                        );
                        (Phase::RunningLookup, acts)
                    }
                },
                _ => vstd::pervasive::unreached(),
            },
            Phase::RunningLookup => match event {
                Event::CommandDone(out) => match out {
                    Some(o) => {
                        if output_succeeded(&o) {
                            let candidate = first_line_trimmed(o.stdout.as_str());
                            if candidate.as_str().is_empty() {
                                let err = ResolveError::BinaryNotFound;
                                let msg = err.message();
                                let acts = single_action(
                                    Action::Report(InstallationStatus::Failed(msg)),
                                );
                                (Phase::Failed(err), acts)
                            } else {
                                let acts = single_action(
                                    Action::CheckFile(candidate.clone()),
                                );
                                (Phase::VerifyingLookup(candidate), acts)
                            }
                        } else {
                            let err = ResolveError::BinaryNotFound;
                            let msg = err.message();
                            let acts = single_action(
                                Action::Report(InstallationStatus::Failed(msg)),
                            );
                            (Phase::Failed(err), acts)
                        }
                    },
                    None => {
                        let err = ResolveError::BinaryNotFound;
                        let msg = err.message();
                        let acts = single_action(
                            Action::Report(InstallationStatus::Failed(msg)),
                        );
                        (Phase::Failed(err), acts)
                    },
                },
                _ => vstd::pervasive::unreached(),
            },
            Phase::VerifyingLookup(candidate) => match event {
                Event::FileChecked(hit) => {
                    if hit {
                        self.cached_binary_path = Some(candidate.clone());
                        let acts = single_action(
                            Action::Report(InstallationStatus::Cleared),
                        );
                        (Phase::Done(candidate), acts)
                    } else {
                        let err = ResolveError::BinaryNotFound;
                        let msg = err.message();
                        let acts = single_action(
                            Action::Report(InstallationStatus::Failed(msg)),
                        );
                        (Phase::Failed(err), acts)
                    }
                },
                _ => vstd::pervasive::unreached(),
            },
            Phase::Done(_) => vstd::pervasive::unreached(),
            Phase::Failed(_) => vstd::pervasive::unreached(),
        }
    }

    /// Launch specification for a resolved binary: the binary itself, no
    /// arguments, no environment overrides.
    pub fn language_server_command(&self, binary_path: String) -> (c: LaunchSpec)
        ensures
            c.command@ == binary_path@,
            c.args@.len() == 0,
            c.env@.len() == 0,
    {
        LaunchSpec { command: binary_path, args: Vec::new(), env: Vec::new() }
    }
}

/// A cached path that still exists as a file is returned unchanged, and the
/// whole resolution runs no command: it starts with a single file check, and
/// its success ends the attempt at once with the cached path, the cache
/// untouched.
pub proof fn lemma_cached_hit_runs_no_commands(os: Os, p: Seq<char>)
    ensures
        ({
            let s = start_model(Some(p));
            let m = step_model(os, Some(p), s.0, EventView::FileChecked(true));
            &&& s.0 == PhaseView::CheckingCache(p)
            &&& forall|i: int| 0 <= i < s.1.len() ==> !(#[trigger] s.1[i] is RunCommand)
            &&& m.phase == PhaseView::Done(p)
            &&& m.cache == Some(p)
            &&& forall|i: int| 0 <= i < m.actions.len() ==> !(#[trigger] m.actions[i] is RunCommand)
        }),
{
}

/// A cached path whose file is gone is never returned: the step drops it
/// from the cache and resolution proceeds from the first toolchain probe.
pub proof fn lemma_stale_cache_is_dropped(os: Os, p: Seq<char>)
    ensures
        ({
            let m = step_model(os, Some(p), PhaseView::CheckingCache(p), EventView::FileChecked(false));
            &&& m.cache is None
            &&& m.phase == PhaseView::ProbingRuntime
            &&& m.actions =~= seq![ActionView::RunCommand(runtime_program(), version_args())]
        }),
{
}

/// A failed toolchain probe — of the runtime or of the package manager —
/// ends resolution with `ToolchainMissing`; the only action is the failure
/// report, so no install (and no other command) is ever attempted.
pub proof fn lemma_failed_probe_stops_resolution(
    os: Os,
    cache: Option<Seq<char>>,
    out: Option<OutputView>,
)
    requires
        !command_ok(out),
    ensures
        ({
            let m = step_model(os, cache, PhaseView::ProbingRuntime, EventView::CommandDone(out));
            &&& m.phase == PhaseView::Failed(ErrorView::ToolchainMissing)
            &&& m.cache == cache
            &&& m.actions =~= seq![ActionView::Report(StatusView::Failed(toolchain_missing_text()))]
        }),
        ({
            let m = step_model(os, cache, PhaseView::ProbingManager, EventView::CommandDone(out));
            &&& m.phase == PhaseView::Failed(ErrorView::ToolchainMissing)
            &&& m.cache == cache
            &&& m.actions =~= seq![ActionView::Report(StatusView::Failed(toolchain_missing_text()))]
        }),
{
}

/// When the installed-package query succeeds, the install step is skipped:
/// the resolver moves straight to the global-root lookup, with no install
/// command and no `Downloading` report.
pub proof fn lemma_installed_package_skips_install(
    os: Os,
    cache: Option<Seq<char>>,
    out: Option<OutputView>,
)
    requires
        command_ok(out),
    ensures
        ({
            let m = step_model(os, cache, PhaseView::CheckingInstalled, EventView::CommandDone(out));
            &&& m.phase == PhaseView::LookingUpRoot
            &&& m.cache == cache
            &&& m.actions =~= seq![ActionView::RunCommand(manager_program(), root_args())]
        }),
{
}

/// An install that exits with an error ends resolution with `InstallFailed`,
/// whose message carries the captured standard-error text verbatim, and the
/// same message is reported to the host as a `Failed` status.
pub proof fn lemma_install_failure_keeps_stderr(
    os: Os,
    cache: Option<Seq<char>>,
    o: OutputView,
)
    requires
        o.status != Some(0i32),
    ensures
        ({
            let m = step_model(os, cache, PhaseView::Installing, EventView::CommandDone(Some(o)));
            let msg = install_fail_message(o.stderr);
            &&& m.phase == PhaseView::Failed(ErrorView::InstallFailed(msg))
            &&& m.cache == cache
            &&& m.actions =~= seq![ActionView::Report(StatusView::Failed(msg))]
            &&& msg.subrange(
                install_fail_prefix().len() as int,
                install_fail_prefix().len() + o.stderr.len() as int,
            ) == o.stderr
        }),
{
    lemma_install_fail_message_keeps_stderr(o.stderr);
}

/// Every step requests at most one probe (a file check or a command), it
/// stands after any status reports, and a probe is requested exactly when
/// the next phase awaits an outcome: a terminal phase leaves only reports
/// behind.
pub proof fn lemma_step_requests_one_probe(
    os: Os,
    cache: Option<Seq<char>>,
    phase: PhaseView,
    event: EventView,
)
    requires
        phase_expects(phase, event),
    ensures
        ({
            let m = step_model(os, cache, phase, event);
            &&& forall|i: int| 0 <= i < m.actions.len() - 1 ==> (#[trigger] m.actions[i]) is Report
            &&& (m.phase is Done || m.phase is Failed) <==> (m.actions.len() == 0
                || m.actions.last() is Report)
        }),
{
}

/// Of a successful lookup-utility run only the first line of the trimmed
/// output is taken as a candidate, and it is verified to exist before it is
/// returned: the candidate is first handed back as a file check, a failed
/// check ends with `BinaryNotFound`, and only a successful check resolves to
/// the candidate.
pub proof fn lemma_lookup_takes_first_line_and_verifies_it(
    os: Os,
    cache: Option<Seq<char>>,
    o: OutputView,
)
    requires
        o.status == Some(0i32),
        first_line_of(o.stdout).len() > 0,
    ensures
        ({
            let m = step_model(os, cache, PhaseView::RunningLookup, EventView::CommandDone(Some(o)));
            let candidate = first_line_of(o.stdout);
            &&& m.phase == PhaseView::VerifyingLookup(candidate)
            &&& m.cache == cache
            &&& m.actions =~= seq![ActionView::CheckFile(candidate)]
            &&& step_model(os, cache, m.phase, EventView::FileChecked(false)).phase
                == PhaseView::Failed(ErrorView::BinaryNotFound)
            &&& step_model(os, cache, m.phase, EventView::FileChecked(true)).phase
                == PhaseView::Done(candidate)
        }),
{
}

} // verus!


