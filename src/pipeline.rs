//! The invocation supervisor as a state machine. The caller performs each
//! `Action` (resolution, installation, reading input, creating and running
//! the worker) and reports back the matching `Event`; the machine decides the
//! next step, until it hands out exactly one outcome.

use vstd::prelude::*;
use crate::exit::{CliError, code_of};
use crate::worker::{ExecutionMode, WorkerHandle, WorkerState, eval_source, eval_source_of};

verus! {

/// How the installed packages are managed.
#[derive(Clone, Copy, Debug, PartialEq, Eq, Structural)]
pub enum NodeModulesDirMode {
    /// Installed automatically before a run.
    Auto,
    /// Installed by the user.
    Manual,
    /// No package directory.
    Disabled,
}

/// The parts of the parsed command line that the pipeline reads.
#[derive(Clone, Copy, Debug, PartialEq, Eq, Structural)]
pub struct Flags {
    /// Some permission was granted by a flag.
    pub has_permission: bool,
    /// A permission flag stands among the script's own arguments.
    pub has_permission_in_argv: bool,
    /// The configured package management mode, if any.
    pub node_modules_dir: Option<NodeModulesDirMode>,
}

/// The flags of an inline-code invocation.
#[derive(Clone, Debug)]
pub struct EvalFlags {
    pub code: String,
    /// Print the value of the code taken as an expression.
    pub print: bool,
}

/// Where the entry module comes from.
#[derive(Clone, Debug)]
pub enum ScriptSource {
    FilePath(String),
    StandardInput,
    InlineCode { code: String, print: bool },
}

/// The entry module as the resolver found it.
#[derive(Clone, Debug)]
pub struct ResolvedModule {
    pub specifier: String,
    /// The URL scheme, such as "file", "https" or "npm".
    pub scheme: String,
}

/// How an invocation ended.
#[derive(Clone, Debug)]
pub enum ExecutionOutcome {
    /// The script completed with this exit code.
    Code(i32),
    /// A stage failed.
    Failed(CliError),
}

/// The shapes in which a subcommand reports success.
#[derive(Clone, Copy, Debug, PartialEq, Eq, Structural)]
pub enum SubcommandResult {
    Succeeded,
    SucceededWithCode(i32),
}

/// Where an invocation stands.
#[derive(Clone, Copy, Debug, PartialEq, Eq, Structural)]
pub enum Stage {
    ResolveMain,
    SetUserAgent,
    EnsureDeps,
    ReadInput,
    RegisterSource,
    CreateWorker,
    RunWorker,
    Done,
}

/// What the caller must do next.
#[derive(Clone, Debug)]
pub enum Action {
    /// Resolve the entry module; answer with `Event::Resolved`.
    ResolveMainModule,
    /// Tag outbound registry requests with the client identifier, once per
    /// process; answer with `Event::Acknowledged`.
    SetNpmUserAgent,
    /// Install the declared packages; answer with `Event::Installed`.
    EnsureInstalled,
    /// Read standard input to its end; answer with `Event::InputRead`.
    ReadStdin,
    /// Store this text as the entry module's source; answer with
    /// `Event::Acknowledged`.
    RegisterText(String),
    /// Store these bytes as the entry module's source; answer with
    /// `Event::Acknowledged`.
    RegisterBytes(Vec<u8>),
    /// Create the worker for the entry module, with the installed permission
    /// gateway; answer with `Event::WorkerCreated`.
    CreateWorker(ExecutionMode),
    /// Run the worker to its end; answer with `Event::WorkerFinished`.
    RunWorker,
    /// The invocation is over: its outcome is `Invocation::outcome`.
    Exit,
}

/// The result of the last action.
#[derive(Debug)]
pub enum Event {
    Resolved(Result<ResolvedModule, CliError>),
    Acknowledged,
    Installed(Result<(), CliError>),
    InputRead(Result<Vec<u8>, CliError>),
    WorkerCreated(Result<(), CliError>),
    WorkerFinished(Result<i32, CliError>),
}

/// Whether a warning is due: no permission was granted, yet a permission
/// flag stands after the script argument.
pub fn check_permission_before_script(flags: &Flags) -> (warn: bool)
    ensures
        warn == (!flags.has_permission && flags.has_permission_in_argv),
{
    !flags.has_permission && flags.has_permission_in_argv
}

/// The engine flag set by default: a larger heap for the language server,
/// and import assertions off for every other subcommand.
pub open spec fn default_v8_flag(language_server: bool) -> Seq<char> {
    if language_server {
        "--max-old-space-size=3072"@
    } else {
        "--no-harmony-import-assertions"@
    }
}

/// The default engine flags of a subcommand.
pub fn default_v8_flags(language_server: bool) -> (r: Vec<String>)
    ensures
        r@.len() == 1,
        r@[0]@ == default_v8_flag(language_server),
{
    let mut flag = String::new();
    if language_server {
        flag.append("--max-old-space-size=3072");
    } else {
        flag.append("--no-harmony-import-assertions");
    }
    let mut r: Vec<String> = Vec::new();
    r.push(flag);
    r
}

/// Whether the declared packages are installed before the run: exactly when
/// the mode is automatic.
pub fn maybe_npm_install(flags: &Flags) -> (install: bool)
    ensures
        install == (flags.node_modules_dir == Some(NodeModulesDirMode::Auto)),
{
    match flags.node_modules_dir {
        Some(NodeModulesDirMode::Auto) => true,
        _ => false,
    }
}

/// The scheme "npm" of package-registry modules.
pub open spec fn npm_scheme() -> Seq<char> {
    seq!['n', 'p', 'm']
}

/// Whether a module scheme is the package registry's "npm".
pub fn is_npm_scheme(scheme: &str) -> (b: bool)
    ensures
        b == (scheme@ == npm_scheme()),
{
    if scheme.unicode_len() != 3 {
        return false;
    }
    let b = scheme.get_char(0) == 'n' && scheme.get_char(1) == 'p' && scheme.get_char(2) == 'm';
    if b {
        assert(scheme@ =~= npm_scheme());
    } else {
        assert(scheme@ != npm_scheme()) by {
            if scheme@ == npm_scheme() {
                assert(scheme@[0] == 'n' && scheme@[1] == 'p' && scheme@[2] == 'm');
            }
        }
    }
    b
}

/// Every outcome as one result shape.
pub fn into_outcome(r: Result<SubcommandResult, CliError>) -> (o: ExecutionOutcome)
    ensures
        o == match r {
            Ok(SubcommandResult::Succeeded) => ExecutionOutcome::Code(0),
            Ok(SubcommandResult::SucceededWithCode(c)) => ExecutionOutcome::Code(c),
            Err(e) => ExecutionOutcome::Failed(e),
        },
{
    match r {
        Ok(SubcommandResult::Succeeded) => ExecutionOutcome::Code(0),
        Ok(SubcommandResult::SucceededWithCode(c)) => ExecutionOutcome::Code(c),
        Err(e) => ExecutionOutcome::Failed(e),
    }
}

/// The process exit code of an outcome.
pub open spec fn exit_code_of(o: ExecutionOutcome) -> i32 {
    match o {
        ExecutionOutcome::Code(c) => c,
        ExecutionOutcome::Failed(e) => code_of(e),
    }
}

/// The process exit code of an outcome.
pub fn exit_code(o: &ExecutionOutcome) -> (c: i32)
    ensures
        c == exit_code_of(*o),
{
    match o {
        ExecutionOutcome::Code(c) => *c,
        ExecutionOutcome::Failed(e) => crate::exit::exit_for_error(e).code,
    }
}

/// The kind of a script source.
#[derive(Clone, Copy, Debug, PartialEq, Eq, Structural)]
pub enum SourceKind {
    File,
    Stdin,
    Inline,
}

pub open spec fn kind_of(s: ScriptSource) -> SourceKind {
    match s {
        ScriptSource::FilePath(_) => SourceKind::File,
        ScriptSource::StandardInput => SourceKind::Stdin,
        ScriptSource::InlineCode { .. } => SourceKind::Inline,
    }
}

/// How many steps at most are left from a stage.
pub open spec fn rank(s: Stage) -> nat {
    match s {
        Stage::ResolveMain => 7,
        Stage::SetUserAgent => 6,
        Stage::EnsureDeps => 5,
        Stage::ReadInput => 4,
        Stage::RegisterSource => 3,
        Stage::CreateWorker => 2,
        Stage::RunWorker => 1,
        Stage::Done => 0,
    }
}

/// The stage after the packages are in place.
pub open spec fn stage_after_deps(k: SourceKind) -> Stage {
    match k {
        SourceKind::File => Stage::CreateWorker,
        SourceKind::Stdin => Stage::ReadInput,
        SourceKind::Inline => Stage::RegisterSource,
    }
}

/// The stage where the package gate is passed: installation only in the
/// automatic mode.
pub open spec fn stage_from_deps(install: bool, k: SourceKind) -> Stage {
    if install {
        Stage::EnsureDeps
    } else {
        stage_after_deps(k)
    }
}

/// The stage after the entry module was resolved.
pub open spec fn stage_after_resolve(npm: bool, install: bool, k: SourceKind) -> Stage {
    if npm {
        Stage::SetUserAgent
    } else {
        stage_from_deps(install, k)
    }
}

/// Whether `e` answers the action of stage `s`.
pub open spec fn accepts(s: Stage, e: Event) -> bool {
    match s {
        Stage::ResolveMain => e is Resolved,
        Stage::SetUserAgent => e is Acknowledged,
        Stage::EnsureDeps => e is Installed,
        Stage::ReadInput => e is InputRead,
        Stage::RegisterSource => e is Acknowledged,
        Stage::CreateWorker => e is WorkerCreated,
        Stage::RunWorker => e is WorkerFinished,
        Stage::Done => false,
    }
}

/// The outcome that an event settles, if any: every failure, and the end of
/// the run.
pub open spec fn event_outcome(e: Event) -> Option<ExecutionOutcome> {
    match e {
        Event::Resolved(Err(x)) => Some(ExecutionOutcome::Failed(x)),
        Event::Installed(Err(x)) => Some(ExecutionOutcome::Failed(x)),
        Event::InputRead(Err(x)) => Some(ExecutionOutcome::Failed(x)),
        Event::WorkerCreated(Err(x)) => Some(ExecutionOutcome::Failed(x)),
        Event::WorkerFinished(Err(x)) => Some(ExecutionOutcome::Failed(x)),
        Event::WorkerFinished(Ok(c)) => Some(ExecutionOutcome::Code(c)),
        _ => None,
    }
}

/// The stage that follows `s` on an accepted event `e`.
pub open spec fn next_stage(s: Stage, k: SourceKind, install: bool, e: Event) -> Stage {
    if event_outcome(e) is Some {
        Stage::Done
    } else {
        match e {
            Event::Resolved(Ok(m)) => stage_after_resolve(m.scheme@ == npm_scheme(), install, k),
            Event::Acknowledged => if s == Stage::SetUserAgent {
                stage_from_deps(install, k)
            } else {
                Stage::CreateWorker
            },
            Event::Installed(_) => stage_after_deps(k),
            Event::InputRead(_) => Stage::RegisterSource,
            _ => Stage::RunWorker,
        }
    }
}

/// The action that entering stage `s` asks for.
pub open spec fn action_fits(s: Stage, a: Action, source: ScriptSource, mode: ExecutionMode) -> bool {
    match s {
        Stage::ResolveMain => a is ResolveMainModule,
        Stage::SetUserAgent => a is SetNpmUserAgent,
        Stage::EnsureDeps => a is EnsureInstalled,
        Stage::ReadInput => a is ReadStdin,
        Stage::RegisterSource => match source {
            ScriptSource::InlineCode { code, print } => a is RegisterText
                && a->RegisterText_0@ == eval_source_of(code@, print),
            _ => a is RegisterBytes,
        },
        Stage::CreateWorker => a == Action::CreateWorker(mode),
        Stage::RunWorker => a is RunWorker,
        Stage::Done => a is Exit,
    }
}

/// One invocation: its source, its package gate, and where it stands.
pub struct Invocation {
    source: ScriptSource,
    mode: ExecutionMode,
    install: bool,
    stage: Stage,
    module: Option<ResolvedModule>,
    worker: Option<WorkerHandle>,
    outcome: Option<ExecutionOutcome>,
    installs: Ghost<nat>,
    creates: Ghost<nat>,
}

impl Invocation {
    pub closed spec fn source_of(&self) -> ScriptSource {
        self.source
    }

    pub closed spec fn mode_of(&self) -> ExecutionMode {
        self.mode
    }

    /// Whether the packages are installed before the run.
    pub closed spec fn install_of(&self) -> bool {
        self.install
    }

    pub closed spec fn stage_of(&self) -> Stage {
        self.stage
    }

    /// The entry module, once resolved.
    pub closed spec fn module_of(&self) -> Option<ResolvedModule> {
        self.module
    }

    /// The lifecycle of the worker, once created.
    pub closed spec fn worker_of(&self) -> Option<WorkerHandle> {
        self.worker
    }

    pub closed spec fn outcome_of(&self) -> Option<ExecutionOutcome> {
        self.outcome
    }

    /// How many times installation was asked for.
    pub closed spec fn installs(&self) -> nat {
        self.installs@
    }

    /// How many times worker creation was asked for.
    pub closed spec fn creates(&self) -> nat {
        self.creates@
    }

    pub open spec fn kind(&self) -> SourceKind {
        kind_of(self.source_of())
    }

    pub open spec fn is_done(&self) -> bool {
        self.stage_of() == Stage::Done
    }

    /// The invariant of every invocation.
    pub open spec fn wf(&self) -> bool {
        &&& (self.outcome_of() is Some) == self.is_done()
        &&& self.installs() <= 1
        &&& self.installs() == 1 ==> self.install_of()
        &&& rank(self.stage_of()) > 5 ==> self.installs() == 0
        &&& self.stage_of() == Stage::EnsureDeps ==> self.installs() == 1
        &&& self.creates() <= 1
        &&& rank(self.stage_of()) > 2 ==> self.creates() == 0 && self.worker_of() is None
        &&& self.stage_of() == Stage::CreateWorker ==> self.creates() == 1 && self.worker_of() is None
        &&& self.stage_of() == Stage::RunWorker ==> self.creates() == 1 && self.worker_of() is Some
            && self.worker_of()->Some_0.state_of() == WorkerState::Running
        &&& self.worker_of() is Some ==> self.creates() == 1
        &&& self.is_done() && self.worker_of() is Some ==> self.worker_of()->Some_0.is_terminal()
        &&& self.stage_of() == Stage::ResolveMain ==> self.module_of() is None
        &&& rank(self.stage_of()) < 7 && rank(self.stage_of()) > 0 ==> self.module_of() is Some
        &&& self.stage_of() == Stage::ReadInput ==> self.kind() == SourceKind::Stdin
        &&& self.stage_of() == Stage::RegisterSource ==> self.kind() != SourceKind::File
    }

    fn start(source: ScriptSource, mode: ExecutionMode, flags: &Flags) -> (r: (Invocation, Action))
        ensures
            r.0.wf(),
            r.0.source_of() == source,
            r.0.mode_of() == mode,
            r.0.install_of() == (flags.node_modules_dir == Some(NodeModulesDirMode::Auto)),
            r.0.stage_of() == Stage::ResolveMain,
            r.0.installs() == 0,
            r.0.creates() == 0,
            r.1 is ResolveMainModule,
    {
        let install = maybe_npm_install(flags);
        let inv = Invocation {
            source,
            mode,
            install,
            stage: Stage::ResolveMain,
            module: None,
            worker: None,
            outcome: None,
            installs: Ghost(0),
            creates: Ghost(0),
        };
        (inv, Action::ResolveMainModule)
    }

    pub fn stage(&self) -> (s: Stage)
        ensures
            s == self.stage_of(),
    {
        self.stage
    }

    /// The outcome, once the invocation is over.
    pub fn outcome(&self) -> (o: Option<&ExecutionOutcome>)
        ensures
            o == match self.outcome_of() {
                Some(x) => Some(&x),
                None => None::<&ExecutionOutcome>,
            },
    {
        match &self.outcome {
            Some(x) => Some(x),
            None => None,
        }
    }

    /// The resolved entry module, once known.
    pub fn module(&self) -> (m: Option<&ResolvedModule>)
        ensures
            m == match self.module_of() {
                Some(x) => Some(&x),
                None => None::<&ResolvedModule>,
            },
    {
        match &self.module {
            Some(x) => Some(x),
            None => None,
        }
    }

    /// Whether `event` answers the pending action.
    pub fn accepts(&self, event: &Event) -> (b: bool)
        ensures
            b == accepts(self.stage_of(), *event),
    {
        match self.stage {
            Stage::ResolveMain => matches!(event, Event::Resolved(_)),
            Stage::SetUserAgent => matches!(event, Event::Acknowledged),
            Stage::EnsureDeps => matches!(event, Event::Installed(_)),
            Stage::ReadInput => matches!(event, Event::InputRead(_)),
            Stage::RegisterSource => matches!(event, Event::Acknowledged),
            Stage::CreateWorker => matches!(event, Event::WorkerCreated(_)),
            Stage::RunWorker => matches!(event, Event::WorkerFinished(_)),
            Stage::Done => false,
        }
    }
}

/// Two states of one invocation with the same source and configuration.
pub open spec fn same_setup(a: Invocation, b: Invocation) -> bool {
    &&& a.source_of() == b.source_of()
    &&& a.mode_of() == b.mode_of()
    &&& a.install_of() == b.install_of()
}

impl Invocation {
    fn finish(&mut self, o: ExecutionOutcome) -> (a: Action)
        requires
            old(self).outcome_of() is None,
        ensures
            same_setup(*old(self), *final(self)),
            final(self).stage_of() == Stage::Done,
            final(self).outcome_of() == Some(o),
            final(self).module_of() == old(self).module_of(),
            final(self).worker_of() == old(self).worker_of(),
            final(self).installs() == old(self).installs(),
            final(self).creates() == old(self).creates(),
            a is Exit,
    {
        self.stage = Stage::Done;
        self.outcome = Some(o);
        Action::Exit
    }

    /// Enters the stage that follows the package gate.
    fn enter_after_deps(&mut self) -> (a: Action)
        requires
            old(self).creates() == 0,
            old(self).worker_of() is None,
        ensures
            same_setup(*old(self), *final(self)),
            final(self).stage_of() == stage_after_deps(old(self).kind()),
            action_fits(final(self).stage_of(), a, final(self).source_of(), final(self).mode_of()),
            final(self).creates() == (if final(self).stage_of() == Stage::CreateWorker {
                1nat
            } else {
                0nat
            }),
            final(self).installs() == old(self).installs(),
            final(self).module_of() == old(self).module_of(),
            final(self).worker_of() == old(self).worker_of(),
            final(self).outcome_of() == old(self).outcome_of(),
    {
        let (stage, a) = match &self.source {
            ScriptSource::FilePath(_) => (Stage::CreateWorker, Action::CreateWorker(self.mode)),
            ScriptSource::StandardInput => (Stage::ReadInput, Action::ReadStdin),
            ScriptSource::InlineCode { code, print } => (
                Stage::RegisterSource,
                Action::RegisterText(eval_source(code.as_str(), *print)),
            ),
        };
        if stage == Stage::CreateWorker {
            self.creates = Ghost(1);
        }
        self.stage = stage;
        a
    }

    /// Enters the package gate, or passes it when nothing is installed.
    fn enter_from_deps(&mut self) -> (a: Action)
        requires
            old(self).creates() == 0,
            old(self).installs() == 0,
            old(self).worker_of() is None,
        ensures
            same_setup(*old(self), *final(self)),
            final(self).stage_of() == stage_from_deps(old(self).install_of(), old(self).kind()),
            action_fits(final(self).stage_of(), a, final(self).source_of(), final(self).mode_of()),
            final(self).creates() == (if final(self).stage_of() == Stage::CreateWorker {
                1nat
            } else {
                0nat
            }),
            final(self).installs() == (if final(self).stage_of() == Stage::EnsureDeps {
                1nat
            } else {
                0nat
            }),
            final(self).module_of() == old(self).module_of(),
            final(self).worker_of() == old(self).worker_of(),
            final(self).outcome_of() == old(self).outcome_of(),
    {
        if self.install {
            self.stage = Stage::EnsureDeps;
            self.installs = Ghost(1);
            Action::EnsureInstalled
        } else {
            self.enter_after_deps()
        }
    }

    /// Takes the result of the pending action and returns the next one.
    pub fn step(&mut self, event: Event) -> (a: Action)
        requires
            old(self).wf(),
            !old(self).is_done(),
            accepts(old(self).stage_of(), event),
        ensures
            final(self).wf(),
            same_setup(*old(self), *final(self)),
            final(self).stage_of() == next_stage(
                old(self).stage_of(),
                old(self).kind(),
                old(self).install_of(),
                event,
            ),
            rank(final(self).stage_of()) < rank(old(self).stage_of()),
            action_fits(final(self).stage_of(), a, final(self).source_of(), final(self).mode_of()),
            event_outcome(event) is Some ==> final(self).outcome_of() == event_outcome(event),
            event_outcome(event) is None ==> final(self).outcome_of() is None,
            match event {
                Event::InputRead(Ok(b)) => a == Action::RegisterBytes(b),
                Event::Resolved(Ok(m)) => final(self).module_of() == Some(m),
                _ => true,
            },
            old(self).module_of() is Some ==> final(self).module_of() == old(self).module_of(),
            final(self).installs() == old(self).installs() + (if final(self).stage_of()
                == Stage::EnsureDeps {
                1nat
            } else {
                0nat
            }),
            final(self).creates() == old(self).creates() + (if final(self).stage_of()
                == Stage::CreateWorker {
                1nat
            } else {
                0nat
            }),
    {
        match event {
            Event::Resolved(Ok(m)) => {
                let npm = is_npm_scheme(m.scheme.as_str());
                self.module = Some(m);
                if npm {
                    self.stage = Stage::SetUserAgent;
                    Action::SetNpmUserAgent
                } else {
                    self.enter_from_deps()
                }
            },
            Event::Acknowledged => {
                if self.stage == Stage::SetUserAgent {
                    self.enter_from_deps()
                } else {
                    self.stage = Stage::CreateWorker;
                    self.creates = Ghost(1);
                    Action::CreateWorker(self.mode)
                }
            },
            Event::Installed(Ok(())) => self.enter_after_deps(),
            Event::InputRead(Ok(bytes)) => {
                self.stage = Stage::RegisterSource;
                Action::RegisterBytes(bytes)
            },
            Event::WorkerCreated(Ok(())) => {
                let mut w = WorkerHandle::create(self.mode);
                let started = w.run();
                assert(started is Ok);
                self.worker = Some(w);
                self.stage = Stage::RunWorker;
                Action::RunWorker
            },
            Event::WorkerFinished(r) => {
                let code = match &r {
                    Ok(c) => Some(*c),
                    Err(_) => None,
                };
                match self.worker.take() {
                    Some(mut w) => {
                        let finished = w.finish(code);
                        assert(finished is Ok);
                        self.worker = Some(w);
                    },
                    None => {},
                }
                match r {
                    Ok(c) => self.finish(ExecutionOutcome::Code(c)),
                    Err(e) => self.finish(ExecutionOutcome::Failed(e)),
                }
            },
            Event::Resolved(Err(e)) => self.finish(ExecutionOutcome::Failed(e)),
            Event::Installed(Err(e)) => self.finish(ExecutionOutcome::Failed(e)),
            Event::InputRead(Err(e)) => self.finish(ExecutionOutcome::Failed(e)),
            Event::WorkerCreated(Err(e)) => self.finish(ExecutionOutcome::Failed(e)),
        }
    }
}

/// The result of starting an invocation: a state the caller keeps and the
/// first action, always the resolution of the entry module.
pub open spec fn started(
    r: (Invocation, Action),
    source: ScriptSource,
    mode: ExecutionMode,
    flags: Flags,
) -> bool {
    &&& r.0.wf()
    &&& r.0.source_of() == source
    &&& r.0.mode_of() == mode
    &&& r.0.install_of() == (flags.node_modules_dir == Some(NodeModulesDirMode::Auto))
    &&& r.0.stage_of() == Stage::ResolveMain
    &&& r.0.installs() == 0
    &&& r.0.creates() == 0
    &&& r.1 is ResolveMainModule
}

/// Starts running the module at `path` in `mode`.
pub fn run_script(mode: ExecutionMode, flags: &Flags, path: String) -> (r: (Invocation, Action))
    ensures
        started(r, ScriptSource::FilePath(path), mode, *flags),
{
    Invocation::start(ScriptSource::FilePath(path), mode, flags)
}

/// Starts running the program read from standard input.
pub fn run_from_stdin(flags: &Flags) -> (r: (Invocation, Action))
    ensures
        started(r, ScriptSource::StandardInput, ExecutionMode::Run, *flags),
{
    Invocation::start(ScriptSource::StandardInput, ExecutionMode::Run, flags)
}

/// Starts evaluating inline code.
pub fn eval_command(flags: &Flags, eval_flags: EvalFlags) -> (r: (Invocation, Action))
    ensures
        started(
            r,
            ScriptSource::InlineCode { code: eval_flags.code, print: eval_flags.print },
            ExecutionMode::Eval,
            *flags,
        ),
{
    let EvalFlags { code, print } = eval_flags;
    Invocation::start(ScriptSource::InlineCode { code, print }, ExecutionMode::Eval, flags)
}

/// Every invocation ends, whatever its source: each accepted event brings it
/// strictly closer to `Done`, at most seven steps away, and it holds one
/// outcome exactly when it is done; a done invocation accepts no event, so
/// its outcome is never replaced.
pub proof fn lemma_invocation_ends(inv: Invocation, e: Event)
    requires
        inv.wf(),
    ensures
        rank(inv.stage_of()) <= 7,
        rank(inv.stage_of()) == 0 <==> inv.is_done(),
        inv.is_done() <==> inv.outcome_of() is Some,
        inv.is_done() ==> !accepts(inv.stage_of(), e),
        !inv.is_done() && accepts(inv.stage_of(), e) ==> rank(
            next_stage(inv.stage_of(), inv.kind(), inv.install_of(), e),
        ) < rank(inv.stage_of()),
        !inv.is_done() && accepts(inv.stage_of(), e) ==> (next_stage(
            inv.stage_of(),
            inv.kind(),
            inv.install_of(),
            e,
        ) == Stage::Done <==> event_outcome(e) is Some),
{
}

/// Installation is asked for at most once per invocation, and only when the
/// package mode is automatic.
pub proof fn lemma_install_at_most_once(inv: Invocation)
    requires
        inv.wf(),
    ensures
        inv.installs() <= 1,
        !inv.install_of() ==> inv.installs() == 0,
{
}

/// A failed installation ends the invocation with that failure before any
/// worker is asked for.
pub proof fn lemma_install_failure_aborts(inv: Invocation, err: CliError)
    requires
        inv.wf(),
        inv.stage_of() == Stage::EnsureDeps,
    ensures
        inv.creates() == 0,
        next_stage(inv.stage_of(), inv.kind(), inv.install_of(), Event::Installed(Err(err)))
            == Stage::Done,
        event_outcome(Event::Installed(Err(err))) == Some(ExecutionOutcome::Failed(err)),
{
}

} // verus!
