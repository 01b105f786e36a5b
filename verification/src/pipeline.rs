//! The asynchronous execution pipeline shared by all run-like subcommands,
//! expressed as an explicit state machine: the library decides which action
//! the host performs next — bootstrap, preparation, module load, metadata
//! report, settlement — and the host feeds each outcome back as an event.
//! Every failure, at any stage, routes to the single failure sink.

use vstd::prelude::*;
use crate::errors::UnifiedError;
use crate::state::{ExecutionEngineHandle, Flags, SharedState, create_worker_and_state};

verus! {

/// The six pipeline variants a subcommand can select.
#[derive(Clone, Copy, PartialEq, Eq, Structural, Debug)]
pub enum Variant {
    Run,
    Eval,
    Xeval,
    Fetch,
    Info,
    Repl,
}

/// Where the pipeline stands: each stage names the outcome it awaits.
#[derive(Clone, Copy, PartialEq, Eq, Structural, Debug)]
pub enum Stage {
    /// Built, nothing issued yet.
    Init,
    /// The per-record callback wrapper was issued, before bootstrap.
    Install,
    /// The runtime-initialization entry point was issued.
    Bootstrap,
    /// The variant-specific program unit was issued.
    Prepare,
    /// The module-metadata report was requested.
    InfoPending,
    /// Awaiting the engine's completion signal.
    Settle,
    /// A terminal action was produced; nothing further may run.
    Finished,
}

/// What the host must do next on the pipeline's behalf.
pub enum Action {
    /// Run a piece of program text inside the engine.
    ExecuteScript { source: String },
    /// Resolve, compile and execute a module graph rooted at `specifier`;
    /// with `prefetch`, loading is forced without output-visible execution.
    LoadModule { specifier: String, prefetch: bool },
    /// Retrieve and print the module metadata for `specifier` (soft
    /// failures there are reported inline and are not pipeline failures).
    PrintInfo { specifier: String },
    /// Await the engine's completion signal.
    AwaitCompletion,
    /// Terminate the process, after writing `diagnostic` when present.
    Exit { code: i32, diagnostic: Option<String> },
}

/// The outcome the host feeds back for the action it performed.
pub enum Event {
    /// Outcome of `ExecuteScript`.
    Ran(Result<(), UnifiedError>),
    /// Outcome of `LoadModule`.
    Loaded(Result<(), UnifiedError>),
    /// `PrintInfo` finished (its failures are soft and stay local to it).
    InfoPrinted,
    /// Outcome of `AwaitCompletion`.
    Settled(Result<(), UnifiedError>),
}

/// One invocation's pipeline: the engine handle it owns, the state it
/// shares, and the program text prepared for it.
pub struct Pipeline {
    pub variant: Variant,
    pub stage: Stage,
    pub engine: ExecutionEngineHandle,
    pub state: SharedState,
    /// The synthetic wrapper source, present for Eval and Xeval.
    pub prepared_source: Option<String>,
}

/// The fixed runtime-initialization entry point executed at bootstrap.
pub open spec fn bootstrap_source() -> Seq<char> {
    "denoMain()"@
}

/// The synthetic top-level asynchronous wrapper around evaluated program
/// text, invoked immediately; it makes asynchronous methods usable and
/// keeps module imports out of reach.
pub open spec fn eval_wrapper(code: Seq<char>) -> Seq<char> {
    "async function _topLevelWrapper(){\n        "@ + code
        + "\n      }\n      _topLevelWrapper();\n      "@
}

/// The per-record asynchronous callback installed as a global before
/// bootstrap, taking the configured replacement variable as its one
/// parameter.
pub open spec fn xeval_wrapper(replvar: Seq<char>, code: Seq<char>) -> Seq<char> {
    "window._xevalWrapper = async function ("@ + replvar + "){\n        "@ + code + "\n      }"@
}

/// Builds the evaluated-text wrapper.
pub fn eval_source(code: &str) -> (s: String)
    ensures
        s@ == eval_wrapper(code@),
{
    let mut s = String::from_str("async function _topLevelWrapper(){\n        ");
    s.append(code);
    s.append("\n      }\n      _topLevelWrapper();\n      ");
    s
}

/// Builds the per-record callback wrapper.
pub fn xeval_source(replvar: &str, code: &str) -> (s: String)
    ensures
        s@ == xeval_wrapper(replvar@, code@),
{
    let mut s = String::from_str("window._xevalWrapper = async function (");
    s.append(replvar);
    s.append("){\n        ");
    s.append(code);
    s.append("\n      }");
    s
}

/// Which stages a variant can ever stand in.
pub open spec fn stage_ok(v: Variant, s: Stage) -> bool {
    match s {
        Stage::Install => v is Xeval,
        Stage::Prepare => v is Eval || v is Run || v is Fetch || v is Info,
        Stage::InfoPending => v is Info,
        _ => true,
    }
}

impl Pipeline {
    /// The data each variant needs is present, and the stage belongs to
    /// the variant.
    pub open spec fn wf(&self) -> bool {
        &&& stage_ok(self.variant, self.stage)
        &&& (self.variant is Eval || self.variant is Xeval) ==> self.prepared_source is Some
        &&& (self.variant is Run || self.variant is Fetch || self.variant is Info)
            ==> self.state.main_module is Some
    }
}

/// An ordering on stages: every transition moves strictly forward, so the
/// four phases can never reorder and every pipeline run is finite.
pub open spec fn stage_index(s: Stage) -> int {
    match s {
        Stage::Init => 0,
        Stage::Install => 1,
        Stage::Bootstrap => 2,
        Stage::Prepare => 3,
        Stage::InfoPending => 4,
        Stage::Settle => 5,
        Stage::Finished => 6,
    }
}

/// The stage a variant enters after leaving `s` successfully.
pub open spec fn next_stage(v: Variant, s: Stage) -> Stage {
    match s {
        Stage::Init => if v is Xeval {
            Stage::Install
        } else {
            Stage::Bootstrap
        },
        Stage::Install => Stage::Bootstrap,
        Stage::Bootstrap => match v {
            Variant::Eval | Variant::Run | Variant::Fetch | Variant::Info => Stage::Prepare,
            Variant::Xeval | Variant::Repl => Stage::Settle,
        },
        Stage::Prepare => if v is Info {
            Stage::InfoPending
        } else {
            Stage::Settle
        },
        Stage::InfoPending => Stage::Settle,
        Stage::Settle => Stage::Finished,
        Stage::Finished => Stage::Finished,
    }
}

/// The event kind a stage awaits.
pub open spec fn expected_event(v: Variant, s: Stage, ev: Event) -> bool {
    match s {
        Stage::Install => ev is Ran,
        Stage::Bootstrap => ev is Ran,
        Stage::Prepare => if v is Eval {
            ev is Ran
        } else {
            ev is Loaded
        },
        Stage::InfoPending => ev is InfoPrinted,
        Stage::Settle => ev is Settled,
        Stage::Init => false,
        Stage::Finished => false,
    }
}

/// The failure an event carries, if any.
pub open spec fn event_err(ev: Event) -> Option<UnifiedError> {
    match ev {
        Event::Ran(Err(e)) => Some(e),
        Event::Loaded(Err(e)) => Some(e),
        Event::Settled(Err(e)) => Some(e),
        _ => None,
    }
}

/// The action issued on entering stage `s` of pipeline `p`: exactly which
/// program unit runs, which module loads, and with which settings.
pub open spec fn action_matches(p: Pipeline, s: Stage, a: Action) -> bool {
    match s {
        Stage::Install => a matches Action::ExecuteScript { source } && source@
            == p.prepared_source->Some_0@,
        Stage::Bootstrap => a matches Action::ExecuteScript { source } && source@
            == bootstrap_source(),
        Stage::Prepare => match p.variant {
            Variant::Eval => a matches Action::ExecuteScript { source } && source@
                == p.prepared_source->Some_0@,
            Variant::Run => a matches Action::LoadModule { specifier, prefetch } && specifier@
                == p.state.main_module->Some_0@ && prefetch == false,
            Variant::Fetch | Variant::Info => a matches Action::LoadModule { specifier, prefetch }
                && specifier@ == p.state.main_module->Some_0@ && prefetch == true,
            _ => false,
        },
        Stage::InfoPending => a matches Action::PrintInfo { specifier } && specifier@
            == p.state.main_module->Some_0@,
        Stage::Settle => a is AwaitCompletion,
        Stage::Finished => a matches Action::Exit { code, diagnostic } && code == 0 && diagnostic
            is None,
        Stage::Init => false,
    }
}

/// Holds when `a` is the uniform failure exit for `e`: status 1 after the
/// rendered error and a newline on the diagnostic stream.
pub open spec fn failure_exit(a: Action, e: UnifiedError) -> bool {
    a matches Action::Exit { code, diagnostic } && code == 1 && (diagnostic matches Some(d) && d@
        == e.render_spec().push('\n'))
}

impl Pipeline {
    /// Issues the pipeline's first action. Nothing is evaluated before the
    /// executor polls: building a pipeline performs no work.
    pub fn start(&mut self) -> (a: Action)
        requires
            old(self).wf(),
            old(self).stage is Init,
        ensures
            final(self).wf(),
            final(self).variant == old(self).variant,
            final(self).state == old(self).state,
            final(self).prepared_source == old(self).prepared_source,
            final(self).engine == old(self).engine,
            final(self).stage == next_stage(old(self).variant, old(self).stage),
            action_matches(*final(self), final(self).stage, a),
    {
        match self.variant {
            Variant::Xeval => {
                self.stage = Stage::Install;
                let source = match &self.prepared_source {
                    Some(s) => s.clone(),
                    None => String::new(),  // unreachable under wf
                };
                Action::ExecuteScript { source }
            },
            _ => {
                self.stage = Stage::Bootstrap;
                Action::ExecuteScript { source: String::from_str("denoMain()") }
            },
        }
    }

    /// Feeds back the outcome of the last action and obtains the next one.
    ///
    /// On a success event the pipeline advances one stage — bootstrap
    /// strictly precedes preparation, which strictly precedes execution,
    /// which strictly precedes settlement — and the produced action writes
    /// nothing and never exits nonzero. On a failure event, whichever
    /// stage it strikes, the pipeline finishes at once through the single
    /// failure sink: exit status 1 with that error's rendering, and no
    /// further action can ever be obtained.
    pub fn step(&mut self, ev: Event) -> (a: Action)
        requires
            old(self).wf(),
            !(old(self).stage is Init),
            !(old(self).stage is Finished),
            expected_event(old(self).variant, old(self).stage, ev),
        ensures
            final(self).wf(),
            final(self).variant == old(self).variant,
            final(self).state == old(self).state,
            final(self).prepared_source == old(self).prepared_source,
            final(self).engine == old(self).engine,
            event_err(ev) matches Some(e) ==> (final(self).stage is Finished && failure_exit(
                a,
                e,
            )),
            event_err(ev) is None ==> final(self).stage == next_stage(
                old(self).variant,
                old(self).stage,
            ) && action_matches(*final(self), final(self).stage, a),
    {
        let failure = match &ev {
            Event::Ran(Err(_)) => true,
            Event::Loaded(Err(_)) => true,
            Event::Settled(Err(_)) => true,
            _ => false,
        };
        if failure {
            let err = match ev {
                Event::Ran(Err(e)) => e,
                Event::Loaded(Err(e)) => e,
                Event::Settled(Err(e)) => e,
                _ => UnifiedError::HostError {
                    kind: crate::errors::HostErrorKind::Engine,
                    message: String::new(),
                },  // unreachable: failure implies an error-carrying event
            };
            self.stage = Stage::Finished;
            match crate::errors::js_check(Err(err)) {
                crate::errors::Termination::Exit { code, diagnostic } => Action::Exit {
                    code,
                    diagnostic: Some(diagnostic),
                },
                crate::errors::Termination::Proceed => Action::Exit {
                    code: 1,
                    diagnostic: None,
                },  // unreachable: js_check on Err always exits
            }
        } else {
            let next = match self.stage {
                Stage::Install => Stage::Bootstrap,
                Stage::Bootstrap => match self.variant {
                    Variant::Eval | Variant::Run | Variant::Fetch | Variant::Info => Stage::Prepare,
                    Variant::Xeval | Variant::Repl => Stage::Settle,
                },
                Stage::Prepare => if matches!(self.variant, Variant::Info) {
                    Stage::InfoPending
                } else {
                    Stage::Settle
                },
                Stage::InfoPending => Stage::Settle,
                _ => Stage::Finished,
            };
            self.stage = next;
            match self.stage {
                Stage::Bootstrap => Action::ExecuteScript {
                    source: String::from_str("denoMain()"),
                },
                Stage::Prepare => {
                    match self.variant {
                        Variant::Eval => {
                            let source = match &self.prepared_source {
                                Some(s) => s.clone(),
                                None => String::new(),  // unreachable under wf
                            };
                            Action::ExecuteScript { source }
                        },
                        _ => {
                            let specifier = match &self.state.main_module {
                                Some(m) => m.clone(),
                                None => String::new(),  // unreachable under wf
                            };
                            let prefetch = !matches!(self.variant, Variant::Run);
                            Action::LoadModule { specifier, prefetch }
                        },
                    }
                },
                Stage::InfoPending => {
                    let specifier = match &self.state.main_module {
                        Some(m) => m.clone(),
                        None => String::new(),  // unreachable under wf
                    };
                    Action::PrintInfo { specifier }
                },
                Stage::Settle => Action::AwaitCompletion,
                _ => Action::Exit { code: 0, diagnostic: None },
            }
        }
    }
}

/// Builds the eval pipeline: the literal program text (the second
/// argument) wrapped in the synthetic top-level asynchronous wrapper.
pub fn eval_command(flags: Flags, argv: Vec<String>) -> (p: Pipeline)
    requires
        argv.len() >= 2,
    ensures
        p.wf(),
        p.stage is Init,
        p.variant is Eval,
        p.state.argv == argv,
        p.prepared_source matches Some(s) && s@ == eval_wrapper(argv[1]@),
{
    let (engine, state) = create_worker_and_state(flags, argv);
    let source = eval_source(state.argv[1].as_str());
    Pipeline {
        variant: Variant::Eval,
        stage: Stage::Init,
        engine,
        state,
        prepared_source: Some(source),
    }
}

/// Builds the xeval pipeline: the program text wrapped in the per-record
/// callback named after the configured replacement variable, installed
/// before bootstrap.
pub fn xeval_command(flags: Flags, argv: Vec<String>) -> (p: Pipeline)
    requires
        argv.len() >= 2,
        flags.xeval_replvar is Some,
    ensures
        p.wf(),
        p.stage is Init,
        p.variant is Xeval,
        p.state.argv == argv,
        p.prepared_source matches Some(s) && s@ == xeval_wrapper(
            flags.xeval_replvar->Some_0@,
            argv[1]@,
        ),
{
    let replvar = match &flags.xeval_replvar {
        Some(v) => v.clone(),
        None => String::new(),  // unreachable: the replacement variable is configured
    };
    let (engine, state) = create_worker_and_state(flags, argv);
    let source = xeval_source(replvar.as_str(), state.argv[1].as_str());
    Pipeline {
        variant: Variant::Xeval,
        stage: Stage::Init,
        engine,
        state,
        prepared_source: Some(source),
    }
}

/// Builds the run pipeline: the first argument resolved to the main-module
/// locator, whose import graph will be followed and executed.
pub fn run_script(flags: Flags, argv: Vec<String>) -> (p: Pipeline)
    requires
        argv.len() >= 1,
    ensures
        p.wf(),
        p.stage is Init,
        p.variant is Run,
        p.state.argv == argv,
        p.state.main_module matches Some(m) && m@ == argv[0]@,
{
    let (engine, mut state) = create_worker_and_state(flags, argv);
    let _main_module = state.main_module();
    Pipeline { variant: Variant::Run, stage: Stage::Init, engine, state, prepared_source: None }
}

/// Builds the fetch pipeline, or — with `print_info` — the info pipeline
/// that additionally reports the main module's metadata after it loads.
pub fn fetch_or_info_command(flags: Flags, argv: Vec<String>, print_info: bool) -> (p: Pipeline)
    requires
        argv.len() >= 1,
    ensures
        p.wf(),
        p.stage is Init,
        p.variant == (if print_info {
            Variant::Info
        } else {
            Variant::Fetch
        }),
        p.state.argv == argv,
        p.state.main_module matches Some(m) && m@ == argv[0]@,
{
    let (engine, mut state) = create_worker_and_state(flags, argv);
    let _main_module = state.main_module();
    let variant = if print_info {
        Variant::Info
    } else {
        Variant::Fetch
    };
    Pipeline { variant, stage: Stage::Init, engine, state, prepared_source: None }
}

/// Builds the interactive pipeline: only bootstrap runs before control is
/// handed to the line-editing collaborator while the engine settles.
pub fn run_repl(flags: Flags, argv: Vec<String>) -> (p: Pipeline)
    ensures
        p.wf(),
        p.stage is Init,
        p.variant is Repl,
        p.state.argv == argv,
{
    let (engine, state) = create_worker_and_state(flags, argv);
    Pipeline { variant: Variant::Repl, stage: Stage::Init, engine, state, prepared_source: None }
}

/// A successful run is silent and exits 0: under success events every
/// action the pipeline issues writes nothing to the diagnostic stream, and
/// the only exit it can issue carries status 0.
pub proof fn lemma_successful_actions_silent(p: Pipeline, s: Stage, a: Action)
    requires
        action_matches(p, s, a),
    ensures
        a matches Action::Exit { code, diagnostic } ==> (code == 0 && diagnostic is None),
{
}

/// Every transition out of a live stage moves strictly forward: bootstrap,
/// preparation, execution and settlement can never reorder, and — the
/// index being bounded — every run under success events reaches the
/// terminal stage, whose only action exits with status 0.
pub proof fn lemma_stage_advances(v: Variant, s: Stage)
    requires
        !(s is Finished),
    ensures
        stage_index(next_stage(v, s)) > stage_index(s),
        stage_index(next_stage(v, s)) <= stage_index(Stage::Finished),
{
}

/// Completion of the metadata report carries no failure: a soft
/// degradation there leaves the info pipeline settling normally, so its
/// exit status stays 0.
pub proof fn lemma_info_report_is_soft()
    ensures
        event_err(Event::InfoPrinted) is None,
{
}

/// Evaluated program text never reaches module-import resolution, import
/// syntax in the text notwithstanding: the eval and xeval pipelines issue
/// no module-load action at any stage.
pub proof fn lemma_eval_never_loads_modules(p: Pipeline, s: Stage, a: Action)
    requires
        p.variant is Eval || p.variant is Xeval,
        action_matches(p, s, a),
    ensures
        !(a is LoadModule),
{
}

/// A finished pipeline accepts no further event: after a failure exit no
/// load, execution or settlement can ever begin.
pub proof fn lemma_finished_is_terminal(v: Variant, ev: Event)
    ensures
        !expected_event(v, Stage::Finished, ev),
{
}

/// A failure exit identifies the failing domain: the diagnostic written
/// for a script-thrown error is never one a host error could produce.
pub proof fn lemma_failure_exit_distinguishes(a: Action, e: UnifiedError, h: UnifiedError)
    requires
        failure_exit(a, e),
        e is ScriptError,
        h is HostError,
    ensures
        !failure_exit(a, h),
{
    let se = e.render_spec();
    let sh = h.render_spec();
    match (e, h) {
        (
            UnifiedError::ScriptError { message, stack },
            UnifiedError::HostError { kind, message: hm },
        ) => {
            crate::errors::lemma_renderings_disjoint(kind, hm@, message@, stack.deep_view());
        },
        _ => {},
    }
    if se.push('\n') == sh.push('\n') {
        assert(se =~= sh) by {
            assert(se.push('\n').drop_last() =~= se);
            assert(sh.push('\n').drop_last() =~= sh);
        }
    }
}

} // verus!
