//! Per-invocation execution context: the immutable flag snapshot, the
//! shared state handed into the pipeline and its nested tasks, and the
//! engine handle that owns the script-execution context.

use vstd::prelude::*;
use crate::progress::ProgressReporter;

verus! {

/// The configuration snapshot produced by argument parsing; never mutated
/// after construction.
pub struct Flags {
    /// Engine flags forwarded verbatim to the embedded engine.
    pub v8_flags: Option<Vec<String>>,
    /// Enables the verbose log threshold.
    pub log_debug: bool,
    /// The replacement-variable name for per-record evaluation.
    pub xeval_replvar: Option<String>,
}

/// The state shared between the pipeline task and nested collaborator
/// callbacks: the argument vector, the lazily resolved main-module
/// locator, and the progress reporter.
pub struct SharedState {
    pub argv: Vec<String>,
    pub main_module: Option<String>,
    pub progress: ProgressReporter,
}

/// Owns the underlying script-execution context; exclusively owned by the
/// pipeline that created it and dropped when the pipeline settles.
pub struct ExecutionEngineHandle {
    pub name: String,
}

impl SharedState {
    /// The main-module locator is set at most once, lazily, from the first
    /// argument; once set it is immutable.
    pub open spec fn wf(&self) -> bool {
        self.main_module matches Some(m) ==> self.argv.len() > 0 && m@ == self.argv[0]@
    }

    /// Resolves the main-module locator from the argument vector: absent
    /// when there are no arguments, otherwise the first argument, recorded
    /// on first use and unchanged afterwards.
    pub fn main_module(&mut self) -> (m: Option<String>)
        requires
            old(self).wf(),
        ensures
            final(self).wf(),
            final(self).argv == old(self).argv,
            final(self).progress == old(self).progress,
            old(self).argv.len() == 0 ==> (m is None && final(self).main_module == old(self).main_module),
            old(self).argv.len() > 0 ==> (m matches Some(s) && s@ == old(self).argv[0]@),
            old(self).argv.len() > 0 ==> (final(self).main_module matches Some(t) && t@ == old(self).argv[0]@),
    {
        if self.argv.len() == 0 {
            return None;
        }
        match &self.main_module {
            Some(m) => Some(m.clone()),
            None => {
                let m = self.argv[0].clone();
                self.main_module = Some(m.clone());
                Some(m)
            },
        }
    }
}

/// Builds the per-invocation pair of engine handle and shared state.
///
/// The progress reporter constructed here carries the sink that renders
/// status lines for the diagnostic stream (see `progress::progress_line`);
/// constructing it installs that sink for the whole invocation, replacing
/// none because none precedes it. Construction cannot fail: failures
/// surface later, during bootstrap or execution.
pub fn create_worker_and_state(flags: Flags, argv: Vec<String>) -> (r: (
    ExecutionEngineHandle,
    SharedState,
))
    ensures
        r.0.name@ == "main"@,
        r.1.wf(),
        r.1.argv == argv,
        r.1.main_module is None,
        r.1.progress.completed == 0,
        r.1.progress.total == 0,
{
    let progress = ProgressReporter::new();
    let state = SharedState { argv, main_module: None, progress };
    let worker = ExecutionEngineHandle { name: String::from_str("main") };
    (worker, state)
}

} // verus!
