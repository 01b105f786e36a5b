//! The unified failure type shared by every pipeline variant, its
//! stringification, and the single failure sink that turns an error into a
//! process termination.

use vstd::prelude::*;

verus! {

/// The host-side failure taxonomy: runtime bootstrap, module resolution, or
/// an engine-internal fault.
#[derive(Clone, Copy, PartialEq, Eq, Structural, Debug)]
pub enum HostErrorKind {
    Bootstrap,
    Resolution,
    Engine,
}

/// Every failure that leaves the pipeline is one of these two variants:
/// host-originated, or an exception propagated out of the hosted script.
pub enum UnifiedError {
    HostError { kind: HostErrorKind, message: String },
    ScriptError { message: String, stack: Vec<String> },
}

/// What the pipeline decides to do with the process: keep going, or stop
/// with an exit status after writing `diagnostic` to the diagnostic stream.
pub enum Termination {
    Proceed,
    Exit { code: i32, diagnostic: String },
}

pub open spec fn kind_label(k: HostErrorKind) -> Seq<char> {
    match k {
        HostErrorKind::Bootstrap => "bootstrap error"@,
        HostErrorKind::Resolution => "resolution error"@,
        HostErrorKind::Engine => "engine error"@,
    }
}

pub open spec fn host_render(kind: HostErrorKind, message: Seq<char>) -> Seq<char> {
    kind_label(kind) + ": "@ + message
}

/// The rendering of a script stack, one `    at` line per frame, oldest
/// frame last, each on its own line under the message.
pub open spec fn frames_render(frames: Seq<Seq<char>>) -> Seq<char>
    decreases frames.len(),
{
    if frames.len() == 0 {
        Seq::empty()
    } else {
        frames_render(frames.drop_last()) + "\n    at "@ + frames.last()
    }
}

pub open spec fn script_render(message: Seq<char>, frames: Seq<Seq<char>>) -> Seq<char> {
    "Uncaught "@ + message + frames_render(frames)
}

impl UnifiedError {
    /// The variant-specific stringification used by the failure sink.
    pub open spec fn render_spec(&self) -> Seq<char> {
        match self {
            UnifiedError::HostError { kind, message } => host_render(*kind, message@),
            UnifiedError::ScriptError { message, stack } => script_render(
                message@,
                stack.deep_view(),
            ),
        }
    }

    /// Renders the error exactly as the diagnostic stream will show it,
    /// without the trailing newline.
    pub fn render(&self) -> (r: String)
        ensures
            r@ == self.render_spec(),
    {
        match self {
            UnifiedError::HostError { kind, message } => {
                let mut s = String::from_str(kind.label());
                s.append(": ");
                s.append(message.as_str());
                s
            },
            UnifiedError::ScriptError { message, stack } => {
                let mut s = String::from_str("Uncaught ");
                s.append(message.as_str());
                let mut i: usize = 0;
                while i < stack.len()
                    invariant
                        i <= stack.len(),
                        s@ == "Uncaught "@ + message@ + frames_render(
                            stack.deep_view().take(i as int),
                        ),
                    decreases stack.len() - i,
                {
                    s.append("\n    at ");
                    s.append(stack[i].as_str());
                    proof {
                        let frames = stack.deep_view();
                        assert(frames.take(i + 1 as int).drop_last() =~= frames.take(i as int));
                        assert(frames.take(i + 1 as int).last() == frames[i as int]);
                    }
                    i = i + 1;
                }
                proof {
                    assert(stack.deep_view().take(stack.len() as int) =~= stack.deep_view());
                }
                s
            },
        }
    }
}

impl HostErrorKind {
    pub fn label(&self) -> (r: &'static str)
        ensures
            r@ == kind_label(*self),
    {
        match self {
            HostErrorKind::Bootstrap => "bootstrap error",
            HostErrorKind::Resolution => "resolution error",
            HostErrorKind::Engine => "engine error",
        }
    }
}

/// Holds when `t` stops the process with status 1 after writing exactly
/// `diag` to the diagnostic stream.
pub open spec fn exits_with(t: &Termination, diag: Seq<char>) -> bool {
    t matches Termination::Exit { code, diagnostic } && code == 1 && diagnostic@ == diag
}

/// The single failure sink: every error, from every pipeline stage, is
/// rendered to the diagnostic stream followed by a newline, and the process
/// terminates with status 1.
pub fn print_err_and_exit(err: &UnifiedError) -> (t: Termination)
    ensures
        exits_with(&t, err.render_spec().push('\n')),
{
    let mut diagnostic = err.render();
    diagnostic.append("\n");
    proof {
        reveal_strlit("\n");
        assert(err.render_spec() + "\n"@ =~= err.render_spec().push('\n'));
    }
    Termination::Exit { code: 1, diagnostic }
}

/// Checks a settlement result: success proceeds silently, failure routes to
/// the shared failure sink.
pub fn js_check(r: Result<(), UnifiedError>) -> (t: Termination)
    ensures
        r is Ok ==> t is Proceed,
        r matches Err(e) ==> exits_with(&t, e.render_spec().push('\n')),
{
    match r {
        Ok(()) => Termination::Proceed,
        Err(err) => print_err_and_exit(&err),
    }
}

/// A host-error rendering and a script-error rendering can never be the
/// same text: the diagnostic stream always identifies the failing domain.
pub proof fn lemma_renderings_disjoint(
    kind: HostErrorKind,
    hm: Seq<char>,
    sm: Seq<char>,
    frames: Seq<Seq<char>>,
)
    ensures
        host_render(kind, hm) != script_render(sm, frames),
{
    reveal_strlit("bootstrap error");
    reveal_strlit("resolution error");
    reveal_strlit("engine error");
    reveal_strlit("Uncaught ");
    assert(host_render(kind, hm)[0] != 'U');
    assert(script_render(sm, frames)[0] == 'U');
}

} // verus!
