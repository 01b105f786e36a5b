//! The command-to-pipeline dispatch table: every parsed subcommand selects
//! exactly one pipeline variant, except the types subcommand, which only
//! writes the embedded type-declaration document and never builds an
//! execution context.

use vstd::prelude::*;
use crate::pipeline::Variant;

verus! {

/// The parsed subcommand, as the flag parser hands it over.
#[derive(Clone, Copy, PartialEq, Eq, Structural, Debug)]
pub enum Subcommand {
    Eval,
    Fetch,
    Info,
    Repl,
    Run,
    Types,
    Version,
    Xeval,
}

/// What a subcommand amounts to: one of the six pipeline variants, or the
/// synchronous type-document print.
#[derive(Clone, Copy, PartialEq, Eq, Structural, Debug)]
pub enum CommandPlan {
    RunPipeline(Variant),
    PrintTypes,
}

/// The dispatch table. The version subcommand follows the same control
/// flow as the interactive one, as the command surface documents.
pub open spec fn plan_of(s: Subcommand) -> CommandPlan {
    match s {
        Subcommand::Eval => CommandPlan::RunPipeline(Variant::Eval),
        Subcommand::Fetch => CommandPlan::RunPipeline(Variant::Fetch),
        Subcommand::Info => CommandPlan::RunPipeline(Variant::Info),
        Subcommand::Repl => CommandPlan::RunPipeline(Variant::Repl),
        Subcommand::Run => CommandPlan::RunPipeline(Variant::Run),
        Subcommand::Types => CommandPlan::PrintTypes,
        Subcommand::Version => CommandPlan::RunPipeline(Variant::Repl),
        Subcommand::Xeval => CommandPlan::RunPipeline(Variant::Xeval),
    }
}

/// Maps a parsed subcommand to the single branch that will handle it.
pub fn dispatch(s: &Subcommand) -> (p: CommandPlan)
    ensures
        p == plan_of(*s),
{
    match s {
        Subcommand::Eval => CommandPlan::RunPipeline(Variant::Eval),
        Subcommand::Fetch => CommandPlan::RunPipeline(Variant::Fetch),
        Subcommand::Info => CommandPlan::RunPipeline(Variant::Info),
        Subcommand::Repl => CommandPlan::RunPipeline(Variant::Repl),
        Subcommand::Run => CommandPlan::RunPipeline(Variant::Run),
        Subcommand::Types => CommandPlan::PrintTypes,
        Subcommand::Version => CommandPlan::RunPipeline(Variant::Repl),
        Subcommand::Xeval => CommandPlan::RunPipeline(Variant::Xeval),
    }
}

/// What the types subcommand writes to standard output: the embedded
/// document followed by the line break the printing adds.
pub open spec fn types_output(content: Seq<char>) -> Seq<char> {
    content.push('\n')
}

/// Prints the embedded type-declaration document: returns exactly what
/// goes to standard output. No execution context is created and no
/// asynchronous work is performed.
pub fn types_command(content: &str) -> (out: String)
    ensures
        out@ == types_output(content@),
{
    let mut s = String::from_str(content);
    s.append("\n");
    proof {
        reveal_strlit("\n");
        assert(content@ + "\n"@ =~= content@.push('\n'));
    }
    s
}

/// Printing the type document is deterministic: two invocations over the
/// same embedded artifact produce byte-identical output.
pub proof fn lemma_types_idempotent(c1: Seq<char>, c2: Seq<char>)
    requires
        c1 == c2,
    ensures
        types_output(c1) == types_output(c2),
{
}

} // verus!
