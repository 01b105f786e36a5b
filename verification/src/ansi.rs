//! Bold highlighting of the labels that the module-information report
//! prints, delegated to the terminal-styling crate.

use vstd::prelude::*;

verus! {

/// Text bracketed by the bold SGR prefix and the reset suffix.
pub open spec fn bold_seq(s: Seq<char>) -> Seq<char> {
    "\x1B[1m"@ + s + "\x1B[0m"@
}

/// Relies on ansi_term: painting a string with the plain bold style writes
/// the `ESC[1m` prefix, the text itself, then the `ESC[0m` reset.
#[verifier::external_body]
pub(crate) fn bold(s: &str) -> (r: String)
    ensures
        r@ == bold_seq(s@),
{
    ansi_term::Style::new().bold().paint(s).to_string()
}

} // verus!
