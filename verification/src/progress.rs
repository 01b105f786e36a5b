//! The progress-reporting channel used while collaborator modules compile
//! and fetch: a single-subscriber sink that renders each unit-of-work
//! transition as a status line for the diagnostic stream.

use vstd::prelude::*;
use crate::text::{dec_seq, digit_char, u64_to_string};

verus! {

/// The mutable progress counters, alive for one whole invocation.
pub struct ProgressReporter {
    pub completed: u64,
    pub total: u64,
    pub label: String,
}

/// What one `report` call writes to the diagnostic stream.
///
/// A non-terminal update rewrites the current line in place: carriage
/// return, `[completed/total] label`, then clear-to-end-of-line. The
/// terminal update emits a single newline, but only when at least one unit
/// of work was ever in flight (`total > 0`); otherwise nothing is printed,
/// so an invocation with no asynchronous compilation never shows a blank
/// line.
pub open spec fn progress_line(done: bool, completed: u64, total: u64, msg: Seq<char>) -> Option<
    Seq<char>,
> {
    if !done {
        Some(
            "\r["@ + dec_seq(completed as nat) + "/"@ + dec_seq(total as nat) + "] "@ + msg
                + "\x1B[K"@,
        )
    } else if total > 0 {
        Some("\n"@)
    } else {
        None
    }
}

pub open spec fn line_of(out: Option<String>) -> Option<Seq<char>> {
    match out {
        Some(s) => Some(s@),
        None => None,
    }
}

impl ProgressReporter {
    /// A fresh reporter: no work seen yet.
    pub fn new() -> (p: ProgressReporter)
        ensures
            p.completed == 0,
            p.total == 0,
            p.label@ == Seq::<char>::empty(),
    {
        ProgressReporter { completed: 0, total: 0, label: String::new() }
    }

    /// One unit-of-work transition, as collaborator modules invoke it.
    /// Updates the counters and returns exactly what the registered sink
    /// writes to the diagnostic stream, if anything. The terminal call is
    /// safe even when no non-terminal call ever preceded it.
    pub fn report(&mut self, done: bool, completed: u64, total: u64, msg: &str) -> (out: Option<
        String,
    >)
        ensures
            final(self).completed == completed,
            final(self).total == total,
            final(self).label@ == msg@,
            line_of(out) == progress_line(done, completed, total, msg@),
    {
        self.completed = completed;
        self.total = total;
        self.label = String::from_str(msg);
        if !done {
            let mut s = String::from_str("\r[");
            s.append(u64_to_string(completed).as_str());
            s.append("/");
            s.append(u64_to_string(total).as_str());
            s.append("] ");
            s.append(msg);
            s.append("\x1B[K");
            Some(s)
        } else if total > 0 {
            Some(String::from_str("\n"))
        } else {
            None
        }
    }
}

/// The decimal rendering holds digits only.
pub proof fn lemma_dec_seq_digits(n: nat)
    ensures
        forall|i: int|
            0 <= i < dec_seq(n).len() ==> '0' <= #[trigger] dec_seq(n)[i] && dec_seq(n)[i] <= '9',
    decreases n,
{
    if n < 10 {
        assert(dec_seq(n) =~= seq![digit_char(n)]);
        assert('0' <= digit_char(n) && digit_char(n) <= '9');
    } else {
        lemma_dec_seq_digits(n / 10);
        assert(dec_seq(n) == dec_seq(n / 10).push(digit_char(n % 10)));
        assert('0' <= digit_char(n % 10) && digit_char(n % 10) <= '9');
        assert forall|i: int|
            0 <= i < dec_seq(n).len() implies '0' <= #[trigger] dec_seq(n)[i] && dec_seq(n)[i]
            <= '9' by {
            if i < dec_seq(n / 10).len() {
                assert(dec_seq(n)[i] == dec_seq(n / 10)[i]);
            } else {
                assert(dec_seq(n)[i] == digit_char(n % 10));
            }
        }
    }
}

/// A terminal report after an invocation in which no asynchronous work
/// ever occurred (`total == 0`) prints nothing at all.
pub proof fn lemma_terminal_silent_without_work(completed: u64, msg: Seq<char>)
    ensures
        progress_line(true, completed, 0, msg) is None,
{
}

/// A terminal report after real work (`total > 0`) emits exactly one
/// newline character, and a non-terminal report with a newline-free label
/// emits no newline at all: so a progress bar is always closed by exactly
/// one trailing newline after its last non-terminal line.
pub proof fn lemma_terminal_newline(completed: u64, total: u64, msg: Seq<char>)
    requires
        total > 0,
    ensures
        progress_line(true, completed, total, msg) == Some(seq!['\n']),
{
    reveal_strlit("\n");
    assert("\n"@ =~= seq!['\n']);
}

/// A non-terminal status line never contains a newline, provided the label
/// itself has none: it only rewrites the current line in place.
pub proof fn lemma_nonterminal_no_newline(done: bool, completed: u64, total: u64, msg: Seq<char>)
    requires
        !done,
        forall|i: int| 0 <= i < msg.len() ==> msg[i] != '\n',
    ensures
        progress_line(done, completed, total, msg) matches Some(l) && forall|i: int|
            0 <= i < l.len() ==> l[i] != '\n',
{
    reveal_strlit("\r[");
    reveal_strlit("/");
    reveal_strlit("] ");
    reveal_strlit("\x1B[K");
    lemma_dec_seq_digits(completed as nat);
    lemma_dec_seq_digits(total as nat);
    let l = progress_line(done, completed, total, msg)->Some_0;
    assert forall|i: int| 0 <= i < l.len() implies l[i] != '\n' by {
        assert(l == "\r["@ + dec_seq(completed as nat) + "/"@ + dec_seq(total as nat) + "] "@
            + msg + "\x1B[K"@);
    }
}

} // verus!
