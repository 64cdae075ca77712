//! The log lines a run prints: one start line when a job is dispatched,
//! then exactly one terminal line — completion or error — when it ends.
//! Every line is tagged `[index / total]`; paths are printed quoted.

use vstd::prelude::*;
use crate::digits::dec_rep;
use crate::digits::usize_to_string;
use crate::errors::ConvertError;
use crate::errors::describe_of;

verus! {

/// What a printed line reports.
#[derive(Clone, Copy, Debug, PartialEq, Eq, Structural)]
pub enum LineKind {
    /// A job was dispatched.
    Start,
    /// A job finished and its output was written.
    Complete,
    /// A job failed; the line carries the reason.
    Failure,
}

/// One printed line, tagged with what it reports.
pub struct LogLine {
    pub kind: LineKind,
    pub text: String,
}

/// `s` wrapped in double quotes.
pub open spec fn quoted(s: Seq<char>) -> Seq<char> {
    seq!['"'] + s + seq!['"']
}

/// The `[index / total] ` tag that opens every line.
pub open spec fn tag_of(index: nat, total: nat) -> Seq<char> {
    "["@ + dec_rep(index) + " / "@ + dec_rep(total) + "] "@
}

/// The start line of a job.
pub open spec fn start_line_of(index: nat, total: nat, input: Seq<char>, output: Seq<char>) -> Seq<
    char,
> {
    tag_of(index, total) + "start "@ + quoted(input) + " to "@ + quoted(output)
}

/// The completion line of a successful job.
pub open spec fn complete_line_of(
    index: nat,
    total: nat,
    input: Seq<char>,
    output: Seq<char>,
) -> Seq<char> {
    tag_of(index, total) + "complete "@ + quoted(input) + " -> "@ + quoted(output)
}

/// The error line of a failed job, over the failure's description.
pub open spec fn error_line_of(index: nat, total: nat, input: Seq<char>, desc: Seq<char>) -> Seq<
    char,
> {
    tag_of(index, total) + "error converting "@ + quoted(input) + ": "@ + desc
}

fn tag_string(index: usize, total: usize) -> (r: String)
    ensures
        r@ == tag_of(index as nat, total as nat),
{
    let mut r = String::from_str("[");
    let i = usize_to_string(index);
    r.append(i.as_str());
    r.append(" / ");
    let t = usize_to_string(total);
    r.append(t.as_str());
    r.append("] ");
    proof {
        assert(r@ =~= tag_of(index as nat, total as nat));
    }
    r
}

fn append_quoted(dst: &mut String, s: &str)
    ensures
        final(dst)@ == old(dst)@ + quoted(s@),
{
    dst.append("\"");
    dst.append(s);
    dst.append("\"");
    proof {
        reveal_strlit("\"");
        assert("\""@ =~= seq!['"']);
        assert(final(dst)@ =~= old(dst)@ + quoted(s@));
    }
}

/// Builds a job's start line, exactly as `start_line_of` states it.
pub fn start_line(index: usize, total: usize, input: &str, output: &str) -> (r: String)
    ensures
        r@ == start_line_of(index as nat, total as nat, input@, output@),
{
    let mut r = tag_string(index, total);
    r.append("start ");
    append_quoted(&mut r, input);
    r.append(" to ");
    append_quoted(&mut r, output);
    proof {
        assert(r@ =~= start_line_of(index as nat, total as nat, input@, output@));
    }
    r
}

/// Builds a job's completion line, exactly as `complete_line_of` states
/// it.
pub fn complete_line(index: usize, total: usize, input: &str, output: &str) -> (r: String)
    ensures
        r@ == complete_line_of(index as nat, total as nat, input@, output@),
{
    let mut r = tag_string(index, total);
    r.append("complete ");
    append_quoted(&mut r, input);
    r.append(" -> ");
    append_quoted(&mut r, output);
    proof {
        assert(r@ =~= complete_line_of(index as nat, total as nat, input@, output@));
    }
    r
}

/// Builds a job's error line, exactly as `error_line_of` states it over
/// the error's description.
pub fn error_line(index: usize, total: usize, input: &str, e: &ConvertError) -> (r: String)
    ensures
        r@ == error_line_of(index as nat, total as nat, input@, describe_of(*e)),
{
    let mut r = tag_string(index, total);
    r.append("error converting ");
    append_quoted(&mut r, input);
    r.append(": ");
    let d = e.describe();
    r.append(d.as_str());
    proof {
        assert(r@ =~= error_line_of(index as nat, total as nat, input@, describe_of(*e)));
    }
    r
}

} // verus!
