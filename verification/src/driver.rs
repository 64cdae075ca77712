//! The conversion driver's decisions, and a model of the log a run
//! prints. Each input becomes one job: derive its output path (or skip
//! it with an `Argument` error), print a start line, convert, print one
//! terminal line. The per-job transcript and the whole run's log are
//! stated as spec functions, and the laws about them — one terminal
//! line per job, start before terminal, silence on an empty run — are
//! proved below. `convert_all` is the sequential driver; a caller that
//! fans jobs out across workers interleaves the same per-job
//! transcripts.

use vstd::prelude::*;
use crate::errors::ConvertError;
use crate::errors::argument_desc;
use crate::errors::describe_of;
use crate::lines::LineKind;
use crate::lines::LogLine;
use crate::lines::complete_line;
use crate::lines::complete_line_of;
use crate::lines::error_line;
use crate::lines::error_line_of;
use crate::lines::start_line;
use crate::lines::start_line_of;
use crate::paths::derive_output_path;
use crate::paths::derived_output_path;
use crate::paths::file_name_of;
use crate::pipeline::raw_to_tiff;
use crate::progress::ProgressCounter;

verus! {

/// One unit of work: convert `input` to `output`, reporting as job
/// `index` of `total`.
pub struct Job {
    pub index: usize,
    pub total: usize,
    pub input: String,
    pub output: String,
}

/// Plans job `index` of `total` for `input`: derives the output path
/// under `output_dir`, or reports an `Argument` error naming the input
/// when no file name can be taken from it.
pub fn plan_job(output_dir: &str, input: &str, index: usize, total: usize) -> (r: Result<
    Job,
    ConvertError,
>)
    ensures
        derived_output_path(output_dir@, input@) matches Some(p) ==> (r matches Ok(j) && j.index
            == index && j.total == total && j.input@ == input@ && j.output@ == p),
        derived_output_path(output_dir@, input@) is None ==> (r matches Err(
            ConvertError::Argument { input: i },
        ) && i@ == input@),
{
    match derive_output_path(output_dir, input) {
        Some(output) => Ok(Job { index, total, input: String::from_str(input), output }),
        None => Err(ConvertError::Argument { input: String::from_str(input) }),
    }
}

/// The lines one job contributes to the log, in the order it prints
/// them: a lone error line when no output path can be derived, and
/// otherwise its start line followed by its terminal line — completion
/// on success, error on failure.
pub open spec fn job_transcript(
    dir: Seq<char>,
    input: Seq<char>,
    index: nat,
    total: nat,
    outcome: Result<(), ConvertError>,
) -> Seq<(LineKind, Seq<char>)> {
    match derived_output_path(dir, input) {
        None => seq![
            (LineKind::Failure, error_line_of(index, total, input, argument_desc(input))),
        ],
        Some(out) => seq![
            (LineKind::Start, start_line_of(index, total, input, out)),
            match outcome {
                Ok(_) => (LineKind::Complete, complete_line_of(index, total, input, out)),
                Err(e) => (LineKind::Failure, error_line_of(index, total, input, describe_of(e))),
            },
        ],
    }
}

/// The log of the jobs for `inputs`, indexed from `next_index` onward,
/// given each job's conversion outcome.
pub open spec fn run_log_from(
    dir: Seq<char>,
    inputs: Seq<Seq<char>>,
    outcomes: Seq<Result<(), ConvertError>>,
    next_index: nat,
    total: nat,
) -> Seq<(LineKind, Seq<char>)>
    decreases inputs.len(),
{
    if inputs.len() == 0 {
        Seq::empty()
    } else {
        job_transcript(dir, inputs[0], next_index, total, outcomes[0]) + run_log_from(
            dir,
            inputs.drop_first(),
            outcomes.drop_first(),
            next_index + 1,
            total,
        )
    }
}

/// The log of a whole run over `inputs`: jobs indexed from 1, given
/// each job's conversion outcome.
pub open spec fn run_log(
    dir: Seq<char>,
    inputs: Seq<Seq<char>>,
    outcomes: Seq<Result<(), ConvertError>>,
    total: nat,
) -> Seq<(LineKind, Seq<char>)> {
    run_log_from(dir, inputs, outcomes, 1, total)
}

/// The views of a vector of input paths.
pub open spec fn views_of(inputs: Seq<String>) -> Seq<Seq<char>> {
    inputs.map_values(|s: String| s@)
}

/// The kinds and texts of a vector of log lines.
pub open spec fn log_view(log: Seq<LogLine>) -> Seq<(LineKind, Seq<char>)> {
    log.map_values(|l: LogLine| (l.kind, l.text@))
}

proof fn lemma_run_log_snoc(
    dir: Seq<char>,
    inputs: Seq<Seq<char>>,
    outcomes: Seq<Result<(), ConvertError>>,
    x: Seq<char>,
    o: Result<(), ConvertError>,
    next_index: nat,
    total: nat,
)
    requires
        outcomes.len() == inputs.len(),
    ensures
        run_log_from(dir, inputs.push(x), outcomes.push(o), next_index, total) == run_log_from(
            dir,
            inputs,
            outcomes,
            next_index,
            total,
        ) + job_transcript(dir, x, next_index + inputs.len(), total, o),
    decreases inputs.len(),
{
    reveal_with_fuel(run_log_from, 3);
    if inputs.len() == 0 {
        assert(inputs.push(x).drop_first() =~= inputs);
        assert(outcomes.push(o).drop_first() =~= outcomes);
        assert(inputs.push(x)[0] == x);
        assert(outcomes.push(o)[0] == o);
        assert(run_log_from(dir, inputs.push(x), outcomes.push(o), next_index, total)
            =~= run_log_from(dir, inputs, outcomes, next_index, total) + job_transcript(
            dir,
            x,
            next_index + inputs.len(),
            total,
            o,
        ));
    } else {
        assert(inputs.push(x).drop_first() =~= inputs.drop_first().push(x));
        assert(outcomes.push(o).drop_first() =~= outcomes.drop_first().push(o));
        lemma_run_log_snoc(
            dir,
            inputs.drop_first(),
            outcomes.drop_first(),
            x,
            o,
            (next_index + 1) as nat,
            total,
        );
        assert(run_log_from(dir, inputs.push(x), outcomes.push(o), next_index, total)
            =~= run_log_from(dir, inputs, outcomes, next_index, total) + job_transcript(
            dir,
            x,
            next_index + inputs.len(),
            total,
            o,
        ));
    }
}

/// Runs every job of the batch in turn and returns the full log, never
/// failing the run itself: there is some sequence of per-job outcomes —
/// one per input, decided by the decoder and the encoder — whose run
/// log the returned lines are, kinds and texts alike.
pub fn convert_all(output_dir: &str, inputs: &Vec<String>) -> (log: Vec<LogLine>)
    requires
        inputs@.len() < usize::MAX,
    ensures
        exists|outcomes: Seq<Result<(), ConvertError>>|
            outcomes.len() == inputs@.len() && log_view(log@) == run_log(
                output_dir@,
                views_of(inputs@),
                outcomes,
                inputs@.len() as nat,
            ),
{
    let total = inputs.len();
    let mut counter = ProgressCounter::new();
    let mut log: Vec<LogLine> = Vec::new();
    let ghost mut outcomes: Seq<Result<(), ConvertError>> = Seq::empty();
    let mut k: usize = 0;
    proof {
        assert(views_of(inputs@).take(0) =~= Seq::<Seq<char>>::empty());
    }
    while k < total
        invariant
            0 <= k <= total,
            total == inputs@.len(),
            total < usize::MAX,
            counter.next_index() == k + 1,
            outcomes.len() == k,
            log_view(log@) == run_log_from(
                output_dir@,
                views_of(inputs@).take(k as int),
                outcomes,
                1,
                total as nat,
            ),
        decreases total - k,
    {
        let ghost log_before = log@;
        let ghost outcomes_before = outcomes;
        let input: &String = &inputs[k];
        let index = counter.fetch_next();
        let ghost mut outcome: Result<(), ConvertError> = Ok(());
        match plan_job(output_dir, input.as_str(), index, total) {
            Ok(job) => {
                let start = start_line(index, total, job.input.as_str(), job.output.as_str());
                log.push(LogLine { kind: LineKind::Start, text: start });
                let r = raw_to_tiff(job.input.as_str(), job.output.as_str());
                proof {
                    outcome = r;
                }
                match r {
                    Ok(_) => {
                        let line = complete_line(
                            index,
                            total,
                            job.input.as_str(),
                            job.output.as_str(),
                        );
                        log.push(LogLine { kind: LineKind::Complete, text: line });
                    },
                    Err(e) => {
                        let line = error_line(index, total, job.input.as_str(), &e);
                        log.push(LogLine { kind: LineKind::Failure, text: line });
                    },
                }
            },
            Err(arg_err) => {
                let line = error_line(index, total, input.as_str(), &arg_err);
                log.push(LogLine { kind: LineKind::Failure, text: line });
            },
        }
        proof {
            outcomes = outcomes.push(outcome);
            lemma_run_log_snoc(
                output_dir@,
                views_of(inputs@).take(k as int),
                outcomes_before,
                inputs@[k as int]@,
                outcome,
                1,
                total as nat,
            );
            assert(views_of(inputs@).take(k + 1) =~= views_of(inputs@).take(k as int).push(
                inputs@[k as int]@,
            ));
            assert(log_view(log@) =~= log_view(log_before) + job_transcript(
                output_dir@,
                inputs@[k as int]@,
                (k + 1) as nat,
                total as nat,
                outcome,
            ));
        }
        k = k + 1;
    }
    proof {
        assert(views_of(inputs@).take(total as int) =~= views_of(inputs@));
        assert(outcomes.len() == inputs@.len() && log_view(log@) == run_log(
            output_dir@,
            views_of(inputs@),
            outcomes,
            inputs@.len() as nat,
        ));
    }
    log
}

/// How many terminal — completion or error — lines a log holds.
pub open spec fn count_terminal(log: Seq<(LineKind, Seq<char>)>) -> nat
    decreases log.len(),
{
    if log.len() == 0 {
        0
    } else {
        (if log[0].0 is Start {
            0nat
        } else {
            1nat
        }) + count_terminal(log.drop_first())
    }
}

/// How many start lines a log holds.
pub open spec fn count_start(log: Seq<(LineKind, Seq<char>)>) -> nat
    decreases log.len(),
{
    if log.len() == 0 {
        0
    } else {
        (if log[0].0 is Start {
            1nat
        } else {
            0nat
        }) + count_start(log.drop_first())
    }
}

/// How many of the inputs have a file-name component, and so are
/// dispatched as jobs with a start line.
pub open spec fn count_named(inputs: Seq<Seq<char>>) -> nat
    decreases inputs.len(),
{
    if inputs.len() == 0 {
        0
    } else {
        (if file_name_of(inputs[0]) is Some {
            1nat
        } else {
            0nat
        }) + count_named(inputs.drop_first())
    }
}

proof fn lemma_counts_concat(a: Seq<(LineKind, Seq<char>)>, b: Seq<(LineKind, Seq<char>)>)
    ensures
        count_terminal(a + b) == count_terminal(a) + count_terminal(b),
        count_start(a + b) == count_start(a) + count_start(b),
    decreases a.len(),
{
    if a.len() == 0 {
        assert(a + b =~= b);
    } else {
        assert((a + b).drop_first() =~= a.drop_first() + b);
        lemma_counts_concat(a.drop_first(), b);
    }
}

proof fn lemma_transcript_counts(
    dir: Seq<char>,
    input: Seq<char>,
    index: nat,
    total: nat,
    outcome: Result<(), ConvertError>,
)
    ensures
        count_terminal(job_transcript(dir, input, index, total, outcome)) == 1,
        count_start(job_transcript(dir, input, index, total, outcome)) == (
        if file_name_of(input) is Some {
            1nat
        } else {
            0nat
        }),
{
    reveal_with_fuel(count_terminal, 3);
    reveal_with_fuel(count_start, 3);
    let t = job_transcript(dir, input, index, total, outcome);
    if t.len() == 1 {
        assert(t.drop_first() =~= Seq::<(LineKind, Seq<char>)>::empty());
    } else {
        assert(t.drop_first().drop_first() =~= Seq::<(LineKind, Seq<char>)>::empty());
    }
}

proof fn lemma_run_counts_from(
    dir: Seq<char>,
    inputs: Seq<Seq<char>>,
    outcomes: Seq<Result<(), ConvertError>>,
    next_index: nat,
    total: nat,
)
    ensures
        count_terminal(run_log_from(dir, inputs, outcomes, next_index, total)) == inputs.len(),
        count_start(run_log_from(dir, inputs, outcomes, next_index, total)) == count_named(inputs),
    decreases inputs.len(),
{
    if inputs.len() > 0 {
        lemma_transcript_counts(dir, inputs[0], next_index, total, outcomes[0]);
        lemma_counts_concat(
            job_transcript(dir, inputs[0], next_index, total, outcomes[0]),
            run_log_from(
                dir,
                inputs.drop_first(),
                outcomes.drop_first(),
                (next_index + 1) as nat,
                total,
            ),
        );
        lemma_run_counts_from(
            dir,
            inputs.drop_first(),
            outcomes.drop_first(),
            (next_index + 1) as nat,
            total,
        );
    }
}

/// Every job reports terminally exactly once: whatever each job's
/// outcome, a run over `inputs` prints exactly `inputs.len()`
/// completion-or-error lines, and one start line for each input that
/// has a file-name component.
pub proof fn lemma_one_terminal_line_per_job(
    dir: Seq<char>,
    inputs: Seq<Seq<char>>,
    outcomes: Seq<Result<(), ConvertError>>,
    total: nat,
)
    ensures
        count_terminal(run_log(dir, inputs, outcomes, total)) == inputs.len(),
        count_start(run_log(dir, inputs, outcomes, total)) == count_named(inputs),
{
    lemma_run_counts_from(dir, inputs, outcomes, 1, total);
}

/// When every input has a file-name component — the decoder may still
/// reject some — a run over `inputs` prints exactly `inputs.len()`
/// start lines besides its `inputs.len()` terminal lines.
pub proof fn lemma_every_job_starts(
    dir: Seq<char>,
    inputs: Seq<Seq<char>>,
    outcomes: Seq<Result<(), ConvertError>>,
    total: nat,
)
    requires
        forall|i: int| 0 <= i < inputs.len() ==> file_name_of(#[trigger] inputs[i]) is Some,
    ensures
        count_start(run_log(dir, inputs, outcomes, total)) == inputs.len(),
        count_terminal(run_log(dir, inputs, outcomes, total)) == inputs.len(),
    decreases inputs.len(),
{
    lemma_one_terminal_line_per_job(dir, inputs, outcomes, total);
    lemma_count_named_all(inputs);
}

proof fn lemma_count_named_all(inputs: Seq<Seq<char>>)
    requires
        forall|i: int| 0 <= i < inputs.len() ==> file_name_of(#[trigger] inputs[i]) is Some,
    ensures
        count_named(inputs) == inputs.len(),
    decreases inputs.len(),
{
    if inputs.len() > 0 {
        lemma_count_named_all(inputs.drop_first());
    }
}

/// Each job's start line precedes its own terminal line: a dispatched
/// job's transcript is exactly its start line followed by one terminal
/// line, and a job that could not be dispatched prints a single error
/// line and no start line.
pub proof fn lemma_start_precedes_terminal(
    dir: Seq<char>,
    input: Seq<char>,
    index: nat,
    total: nat,
    outcome: Result<(), ConvertError>,
)
    ensures
        file_name_of(input) is Some ==> ({
            let t = job_transcript(dir, input, index, total, outcome);
            t.len() == 2 && t[0].0 is Start && (t[1].0 is Complete <==> outcome is Ok) && (t[1].0
                is Failure <==> outcome is Err)
        }),
        file_name_of(input) is None ==> ({
            let t = job_transcript(dir, input, index, total, outcome);
            t.len() == 1 && t[0].0 is Failure
        }),
{
}

/// A run with no inputs prints nothing at all.
pub proof fn lemma_empty_run_is_silent(
    dir: Seq<char>,
    outcomes: Seq<Result<(), ConvertError>>,
    total: nat,
)
    ensures
        run_log(dir, Seq::<Seq<char>>::empty(), outcomes, total) == Seq::<
            (LineKind, Seq<char>),
        >::empty(),
{
}

} // verus!
