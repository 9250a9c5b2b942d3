//! Jobs and their hand-off to the external compute process: the arguments
//! the process is started with, and what its exit means.

use vstd::prelude::*;

verus! {

/// One job: where it came from, the operation, and its numeric parameters,
/// each held as the text of one JSON number (`"1"`, `"2.5"`).
pub struct JobRequest {
    pub source: String,
    pub command: String,
    pub params: Vec<String>,
}

/// The views of a sequence of strings.
pub open spec fn texts(v: Seq<String>) -> Seq<Seq<char>> {
    v.map_values(|s: String| s@)
}

/// `items` separated by commas.
pub open spec fn comma_joined(items: Seq<Seq<char>>) -> Seq<char>
    decreases items.len(),
{
    if items.len() == 0 {
        Seq::empty()
    } else if items.len() == 1 {
        items[0]
    } else {
        comma_joined(items.drop_last()) + seq![','] + items.last()
    }
}

/// The parameters as one JSON array of numbers: `[1,2]`.
pub open spec fn spec_params_text(params: Seq<Seq<char>>) -> Seq<char> {
    seq!['['] + comma_joined(params) + seq![']']
}

/// Serialises the parameters into the numeric array handed to the process.
pub fn params_text(params: &Vec<String>) -> (r: String)
    ensures
        r@ == spec_params_text(texts(params@)),
{
    proof {
        reveal_strlit("[");
    }
    let mut out = String::new();
    out.append("[");
    let n = params.len();
    let mut i: usize = 0;
    while i < n
        invariant
            n == params@.len(),
            0 <= i <= n,
            out@ == seq!['['] + comma_joined(texts(params@).take(i as int)),
        decreases n - i,
    {
        proof {
            reveal_strlit(",");
        }
        let ghost before = texts(params@).take(i as int);
        let ghost after = texts(params@).take(i as int + 1);
        assert(after.drop_last() =~= before);
        assert(after.last() == params@[i as int]@);
        if i > 0 {
            out.append(",");
            assert(comma_joined(after) == comma_joined(before) + seq![','] + after.last());
        } else {
            assert(before =~= Seq::<Seq<char>>::empty());
            assert(comma_joined(after) == after[0]);
        }
        out.append(params[i].as_str());
        assert(out@ =~= seq!['['] + comma_joined(after));
        i = i + 1;
    }
    assert(texts(params@).take(n as int) =~= texts(params@));
    proof {
        reveal_strlit("]");
    }
    out.append("]");
    out
}

/// The two arguments the external process is started with: the command
/// name and the serialised parameters.
pub fn process_arguments(job: &JobRequest) -> (r: (String, String))
    ensures
        r.0@ == job.command@,
        r.1@ == spec_params_text(texts(job.params@)),
{
    (job.command.clone(), params_text(&job.params))
}

/// What became of the external process, in plain values.
pub enum ProcessOutput {
    /// It could not be started; the reason.
    NotStarted(String),
    /// It ran to its end: whether its exit status was success, and what it
    /// wrote to standard output and standard error.
    Exited { success: bool, stdout: String, stderr: String },
}

/// The outcome of one job.
pub enum ExecutionOutcome {
    /// Exit status success; the standard output, trimmed.
    Completed(String),
    /// Nonzero exit status; the standard error.
    Failed(String),
    /// The process could not be started; the reason.
    SpawnFailed(String),
}

/// Text with leading and trailing whitespace removed, as `str::trim` does.
pub uninterp spec fn trimmed(s: Seq<char>) -> Seq<char>;

/// Relies on `str::trim`: the result depends on the characters alone.
#[verifier::external_body]
fn trim_text(s: &String) -> (r: String)
    ensures
        r@ == trimmed(s@),
{
    s.trim().to_string()
}

/// Classifies a finished (or never started) process: success gives the
/// trimmed standard output, a nonzero exit the standard error, and a failed
/// start the reason. No outcome is retried.
pub fn classify_output(output: ProcessOutput) -> (r: ExecutionOutcome)
    ensures
        match output {
            ProcessOutput::NotStarted(reason) => r == ExecutionOutcome::SpawnFailed(reason),
            ProcessOutput::Exited { success, stdout, stderr } => if success {
                r matches ExecutionOutcome::Completed(text) && text@ == trimmed(stdout@)
            } else {
                r == ExecutionOutcome::Failed(stderr)
            },
        },
{
    match output {
        ProcessOutput::NotStarted(reason) => ExecutionOutcome::SpawnFailed(reason),
        ProcessOutput::Exited { success, stdout, stderr } => {
            if success {
                ExecutionOutcome::Completed(trim_text(&stdout))
            } else {
                ExecutionOutcome::Failed(stderr)
            }
        },
    }
}

} // verus!
