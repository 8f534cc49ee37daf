//! Derivation of the expected archive-entry path from a failure point.
//!
//! The path is a pure function of the job name, the step number and the
//! step name; it is a contract with the archive's naming convention and
//! must match exactly, separators included.

use crate::conclusion::Conclusion;
use crate::model::Job;
use crate::model::Step;
use crate::resolve::first_match;
use crate::resolve::lemma_first_match_complete;
use crate::resolve::lemma_first_match_is_first;
use crate::text::decimal_digits;
use crate::text::decimal_string;
use crate::text::lemma_decimal_digits_injective;
use vstd::prelude::*;

verus! {

/// `{job name}/{step number}_{step name}.txt`, the provider's naming
/// convention for one step's log inside the run's archive.
pub open spec fn log_path(job_name: Seq<char>, number: u32, step_name: Seq<char>) -> Seq<char> {
    job_name + "/"@ + decimal_digits(number as nat) + "_"@ + step_name + ".txt"@
}

/// Whether a step concluded with a failure.
pub open spec fn step_failed(s: Step) -> bool {
    s.conclusion == Conclusion::Failure
}

/// The index of the first failed step of a job's step list, if any.
pub open spec fn first_failed_step_index(s: Seq<Step>) -> Option<int> {
    first_match(s, |x: Step| step_failed(x))
}

/// Derives the archive-entry path for the first failed step of `job`, in
/// the job's own step order. When no step concluded with a failure — a
/// valid provider state even for a failed job — the result is absent
/// rather than a fabricated path.
pub fn failed_step_filename(job: &Job) -> (r: Option<String>)
    ensures
        match first_failed_step_index(job.steps@) {
            Some(k) => r matches Some(path) && path@ == log_path(
                job.name@,
                job.steps@[k].number,
                job.steps@[k].name@,
            ),
            None => r is None,
        },
{
    let mut i: usize = 0;
    while i < job.steps.len()
        invariant
            i <= job.steps@.len(),
            forall|j: int| 0 <= j < i ==> !step_failed(job.steps@[j]),
        decreases job.steps@.len() - i,
    {
        let step = &job.steps[i];
        if step.conclusion == Conclusion::Failure {
            let number = decimal_string(step.number);
            let path = job.name.clone().concat("/").concat(number.as_str()).concat("_").concat(
                step.name.as_str(),
            ).concat(".txt");
            proof {
                assert(step_failed(job.steps@[i as int]));
                lemma_first_match_complete(job.steps@, |x: Step| step_failed(x), i as int);
            }
            return Some(path);
        }
        i += 1;
    }
    proof {
        lemma_first_match_is_first(job.steps@, |x: Step| step_failed(x));
        match first_match(job.steps@, |x: Step| step_failed(x)) {
            Some(k) => {
                assert(!step_failed(job.steps@[k]));
                assert(false);
            },
            None => {},
        }
    }
    None
}

/// Holding the job name and the step name fixed, distinct step numbers
/// derive distinct paths: the derived path pins the step it names.
pub proof fn lemma_log_path_number_injective(
    job_name: Seq<char>,
    step_name: Seq<char>,
    n1: u32,
    n2: u32,
)
    requires
        n1 != n2,
    ensures
        log_path(job_name, n1, step_name) != log_path(job_name, n2, step_name),
{
    reveal_strlit("/");
    reveal_strlit("_");
    reveal_strlit(".txt");
    let d1 = decimal_digits(n1 as nat);
    let d2 = decimal_digits(n2 as nat);
    let p1 = log_path(job_name, n1, step_name);
    let p2 = log_path(job_name, n2, step_name);
    if p1 == p2 {
        assert(p1.len() == job_name.len() + 1 + d1.len() + 1 + step_name.len() + 4);
        assert(p2.len() == job_name.len() + 1 + d2.len() + 1 + step_name.len() + 4);
        assert(d1.len() == d2.len());
        let off = job_name.len() + 1;
        assert forall|i: int| 0 <= i < d1.len() implies d1[i] == d2[i] by {
            assert((job_name + "/"@ + d1)[off + i] == d1[i]);
            assert((job_name + "/"@ + d2)[off + i] == d2[i]);
            assert(p1[off + i] == d1[i]);
            assert(p2[off + i] == d2[i]);
        }
        assert(d1 =~= d2);
        lemma_decimal_digits_injective(n1 as nat, n2 as nat);
        assert(false);
    }
}

} // verus!
