//! Selection of the first failed element of an ordered collection.
//!
//! "First" is always defined over the given order of the collection: no
//! re-sorting, no fallback to index 0 when nothing matches.

use crate::conclusion::Conclusion;
use crate::errors::Missing;
use crate::errors::PipelineError;
use crate::model::Job;
use crate::model::Jobs;
use crate::model::WorkflowRun;
use crate::model::WorkflowRuns;
use vstd::prelude::*;

verus! {

/// The index of the first element of `s` satisfying `p`, if any.
pub open spec fn first_match<T>(s: Seq<T>, p: spec_fn(T) -> bool) -> Option<int>
    decreases s.len(),
{
    if s.len() == 0 {
        None
    } else if p(s[0]) {
        Some(0int)
    } else {
        match first_match(s.drop_first(), p) {
            Some(i) => Some(i + 1),
            None => None,
        }
    }
}

/// Over an empty collection there is never a match, whatever the element
/// type and whatever the predicate.
pub proof fn lemma_first_match_empty<T>(p: spec_fn(T) -> bool)
    ensures
        first_match(Seq::<T>::empty(), p) is None,
{
}

/// What a match index means: it is in range, its element matches, and no
/// earlier element does; absence of a match index means nothing matches.
pub proof fn lemma_first_match_is_first<T>(s: Seq<T>, p: spec_fn(T) -> bool)
    ensures
        first_match(s, p) matches Some(k) ==> 0 <= k < s.len() && p(s[k]) && (forall|j: int|
            0 <= j < k ==> !p(s[j])),
        first_match(s, p) is None ==> forall|i: int| 0 <= i < s.len() ==> !p(s[i]),
    decreases s.len(),
{
    if s.len() == 0 {
    } else if p(s[0]) {
        assert(first_match(s, p) == Some(0int));
    } else {
        lemma_first_match_is_first(s.drop_first(), p);
        assert(forall|j: int| 0 <= j < s.len() - 1 ==> s.drop_first()[j] == s[j + 1]);
        match first_match(s.drop_first(), p) {
            Some(k0) => {
                assert(first_match(s, p) == Some(k0 + 1));
                assert(p(s.drop_first()[k0]));
                assert forall|j: int| 0 <= j < k0 + 1 implies !p(s[j]) by {
                    if j > 0 {
                        assert(!p(s.drop_first()[j - 1]));
                    }
                }
            },
            None => {
                assert(first_match(s, p) is None);
                assert forall|i: int| 0 <= i < s.len() implies !p(s[i]) by {
                    if i > 0 {
                        assert(!p(s.drop_first()[i - 1]));
                    }
                }
            },
        }
    }
}

/// An element that matches while all earlier ones do not is exactly the one
/// `first_match` selects: never an earlier element, never a later one.
pub proof fn lemma_first_match_complete<T>(s: Seq<T>, p: spec_fn(T) -> bool, k: int)
    requires
        0 <= k < s.len(),
        p(s[k]),
        forall|j: int| 0 <= j < k ==> !p(s[j]),
    ensures
        first_match(s, p) == Some(k),
    decreases s.len(),
{
    if k > 0 {
        assert(s.drop_first()[k - 1] == s[k]);
        assert(forall|j: int| 0 <= j < k - 1 ==> s.drop_first()[j] == s[j + 1]);
        lemma_first_match_complete(s.drop_first(), p, k - 1);
    }
}

/// Returns the first element of `items` for which `pred` answers true,
/// scanning in order, or `None` when every element answers false.
pub fn take_first<'p, T, F: Fn(&T) -> bool>(items: &'p Vec<T>, pred: F) -> (r: Option<&'p T>)
    requires
        forall|i: int| 0 <= i < items@.len() ==> call_requires(pred, (&items@[i],)),
    ensures
        match r {
            Some(item) => exists|k: int|
                0 <= k < items@.len() && items@[k] == *item && call_ensures(
                    pred,
                    (&items@[k],),
                    true,
                ) && (forall|j: int| 0 <= j < k ==> call_ensures(pred, (&items@[j],), false)),
            None => forall|i: int| 0 <= i < items@.len() ==> call_ensures(pred, (&items@[i],), false),
        },
{
    let mut i: usize = 0;
    while i < items.len()
        invariant
            i <= items@.len(),
            forall|n: int| 0 <= n < items@.len() ==> call_requires(pred, (&items@[n],)),
            forall|j: int| 0 <= j < i ==> call_ensures(pred, (&items@[j],), false),
        decreases items@.len() - i,
    {
        let item = &items[i];
        if pred(item) {
            return Some(item);
        }
        i += 1;
    }
    None
}

/// Whether a run concluded with a failure.
pub open spec fn run_failed(r: WorkflowRun) -> bool {
    r.conclusion == Conclusion::Failure
}

/// Whether a job concluded with a failure.
pub open spec fn job_failed(j: Job) -> bool {
    j.conclusion == Conclusion::Failure
}

/// The index of the first failed run of a listing, if any.
pub open spec fn first_failed_run_index(s: Seq<WorkflowRun>) -> Option<int> {
    first_match(s, |r: WorkflowRun| run_failed(r))
}

/// The index of the first failed job of a listing, if any.
pub open spec fn first_failed_job_index(s: Seq<Job>) -> Option<int> {
    first_match(s, |j: Job| job_failed(j))
}

/// Selects the first run of the listing whose conclusion is `Failure`, in
/// the listing's own order; when none matches — the empty listing included —
/// reports that no failed run exists.
pub fn first_failed_run(runs: &WorkflowRuns) -> (r: Result<&WorkflowRun, PipelineError>)
    ensures
        match first_failed_run_index(runs.workflow_runs@) {
            Some(k) => r matches Ok(run) && *run == runs.workflow_runs@[k],
            None => r matches Err(e) && e == PipelineError::NotFound(Missing::FailedRun),
        },
{
    let pred = |run: &WorkflowRun| -> (b: bool)
        ensures
            b == run_failed(*run),
        { run.conclusion == Conclusion::Failure };
    let found = take_first(&runs.workflow_runs, pred);
    let ghost s = runs.workflow_runs@;
    let ghost sp = |r: WorkflowRun| run_failed(r);
    match found {
        Some(run) => {
            proof {
                let k = choose|k: int|
                    0 <= k < s.len() && s[k] == *run && call_ensures(pred, (&s[k],), true) && (
                    forall|j: int| 0 <= j < k ==> call_ensures(pred, (&s[j],), false));
                lemma_first_match_complete(s, sp, k);
            }
            Ok(run)
        },
        None => {
            proof {
                lemma_first_match_is_first(s, sp);
                match first_match(s, sp) {
                    Some(k) => {
                        assert(call_ensures(pred, (&s[k],), false));
                        assert(false);
                    },
                    None => {},
                }
            }
            Err(PipelineError::NotFound(Missing::FailedRun))
        },
    }
}

/// Selects the first job of the listing whose conclusion is `Failure`, in
/// the listing's own order; a run marked failed whose jobs hold no failed
/// job is answered with "no failed job", never with a fabricated fallback.
pub fn first_failed_job(jobs: &Jobs) -> (r: Result<&Job, PipelineError>)
    ensures
        match first_failed_job_index(jobs.jobs@) {
            Some(k) => r matches Ok(job) && *job == jobs.jobs@[k],
            None => r matches Err(e) && e == PipelineError::NotFound(Missing::FailedJob),
        },
{
    let pred = |job: &Job| -> (b: bool)
        ensures
            b == job_failed(*job),
        { job.conclusion == Conclusion::Failure };
    let found = take_first(&jobs.jobs, pred);
    let ghost s = jobs.jobs@;
    let ghost sp = |j: Job| job_failed(j);
    match found {
        Some(job) => {
            proof {
                let k = choose|k: int|
                    0 <= k < s.len() && s[k] == *job && call_ensures(pred, (&s[k],), true) && (
                    forall|j: int| 0 <= j < k ==> call_ensures(pred, (&s[j],), false));
                lemma_first_match_complete(s, sp, k);
            }
            Ok(job)
        },
        None => {
            proof {
                lemma_first_match_is_first(s, sp);
                match first_match(s, sp) {
                    Some(k) => {
                        assert(call_ensures(pred, (&s[k],), false));
                        assert(false);
                    },
                    None => {},
                }
            }
            Err(PipelineError::NotFound(Missing::FailedJob))
        },
    }
}

} // verus!
