use orangebox::conclusion::Conclusion;
use orangebox::errors::Missing;
use orangebox::errors::PipelineError;
use orangebox::model::Job;
use orangebox::model::Jobs;
use orangebox::model::WorkflowRun;
use orangebox::model::WorkflowRuns;
use orangebox::resolve::first_failed_job;
use orangebox::resolve::first_failed_run;
use orangebox::resolve::take_first;

fn run(tag: &str, conclusion: Conclusion) -> WorkflowRun {
    WorkflowRun {
        logs_url: format!("https://logs.example/{}", tag),
        jobs_url: format!("https://jobs.example/{}", tag),
        conclusion,
    }
}

fn job(name: &str, conclusion: Conclusion) -> Job {
    Job {
        name: name.to_string(),
        status: "completed".to_string(),
        conclusion,
        steps: Vec::new(),
    }
}

#[test]
fn empty_run_collection_is_not_found() {
    let runs = WorkflowRuns {
        total_count: 0,
        workflow_runs: Vec::new(),
    };
    let err = first_failed_run(&runs).unwrap_err();
    assert!(matches!(err, PipelineError::NotFound(Missing::FailedRun)));
}

#[test]
fn empty_job_collection_is_not_found() {
    let jobs = Jobs {
        total_count: 0,
        jobs: Vec::new(),
    };
    let err = first_failed_job(&jobs).unwrap_err();
    assert!(matches!(err, PipelineError::NotFound(Missing::FailedJob)));
}

#[test]
fn first_failed_run_picks_first_of_several_failures() {
    let runs = WorkflowRuns {
        total_count: 4,
        workflow_runs: vec![
            run("a", Conclusion::Success),
            run("b", Conclusion::Failure),
            run("c", Conclusion::Failure),
            run("d", Conclusion::Success),
        ],
    };
    let picked = first_failed_run(&runs).unwrap();
    assert_eq!(picked.logs_url, "https://logs.example/b");
}

#[test]
fn first_failed_run_ignores_cancelled() {
    let runs = WorkflowRuns {
        total_count: 2,
        workflow_runs: vec![run("a", Conclusion::Cancelled), run("b", Conclusion::Skipped)],
    };
    let err = first_failed_run(&runs).unwrap_err();
    assert!(matches!(err, PipelineError::NotFound(Missing::FailedRun)));
}

#[test]
fn first_failed_job_picks_first_of_several_failures() {
    let jobs = Jobs {
        total_count: 3,
        jobs: vec![
            job("lint", Conclusion::Success),
            job("build", Conclusion::Failure),
            job("test", Conclusion::Failure),
        ],
    };
    let picked = first_failed_job(&jobs).unwrap();
    assert_eq!(picked.name, "build");
}

#[test]
fn failed_run_without_failed_job_is_not_found() {
    let jobs = Jobs {
        total_count: 2,
        jobs: vec![job("lint", Conclusion::Success), job("deploy", Conclusion::Cancelled)],
    };
    let err = first_failed_job(&jobs).unwrap_err();
    assert!(matches!(err, PipelineError::NotFound(Missing::FailedJob)));
}

#[test]
fn take_first_returns_first_matching_element() {
    let items = vec![1, 5, 2, 7, 5];
    let found = take_first(&items, |x: &i32| *x == 5);
    assert_eq!(found, Some(&items[1]));
}

#[test]
fn take_first_on_empty_collection_is_none() {
    let items: Vec<i32> = Vec::new();
    let found = take_first(&items, |x: &i32| *x == 5);
    assert_eq!(found, None);
}

#[test]
fn take_first_without_match_is_none() {
    let items = vec![1, 2, 3];
    let found = take_first(&items, |x: &i32| *x > 9);
    assert_eq!(found, None);
}
