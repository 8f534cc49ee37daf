use orangebox::conclusion::Conclusion;
use orangebox::logpath::failed_step_filename;
use orangebox::model::Job;
use orangebox::model::Step;
use orangebox::pipeline::make_api_url;
use orangebox::text::decimal_string;

fn step(name: &str, conclusion: Conclusion, number: u32) -> Step {
    Step {
        name: name.to_string(),
        status: "completed".to_string(),
        conclusion,
        number,
    }
}

fn build_job(steps: Vec<Step>) -> Job {
    Job {
        name: "build".to_string(),
        status: "completed".to_string(),
        conclusion: Conclusion::Failure,
        steps,
    }
}

#[test]
fn derives_path_of_first_failed_step() {
    let job = build_job(vec![
        step("lint", Conclusion::Success, 1),
        step("test", Conclusion::Failure, 2),
    ]);
    let path = failed_step_filename(&job).unwrap();
    assert_eq!(path, "build/2_test.txt");
}

#[test]
fn derivation_is_deterministic() {
    let job = build_job(vec![step("test", Conclusion::Failure, 2)]);
    let first = failed_step_filename(&job).unwrap();
    let second = failed_step_filename(&job).unwrap();
    assert_eq!(first, second);
}

#[test]
fn differing_step_numbers_derive_differing_paths() {
    let with_two = build_job(vec![step("test", Conclusion::Failure, 2)]);
    let with_three = build_job(vec![step("test", Conclusion::Failure, 3)]);
    let path_two = failed_step_filename(&with_two).unwrap();
    let path_three = failed_step_filename(&with_three).unwrap();
    assert_ne!(path_two, path_three);
    assert_eq!(path_two, "build/2_test.txt");
    assert_eq!(path_three, "build/3_test.txt");
}

#[test]
fn step_number_is_authoritative_not_positional() {
    let job = build_job(vec![
        step("setup", Conclusion::Success, 1),
        step("compile", Conclusion::Failure, 7),
    ]);
    let path = failed_step_filename(&job).unwrap();
    assert_eq!(path, "build/7_compile.txt");
}

#[test]
fn uses_first_failed_step_even_when_several_failed() {
    let job = build_job(vec![
        step("a", Conclusion::Failure, 1),
        step("b", Conclusion::Failure, 2),
    ]);
    let path = failed_step_filename(&job).unwrap();
    assert_eq!(path, "build/1_a.txt");
}

#[test]
fn job_without_failed_step_has_no_path() {
    let job = build_job(vec![
        step("lint", Conclusion::Success, 1),
        step("deploy", Conclusion::Cancelled, 2),
    ]);
    assert!(failed_step_filename(&job).is_none());
}

#[test]
fn decimal_rendering_matches_expected_values() {
    assert_eq!(decimal_string(0), "0");
    assert_eq!(decimal_string(7), "7");
    assert_eq!(decimal_string(10), "10");
    assert_eq!(decimal_string(42), "42");
    assert_eq!(decimal_string(4294967295), "4294967295");
}

#[test]
fn api_url_is_built_from_the_repository() {
    let url = make_api_url(&"zarkone/literally.el".to_string());
    assert_eq!(url, "https://api.github.com/repos/zarkone/literally.el/actions/runs");
}
