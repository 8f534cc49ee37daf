use orangebox::conclusion::Conclusion;

#[test]
fn parse_success_round_trips() {
    let parsed = Conclusion::parse("success").unwrap();
    assert!(matches!(parsed, Conclusion::Success));
    assert_eq!(parsed.as_token(), "success");
}

#[test]
fn parse_failure_round_trips() {
    let parsed = Conclusion::parse("failure").unwrap();
    assert!(matches!(parsed, Conclusion::Failure));
    assert_eq!(parsed.as_token(), "failure");
}

#[test]
fn parse_cancelled_round_trips() {
    let parsed = Conclusion::parse("cancelled").unwrap();
    assert!(matches!(parsed, Conclusion::Cancelled));
    assert_eq!(parsed.as_token(), "cancelled");
}

#[test]
fn parse_skipped_round_trips() {
    let parsed = Conclusion::parse("skipped").unwrap();
    assert!(matches!(parsed, Conclusion::Skipped));
    assert_eq!(parsed.as_token(), "skipped");
}

#[test]
fn parse_rejects_unknown_token_verbatim() {
    let err = Conclusion::parse("timed_out").unwrap_err();
    assert_eq!(err.details, "timed_out");
}

#[test]
fn parse_rejects_empty_token() {
    let err = Conclusion::parse("").unwrap_err();
    assert_eq!(err.details, "");
}

#[test]
fn parse_does_not_normalize_case() {
    let err = Conclusion::parse("Success").unwrap_err();
    assert_eq!(err.details, "Success");
}

#[test]
fn parse_does_not_trim() {
    let err = Conclusion::parse("success ").unwrap_err();
    assert_eq!(err.details, "success ");
}
