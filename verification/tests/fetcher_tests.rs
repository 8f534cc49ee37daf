use orangebox::errors::PipelineError;
use orangebox::fetcher::FetchReply;
use orangebox::fetcher::FetchStep;
use orangebox::fetcher::on_initial_reply;
use orangebox::fetcher::on_redirect_reply;

#[test]
fn forbidden_reply_surfaces_access_forbidden_with_body_intact() {
    let body = "API rate limit exceeded for user".to_string();
    let decision = on_initial_reply(FetchReply::Forbidden(body.clone()));
    match decision {
        FetchStep::Fail(PipelineError::AccessForbidden(e)) => assert_eq!(e.details, body),
        _ => panic!("expected an access-forbidden failure"),
    }
}

#[test]
fn redirect_reply_is_followed_to_its_location() {
    let decision = on_initial_reply(FetchReply::Redirect("https://content.example/a".to_string()));
    match decision {
        FetchStep::Follow(location) => assert_eq!(location, "https://content.example/a"),
        _ => panic!("expected a follow decision"),
    }
}

#[test]
fn other_reply_surfaces_unexpected_reply_with_body() {
    let decision = on_initial_reply(FetchReply::Other(500, "server had a bad day".to_string()));
    match decision {
        FetchStep::Fail(PipelineError::UnexpectedReply(e)) => {
            assert_eq!(e.details, "server had a bad day")
        }
        _ => panic!("expected an unexpected-reply failure"),
    }
}

#[test]
fn raw_bytes_without_redirect_are_not_a_success() {
    let decision = on_initial_reply(FetchReply::RawBytes(vec![1, 2, 3]));
    assert!(matches!(
        decision,
        FetchStep::Fail(PipelineError::UnexpectedReply(_))
    ));
}

#[test]
fn redirect_then_raw_bytes_completes_with_those_exact_bytes() {
    let bytes = vec![80, 75, 3, 4, 9, 9];
    let decision = on_redirect_reply(FetchReply::RawBytes(bytes.clone()));
    match decision {
        FetchStep::Complete(payload) => assert_eq!(payload, bytes),
        _ => panic!("expected completion with the payload"),
    }
}

#[test]
fn a_redirect_chain_is_refused() {
    let decision = on_redirect_reply(FetchReply::Redirect("https://elsewhere.example".to_string()));
    assert!(matches!(
        decision,
        FetchStep::Fail(PipelineError::UnexpectedReply(_))
    ));
}

#[test]
fn forbidden_at_the_content_location_surfaces_its_body() {
    let decision = on_redirect_reply(FetchReply::Forbidden("expired link".to_string()));
    match decision {
        FetchStep::Fail(PipelineError::AccessForbidden(e)) => assert_eq!(e.details, "expired link"),
        _ => panic!("expected an access-forbidden failure"),
    }
}
