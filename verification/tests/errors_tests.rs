use orangebox::errors::AccessForbiddenError;
use orangebox::errors::UnexpectedReplyError;
use orangebox::errors::UnknownConclusionError;

#[test]
fn access_forbidden_keeps_the_message_verbatim() {
    let e = AccessForbiddenError::new("you shall not pass");
    assert_eq!(e.details, "you shall not pass");
}

#[test]
fn unexpected_reply_keeps_the_message_verbatim() {
    let e = UnexpectedReplyError::new("status 418");
    assert_eq!(e.details, "status 418");
}

#[test]
fn unknown_conclusion_keeps_the_token_verbatim() {
    let e = UnknownConclusionError::new("action_required");
    assert_eq!(e.details, "action_required");
}
