use sts_session::mfa::{mfa_prompt_outcome, mfa_prompt_request, MfaPromptError, MfaToken};

#[test]
fn refuses_without_interactive_terminal() {
    let r = mfa_prompt_request("arn:aws:iam::111122223333:mfa/alice", false);
    assert_eq!(r, Err(MfaPromptError::NotATty));
}

#[test]
fn prompt_includes_serial_verbatim() {
    let serial = "arn:aws:iam::111122223333:mfa/alice";
    let prompt = mfa_prompt_request(serial, true).unwrap();
    assert_eq!(
        prompt,
        "Enter MFA code for arn:aws:iam::111122223333:mfa/alice: "
    );
    assert!(prompt.contains(serial));
}

#[test]
fn prompt_of_empty_serial() {
    let prompt = mfa_prompt_request("", true).unwrap();
    assert_eq!(prompt, "Enter MFA code for : ");
}

#[test]
fn token_is_the_line_unmodified() {
    let r = mfa_prompt_outcome(Ok(String::from("123456")));
    assert_eq!(
        r,
        Ok(MfaToken {
            code: String::from("123456")
        })
    );
}

#[test]
fn token_keeps_unusual_content() {
    let r = mfa_prompt_outcome(Ok(String::from("  0042 abc  ")));
    assert_eq!(r.unwrap().code, "  0042 abc  ");
}

#[test]
fn empty_line_gives_empty_token() {
    let r = mfa_prompt_outcome(Ok(String::new()));
    assert_eq!(r.unwrap().code, "");
}

#[test]
fn error_messages_are_exact() {
    assert_eq!(
        MfaPromptError::NotATty.message(),
        "stdin is not a tty; cannot read MFA token input"
    );
    assert_eq!(
        MfaPromptError::ReadFailure(String::from("stream closed")).message(),
        "failed to read MFA token: stream closed"
    );
}

#[test]
fn failed_read_is_reported() {
    let r = mfa_prompt_outcome(Err(String::from("stream closed")));
    assert_eq!(
        r,
        Err(MfaPromptError::ReadFailure(String::from("stream closed")))
    );
}
