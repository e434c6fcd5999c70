//! The MFA prompt: supply a one-time code for an MFA device, but only when the
//! input stream is an interactive terminal. The blocking terminal read itself
//! is left to the caller; the decisions around it are verified here.

use vstd::prelude::*;
use vstd::string::StringExecFns;

verus! {

/// A one-time multi-factor authentication code, exactly as the user entered it.
#[derive(Debug, Clone, PartialEq, Eq)]
pub struct MfaToken {
    pub code: String,
}

impl View for MfaToken {
    type V = Seq<char>;

    open spec fn view(&self) -> Seq<char> {
        self.code@
    }
}

/// Why the MFA prompt could not supply a code.
#[derive(Debug, Clone, PartialEq, Eq)]
pub enum MfaPromptError {
    /// The input stream is not an interactive terminal, so no code was read.
    NotATty,
    /// The masked read from the terminal failed; the message says why.
    ReadFailure(String),
}

/// The description of a prompt invoked without an interactive terminal.
pub open spec fn not_a_tty_message() -> Seq<char> {
    "stdin is not a tty; cannot read MFA token input"@
}

/// What precedes the reader's own message in the description of a failed read.
pub open spec fn read_failure_prefix() -> Seq<char> {
    "failed to read MFA token: "@
}

impl MfaPromptError {
    /// The human-readable description of the failure.
    pub fn message(&self) -> (r: String)
        ensures
            *self is NotATty ==> r@ == not_a_tty_message(),
            *self matches MfaPromptError::ReadFailure(m) ==> r@ == read_failure_prefix() + m@,
    {
        match self {
            MfaPromptError::NotATty => String::from_str(
                "stdin is not a tty; cannot read MFA token input",
            ),
            MfaPromptError::ReadFailure(m) => {
                let mut text = String::from_str("failed to read MFA token: ");
                text.append(m.as_str());
                text
            },
        }
    }
}

/// The text shown when asking for the code of the MFA device `serial`:
/// a fixed request, the serial itself verbatim, and a separator.
pub open spec fn prompt_text(serial: Seq<char>) -> Seq<char> {
    "Enter MFA code for "@ + serial + ": "@
}

/// Decides whether an MFA code may be read. On an interactive input stream the
/// result is the prompt to display before the masked read; on any other input
/// stream the prompt is refused outright, so that no read is attempted.
pub fn mfa_prompt_request(serial: &str, interactive: bool) -> (r: Result<String, MfaPromptError>)
    ensures
        interactive ==> (r matches Ok(p) && p@ == prompt_text(serial@)),
        !interactive ==> (r matches Err(e) && e == MfaPromptError::NotATty),
{
    if !interactive {
        return Err(MfaPromptError::NotATty);
    }
    let mut text = String::from_str("Enter MFA code for ");
    text.append(serial);
    text.append(": ");
    Ok(text)
}

/// Turns the outcome of the masked read into the prompt's result: a line that
/// was read becomes the MFA token unmodified, and a failed read becomes a
/// `ReadFailure` carrying the reader's message.
pub fn mfa_prompt_outcome(read: Result<String, String>) -> (r: Result<MfaToken, MfaPromptError>)
    ensures
        read matches Ok(line) ==> (r matches Ok(t) && t@ == line@),
        read matches Err(m) ==> (r matches Err(e) && e matches MfaPromptError::ReadFailure(w)
            && w@ == m@),
{
    match read {
        Ok(line) => Ok(MfaToken { code: line }),
        Err(m) => Err(MfaPromptError::ReadFailure(m)),
    }
}

/// The prompt embeds the device serial verbatim: the prompt is exactly a
/// fixed prefix of 19 characters, then the serial itself, then 2 more.
pub proof fn lemma_prompt_embeds_serial(serial: Seq<char>)
    ensures
        prompt_text(serial).len() == serial.len() + 21,
        prompt_text(serial).subrange(19, 19 + serial.len() as int) == serial,
{
    reveal_strlit("Enter MFA code for ");
    reveal_strlit(": ");
    assert(prompt_text(serial).subrange(19, 19 + serial.len() as int) =~= serial);
}

} // verus!
