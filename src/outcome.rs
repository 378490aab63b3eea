//! Terminal conditions of one run and their mapping to messages and exit
//! codes.
use vstd::prelude::*;
use vstd::string::*;

verus! {

/// The final result of one run. Exactly one is produced per run.
#[derive(Debug, Clone, PartialEq, Eq)]
pub enum RunOutcome {
    Success,
    WrongPassword,
    EngineFailure(String),
    PathMissing(String),
    UserCancelled,
    PromptFailure(String),
    JoinFailure,
}

/// Name for what `{:?}` makes of a string: the text between quotes, with
/// special characters escaped.
pub uninterp spec fn debug_quoted(s: Seq<char>) -> Seq<char>;

/// Relies on the `Debug` impl of `str`: the quoted, escaped form of `s`,
/// which depends on the characters of `s` alone.
#[verifier::external_body]
fn quoted(s: &str) -> (r: String)
    ensures
        r@ == debug_quoted(s@),
{
    format!("{:?}", s)
}

pub open spec fn exit_code_of(o: RunOutcome) -> u8 {
    match o {
        RunOutcome::Success => 0,
        RunOutcome::PathMissing(_) => 2,
        _ => 1,
    }
}

pub open spec fn message_of(o: RunOutcome) -> Seq<char> {
    match o {
        RunOutcome::Success => "Operation successful!"@,
        RunOutcome::WrongPassword => "Wrong password!"@,
        RunOutcome::EngineFailure(reason) => reason@,
        RunOutcome::PathMissing(path) => "File "@ + debug_quoted(path@) + " not found!"@,
        RunOutcome::UserCancelled => "Operation cancelled!"@,
        RunOutcome::PromptFailure(reason) => reason@,
        RunOutcome::JoinFailure => "Unable to join thread!"@,
    }
}

impl RunOutcome {
    /// Process exit code of this outcome: 0 on success, 2 when the input
    /// path is missing, 1 for every other failure.
    pub fn exit_code(&self) -> (r: u8)
        ensures
            r == exit_code_of(*self),
    {
        match self {
            RunOutcome::Success => 0,
            RunOutcome::PathMissing(_) => 2,
            _ => 1,
        }
    }

    /// The line shown to the user once the terminal has been cleaned.
    pub fn message(&self) -> (r: String)
        ensures
            r@ == message_of(*self),
    {
        match self {
            RunOutcome::Success => String::from_str("Operation successful!"),
            RunOutcome::WrongPassword => String::from_str("Wrong password!"),
            RunOutcome::EngineFailure(reason) => reason.clone(),
            RunOutcome::PathMissing(path) => {
                let text = String::from_str("File ");
                let text = text.concat(quoted(path.as_str()).as_str());
                text.concat(" not found!")
            },
            RunOutcome::UserCancelled => String::from_str("Operation cancelled!"),
            RunOutcome::PromptFailure(reason) => reason.clone(),
            RunOutcome::JoinFailure => String::from_str("Unable to join thread!"),
        }
    }

    /// A copy of this outcome, equal to it field for field.
    pub fn duplicate(&self) -> (r: RunOutcome)
        ensures
            r == *self,
    {
        match self {
            RunOutcome::Success => RunOutcome::Success,
            RunOutcome::WrongPassword => RunOutcome::WrongPassword,
            RunOutcome::EngineFailure(reason) => RunOutcome::EngineFailure(reason.clone()),
            RunOutcome::PathMissing(path) => RunOutcome::PathMissing(path.clone()),
            RunOutcome::UserCancelled => RunOutcome::UserCancelled,
            RunOutcome::PromptFailure(reason) => RunOutcome::PromptFailure(reason.clone()),
            RunOutcome::JoinFailure => RunOutcome::JoinFailure,
        }
    }
}

/// Outcome of a decrypting worker from what the engine returned: `Some(true)`
/// for a container opened with the right password, `Some(false)` for a
/// structurally valid container and a wrong password, `None` for an invalid
/// container or an I/O failure.
pub fn decrypt_outcome(engine_result: Option<bool>) -> (r: RunOutcome)
    ensures
        engine_result == Some(true) ==> r is Success,
        engine_result == Some(false) ==> r is WrongPassword,
        engine_result is None ==> r is EngineFailure && message_of(r) == "Container invalid!"@,
{
    match engine_result {
        Some(true) => RunOutcome::Success,
        Some(false) => RunOutcome::WrongPassword,
        None => RunOutcome::EngineFailure(String::from_str("Container invalid!")),
    }
}

/// Outcome of an encrypting worker from whether the engine wrote the
/// container.
pub fn encrypt_outcome(created: bool) -> (r: RunOutcome)
    ensures
        created ==> r is Success,
        !created ==> r is EngineFailure && message_of(r) == "Unable to create container!"@,
{
    if created {
        RunOutcome::Success
    } else {
        RunOutcome::EngineFailure(String::from_str("Unable to create container!"))
    }
}

/// Outcome after joining the worker: its own outcome, or `JoinFailure` when
/// the worker ended abnormally and its outcome is lost.
pub fn join_outcome(joined: Option<RunOutcome>) -> (r: RunOutcome)
    ensures
        r == join_outcome_of(joined),
{
    match joined {
        Some(o) => o,
        None => RunOutcome::JoinFailure,
    }
}

pub open spec fn join_outcome_of(joined: Option<RunOutcome>) -> RunOutcome {
    match joined {
        Some(o) => o,
        None => RunOutcome::JoinFailure,
    }
}

/// Outcome when the input exists but cannot be opened for reading.
pub fn input_unreadable() -> (r: RunOutcome)
    ensures
        r is EngineFailure && message_of(r) == "Unable to open file"@,
{
    RunOutcome::EngineFailure(String::from_str("Unable to open file"))
}

/// Outcome when the output file cannot be created at `path`.
pub fn output_unavailable(path: &str) -> (r: RunOutcome)
    ensures
        r is EngineFailure && message_of(r) == "Could not access "@ + debug_quoted(path@),
{
    let text = String::from_str("Could not access ");
    RunOutcome::EngineFailure(text.concat(quoted(path).as_str()))
}

/// Outcome when the password prompt could not be read.
pub fn password_unavailable() -> (r: RunOutcome)
    ensures
        r is PromptFailure && message_of(r) == "Unable to read password!"@,
{
    RunOutcome::PromptFailure(String::from_str("Unable to read password!"))
}

/// Outcome of a prompt that could not be read.
pub fn prompt_unavailable() -> (r: RunOutcome)
    ensures
        r is PromptFailure && message_of(r) == "Unable to get user prompt!"@,
{
    RunOutcome::PromptFailure(String::from_str("Unable to get user prompt!"))
}

/// Exit code 2 is reserved for a missing input path: it is given to that
/// outcome and to no other.
pub proof fn lemma_exit_code_two_iff_path_missing(o: RunOutcome)
    ensures
        (exit_code_of(o) == 2) <==> (o is PathMissing),
{
}

} // verus!
