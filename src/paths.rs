//! Path resolution: which mode a run takes and where its output goes.
use vstd::prelude::*;
use vstd::string::*;
use crate::outcome::{RunOutcome, message_of};

verus! {

/// Extension of a container written by the engine.
pub const CONTAINER_EXT: &'static str = "zep";

/// Extension appended when decrypting a file that does not carry
/// [`CONTAINER_EXT`], so that the output never takes the input's name.
pub const UNRECOGNIZED_EXT: &'static str = "unzep";

pub open spec fn container_ext() -> Seq<char> {
    seq!['z', 'e', 'p']
}

pub open spec fn unrecognized_ext() -> Seq<char> {
    seq!['u', 'n', 'z', 'e', 'p']
}

#[derive(Debug, Clone, Copy, PartialEq, Eq, Structural)]
pub enum OperationMode {
    Encrypt,
    Decrypt,
}

/// Name for the extension that `std::path::Path::extension` finds in a path:
/// the part of its final component after the last `.`, if any.
pub uninterp spec fn extension_of(path: Seq<char>) -> Option<Seq<char>>;

/// Name for the path that `std::path::Path::with_extension("")` makes of a
/// path: the same path with the extension of its final component removed.
pub uninterp spec fn without_extension(path: Seq<char>) -> Seq<char>;

/// Relies on `std::path::Path::extension`, which reads the path's characters
/// alone. An extension of a path given as `str` is itself valid text, so the
/// conversion back to `String` loses nothing.
#[verifier::external_body]
fn path_extension(path: &str) -> (r: Option<String>)
    ensures
        match r {
            Some(e) => extension_of(path@) == Some(e@),
            None => extension_of(path@) is None,
        },
{
    match std::path::Path::new(path).extension() {
        Some(e) => e.to_str().map(String::from),
        None => None,
    }
}

/// Relies on `std::path::Path::with_extension` with an empty extension, which
/// reads the path's characters alone; the result of a path given as `str` is
/// valid text.
#[verifier::external_body]
fn strip_extension(path: &str) -> (r: String)
    ensures
        r@ == without_extension(path@),
{
    std::path::Path::new(path).with_extension("").to_string_lossy().into_owned()
}

/// Whether the path carries the container extension.
pub open spec fn is_container_path(path: Seq<char>) -> bool {
    extension_of(path) == Some(container_ext())
}

/// The mode of a run: decrypt when asked to, or when the input carries the
/// container extension; encrypt otherwise.
pub open spec fn mode_of(input: Seq<char>, decrypt_flag: bool) -> OperationMode {
    if decrypt_flag || is_container_path(input) {
        OperationMode::Decrypt
    } else {
        OperationMode::Encrypt
    }
}

/// The output path derived when none is given.
pub open spec fn derived_output(input: Seq<char>, mode: OperationMode) -> Seq<char> {
    match mode {
        OperationMode::Encrypt => input + seq!['.'] + container_ext(),
        OperationMode::Decrypt => if is_container_path(input) {
            without_extension(input)
        } else {
            input + seq!['.'] + unrecognized_ext()
        },
    }
}

/// Whether `path` carries the container extension.
pub fn has_container_extension(path: &str) -> (r: bool)
    ensures
        r == is_container_path(path@),
{
    proof {
        reveal_strlit("zep");
    }
    let ext = String::from_str(CONTAINER_EXT);
    assert(ext@ =~= container_ext());
    match path_extension(path) {
        Some(e) => e == ext,
        None => false,
    }
}

/// Mode of a run on `input`; `decrypt_flag` forces decryption.
pub fn resolve_mode(input: &str, decrypt_flag: bool) -> (r: OperationMode)
    ensures
        r == mode_of(input@, decrypt_flag),
{
    if decrypt_flag || has_container_extension(input) {
        OperationMode::Decrypt
    } else {
        OperationMode::Encrypt
    }
}

/// Appends `.` and `ext` to the whole path, keeping any extension it has.
pub fn append_extension(path: &mut String, ext: &str)
    ensures
        final(path)@ == old(path)@ + seq!['.'] + ext@,
{
    proof {
        reveal_strlit(".");
    }
    path.append(".");
    path.append(ext);
}

/// Output path for `input` in `mode` when none is given: the container
/// extension appended for encryption; for decryption that extension
/// stripped, or the unrecognized-container extension appended to an input
/// without it.
pub fn derive_output_path(input: &str, mode: OperationMode) -> (r: String)
    ensures
        r@ == derived_output(input@, mode),
{
    proof {
        reveal_strlit("zep");
        reveal_strlit("unzep");
    }
    match mode {
        OperationMode::Encrypt => {
            let mut out = input.to_owned();
            append_extension(&mut out, CONTAINER_EXT);
            out
        },
        OperationMode::Decrypt => {
            if has_container_extension(input) {
                strip_extension(input)
            } else {
                let mut out = input.to_owned();
                append_extension(&mut out, UNRECOGNIZED_EXT);
                out
            }
        },
    }
}

/// Name for whether `std::path::Path` equality holds between two paths: it
/// compares them component by component, so repeated separators, inner `.`
/// components and a trailing separator make no difference.
pub uninterp spec fn same_path(a: Seq<char>, b: Seq<char>) -> bool;

/// Relies on `PartialEq` for `std::path::Path`, which compares the paths'
/// components and reads their characters alone; identical text gives
/// identical components.
#[verifier::external_body]
fn paths_equal(a: &str, b: &str) -> (r: bool)
    ensures
        r == same_path(a@, b@),
        a@ == b@ ==> r,
{
    std::path::Path::new(a) == std::path::Path::new(b)
}

/// The accepted plan of a run. The output does not name the input's path.
#[derive(Debug, Clone, PartialEq, Eq)]
pub struct PathPlan {
    pub input: String,
    pub output: String,
    pub mode: OperationMode,
}

impl PathPlan {
    pub open spec fn wf(&self) -> bool {
        !same_path(self.output@, self.input@)
    }
}

/// Output path of a run: the explicit one verbatim, else the derived one.
pub open spec fn planned_output(
    input: Seq<char>,
    explicit_output: Option<Seq<char>>,
    decrypt_flag: bool,
) -> Seq<char> {
    match explicit_output {
        Some(out) => out,
        None => derived_output(input, mode_of(input, decrypt_flag)),
    }
}

pub open spec fn view_of_output(explicit_output: Option<String>) -> Option<Seq<char>> {
    match explicit_output {
        Some(out) => Some(out@),
        None => None,
    }
}

/// Resolves the plan of a run on `input`, which exists on disk iff
/// `input_exists`. Fails with `PathMissing` for a missing input, and with an
/// engine failure when the planned output names the same path as the input,
/// however it is spelled; nothing is created on disk either way.
pub fn plan_paths(
    input: &str,
    input_exists: bool,
    explicit_output: Option<String>,
    decrypt_flag: bool,
) -> (r: Result<PathPlan, RunOutcome>)
    ensures
        !input_exists ==> (r matches Err(RunOutcome::PathMissing(p)) && p@ == input@),
        input_exists && same_path(
            planned_output(input@, view_of_output(explicit_output), decrypt_flag),
            input@,
        ) ==> (r matches Err(o) && o is EngineFailure && message_of(o)
            == "Input and output file should be different"@),
        input_exists && planned_output(input@, view_of_output(explicit_output), decrypt_flag)
            == input@ ==> r is Err,
        input_exists && !same_path(
            planned_output(input@, view_of_output(explicit_output), decrypt_flag),
            input@,
        ) ==> (r matches Ok(plan) && plan.input@ == input@ && plan.output@
            == planned_output(input@, view_of_output(explicit_output), decrypt_flag)
            && plan.mode == mode_of(input@, decrypt_flag) && plan.wf()),
{
    if !input_exists {
        return Err(RunOutcome::PathMissing(input.to_owned()));
    }
    let mode = resolve_mode(input, decrypt_flag);
    let output = match explicit_output {
        Some(out) => out,
        None => derive_output_path(input, mode),
    };
    if paths_equal(output.as_str(), input) {
        return Err(
            RunOutcome::EngineFailure(
                String::from_str("Input and output file should be different"),
            ),
        );
    }
    Ok(PathPlan { input: input.to_owned(), output, mode })
}

/// Decision on an output path that already exists, from the user's answer
/// to the overwrite prompt (`None` when the prompt could not be read):
/// `None` to go on, or the outcome that ends the run.
pub fn overwrite_decision(answer: Option<bool>) -> (r: Option<RunOutcome>)
    ensures
        answer == Some(true) ==> r is None,
        answer == Some(false) ==> r == Some(RunOutcome::UserCancelled),
        answer is None ==> (r matches Some(o) && o is PromptFailure && message_of(o)
            == "Unable to get user prompt!"@),
{
    match answer {
        Some(true) => None,
        Some(false) => Some(RunOutcome::UserCancelled),
        None => Some(crate::outcome::prompt_unavailable()),
    }
}

/// Without the decrypt flag, an input lacking the container extension is
/// encrypted; an input carrying it is decrypted whatever the flag says.
pub proof fn lemma_mode_follows_extension(input: Seq<char>, decrypt_flag: bool)
    ensures
        !decrypt_flag && !is_container_path(input) ==> mode_of(input, decrypt_flag)
            == OperationMode::Encrypt,
        is_container_path(input) ==> mode_of(input, decrypt_flag) == OperationMode::Decrypt,
{
}

/// The decrypt flag always yields decryption.
pub proof fn lemma_decrypt_flag_forces_decrypt(input: Seq<char>)
    ensures
        mode_of(input, true) == OperationMode::Decrypt,
{
}

/// An explicit output equal to the input makes the planned output the input
/// itself, which `plan_paths` refuses before anything is created.
pub proof fn lemma_same_output_refused(input: Seq<char>, decrypt_flag: bool)
    ensures
        planned_output(input, Some(input), decrypt_flag) == input,
{
}

} // verus!
