//! The error classifier: a total map from every failure of an invocation to
//! the text shown to the user and the process exit code.

use vstd::prelude::*;

verus! {

/// Exit code of a successful run, or of a version display.
pub const EXIT_SUCCESS: i32 = 0;

/// Exit code of an uncaught script error and of any other propagated error.
pub const EXIT_FAILURE: i32 = 1;

/// Exit code of a malformed invocation.
pub const EXIT_USAGE: i32 = 2;

/// Exit code of a failed dependency integrity check.
pub const EXIT_INTEGRITY: i32 = 10;

/// The prefix that frames an error line.
pub const ERROR_PREFIX: &'static str = "error: ";

/// A failure surfaced by any stage of an invocation.
#[derive(Clone, Debug)]
pub enum CliError {
    /// The command line could not be parsed; `display_version` is set when
    /// the parser stopped in order to print the version, held in `message`.
    Usage { display_version: bool, message: String },
    /// The script raised an uncaught error; `message` is its formatted text.
    ScriptRuntime { message: String },
    /// The lockfile and the installed packages disagree.
    DependencyIntegrity { message: String },
    /// Any other error, such as I/O, resolution or worker creation.
    Generic { message: String },
}

/// What the process prints before it exits, and the code it exits with.
#[derive(Clone, Debug)]
pub struct ExitReport {
    pub text: String,
    pub code: i32,
}

/// The seven characters "error: ".
pub open spec fn error_prefix() -> Seq<char> {
    seq!['e', 'r', 'r', 'o', 'r', ':', ' ']
}

/// `s` with every leading "error: " removed, one after another.
pub open spec fn strip_error_prefixes(s: Seq<char>) -> Seq<char>
    decreases s.len(),
{
    if s.len() >= 7 && s.subrange(0, 7) == error_prefix() {
        strip_error_prefixes(s.subrange(7, s.len() as int))
    } else {
        s
    }
}

/// The framed error line for a message.
pub open spec fn framed(message: Seq<char>) -> Seq<char> {
    error_prefix() + strip_error_prefixes(message)
}

/// The exit code of each kind of failure.
pub open spec fn code_of(e: CliError) -> i32 {
    match e {
        CliError::Usage { display_version, .. } => if display_version {
            EXIT_SUCCESS
        } else {
            EXIT_USAGE
        },
        CliError::ScriptRuntime { .. } => EXIT_FAILURE,
        CliError::DependencyIntegrity { .. } => EXIT_INTEGRITY,
        CliError::Generic { .. } => EXIT_FAILURE,
    }
}

/// The text shown for each kind of failure: a version display as it is,
/// anything else framed as an error line.
pub open spec fn text_of(e: CliError) -> Seq<char> {
    match e {
        CliError::Usage { display_version, message } => if display_version {
            message@
        } else {
            framed(message@)
        },
        CliError::ScriptRuntime { message } => framed(message@),
        CliError::DependencyIntegrity { message } => framed(message@),
        CliError::Generic { message } => framed(message@),
    }
}

/// Whether "error: " stands in `s` at char index `i`.
fn prefix_at(s: &str, n: usize, i: usize) -> (b: bool)
    requires
        n == s@.len(),
        i + 7 <= n,
    ensures
        b == (s@.subrange(i as int, i + 7) == error_prefix()),
{
    proof {
        reveal_strlit("error: ");
    }
    assert(ERROR_PREFIX@ == error_prefix());
    let mut j: usize = 0;
    while j < 7
        invariant
            j <= 7,
            n == s@.len(),
            i + 7 <= n,
            ERROR_PREFIX@ == error_prefix(),
            forall|k: int| 0 <= k < j ==> s@[i + k] == error_prefix()[k],
        decreases 7 - j,
    {
        if s.get_char(i + j) != ERROR_PREFIX.get_char(j) {
            assert(s@.subrange(i as int, i + 7)[j as int] != error_prefix()[j as int]);
            return false;
        }
        j += 1;
    }
    assert(s@.subrange(i as int, i + 7) =~= error_prefix());
    true
}

/// `message` without its leading "error: " prefixes.
pub fn strip_error_prefix(message: &str) -> (r: &str)
    ensures
        r@ == strip_error_prefixes(message@),
{
    let n = message.unicode_len();
    let mut i: usize = 0;
    assert(message@.subrange(0, n as int) =~= message@);
    while n - i >= 7 && prefix_at(message, n, i)
        invariant
            i <= n,
            n == message@.len(),
            strip_error_prefixes(message@) == strip_error_prefixes(
                message@.subrange(i as int, n as int),
            ),
        decreases n - i,
    {
        let ghost rest = message@.subrange(i as int, n as int);
        assert(rest.subrange(0, 7) =~= message@.subrange(i as int, i + 7));
        assert(rest.subrange(7, rest.len() as int) =~= message@.subrange(i + 7, n as int));
        i += 7;
    }
    let ghost rest = message@.subrange(i as int, n as int);
    if n - i >= 7 {
        assert(rest.subrange(0, 7) =~= message@.subrange(i as int, i + 7));
    }
    message.substring_char(i, n)
}

/// The error line for `message` and the code to exit with: "error: "
/// followed by the message without its own leading "error: " prefixes.
pub fn exit_with_message(message: &str, code: i32) -> (r: ExitReport)
    ensures
        r.text@ == framed(message@),
        r.code == code,
{
    proof {
        reveal_strlit("error: ");
    }
    let mut text = String::new();
    text.append(ERROR_PREFIX);
    text.append(strip_error_prefix(message));
    ExitReport { text, code }
}

/// Classifies a failure into the text to print and the exit code.
pub fn exit_for_error(error: &CliError) -> (r: ExitReport)
    ensures
        r.text@ == text_of(*error),
        r.code == code_of(*error),
{
    match error {
        CliError::Usage { display_version, message } => {
            if *display_version {
                ExitReport { text: message.clone(), code: EXIT_SUCCESS }
            } else {
                exit_with_message(message.as_str(), EXIT_USAGE)
            }
        },
        CliError::ScriptRuntime { message } => exit_with_message(message.as_str(), EXIT_FAILURE),
        CliError::DependencyIntegrity { message } => exit_with_message(
            message.as_str(),
            EXIT_INTEGRITY,
        ),
        CliError::Generic { message } => exit_with_message(message.as_str(), EXIT_FAILURE),
    }
}

} // verus!
