//! The permission gateway: a write-once, process-wide prompt policy and the
//! interpretation of a human answer to a permission prompt.

use vstd::prelude::*;

verus! {

/// The answer handed back to the sandbox for one permission request.
#[derive(Clone, Copy, Debug, PartialEq, Eq, Structural)]
pub enum PromptResponse {
    Allow,
    Deny,
}

/// How permission requests are answered.
#[derive(Clone, Copy, Debug, PartialEq, Eq, Structural)]
pub enum PromptPolicy {
    /// Ask a human and read one line of answer.
    Interactive,
    /// Grant every request (non-interactive environments).
    AllowAll,
    /// Refuse every request (non-interactive environments).
    DenyAll,
}

/// What `str::trim` returns for a text.
pub uninterp spec fn trim_of(s: Seq<char>) -> Seq<char>;

/// What `str::to_lowercase` returns for a text.
pub uninterp spec fn lower_of(s: Seq<char>) -> Seq<char>;

/// Relies on `str::trim`: leading and trailing white space removed; the result
/// depends on the characters alone.
#[verifier::external_body]
fn trim_text<'a>(s: &'a str) -> (r: &'a str)
    ensures
        r@ == trim_of(s@),
{
    s.trim()
}

/// Relies on `str::to_lowercase`: the lowercase mapping of each character; the
/// result depends on the characters alone.
#[verifier::external_body]
fn lowercase(s: &str) -> (r: String)
    ensures
        r@ == lower_of(s@),
{
    s.to_lowercase()
}

/// An affirmative answer, once trimmed and lowercased.
pub open spec fn is_affirmative(s: Seq<char>) -> bool {
    s == seq!['y'] || s == seq!['y', 'e', 's']
}

/// The response for an answer that is already trimmed and lowercased.
pub open spec fn response_of(s: Seq<char>) -> PromptResponse {
    if is_affirmative(s) {
        PromptResponse::Allow
    } else {
        PromptResponse::Deny
    }
}

/// The response for a raw line read from the user, or for no line at all
/// (`None`: the input could not be read or was at its end).
pub open spec fn interactive_response(line: Option<Seq<char>>) -> PromptResponse {
    match line {
        None => PromptResponse::Deny,
        Some(l) => response_of(lower_of(trim_of(l))),
    }
}

/// Maps a normalised answer to a response: exactly "y" and "yes" allow.
pub fn answer_for_normalized(s: &str) -> (r: PromptResponse)
    ensures
        r == response_of(s@),
{
    let n = s.unicode_len();
    if n == 1 {
        if s.get_char(0) == 'y' {
            assert(s@ =~= seq!['y']);
            return PromptResponse::Allow;
        }
    } else if n == 3 {
        if s.get_char(0) == 'y' && s.get_char(1) == 'e' && s.get_char(2) == 's' {
            assert(s@ =~= seq!['y', 'e', 's']);
            return PromptResponse::Allow;
        }
    }
    assert(!is_affirmative(s@)) by {
        if s@ == seq!['y'] {
            assert(s@[0] == 'y');
        }
        if s@ == seq!['y', 'e', 's'] {
            assert(s@[0] == 'y' && s@[1] == 'e' && s@[2] == 's');
        }
    }
    PromptResponse::Deny
}

/// Interprets one line typed in answer to a permission prompt. An unreadable
/// input denies; otherwise the line is trimmed, lowercased and allows only
/// when it then reads "y" or "yes".
pub fn interpret_answer(line: Option<&str>) -> (r: PromptResponse)
    ensures
        r == interactive_response(
            match line {
                None => None,
                Some(l) => Some(l@),
            },
        ),
        line.is_none() ==> r == PromptResponse::Deny,
{
    match line {
        None => PromptResponse::Deny,
        Some(l) => {
            let t = trim_text(l);
            let lower = lowercase(t);
            answer_for_normalized(lower.as_str())
        },
    }
}

/// Why a policy could not be installed.
#[derive(Clone, Copy, Debug, PartialEq, Eq, Structural)]
pub enum GatewayError {
    /// A policy was installed before; the slot is never overwritten.
    AlreadyInstalled,
}

/// The process-wide policy slot. It starts empty and is set at most once;
/// while empty, requests are answered by the interactive default.
pub struct PermissionGateway {
    policy: Option<PromptPolicy>,
}

impl PermissionGateway {
    /// The installed policy, if any.
    pub closed spec fn installed(&self) -> Option<PromptPolicy> {
        self.policy
    }

    /// The policy that answers requests now.
    pub open spec fn effective(&self) -> PromptPolicy {
        match self.installed() {
            Some(p) => p,
            None => PromptPolicy::Interactive,
        }
    }

    /// An empty slot.
    pub fn new() -> (g: PermissionGateway)
        ensures
            g.installed() is None,
    {
        PermissionGateway { policy: None }
    }

    /// Installs `policy` when the slot is empty; a second install is refused
    /// and leaves the slot as it was.
    pub fn install(&mut self, policy: PromptPolicy) -> (r: Result<(), GatewayError>)
        ensures
            old(self).installed() is None ==> r is Ok && final(self).installed() == Some(policy),
            old(self).installed() is Some ==> r == Err::<(), GatewayError>(
                GatewayError::AlreadyInstalled,
            ) && final(self).installed() == old(self).installed(),
    {
        match self.policy {
            Some(_) => Err(GatewayError::AlreadyInstalled),
            None => {
                self.policy = Some(policy);
                Ok(())
            },
        }
    }

    /// The policy that answers requests now.
    pub fn active_policy(&self) -> (p: PromptPolicy)
        ensures
            p == self.effective(),
    {
        match self.policy {
            Some(p) => p,
            None => PromptPolicy::Interactive,
        }
    }

    /// Whether answering a request needs a line read from the user.
    pub fn needs_input(&self) -> (b: bool)
        ensures
            b == (self.effective() == PromptPolicy::Interactive),
    {
        self.active_policy() == PromptPolicy::Interactive
    }

    /// Answers one request. `line` is the line read from the user, `None` when
    /// no line could be read; a non-interactive policy ignores it.
    pub fn prompt(&self, line: Option<&str>) -> (r: PromptResponse)
        ensures
            self.effective() == PromptPolicy::AllowAll ==> r == PromptResponse::Allow,
            self.effective() == PromptPolicy::DenyAll ==> r == PromptResponse::Deny,
            self.effective() == PromptPolicy::Interactive ==> r == interactive_response(
                match line {
                    None => None,
                    Some(l) => Some(l@),
                },
            ),
    {
        match self.active_policy() {
            PromptPolicy::AllowAll => PromptResponse::Allow,
            PromptPolicy::DenyAll => PromptResponse::Deny,
            PromptPolicy::Interactive => interpret_answer(line),
        }
    }
}

} // verus!
