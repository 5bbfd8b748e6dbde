//! Resolution of one raw assignment value. The classification is
//! decided here; executing a shell command or looking up an
//! environment variable is the caller's part, and the captured command
//! output comes back through [`command_value`].

use vstd::prelude::*;
use vstd::string::*;

use crate::error::BuildError;
use crate::text;

verus! {

/// How one raw assignment value is to be resolved.
#[derive(Debug, Clone, PartialEq, Eq)]
pub enum AssignmentKind {
    /// The value is taken verbatim.
    Literal(String),
    /// `$NAME`: the value is the named environment variable's value;
    /// an unset variable is fatal.
    EnvVar(String),
    /// `$(command)`: the value is the command's captured standard
    /// output with trailing whitespace trimmed; a non-zero exit is
    /// fatal.
    Command(String),
}

/// `v` is written `$(...)`.
pub open spec fn is_command_form(v: Seq<char>) -> bool {
    text::starts_with_spec(v, "$("@) && text::ends_with_spec(v, ")"@)
}

/// `v` is written `$...` but not `$(...)`.
pub open spec fn is_env_form(v: Seq<char>) -> bool {
    text::starts_with_spec(v, "$"@) && !is_command_form(v)
}

/// Decide how a raw assignment value resolves.
pub fn classify_assignment(v: &str) -> (r: AssignmentKind)
    ensures
        is_command_form(v@) ==> (r matches AssignmentKind::Command(c) && c@ == v@.subrange(
            2,
            v@.len() - 1,
        )),
        is_env_form(v@) ==> (r matches AssignmentKind::EnvVar(e) && e@ == v@.subrange(
            1,
            v@.len() as int,
        )),
        !is_command_form(v@) && !is_env_form(v@) ==> (r matches AssignmentKind::Literal(l) && l@
            == v@),
{
    proof {
        reveal_strlit("$(");
        reveal_strlit("$");
        reveal_strlit(")");
    }
    let n = v.unicode_len();
    if text::starts_with(v, "$(") && text::ends_with(v, ")") {
        proof {
            // the '(' of the prefix and the ')' of the suffix cannot be
            // the same character, so the value has at least 3 characters
            assert(v@.subrange(0, 2)[1] == '(');
            assert(v@.subrange(v@.len() - 1, v@.len() as int)[0] == ')');
            assert(v@.len() >= 3);
        }
        return AssignmentKind::Command(text::substr_string(v, 2, n - 1));
    }
    if text::starts_with(v, "$") {
        return AssignmentKind::EnvVar(text::substr_string(v, 1, n));
    }
    AssignmentKind::Literal(String::from_str(v))
}

/// The resolved value of a `$(command)` assignment, given the
/// command's captured standard output.
pub fn command_value(output: &str) -> (r: String)
    ensures
        r@ == text::trim_end_spec(output@),
{
    text::trim_end_string(output)
}

/// The resolved value of a `$NAME` assignment, given what the
/// environment lookup returned: absence is fatal.
pub fn env_value(name: &str, looked_up: Option<String>) -> (r: Result<String, BuildError>)
    ensures
        r is Ok <==> looked_up is Some,
        r matches Ok(v) ==> looked_up matches Some(w) && v == w,
        r matches Err(e) ==> e matches BuildError::ValueResolutionFailure { value, detail } && value@
            == name@ && detail@ == "the environment variable is not set"@,
{
    match looked_up {
        Option::Some(v) => Result::Ok(v),
        Option::None => Result::Err(
            BuildError::ValueResolutionFailure {
                value: String::from_str(name),
                detail: String::from_str("the environment variable is not set"),
            },
        ),
    }
}

/// The outcome of a `$(command)` run that could not produce a value:
/// a non-zero exit is fatal, keeping the failing command.
pub fn command_failure(command: &str, detail: String) -> (r: BuildError)
    ensures
        r matches BuildError::ValueResolutionFailure { value, detail: d } && value@ == command@
            && d == detail,
{
    BuildError::ValueResolutionFailure { value: String::from_str(command), detail }
}

} // verus!
