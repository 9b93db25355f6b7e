//! Turning the operator's free-form input into a canonical host name.
use vstd::prelude::*;

verus! {

/// Why a target could not be accepted.
#[derive(Debug, Clone, Copy, PartialEq, Eq, Structural)]
pub enum TargetError {
    /// The input was empty once surrounding whitespace was removed.
    Validation,
    /// The reverse lookup succeeded but returned no names.
    LookupEmpty,
}

impl TargetError {
    /// A short text for the operator.
    pub fn message(&self) -> (r: String)
        ensures
            r@.len() > 0,
    {
        match self {
            TargetError::Validation => {
                proof { reveal_strlit("Target cannot be empty"); }
                "Target cannot be empty".to_string()
            },
            TargetError::LookupEmpty => {
                proof { reveal_strlit("Reverse lookup returned no results"); }
                "Reverse lookup returned no results".to_string()
            },
        }
    }
}

/// What the reverse lookup produced for a target, as handed in by its caller.
pub enum LookupOutcome {
    /// The text is not a numeric address, so no lookup was made.
    NotAddress,
    /// The lookup answered with these names, in the order given.
    Names(Vec<String>),
    /// The lookup failed (no resolver, timeout, no such record, ...).
    Failed,
}

/// The outcome with each name as a character sequence.
pub enum LookupModel {
    NotAddress,
    Names(Seq<Seq<char>>),
    Failed,
}

impl View for LookupOutcome {
    type V = LookupModel;

    open spec fn view(&self) -> LookupModel {
        match self {
            LookupOutcome::NotAddress => LookupModel::NotAddress,
            LookupOutcome::Names(v) => LookupModel::Names(v@.map_values(|s: String| s@)),
            LookupOutcome::Failed => LookupModel::Failed,
        }
    }
}

/// What `str::trim` leaves of a text.
pub uninterp spec fn trimmed(s: Seq<char>) -> Seq<char>;

/// Relies on `str::trim`: the text without leading and trailing whitespace,
/// a function of the characters alone; an empty text stays empty.
#[verifier::external_body]
pub(crate) fn trim_text(s: &str) -> (r: &str)
    ensures
        r@ == trimmed(s@),
        s@.len() == 0 ==> r@.len() == 0,
{
    s.trim()
}

/// A host name without its one trailing root-label separator, if it has one.
pub open spec fn strip_root_label(name: Seq<char>) -> Seq<char> {
    if name.len() > 0 && name.last() == '.' {
        name.drop_last()
    } else {
        name
    }
}

/// The canonical target for an already trimmed, non-empty text.
pub open spec fn canonical_of(text: Seq<char>, outcome: LookupModel) -> Result<Seq<char>, TargetError> {
    match outcome {
        LookupModel::NotAddress => Ok(text),
        LookupModel::Failed => Ok(text),
        LookupModel::Names(names) => if names.len() == 0 {
            Err(TargetError::LookupEmpty)
        } else {
            Ok(strip_root_label(names[0]))
        },
    }
}

/// The canonical target for raw operator input.
pub open spec fn resolve_of(input: Seq<char>, outcome: LookupModel) -> Result<Seq<char>, TargetError> {
    if trimmed(input).len() == 0 {
        Err(TargetError::Validation)
    } else {
        canonical_of(trimmed(input), outcome)
    }
}

/// A result with its text as a character sequence.
pub open spec fn result_view(r: Result<String, TargetError>) -> Result<Seq<char>, TargetError> {
    match r {
        Ok(s) => Ok(s@),
        Err(e) => Err(e),
    }
}

/// Removes one trailing `.` from a host name.
pub fn strip_root(name: &str) -> (r: String)
    ensures
        r@ == strip_root_label(name@),
{
    let n = name.unicode_len();
    if n > 0 && name.get_char(n - 1) == '.' {
        name.substring_char(0, n - 1).to_string()
    } else {
        name.to_string()
    }
}

/// Trims the operator's input; fails when nothing is left.
pub fn validate_target(input: &str) -> (r: Result<String, TargetError>)
    ensures
        trimmed(input@).len() == 0 ==> r == Err::<String, TargetError>(TargetError::Validation),
        trimmed(input@).len() > 0 ==> (r matches Ok(t) && t@ == trimmed(input@)),
{
    let t = trim_text(input);
    if t.is_empty() {
        Err(TargetError::Validation)
    } else {
        Ok(t.to_string())
    }
}

/// The canonical target for a trimmed text, given what the reverse lookup did:
/// the first name returned without its trailing separator, the text itself when
/// it is no address or the lookup failed, and an error when no name came back.
pub fn canonical_target(text: &str, outcome: LookupOutcome) -> (r: Result<String, TargetError>)
    ensures
        result_view(r) == canonical_of(text@, outcome@),
{
    match outcome {
        LookupOutcome::NotAddress => Ok(text.to_string()),
        LookupOutcome::Failed => Ok(text.to_string()),
        LookupOutcome::Names(names) => {
            if names.len() == 0 {
                Err(TargetError::LookupEmpty)
            } else {
                Ok(strip_root(names[0].as_str()))
            }
        },
    }
}

/// Resolves raw operator input into the canonical target.
pub fn resolve(input: &str, outcome: LookupOutcome) -> (r: Result<String, TargetError>)
    ensures
        result_view(r) == resolve_of(input@, outcome@),
{
    match validate_target(input) {
        Err(e) => Err(e),
        Ok(text) => canonical_target(text.as_str(), outcome),
    }
}

} // verus!
