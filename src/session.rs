//! The single shared slot holding the current canonical target.
use vstd::prelude::*;
use crate::target::{LookupModel, LookupOutcome, TargetError, resolve, resolve_of};

verus! {

/// Why an action on the target could not start.
#[derive(Debug, Clone, Copy, PartialEq, Eq, Structural)]
pub enum ActionError {
    /// No target has been set yet.
    NoTarget,
    /// The operating system refused to start the helper process.
    Spawn,
}

impl ActionError {
    /// A short text for the operator.
    pub fn message(&self) -> (r: String)
        ensures
            r@.len() > 0,
    {
        match self {
            ActionError::NoTarget => {
                proof { reveal_strlit("No target machine set"); }
                "No target machine set".to_string()
            },
            ActionError::Spawn => {
                proof { reveal_strlit("Failed to start helper process"); }
                "Failed to start helper process".to_string()
            },
        }
    }
}

/// The current target; empty means none is set.
pub struct Session {
    target: String,
}

impl View for Session {
    type V = Seq<char>;

    closed spec fn view(&self) -> Seq<char> {
        self.target@
    }
}

/// The stored target after a `set_target` call on `input` from state `s`:
/// the canonical value on success, `s` unchanged on failure.
pub open spec fn after_set_target(s: Seq<char>, input: Seq<char>, outcome: LookupModel) -> Seq<char> {
    match resolve_of(input, outcome) {
        Ok(t) => t,
        Err(_) => s,
    }
}

/// Two successful `set_target` calls, in either order, leave the value of the
/// one that stored last: the slot keeps no trace of the earlier value.
pub proof fn lemma_last_write_wins(
    s: Seq<char>,
    a: Seq<char>,
    oa: LookupModel,
    b: Seq<char>,
    ob: LookupModel,
)
    requires
        resolve_of(a, oa) is Ok,
        resolve_of(b, ob) is Ok,
    ensures
        after_set_target(after_set_target(s, a, oa), b, ob) == resolve_of(b, ob)->Ok_0,
        after_set_target(after_set_target(s, b, ob), a, oa) == resolve_of(a, oa)->Ok_0,
{
}

impl Session {
    /// An empty session: no target set.
    pub fn new() -> (r: Session)
        ensures
            r@.len() == 0,
    {
        Session { target: String::new() }
    }

    /// The canonical target; empty means unset.
    pub fn get_canonical_target(&self) -> (r: String)
        ensures
            r@ == self@,
    {
        self.target.clone()
    }

    /// Overwrites the stored target.
    pub fn store(&mut self, canonical: String)
        ensures
            final(self)@ == canonical@,
    {
        self.target = canonical;
    }

    /// Resolves `input` with the given lookup outcome and stores the result;
    /// on failure the session keeps its value.
    pub fn set_target(&mut self, input: &str, outcome: LookupOutcome) -> (r: Result<(), TargetError>)
        ensures
            final(self)@ == after_set_target(old(self)@, input@, outcome@),
            match resolve_of(input@, outcome@) {
                Ok(_) => r is Ok,
                Err(e) => r == Err::<(), TargetError>(e),
            },
    {
        match resolve(input, outcome) {
            Ok(t) => {
                self.store(t);
                Ok(())
            },
            Err(e) => Err(e),
        }
    }

    /// The target an action should work on, or `NoTarget` when none is set.
    pub fn require_target(&self) -> (r: Result<String, ActionError>)
        ensures
            self@.len() == 0 ==> r == Err::<String, ActionError>(ActionError::NoTarget),
            self@.len() > 0 ==> (r matches Ok(t) && t@ == self@),
    {
        if self.target.as_str().is_empty() {
            Err(ActionError::NoTarget)
        } else {
            Ok(self.target.clone())
        }
    }
}

} // verus!
