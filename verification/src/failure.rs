//! How running a script can fail: a failure, or a failure inside a module or
//! a function call, which wraps the failure that happened inside.

use vstd::prelude::*;
use crate::position::Position;

verus! {

/// A failure of a script run. The outermost failure is the least specific;
/// each wrapper holds the failure that happened inside it, down to the one
/// that started it all.
#[derive(Debug, PartialEq, Eq)]
pub enum Failure {
    /// A failure while a module was loaded.
    InModule { description: String, position: Position, cause: Box<Failure> },
    /// A failure inside a called function.
    InFunctionCall { description: String, position: Position, cause: Box<Failure> },
    /// Any other failure: one that wraps no other.
    Other { description: String, position: Position },
}

impl Failure {
    /// How many wrappers lie round the root cause.
    pub open spec fn depth(self) -> nat
        decreases self,
    {
        match self {
            Failure::InModule { cause, .. } => 1 + cause.depth(),
            Failure::InFunctionCall { cause, .. } => 1 + cause.depth(),
            Failure::Other { .. } => 0,
        }
    }

    /// The failure that started it all: what is left when every wrapper is
    /// taken off.
    pub open spec fn root_cause(self) -> Failure
        decreases self,
    {
        match self {
            Failure::InModule { cause, .. } => cause.root_cause(),
            Failure::InFunctionCall { cause, .. } => cause.root_cause(),
            Failure::Other { .. } => self,
        }
    }

    /// The place that this failure itself names.
    pub open spec fn spec_position(&self) -> Position {
        match self {
            Failure::InModule { position, .. } => *position,
            Failure::InFunctionCall { position, .. } => *position,
            Failure::Other { position, .. } => *position,
        }
    }

    /// What this failure says of itself.
    pub open spec fn spec_description(&self) -> Seq<char> {
        match self {
            Failure::InModule { description, .. } => description@,
            Failure::InFunctionCall { description, .. } => description@,
            Failure::Other { description, .. } => description@,
        }
    }

    /// The place that this failure itself names.
    #[verifier::when_used_as_spec(spec_position)]
    pub fn position(&self) -> (position: Position)
        ensures
            position == self.spec_position(),
    {
        match self {
            Failure::InModule { position, .. } => *position,
            Failure::InFunctionCall { position, .. } => *position,
            Failure::Other { position, .. } => *position,
        }
    }

    /// What this failure says of itself.
    pub fn description(&self) -> (description: &str)
        ensures
            description@ == self.spec_description(),
    {
        match self {
            Failure::InModule { description, .. } => description.as_str(),
            Failure::InFunctionCall { description, .. } => description.as_str(),
            Failure::Other { description, .. } => description.as_str(),
        }
    }

    /// Takes the wrappers off, one after the other, until a failure is
    /// reached that wraps no other.
    pub fn innermost(&self) -> (cause: &Failure)
        ensures
            *cause == self.root_cause(),
    {
        let mut current = self;
        loop
            invariant
                current.root_cause() == self.root_cause(),
            decreases current.depth(),
        {
            match current {
                Failure::InModule { cause, .. } => {
                    current = &**cause;
                },
                Failure::InFunctionCall { cause, .. } => {
                    current = &**cause;
                },
                Failure::Other { .. } => {
                    return current;
                },
            }
        }
    }
}

/// The root cause of a failure wraps no other failure, and a failure that
/// wraps none is its own root cause.
pub proof fn lemma_root_cause_is_no_wrapper(failure: Failure)
    ensures
        failure.root_cause() is Other,
        failure.root_cause().root_cause() == failure.root_cause(),
        failure is Other ==> failure.root_cause() == failure,
    decreases failure,
{
    match failure {
        Failure::InModule { cause, .. } => lemma_root_cause_is_no_wrapper(*cause),
        Failure::InFunctionCall { cause, .. } => lemma_root_cause_is_no_wrapper(*cause),
        Failure::Other { .. } => {},
    }
}

/// A wrapper has the root cause of what it wraps, whatever place and
/// description the wrapper itself has.
pub proof fn lemma_wrapping_keeps_root_cause(
    inner: Failure,
    description: String,
    position: Position,
)
    ensures
        (Failure::InModule { description, position, cause: Box::new(inner) }).root_cause()
            == inner.root_cause(),
        (Failure::InFunctionCall { description, position, cause: Box::new(inner) }).root_cause()
            == inner.root_cause(),
{
}

} // verus!
