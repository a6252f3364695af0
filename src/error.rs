use vstd::prelude::*;

verus! {

/// The constraint of a read or write entry point that a declaration broke,
/// in the order in which the constraints are checked.
#[derive(Clone, Copy, Debug, PartialEq, Eq, Structural)]
pub enum SignatureRule {
    /// The method stands in the impl block of a registered service type.
    InService,
    /// The method is private to its impl block.
    Private,
    /// The method is generic over exactly one context-bounded type parameter.
    ContextGeneric,
    /// The receiver fits the role and the context is the first parameter.
    Parameters,
    /// The method returns a protocol result that carries a `String`.
    ReturnsString,
}

impl SignatureRule {
    pub open spec fn spec_number(self) -> u8 {
        match self {
            SignatureRule::InService => 1,
            SignatureRule::Private => 2,
            SignatureRule::ContextGeneric => 3,
            SignatureRule::Parameters => 4,
            SignatureRule::ReturnsString => 5,
        }
    }

    /// The number under which the rule is reported in a diagnostic.
    pub fn number(&self) -> (r: u8)
        ensures
            r == self.spec_number(),
            1 <= r <= 5,
    {
        match self {
            SignatureRule::InService => 1,
            SignatureRule::Private => 2,
            SignatureRule::ContextGeneric => 3,
            SignatureRule::Parameters => 4,
            SignatureRule::ReturnsString => 5,
        }
    }
}

/// A declaration refused as an entry point: the first rule it breaks and the
/// method's name.
#[derive(Clone, Debug, PartialEq, Eq)]
pub struct SignatureError {
    pub rule: SignatureRule,
    pub method: String,
}

/// Refusals while a service's dispatch table is being built.
#[derive(Clone, Debug, PartialEq, Eq)]
pub enum BindError {
    /// The declaration is not a valid entry point for its role.
    Signature(SignatureError),
    /// A method of that name is already in the service's dispatch table.
    DuplicateMethod(String),
    /// The method already carries a cycle cost.
    DuplicateCycles(String),
    /// The service already has a hook of that kind; the name is the new one.
    DuplicateHook(String),
}

/// Failures of a dispatched call.
#[derive(Clone, Debug, PartialEq, Eq)]
pub enum ProtocolError {
    /// No method of the requested role has that name.
    MethodNotFound(String),
    /// The raw payload did not decode into the method's payload type.
    PayloadDecodeError(String),
    /// The context's cycle budget could not cover the method's cost.
    BudgetExceeded,
    /// An error raised by the method itself, passed through unchanged.
    Service(String),
}

} // verus!
