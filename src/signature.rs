use vstd::prelude::*;
use vstd::string::*;

use crate::error::{SignatureError, SignatureRule};

verus! {

/// Whether a method is exposed for reading or for writing.
#[derive(Clone, Copy, Debug, PartialEq, Eq, Structural)]
pub enum Role {
    Read,
    Write,
}

/// How a method binds the instance it is called on.
#[derive(Clone, Copy, Debug, PartialEq, Eq, Structural)]
pub enum Receiver {
    /// No receiver: an associated function.
    Absent,
    /// `&self`
    Shared,
    /// `&mut self`
    Exclusive,
    /// `self`
    Owned,
}

#[derive(Clone, Copy, Debug, PartialEq, Eq, Structural)]
pub enum Visibility {
    /// Visible only inside its impl block.
    Private,
    /// Visible inside its crate.
    Crate,
    /// Visible everywhere.
    Public,
}

/// A type parameter of a method.
#[derive(Clone, Debug, PartialEq, Eq)]
pub struct TypeParam {
    pub name: String,
    /// Whether the parameter is bounded by the request-context capability.
    pub context_bound: bool,
}

/// The declared result of a method.
#[derive(Clone, Debug, PartialEq, Eq)]
pub enum ReturnType {
    /// A protocol result whose success value has the named type.
    ProtocolResult(String),
    /// Any other type, by name.
    Other(String),
}

/// The shape of a method declaration, as far as entry points care.
#[derive(Clone, Debug, PartialEq, Eq)]
pub struct MethodDecl {
    pub name: String,
    /// The type whose impl block declares the method; `None` for a free function.
    pub owner: Option<String>,
    pub visibility: Visibility,
    pub generics: Vec<TypeParam>,
    pub receiver: Receiver,
    /// The types of the parameters after the receiver.
    pub params: Vec<String>,
    pub ret: ReturnType,
    /// The fixed cycle cost charged before the body runs, if any.
    pub cycles: Option<u64>,
}

/// The name of the success type that an entry point must return.
pub open spec fn string_type_name() -> Seq<char> {
    seq!['S', 't', 'r', 'i', 'n', 'g']
}

pub open spec fn expected_receiver(role: Role) -> Receiver {
    match role {
        Role::Read => Receiver::Shared,
        Role::Write => Receiver::Exclusive,
    }
}

pub open spec fn in_service(decl: MethodDecl, service_type: Seq<char>) -> bool {
    decl.owner matches Some(t) && t@ == service_type
}

pub open spec fn is_private(decl: MethodDecl) -> bool {
    decl.visibility == Visibility::Private
}

pub open spec fn context_generic(decl: MethodDecl) -> bool {
    decl.generics@.len() == 1 && decl.generics@[0].context_bound
}

/// The receiver fits the role, the first parameter has the context type, and
/// at most a payload follows it.
pub open spec fn parameters_fit(decl: MethodDecl, role: Role) -> bool {
    &&& decl.receiver == expected_receiver(role)
    &&& 1 <= decl.params@.len() <= 2
    &&& decl.generics@.len() >= 1
    &&& decl.params@[0]@ == decl.generics@[0].name@
}

pub open spec fn returns_string(decl: MethodDecl) -> bool {
    decl.ret matches ReturnType::ProtocolResult(ok) && ok@ == string_type_name()
}

/// Whether `decl` meets `rule` as an entry point of `role`.
pub open spec fn rule_holds(decl: MethodDecl, role: Role, service_type: Seq<char>, rule: SignatureRule) -> bool {
    match rule {
        SignatureRule::InService => in_service(decl, service_type),
        SignatureRule::Private => is_private(decl),
        SignatureRule::ContextGeneric => context_generic(decl),
        SignatureRule::Parameters => parameters_fit(decl, role),
        SignatureRule::ReturnsString => returns_string(decl),
    }
}

/// The first rule, in checking order, that `decl` breaks as an entry point of
/// `role` on the service type named `service_type`.
pub open spec fn first_violation(decl: MethodDecl, role: Role, service_type: Seq<char>) -> Option<
    SignatureRule,
> {
    if !in_service(decl, service_type) {
        Some(SignatureRule::InService)
    } else if !is_private(decl) {
        Some(SignatureRule::Private)
    } else if !context_generic(decl) {
        Some(SignatureRule::ContextGeneric)
    } else if !parameters_fit(decl, role) {
        Some(SignatureRule::Parameters)
    } else if !returns_string(decl) {
        Some(SignatureRule::ReturnsString)
    } else {
        None
    }
}

/// All five rules hold.
pub open spec fn valid_entry_point(decl: MethodDecl, role: Role, service_type: Seq<char>) -> bool {
    &&& in_service(decl, service_type)
    &&& is_private(decl)
    &&& context_generic(decl)
    &&& parameters_fit(decl, role)
    &&& returns_string(decl)
}

fn check_in_service(decl: &MethodDecl, service_type: &String) -> (r: bool)
    ensures
        r == in_service(*decl, service_type@),
{
    match &decl.owner {
        Some(t) => *t == *service_type,
        None => false,
    }
}

fn check_parameters(decl: &MethodDecl, role: Role) -> (r: bool)
    ensures
        r == parameters_fit(*decl, role),
{
    let receiver_fits = match role {
        Role::Read => decl.receiver == Receiver::Shared,
        Role::Write => decl.receiver == Receiver::Exclusive,
    };
    receiver_fits && 1 <= decl.params.len() && decl.params.len() <= 2 && decl.generics.len() >= 1
        && decl.params[0] == decl.generics[0].name
}

fn check_returns_string(decl: &MethodDecl) -> (r: bool)
    ensures
        r == returns_string(*decl),
{
    match &decl.ret {
        ReturnType::ProtocolResult(ok) => {
            let expected = String::from_str("String");
            proof {
                reveal_strlit("String");
                assert("String"@ =~= string_type_name());
            }
            *ok == expected
        },
        ReturnType::Other(_) => false,
    }
}

/// Checks `decl` as an entry point of `role` on the service type named
/// `service_type`. The rules are tried in order and the first broken one is
/// reported with the method's name.
pub fn check_signature(decl: &MethodDecl, role: Role, service_type: &String) -> (r: Result<
    (),
    SignatureError,
>)
    ensures
        r is Ok <==> valid_entry_point(*decl, role, service_type@),
        r is Ok <==> first_violation(*decl, role, service_type@) is None,
        r matches Err(e) ==> Some(e.rule) == first_violation(*decl, role, service_type@)
            && e.method == decl.name,
        r is Ok && role == Role::Read ==> decl.receiver == Receiver::Shared,
        r is Ok && role == Role::Write ==> decl.receiver == Receiver::Exclusive,
{
    let rule = if !check_in_service(decl, service_type) {
        SignatureRule::InService
    } else if decl.visibility != Visibility::Private {
        SignatureRule::Private
    } else if !(decl.generics.len() == 1 && decl.generics[0].context_bound) {
        SignatureRule::ContextGeneric
    } else if !check_parameters(decl, role) {
        SignatureRule::Parameters
    } else if !check_returns_string(decl) {
        SignatureRule::ReturnsString
    } else {
        return Ok(());
    };
    Err(SignatureError { rule, method: decl.name.clone() })
}

} // verus!
