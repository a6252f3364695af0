use vstd::prelude::*;

use crate::binder::{
    has_name, method_spec_of, names_unique, registration, route, routes_to, first_route, MethodSpec, ServiceModel,
};
use crate::dispatch::{affordable, charged, decoded, read_outcome, write_outcome};
use crate::error::{BindError, ProtocolError, SignatureRule};
use crate::signature::{
    context_generic, first_violation, in_service, is_private, parameters_fit, returns_string,
    rule_holds, valid_entry_point, MethodDecl, Receiver, Role,
};

verus! {

/// A declaration passes as a read entry point exactly when it is a private
/// method of the service, generic over one context type, takes `&self` and
/// then that context, and returns a string result. A refused one is refused
/// under a rule that it breaks, after all the rules before it held.
pub proof fn lemma_read_entry_point_shape(decl: MethodDecl, service_type: Seq<char>)
    ensures
        first_violation(decl, Role::Read, service_type) is None <==> {
            &&& in_service(decl, service_type)
            &&& is_private(decl)
            &&& context_generic(decl)
            &&& decl.receiver == Receiver::Shared
            &&& parameters_fit(decl, Role::Read)
            &&& returns_string(decl)
        },
        first_violation(decl, Role::Read, service_type) matches Some(rule) ==> !rule_holds(
            decl,
            Role::Read,
            service_type,
            rule,
        ),
{
}

/// A write entry point needs `&mut self`: a declaration with any other
/// receiver is refused, and one with `&self` that meets the rules checked
/// before is refused under the parameter rule.
pub proof fn lemma_write_needs_exclusive_receiver(decl: MethodDecl, service_type: Seq<char>)
    ensures
        decl.receiver != Receiver::Exclusive ==> first_violation(decl, Role::Write, service_type)
            is Some,
        decl.receiver == Receiver::Shared && in_service(decl, service_type) && is_private(decl)
            && context_generic(decl) ==> first_violation(decl, Role::Write, service_type) == Some(
            SignatureRule::Parameters,
        ),
        first_violation(decl, Role::Write, service_type) is None ==> valid_entry_point(
            decl,
            Role::Write,
            service_type,
        ),
{
}

/// Registering a second method under a name that the table already holds,
/// in either role, fails and leaves the table as it was; so the names of a
/// table built by registration stay unique.
pub proof fn lemma_duplicate_name_refused(
    before: ServiceModel,
    decl: MethodDecl,
    role: Role,
    after: ServiceModel,
    r: Result<(), BindError>,
)
    requires
        registration(before, decl, role, after, r),
        has_name(before.methods, decl.name@),
    ensures
        r is Err,
        after == before,
{
}

/// Once registered under a role, a method is what a call of that role
/// naming it reaches.
pub proof fn lemma_registered_method_is_routed(
    before: ServiceModel,
    decl: MethodDecl,
    role: Role,
    after: ServiceModel,
    r: Result<(), BindError>,
)
    requires
        registration(before, decl, role, after, r),
        r is Ok,
    ensures
        route(after.methods, role, decl.name@) == Some(method_spec_of(decl, role)),
{
    let ms = after.methods;
    let n = before.methods.len() as int;
    assert(ms[n] == method_spec_of(decl, role));
    assert forall|k: int| 0 <= k < n implies !#[trigger] routes_to(ms, role, decl.name@, k) by {
        assert(ms[k] == before.methods[k]);
        assert(before.methods[k].name@ != decl.name@);
    }
    assert(first_route(ms, role, decl.name@, n));
    let j = choose|j: int| first_route(ms, role, decl.name@, j);
    if j < n {
        assert(!routes_to(ms, role, decl.name@, j));
    } else if j > n {
        assert(!routes_to(ms, role, decl.name@, n));
    }
}

/// With unique names a name reaches at most one of the read and write
/// tables.
pub proof fn lemma_name_in_one_role(methods: Seq<MethodSpec>, name: Seq<char>)
    requires
        names_unique(methods),
    ensures
        !(route(methods, Role::Read, name) is Some && route(methods, Role::Write, name) is Some),
{
    if route(methods, Role::Read, name) is Some && route(methods, Role::Write, name) is Some {
        let i = choose|i: int| first_route(methods, Role::Read, name, i);
        let j = choose|j: int| first_route(methods, Role::Write, name, j);
        assert(routes_to(methods, Role::Read, name, i));
        assert(routes_to(methods, Role::Write, name, j));
        assert(methods[i].name@ == methods[j].name@);
    }
}

/// A write call whose payload decodes into the method's payload type, with
/// the cost covered, hands the decoded payload to the method and returns the
/// method's own result and state unchanged, charging the cost once.
pub proof fn lemma_write_round_trip<
    S,
    P,
    D: Fn(&String, &String) -> Result<P, String>,
    H: Fn(&S, &MethodSpec, Option<P>) -> (S, Result<String, ProtocolError>),
>(
    table: ServiceModel,
    state: S,
    name: String,
    raw: String,
    budget: nat,
    decode: D,
    handler: H,
    r: Result<String, ProtocolError>,
    state_after: S,
    budget_after: nat,
    m: MethodSpec,
    t: String,
    p: P,
)
    requires
        write_outcome(
            table,
            state,
            name,
            raw,
            budget,
            decode,
            handler,
            r,
            state_after,
            budget_after,
        ),
        route(table.methods, Role::Write, name@) == Some(m),
        m.payload_type == Some(t),
        decode.ensures((&t, &raw), Ok::<P, String>(p)),
        forall|ty: &String, x: &String, y1: Result<P, String>, y2: Result<P, String>|
            decode.ensures((ty, x), y1) && decode.ensures((ty, x), y2) ==> y1 == y2,
        affordable(m.cycle_cost, budget),
    ensures
        handler.ensures((&state, &m, Some(p)), (state_after, r)),
        budget_after == charged(m.cycle_cost, budget),
{
    let d = choose|d: Result<Option<P>, String>|
        #[trigger] decoded(decode, m, raw, d) && match d {
            Err(e) => r == Err::<String, ProtocolError>(ProtocolError::PayloadDecodeError(e))
                && budget_after == budget && state_after == state,
            Ok(q) => budget_after == charged(m.cycle_cost, budget) && if affordable(
                m.cycle_cost,
                budget,
            ) {
                handler.ensures((&state, &m, q), (state_after, r))
            } else {
                r == Err::<String, ProtocolError>(ProtocolError::BudgetExceeded) && state_after
                    == state
            },
        };
    match d {
        Ok(Some(q)) => {
            assert(decode.ensures((&t, &raw), Ok::<P, String>(q)));
        },
        Ok(None) => {},
        Err(e) => {
            assert(decode.ensures((&t, &raw), Err::<P, String>(e)));
        },
    }
}

/// A read call naming no read method fails with `MethodNotFound` for that
/// name and charges nothing; no handler runs.
pub proof fn lemma_read_not_found<
    S,
    P,
    D: Fn(&String, &String) -> Result<P, String>,
    H: Fn(&S, &MethodSpec, Option<P>) -> Result<String, ProtocolError>,
>(
    table: ServiceModel,
    state: S,
    name: String,
    raw: String,
    budget: nat,
    decode: D,
    handler: H,
    r: Result<String, ProtocolError>,
    budget_after: nat,
)
    requires
        read_outcome(table, state, name, raw, budget, decode, handler, r, budget_after),
        forall|i: int| !routes_to(table.methods, Role::Read, name@, i),
    ensures
        r == Err::<String, ProtocolError>(ProtocolError::MethodNotFound(name)),
        budget_after == budget,
{
    if exists|i: int| first_route(table.methods, Role::Read, name@, i) {
        let i = choose|i: int| first_route(table.methods, Role::Read, name@, i);
        assert(routes_to(table.methods, Role::Read, name@, i));
    }
}

/// A write call to a method whose cycle cost exceeds the budget leaves the
/// state and the budget as they were: the method's body never runs. Once
/// the payload has decoded, the failure is `BudgetExceeded`.
pub proof fn lemma_unaffordable_write_leaves_state<
    S,
    P,
    D: Fn(&String, &String) -> Result<P, String>,
    H: Fn(&S, &MethodSpec, Option<P>) -> (S, Result<String, ProtocolError>),
>(
    table: ServiceModel,
    state: S,
    name: String,
    raw: String,
    budget: nat,
    decode: D,
    handler: H,
    r: Result<String, ProtocolError>,
    state_after: S,
    budget_after: nat,
    m: MethodSpec,
)
    requires
        write_outcome(
            table,
            state,
            name,
            raw,
            budget,
            decode,
            handler,
            r,
            state_after,
            budget_after,
        ),
        route(table.methods, Role::Write, name@) == Some(m),
        !affordable(m.cycle_cost, budget),
    ensures
        state_after == state,
        budget_after == budget,
        r == Err::<String, ProtocolError>(ProtocolError::BudgetExceeded) || r matches Err(
            ProtocolError::PayloadDecodeError(_),
        ),
{
}

/// Two read calls with the same table, state, requested name, payload and
/// budget give the same result and leave the same budget, when decoding and
/// the handler give one result per input.
pub proof fn lemma_read_repeatable<
    S,
    P,
    D: Fn(&String, &String) -> Result<P, String>,
    H: Fn(&S, &MethodSpec, Option<P>) -> Result<String, ProtocolError>,
>(
    table: ServiceModel,
    state: S,
    name: String,
    raw: String,
    budget: nat,
    decode: D,
    handler: H,
    r1: Result<String, ProtocolError>,
    budget_after1: nat,
    r2: Result<String, ProtocolError>,
    budget_after2: nat,
)
    requires
        read_outcome(table, state, name, raw, budget, decode, handler, r1, budget_after1),
        read_outcome(table, state, name, raw, budget, decode, handler, r2, budget_after2),
        forall|ty: &String, x: &String, y1: Result<P, String>, y2: Result<P, String>|
            decode.ensures((ty, x), y1) && decode.ensures((ty, x), y2) ==> y1 == y2,
        forall|s: &S, m: &MethodSpec, p: Option<P>, y1, y2|
            handler.ensures((s, m, p), y1) && handler.ensures((s, m, p), y2) ==> y1 == y2,
    ensures
        r1 == r2,
        budget_after1 == budget_after2,
{
    if let Some(m) = route(table.methods, Role::Read, name@) {
        let d1 = choose|d: Result<Option<P>, String>|
            #[trigger] decoded(decode, m, raw, d) && match d {
                Err(e) => r1 == Err::<String, ProtocolError>(
                    ProtocolError::PayloadDecodeError(e),
                ) && budget_after1 == budget,
                Ok(p) => budget_after1 == charged(m.cycle_cost, budget) && if affordable(
                    m.cycle_cost,
                    budget,
                ) {
                    handler.ensures((&state, &m, p), r1)
                } else {
                    r1 == Err::<String, ProtocolError>(ProtocolError::BudgetExceeded)
                },
            };
        let d2 = choose|d: Result<Option<P>, String>|
            #[trigger] decoded(decode, m, raw, d) && match d {
                Err(e) => r2 == Err::<String, ProtocolError>(
                    ProtocolError::PayloadDecodeError(e),
                ) && budget_after2 == budget,
                Ok(p) => budget_after2 == charged(m.cycle_cost, budget) && if affordable(
                    m.cycle_cost,
                    budget,
                ) {
                    handler.ensures((&state, &m, p), r2)
                } else {
                    r2 == Err::<String, ProtocolError>(ProtocolError::BudgetExceeded)
                },
            };
        if let Some(t) = m.payload_type {
            let y1: Result<P, String> = match d1 {
                Ok(Some(p)) => Ok(p),
                Ok(None) => Err(t),
                Err(e) => Err(e),
            };
            let y2: Result<P, String> = match d2 {
                Ok(Some(p)) => Ok(p),
                Ok(None) => Err(t),
                Err(e) => Err(e),
            };
            assert(decode.ensures((&t, &raw), y1));
            assert(decode.ensures((&t, &raw), y2));
            assert(y1 == y2);
            assert(d1 == d2);
        }
    }
}

} // verus!
