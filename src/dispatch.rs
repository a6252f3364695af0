use vstd::prelude::*;

use crate::binder::{route, MethodSpec, ServiceModel, ServiceSpec};
use crate::context::RequestContext;
use crate::error::ProtocolError;
use crate::signature::Role;

verus! {

/// The budget covers a method's cycle cost.
pub open spec fn affordable(cost: Option<u64>, budget: nat) -> bool {
    match cost {
        None => true,
        Some(c) => c <= budget,
    }
}

/// The budget left once a method's cost has been charged or refused.
pub open spec fn charged(cost: Option<u64>, budget: nat) -> nat {
    match cost {
        Some(c) => if c <= budget {
            (budget - c) as nat
        } else {
            budget
        },
        None => budget,
    }
}

/// Charges a method's cycle cost to the context before its body runs. On
/// failure nothing is charged and the call must stop.
pub fn charge_cycles<C: RequestContext>(ctx: &mut C, cost: Option<u64>) -> (r: Result<
    (),
    ProtocolError,
>)
    ensures
        final(ctx).service_method() == old(ctx).service_method(),
        final(ctx).payload() == old(ctx).payload(),
        final(ctx).budget() == charged(cost, old(ctx).budget()),
        affordable(cost, old(ctx).budget()) ==> r is Ok,
        !affordable(cost, old(ctx).budget()) ==> r == Err::<(), ProtocolError>(
            ProtocolError::BudgetExceeded,
        ),
{
    match cost {
        Some(c) => ctx.sub_cycles(c),
        None => Ok(()),
    }
}

/// `d` is a possible outcome of decoding `raw` for method `m`: no decoding
/// at all for a method without payload, else what `decode` gave for the
/// method's payload type.
pub open spec fn decoded<P, D: Fn(&String, &String) -> Result<P, String>>(
    decode: D,
    m: MethodSpec,
    raw: String,
    d: Result<Option<P>, String>,
) -> bool {
    match m.payload_type {
        None => d == Ok::<Option<P>, String>(None),
        Some(t) => match d {
            Ok(Some(p)) => decode.ensures((&t, &raw), Ok::<P, String>(p)),
            Ok(None) => false,
            Err(e) => decode.ensures((&t, &raw), Err::<P, String>(e)),
        },
    }
}

/// The possible results of a read call naming `name` with payload `raw` and
/// budget `budget`, with the budget left after it: unknown names fail with
/// nothing charged; a failed decode fails with nothing charged; an
/// unaffordable cost fails before the handler runs; otherwise the handler's
/// own result is returned.
pub open spec fn read_outcome<
    S,
    P,
    D: Fn(&String, &String) -> Result<P, String>,
    H: Fn(&S, &MethodSpec, Option<P>) -> Result<String, ProtocolError>,
>(
    table: ServiceModel,
    state: S,
    name: String,
    raw: String,
    budget: nat,
    decode: D,
    handler: H,
    r: Result<String, ProtocolError>,
    budget_after: nat,
) -> bool {
    match route(table.methods, Role::Read, name@) {
        None => r == Err::<String, ProtocolError>(ProtocolError::MethodNotFound(name))
            && budget_after == budget,
        Some(m) => exists|d: Result<Option<P>, String>|
            #[trigger] decoded(decode, m, raw, d) && match d {
                Err(e) => r == Err::<String, ProtocolError>(ProtocolError::PayloadDecodeError(e))
                    && budget_after == budget,
                Ok(p) => budget_after == charged(m.cycle_cost, budget) && if affordable(
                    m.cycle_cost,
                    budget,
                ) {
                    handler.ensures((&state, &m, p), r)
                } else {
                    r == Err::<String, ProtocolError>(ProtocolError::BudgetExceeded)
                },
            },
    }
}

/// The possible results of a write call, as for reads, with the state after
/// it: the handler's new state when it ran, the old one on every failure
/// before it.
pub open spec fn write_outcome<
    S,
    P,
    D: Fn(&String, &String) -> Result<P, String>,
    H: Fn(&S, &MethodSpec, Option<P>) -> (S, Result<String, ProtocolError>),
>(
    table: ServiceModel,
    state: S,
    name: String,
    raw: String,
    budget: nat,
    decode: D,
    handler: H,
    r: Result<String, ProtocolError>,
    state_after: S,
    budget_after: nat,
) -> bool {
    match route(table.methods, Role::Write, name@) {
        None => r == Err::<String, ProtocolError>(ProtocolError::MethodNotFound(name))
            && budget_after == budget && state_after == state,
        Some(m) => exists|d: Result<Option<P>, String>|
            #[trigger] decoded(decode, m, raw, d) && match d {
                Err(e) => r == Err::<String, ProtocolError>(ProtocolError::PayloadDecodeError(e))
                    && budget_after == budget && state_after == state,
                Ok(p) => budget_after == charged(m.cycle_cost, budget) && if affordable(
                    m.cycle_cost,
                    budget,
                ) {
                    handler.ensures((&state, &m, p), (state_after, r))
                } else {
                    r == Err::<String, ProtocolError>(ProtocolError::BudgetExceeded) && state_after
                        == state
                },
            },
    }
}

/// The result of a hook call: a no-op success when the service names no
/// such hook, else what the hook gave.
pub open spec fn hook_outcome<S, K: Fn(&S, &String) -> (S, Result<(), ProtocolError>)>(
    hook_name: Option<String>,
    state: S,
    hook: K,
    r: Result<(), ProtocolError>,
    state_after: S,
) -> bool {
    match hook_name {
        None => r is Ok && state_after == state,
        Some(n) => hook.ensures((&state, &n), (state_after, r)),
    }
}

/// A service instance: its dispatch table and its state.
pub struct Service<S> {
    pub table: ServiceSpec,
    pub state: S,
}

impl<S> Service<S> {
    /// Dispatches a read call to the method that the context names, through
    /// the service's read methods only.
    pub fn read<C, P, D, H>(&self, ctx: &mut C, decode: D, handler: H) -> (r: Result<
        String,
        ProtocolError,
    >) where
        C: RequestContext,
        D: Fn(&String, &String) -> Result<P, String>,
        H: Fn(&S, &MethodSpec, Option<P>) -> Result<String, ProtocolError>,

        requires
            forall|t: &String, raw: &String| decode.requires((t, raw)),
            forall|s: &S, m: &MethodSpec, p: Option<P>| handler.requires((s, m, p)),
        ensures
            final(ctx).service_method() == old(ctx).service_method(),
            final(ctx).payload() == old(ctx).payload(),
            read_outcome(
                self.table@,
                self.state,
                old(ctx).service_method(),
                old(ctx).payload(),
                old(ctx).budget(),
                decode,
                handler,
                r,
                final(ctx).budget(),
            ),
    {
        let name = ctx.get_service_method();
        let idx = match self.table.lookup(Role::Read, &name) {
            Some(i) => i,
            None => {
                return Err(ProtocolError::MethodNotFound(name));
            },
        };
        let m = &self.table.methods()[idx];
        let ghost raw = ctx.payload();
        let payload = match &m.payload_type {
            None => {
                assert(decoded(decode, *m, raw, Ok(None)));
                None
            },
            Some(t) => {
                let raw_payload = ctx.get_payload();
                match decode(t, &raw_payload) {
                    Ok(p) => {
                        assert(decoded(decode, *m, raw, Ok(Some(p))));
                        Some(p)
                    },
                    Err(e) => {
                        assert(decoded(decode, *m, raw, Err(e)));
                        return Err(ProtocolError::PayloadDecodeError(e));
                    },
                }
            },
        };
        let ghost d = Ok::<Option<P>, String>(payload);
        match charge_cycles(ctx, m.cycle_cost) {
            Ok(()) => {},
            Err(e) => {
                assert(decoded(decode, *m, raw, d));
                return Err(e);
            },
        }
        let r = handler(&self.state, m, payload);
        assert(decoded(decode, *m, raw, d));
        r
    }

    /// Dispatches a write call to the method that the context names, through
    /// the service's write methods only. The state changes only when the
    /// handler runs.
    pub fn write<C, P, D, H>(&mut self, ctx: &mut C, decode: D, handler: H) -> (r: Result<
        String,
        ProtocolError,
    >) where
        C: RequestContext,
        D: Fn(&String, &String) -> Result<P, String>,
        H: Fn(&S, &MethodSpec, Option<P>) -> (S, Result<String, ProtocolError>),

        requires
            forall|t: &String, raw: &String| decode.requires((t, raw)),
            forall|s: &S, m: &MethodSpec, p: Option<P>| handler.requires((s, m, p)),
        ensures
            final(self).table@ == old(self).table@,
            final(ctx).service_method() == old(ctx).service_method(),
            final(ctx).payload() == old(ctx).payload(),
            write_outcome(
                old(self).table@,
                old(self).state,
                old(ctx).service_method(),
                old(ctx).payload(),
                old(ctx).budget(),
                decode,
                handler,
                r,
                final(self).state,
                final(ctx).budget(),
            ),
    {
        let name = ctx.get_service_method();
        let idx = match self.table.lookup(Role::Write, &name) {
            Some(i) => i,
            None => {
                return Err(ProtocolError::MethodNotFound(name));
            },
        };
        let m = &self.table.methods()[idx];
        let ghost raw = ctx.payload();
        let payload = match &m.payload_type {
            None => {
                assert(decoded(decode, *m, raw, Ok(None)));
                None
            },
            Some(t) => {
                let raw_payload = ctx.get_payload();
                match decode(t, &raw_payload) {
                    Ok(p) => {
                        assert(decoded(decode, *m, raw, Ok(Some(p))));
                        Some(p)
                    },
                    Err(e) => {
                        assert(decoded(decode, *m, raw, Err(e)));
                        return Err(ProtocolError::PayloadDecodeError(e));
                    },
                }
            },
        };
        let ghost d = Ok::<Option<P>, String>(payload);
        match charge_cycles(ctx, m.cycle_cost) {
            Ok(()) => {},
            Err(e) => {
                assert(decoded(decode, *m, raw, d));
                return Err(e);
            },
        }
        let (next, r) = handler(&self.state, m, payload);
        assert(decoded(decode, *m, raw, d));
        self.state = next;
        r
    }

    /// Runs the service's before-hook, or succeeds with nothing done when it
    /// has none.
    pub fn hook_before<K>(&mut self, hook: K) -> (r: Result<(), ProtocolError>) where
        K: Fn(&S, &String) -> (S, Result<(), ProtocolError>),

        requires
            forall|s: &S, n: &String| hook.requires((s, n)),
        ensures
            final(self).table@ == old(self).table@,
            hook_outcome(old(self).table@.hook_before, old(self).state, hook, r, final(self).state),
    {
        match self.table.hook_before_name() {
            Some(n) => {
                let (next, r) = hook(&self.state, n);
                self.state = next;
                r
            },
            None => Ok(()),
        }
    }

    /// Runs the service's after-hook, or succeeds with nothing done when it
    /// has none.
    pub fn hook_after<K>(&mut self, hook: K) -> (r: Result<(), ProtocolError>) where
        K: Fn(&S, &String) -> (S, Result<(), ProtocolError>),

        requires
            forall|s: &S, n: &String| hook.requires((s, n)),
        ensures
            final(self).table@ == old(self).table@,
            hook_outcome(old(self).table@.hook_after, old(self).state, hook, r, final(self).state),
    {
        match self.table.hook_after_name() {
            Some(n) => {
                let (next, r) = hook(&self.state, n);
                self.state = next;
                r
            },
            None => Ok(()),
        }
    }
}

} // verus!
