use vstd::prelude::*;

use crate::error::ProtocolError;

verus! {

/// What a dispatched call needs from its caller: the requested method, the
/// raw payload, and a cycle budget to charge.
pub trait RequestContext {
    spec fn service_method(&self) -> String;

    spec fn payload(&self) -> String;

    /// The cycles still available to the call.
    spec fn budget(&self) -> nat;

    fn get_service_method(&self) -> (r: String)
        ensures
            r == self.service_method(),
    ;

    fn get_payload(&self) -> (r: String)
        ensures
            r == self.payload(),
    ;

    /// Takes `amount` cycles from the budget, or fails and takes nothing.
    fn sub_cycles(&mut self, amount: u64) -> (r: Result<(), ProtocolError>)
        ensures
            final(self).service_method() == old(self).service_method(),
            final(self).payload() == old(self).payload(),
            amount <= old(self).budget() ==> r is Ok && final(self).budget() == old(self).budget()
                - amount,
            amount > old(self).budget() ==> r == Err::<(), ProtocolError>(
                ProtocolError::BudgetExceeded,
            ) && final(self).budget() == old(self).budget(),
    ;
}

/// A context that holds the call's data by value.
#[derive(Clone, Debug)]
pub struct CallContext {
    pub method: String,
    pub payload: String,
    pub cycles: u64,
}

impl CallContext {
    pub fn new(method: String, payload: String, cycles: u64) -> (r: CallContext)
        ensures
            r.method == method,
            r.payload == payload,
            r.cycles == cycles,
    {
        CallContext { method, payload, cycles }
    }

    pub fn remaining_cycles(&self) -> (r: u64)
        ensures
            r == self.cycles,
    {
        self.cycles
    }
}

impl RequestContext for CallContext {
    open spec fn service_method(&self) -> String {
        self.method
    }

    open spec fn payload(&self) -> String {
        self.payload
    }

    open spec fn budget(&self) -> nat {
        self.cycles as nat
    }

    fn get_service_method(&self) -> (r: String) {
        self.method.clone()
    }

    fn get_payload(&self) -> (r: String) {
        self.payload.clone()
    }

    fn sub_cycles(&mut self, amount: u64) -> (r: Result<(), ProtocolError>) {
        if amount <= self.cycles {
            self.cycles = self.cycles - amount;
            Ok(())
        } else {
            Err(ProtocolError::BudgetExceeded)
        }
    }
}

} // verus!
