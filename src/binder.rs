use vstd::prelude::*;

use crate::error::{BindError, SignatureError};
use crate::signature::{check_signature, first_violation, MethodDecl, Role};

verus! {

/// An accepted entry point, as its dispatch table records it.
#[derive(Clone, Debug, PartialEq, Eq)]
pub struct MethodSpec {
    pub name: String,
    pub role: Role,
    pub cycle_cost: Option<u64>,
    /// The type the raw payload decodes into; `None` when the method takes no payload.
    pub payload_type: Option<String>,
}

/// The abstract content of a service's dispatch table.
pub struct ServiceModel {
    pub owning_type: String,
    pub methods: Seq<MethodSpec>,
    pub hook_before: Option<String>,
    pub hook_after: Option<String>,
}

/// No two methods of a table share a name, so a name reaches at most one
/// handler whatever the role.
pub open spec fn names_unique(methods: Seq<MethodSpec>) -> bool {
    forall|i: int, j: int|
        #![trigger methods[i], methods[j]]
        0 <= i < methods.len() && 0 <= j < methods.len() && methods[i].name@ == methods[j].name@
            ==> i == j
}

pub open spec fn has_name(methods: Seq<MethodSpec>, name: Seq<char>) -> bool {
    exists|i: int| 0 <= i < methods.len() && #[trigger] methods[i].name@ == name
}

/// Entry `i` is a method of `role` named `name`.
pub open spec fn routes_to(methods: Seq<MethodSpec>, role: Role, name: Seq<char>, i: int) -> bool {
    0 <= i < methods.len() && methods[i].role == role && methods[i].name@ == name
}

/// Entry `i` is the first method of `role` named `name`.
pub open spec fn first_route(methods: Seq<MethodSpec>, role: Role, name: Seq<char>, i: int) -> bool {
    routes_to(methods, role, name, i) && forall|k: int|
        0 <= k < i ==> !#[trigger] routes_to(methods, role, name, k)
}

/// The method that a call of `role` naming `name` reaches, if any. Names are
/// compared exactly, case included.
pub open spec fn route(methods: Seq<MethodSpec>, role: Role, name: Seq<char>) -> Option<MethodSpec> {
    if exists|i: int| first_route(methods, role, name, i) {
        Some(methods[choose|i: int| first_route(methods, role, name, i)])
    } else {
        None
    }
}

/// The table entry that an accepted declaration becomes.
pub open spec fn method_spec_of(decl: MethodDecl, role: Role) -> MethodSpec {
    MethodSpec {
        name: decl.name,
        role,
        cycle_cost: decl.cycles,
        payload_type: if decl.params@.len() == 2 {
            Some(decl.params@[1])
        } else {
            None
        },
    }
}

/// What registering `decl` under `role` does to a table: refused with the
/// first broken signature rule, refused as a duplicate name, or appended.
pub open spec fn registration(
    before: ServiceModel,
    decl: MethodDecl,
    role: Role,
    after: ServiceModel,
    r: Result<(), BindError>,
) -> bool {
    match first_violation(decl, role, before.owning_type@) {
        Some(rule) => r == Err::<(), BindError>(
            BindError::Signature(SignatureError { rule, method: decl.name }),
        ) && after == before,
        None => if has_name(before.methods, decl.name@) {
            r == Err::<(), BindError>(BindError::DuplicateMethod(decl.name)) && after == before
        } else {
            r is Ok && after == ServiceModel {
                owning_type: before.owning_type,
                methods: before.methods.push(method_spec_of(decl, role)),
                hook_before: before.hook_before,
                hook_after: before.hook_after,
            }
        },
    }
}

/// The dispatch table of one service type, built one method at a time.
pub struct ServiceSpec {
    owning_type: String,
    methods: Vec<MethodSpec>,
    hook_before: Option<String>,
    hook_after: Option<String>,
}

impl View for ServiceSpec {
    type V = ServiceModel;

    closed spec fn view(&self) -> ServiceModel {
        ServiceModel {
            owning_type: self.owning_type,
            methods: self.methods@,
            hook_before: self.hook_before,
            hook_after: self.hook_after,
        }
    }
}

impl ServiceSpec {
    pub fn owning_type(&self) -> (r: &String)
        ensures
            *r == self@.owning_type,
    {
        &self.owning_type
    }

    pub fn methods(&self) -> (r: &Vec<MethodSpec>)
        ensures
            r@ == self@.methods,
    {
        &self.methods
    }

    pub fn hook_before_name(&self) -> (r: &Option<String>)
        ensures
            *r == self@.hook_before,
    {
        &self.hook_before
    }

    pub fn hook_after_name(&self) -> (r: &Option<String>)
        ensures
            *r == self@.hook_after,
    {
        &self.hook_after
    }

    /// Whether a method of any role is registered under `name`.
    pub fn contains(&self, name: &String) -> (r: bool)
        ensures
            r == has_name(self@.methods, name@),
    {
        let mut i: usize = 0;
        while i < self.methods.len()
            invariant
                i <= self.methods@.len(),
                forall|k: int| 0 <= k < i ==> #[trigger] self.methods@[k].name@ != name@,
            decreases self.methods@.len() - i,
        {
            if self.methods[i].name == *name {
                return true;
            }
            i = i + 1;
        }
        false
    }

    /// The index of the method of `role` named `name`, if any.
    pub fn lookup(&self, role: Role, name: &String) -> (r: Option<usize>)
        ensures
            r matches Some(i) ==> first_route(self@.methods, role, name@, i as int)
                && route(self@.methods, role, name@) == Some(self@.methods[i as int]),
            r is None ==> route(self@.methods, role, name@) is None,
            r is None ==> forall|i: int| !routes_to(self@.methods, role, name@, i),
    {
        let mut i: usize = 0;
        while i < self.methods.len()
            invariant
                i <= self.methods@.len(),
                forall|k: int| 0 <= k < i ==> !#[trigger] routes_to(self@.methods, role, name@, k),
            decreases self.methods@.len() - i,
        {
            if self.methods[i].role == role && self.methods[i].name == *name {
                proof {
                    let ms = self@.methods;
                    assert(first_route(ms, role, name@, i as int));
                    let j = choose|j: int| first_route(ms, role, name@, j);
                    if j < i {
                        assert(!routes_to(ms, role, name@, j));
                    } else if j > i {
                        assert(!routes_to(ms, role, name@, i as int));
                    }
                }
                return Some(i);
            }
            i = i + 1;
        }
        proof {
            if exists|j: int| first_route(self@.methods, role, name@, j) {
                let j = choose|j: int| first_route(self@.methods, role, name@, j);
                assert(routes_to(self@.methods, role, name@, j));
            }
        }
        None
    }

    fn register(&mut self, decl: MethodDecl, role: Role) -> (r: Result<(), BindError>)
        ensures
            registration(old(self)@, decl, role, final(self)@, r),
            names_unique(old(self)@.methods) ==> names_unique(final(self)@.methods),
    {
        if let Err(e) = check_signature(&decl, role, &self.owning_type) {
            return Err(BindError::Signature(e));
        }
        if self.contains(&decl.name) {
            return Err(BindError::DuplicateMethod(decl.name));
        }
        let payload_type = if decl.params.len() == 2 {
            Some(decl.params[1].clone())
        } else {
            None
        };
        let entry = MethodSpec { name: decl.name, role, cycle_cost: decl.cycles, payload_type };
        proof {
            assert(entry == method_spec_of(decl, role));
            let ms = self.methods@.push(entry);
            if names_unique(self.methods@) {
                assert forall|i: int, j: int|
                    #![trigger ms[i], ms[j]]
                    0 <= i < ms.len() && 0 <= j < ms.len() && ms[i].name@ == ms[j].name@
                        implies i == j by {
                    if i < self.methods@.len() as int && j < self.methods@.len() as int {
                        assert(self.methods@[i] == ms[i] && self.methods@[j] == ms[j]);
                    } else if i < self.methods@.len() as int {
                        assert(self.methods@[i].name@ == decl.name@);
                    } else if j < self.methods@.len() as int {
                        assert(self.methods@[j].name@ == decl.name@);
                    }
                }
            }
        }
        self.methods.push(entry);
        Ok(())
    }
}

pub open spec fn with_cycles(decl: MethodDecl, cost: u64) -> MethodDecl {
    MethodDecl { cycles: Some(cost), ..decl }
}

pub open spec fn with_hook_before(m: ServiceModel, name: String) -> ServiceModel {
    ServiceModel { hook_before: Some(name), ..m }
}

pub open spec fn with_hook_after(m: ServiceModel, name: String) -> ServiceModel {
    ServiceModel { hook_after: Some(name), ..m }
}

/// Starts the dispatch table of the service type named `owning_type`: no
/// methods and no hooks.
pub fn service(owning_type: String) -> (r: ServiceSpec)
    ensures
        r@.owning_type == owning_type,
        r@.methods == Seq::<MethodSpec>::empty(),
        r@.hook_before is None,
        r@.hook_after is None,
        names_unique(r@.methods),
{
    ServiceSpec { owning_type, methods: Vec::new(), hook_before: None, hook_after: None }
}

/// Registers `decl` as a read entry point of `svc`.
pub fn read(svc: &mut ServiceSpec, decl: MethodDecl) -> (r: Result<(), BindError>)
    ensures
        registration(old(svc)@, decl, Role::Read, final(svc)@, r),
        names_unique(old(svc)@.methods) ==> names_unique(final(svc)@.methods),
{
    svc.register(decl, Role::Read)
}

/// Registers `decl` as a write entry point of `svc`.
pub fn write(svc: &mut ServiceSpec, decl: MethodDecl) -> (r: Result<(), BindError>)
    ensures
        registration(old(svc)@, decl, Role::Write, final(svc)@, r),
        names_unique(old(svc)@.methods) ==> names_unique(final(svc)@.methods),
{
    svc.register(decl, Role::Write)
}

/// Gives `decl` the fixed cycle cost `cost`, charged before its body runs. A
/// method carries at most one cost.
pub fn cycles(cost: u64, decl: MethodDecl) -> (r: Result<MethodDecl, BindError>)
    ensures
        decl.cycles is Some ==> r == Err::<MethodDecl, BindError>(
            BindError::DuplicateCycles(decl.name),
        ),
        decl.cycles is None ==> r == Ok::<MethodDecl, BindError>(with_cycles(decl, cost)),
{
    if decl.cycles.is_some() {
        return Err(BindError::DuplicateCycles(decl.name));
    }
    let mut decl = decl;
    decl.cycles = Some(cost);
    Ok(decl)
}

/// Names `decl` as the hook that runs before the service's calls. A service
/// has at most one.
pub fn hook_before(svc: &mut ServiceSpec, decl: MethodDecl) -> (r: Result<(), BindError>)
    ensures
        old(svc)@.hook_before is Some ==> r == Err::<(), BindError>(
            BindError::DuplicateHook(decl.name),
        ) && final(svc)@ == old(svc)@,
        old(svc)@.hook_before is None ==> r is Ok && final(svc)@ == with_hook_before(old(svc)@, decl.name),
{
    if svc.hook_before.is_some() {
        return Err(BindError::DuplicateHook(decl.name));
    }
    svc.hook_before = Some(decl.name);
    Ok(())
}

/// Names `decl` as the hook that runs after the service's calls. A service
/// has at most one.
pub fn hook_after(svc: &mut ServiceSpec, decl: MethodDecl) -> (r: Result<(), BindError>)
    ensures
        old(svc)@.hook_after is Some ==> r == Err::<(), BindError>(
            BindError::DuplicateHook(decl.name),
        ) && final(svc)@ == old(svc)@,
        old(svc)@.hook_after is None ==> r is Ok && final(svc)@ == with_hook_after(old(svc)@, decl.name),
{
    if svc.hook_after.is_some() {
        return Err(BindError::DuplicateHook(decl.name));
    }
    svc.hook_after = Some(decl.name);
    Ok(())
}

} // verus!
