use core_binding::{
    charge_cycles, cycles, hook_after, hook_before, read, service, CallContext, MethodDecl,
    MethodSpec, ProtocolError, Receiver, RequestContext, ReturnType, Service, TypeParam,
    Visibility,
};

fn entry(name: &str, receiver: Receiver, payload: Option<&str>) -> MethodDecl {
    let mut params = vec!["Context".to_string()];
    if let Some(p) = payload {
        params.push(p.to_string());
    }
    MethodDecl {
        name: name.to_string(),
        owner: Some("ValueService".to_string()),
        visibility: Visibility::Private,
        generics: vec![TypeParam { name: "Context".to_string(), context_bound: true }],
        receiver,
        params,
        ret: ReturnType::ProtocolResult("String".to_string()),
        cycles: None,
    }
}

#[derive(Clone, Debug, PartialEq)]
struct Value {
    v: i64,
    writes: u32,
}

/// Decodes `{"v": N}`.
fn decode(ty: &String, raw: &String) -> Result<i64, String> {
    if ty != "SetValuePayload" {
        return Err(format!("unknown payload type {}", ty));
    }
    let body = raw.trim();
    let inner = body
        .strip_prefix('{')
        .and_then(|b| b.strip_suffix('}'))
        .ok_or_else(|| "expected an object".to_string())?;
    let (key, value) = inner.split_once(':').ok_or_else(|| "expected a field".to_string())?;
    if key.trim() != "\"v\"" {
        return Err("expected field v".to_string());
    }
    value.trim().parse::<i64>().map_err(|e| e.to_string())
}

fn read_handler(s: &Value, m: &MethodSpec, _p: Option<i64>) -> Result<String, ProtocolError> {
    match m.name.as_str() {
        "get_value" => Ok(s.v.to_string()),
        "get_writes" => Ok(s.writes.to_string()),
        _ => Err(ProtocolError::Service("unexpected".to_string())),
    }
}

fn write_handler(s: &Value, m: &MethodSpec, p: Option<i64>) -> (Value, Result<String, ProtocolError>) {
    match (m.name.as_str(), p) {
        ("set_value", Some(v)) => (Value { v, writes: s.writes + 1 }, Ok("ok".to_string())),
        ("fail", _) => (Value { v: s.v, writes: s.writes + 1 }, Err(ProtocolError::Service("refused".to_string()))),
        _ => (s.clone(), Err(ProtocolError::Service("unexpected".to_string()))),
    }
}

fn value_service() -> Service<Value> {
    let mut table = service("ValueService".to_string());
    read(&mut table, entry("get_value", Receiver::Shared, None)).unwrap();
    read(&mut table, cycles(3, entry("get_writes", Receiver::Shared, None)).unwrap()).unwrap();
    core_binding::binder::write(
        &mut table,
        cycles(10, entry("set_value", Receiver::Exclusive, Some("SetValuePayload"))).unwrap(),
    )
    .unwrap();
    core_binding::binder::write(&mut table, entry("fail", Receiver::Exclusive, None)).unwrap();
    Service { table, state: Value { v: 42, writes: 0 } }
}

fn ctx(method: &str, payload: &str, cycles: u64) -> CallContext {
    CallContext::new(method.to_string(), payload.to_string(), cycles)
}

#[test]
fn end_to_end_read_and_write() {
    let mut svc = value_service();
    let mut c = ctx("get_value", "", 0);
    assert_eq!(svc.read(&mut c, decode, read_handler), Ok("42".to_string()));

    let mut c = ctx("set_value", "{\"v\": 7}", 25);
    assert_eq!(svc.write(&mut c, decode, write_handler), Ok("ok".to_string()));
    assert_eq!(c.remaining_cycles(), 15);
    assert_eq!(svc.state, Value { v: 7, writes: 1 });

    let mut c = ctx("set_value", "{\"v\": 9}", 5);
    assert_eq!(svc.write(&mut c, decode, write_handler), Err(ProtocolError::BudgetExceeded));
    assert_eq!(c.remaining_cycles(), 5);
    assert_eq!(svc.state, Value { v: 7, writes: 1 });
}

#[test]
fn write_with_exact_budget_succeeds() {
    let mut svc = value_service();
    let mut c = ctx("set_value", "{\"v\": -3}", 10);
    assert_eq!(svc.write(&mut c, decode, write_handler), Ok("ok".to_string()));
    assert_eq!(c.remaining_cycles(), 0);
    assert_eq!(svc.state.v, -3);
}

#[test]
fn unknown_read_is_not_found() {
    let svc = value_service();
    let mut c = ctx("get_kitty", "", 100);
    assert_eq!(
        svc.read(&mut c, decode, |_: &Value, _: &MethodSpec, _: Option<i64>| -> Result<String, ProtocolError> {
            panic!("no handler may run")
        }),
        Err(ProtocolError::MethodNotFound("get_kitty".to_string()))
    );
    assert_eq!(c.remaining_cycles(), 100);
}

#[test]
fn names_match_exactly() {
    let svc = value_service();
    let mut c = ctx("Get_Value", "", 0);
    assert_eq!(
        svc.read(&mut c, decode, read_handler),
        Err(ProtocolError::MethodNotFound("Get_Value".to_string()))
    );
}

#[test]
fn read_does_not_reach_write_methods() {
    let svc = value_service();
    let mut c = ctx("set_value", "{\"v\": 1}", 100);
    assert_eq!(
        svc.read(&mut c, decode, read_handler),
        Err(ProtocolError::MethodNotFound("set_value".to_string()))
    );
    assert_eq!(c.remaining_cycles(), 100);
}

#[test]
fn write_does_not_reach_read_methods() {
    let mut svc = value_service();
    let mut c = ctx("get_value", "", 100);
    assert_eq!(
        svc.write(&mut c, decode, write_handler),
        Err(ProtocolError::MethodNotFound("get_value".to_string()))
    );
    assert_eq!(svc.state, Value { v: 42, writes: 0 });
}

#[test]
fn bad_payload_is_decode_error_and_not_charged() {
    let mut svc = value_service();
    let mut c = ctx("set_value", "{\"v\": seven}", 100);
    match svc.write(&mut c, decode, write_handler) {
        Err(ProtocolError::PayloadDecodeError(msg)) => assert!(!msg.is_empty()),
        other => panic!("unexpected {:?}", other),
    }
    assert_eq!(c.remaining_cycles(), 100);
    assert_eq!(svc.state, Value { v: 42, writes: 0 });
}

#[test]
fn method_without_payload_skips_decoding() {
    let mut svc = value_service();
    let never = |_: &String, _: &String| -> Result<i64, String> { panic!("no payload to decode") };
    let mut c = ctx("get_value", "not json", 0);
    assert_eq!(svc.read(&mut c, never, read_handler), Ok("42".to_string()));
    let mut c = ctx("fail", "", 0);
    assert_eq!(
        svc.write(&mut c, never, write_handler),
        Err(ProtocolError::Service("refused".to_string()))
    );
    assert_eq!(svc.state.writes, 1);
}

#[test]
fn read_charges_its_cost() {
    let svc = value_service();
    let mut c = ctx("get_writes", "", 3);
    assert_eq!(svc.read(&mut c, decode, read_handler), Ok("0".to_string()));
    assert_eq!(c.remaining_cycles(), 0);
    let mut c = ctx("get_writes", "", 2);
    assert_eq!(svc.read(&mut c, decode, read_handler), Err(ProtocolError::BudgetExceeded));
    assert_eq!(c.remaining_cycles(), 2);
}

#[test]
fn repeated_read_gives_same_result() {
    let svc = value_service();
    let mut c1 = ctx("get_writes", "", 50);
    let mut c2 = ctx("get_writes", "", 50);
    let r1 = svc.read(&mut c1, decode, read_handler);
    let r2 = svc.read(&mut c2, decode, read_handler);
    assert_eq!(r1, r2);
    assert_eq!(c1.remaining_cycles(), c2.remaining_cycles());
    let mut c3 = ctx("missing", "", 50);
    let mut c4 = ctx("missing", "", 50);
    assert_eq!(svc.read(&mut c3, decode, read_handler), svc.read(&mut c4, decode, read_handler));
}

#[test]
fn hooks_default_to_success() {
    let mut svc = value_service();
    let touch = |s: &Value, _: &String| -> (Value, Result<(), ProtocolError>) {
        (Value { v: s.v + 1, writes: s.writes }, Ok(()))
    };
    assert_eq!(svc.hook_before(touch), Ok(()));
    assert_eq!(svc.hook_after(touch), Ok(()));
    assert_eq!(svc.state, Value { v: 42, writes: 0 });
}

#[test]
fn hooks_forward_to_registered_methods() {
    let mut table = service("ValueService".to_string());
    hook_before(&mut table, entry("custom_hook_before", Receiver::Exclusive, None)).unwrap();
    hook_after(&mut table, entry("custom_hook_after", Receiver::Exclusive, None)).unwrap();
    let mut svc = Service { table, state: Value { v: 0, writes: 0 } };
    let hook = |s: &Value, name: &String| -> (Value, Result<(), ProtocolError>) {
        match name.as_str() {
            "custom_hook_before" => (Value { v: s.v + 1, writes: s.writes }, Ok(())),
            _ => (s.clone(), Err(ProtocolError::Service(name.clone()))),
        }
    };
    assert_eq!(svc.hook_before(hook), Ok(()));
    assert_eq!(svc.state.v, 1);
    assert_eq!(
        svc.hook_after(hook),
        Err(ProtocolError::Service("custom_hook_after".to_string()))
    );
}

#[test]
fn sub_cycles_charges_or_refuses() {
    let mut c = ctx("m", "p", 10);
    assert_eq!(c.sub_cycles(4), Ok(()));
    assert_eq!(c.remaining_cycles(), 6);
    assert_eq!(c.sub_cycles(7), Err(ProtocolError::BudgetExceeded));
    assert_eq!(c.remaining_cycles(), 6);
    assert_eq!(c.sub_cycles(6), Ok(()));
    assert_eq!(c.remaining_cycles(), 0);
    assert_eq!(c.get_service_method(), "m");
    assert_eq!(c.get_payload(), "p");
}

#[test]
fn charge_without_cost_is_free() {
    let mut c = ctx("m", "", 1);
    assert_eq!(charge_cycles(&mut c, None), Ok(()));
    assert_eq!(c.remaining_cycles(), 1);
    assert_eq!(charge_cycles(&mut c, Some(2)), Err(ProtocolError::BudgetExceeded));
    assert_eq!(charge_cycles(&mut c, Some(1)), Ok(()));
    assert_eq!(c.remaining_cycles(), 0);
}
