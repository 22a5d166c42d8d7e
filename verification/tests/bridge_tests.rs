use es_bridge::bridge::{BridgeError, PromiseBridge, WaitError};
use es_bridge::facade::EsValueFacade;
use es_bridge::native::NativeValue;

fn future_object(id: i32) -> NativeValue {
    NativeValue::Object(vec![(
        "__esses_future_obj_id".to_string(),
        NativeValue::Int32(id),
    )])
}

#[test]
fn test_wait_for_prom() {
    let mut bridge = PromiseBridge::new();
    let esvf_prom = EsValueFacade::new_v(&mut bridge, &future_object(1));
    assert!(esvf_prom.is_promise());

    EsValueFacade::resolve_future(&mut bridge, 1, Ok(EsValueFacade::new_i32(123)))
        .ok()
        .unwrap();

    let esvf_prom_resolved = esvf_prom
        .get_promise_result_blocking(60_000)
        .ok()
        .unwrap()
        .ok()
        .unwrap();

    assert!(esvf_prom_resolved.is_i32());
    assert_eq!(esvf_prom_resolved.get_i32().clone(), 123);
}

#[test]
fn test_wait_for_native_prom() {
    // The resolution of a scripted chain of continuations arrives at the
    // bridge exactly as any other settlement of the same future id.
    let mut bridge = PromiseBridge::new();
    let esvf_prom = EsValueFacade::new(&mut bridge, &future_object(6));
    assert!(esvf_prom.is_promise());

    EsValueFacade::resolve_future(&mut bridge, 6, Ok(EsValueFacade::new_i32(123)))
        .ok()
        .unwrap();

    let esvf_prom_resolved = esvf_prom
        .get_promise_result_blocking(60_000)
        .ok()
        .unwrap()
        .ok()
        .unwrap();

    assert!(esvf_prom_resolved.is_i32());
    assert_eq!(esvf_prom_resolved.get_i32().clone(), 123);
}

#[test]
fn test_wait_for_prom2() {
    let mut bridge = PromiseBridge::new();
    let esvf_prom = EsValueFacade::new_v(&mut bridge, &future_object(2));
    assert!(esvf_prom.is_promise());

    EsValueFacade::resolve_future(
        &mut bridge,
        2,
        Err(EsValueFacade::new_str("foo".to_string())),
    )
    .ok()
    .unwrap();

    let esvf_prom_resolved = esvf_prom
        .get_promise_result_blocking(60_000)
        .ok()
        .unwrap()
        .err()
        .unwrap();

    assert!(esvf_prom_resolved.is_string());
    assert_eq!(esvf_prom_resolved.get_string(), "foo");
}

#[test]
fn wait_on_non_future_rejects_immediately() {
    let not_a_prom = EsValueFacade::new_i32(5);
    let res = not_a_prom.get_promise_result_blocking(60_000);
    let rejected = res.ok().unwrap().err().unwrap();
    assert!(rejected.is_string());
    assert_eq!(rejected.get_string(), "esvf was not a Promise");
}

#[test]
fn settlement_is_exactly_once() {
    let mut bridge = PromiseBridge::new();
    let prom = EsValueFacade::new_v(&mut bridge, &future_object(7));
    assert!(bridge.is_registered(7));

    let first = EsValueFacade::resolve_future(&mut bridge, 7, Ok(EsValueFacade::new_i32(1)));
    assert!(first.is_ok());
    assert!(!bridge.is_registered(7));

    let second = EsValueFacade::resolve_future(&mut bridge, 7, Ok(EsValueFacade::new_i32(2)));
    assert!(matches!(second, Err(BridgeError::ConsistencyViolation)));

    let delivered = prom
        .get_promise_result_blocking(60_000)
        .ok()
        .unwrap()
        .ok()
        .unwrap();
    assert_eq!(*delivered.get_i32(), 1);
}

#[test]
fn settle_unregistered_id_is_consistency_violation() {
    let mut bridge = PromiseBridge::new();
    let res = bridge.settle(41, Ok(EsValueFacade::new_i32(1)));
    assert!(matches!(res, Err(BridgeError::ConsistencyViolation)));
}

#[test]
fn timeout_leaves_registration_intact() {
    let mut bridge = PromiseBridge::new();
    let prom = EsValueFacade::new_v(&mut bridge, &future_object(3));

    let waited = prom.get_promise_result_blocking(30);
    assert!(matches!(waited, Err(WaitError::Timeout)));
    assert!(bridge.is_registered(3));

    EsValueFacade::resolve_future(&mut bridge, 3, Ok(EsValueFacade::new_bool(true)))
        .ok()
        .unwrap();
    let delivered = prom
        .get_promise_result_blocking(60_000)
        .ok()
        .unwrap()
        .ok()
        .unwrap();
    assert!(delivered.get_boolean());
}

#[test]
fn duplicate_registration_keeps_first_endpoint() {
    let mut bridge = PromiseBridge::new();
    let first = EsValueFacade::new_v(&mut bridge, &future_object(4));
    let second = EsValueFacade::new_v(&mut bridge, &future_object(4));
    assert!(bridge.is_registered(4));

    EsValueFacade::resolve_future(&mut bridge, 4, Ok(EsValueFacade::new_i32(11)))
        .ok()
        .unwrap();

    let delivered = first
        .get_promise_result_blocking(60_000)
        .ok()
        .unwrap()
        .ok()
        .unwrap();
    assert_eq!(*delivered.get_i32(), 11);

    // The later snapshot's endpoint was never registered: its sending half
    // was dropped at once, so waiting on it reports the torn-down channel.
    let starved = second.get_promise_result_blocking(30);
    assert!(matches!(starved, Err(WaitError::Disconnected)));
}

#[test]
fn get_managed_object_id_reads_the_marker() {
    let mut bridge = PromiseBridge::new();
    let prom = EsValueFacade::new_v(&mut bridge, &future_object(55));
    assert!(prom.is_managed_object());
    assert_eq!(prom.get_managed_object_id(), 55);
}
