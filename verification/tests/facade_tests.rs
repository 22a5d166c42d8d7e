use es_bridge::bridge::PromiseBridge;
use es_bridge::facade::EsValueFacade;
use es_bridge::native::NativeValue;

fn obj(props: Vec<(&str, NativeValue)>) -> NativeValue {
    NativeValue::Object(props.into_iter().map(|(k, v)| (k.to_string(), v)).collect())
}

fn lookup<'a>(facade: &'a EsValueFacade, key: &str) -> &'a EsValueFacade {
    assert!(facade.is_object());
    let props = facade.get_object();
    for p in props.iter() {
        if p.0 == key {
            return &p.1;
        }
    }
    panic!("no property {}", key);
}

#[test]
fn constructors_and_accessors() {
    assert!(EsValueFacade::undefined().is_string() == false);
    let s = EsValueFacade::new_str("hello".to_string());
    assert!(s.is_string());
    assert_eq!(s.get_string(), "hello");
    let i = EsValueFacade::new_i32(13);
    assert!(i.is_i32());
    assert_eq!(*i.get_i32(), 13);
    let b = EsValueFacade::new_bool(false);
    assert!(b.is_boolean());
    assert!(!b.get_boolean());
    let f = EsValueFacade::new_f64(1.25f64.to_bits());
    assert!(f.is_f64());
    assert_eq!(f64::from_bits(f.get_f64()), 1.25);
    let o = EsValueFacade::new_obj(vec![("p1".to_string(), EsValueFacade::new_i32(2))]);
    assert!(o.is_object());
    assert_eq!(o.get_object().len(), 1);
}

#[test]
fn primitive_round_trips() {
    let mut bridge = PromiseBridge::new();

    let s = EsValueFacade::new_str("hello".to_string());
    let back = EsValueFacade::new_v(&mut bridge, &s.to_es_value());
    assert!(back.is_string());
    assert_eq!(back.get_string(), "hello");

    let i = EsValueFacade::new_i32(-42);
    let back = EsValueFacade::new_v(&mut bridge, &i.to_es_value());
    assert!(back.is_i32());
    assert_eq!(*back.get_i32(), -42);

    let f = EsValueFacade::new_f64(std::f64::consts::PI.to_bits());
    let back = EsValueFacade::new_v(&mut bridge, &f.to_es_value());
    assert!(back.is_f64());
    assert_eq!(f64::from_bits(back.get_f64()), std::f64::consts::PI);

    let b = EsValueFacade::new_bool(true);
    let back = EsValueFacade::new_v(&mut bridge, &b.to_es_value());
    assert!(back.is_boolean());
    assert!(back.get_boolean());

    let u = EsValueFacade::undefined();
    let back = EsValueFacade::new_v(&mut bridge, &u.to_es_value());
    assert!(!back.is_string());
    assert!(!back.is_i32());
    assert!(!back.is_f64());
    assert!(!back.is_boolean());
    assert!(!back.is_object());
    assert!(!back.is_managed_object());
}

#[test]
fn test_get_object() {
    let mut bridge = PromiseBridge::new();
    let nested = obj(vec![("a", NativeValue::Int32(2))]);
    let source = obj(vec![
        ("a", NativeValue::Int32(1)),
        ("b", NativeValue::Boolean(true)),
        ("c", NativeValue::Text("hello".to_string())),
        ("d", nested),
    ]);

    let esvf = EsValueFacade::new_v(&mut bridge, &source);

    assert!(esvf.is_object());
    let esvf_a = lookup(&esvf, "a");
    assert!(esvf_a.is_i32());
    assert_eq!(esvf_a.get_i32(), &1);
}

#[test]
fn nested_object_round_trip() {
    let mut bridge = PromiseBridge::new();
    let nested = obj(vec![("a", NativeValue::Int32(2))]);
    let source = obj(vec![
        ("a", NativeValue::Int32(1)),
        ("b", NativeValue::Boolean(true)),
        ("c", NativeValue::Text("x".to_string())),
        ("d", nested),
    ]);

    let facade = EsValueFacade::new_v(&mut bridge, &source);
    assert!(facade.is_object());
    assert_eq!(facade.get_object().len(), 4);
    assert_eq!(*lookup(&facade, "a").get_i32(), 1);
    assert!(lookup(&facade, "b").get_boolean());
    assert_eq!(lookup(&facade, "c").get_string(), "x");
    let d = lookup(&facade, "d");
    assert!(d.is_object());
    assert_eq!(*lookup(d, "a").get_i32(), 2);

    // And back again through the native rebuild.
    let rebuilt = facade.to_es_value();
    let facade2 = EsValueFacade::new_v(&mut bridge, &rebuilt);
    assert_eq!(*lookup(&facade2, "a").get_i32(), 1);
    assert!(lookup(&facade2, "b").get_boolean());
    assert_eq!(lookup(&facade2, "c").get_string(), "x");
    assert_eq!(*lookup(lookup(&facade2, "d"), "a").get_i32(), 2);
}

#[test]
fn undefined_for_unrecognized_and_future_rebuild() {
    let mut bridge = PromiseBridge::new();
    // A managed future has no forward conversion: it rebuilds as undefined.
    let source = obj(vec![("__esses_future_obj_id", NativeValue::Int32(9))]);
    let fut = EsValueFacade::new_v(&mut bridge, &source);
    assert!(fut.is_promise());
    let rebuilt = fut.to_es_value();
    assert!(matches!(rebuilt, NativeValue::Undefined));
}

#[test]
fn js_expressions_for_primitives() {
    assert_eq!(EsValueFacade::new_bool(true).as_js_expression_str(), "true");
    assert_eq!(EsValueFacade::new_bool(false).as_js_expression_str(), "false");
    assert_eq!(EsValueFacade::new_i32(-7).as_js_expression_str(), "-7");
    assert_eq!(EsValueFacade::new_i32(170).as_js_expression_str(), "170");
    assert_eq!(
        EsValueFacade::new_str("hello".to_string()).as_js_expression_str(),
        "\"hello\""
    );
    assert_eq!(EsValueFacade::undefined().as_js_expression_str(), "null");
}

#[test]
fn js_expressions_for_floats() {
    // 1.5 is 6755399441055744 * 2^-52 exactly.
    let e = EsValueFacade::new_f64(1.5f64.to_bits()).as_js_expression_str();
    assert_eq!(e, "(6755399441055744 * 2**-52)");
    let e = EsValueFacade::new_f64((-1.5f64).to_bits()).as_js_expression_str();
    assert_eq!(e, "(-6755399441055744 * 2**-52)");
    assert_eq!(
        EsValueFacade::new_f64(f64::INFINITY.to_bits()).as_js_expression_str(),
        "(1/0)"
    );
    assert_eq!(
        EsValueFacade::new_f64(f64::NEG_INFINITY.to_bits()).as_js_expression_str(),
        "(-1/0)"
    );
    assert_eq!(
        EsValueFacade::new_f64(f64::NAN.to_bits()).as_js_expression_str(),
        "(0/0)"
    );
    // Zero is a subnormal with an all-zero mantissa.
    assert_eq!(
        EsValueFacade::new_f64(0.0f64.to_bits()).as_js_expression_str(),
        "(0 * 2**-1074)"
    );
}

#[test]
fn js_expression_for_objects_and_futures() {
    let mut bridge = PromiseBridge::new();
    let source = obj(vec![
        ("a", NativeValue::Int32(1)),
        ("b", NativeValue::Boolean(true)),
    ]);
    let facade = EsValueFacade::new_v(&mut bridge, &source);
    assert_eq!(facade.as_js_expression_str(), "{\"a\": 1, \"b\": true}");

    let fut_source = obj(vec![("__esses_future_obj_id", NativeValue::Int32(77))]);
    let fut = EsValueFacade::new_v(&mut bridge, &fut_source);
    assert_eq!(fut.as_js_expression_str(), "/* Future 77 */");
}

#[test]
fn marker_without_integer_value_is_a_plain_object() {
    let mut bridge = PromiseBridge::new();
    let source = obj(vec![(
        "__esses_future_obj_id",
        NativeValue::Text("not an id".to_string()),
    )]);
    let facade = EsValueFacade::new_v(&mut bridge, &source);
    assert!(!facade.is_promise());
    assert!(facade.is_object());
    assert_eq!(
        lookup(&facade, "__esses_future_obj_id").get_string(),
        "not an id"
    );
}
