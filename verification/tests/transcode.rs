use ship_compliant_v1::dynvalue::DynValue;
use ship_compliant_v1::transcode::{camel_case_hash_keys, snake_case_hash_keys, snake_case_hash_keys_mut};

fn key(k: &str, v: DynValue) -> (String, DynValue) {
    (String::from(k), v)
}

fn sample_wire_order() -> DynValue {
    DynValue::Object(vec![
        key("salesOrderKey", DynValue::Str(String::from("SO-1"))),
        key(
            "shipments",
            DynValue::List(vec![
                DynValue::Object(vec![
                    key("trackingNumber", DynValue::Str(String::from("1Z"))),
                    key("lineItems", DynValue::List(vec![DynValue::Num(String::from("2"))])),
                ]),
            ]),
        ),
        key("committed", DynValue::Bool(true)),
        key("note", DynValue::Null),
    ])
}

fn sample_host_order() -> DynValue {
    DynValue::Object(vec![
        key("sales_order_key", DynValue::Str(String::from("SO-1"))),
        key(
            "shipments",
            DynValue::List(vec![
                DynValue::Object(vec![
                    key("tracking_number", DynValue::Str(String::from("1Z"))),
                    key("line_items", DynValue::List(vec![DynValue::Num(String::from("2"))])),
                ]),
            ]),
        ),
        key("committed", DynValue::Bool(true)),
        key("note", DynValue::Null),
    ])
}

#[test]
fn snake_rewrites_nested_keys() {
    assert_eq!(snake_case_hash_keys(&sample_wire_order()), sample_host_order());
}

#[test]
fn camel_rewrites_nested_keys() {
    assert_eq!(camel_case_hash_keys(&sample_host_order()), sample_wire_order());
}

#[test]
fn snake_on_already_snake_value_is_a_no_op() {
    assert_eq!(snake_case_hash_keys(&sample_host_order()), sample_host_order());
}

#[test]
fn camel_on_already_camel_value_is_a_no_op() {
    assert_eq!(camel_case_hash_keys(&sample_wire_order()), sample_wire_order());
}

#[test]
fn snake_applied_twice_is_applied_once() {
    let once = snake_case_hash_keys(&sample_wire_order());
    let twice = snake_case_hash_keys(&once);
    assert_eq!(twice, once);
}

#[test]
fn camel_applied_twice_is_applied_once() {
    let once = camel_case_hash_keys(&sample_host_order());
    let twice = camel_case_hash_keys(&once);
    assert_eq!(twice, once);
}

#[test]
fn wire_value_survives_the_round_trip_to_the_host_and_back() {
    let wire = sample_wire_order();
    assert_eq!(camel_case_hash_keys(&snake_case_hash_keys(&wire)), wire);
}

#[test]
fn host_value_survives_the_round_trip_to_the_wire_and_back() {
    let host = sample_host_order();
    assert_eq!(snake_case_hash_keys(&camel_case_hash_keys(&host)), host);
}

#[test]
fn snake_leaves_scalars_and_list_order_alone() {
    let v = DynValue::List(vec![
        DynValue::Num(String::from("1.5")),
        DynValue::Str(String::from("keepMe")),
        DynValue::Bool(false),
    ]);
    let w = snake_case_hash_keys(&v);
    assert_eq!(w, v);
}

#[test]
fn snake_in_place_matches_derived_value() {
    let mut v = sample_wire_order();
    snake_case_hash_keys_mut(&mut v);
    assert_eq!(v, sample_host_order());
}
