use ship_compliant_v1::client::{Operation, V1Client};
use ship_compliant_v1::dynvalue::DynValue;
use ship_compliant_v1::normalize::{finish_call, ApiError};

fn key(k: &str, v: DynValue) -> (String, DynValue) {
    (String::from(k), v)
}

fn client() -> V1Client {
    V1Client::new(
        String::from("https://example.invalid/api"),
        String::from("user"),
        String::from("pass"),
    )
    .unwrap()
}

#[test]
fn construction_is_lazy_and_succeeds_on_a_wellformed_url() {
    let c = client();
    assert_eq!(c.base_url, "https://example.invalid/api");
    assert_eq!(c.auth_header, "Basic dXNlcjpwYXNz");
}

#[test]
fn construction_is_lazy_and_succeeds_on_a_garbage_url() {
    // the policy is lazy construction: nothing touches the transport
    // here, so even a base URL no transport could use is accepted, and
    // the failure surfaces on the first performed call
    let c = V1Client::new(
        String::from("not a url at all"),
        String::from("user"),
        String::from("pass"),
    );
    assert!(c.is_ok());
    assert_eq!(c.unwrap().base_url, "not a url at all");
}

#[test]
fn get_sales_order_carries_its_key() {
    let p = client().get_sales_order(String::from("SO-1"));
    assert_eq!(p.op, Operation::GetSalesOrder);
    assert_eq!(p.sales_order_key.as_deref(), Some("SO-1"));
    assert!(p.shipment_keys.is_none());
    assert!(p.body.is_none());
}

#[test]
fn void_sales_order_carries_its_key() {
    let p = client().void_sales_order(String::from("SO-9"));
    assert_eq!(p.op, Operation::VoidSalesOrder);
    assert_eq!(p.sales_order_key.as_deref(), Some("SO-9"));
}

#[test]
fn tracking_carries_key_and_shipment_filter() {
    let p = client().get_sales_order_tracking(
        String::from("SO-1"),
        Some(vec![String::from("SH-1"), String::from("SH-2")]),
    );
    assert_eq!(p.op, Operation::GetSalesOrderTracking);
    assert_eq!(p.sales_order_key.as_deref(), Some("SO-1"));
    assert_eq!(p.shipment_keys, Some(vec![String::from("SH-1"), String::from("SH-2")]));
    assert!(p.body.is_none());
}

#[test]
fn tracking_without_filter_carries_none() {
    let p = client().get_sales_order_tracking(String::from("SO-1"), None);
    assert!(p.shipment_keys.is_none());
}

#[test]
fn commit_rewrites_host_body_to_wire_keys() {
    let input = DynValue::Object(vec![
        key(
            "sales_order",
            DynValue::Object(vec![key("sales_order_key", DynValue::Str(String::from("SO-1")))]),
        ),
    ]);
    let p = client().commit_sales_order(&input).unwrap();
    assert_eq!(p.op, Operation::CommitSalesOrder);
    assert_eq!(
        p.body,
        Some(DynValue::Object(vec![
            key(
                "salesOrder",
                DynValue::Object(vec![key("salesOrderKey", DynValue::Str(String::from("SO-1")))]),
            ),
        ])),
    );
}

#[test]
fn each_body_operation_rejects_a_non_mapping_input() {
    let c = client();
    let input = DynValue::Str(String::from("not a mapping"));
    for r in [
        c.check_compliance_of_sales_order(&input),
        c.commit_sales_order(&input),
        c.persist_sales_order(&input),
        c.add_update_product(&input),
        c.add_update_brand(&input),
        c.get_sales_tax_rates_by_address(&input),
        c.calculate_sales_tax_due_for_order(&input),
    ] {
        let e = r.unwrap_err();
        assert_eq!(e.message, "error: request body must be a mapping");
    }
}

#[test]
fn quote_operations_accept_a_mapping() {
    let c = client();
    let input = DynValue::Object(vec![key("zip_code", DynValue::Str(String::from("94105")))]);
    let p = c.get_sales_tax_rates_by_address(&input).unwrap();
    assert_eq!(p.op, Operation::GetSalesTaxRatesByAddress);
    assert_eq!(
        p.body,
        Some(DynValue::Object(vec![key("zipCode", DynValue::Str(String::from("94105")))])),
    );
    let q = c.calculate_sales_tax_due_for_order(&input).unwrap();
    assert_eq!(q.op, Operation::CalculateSalesTaxDueForOrder);
}

#[test]
fn whole_get_sales_order_round_trip_returns_snake_cased_data() {
    // the typed client answered with a wire-cased payload; finishing the
    // call hands the host snake_case keys, the order identifier included
    let c = client();
    let p = c.get_sales_order(String::from("SO-1"));
    assert_eq!(p.op, Operation::GetSalesOrder);
    let wire_payload = DynValue::Object(vec![
        key("salesOrderKey", DynValue::Str(String::from("SO-1"))),
        key("orderStatus", DynValue::Str(String::from("Committed"))),
    ]);
    let r = finish_call(Ok(wire_payload)).unwrap();
    assert_eq!(
        r,
        DynValue::Object(vec![
            key("sales_order_key", DynValue::Str(String::from("SO-1"))),
            key("order_status", DynValue::Str(String::from("Committed"))),
        ]),
    );
}

#[test]
fn whole_commit_round_trip_surfaces_structured_error_as_data() {
    let c = client();
    let input = DynValue::Object(vec![key("sales_order_key", DynValue::Str(String::from("bad")))]);
    let p = c.commit_sales_order(&input).unwrap();
    assert_eq!(
        p.body,
        Some(DynValue::Object(vec![key("salesOrderKey", DynValue::Str(String::from("bad")))])),
    );
    let body = DynValue::Object(vec![key("errorCode", DynValue::Str(String::from("INVALID_KEY")))]);
    let r = finish_call(Err(ApiError::ErrorResponse(body))).unwrap();
    assert_eq!(
        r,
        DynValue::Object(vec![key("error_code", DynValue::Str(String::from("INVALID_KEY")))]),
    );
}
