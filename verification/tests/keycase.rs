use ship_compliant_v1::keycase::{camel_case_key, snake_case_key};

#[test]
fn snake_converts_camel_key() {
    assert_eq!(snake_case_key("salesOrderKey"), "sales_order_key");
}

#[test]
fn snake_converts_pascal_key_without_leading_underscore() {
    assert_eq!(snake_case_key("SalesOrderKey"), "sales_order_key");
}

#[test]
fn snake_leaves_snake_key_unchanged() {
    assert_eq!(snake_case_key("sales_order_key"), "sales_order_key");
}

#[test]
fn snake_leaves_digits_alone() {
    assert_eq!(snake_case_key("line2Total"), "line2_total");
}

#[test]
fn snake_of_empty_key_is_empty() {
    assert_eq!(snake_case_key(""), "");
}

#[test]
fn snake_key_applied_twice_is_applied_once() {
    let once = snake_case_key("salesOrderKey");
    let twice = snake_case_key(&once);
    assert_eq!(twice, once);
}

#[test]
fn camel_converts_snake_key() {
    assert_eq!(camel_case_key("sales_order_key"), "salesOrderKey");
}

#[test]
fn camel_leaves_camel_key_unchanged() {
    assert_eq!(camel_case_key("salesOrderKey"), "salesOrderKey");
}

#[test]
fn camel_drops_leading_and_doubled_underscores() {
    assert_eq!(camel_case_key("_foo"), "Foo");
    assert_eq!(camel_case_key("a__b"), "aB");
    assert_eq!(camel_case_key("foo_"), "foo");
}

#[test]
fn camel_of_empty_key_is_empty() {
    assert_eq!(camel_case_key(""), "");
}

#[test]
fn camel_key_applied_twice_is_applied_once() {
    let once = camel_case_key("sales_order_key");
    let twice = camel_case_key(&once);
    assert_eq!(twice, once);
}

#[test]
fn camel_and_snake_invert_each_other_on_plain_keys() {
    assert_eq!(camel_case_key(&snake_case_key("fulfillmentDate")), "fulfillmentDate");
    assert_eq!(snake_case_key(&camel_case_key("fulfillment_date")), "fulfillment_date");
}
