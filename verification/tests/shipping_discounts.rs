use discounts::model::{Configuration, DeliveryLine, OrderSnapshot, Payload};
use discounts::{render, script, OutputShape};

fn shipping_snapshot() -> OrderSnapshot {
    OrderSnapshot {
        merchandise_lines: vec![],
        delivery_lines: vec![DeliveryLine { index: Some(0) }, DeliveryLine { index: Some(1) }],
    }
}

fn run(configuration: Configuration) -> String {
    let payload = Payload { input: shipping_snapshot(), configuration };
    let proposal = script(payload).unwrap();
    render(&proposal, OutputShape::ShippingFunction).unwrap()
}

fn assert_same_json(actual: &str, expected: &str) {
    let a: serde_json::Value = serde_json::from_str(actual).unwrap();
    let e: serde_json::Value = serde_json::from_str(expected).unwrap();
    assert_eq!(a.to_string(), e.to_string());
}

#[test]
fn shipping_discount_with_default_value() {
    let out = run(Configuration::ShippingPercentage { value: None });

    let expected_json = r#"
        {
            "discounts": [{
                "message": "20% off shipping",
                "conditions": null,
                "targets": [
                    { "shippingLine": { "index": 0 } },
                    { "shippingLine": { "index": 1 } }
                ],
                "value": {
                    "percentage": { "value": 20.0 },
                    "fixedAmount": null
                }
            }],
            "discountApplicationStrategy": "FIRST"
        }
    "#;
    assert_same_json(&out, expected_json);
}

#[test]
fn shipping_discount_with_value() {
    let out = run(Configuration::ShippingPercentage { value: Some("10".to_string()) });

    let expected_json = r#"
        {
            "discounts": [{
                "message": "10% off shipping",
                "conditions": null,
                "targets": [
                    { "shippingLine": { "index": 0 } },
                    { "shippingLine": { "index": 1 } }
                ],
                "value": {
                    "percentage": { "value": 10.0 },
                    "fixedAmount": null
                }
            }],
            "discountApplicationStrategy": "FIRST"
        }
    "#;
    assert_same_json(&out, expected_json);
}

#[test]
fn shipping_discount_skips_lines_without_index() {
    let payload = Payload {
        input: OrderSnapshot {
            merchandise_lines: vec![],
            delivery_lines: vec![
                DeliveryLine { index: Some(0) },
                DeliveryLine { index: None },
                DeliveryLine { index: Some(2) },
            ],
        },
        configuration: Configuration::ShippingPercentage { value: None },
    };
    let proposal = script(payload).unwrap();
    let out = render(&proposal, OutputShape::ShippingFunction).unwrap();

    let expected_json = r#"
        {
            "discounts": [{
                "message": "20% off shipping",
                "conditions": null,
                "targets": [
                    { "shippingLine": { "index": 0 } },
                    { "shippingLine": { "index": 2 } }
                ],
                "value": {
                    "percentage": { "value": 20.0 },
                    "fixedAmount": null
                }
            }],
            "discountApplicationStrategy": "FIRST"
        }
    "#;
    assert_same_json(&out, expected_json);
}
