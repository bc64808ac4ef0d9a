use discounts::model::{
    Configuration, MerchandiseLine, OrderSnapshot, Payload, Tier,
};
use discounts::{render, script, Decimal, OutputShape};

fn order_snapshot() -> OrderSnapshot {
    OrderSnapshot {
        merchandise_lines: vec![
            MerchandiseLine { variant_id: Some(0) },
            MerchandiseLine { variant_id: Some(1) },
        ],
        delivery_lines: vec![],
    }
}

fn run(configuration: Configuration, shape: OutputShape) -> String {
    let payload = Payload { input: order_snapshot(), configuration };
    let proposal = script(payload).unwrap();
    render(&proposal, shape).unwrap()
}

fn assert_same_json(actual: &str, expected: &str) {
    let a: serde_json::Value = serde_json::from_str(actual).unwrap();
    let e: serde_json::Value = serde_json::from_str(expected).unwrap();
    assert_eq!(a.to_string(), e.to_string());
}

#[test]
fn order_fixed_discount_with_default_value() {
    let out = run(
        Configuration::OrderFixedAmount {
            value: None,
            excluded_variant_gids: Some(vec![
                "gid://shopify/ProductVariant/1".to_string(),
                "gid://shopify/ProductVariant/2".to_string(),
            ]),
        },
        OutputShape::OrderMutation,
    );

    let expected_json = r#"
        {
            "discounts": [{
                "message": "$5 off order subtotal",
                "conditions": null,
                "targets": [{
                    "targetType": "ORDER_SUBTOTAL",
                    "excludedVariantIds": [1, 2],
                    "id": null,
                    "quantity": null
                }],
                "value": {
                    "type": "FIXED_AMOUNT",
                    "value": 5.0,
                    "appliesToEachItem": null
                }
            }],
            "discount_application_strategy": "first"
        }
    "#;
    assert_same_json(&out, expected_json);
}

#[test]
fn order_fixed_discount_with_value() {
    let out = run(
        Configuration::OrderFixedAmount {
            value: Some("10.0".to_string()),
            excluded_variant_gids: None,
        },
        OutputShape::OrderMutation,
    );

    let expected_json = r#"
        {
            "discounts": [{
                "message": "$10 off order subtotal",
                "conditions": null,
                "targets": [{
                    "targetType": "ORDER_SUBTOTAL",
                    "excludedVariantIds": [],
                    "id": null,
                    "quantity": null
                }],
                "value": {
                    "type": "FIXED_AMOUNT",
                    "value": 10.0,
                    "appliesToEachItem": null
                }
            }],
            "discount_application_strategy": "first"
        }
    "#;
    assert_same_json(&out, expected_json);
}

#[test]
fn order_fixed_discount_with_excluded_variant_gids() {
    let out = run(
        Configuration::OrderFixedAmount {
            value: None,
            excluded_variant_gids: Some(vec!["gid://shopify/ProductVariant/0".to_string()]),
        },
        OutputShape::OrderMutation,
    );

    let expected_json = r#"
        {
            "discounts": [{
                "message": "$5 off order subtotal",
                "conditions": null,
                "targets": [{
                    "targetType": "ORDER_SUBTOTAL",
                    "excludedVariantIds": [0],
                    "id": null,
                    "quantity": null
                }],
                "value": {
                    "type": "FIXED_AMOUNT",
                    "value": 5.0,
                    "appliesToEachItem": null
                }
            }],
            "discount_application_strategy": "first"
        }
    "#;
    assert_same_json(&out, expected_json);
}

#[test]
fn order_tiered_discount_with_default_value() {
    let out = run(
        Configuration::OrderTiered {
            tiers: vec![
                Tier { amount: Decimal::from_u64(300), percentage: Decimal::from_u64(50) },
                Tier { amount: Decimal::from_u64(200), percentage: Decimal::from_u64(20) },
                Tier { amount: Decimal::from_u64(100), percentage: Decimal::from_u64(10) },
            ],
        },
        OutputShape::OrderMutation,
    );

    let expected_json = r#"
        {
            "discounts": [
                {
                    "message": "Spend $300 Get 50% off",
                    "conditions": [{
                        "targetType": "ORDER_SUBTOTAL",
                        "ids": null,
                        "excludedVariantIds": null,
                        "minimumAmount": 30000.0,
                        "minimumQuantity": null
                    }],
                    "targets": [{
                        "targetType": "ORDER_SUBTOTAL",
                        "excludedVariantIds": null,
                        "id": null,
                        "quantity": null
                    }],
                    "value": {
                        "type": "PERCENTAGE",
                        "value": 50.0,
                        "appliesToEachItem": null
                    }
                },
                {
                    "message": "Spend $200 Get 20% off",
                    "conditions": [{
                        "targetType": "ORDER_SUBTOTAL",
                        "ids": null,
                        "excludedVariantIds": null,
                        "minimumAmount": 20000.0,
                        "minimumQuantity": null
                    }],
                    "targets": [{
                        "targetType": "ORDER_SUBTOTAL",
                        "excludedVariantIds": null,
                        "id": null,
                        "quantity": null
                    }],
                    "value": {
                        "type": "PERCENTAGE",
                        "value": 20.0,
                        "appliesToEachItem": null
                    }
                },
                {
                    "message": "Spend $100 Get 10% off",
                    "conditions": [{
                        "targetType": "ORDER_SUBTOTAL",
                        "ids": null,
                        "excludedVariantIds": null,
                        "minimumAmount": 10000.0,
                        "minimumQuantity": null
                    }],
                    "targets": [{
                        "targetType": "ORDER_SUBTOTAL",
                        "excludedVariantIds": null,
                        "id": null,
                        "quantity": null
                    }],
                    "value": {
                        "type": "PERCENTAGE",
                        "value": 10.0,
                        "appliesToEachItem": null
                    }
                }
            ],
            "discount_application_strategy": "first"
        }
    "#;
    assert_same_json(&out, expected_json);
}

#[test]
fn order_percentage_discount_with_default_value() {
    let out = run(
        Configuration::OrderPercentage { value: None, excluded_variant_gids: None },
        OutputShape::OrderFunction,
    );

    let expected_json = r#"
        {
            "discounts": [{
                "message": "50% off",
                "conditions": null,
                "targets": [{
                    "orderSubtotal": { "excludedVariantIds": [] },
                    "productVariant": null
                }],
                "value": {
                    "percentage": { "value": 50.0 },
                    "fixedAmount": null
                }
            }],
            "discountApplicationStrategy": "FIRST"
        }
    "#;
    assert_same_json(&out, expected_json);
}

#[test]
fn order_percentage_discount_with_value() {
    let out = run(
        Configuration::OrderPercentage {
            value: Some("10".to_string()),
            excluded_variant_gids: None,
        },
        OutputShape::OrderFunction,
    );

    let expected_json = r#"
        {
            "discounts": [{
                "message": "10% off",
                "conditions": null,
                "targets": [{
                    "orderSubtotal": { "excludedVariantIds": [] },
                    "productVariant": null
                }],
                "value": {
                    "percentage": { "value": 10.0 },
                    "fixedAmount": null
                }
            }],
            "discountApplicationStrategy": "FIRST"
        }
    "#;
    assert_same_json(&out, expected_json);
}

#[test]
fn order_percentage_discount_with_excluded_variant_gids() {
    let out = run(
        Configuration::OrderPercentage {
            value: None,
            excluded_variant_gids: Some(vec!["gid://shopify/ProductVariant/0".to_string()]),
        },
        OutputShape::OrderFunction,
    );

    let expected_json = r#"
        {
            "discounts": [{
                "message": "50% off",
                "conditions": null,
                "targets": [{
                    "orderSubtotal": { "excludedVariantIds": [0] },
                    "productVariant": null
                }],
                "value": {
                    "percentage": { "value": 50.0 },
                    "fixedAmount": null
                }
            }],
            "discountApplicationStrategy": "FIRST"
        }
    "#;
    assert_same_json(&out, expected_json);
}
