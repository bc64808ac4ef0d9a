use discounts::model::{Configuration, MerchandiseLine, OrderSnapshot, Payload};
use discounts::{render, script, OutputShape};

fn snapshot(variant_ids: Vec<u64>) -> OrderSnapshot {
    OrderSnapshot {
        merchandise_lines: variant_ids
            .into_iter()
            .map(|id| MerchandiseLine { variant_id: Some(id) })
            .collect(),
        delivery_lines: vec![],
    }
}

fn run(configuration: Configuration, variant_ids: Vec<u64>, shape: OutputShape) -> String {
    let payload = Payload { input: snapshot(variant_ids), configuration };
    let proposal = script(payload).unwrap();
    render(&proposal, shape).unwrap()
}

fn assert_same_json(actual: &str, expected: &str) {
    let a: serde_json::Value = serde_json::from_str(actual).unwrap();
    let e: serde_json::Value = serde_json::from_str(expected).unwrap();
    assert_eq!(a.to_string(), e.to_string());
}

#[test]
fn product_type_discount_with_default_value() {
    let out = run(
        Configuration::ProductPercentage { value: None, excluded_variant_gids: None },
        vec![0, 1],
        OutputShape::ProductMutation,
    );

    let expected_json = r#"
        {
            "discounts": [{
                "message": "50% off",
                "conditions": null,
                "targets": [
                    { "target_type": "product_variant", "id": 0, "quantity": null },
                    { "target_type": "product_variant", "id": 1, "quantity": null }
                ],
                "value": {
                    "type": "percentage",
                    "value": 50.0
                }
            }],
            "discount_application_strategy": "first"
        }
    "#;
    assert_same_json(&out, expected_json);
}

#[test]
fn product_type_discount_with_value() {
    let out = run(
        Configuration::ProductPercentage {
            value: Some("10".to_string()),
            excluded_variant_gids: None,
        },
        vec![0, 1],
        OutputShape::ProductMutation,
    );

    let expected_json = r#"
        {
            "discounts": [{
                "message": "10% off",
                "conditions": null,
                "targets": [
                    { "target_type": "product_variant", "id": 0, "quantity": null },
                    { "target_type": "product_variant", "id": 1, "quantity": null }
                ],
                "value": {
                    "type": "percentage",
                    "value": 10.0
                }
            }],
            "discount_application_strategy": "first"
        }
    "#;
    assert_same_json(&out, expected_json);
}

#[test]
fn product_type_discount_with_excluded_variant_gids() {
    let out = run(
        Configuration::ProductPercentage {
            value: None,
            excluded_variant_gids: Some(vec!["gid://shopify/ProductVariant/0".to_string()]),
        },
        vec![0, 1],
        OutputShape::ProductMutation,
    );

    let expected_json = r#"
        {
            "discounts": [{
                "message": "50% off",
                "conditions": null,
                "targets": [
                    { "target_type": "product_variant", "id": 1, "quantity": null }
                ],
                "value": {
                    "type": "percentage",
                    "value": 50.0
                }
            }],
            "discount_application_strategy": "first"
        }
    "#;
    assert_same_json(&out, expected_json);
}

#[test]
fn product_discount_with_default_value() {
    let out = run(
        Configuration::ProductPercentage { value: None, excluded_variant_gids: None },
        vec![0, 1],
        OutputShape::ProductFunction,
    );

    let expected_json = r#"
        {
            "discounts": [{
                "message": "50% off",
                "conditions": null,
                "targets": [
                    { "productVariant": { "id": 0, "quantity": null } },
                    { "productVariant": { "id": 1, "quantity": null } }
                ],
                "value": {
                    "percentage": { "value": 50.0 },
                    "fixedAmount": null
                }
            }],
            "discountApplicationStrategy": "FIRST"
        }
    "#;
    assert_same_json(&out, expected_json);
}

#[test]
fn product_discount_with_value() {
    let out = run(
        Configuration::ProductPercentage {
            value: Some("10".to_string()),
            excluded_variant_gids: None,
        },
        vec![0, 1],
        OutputShape::ProductFunction,
    );

    let expected_json = r#"
        {
            "discounts": [{
                "message": "10% off",
                "conditions": null,
                "targets": [
                    { "productVariant": { "id": 0, "quantity": null } },
                    { "productVariant": { "id": 1, "quantity": null } }
                ],
                "value": {
                    "percentage": { "value": 10.0 },
                    "fixedAmount": null
                }
            }],
            "discountApplicationStrategy": "FIRST"
        }
    "#;
    assert_same_json(&out, expected_json);
}

#[test]
fn product_discount_with_excluded_variant_gids() {
    let out = run(
        Configuration::ProductPercentage {
            value: None,
            excluded_variant_gids: Some(vec!["gid://shopify/ProductVariant/0".to_string()]),
        },
        vec![0, 1],
        OutputShape::ProductFunction,
    );

    let expected_json = r#"
        {
            "discounts": [{
                "message": "50% off",
                "conditions": null,
                "targets": [
                    { "productVariant": { "id": 1, "quantity": null } }
                ],
                "value": {
                    "percentage": { "value": 50.0 },
                    "fixedAmount": null
                }
            }],
            "discountApplicationStrategy": "FIRST"
        }
    "#;
    assert_same_json(&out, expected_json);
}

#[test]
fn bxgy_discount_with_default_value() {
    let out = run(
        Configuration::BuyXGetY {
            buy_variant_gids: vec![
                "gid://shopify/ProductVariant/1".to_string(),
                "gid://shopify/ProductVariant/2".to_string(),
            ],
            buy_quantity: None,
            get_variant_gid: "gid://shopify/ProductVariant/1".to_string(),
            get_quantity: None,
        },
        vec![0, 1, 2],
        OutputShape::BuyMutation,
    );

    let expected_json = r#"
        {
            "discounts": [{
                "message": "Buy 4 get 2",
                "conditions": [
                    { "targetType": "product_variant", "ids": [1, 2], "minimumAmount": null, "minimumQuantity": 4 }
                ],
                "targets": [
                    { "targetType": "product_variant", "id": 1, "quantity": 2 }
                ],
                "value": {
                    "type": "PERCENTAGE",
                    "value": 100.0,
                    "appliesToEachItem": null
                }
            }],
            "discount_application_strategy": "first"
        }
    "#;
    assert_same_json(&out, expected_json);
}

#[test]
fn bxgy_discount_with_value() {
    let out = run(
        Configuration::BuyXGetY {
            buy_variant_gids: vec![
                "gid://shopify/ProductVariant/1".to_string(),
                "gid://shopify/ProductVariant/2".to_string(),
                "gid://shopify/ProductVariant/3".to_string(),
            ],
            buy_quantity: Some(2),
            get_variant_gid: "gid://shopify/ProductVariant/2".to_string(),
            get_quantity: Some(1),
        },
        vec![0, 1, 2],
        OutputShape::BuyMutation,
    );

    let expected_json = r#"
        {
            "discounts": [{
                "message": "Buy 2 get 1",
                "conditions": [
                    { "targetType": "product_variant", "ids": [1, 2, 3], "minimumAmount": null, "minimumQuantity": 2 }
                ],
                "targets": [
                    { "targetType": "product_variant", "id": 2, "quantity": 1 }
                ],
                "value": {
                    "type": "PERCENTAGE",
                    "value": 100.0,
                    "appliesToEachItem": null
                }
            }],
            "discount_application_strategy": "first"
        }
    "#;
    assert_same_json(&out, expected_json);
}

#[test]
fn bxgy_discount_with_no_match_variants() {
    let out = run(
        Configuration::BuyXGetY {
            buy_variant_gids: vec!["gid://shopify/ProductVariant/1".to_string()],
            buy_quantity: Some(2),
            get_variant_gid: "gid://shopify/ProductVariant/5".to_string(),
            get_quantity: Some(1),
        },
        vec![0, 1, 2],
        OutputShape::BuyMutation,
    );

    let expected_json = r#"
        {
            "discounts": [{
                "message": "Buy 2 get 1",
                "conditions": [
                    { "targetType": "product_variant", "ids": [1], "minimumAmount": null, "minimumQuantity": 2 }
                ],
                "targets": [],
                "value": {
                    "type": "PERCENTAGE",
                    "value": 100.0,
                    "appliesToEachItem": null
                }
            }],
            "discount_application_strategy": "first"
        }
    "#;
    assert_same_json(&out, expected_json);
}
