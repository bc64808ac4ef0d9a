use discounts::model::{
    Configuration, DeliveryLine, MerchandiseLine, OrderSnapshot, Payload, Target,
};
use discounts::{fits_shape, render, script, EvalError, OutputShape};

fn product_snapshot(variant_ids: Vec<u64>) -> OrderSnapshot {
    OrderSnapshot {
        merchandise_lines: variant_ids
            .into_iter()
            .map(|id| MerchandiseLine { variant_id: Some(id) })
            .collect(),
        delivery_lines: vec![],
    }
}

#[test]
fn evaluation_is_idempotent_to_the_byte() {
    let make_payload = || Payload {
        input: product_snapshot(vec![3, 1, 4, 1, 5]),
        configuration: Configuration::ProductPercentage {
            value: Some("12.5".to_string()),
            excluded_variant_gids: Some(vec!["gid://shopify/ProductVariant/1".to_string()]),
        },
    };
    let first = render(&script(make_payload()).unwrap(), OutputShape::ProductFunction).unwrap();
    let second = render(&script(make_payload()).unwrap(), OutputShape::ProductFunction).unwrap();
    assert_eq!(first, second);
}

#[test]
fn excluded_variants_never_appear_in_targets() {
    let payload = Payload {
        input: product_snapshot(vec![7, 8, 7, 9]),
        configuration: Configuration::ProductPercentage {
            value: None,
            excluded_variant_gids: Some(vec![
                "gid://shopify/ProductVariant/7".to_string(),
                "gid://shopify/ProductVariant/9".to_string(),
            ]),
        },
    };
    let proposal = script(payload).unwrap();
    for target in &proposal.discounts[0].targets {
        match target {
            Target::ProductVariant(t) => {
                assert!(t.id != 7 && t.id != 9);
            }
            _ => panic!("unexpected target kind"),
        }
    }
}

#[test]
fn target_order_mirrors_line_order() {
    let payload = Payload {
        input: product_snapshot(vec![5, 3, 9, 3]),
        configuration: Configuration::ProductPercentage {
            value: None,
            excluded_variant_gids: Some(vec!["gid://shopify/ProductVariant/9".to_string()]),
        },
    };
    let proposal = script(payload).unwrap();
    let ids: Vec<u64> = proposal.discounts[0]
        .targets
        .iter()
        .map(|t| match t {
            Target::ProductVariant(t) => t.id,
            _ => panic!("unexpected target kind"),
        })
        .collect();
    assert_eq!(ids, vec![5, 3, 3]);
}

#[test]
fn empty_target_list_still_emits_the_discount() {
    let payload = Payload {
        input: product_snapshot(vec![1, 1]),
        configuration: Configuration::ProductPercentage {
            value: None,
            excluded_variant_gids: Some(vec!["gid://shopify/ProductVariant/1".to_string()]),
        },
    };
    let proposal = script(payload).unwrap();
    assert_eq!(proposal.discounts.len(), 1);
    assert!(proposal.discounts[0].targets.is_empty());
}

#[test]
fn non_numeric_value_is_an_invalid_configuration() {
    let payload = Payload {
        input: product_snapshot(vec![0]),
        configuration: Configuration::OrderPercentage {
            value: Some("half".to_string()),
            excluded_variant_gids: None,
        },
    };
    assert!(matches!(script(payload), Err(EvalError::InvalidConfiguration)));
}

#[test]
fn malformed_gid_is_a_malformed_identifier() {
    let payload = Payload {
        input: product_snapshot(vec![0]),
        configuration: Configuration::OrderFixedAmount {
            value: None,
            excluded_variant_gids: Some(vec!["gid://shopify/ProductVariant/x".to_string()]),
        },
    };
    assert!(matches!(script(payload), Err(EvalError::MalformedIdentifier)));
}

#[test]
fn tier_threshold_too_large_for_minor_units_is_invalid() {
    let payload = Payload {
        input: product_snapshot(vec![]),
        configuration: Configuration::OrderTiered {
            tiers: vec![discounts::model::Tier {
                amount: discounts::Decimal { neg: false, mant: u64::MAX, scale: 0 },
                percentage: discounts::Decimal::from_u64(10),
            }],
        },
    };
    assert!(matches!(script(payload), Err(EvalError::InvalidConfiguration)));
}

#[test]
fn fractional_value_flows_into_message_and_value() {
    let payload = Payload {
        input: product_snapshot(vec![0]),
        configuration: Configuration::ProductPercentage {
            value: Some("12.5".to_string()),
            excluded_variant_gids: None,
        },
    };
    let proposal = script(payload).unwrap();
    let out = render(&proposal, OutputShape::ProductFunction).unwrap();
    let v: serde_json::Value = serde_json::from_str(&out).unwrap();
    assert_eq!(v["discounts"][0]["message"], "12.5% off");
    assert_eq!(v["discounts"][0]["value"]["percentage"]["value"], 12.5);
}

#[test]
fn render_refuses_a_mismatched_shape() {
    let payload = Payload {
        input: OrderSnapshot {
            merchandise_lines: vec![],
            delivery_lines: vec![DeliveryLine { index: Some(0) }],
        },
        configuration: Configuration::ShippingPercentage { value: None },
    };
    let proposal = script(payload).unwrap();
    assert!(fits_shape(&proposal, OutputShape::ShippingFunction));
    assert!(!fits_shape(&proposal, OutputShape::OrderMutation));
    assert!(render(&proposal, OutputShape::OrderMutation).is_none());
}

#[test]
fn lines_without_a_variant_are_skipped() {
    let payload = Payload {
        input: OrderSnapshot {
            merchandise_lines: vec![
                MerchandiseLine { variant_id: Some(1) },
                MerchandiseLine { variant_id: None },
                MerchandiseLine { variant_id: Some(2) },
            ],
            delivery_lines: vec![],
        },
        configuration: Configuration::ProductPercentage {
            value: None,
            excluded_variant_gids: None,
        },
    };
    let proposal = script(payload).unwrap();
    assert_eq!(proposal.discounts[0].targets.len(), 2);
}
