//! The engine-wide laws: properties that hold of every evaluation, stated over
//! the specification functions the evaluators are proved against.

use vstd::prelude::*;

use crate::errors::EvalError;
use crate::eval::{
    flat_amount_message, percent_off_message, shipping_message, spec_bxgy_targets,
    spec_order_flat, spec_product_percentage, spec_product_targets, spec_script,
    spec_shipping_percentage, spec_shipping_targets, spec_tier_discount, spec_tier_discounts,
};
use crate::model::{
    ConfigurationView, DeliveryLine, FixedAmount, MerchandiseLine, OrderSnapshotView, Percentage,
    ProductVariantTarget, ProposalView, ShippingLineTarget, TargetView, Tier, Value,
};
use crate::num::{spec_times_100, Decimal};
use crate::render::{discount_fits, proposal_json, shape_fits, OutputShape};

verus! {

/// Law: a product-lines evaluation never targets an excluded variant — every
/// target is a product-variant target whose id lies outside the exclusion set.
pub proof fn lemma_no_excluded_targets(lines: Seq<MerchandiseLine>, excluded: Seq<u64>)
    ensures
        forall|i: int|
            0 <= i < spec_product_targets(lines, excluded).len() ==> ((
            #[trigger] spec_product_targets(lines, excluded)[i]) matches
            TargetView::ProductVariant(t) && !excluded.contains(t.id)),
    decreases lines.len(),
{
    if lines.len() > 0 {
        lemma_no_excluded_targets(lines.drop_last(), excluded);
    }
}

/// The variant ids of the lines a product-lines evaluation keeps, in line
/// order: lines with a variant that is not excluded.
pub open spec fn eligible_ids(lines: Seq<MerchandiseLine>, excluded: Seq<u64>) -> Seq<u64>
    decreases lines.len(),
{
    if lines.len() == 0 {
        Seq::empty()
    } else {
        let rest = eligible_ids(lines.drop_last(), excluded);
        match lines.last().variant_id {
            Some(id) => if !excluded.contains(id) {
                rest.push(id)
            } else {
                rest
            },
            None => rest,
        }
    }
}

/// Law: product targets come in exactly the order of the matching lines — the
/// target sequence is the eligible line ids, in input order, each wrapped as
/// an uncapped product-variant target.
pub proof fn lemma_product_targets_in_line_order(lines: Seq<MerchandiseLine>, excluded: Seq<u64>)
    ensures
        spec_product_targets(lines, excluded) == eligible_ids(lines, excluded).map_values(
            |id: u64| TargetView::ProductVariant(ProductVariantTarget { id, quantity: None }),
        ),
    decreases lines.len(),
{
    let f = |id: u64| TargetView::ProductVariant(ProductVariantTarget { id, quantity: None });
    if lines.len() == 0 {
        assert(spec_product_targets(lines, excluded) =~= eligible_ids(lines, excluded).map_values(
            f,
        ));
    } else {
        lemma_product_targets_in_line_order(lines.drop_last(), excluded);
        assert(spec_product_targets(lines, excluded) =~= eligible_ids(lines, excluded).map_values(
            f,
        ));
    }
}

/// The indices of the delivery legs a shipping evaluation targets, in line
/// order: every leg that carries an index.
pub open spec fn targetable_indices(lines: Seq<DeliveryLine>) -> Seq<u64>
    decreases lines.len(),
{
    if lines.len() == 0 {
        Seq::empty()
    } else {
        let rest = targetable_indices(lines.drop_last());
        match lines.last().index {
            Some(ix) => rest.push(ix),
            None => rest,
        }
    }
}

/// Law: shipping targets come in exactly the order of the targetable delivery
/// legs.
pub proof fn lemma_shipping_targets_in_line_order(lines: Seq<DeliveryLine>)
    ensures
        spec_shipping_targets(lines) == targetable_indices(lines).map_values(
            |ix: u64| TargetView::ShippingLine(ShippingLineTarget { index: ix }),
        ),
    decreases lines.len(),
{
    let f = |ix: u64| TargetView::ShippingLine(ShippingLineTarget { index: ix });
    if lines.len() == 0 {
        assert(spec_shipping_targets(lines) =~= targetable_indices(lines).map_values(f));
    } else {
        lemma_shipping_targets_in_line_order(lines.drop_last());
        assert(spec_shipping_targets(lines) =~= targetable_indices(lines).map_values(f));
    }
}

/// Law: tier discounts come one per tier, in configuration order; the discount
/// of tier `i` gates on that tier's threshold times one hundred and values
/// that tier's percentage.
pub proof fn lemma_tier_order(tiers: Seq<Tier>)
    requires
        spec_tier_discounts(tiers) is Some,
    ensures
        spec_tier_discounts(tiers).unwrap().len() == tiers.len(),
        forall|i: int| 0 <= i < tiers.len() ==> spec_times_100(#[trigger] tiers[i].amount) is Some,
        forall|i: int|
            0 <= i < tiers.len() ==> #[trigger] spec_tier_discounts(tiers).unwrap()[i]
                == spec_tier_discount(tiers[i], spec_times_100(tiers[i].amount).unwrap()),
    decreases tiers.len(),
{
    if tiers.len() > 0 {
        lemma_tier_order(tiers.drop_last());
        assert forall|i: int| 0 <= i < tiers.len() implies spec_times_100(
            #[trigger] tiers[i].amount,
        ) is Some by {
            if i < tiers.len() - 1 {
                assert(tiers.drop_last()[i] == tiers[i]);
            }
        }
        assert forall|i: int| 0 <= i < tiers.len() implies #[trigger] spec_tier_discounts(
            tiers,
        ).unwrap()[i] == spec_tier_discount(
            tiers[i],
            spec_times_100(tiers[i].amount).unwrap(),
        ) by {
            if i < tiers.len() - 1 {
                assert(tiers.drop_last()[i] == tiers[i]);
                assert(spec_tier_discounts(tiers.drop_last()).unwrap()[i] == spec_tier_discounts(
                    tiers,
                ).unwrap()[i]);
            }
        }
    }
}

/// Law: omitted values fall back to the documented defaults — 5 for the fixed
/// order amount, 50 for the order and product percentages, 20 for shipping —
/// and the message quotes exactly the defaulted value.
pub proof fn lemma_default_values(
    excluded: Option<Seq<Seq<char>>>,
    mlines: Seq<MerchandiseLine>,
    dlines: Seq<DeliveryLine>,
)
    ensures
        spec_order_flat(true, None, excluded) matches Ok(p) ==> p.discounts[0].value == (
        Value::FixedAmount(
            FixedAmount { value: Decimal::spec_from_u64(5), applies_to_each_item: None },
        )) && p.discounts[0].message == Some("$5 off order subtotal"@),
        spec_order_flat(false, None, excluded) matches Ok(p) ==> p.discounts[0].value == (
        Value::Percentage(Percentage { value: Decimal::spec_from_u64(50) })) && p.discounts[0].message
            == Some("50% off"@),
        spec_product_percentage(None, excluded, mlines) matches Ok(p) ==> p.discounts[0].value == (
        Value::Percentage(Percentage { value: Decimal::spec_from_u64(50) })) && p.discounts[0].message
            == Some("50% off"@),
        spec_shipping_percentage(None, dlines) matches Ok(p) ==> p.discounts[0].value == (
        Value::Percentage(Percentage { value: Decimal::spec_from_u64(20) })) && p.discounts[0].message
            == Some("20% off shipping"@),
{
    reveal_strlit("$");
    reveal_strlit(" off order subtotal");
    reveal_strlit("$5 off order subtotal");
    reveal_strlit("% off");
    reveal_strlit("50% off");
    reveal_strlit("% off shipping");
    reveal_strlit("20% off shipping");
    assert(crate::text::u64_digits(5) =~= seq!['5']);
    assert(crate::text::u64_digits(5) =~= crate::text::u64_digits(50nat / 10));
    assert(crate::text::u64_digits(50) =~= seq!['5', '0']);
    assert(crate::text::u64_digits(2) =~= seq!['2']);
    assert(crate::text::u64_digits(2) =~= crate::text::u64_digits(20nat / 10));
    assert(crate::text::u64_digits(20) =~= seq!['2', '0']);
    assert(flat_amount_message(Decimal::spec_from_u64(5)) =~= "$5 off order subtotal"@);
    assert(percent_off_message(Decimal::spec_from_u64(50)) =~= "50% off"@);
    assert(shipping_message(Decimal::spec_from_u64(20)) =~= "20% off shipping"@);
}

proof fn lemma_bxgy_targets_kind(lines: Seq<MerchandiseLine>, get_id: u64, get_y: u64)
    ensures
        forall|i: int|
            0 <= i < spec_bxgy_targets(lines, get_id, get_y).len() ==> (#[trigger] spec_bxgy_targets(
                lines,
                get_id,
                get_y,
            )[i]) matches TargetView::ProductVariant(_),
    decreases lines.len(),
{
    if lines.len() > 0 {
        lemma_bxgy_targets_kind(lines.drop_last(), get_id, get_y);
    }
}

/// Law: the proposal an evaluation produces always has an encoding in the
/// envelope shape of its configuration variant — rendering never fails on the
/// engine's own output.
pub proof fn lemma_script_output_renderable(input: OrderSnapshotView, config: ConfigurationView)
    ensures
        spec_script(input, config) matches Ok(p) ==> {
            &&& config is OrderFixedAmount ==> shape_fits(p, OutputShape::OrderMutation)
            &&& config is OrderPercentage ==> shape_fits(p, OutputShape::OrderFunction)
            &&& config is OrderTiered ==> shape_fits(p, OutputShape::OrderMutation)
            &&& config is ProductPercentage ==> shape_fits(p, OutputShape::ProductMutation)
                && shape_fits(p, OutputShape::ProductFunction)
            &&& config is BuyXGetY ==> shape_fits(p, OutputShape::BuyMutation)
            &&& config is ShippingPercentage ==> shape_fits(p, OutputShape::ShippingFunction)
        },
{
    let s = spec_script(input, config);
    if s is Ok {
        let p = s.unwrap();
        match config {
            ConfigurationView::OrderFixedAmount { .. } => {
                assert(shape_fits(p, OutputShape::OrderMutation));
            },
            ConfigurationView::OrderPercentage { .. } => {
                assert(shape_fits(p, OutputShape::OrderFunction));
            },
            ConfigurationView::OrderTiered { tiers } => {
                lemma_tier_order(tiers);
                assert forall|i: int| 0 <= i < p.discounts.len() implies discount_fits(
                    #[trigger] p.discounts[i],
                    OutputShape::OrderMutation,
                ) by {
                    assert(p.discounts[i] == spec_tier_discount(
                        tiers[i],
                        spec_times_100(tiers[i].amount).unwrap(),
                    ));
                }
            },
            ConfigurationView::ProductPercentage { value, excluded_variant_gids } => {
                let ids = crate::eval::spec_resolve_all(
                    crate::eval::opt_gids(excluded_variant_gids),
                ).unwrap();
                lemma_no_excluded_targets(input.merchandise_lines, ids);
                assert(shape_fits(p, OutputShape::ProductMutation));
                assert(shape_fits(p, OutputShape::ProductFunction));
            },
            ConfigurationView::BuyXGetY {
                buy_variant_gids,
                buy_quantity,
                get_variant_gid,
                get_quantity,
            } => {
                let get_id = crate::gid::spec_resolve(get_variant_gid).unwrap();
                let get_y = match get_quantity {
                    Some(q) => q,
                    None => 2u64,
                };
                lemma_bxgy_targets_kind(input.merchandise_lines, get_id, get_y);
                assert(shape_fits(p, OutputShape::BuyMutation));
            },
            ConfigurationView::ShippingPercentage { .. } => {
                lemma_shipping_targets_in_line_order(input.delivery_lines);
                let f = |ix: u64| TargetView::ShippingLine(ShippingLineTarget { index: ix });
                let tgts = spec_shipping_targets(input.delivery_lines);
                assert forall|i: int| 0 <= i < tgts.len() implies (#[trigger] tgts[i]) matches
                    TargetView::ShippingLine(_) by {
                    assert(tgts[i] == targetable_indices(input.delivery_lines).map_values(f)[i]);
                }
                assert(shape_fits(p, OutputShape::ShippingFunction));
            },
        }
    }
}

/// Law: the serialized proposal is a function of the payload and the envelope
/// shape alone: evaluating and serializing the same input twice yields
/// byte-identical text.
pub proof fn lemma_output_deterministic(
    input: OrderSnapshotView,
    config: ConfigurationView,
    shape: OutputShape,
    s1: Seq<char>,
    s2: Seq<char>,
)
    requires
        spec_script(input, config) matches Ok(p1) && s1 == proposal_json(p1, shape),
        spec_script(input, config) matches Ok(p2) && s2 == proposal_json(p2, shape),
    ensures
        s1 == s2,
{
}

/// Law: evaluation is a pure function of the order snapshot and configuration.
/// Any two results that meet the evaluator's contract on the same input are
/// the same, so evaluating twice yields identical proposals.
pub proof fn lemma_evaluation_deterministic(
    input: OrderSnapshotView,
    config: ConfigurationView,
    r1: Result<ProposalView, EvalError>,
    r2: Result<ProposalView, EvalError>,
)
    requires
        r1 == spec_script(input, config),
        r2 == spec_script(input, config),
    ensures
        r1 == r2,
{
}

} // verus!
