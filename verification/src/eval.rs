use vstd::prelude::*;

use crate::errors::EvalError;
use crate::gid::spec_resolve;
use crate::model::{
    Condition, ConditionView, Configuration, ConfigurationView, DeliveryLine, Discount,
    DiscountApplicationStrategy, DiscountView, FixedAmount, MerchandiseLine, OrderMinimumSubtotal,
    OrderSubtotalTarget, OrderSubtotalTargetView, Payload, Percentage, ProductMinimumQuantity,
    ProductMinimumQuantityView, ProductVariantTarget, Proposal, ProposalView, ShippingLineTarget,
    Target, TargetView, Tier, Value,
};
use crate::num::{parse_decimal, spec_parse_decimal, spec_times_100, times_100, Decimal};
use crate::text::{dec_chars, push_decimal, push_u64, u64_digits};

verus! {

// ----------------------------------------------------------------------------
// Identifier lists
// ----------------------------------------------------------------------------

/// All identifiers resolved in order; nothing as soon as one is malformed.
pub open spec fn spec_resolve_all(gids: Seq<Seq<char>>) -> Option<Seq<u64>>
    decreases gids.len(),
{
    if gids.len() == 0 {
        Some(Seq::empty())
    } else {
        match (spec_resolve_all(gids.drop_last()), spec_resolve(gids.last())) {
            (Some(rest), Some(id)) => Some(rest.push(id)),
            _ => None,
        }
    }
}

proof fn lemma_resolve_all_fail(gids: Seq<Seq<char>>, i: int)
    requires
        0 <= i < gids.len(),
        spec_resolve(gids[i]) is None,
    ensures
        spec_resolve_all(gids) is None,
    decreases gids.len(),
{
    if i < gids.len() - 1 {
        lemma_resolve_all_fail(gids.drop_last(), i);
    }
}

/// Resolves a whole list of global identifiers, in order.
pub fn resolve_all(gids: &Vec<String>) -> (r: Result<Vec<u64>, EvalError>)
    ensures
        match r {
            Ok(ids) => spec_resolve_all(gids.deep_view()) == Some(ids@),
            Err(e) => spec_resolve_all(gids.deep_view()) is None && e
                == EvalError::MalformedIdentifier,
        },
{
    let n = gids.len();
    let mut ids: Vec<u64> = Vec::new();
    let mut i: usize = 0;
    while i < n
        invariant
            i <= n,
            n == gids@.len(),
            spec_resolve_all(gids.deep_view().take(i as int)) == Some(ids@),
        decreases n - i,
    {
        proof {
            assert(gids.deep_view()[i as int] == gids@[i as int]@);
        }
        match crate::gid::resolve(gids[i].as_str()) {
            Ok(id) => {
                ids.push(id);
                proof {
                    let dv = gids.deep_view();
                    assert(dv.take(i as int + 1).drop_last() =~= dv.take(i as int));
                    assert(dv.take(i as int + 1).last() == dv[i as int]);
                }
            },
            Err(e) => {
                proof {
                    lemma_resolve_all_fail(gids.deep_view(), i as int);
                }
                return Err(e);
            },
        }
        i = i + 1;
    }
    proof {
        assert(gids.deep_view().take(n as int) =~= gids.deep_view());
    }
    Ok(ids)
}

/// The exclusion list of a configuration; an absent list excludes nothing.
pub open spec fn opt_gids(excluded: Option<Seq<Seq<char>>>) -> Seq<Seq<char>> {
    match excluded {
        Some(g) => g,
        None => Seq::empty(),
    }
}

/// The configured value, or the variant's default when it is absent.
pub open spec fn spec_value_or(value: Option<Seq<char>>, dflt: u64) -> Option<Decimal> {
    match value {
        None => Some(Decimal::spec_from_u64(dflt)),
        Some(s) => spec_parse_decimal(s),
    }
}

// ----------------------------------------------------------------------------
// Messages
// ----------------------------------------------------------------------------

/// `$<value> off order subtotal`
pub open spec fn flat_amount_message(v: Decimal) -> Seq<char> {
    "$"@ + dec_chars(v) + " off order subtotal"@
}

/// `<value>% off`
pub open spec fn percent_off_message(v: Decimal) -> Seq<char> {
    dec_chars(v) + "% off"@
}

/// `<value>% off shipping`
pub open spec fn shipping_message(v: Decimal) -> Seq<char> {
    dec_chars(v) + "% off shipping"@
}

/// `Spend $<amount> Get <percentage>% off`
pub open spec fn tier_message(t: Tier) -> Seq<char> {
    "Spend $"@ + dec_chars(t.amount) + " Get "@ + dec_chars(t.percentage) + "% off"@
}

/// `Buy <buy_quantity> get <get_quantity>`
pub open spec fn bxgy_message(buy_x: u64, get_y: u64) -> Seq<char> {
    "Buy "@ + u64_digits(buy_x as nat) + " get "@ + u64_digits(get_y as nat)
}

fn build_flat_amount_message(v: &Decimal) -> (r: String)
    ensures
        r@ == flat_amount_message(*v),
{
    let mut s = String::new();
    s.append("$");
    push_decimal(&mut s, v);
    s.append(" off order subtotal");
    proof {
        assert(s@ =~= flat_amount_message(*v));
    }
    s
}

fn build_percent_off_message(v: &Decimal) -> (r: String)
    ensures
        r@ == percent_off_message(*v),
{
    let mut s = String::new();
    push_decimal(&mut s, v);
    s.append("% off");
    proof {
        assert(s@ =~= percent_off_message(*v));
    }
    s
}

fn build_shipping_message(v: &Decimal) -> (r: String)
    ensures
        r@ == shipping_message(*v),
{
    let mut s = String::new();
    push_decimal(&mut s, v);
    s.append("% off shipping");
    proof {
        assert(s@ =~= shipping_message(*v));
    }
    s
}

fn build_tier_message(t: &Tier) -> (r: String)
    ensures
        r@ == tier_message(*t),
{
    let mut s = String::new();
    s.append("Spend $");
    push_decimal(&mut s, &t.amount);
    s.append(" Get ");
    push_decimal(&mut s, &t.percentage);
    s.append("% off");
    proof {
        assert(s@ =~= tier_message(*t));
    }
    s
}

fn build_bxgy_message(buy_x: u64, get_y: u64) -> (r: String)
    ensures
        r@ == bxgy_message(buy_x, get_y),
{
    let mut s = String::new();
    s.append("Buy ");
    push_u64(&mut s, buy_x);
    s.append(" get ");
    push_u64(&mut s, get_y);
    proof {
        assert(s@ =~= bxgy_message(buy_x, get_y));
    }
    s
}

// ----------------------------------------------------------------------------
// The order-subtotal target
// ----------------------------------------------------------------------------

/// Builds the order-subtotal target of a flat order discount: the configured
/// exclusion list, each identifier resolved to its bare numeric form.
pub fn target(excluded_variant_gids: &Vec<String>) -> (r: Result<Target, EvalError>)
    ensures
        match r {
            Ok(t) => spec_resolve_all(excluded_variant_gids.deep_view()) is Some && t@
                == (TargetView::OrderSubtotal(OrderSubtotalTargetView {
                excluded_variant_ids: Some(
                    spec_resolve_all(excluded_variant_gids.deep_view()).unwrap(),
                ),
            })),
            Err(e) => spec_resolve_all(excluded_variant_gids.deep_view()) is None && e
                == EvalError::MalformedIdentifier,
        },
{
    let ids = match resolve_all(excluded_variant_gids) {
        Ok(ids) => ids,
        Err(e) => {
            return Err(e);
        },
    };
    Ok(Target::OrderSubtotal(OrderSubtotalTarget { excluded_variant_ids: Some(ids) }))
}

// ----------------------------------------------------------------------------
// Variant evaluators, specification level
// ----------------------------------------------------------------------------

/// The one discount of a flat order variant: the whole subtotal (minus the
/// exclusions) gets a fixed amount or a percentage off, unconditionally.
pub open spec fn spec_order_discount(fixed: bool, v: Decimal, ids: Seq<u64>) -> DiscountView {
    DiscountView {
        message: Some(
            if fixed {
                flat_amount_message(v)
            } else {
                percent_off_message(v)
            },
        ),
        conditions: None,
        targets: seq![
            TargetView::OrderSubtotal(OrderSubtotalTargetView { excluded_variant_ids: Some(ids) })
        ],
        value: if fixed {
            Value::FixedAmount(FixedAmount { value: v, applies_to_each_item: None })
        } else {
            Value::Percentage(Percentage { value: v })
        },
    }
}

/// A flat discount off the order subtotal; `fixed` selects a fixed amount
/// (default 5) over a percentage (default 50).
pub open spec fn spec_order_flat(
    fixed: bool,
    value: Option<Seq<char>>,
    excluded: Option<Seq<Seq<char>>>,
) -> Result<ProposalView, EvalError> {
    match spec_value_or(
        value,
        if fixed {
            5
        } else {
            50
        },
    ) {
        None => Err(EvalError::InvalidConfiguration),
        Some(v) => match spec_resolve_all(opt_gids(excluded)) {
            None => Err(EvalError::MalformedIdentifier),
            Some(ids) => Ok(
                ProposalView {
                    discounts: seq![spec_order_discount(fixed, v, ids)],
                    discount_application_strategy: DiscountApplicationStrategy::First,
                },
            ),
        },
    }
}

/// The discount of one spend tier: subtotal at or above `amount` in minor
/// units (`cents` is the amount times one hundred) gets `percentage` off.
pub open spec fn spec_tier_discount(t: Tier, cents: Decimal) -> DiscountView {
    DiscountView {
        message: Some(tier_message(t)),
        conditions: Some(
            seq![
                ConditionView::OrderMinimumSubtotal(OrderMinimumSubtotal { minimum_amount: cents })
            ],
        ),
        targets: seq![
            TargetView::OrderSubtotal(OrderSubtotalTargetView { excluded_variant_ids: None })
        ],
        value: Value::Percentage(Percentage { value: t.percentage }),
    }
}

/// One discount per tier, in configuration order — no sorting, no
/// deduplication; nothing when some tier's threshold does not fit in minor
/// units.
pub open spec fn spec_tier_discounts(tiers: Seq<Tier>) -> Option<Seq<DiscountView>>
    decreases tiers.len(),
{
    if tiers.len() == 0 {
        Some(Seq::empty())
    } else {
        match (spec_tier_discounts(tiers.drop_last()), spec_times_100(tiers.last().amount)) {
            (Some(rest), Some(cents)) => Some(rest.push(spec_tier_discount(tiers.last(), cents))),
            _ => None,
        }
    }
}

pub open spec fn spec_order_tiered(tiers: Seq<Tier>) -> Result<ProposalView, EvalError> {
    match spec_tier_discounts(tiers) {
        None => Err(EvalError::InvalidConfiguration),
        Some(ds) => Ok(
            ProposalView {
                discounts: ds,
                discount_application_strategy: DiscountApplicationStrategy::First,
            },
        ),
    }
}

/// One target per merchandise line whose variant is not excluded, in line
/// order and without a quantity cap.
pub open spec fn spec_product_targets(
    lines: Seq<MerchandiseLine>,
    excluded: Seq<u64>,
) -> Seq<TargetView>
    decreases lines.len(),
{
    if lines.len() == 0 {
        Seq::empty()
    } else {
        let rest = spec_product_targets(lines.drop_last(), excluded);
        match lines.last().variant_id {
            Some(id) => if !excluded.contains(id) {
                rest.push(TargetView::ProductVariant(ProductVariantTarget { id, quantity: None }))
            } else {
                rest
            },
            None => rest,
        }
    }
}

/// A percentage (default 50) off every product line not excluded. The one
/// discount is emitted even when every line is excluded and no target is left.
pub open spec fn spec_product_percentage(
    value: Option<Seq<char>>,
    excluded: Option<Seq<Seq<char>>>,
    lines: Seq<MerchandiseLine>,
) -> Result<ProposalView, EvalError> {
    match spec_value_or(value, 50) {
        None => Err(EvalError::InvalidConfiguration),
        Some(v) => match spec_resolve_all(opt_gids(excluded)) {
            None => Err(EvalError::MalformedIdentifier),
            Some(ids) => Ok(
                ProposalView {
                    discounts: seq![
                        DiscountView {
                            message: Some(percent_off_message(v)),
                            conditions: None,
                            targets: spec_product_targets(lines, ids),
                            value: Value::Percentage(Percentage { value: v }),
                        }
                    ],
                    discount_application_strategy: DiscountApplicationStrategy::First,
                },
            ),
        },
    }
}

/// One target per merchandise line matching the get variant, in line order,
/// each capped at the configured get quantity.
pub open spec fn spec_bxgy_targets(
    lines: Seq<MerchandiseLine>,
    get_id: u64,
    get_y: u64,
) -> Seq<TargetView>
    decreases lines.len(),
{
    if lines.len() == 0 {
        Seq::empty()
    } else {
        let rest = spec_bxgy_targets(lines.drop_last(), get_id, get_y);
        if lines.last().variant_id == Some(get_id) {
            rest.push(
                TargetView::ProductVariant(
                    ProductVariantTarget { id: get_id, quantity: Some(get_y) },
                ),
            )
        } else {
            rest
        }
    }
}

/// Buy `buy_x` (default 4) across the buy variants, get `get_y` (default 2)
/// of the get variant free: one discount whose single condition carries the
/// buy variants and quantity, targeting every line of the get variant. The
/// discount and its condition are emitted even when no line matches.
pub open spec fn spec_buy_x_get_y(
    buy_gids: Seq<Seq<char>>,
    buy_quantity: Option<u64>,
    get_gid: Seq<char>,
    get_quantity: Option<u64>,
    lines: Seq<MerchandiseLine>,
) -> Result<ProposalView, EvalError> {
    match spec_resolve_all(buy_gids) {
        None => Err(EvalError::MalformedIdentifier),
        Some(buy_ids) => match spec_resolve(get_gid) {
            None => Err(EvalError::MalformedIdentifier),
            Some(get_id) => {
                let buy_x = match buy_quantity {
                    Some(q) => q,
                    None => 4u64,
                };
                let get_y = match get_quantity {
                    Some(q) => q,
                    None => 2u64,
                };
                Ok(
                    ProposalView {
                        discounts: seq![
                            DiscountView {
                                message: Some(bxgy_message(buy_x, get_y)),
                                conditions: Some(
                                    seq![
                                        ConditionView::ProductMinimumQuantity(
                                            ProductMinimumQuantityView {
                                                ids: buy_ids,
                                                minimum_quantity: buy_x,
                                            },
                                        )
                                    ],
                                ),
                                targets: spec_bxgy_targets(lines, get_id, get_y),
                                value: Value::Percentage(
                                    Percentage { value: Decimal::spec_from_u64(100) },
                                ),
                            }
                        ],
                        discount_application_strategy: DiscountApplicationStrategy::First,
                    },
                )
            },
        },
    }
}

/// One target per delivery leg that carries an index, in line order.
pub open spec fn spec_shipping_targets(lines: Seq<DeliveryLine>) -> Seq<TargetView>
    decreases lines.len(),
{
    if lines.len() == 0 {
        Seq::empty()
    } else {
        let rest = spec_shipping_targets(lines.drop_last());
        match lines.last().index {
            Some(ix) => rest.push(TargetView::ShippingLine(ShippingLineTarget { index: ix })),
            None => rest,
        }
    }
}

/// A percentage (default 20) off every targetable delivery leg.
pub open spec fn spec_shipping_percentage(
    value: Option<Seq<char>>,
    lines: Seq<DeliveryLine>,
) -> Result<ProposalView, EvalError> {
    match spec_value_or(value, 20) {
        None => Err(EvalError::InvalidConfiguration),
        Some(v) => Ok(
            ProposalView {
                discounts: seq![
                    DiscountView {
                        message: Some(shipping_message(v)),
                        conditions: None,
                        targets: spec_shipping_targets(lines),
                        value: Value::Percentage(Percentage { value: v }),
                    }
                ],
                discount_application_strategy: DiscountApplicationStrategy::First,
            },
        ),
    }
}

/// What one evaluation produces: the configured variant's discounts with
/// strategy `First`, or the first error the input forces.
pub open spec fn spec_script(input: crate::model::OrderSnapshotView, config: ConfigurationView) -> Result<
    ProposalView,
    EvalError,
> {
    match config {
        ConfigurationView::OrderFixedAmount { value, excluded_variant_gids } => spec_order_flat(
            true,
            value,
            excluded_variant_gids,
        ),
        ConfigurationView::OrderPercentage { value, excluded_variant_gids } => spec_order_flat(
            false,
            value,
            excluded_variant_gids,
        ),
        ConfigurationView::OrderTiered { tiers } => spec_order_tiered(tiers),
        ConfigurationView::ProductPercentage { value, excluded_variant_gids } => (
        spec_product_percentage(value, excluded_variant_gids, input.merchandise_lines)),
        ConfigurationView::BuyXGetY {
            buy_variant_gids,
            buy_quantity,
            get_variant_gid,
            get_quantity,
        } => spec_buy_x_get_y(
            buy_variant_gids,
            buy_quantity,
            get_variant_gid,
            get_quantity,
            input.merchandise_lines,
        ),
        ConfigurationView::ShippingPercentage { value } => spec_shipping_percentage(
            value,
            input.delivery_lines,
        ),
    }
}

// ----------------------------------------------------------------------------
// Variant evaluators, executable
// ----------------------------------------------------------------------------

fn parse_value_or(value: &Option<String>, dflt: u64) -> (r: Result<Decimal, EvalError>)
    ensures
        match r {
            Ok(v) => spec_value_or(value.deep_view(), dflt) == Some(v),
            Err(e) => spec_value_or(value.deep_view(), dflt) is None && e
                == EvalError::InvalidConfiguration,
        },
{
    match value {
        Some(s) => parse_decimal(s.as_str()),
        None => Ok(Decimal::from_u64(dflt)),
    }
}

fn order_flat(fixed: bool, value: &Option<String>, excluded: &Option<Vec<String>>) -> (r: Result<
    Proposal,
    EvalError,
>)
    ensures
        ({
            let s = spec_order_flat(fixed, value.deep_view(), excluded.deep_view());
            match r {
                Ok(p) => s is Ok && p@ == s->Ok_0,
                Err(e) => s is Err && e == s->Err_0,
            }
        }),
{
    let v = match parse_value_or(
        value,
        if fixed {
            5
        } else {
            50
        },
    ) {
        Ok(v) => v,
        Err(e) => {
            return Err(e);
        },
    };
    let ghost gids = opt_gids(excluded.deep_view());
    let t = match excluded {
        Some(g) => {
            proof {
                assert(gids == g.deep_view());
            }
            match target(g) {
                Ok(t) => t,
                Err(e) => {
                    return Err(e);
                },
            }
        },
        None => {
            let empty_ids: Vec<u64> = Vec::new();
            proof {
                assert(gids =~= Seq::<Seq<char>>::empty());
                assert(empty_ids.deep_view() =~= Seq::<u64>::empty());
            }
            Target::OrderSubtotal(OrderSubtotalTarget { excluded_variant_ids: Some(empty_ids) })
        },
    };
    let ghost ids = spec_resolve_all(gids).unwrap();
    let ghost tv = t@;
    proof {
        assert(tv == (TargetView::OrderSubtotal(OrderSubtotalTargetView {
            excluded_variant_ids: Some(ids),
        })));
    }
    let message = if fixed {
        build_flat_amount_message(&v)
    } else {
        build_percent_off_message(&v)
    };
    let val = if fixed {
        Value::FixedAmount(FixedAmount { value: v, applies_to_each_item: None })
    } else {
        Value::Percentage(Percentage { value: v })
    };
    let mut targets: Vec<Target> = Vec::new();
    targets.push(t);
    let mut discounts: Vec<Discount> = Vec::new();
    discounts.push(Discount { message: Some(message), conditions: None, targets, value: val });
    let p = Proposal {
        discounts,
        discount_application_strategy: DiscountApplicationStrategy::First,
    };
    proof {
        let s = spec_order_flat(fixed, value.deep_view(), excluded.deep_view());
        assert(p@.discounts[0].targets =~= seq![tv]);
        assert(p@.discounts[0] == spec_order_discount(fixed, v, ids));
        assert(p@.discounts =~= seq![spec_order_discount(fixed, v, ids)]);
        assert(p@ == s->Ok_0);
    }
    Ok(p)
}

proof fn lemma_tier_discounts_fail(tiers: Seq<Tier>, i: int)
    requires
        0 <= i < tiers.len(),
        spec_times_100(tiers[i].amount) is None,
    ensures
        spec_tier_discounts(tiers) is None,
    decreases tiers.len(),
{
    if i < tiers.len() - 1 {
        lemma_tier_discounts_fail(tiers.drop_last(), i);
    }
}

fn order_tiered(tiers: &Vec<Tier>) -> (r: Result<Proposal, EvalError>)
    ensures
        ({
            let s = spec_order_tiered(tiers@);
            match r {
                Ok(p) => s is Ok && p@ == s->Ok_0,
                Err(e) => s is Err && e == s->Err_0,
            }
        }),
{
    let n = tiers.len();
    let mut discounts: Vec<Discount> = Vec::new();
    let mut i: usize = 0;
    while i < n
        invariant
            i <= n,
            n == tiers@.len(),
            spec_tier_discounts(tiers@.take(i as int)) == Some(
                discounts@.map_values(|d: Discount| d@),
            ),
        decreases n - i,
    {
        let ghost prev = discounts@.map_values(|d: Discount| d@);
        proof {
            assert(tiers@.take(i as int + 1).drop_last() =~= tiers@.take(i as int));
            assert(tiers@.take(i as int + 1).last() == tiers@[i as int]);
        }
        let t = tiers[i];
        let cents = match times_100(&t.amount) {
            Some(c) => c,
            None => {
                proof {
                    lemma_tier_discounts_fail(tiers@, i as int);
                }
                return Err(EvalError::InvalidConfiguration);
            },
        };
        let message = build_tier_message(&t);
        let mut conds: Vec<Condition> = Vec::new();
        conds.push(Condition::OrderMinimumSubtotal(OrderMinimumSubtotal { minimum_amount: cents }));
        let mut targets: Vec<Target> = Vec::new();
        targets.push(Target::OrderSubtotal(OrderSubtotalTarget { excluded_variant_ids: None }));
        let d = Discount {
            message: Some(message),
            conditions: Some(conds),
            targets,
            value: Value::Percentage(Percentage { value: t.percentage }),
        };
        proof {
            assert(d@.conditions.unwrap() =~= seq![
                ConditionView::OrderMinimumSubtotal(OrderMinimumSubtotal { minimum_amount: cents })
            ]);
            assert(d@.targets =~= seq![
                TargetView::OrderSubtotal(OrderSubtotalTargetView { excluded_variant_ids: None })
            ]);
            assert(d@ == spec_tier_discount(t, cents));
        }
        discounts.push(d);
        proof {
            assert(discounts@.map_values(|x: Discount| x@) =~= prev.push(
                spec_tier_discount(t, cents),
            ));
        }
        i = i + 1;
    }
    proof {
        assert(tiers@.take(n as int) =~= tiers@);
    }
    let p = Proposal {
        discounts,
        discount_application_strategy: DiscountApplicationStrategy::First,
    };
    Ok(p)
}

fn contains_u64(ids: &Vec<u64>, x: u64) -> (b: bool)
    ensures
        b == ids@.contains(x),
{
    let n = ids.len();
    let mut i: usize = 0;
    while i < n
        invariant
            i <= n,
            n == ids@.len(),
            forall|j: int| 0 <= j < i ==> ids@[j] != x,
        decreases n - i,
    {
        if ids[i] == x {
            return true;
        }
        i = i + 1;
    }
    proof {
        assert(!ids@.contains(x));
    }
    false
}

fn product_percentage(
    value: &Option<String>,
    excluded: &Option<Vec<String>>,
    lines: &Vec<MerchandiseLine>,
) -> (r: Result<Proposal, EvalError>)
    ensures
        ({
            let s = spec_product_percentage(value.deep_view(), excluded.deep_view(), lines@);
            match r {
                Ok(p) => s is Ok && p@ == s->Ok_0,
                Err(e) => s is Err && e == s->Err_0,
            }
        }),
{
    let v = match parse_value_or(value, 50) {
        Ok(v) => v,
        Err(e) => {
            return Err(e);
        },
    };
    let ghost gids = opt_gids(excluded.deep_view());
    let ids: Vec<u64> = match excluded {
        Some(g) => {
            proof {
                assert(gids == g.deep_view());
            }
            match resolve_all(g) {
                Ok(ids) => ids,
                Err(e) => {
                    return Err(e);
                },
            }
        },
        None => {
            let empty_ids: Vec<u64> = Vec::new();
            proof {
                assert(gids =~= Seq::<Seq<char>>::empty());
                assert(empty_ids@ =~= Seq::<u64>::empty());
            }
            empty_ids
        },
    };
    let n = lines.len();
    let mut targets: Vec<Target> = Vec::new();
    let mut i: usize = 0;
    while i < n
        invariant
            i <= n,
            n == lines@.len(),
            spec_resolve_all(gids) == Some(ids@),
            targets@.map_values(|t: Target| t@) == spec_product_targets(
                lines@.take(i as int),
                ids@,
            ),
        decreases n - i,
    {
        let ghost prev = targets@.map_values(|t: Target| t@);
        proof {
            assert(lines@.take(i as int + 1).drop_last() =~= lines@.take(i as int));
            assert(lines@.take(i as int + 1).last() == lines@[i as int]);
        }
        let line = lines[i];
        match line.variant_id {
            Some(id) => {
                if !contains_u64(&ids, id) {
                    targets.push(
                        Target::ProductVariant(ProductVariantTarget { id, quantity: None }),
                    );
                    proof {
                        assert(targets@.map_values(|t: Target| t@) =~= prev.push(
                            TargetView::ProductVariant(
                                ProductVariantTarget { id, quantity: None },
                            ),
                        ));
                    }
                }
            },
            None => {},
        }
        i = i + 1;
    }
    proof {
        assert(lines@.take(n as int) =~= lines@);
    }
    let message = build_percent_off_message(&v);
    let ghost tvs = targets@.map_values(|t: Target| t@);
    let d = Discount {
        message: Some(message),
        conditions: None,
        targets,
        value: Value::Percentage(Percentage { value: v }),
    };
    let mut discounts: Vec<Discount> = Vec::new();
    discounts.push(d);
    let p = Proposal {
        discounts,
        discount_application_strategy: DiscountApplicationStrategy::First,
    };
    proof {
        let s = spec_product_percentage(value.deep_view(), excluded.deep_view(), lines@);
        assert(p@.discounts =~= seq![p@.discounts[0]]);
        assert(p@.discounts[0] == s->Ok_0.discounts[0]);
        assert(p@.discounts =~= s->Ok_0.discounts);
        assert(p@ == s->Ok_0);
    }
    Ok(p)
}

fn buy_x_get_y(
    buy_variant_gids: &Vec<String>,
    buy_quantity: &Option<u64>,
    get_variant_gid: &String,
    get_quantity: &Option<u64>,
    lines: &Vec<MerchandiseLine>,
) -> (r: Result<Proposal, EvalError>)
    ensures
        ({
            let s = spec_buy_x_get_y(
                buy_variant_gids.deep_view(),
                *buy_quantity,
                get_variant_gid@,
                *get_quantity,
                lines@,
            );
            match r {
                Ok(p) => s is Ok && p@ == s->Ok_0,
                Err(e) => s is Err && e == s->Err_0,
            }
        }),
{
    let buy_ids = match resolve_all(buy_variant_gids) {
        Ok(x) => x,
        Err(e) => {
            return Err(e);
        },
    };
    let get_id = match crate::gid::resolve(get_variant_gid.as_str()) {
        Ok(x) => x,
        Err(e) => {
            return Err(e);
        },
    };
    let buy_x = match buy_quantity {
        Some(q) => *q,
        None => 4,
    };
    let get_y = match get_quantity {
        Some(q) => *q,
        None => 2,
    };
    let n = lines.len();
    let mut targets: Vec<Target> = Vec::new();
    let mut i: usize = 0;
    while i < n
        invariant
            i <= n,
            n == lines@.len(),
            targets@.map_values(|t: Target| t@) == spec_bxgy_targets(
                lines@.take(i as int),
                get_id,
                get_y,
            ),
        decreases n - i,
    {
        let ghost prev = targets@.map_values(|t: Target| t@);
        proof {
            assert(lines@.take(i as int + 1).drop_last() =~= lines@.take(i as int));
            assert(lines@.take(i as int + 1).last() == lines@[i as int]);
        }
        let line = lines[i];
        match line.variant_id {
            Some(id) => {
                if id == get_id {
                    targets.push(
                        Target::ProductVariant(
                            ProductVariantTarget { id: get_id, quantity: Some(get_y) },
                        ),
                    );
                    proof {
                        assert(targets@.map_values(|t: Target| t@) =~= prev.push(
                            TargetView::ProductVariant(
                                ProductVariantTarget { id: get_id, quantity: Some(get_y) },
                            ),
                        ));
                    }
                }
            },
            None => {},
        }
        i = i + 1;
    }
    proof {
        assert(lines@.take(n as int) =~= lines@);
    }
    let message = build_bxgy_message(buy_x, get_y);
    let mut conds: Vec<Condition> = Vec::new();
    conds.push(
        Condition::ProductMinimumQuantity(
            ProductMinimumQuantity { ids: buy_ids, minimum_quantity: buy_x },
        ),
    );
    let d = Discount {
        message: Some(message),
        conditions: Some(conds),
        targets,
        value: Value::Percentage(Percentage { value: Decimal::from_u64(100) }),
    };
    proof {
        let s = spec_buy_x_get_y(
            buy_variant_gids.deep_view(),
            *buy_quantity,
            get_variant_gid@,
            *get_quantity,
            lines@,
        );
        assert(d@.conditions.unwrap() =~= s->Ok_0.discounts[0].conditions.unwrap());
        assert(d@ == s->Ok_0.discounts[0]);
    }
    let mut discounts: Vec<Discount> = Vec::new();
    discounts.push(d);
    let p = Proposal {
        discounts,
        discount_application_strategy: DiscountApplicationStrategy::First,
    };
    proof {
        let s = spec_buy_x_get_y(
            buy_variant_gids.deep_view(),
            *buy_quantity,
            get_variant_gid@,
            *get_quantity,
            lines@,
        );
        assert(p@.discounts =~= s->Ok_0.discounts);
        assert(p@ == s->Ok_0);
    }
    Ok(p)
}

fn shipping_percentage(value: &Option<String>, lines: &Vec<DeliveryLine>) -> (r: Result<
    Proposal,
    EvalError,
>)
    ensures
        ({
            let s = spec_shipping_percentage(value.deep_view(), lines@);
            match r {
                Ok(p) => s is Ok && p@ == s->Ok_0,
                Err(e) => s is Err && e == s->Err_0,
            }
        }),
{
    let v = match parse_value_or(value, 20) {
        Ok(v) => v,
        Err(e) => {
            return Err(e);
        },
    };
    let n = lines.len();
    let mut targets: Vec<Target> = Vec::new();
    let mut i: usize = 0;
    while i < n
        invariant
            i <= n,
            n == lines@.len(),
            targets@.map_values(|t: Target| t@) == spec_shipping_targets(lines@.take(i as int)),
        decreases n - i,
    {
        let ghost prev = targets@.map_values(|t: Target| t@);
        proof {
            assert(lines@.take(i as int + 1).drop_last() =~= lines@.take(i as int));
            assert(lines@.take(i as int + 1).last() == lines@[i as int]);
        }
        let line = lines[i];
        match line.index {
            Some(ix) => {
                targets.push(Target::ShippingLine(ShippingLineTarget { index: ix }));
                proof {
                    assert(targets@.map_values(|t: Target| t@) =~= prev.push(
                        TargetView::ShippingLine(ShippingLineTarget { index: ix }),
                    ));
                }
            },
            None => {},
        }
        i = i + 1;
    }
    proof {
        assert(lines@.take(n as int) =~= lines@);
    }
    let message = build_shipping_message(&v);
    let d = Discount {
        message: Some(message),
        conditions: None,
        targets,
        value: Value::Percentage(Percentage { value: v }),
    };
    let mut discounts: Vec<Discount> = Vec::new();
    discounts.push(d);
    let p = Proposal {
        discounts,
        discount_application_strategy: DiscountApplicationStrategy::First,
    };
    proof {
        let s = spec_shipping_percentage(value.deep_view(), lines@);
        assert(p@.discounts =~= s->Ok_0.discounts);
        assert(p@ == s->Ok_0);
    }
    Ok(p)
}

/// Evaluates one request: dispatches on the configured variant and returns its
/// discount proposal, or the first error the input forces. This is the whole
/// engine; it is a pure function of its payload.
pub fn script(payload: Payload) -> (r: Result<Proposal, EvalError>)
    ensures
        ({
            let s = spec_script(payload@.input, payload@.configuration);
            match r {
                Ok(p) => s is Ok && p@ == s->Ok_0,
                Err(e) => s is Err && e == s->Err_0,
            }
        }),
{
    match &payload.configuration {
        Configuration::OrderFixedAmount { value, excluded_variant_gids } => order_flat(
            true,
            value,
            excluded_variant_gids,
        ),
        Configuration::OrderPercentage { value, excluded_variant_gids } => order_flat(
            false,
            value,
            excluded_variant_gids,
        ),
        Configuration::OrderTiered { tiers } => order_tiered(tiers),
        Configuration::ProductPercentage { value, excluded_variant_gids } => product_percentage(
            value,
            excluded_variant_gids,
            &payload.input.merchandise_lines,
        ),
        Configuration::BuyXGetY {
            buy_variant_gids,
            buy_quantity,
            get_variant_gid,
            get_quantity,
        } => buy_x_get_y(
            buy_variant_gids,
            buy_quantity,
            get_variant_gid,
            get_quantity,
            &payload.input.merchandise_lines,
        ),
        Configuration::ShippingPercentage { value } => shipping_percentage(
            value,
            &payload.input.delivery_lines,
        ),
    }
}

} // verus!
