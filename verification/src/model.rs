use vstd::prelude::*;

use crate::num::Decimal;

verus! {

// ----------------------------------------------------------------------------
// The order snapshot: the read-only input an evaluation works on.
// ----------------------------------------------------------------------------

/// One line item of the order, referencing a product variant when it has one.
#[derive(Clone, Copy, Debug)]
pub struct MerchandiseLine {
    pub variant_id: Option<u64>,
}

/// One delivery leg of the order; only legs that carry an index can be
/// targeted by a shipping discount.
#[derive(Clone, Copy, Debug)]
pub struct DeliveryLine {
    pub index: Option<u64>,
}

/// The read-only snapshot of the order under evaluation.
#[derive(Clone, Debug)]
pub struct OrderSnapshot {
    pub merchandise_lines: Vec<MerchandiseLine>,
    pub delivery_lines: Vec<DeliveryLine>,
}

#[verifier::ext_equal]
pub struct OrderSnapshotView {
    pub merchandise_lines: Seq<MerchandiseLine>,
    pub delivery_lines: Seq<DeliveryLine>,
}

impl View for OrderSnapshot {
    type V = OrderSnapshotView;

    open spec fn view(&self) -> OrderSnapshotView {
        OrderSnapshotView {
            merchandise_lines: self.merchandise_lines@,
            delivery_lines: self.delivery_lines@,
        }
    }
}

// ----------------------------------------------------------------------------
// The merchant configuration: one variant per discount strategy.
// ----------------------------------------------------------------------------

/// One spend tier of a tiered order discount: spend at least `amount` (in
/// major units) to get `percentage` off.
#[derive(Clone, Copy, Debug, PartialEq, Eq, Structural)]
pub struct Tier {
    pub amount: Decimal,
    pub percentage: Decimal,
}

/// The merchant-supplied configuration. Numeric fields arrive as strings and
/// are parsed during evaluation; absent fields take the variant's documented
/// default.
#[derive(Clone, Debug)]
pub enum Configuration {
    /// A fixed amount off the order subtotal (default 5).
    OrderFixedAmount { value: Option<String>, excluded_variant_gids: Option<Vec<String>> },
    /// A percentage off the order subtotal (default 50).
    OrderPercentage { value: Option<String>, excluded_variant_gids: Option<Vec<String>> },
    /// One discount per spend tier, in configuration order.
    OrderTiered { tiers: Vec<Tier> },
    /// A percentage off every product line not excluded (default 50).
    ProductPercentage { value: Option<String>, excluded_variant_gids: Option<Vec<String>> },
    /// Buy `buy_quantity` (default 4) of the buy variants, get `get_quantity`
    /// (default 2) of the get variant free.
    BuyXGetY {
        buy_variant_gids: Vec<String>,
        buy_quantity: Option<u64>,
        get_variant_gid: String,
        get_quantity: Option<u64>,
    },
    /// A percentage off every targetable delivery leg (default 20).
    ShippingPercentage { value: Option<String> },
}

#[verifier::ext_equal]
pub enum ConfigurationView {
    OrderFixedAmount { value: Option<Seq<char>>, excluded_variant_gids: Option<Seq<Seq<char>>> },
    OrderPercentage { value: Option<Seq<char>>, excluded_variant_gids: Option<Seq<Seq<char>>> },
    OrderTiered { tiers: Seq<Tier> },
    ProductPercentage { value: Option<Seq<char>>, excluded_variant_gids: Option<Seq<Seq<char>>> },
    BuyXGetY {
        buy_variant_gids: Seq<Seq<char>>,
        buy_quantity: Option<u64>,
        get_variant_gid: Seq<char>,
        get_quantity: Option<u64>,
    },
    ShippingPercentage { value: Option<Seq<char>> },
}

impl View for Configuration {
    type V = ConfigurationView;

    open spec fn view(&self) -> ConfigurationView {
        match self {
            Configuration::OrderFixedAmount { value, excluded_variant_gids } => (
            ConfigurationView::OrderFixedAmount {
                value: value.deep_view(),
                excluded_variant_gids: excluded_variant_gids.deep_view(),
            }),
            Configuration::OrderPercentage { value, excluded_variant_gids } => (
            ConfigurationView::OrderPercentage {
                value: value.deep_view(),
                excluded_variant_gids: excluded_variant_gids.deep_view(),
            }),
            Configuration::OrderTiered { tiers } => (ConfigurationView::OrderTiered {
                tiers: tiers@,
            }),
            Configuration::ProductPercentage { value, excluded_variant_gids } => (
            ConfigurationView::ProductPercentage {
                value: value.deep_view(),
                excluded_variant_gids: excluded_variant_gids.deep_view(),
            }),
            Configuration::BuyXGetY {
                buy_variant_gids,
                buy_quantity,
                get_variant_gid,
                get_quantity,
            } => (ConfigurationView::BuyXGetY {
                buy_variant_gids: buy_variant_gids.deep_view(),
                buy_quantity: *buy_quantity,
                get_variant_gid: get_variant_gid@,
                get_quantity: *get_quantity,
            }),
            Configuration::ShippingPercentage { value } => (ConfigurationView::ShippingPercentage {
                value: value.deep_view(),
            }),
        }
    }
}

/// The whole input of one evaluation: the order snapshot and the configuration.
#[derive(Clone, Debug)]
pub struct Payload {
    pub input: OrderSnapshot,
    pub configuration: Configuration,
}

#[verifier::ext_equal]
pub struct PayloadView {
    pub input: OrderSnapshotView,
    pub configuration: ConfigurationView,
}

impl View for Payload {
    type V = PayloadView;

    open spec fn view(&self) -> PayloadView {
        PayloadView { input: self.input@, configuration: self.configuration@ }
    }
}

// ----------------------------------------------------------------------------
// The discount proposal: the canonical output of one evaluation.
// ----------------------------------------------------------------------------

/// How the consumer should apply a multi-discount proposal. The engine always
/// emits `First`.
#[derive(Clone, Copy, Debug, PartialEq, Eq, Structural)]
pub enum DiscountApplicationStrategy {
    First,
    Maximum,
}

/// The kind of entity a target or a condition refers to.
#[derive(Clone, Copy, Debug, PartialEq, Eq, Structural)]
pub enum TargetType {
    OrderSubtotal,
    ProductVariant,
    ShippingLine,
}

/// A discount on the order subtotal, minus the excluded variants when an
/// exclusion list is present.
#[derive(Clone, Debug)]
pub struct OrderSubtotalTarget {
    pub excluded_variant_ids: Option<Vec<u64>>,
}

#[verifier::ext_equal]
pub struct OrderSubtotalTargetView {
    pub excluded_variant_ids: Option<Seq<u64>>,
}

impl View for OrderSubtotalTarget {
    type V = OrderSubtotalTargetView;

    open spec fn view(&self) -> OrderSubtotalTargetView {
        OrderSubtotalTargetView { excluded_variant_ids: self.excluded_variant_ids.deep_view() }
    }
}

/// A discount on one product variant, capped at `quantity` units when a cap
/// is present.
#[derive(Clone, Copy, Debug)]
pub struct ProductVariantTarget {
    pub id: u64,
    pub quantity: Option<u64>,
}

/// A discount on the delivery leg at `index`.
#[derive(Clone, Copy, Debug)]
pub struct ShippingLineTarget {
    pub index: u64,
}

/// One concrete entity a discount applies to.
#[derive(Clone, Debug)]
pub enum Target {
    OrderSubtotal(OrderSubtotalTarget),
    ProductVariant(ProductVariantTarget),
    ShippingLine(ShippingLineTarget),
}

#[verifier::ext_equal]
pub enum TargetView {
    OrderSubtotal(OrderSubtotalTargetView),
    ProductVariant(ProductVariantTarget),
    ShippingLine(ShippingLineTarget),
}

impl Target {
    /// The kind of entity this target refers to.
    pub fn target_type(&self) -> (t: TargetType)
        ensures
            t == (match self@ {
                TargetView::OrderSubtotal(_) => TargetType::OrderSubtotal,
                TargetView::ProductVariant(_) => TargetType::ProductVariant,
                TargetView::ShippingLine(_) => TargetType::ShippingLine,
            }),
    {
        match self {
            Target::OrderSubtotal(_) => TargetType::OrderSubtotal,
            Target::ProductVariant(_) => TargetType::ProductVariant,
            Target::ShippingLine(_) => TargetType::ShippingLine,
        }
    }
}

impl View for Target {
    type V = TargetView;

    open spec fn view(&self) -> TargetView {
        match self {
            Target::OrderSubtotal(t) => TargetView::OrderSubtotal(t@),
            Target::ProductVariant(t) => TargetView::ProductVariant(*t),
            Target::ShippingLine(t) => TargetView::ShippingLine(*t),
        }
    }
}

/// A gate requiring at least `minimum_quantity` units across the product
/// variants in `ids`.
#[derive(Clone, Debug)]
pub struct ProductMinimumQuantity {
    pub ids: Vec<u64>,
    pub minimum_quantity: u64,
}

#[verifier::ext_equal]
pub struct ProductMinimumQuantityView {
    pub ids: Seq<u64>,
    pub minimum_quantity: u64,
}

impl View for ProductMinimumQuantity {
    type V = ProductMinimumQuantityView;

    open spec fn view(&self) -> ProductMinimumQuantityView {
        ProductMinimumQuantityView { ids: self.ids@, minimum_quantity: self.minimum_quantity }
    }
}

/// A gate requiring the order subtotal to reach `minimum_amount`, stated in
/// minor currency units.
#[derive(Clone, Copy, Debug, PartialEq, Eq, Structural)]
pub struct OrderMinimumSubtotal {
    pub minimum_amount: Decimal,
}

/// One gate that must hold for a discount to apply.
#[derive(Clone, Debug)]
pub enum Condition {
    ProductMinimumQuantity(ProductMinimumQuantity),
    OrderMinimumSubtotal(OrderMinimumSubtotal),
}

#[verifier::ext_equal]
pub enum ConditionView {
    ProductMinimumQuantity(ProductMinimumQuantityView),
    OrderMinimumSubtotal(OrderMinimumSubtotal),
}

impl View for Condition {
    type V = ConditionView;

    open spec fn view(&self) -> ConditionView {
        match self {
            Condition::ProductMinimumQuantity(c) => ConditionView::ProductMinimumQuantity(c@),
            Condition::OrderMinimumSubtotal(c) => ConditionView::OrderMinimumSubtotal(*c),
        }
    }
}

/// A fixed amount off, optionally applied to each item rather than once.
#[derive(Clone, Copy, Debug, PartialEq, Eq, Structural)]
pub struct FixedAmount {
    pub value: Decimal,
    pub applies_to_each_item: Option<bool>,
}

/// A percentage off.
#[derive(Clone, Copy, Debug, PartialEq, Eq, Structural)]
pub struct Percentage {
    pub value: Decimal,
}

/// The value of a discount: exactly one of a fixed amount or a percentage.
#[derive(Clone, Copy, Debug, PartialEq, Eq, Structural)]
pub enum Value {
    FixedAmount(FixedAmount),
    Percentage(Percentage),
}

/// One discount of a proposal.
#[derive(Clone, Debug)]
pub struct Discount {
    pub message: Option<String>,
    pub conditions: Option<Vec<Condition>>,
    pub targets: Vec<Target>,
    pub value: Value,
}

#[verifier::ext_equal]
pub struct DiscountView {
    pub message: Option<Seq<char>>,
    pub conditions: Option<Seq<ConditionView>>,
    pub targets: Seq<TargetView>,
    pub value: Value,
}

impl View for Discount {
    type V = DiscountView;

    open spec fn view(&self) -> DiscountView {
        DiscountView {
            message: self.message.deep_view(),
            conditions: match &self.conditions {
                Some(cs) => Some(cs@.map_values(|c: Condition| c@)),
                None => None,
            },
            targets: self.targets@.map_values(|t: Target| t@),
            value: self.value,
        }
    }
}

/// The engine's output: the discounts in evaluation order plus the strategy
/// the consumer should apply them with.
#[derive(Clone, Debug)]
pub struct Proposal {
    pub discounts: Vec<Discount>,
    pub discount_application_strategy: DiscountApplicationStrategy,
}

#[verifier::ext_equal]
pub struct ProposalView {
    pub discounts: Seq<DiscountView>,
    pub discount_application_strategy: DiscountApplicationStrategy,
}

impl View for Proposal {
    type V = ProposalView;

    open spec fn view(&self) -> ProposalView {
        ProposalView {
            discounts: self.discounts@.map_values(|d: Discount| d@),
            discount_application_strategy: self.discount_application_strategy,
        }
    }
}

} // verus!
