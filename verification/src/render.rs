//! Serialization of a discount proposal to the JSON envelope a consumer
//! expects. The same canonical proposal is written in one of several envelope
//! shapes; each shape fixes the key spelling, the enum tokens, and which
//! target kinds it can carry.

use vstd::prelude::*;

use crate::model::{
    Condition, ConditionView, Discount, DiscountApplicationStrategy, DiscountView, Proposal,
    ProposalView, Target, TargetView, Value,
};
use crate::text::{dec_json_chars, digit_char, digit_str, push_char, push_decimal_json, u64_digits};

verus! {

/// The hexadecimal digit character for `d`, lower case.
pub open spec fn hex_char(d: nat) -> char
    recommends
        d < 16,
{
    if d < 10 {
        digit_char(d)
    } else if d == 10 {
        'a'
    } else if d == 11 {
        'b'
    } else if d == 12 {
        'c'
    } else if d == 13 {
        'd'
    } else if d == 14 {
        'e'
    } else {
        'f'
    }
}

/// How one character stands inside a JSON string literal: the two quotable
/// characters and the short control escapes by name, the other control
/// characters in `\u00..` form, everything else as itself.
pub open spec fn json_escape_char(c: char) -> Seq<char> {
    if c == '"' {
        seq!['\\', '"']
    } else if c == '\\' {
        seq!['\\', '\\']
    } else if c == '\u{8}' {
        seq!['\\', 'b']
    } else if c == '\t' {
        seq!['\\', 't']
    } else if c == '\n' {
        seq!['\\', 'n']
    } else if c == '\u{c}' {
        seq!['\\', 'f']
    } else if c == '\r' {
        seq!['\\', 'r']
    } else if (c as u32) < 32 {
        seq!['\\', 'u', '0', '0', hex_char((c as u32 / 16) as nat), hex_char(
            (c as u32 % 16) as nat,
        )]
    } else {
        seq![c]
    }
}

pub open spec fn json_escaped(s: Seq<char>) -> Seq<char>
    decreases s.len(),
{
    if s.len() == 0 {
        Seq::empty()
    } else {
        json_escaped(s.drop_last()) + json_escape_char(s.last())
    }
}

/// A JSON string literal: quoted, with the characters escaped.
pub open spec fn json_string(s: Seq<char>) -> Seq<char> {
    seq!['"'] + json_escaped(s) + seq!['"']
}

fn hex_str(d: u64) -> (r: &'static str)
    requires
        d < 16,
    ensures
        r@ == seq![hex_char(d as nat)],
{
    if d < 10 {
        digit_str(d)
    } else if d == 10 {
        proof {
            reveal_strlit("a");
            assert("a"@ =~= seq![hex_char(10)]);
        }
        "a"
    } else if d == 11 {
        proof {
            reveal_strlit("b");
            assert("b"@ =~= seq![hex_char(11)]);
        }
        "b"
    } else if d == 12 {
        proof {
            reveal_strlit("c");
            assert("c"@ =~= seq![hex_char(12)]);
        }
        "c"
    } else if d == 13 {
        proof {
            reveal_strlit("d");
            assert("d"@ =~= seq![hex_char(13)]);
        }
        "d"
    } else if d == 14 {
        proof {
            reveal_strlit("e");
            assert("e"@ =~= seq![hex_char(14)]);
        }
        "e"
    } else {
        proof {
            reveal_strlit("f");
            assert("f"@ =~= seq![hex_char(15)]);
        }
        "f"
    }
}

fn push_json_escape(out: &mut String, c: char)
    ensures
        final(out)@ == old(out)@ + json_escape_char(c),
{
    if c == '"' {
        proof {
            reveal_strlit("\\\"");
            assert("\\\""@ =~= seq!['\\', '"']);
        }
        out.append("\\\"");
    } else if c == '\\' {
        proof {
            reveal_strlit("\\\\");
            assert("\\\\"@ =~= seq!['\\', '\\']);
        }
        out.append("\\\\");
    } else if c == '\u{8}' {
        proof {
            reveal_strlit("\\b");
            assert("\\b"@ =~= seq!['\\', 'b']);
        }
        out.append("\\b");
    } else if c == '\t' {
        proof {
            reveal_strlit("\\t");
            assert("\\t"@ =~= seq!['\\', 't']);
        }
        out.append("\\t");
    } else if c == '\n' {
        proof {
            reveal_strlit("\\n");
            assert("\\n"@ =~= seq!['\\', 'n']);
        }
        out.append("\\n");
    } else if c == '\u{c}' {
        proof {
            reveal_strlit("\\f");
            assert("\\f"@ =~= seq!['\\', 'f']);
        }
        out.append("\\f");
    } else if c == '\r' {
        proof {
            reveal_strlit("\\r");
            assert("\\r"@ =~= seq!['\\', 'r']);
        }
        out.append("\\r");
    } else if (c as u32) < 32 {
        proof {
            reveal_strlit("\\u00");
            assert("\\u00"@ =~= seq!['\\', 'u', '0', '0']);
        }
        out.append("\\u00");
        let code = c as u32;
        out.append(hex_str((code / 16) as u64));
        out.append(hex_str((code % 16) as u64));
        proof {
            assert(out@ =~= old(out)@ + json_escape_char(c));
        }
    } else {
        push_char(out, c);
    }
}

/// Appends `s` as a JSON string literal.
fn push_json_string(out: &mut String, s: &str)
    ensures
        final(out)@ == old(out)@ + json_string(s@),
{
    let ghost pre = out@;
    proof {
        reveal_strlit("\"");
        assert("\""@ =~= seq!['"']);
    }
    out.append("\"");
    let n = s.unicode_len();
    let mut i: usize = 0;
    while i < n
        invariant
            i <= n,
            n == s@.len(),
            out@ == pre + seq!['"'] + json_escaped(s@.take(i as int)),
        decreases n - i,
    {
        let c = s.get_char(i);
        push_json_escape(out, c);
        i = i + 1;
        proof {
            assert(s@.take(i as int).drop_last() =~= s@.take(i as int - 1));
            assert(s@.take(i as int).last() == s@[i as int - 1]);
            assert(out@ =~= pre + seq!['"'] + json_escaped(s@.take(i as int)));
        }
    }
    proof {
        reveal_strlit("\"");
        assert("\""@ =~= seq!['"']);
        assert(s@.take(n as int) =~= s@);
    }
    out.append("\"");
    proof {
        assert(out@ =~= pre + json_string(s@));
    }
}

/// The items of a JSON array of whole numbers, comma separated.
pub open spec fn json_u64_items(ids: Seq<u64>) -> Seq<char>
    decreases ids.len(),
{
    if ids.len() == 0 {
        Seq::empty()
    } else if ids.len() == 1 {
        u64_digits(ids[0] as nat)
    } else {
        json_u64_items(ids.drop_last()) + seq![','] + u64_digits(ids.last() as nat)
    }
}

/// A JSON array of whole numbers.
pub open spec fn json_u64_array(ids: Seq<u64>) -> Seq<char> {
    seq!['['] + json_u64_items(ids) + seq![']']
}

/// Appends a JSON array of whole numbers.
fn push_u64_array(out: &mut String, ids: &Vec<u64>)
    ensures
        final(out)@ == old(out)@ + json_u64_array(ids@),
{
    let ghost pre = out@;
    proof {
        reveal_strlit("[");
        assert("["@ =~= seq!['[']);
    }
    out.append("[");
    let n = ids.len();
    let mut i: usize = 0;
    while i < n
        invariant
            i <= n,
            n == ids@.len(),
            out@ == pre + seq!['['] + json_u64_items(ids@.take(i as int)),
        decreases n - i,
    {
        if i > 0 {
            proof {
                reveal_strlit(",");
                assert(","@ =~= seq![',']);
            }
            out.append(",");
        }
        crate::text::push_u64(out, ids[i]);
        i = i + 1;
        proof {
            assert(ids@.take(i as int).drop_last() =~= ids@.take(i as int - 1));
            assert(ids@.take(i as int).last() == ids@[i as int - 1]);
            assert(out@ =~= pre + seq!['['] + json_u64_items(ids@.take(i as int)));
        }
    }
    proof {
        reveal_strlit("]");
        assert("]"@ =~= seq![']']);
        assert(ids@.take(n as int) =~= ids@);
    }
    out.append("]");
    proof {
        assert(out@ =~= pre + json_u64_array(ids@));
    }
}

// ----------------------------------------------------------------------------
// Envelope shapes
// ----------------------------------------------------------------------------

/// The JSON envelope a proposal is written in. The mutation shapes use a
/// snake_case strategy key with lower-case tokens and flat target and
/// condition objects; the function shapes use a camelCase strategy key with
/// upper-case tokens and one nested object per target kind.
#[derive(Clone, Copy, Debug, PartialEq, Eq, Structural)]
pub enum OutputShape {
    /// Flat order discounts: an order-subtotal target with the exclusions
    /// inline, value types in upper case.
    OrderMutation,
    /// Product-lines discounts with `target_type` keys and lower-case value
    /// types.
    ProductMutation,
    /// Buy-x-get-y discounts: product-variant targets and conditions with
    /// `targetType` keys.
    BuyMutation,
    /// Order discounts with nested `orderSubtotal` targets.
    OrderFunction,
    /// Product-lines discounts with nested `productVariant` targets.
    ProductFunction,
    /// Shipping discounts with nested `shippingLine` targets.
    ShippingFunction,
}

pub open spec fn is_mutation(shape: OutputShape) -> bool {
    match shape {
        OutputShape::OrderMutation => true,
        OutputShape::ProductMutation => true,
        OutputShape::BuyMutation => true,
        OutputShape::OrderFunction => false,
        OutputShape::ProductFunction => false,
        OutputShape::ShippingFunction => false,
    }
}

pub open spec fn json_opt_u64(q: Option<u64>) -> Seq<char> {
    match q {
        None => "null"@,
        Some(x) => u64_digits(x as nat),
    }
}

pub open spec fn json_opt_bool(b: Option<bool>) -> Seq<char> {
    match b {
        None => "null"@,
        Some(x) => if x {
            "true"@
        } else {
            "false"@
        },
    }
}

pub open spec fn json_opt_u64_array(e: Option<Seq<u64>>) -> Seq<char> {
    match e {
        None => "null"@,
        Some(ids) => json_u64_array(ids),
    }
}

// ----------------------------------------------------------------------------
// What fits where
// ----------------------------------------------------------------------------

/// Whether envelope `shape` has an encoding for target `t`.
pub open spec fn target_fits(t: TargetView, shape: OutputShape) -> bool {
    match shape {
        OutputShape::OrderMutation => t matches TargetView::OrderSubtotal(_),
        OutputShape::ProductMutation => t matches TargetView::ProductVariant(_),
        OutputShape::BuyMutation => t matches TargetView::ProductVariant(_),
        OutputShape::OrderFunction => t matches TargetView::OrderSubtotal(x)
            && x.excluded_variant_ids is Some,
        OutputShape::ProductFunction => t matches TargetView::ProductVariant(_),
        OutputShape::ShippingFunction => t matches TargetView::ShippingLine(_),
    }
}

/// Whether envelope `shape` has an encoding for condition `c`.
pub open spec fn condition_fits(c: ConditionView, shape: OutputShape) -> bool {
    match shape {
        OutputShape::OrderMutation => c matches ConditionView::OrderMinimumSubtotal(_),
        OutputShape::BuyMutation => c matches ConditionView::ProductMinimumQuantity(_),
        _ => false,
    }
}

pub open spec fn discount_fits(d: DiscountView, shape: OutputShape) -> bool {
    &&& forall|i: int| 0 <= i < d.targets.len() ==> target_fits(#[trigger] d.targets[i], shape)
    &&& match d.conditions {
        None => true,
        Some(cs) => forall|i: int| 0 <= i < cs.len() ==> condition_fits(#[trigger] cs[i], shape),
    }
}

/// Whether every discount of `p` can be carried by envelope `shape`.
pub open spec fn shape_fits(p: ProposalView, shape: OutputShape) -> bool {
    forall|i: int| 0 <= i < p.discounts.len() ==> discount_fits(#[trigger] p.discounts[i], shape)
}

// ----------------------------------------------------------------------------
// The envelope text, specification level
// ----------------------------------------------------------------------------

/// How one target stands in envelope `shape`. A target the shape cannot carry
/// renders as nothing; `shape_fits` rules those out before rendering.
pub open spec fn target_json(t: TargetView, shape: OutputShape) -> Seq<char> {
    match shape {
        OutputShape::OrderMutation => match t {
            TargetView::OrderSubtotal(x) => (
            "{\"targetType\":\"ORDER_SUBTOTAL\",\"excludedVariantIds\":"@ + json_opt_u64_array(
                x.excluded_variant_ids,
            ) + ",\"id\":null,\"quantity\":null}"@),
            _ => Seq::empty(),
        },
        OutputShape::ProductMutation => match t {
            TargetView::ProductVariant(x) => ("{\"target_type\":\"product_variant\",\"id\":"@
                + u64_digits(x.id as nat) + ",\"quantity\":"@ + json_opt_u64(x.quantity) + "}"@),
            _ => Seq::empty(),
        },
        OutputShape::BuyMutation => match t {
            TargetView::ProductVariant(x) => ("{\"targetType\":\"product_variant\",\"id\":"@
                + u64_digits(x.id as nat) + ",\"quantity\":"@ + json_opt_u64(x.quantity) + "}"@),
            _ => Seq::empty(),
        },
        OutputShape::OrderFunction => match t {
            TargetView::OrderSubtotal(x) => match x.excluded_variant_ids {
                Some(ids) => ("{\"orderSubtotal\":{\"excludedVariantIds\":"@ + json_u64_array(ids)
                    + "},\"productVariant\":null}"@),
                None => Seq::empty(),
            },
            _ => Seq::empty(),
        },
        OutputShape::ProductFunction => match t {
            TargetView::ProductVariant(x) => ("{\"productVariant\":{\"id\":"@ + u64_digits(
                x.id as nat,
            ) + ",\"quantity\":"@ + json_opt_u64(x.quantity) + "}}"@),
            _ => Seq::empty(),
        },
        OutputShape::ShippingFunction => match t {
            TargetView::ShippingLine(x) => ("{\"shippingLine\":{\"index\":"@ + u64_digits(
                x.index as nat,
            ) + "}}"@),
            _ => Seq::empty(),
        },
    }
}

/// How one condition stands in envelope `shape`.
pub open spec fn condition_json(c: ConditionView, shape: OutputShape) -> Seq<char> {
    match shape {
        OutputShape::OrderMutation => match c {
            ConditionView::OrderMinimumSubtotal(x) => (
            "{\"targetType\":\"ORDER_SUBTOTAL\",\"ids\":null,\"excludedVariantIds\":null,\"minimumAmount\":"@
                + dec_json_chars(x.minimum_amount) + ",\"minimumQuantity\":null}"@),
            _ => Seq::empty(),
        },
        OutputShape::BuyMutation => match c {
            ConditionView::ProductMinimumQuantity(x) => (
            "{\"targetType\":\"product_variant\",\"ids\":"@ + json_u64_array(x.ids)
                + ",\"minimumAmount\":null,\"minimumQuantity\":"@ + u64_digits(
                x.minimum_quantity as nat,
            ) + "}"@),
            _ => Seq::empty(),
        },
        _ => Seq::empty(),
    }
}

/// How the discount's value stands in envelope `shape`.
pub open spec fn value_json(v: Value, shape: OutputShape) -> Seq<char> {
    match shape {
        OutputShape::OrderMutation => value_json_typed_upper(v),
        OutputShape::BuyMutation => value_json_typed_upper(v),
        OutputShape::ProductMutation => match v {
            Value::FixedAmount(x) => ("{\"type\":\"fixed_amount\",\"value\":"@ + dec_json_chars(
                x.value,
            ) + "}"@),
            Value::Percentage(x) => ("{\"type\":\"percentage\",\"value\":"@ + dec_json_chars(
                x.value,
            ) + "}"@),
        },
        _ => match v {
            Value::Percentage(x) => ("{\"percentage\":{\"value\":"@ + dec_json_chars(x.value)
                + "},\"fixedAmount\":null}"@),
            Value::FixedAmount(x) => (
            "{\"percentage\":null,\"fixedAmount\":{\"appliesToEachItem\":"@ + json_opt_bool(
                x.applies_to_each_item,
            ) + ",\"value\":"@ + dec_json_chars(x.value) + "}}"@),
        },
    }
}

pub open spec fn value_json_typed_upper(v: Value) -> Seq<char> {
    match v {
        Value::FixedAmount(x) => ("{\"type\":\"FIXED_AMOUNT\",\"value\":"@ + dec_json_chars(
            x.value,
        ) + ",\"appliesToEachItem\":"@ + json_opt_bool(x.applies_to_each_item) + "}"@),
        Value::Percentage(x) => ("{\"type\":\"PERCENTAGE\",\"value\":"@ + dec_json_chars(x.value)
            + ",\"appliesToEachItem\":null}"@),
    }
}

pub open spec fn target_items(ts: Seq<TargetView>, shape: OutputShape) -> Seq<char>
    decreases ts.len(),
{
    if ts.len() == 0 {
        Seq::empty()
    } else if ts.len() == 1 {
        target_json(ts[0], shape)
    } else {
        target_items(ts.drop_last(), shape) + seq![','] + target_json(ts.last(), shape)
    }
}

pub open spec fn condition_items(cs: Seq<ConditionView>, shape: OutputShape) -> Seq<char>
    decreases cs.len(),
{
    if cs.len() == 0 {
        Seq::empty()
    } else if cs.len() == 1 {
        condition_json(cs[0], shape)
    } else {
        condition_items(cs.drop_last(), shape) + seq![','] + condition_json(cs.last(), shape)
    }
}

pub open spec fn conditions_json(cs: Option<Seq<ConditionView>>, shape: OutputShape) -> Seq<char> {
    match cs {
        None => "null"@,
        Some(cs) => seq!['['] + condition_items(cs, shape) + seq![']'],
    }
}

pub open spec fn message_json(m: Option<Seq<char>>) -> Seq<char> {
    match m {
        None => "null"@,
        Some(s) => json_string(s),
    }
}

/// How one discount stands in envelope `shape`: message, conditions, targets
/// and value, in that order.
pub open spec fn discount_json(d: DiscountView, shape: OutputShape) -> Seq<char> {
    "{\"message\":"@ + message_json(d.message) + ",\"conditions\":"@ + conditions_json(
        d.conditions,
        shape,
    ) + ",\"targets\":["@ + target_items(d.targets, shape) + "],\"value\":"@ + value_json(
        d.value,
        shape,
    ) + "}"@
}

pub open spec fn discount_items(ds: Seq<DiscountView>, shape: OutputShape) -> Seq<char>
    decreases ds.len(),
{
    if ds.len() == 0 {
        Seq::empty()
    } else if ds.len() == 1 {
        discount_json(ds[0], shape)
    } else {
        discount_items(ds.drop_last(), shape) + seq![','] + discount_json(ds.last(), shape)
    }
}

pub open spec fn strategy_json(s: DiscountApplicationStrategy, shape: OutputShape) -> Seq<char> {
    if is_mutation(shape) {
        match s {
            DiscountApplicationStrategy::First => "\"first\""@,
            DiscountApplicationStrategy::Maximum => "\"maximum\""@,
        }
    } else {
        match s {
            DiscountApplicationStrategy::First => "\"FIRST\""@,
            DiscountApplicationStrategy::Maximum => "\"MAXIMUM\""@,
        }
    }
}

pub open spec fn strategy_key_json(shape: OutputShape) -> Seq<char> {
    if is_mutation(shape) {
        "\"discount_application_strategy\""@
    } else {
        "\"discountApplicationStrategy\""@
    }
}

/// The whole envelope: the discounts in order, then the application strategy
/// under the shape's key spelling.
pub open spec fn proposal_json(p: ProposalView, shape: OutputShape) -> Seq<char> {
    "{\"discounts\":["@ + discount_items(p.discounts, shape) + "],"@ + strategy_key_json(shape)
        + ":"@ + strategy_json(p.discount_application_strategy, shape) + "}"@
}

// ----------------------------------------------------------------------------
// The envelope text, executable
// ----------------------------------------------------------------------------

fn push_opt_u64(out: &mut String, q: &Option<u64>)
    ensures
        final(out)@ == old(out)@ + json_opt_u64(*q),
{
    match q {
        None => out.append("null"),
        Some(x) => crate::text::push_u64(out, *x),
    }
}

fn push_opt_bool(out: &mut String, b: &Option<bool>)
    ensures
        final(out)@ == old(out)@ + json_opt_bool(*b),
{
    match b {
        None => out.append("null"),
        Some(x) => if *x {
            out.append("true")
        } else {
            out.append("false")
        },
    }
}

fn push_opt_u64_array(out: &mut String, e: &Option<Vec<u64>>)
    ensures
        final(out)@ == old(out)@ + json_opt_u64_array(e.deep_view()),
{
    match e {
        None => out.append("null"),
        Some(ids) => {
            push_u64_array(out, ids);
            proof {
                assert(ids.deep_view() =~= ids@);
            }
        },
    }
}

fn push_target(out: &mut String, t: &Target, shape: OutputShape)
    ensures
        final(out)@ == old(out)@ + target_json(t@, shape),
{
    let ghost pre = out@;
    match shape {
        OutputShape::OrderMutation => match t {
            Target::OrderSubtotal(x) => {
                out.append("{\"targetType\":\"ORDER_SUBTOTAL\",\"excludedVariantIds\":");
                push_opt_u64_array(out, &x.excluded_variant_ids);
                out.append(",\"id\":null,\"quantity\":null}");
                proof {
                    assert(out@ =~= pre + target_json(t@, shape));
                }
            },
            _ => {},
        },
        OutputShape::ProductMutation => match t {
            Target::ProductVariant(x) => {
                out.append("{\"target_type\":\"product_variant\",\"id\":");
                crate::text::push_u64(out, x.id);
                out.append(",\"quantity\":");
                push_opt_u64(out, &x.quantity);
                out.append("}");
                proof {
                    assert(out@ =~= pre + target_json(t@, shape));
                }
            },
            _ => {},
        },
        OutputShape::BuyMutation => match t {
            Target::ProductVariant(x) => {
                out.append("{\"targetType\":\"product_variant\",\"id\":");
                crate::text::push_u64(out, x.id);
                out.append(",\"quantity\":");
                push_opt_u64(out, &x.quantity);
                out.append("}");
                proof {
                    assert(out@ =~= pre + target_json(t@, shape));
                }
            },
            _ => {},
        },
        OutputShape::OrderFunction => match t {
            Target::OrderSubtotal(x) => match &x.excluded_variant_ids {
                Some(ids) => {
                    out.append("{\"orderSubtotal\":{\"excludedVariantIds\":");
                    push_u64_array(out, ids);
                    out.append("},\"productVariant\":null}");
                    proof {
                        assert(ids.deep_view() =~= ids@);
                        assert(out@ =~= pre + target_json(t@, shape));
                    }
                },
                None => {},
            },
            _ => {},
        },
        OutputShape::ProductFunction => match t {
            Target::ProductVariant(x) => {
                out.append("{\"productVariant\":{\"id\":");
                crate::text::push_u64(out, x.id);
                out.append(",\"quantity\":");
                push_opt_u64(out, &x.quantity);
                out.append("}}");
                proof {
                    assert(out@ =~= pre + target_json(t@, shape));
                }
            },
            _ => {},
        },
        OutputShape::ShippingFunction => match t {
            Target::ShippingLine(x) => {
                out.append("{\"shippingLine\":{\"index\":");
                crate::text::push_u64(out, x.index);
                out.append("}}");
                proof {
                    assert(out@ =~= pre + target_json(t@, shape));
                }
            },
            _ => {},
        },
    }
}

fn push_condition(out: &mut String, c: &Condition, shape: OutputShape)
    ensures
        final(out)@ == old(out)@ + condition_json(c@, shape),
{
    let ghost pre = out@;
    match shape {
        OutputShape::OrderMutation => match c {
            Condition::OrderMinimumSubtotal(x) => {
                out.append(
                    "{\"targetType\":\"ORDER_SUBTOTAL\",\"ids\":null,\"excludedVariantIds\":null,\"minimumAmount\":",
                );
                push_decimal_json(out, &x.minimum_amount);
                out.append(",\"minimumQuantity\":null}");
                proof {
                    assert(out@ =~= pre + condition_json(c@, shape));
                }
            },
            _ => {},
        },
        OutputShape::BuyMutation => match c {
            Condition::ProductMinimumQuantity(x) => {
                out.append("{\"targetType\":\"product_variant\",\"ids\":");
                push_u64_array(out, &x.ids);
                out.append(",\"minimumAmount\":null,\"minimumQuantity\":");
                crate::text::push_u64(out, x.minimum_quantity);
                out.append("}");
                proof {
                    assert(out@ =~= pre + condition_json(c@, shape));
                }
            },
            _ => {},
        },
        _ => {},
    }
}

fn push_value(out: &mut String, v: &Value, shape: OutputShape)
    ensures
        final(out)@ == old(out)@ + value_json(*v, shape),
{
    let ghost pre = out@;
    match shape {
        OutputShape::OrderMutation => push_value_typed_upper(out, v),
        OutputShape::BuyMutation => push_value_typed_upper(out, v),
        OutputShape::ProductMutation => match v {
            Value::FixedAmount(x) => {
                out.append("{\"type\":\"fixed_amount\",\"value\":");
                push_decimal_json(out, &x.value);
                out.append("}");
                proof {
                    assert(out@ =~= pre + value_json(*v, shape));
                }
            },
            Value::Percentage(x) => {
                out.append("{\"type\":\"percentage\",\"value\":");
                push_decimal_json(out, &x.value);
                out.append("}");
                proof {
                    assert(out@ =~= pre + value_json(*v, shape));
                }
            },
        },
        _ => match v {
            Value::Percentage(x) => {
                out.append("{\"percentage\":{\"value\":");
                push_decimal_json(out, &x.value);
                out.append("},\"fixedAmount\":null}");
                proof {
                    assert(out@ =~= pre + value_json(*v, shape));
                }
            },
            Value::FixedAmount(x) => {
                out.append("{\"percentage\":null,\"fixedAmount\":{\"appliesToEachItem\":");
                push_opt_bool(out, &x.applies_to_each_item);
                out.append(",\"value\":");
                push_decimal_json(out, &x.value);
                out.append("}}");
                proof {
                    assert(out@ =~= pre + value_json(*v, shape));
                }
            },
        },
    }
}

fn push_value_typed_upper(out: &mut String, v: &Value)
    ensures
        final(out)@ == old(out)@ + value_json_typed_upper(*v),
{
    let ghost pre = out@;
    match v {
        Value::FixedAmount(x) => {
            out.append("{\"type\":\"FIXED_AMOUNT\",\"value\":");
            push_decimal_json(out, &x.value);
            out.append(",\"appliesToEachItem\":");
            push_opt_bool(out, &x.applies_to_each_item);
            out.append("}");
            proof {
                assert(out@ =~= pre + value_json_typed_upper(*v));
            }
        },
        Value::Percentage(x) => {
            out.append("{\"type\":\"PERCENTAGE\",\"value\":");
            push_decimal_json(out, &x.value);
            out.append(",\"appliesToEachItem\":null}");
            proof {
                assert(out@ =~= pre + value_json_typed_upper(*v));
            }
        },
    }
}

fn push_conditions(out: &mut String, cs: &Option<Vec<Condition>>, shape: OutputShape)
    ensures
        final(out)@ == old(out)@ + conditions_json(
            match cs {
                Some(v) => Some(v@.map_values(|c: Condition| c@)),
                None => None,
            },
            shape,
        ),
{
    let ghost pre = out@;
    match cs {
        None => out.append("null"),
        Some(v) => {
            let ghost cvs = v@.map_values(|c: Condition| c@);
            proof {
                reveal_strlit("[");
                assert("["@ =~= seq!['[']);
            }
            out.append("[");
            let n = v.len();
            let mut i: usize = 0;
            while i < n
                invariant
                    i <= n,
                    n == v@.len(),
                    cvs == v@.map_values(|c: Condition| c@),
                    out@ == pre + seq!['['] + condition_items(cvs.take(i as int), shape),
                decreases n - i,
            {
                if i > 0 {
                    proof {
                        reveal_strlit(",");
                        assert(","@ =~= seq![',']);
                    }
                    out.append(",");
                }
                push_condition(out, &v[i], shape);
                i = i + 1;
                proof {
                    assert(cvs.take(i as int).drop_last() =~= cvs.take(i as int - 1));
                    assert(cvs.take(i as int).last() == cvs[i as int - 1]);
                    assert(out@ =~= pre + seq!['['] + condition_items(cvs.take(i as int), shape));
                }
            }
            proof {
                reveal_strlit("]");
                assert("]"@ =~= seq![']']);
                assert(cvs.take(n as int) =~= cvs);
            }
            out.append("]");
            proof {
                assert(out@ =~= pre + conditions_json(Some(cvs), shape));
            }
        },
    }
}

fn push_message(out: &mut String, m: &Option<String>)
    ensures
        final(out)@ == old(out)@ + message_json(m.deep_view()),
{
    match m {
        None => out.append("null"),
        Some(s) => push_json_string(out, s.as_str()),
    }
}

fn push_discount(out: &mut String, d: &Discount, shape: OutputShape)
    ensures
        final(out)@ == old(out)@ + discount_json(d@, shape),
{
    let ghost pre = out@;
    out.append("{\"message\":");
    push_message(out, &d.message);
    out.append(",\"conditions\":");
    push_conditions(out, &d.conditions, shape);
    out.append(",\"targets\":[");
    let ghost mid = out@;
    let ghost tvs = d.targets@.map_values(|t: Target| t@);
    let n = d.targets.len();
    let mut i: usize = 0;
    while i < n
        invariant
            i <= n,
            n == d.targets@.len(),
            tvs == d.targets@.map_values(|t: Target| t@),
            out@ == mid + target_items(tvs.take(i as int), shape),
        decreases n - i,
    {
        if i > 0 {
            proof {
                reveal_strlit(",");
                assert(","@ =~= seq![',']);
            }
            out.append(",");
        }
        push_target(out, &d.targets[i], shape);
        i = i + 1;
        proof {
            assert(tvs.take(i as int).drop_last() =~= tvs.take(i as int - 1));
            assert(tvs.take(i as int).last() == tvs[i as int - 1]);
            assert(out@ =~= mid + target_items(tvs.take(i as int), shape));
        }
    }
    proof {
        assert(tvs.take(n as int) =~= tvs);
    }
    out.append("],\"value\":");
    push_value(out, &d.value, shape);
    out.append("}");
    proof {
        assert(out@ =~= pre + discount_json(d@, shape));
    }
}

// ----------------------------------------------------------------------------
// Fit checks, executable
// ----------------------------------------------------------------------------

fn target_fits_exec(t: &Target, shape: OutputShape) -> (b: bool)
    ensures
        b == target_fits(t@, shape),
{
    match shape {
        OutputShape::OrderMutation => matches!(t, Target::OrderSubtotal(_)),
        OutputShape::ProductMutation => matches!(t, Target::ProductVariant(_)),
        OutputShape::BuyMutation => matches!(t, Target::ProductVariant(_)),
        OutputShape::OrderFunction => match t {
            Target::OrderSubtotal(x) => x.excluded_variant_ids.is_some(),
            _ => false,
        },
        OutputShape::ProductFunction => matches!(t, Target::ProductVariant(_)),
        OutputShape::ShippingFunction => matches!(t, Target::ShippingLine(_)),
    }
}

fn condition_fits_exec(c: &Condition, shape: OutputShape) -> (b: bool)
    ensures
        b == condition_fits(c@, shape),
{
    match shape {
        OutputShape::OrderMutation => matches!(c, Condition::OrderMinimumSubtotal(_)),
        OutputShape::BuyMutation => matches!(c, Condition::ProductMinimumQuantity(_)),
        _ => false,
    }
}

fn discount_fits_exec(d: &Discount, shape: OutputShape) -> (b: bool)
    ensures
        b == discount_fits(d@, shape),
{
    let n = d.targets.len();
    let mut i: usize = 0;
    while i < n
        invariant
            i <= n,
            n == d.targets@.len(),
            forall|j: int| 0 <= j < i ==> target_fits((#[trigger] d.targets@[j])@, shape),
        decreases n - i,
    {
        if !target_fits_exec(&d.targets[i], shape) {
            proof {
                assert(d@.targets[i as int] == d.targets@[i as int]@);
            }
            return false;
        }
        i = i + 1;
    }
    proof {
        assert forall|j: int| 0 <= j < d@.targets.len() implies target_fits(
            #[trigger] d@.targets[j],
            shape,
        ) by {
            assert(d@.targets[j] == d.targets@[j]@);
        }
    }
    match &d.conditions {
        None => true,
        Some(cs) => {
            let m = cs.len();
            let mut k: usize = 0;
            while k < m
                invariant
                    m == cs@.len(),
                    k <= m,
                    d@.conditions == Some(cs@.map_values(|c: Condition| c@)),
                    forall|j: int| 0 <= j < k ==> condition_fits((#[trigger] cs@[j])@, shape),
                decreases m - k,
            {
                if !condition_fits_exec(&cs[k], shape) {
                    proof {
                        assert(d@.conditions.unwrap()[k as int] == cs@[k as int]@);
                    }
                    return false;
                }
                k = k + 1;
            }
            proof {
                let cvs = d@.conditions.unwrap();
                assert forall|j: int| 0 <= j < cvs.len() implies condition_fits(
                    #[trigger] cvs[j],
                    shape,
                ) by {
                    assert(cvs[j] == cs@[j]@);
                }
            }
            true
        },
    }
}

/// Whether `p` can be written in envelope `shape`: every target and condition
/// of every discount has an encoding there.
pub fn fits_shape(p: &Proposal, shape: OutputShape) -> (b: bool)
    ensures
        b == shape_fits(p@, shape),
{
    let n = p.discounts.len();
    let mut i: usize = 0;
    while i < n
        invariant
            i <= n,
            n == p.discounts@.len(),
            forall|j: int| 0 <= j < i ==> discount_fits((#[trigger] p.discounts@[j])@, shape),
        decreases n - i,
    {
        if !discount_fits_exec(&p.discounts[i], shape) {
            proof {
                assert(p@.discounts[i as int] == p.discounts@[i as int]@);
            }
            return false;
        }
        i = i + 1;
    }
    proof {
        assert forall|j: int| 0 <= j < p@.discounts.len() implies discount_fits(
            #[trigger] p@.discounts[j],
            shape,
        ) by {
            assert(p@.discounts[j] == p.discounts@[j]@);
        }
    }
    true
}

fn shape_is_mutation(shape: OutputShape) -> (b: bool)
    ensures
        b == is_mutation(shape),
{
    match shape {
        OutputShape::OrderMutation => true,
        OutputShape::ProductMutation => true,
        OutputShape::BuyMutation => true,
        OutputShape::OrderFunction => false,
        OutputShape::ProductFunction => false,
        OutputShape::ShippingFunction => false,
    }
}

/// Serializes a proposal to the JSON envelope of the given shape, or nothing
/// when some discount of the proposal has no encoding in that shape.
pub fn render(p: &Proposal, shape: OutputShape) -> (r: Option<String>)
    ensures
        match r {
            Some(s) => shape_fits(p@, shape) && s@ == proposal_json(p@, shape),
            None => !shape_fits(p@, shape),
        },
{
    if !fits_shape(p, shape) {
        return None;
    }
    let mut out = String::new();
    out.append("{\"discounts\":[");
    let ghost mid = out@;
    let ghost dvs = p.discounts@.map_values(|d: Discount| d@);
    let n = p.discounts.len();
    let mut i: usize = 0;
    while i < n
        invariant
            i <= n,
            n == p.discounts@.len(),
            dvs == p.discounts@.map_values(|d: Discount| d@),
            out@ == mid + discount_items(dvs.take(i as int), shape),
        decreases n - i,
    {
        if i > 0 {
            proof {
                reveal_strlit(",");
                assert(","@ =~= seq![',']);
            }
            out.append(",");
        }
        push_discount(&mut out, &p.discounts[i], shape);
        i = i + 1;
        proof {
            assert(dvs.take(i as int).drop_last() =~= dvs.take(i as int - 1));
            assert(dvs.take(i as int).last() == dvs[i as int - 1]);
            assert(out@ =~= mid + discount_items(dvs.take(i as int), shape));
        }
    }
    proof {
        assert(dvs.take(n as int) =~= dvs);
    }
    out.append("],");
    if shape_is_mutation(shape) {
        out.append("\"discount_application_strategy\"");
    } else {
        out.append("\"discountApplicationStrategy\"");
    }
    out.append(":");
    match p.discount_application_strategy {
        DiscountApplicationStrategy::First => if shape_is_mutation(shape) {
            out.append("\"first\"")
        } else {
            out.append("\"FIRST\"")
        },
        DiscountApplicationStrategy::Maximum => if shape_is_mutation(shape) {
            out.append("\"maximum\"")
        } else {
            out.append("\"MAXIMUM\"")
        },
    }
    out.append("}");
    proof {
        assert(out@ =~= proposal_json(p@, shape));
    }
    Some(out)
}

} // verus!
