//! Deterministic auction economics (pre_nav anchored).
//!
//! Every amount is an unsigned 64-bit value and every difference a signed
//! 64-bit value; intermediate results are computed exactly, every division
//! rounds down (toward negative infinity, also for the signed improvement
//! ratio), and each narrowing is checked.

use vstd::prelude::*;

use crate::constants::{BPS_SCALE, BPS_SCALE_I128, PRICE_SCALE};

verus! {

/// The market and bid data that one settlement is evaluated on.
#[derive(Debug, Clone, Copy, PartialEq, Eq, Structural)]
pub struct EconomicsInput {
    /// Clearing quantity in mock DTF base units (6 decimals).
    pub batch_size: u64,
    /// Starting NAV / price in USDC per DTF, 1e6 fixed point.
    pub pre_nav: u64,
    /// Target NAV / price in USDC per DTF, 1e6 fixed point.
    pub target_nav: u64,
    /// Winner execution price in USDC per DTF, 1e6 fixed point.
    pub mock_pool_price: u64,
    /// Baseline cost without auction in mock USDC base units (6 decimals).
    pub expected_cost_without_auction: u64,
    /// Winning bid / auction payment in mock USDC base units (6 decimals).
    pub winner_bid_amount: u64,
    /// Protocol share of auction revenue in bps.
    pub protocol_fee_bps: u16,
}

/// The accounting result of one settlement.
#[derive(Debug, Clone, Copy, PartialEq, Eq, Structural)]
pub struct EconomicsOutput {
    pub starting_gap_value: u64,
    pub settlement_cost: u64,
    pub settlement_out: u64,
    pub gap_closed_value: i64,
    pub gross_cost_reduction: i64,
    pub auction_revenue: u64,
    pub total_value_recaptured: i64,
    pub protocol_revenue: u64,
    pub creator_revenue: u64,
    pub net_protocol_benefit: i64,
    pub net_creator_benefit: i64,
    pub improvement_bps: i64,
}

#[derive(Debug, Clone, Copy, PartialEq, Eq, Structural)]
pub enum MathError {
    Overflow,
    InvalidProtocolFeeBps,
}

/// `max(a, b) - min(a, b)`.
pub open spec fn abs_diff(a: int, b: int) -> int {
    if a >= b {
        a - b
    } else {
        b - a
    }
}

pub open spec fn in_u64(x: int) -> bool {
    0 <= x <= u64::MAX
}

pub open spec fn in_i64(x: int) -> bool {
    i64::MIN <= x <= i64::MAX
}

/// `a * b / d`, floored.
pub open spec fn scaled(a: int, b: int, d: int) -> int {
    a * b / d
}

/// Size of the starting gap: `batch_size * |target_nav - pre_nav| / PRICE_SCALE`.
pub open spec fn starting_gap_value_of(i: EconomicsInput) -> int {
    scaled(i.batch_size as int, abs_diff(i.target_nav as int, i.pre_nav as int), PRICE_SCALE as int)
}

/// Cost the winner leaves: `batch_size * |target_nav - mock_pool_price| / PRICE_SCALE`.
pub open spec fn settlement_cost_of(i: EconomicsInput) -> int {
    scaled(
        i.batch_size as int,
        abs_diff(i.target_nav as int, i.mock_pool_price as int),
        PRICE_SCALE as int,
    )
}

/// Settlement output: `batch_size * mock_pool_price / PRICE_SCALE`.
pub open spec fn settlement_out_of(i: EconomicsInput) -> int {
    scaled(i.batch_size as int, i.mock_pool_price as int, PRICE_SCALE as int)
}

pub open spec fn gap_closed_value_of(i: EconomicsInput) -> int {
    starting_gap_value_of(i) - settlement_cost_of(i)
}

pub open spec fn gross_cost_reduction_of(i: EconomicsInput) -> int {
    i.expected_cost_without_auction - settlement_cost_of(i)
}

/// Protocol share: `winner_bid_amount * protocol_fee_bps / BPS_SCALE`.
pub open spec fn protocol_revenue_of(i: EconomicsInput) -> int {
    scaled(i.winner_bid_amount as int, i.protocol_fee_bps as int, BPS_SCALE as int)
}

pub open spec fn creator_revenue_of(i: EconomicsInput) -> int {
    i.winner_bid_amount - protocol_revenue_of(i)
}

pub open spec fn total_value_recaptured_of(i: EconomicsInput) -> int {
    gross_cost_reduction_of(i) + i.winner_bid_amount
}

pub open spec fn net_protocol_benefit_of(i: EconomicsInput) -> int {
    gross_cost_reduction_of(i) + protocol_revenue_of(i)
}

/// Share of the starting gap that the settlement closed, in bps, floored
/// (a negative share rounds toward negative infinity); 0 when there was no gap.
pub open spec fn improvement_bps_of(i: EconomicsInput) -> int {
    if starting_gap_value_of(i) == 0 {
        0
    } else {
        gap_closed_value_of(i) * BPS_SCALE_I128 / starting_gap_value_of(i)
    }
}

/// Every value of the settlement fits the width it is stored in.
pub open spec fn economics_fit(i: EconomicsInput) -> bool {
    &&& in_u64(starting_gap_value_of(i))
    &&& in_u64(settlement_cost_of(i))
    &&& in_u64(settlement_out_of(i))
    &&& in_i64(gap_closed_value_of(i))
    &&& in_i64(gross_cost_reduction_of(i))
    &&& in_u64(protocol_revenue_of(i))
    &&& in_u64(creator_revenue_of(i))
    &&& in_i64(total_value_recaptured_of(i))
    &&& in_i64(net_protocol_benefit_of(i))
    &&& in_i64(creator_revenue_of(i))
    &&& in_i64(improvement_bps_of(i))
}

/// The economics of one settlement: rejected when the fee exceeds 100%,
/// an overflow when a value does not fit, and otherwise every value exactly.
pub open spec fn economics_spec(i: EconomicsInput) -> Result<EconomicsOutput, MathError> {
    if i.protocol_fee_bps > BPS_SCALE {
        Err(MathError::InvalidProtocolFeeBps)
    } else if !economics_fit(i) {
        Err(MathError::Overflow)
    } else {
        Ok(
            EconomicsOutput {
                starting_gap_value: starting_gap_value_of(i) as u64,
                settlement_cost: settlement_cost_of(i) as u64,
                settlement_out: settlement_out_of(i) as u64,
                gap_closed_value: gap_closed_value_of(i) as i64,
                gross_cost_reduction: gross_cost_reduction_of(i) as i64,
                auction_revenue: i.winner_bid_amount,
                total_value_recaptured: total_value_recaptured_of(i) as i64,
                protocol_revenue: protocol_revenue_of(i) as u64,
                creator_revenue: creator_revenue_of(i) as u64,
                net_protocol_benefit: net_protocol_benefit_of(i) as i64,
                net_creator_benefit: creator_revenue_of(i) as i64,
                improvement_bps: improvement_bps_of(i) as i64,
            },
        )
    }
}

/// Whether a settlement meets a market's minimum output and minimum improvement.
pub open spec fn constraints_met(
    output: EconomicsOutput,
    min_settlement_out: u64,
    min_improvement_bps: u16,
) -> bool {
    output.settlement_out >= min_settlement_out && output.improvement_bps >= min_improvement_bps
}

/// Calculate the pre_nav-anchored economics of one settlement.
pub fn calculate_economics(input: EconomicsInput) -> (result: Result<EconomicsOutput, MathError>)
    ensures
        result == economics_spec(input),
{
    if (input.protocol_fee_bps as u128) > BPS_SCALE {
        return Err(MathError::InvalidProtocolFeeBps);
    }
    let starting_gap_per_unit = abs_diff_u64(input.target_nav, input.pre_nav);
    let residual_gap_per_unit = abs_diff_u64(input.target_nav, input.mock_pool_price);

    let starting_gap_value = match scaled_mul_div_u64(
        input.batch_size,
        starting_gap_per_unit,
        PRICE_SCALE,
    ) {
        Ok(v) => v,
        Err(e) => return Err(e),
    };
    let settlement_cost = match scaled_mul_div_u64(
        input.batch_size,
        residual_gap_per_unit,
        PRICE_SCALE,
    ) {
        Ok(v) => v,
        Err(e) => return Err(e),
    };
    let settlement_out = match scaled_mul_div_u64(
        input.batch_size,
        input.mock_pool_price,
        PRICE_SCALE,
    ) {
        Ok(v) => v,
        Err(e) => return Err(e),
    };

    let gap_closed_value = match checked_i128_to_i64(
        (starting_gap_value as i128) - (settlement_cost as i128),
    ) {
        Ok(v) => v,
        Err(e) => return Err(e),
    };
    let gross_cost_reduction = match checked_i128_to_i64(
        (input.expected_cost_without_auction as i128) - (settlement_cost as i128),
    ) {
        Ok(v) => v,
        Err(e) => return Err(e),
    };

    let auction_revenue = input.winner_bid_amount;
    let protocol_revenue = match scaled_mul_div_u64(
        auction_revenue,
        input.protocol_fee_bps as u64,
        BPS_SCALE,
    ) {
        Ok(v) => v,
        Err(e) => return Err(e),
    };
    let creator_revenue = match auction_revenue.checked_sub(protocol_revenue) {
        Some(v) => v,
        None => return Err(MathError::Overflow),
    };

    let total_value_recaptured = match checked_i128_to_i64(
        (gross_cost_reduction as i128) + (auction_revenue as i128),
    ) {
        Ok(v) => v,
        Err(e) => return Err(e),
    };
    let net_protocol_benefit = match checked_i128_to_i64(
        (gross_cost_reduction as i128) + (protocol_revenue as i128),
    ) {
        Ok(v) => v,
        Err(e) => return Err(e),
    };
    let net_creator_benefit = match checked_i128_to_i64(creator_revenue as i128) {
        Ok(v) => v,
        Err(e) => return Err(e),
    };

    let improvement_bps: i64 = if starting_gap_value == 0 {
        0
    } else {
        let scaled_gap: i128 = (gap_closed_value as i128) * BPS_SCALE_I128;
        let ratio: i128 = signed_div_floor(scaled_gap, starting_gap_value);
        match checked_i128_to_i64(ratio) {
            Ok(v) => v,
            Err(e) => return Err(e),
        }
    };

    Ok(
        EconomicsOutput {
            starting_gap_value,
            settlement_cost,
            settlement_out,
            gap_closed_value,
            gross_cost_reduction,
            auction_revenue,
            total_value_recaptured,
            protocol_revenue,
            creator_revenue,
            net_protocol_benefit,
            net_creator_benefit,
            improvement_bps,
        },
    )
}

/// Returns true if settlement output and improvement constraints are satisfied.
pub fn settlement_constraints_satisfied(
    output: &EconomicsOutput,
    min_settlement_out: u64,
    min_improvement_bps: u16,
) -> (satisfied: bool)
    ensures
        satisfied == constraints_met(*output, min_settlement_out, min_improvement_bps),
        satisfied <==> (output.settlement_out as int >= min_settlement_out as int
            && output.improvement_bps as int >= min_improvement_bps as int),
{
    output.settlement_out >= min_settlement_out && output.improvement_bps >= (
    min_improvement_bps as i64)
}

fn abs_diff_u64(a: u64, b: u64) -> (d: u64)
    ensures
        d == abs_diff(a as int, b as int),
{
    if a >= b {
        a - b
    } else {
        b - a
    }
}

fn scaled_mul_div_u64(a: u64, b: u64, denominator: u128) -> (result: Result<u64, MathError>)
    ensures
        denominator == 0 ==> result == Err::<u64, MathError>(MathError::Overflow),
        denominator > 0 ==> result == (if in_u64(scaled(a as int, b as int, denominator as int)) {
            Ok::<u64, MathError>(scaled(a as int, b as int, denominator as int) as u64)
        } else {
            Err(MathError::Overflow)
        }),
{
    assert((a as int) * (b as int) <= (u64::MAX as int) * (u64::MAX as int)) by (nonlinear_arith)
        requires
            0 <= a <= u64::MAX,
            0 <= b <= u64::MAX,
    ;
    assert((u64::MAX as int) * (u64::MAX as int) <= u128::MAX);
    let product: u128 = (a as u128) * (b as u128);
    if denominator == 0 {
        return Err(MathError::Overflow);
    }
    let value: u128 = product / denominator;
    if value <= (u64::MAX as u128) {
        Ok(value as u64)
    } else {
        Err(MathError::Overflow)
    }
}

fn checked_i128_to_i64(value: i128) -> (result: Result<i64, MathError>)
    ensures
        result == (if in_i64(value as int) {
            Ok::<i64, MathError>(value as i64)
        } else {
            Err(MathError::Overflow)
        }),
{
    if (i64::MIN as i128) <= value && value <= (i64::MAX as i128) {
        Ok(value as i64)
    } else {
        Err(MathError::Overflow)
    }
}

/// `a / b` rounded down (toward negative infinity), for a positive divisor.
fn signed_div_floor(a: i128, b: u64) -> (q: i128)
    requires
        b > 0,
        -0x7fff_ffff_ffff_ffff_ffff_ffff_0000_0000 <= a,
    ensures
        q == (a as int) / (b as int),
{
    if a >= 0 {
        let q: u128 = (a as u128) / (b as u128);
        assert(q <= a);
        q as i128
    } else {
        // For a negative numerator, floor(a / b) == -ceil(-a / b).
        let magnitude: u128 = (-a) as u128;
        let bu: u128 = b as u128;
        let up: u128 = (magnitude + (bu - 1)) / bu;
        proof {
            let m = magnitude as int;
            let bi = b as int;
            assert(up == (m + bi - 1) / bi);
            assert(-((m + bi - 1) / bi) == (-m) / bi) by (nonlinear_arith)
                requires
                    m > 0,
                    bi > 0,
            ;
            assert(up <= m) by (nonlinear_arith)
                requires
                    up == (m + bi - 1) / bi,
                    m > 0,
                    bi > 0,
            ;
        }
        -(up as i128)
    }
}

// ---------------------------------------------------------------------------
// Laws of the economics
// ---------------------------------------------------------------------------

/// Every successful settlement keeps the accounting identities of the model:
/// creator and protocol revenue split the auction revenue, the auction revenue is
/// the winning bid, total recapture is cost reduction plus revenue, net protocol
/// benefit is cost reduction plus protocol revenue, net creator benefit is the
/// creator revenue, the closed gap is the starting gap minus the settlement cost,
/// and a zero starting gap gives a zero improvement.
pub proof fn lemma_economics_identities(input: EconomicsInput)
    requires
        economics_spec(input) is Ok,
    ensures
        ({
            let out = economics_spec(input)->Ok_0;
            &&& out.creator_revenue + out.protocol_revenue == out.auction_revenue
            &&& out.auction_revenue == input.winner_bid_amount
            &&& out.total_value_recaptured == out.gross_cost_reduction + out.auction_revenue
            &&& out.net_protocol_benefit == out.gross_cost_reduction + out.protocol_revenue
            &&& out.net_creator_benefit == out.creator_revenue
            &&& out.gap_closed_value == out.starting_gap_value - out.settlement_cost
            &&& out.starting_gap_value == 0 ==> out.improvement_bps == 0
        }),
{
}

/// The protocol never takes more than the auction revenue, and a settlement can
/// never close more than the whole starting gap: `improvement_bps <= BPS_SCALE`.
pub proof fn lemma_economics_bounds(input: EconomicsInput)
    requires
        economics_spec(input) is Ok,
    ensures
        ({
            let out = economics_spec(input)->Ok_0;
            &&& out.protocol_revenue <= out.auction_revenue
            &&& out.improvement_bps <= BPS_SCALE
        }),
{
    let sgv = starting_gap_value_of(input);
    let gcv = gap_closed_value_of(input);
    if sgv != 0 {
        assert(sgv > 0) by (nonlinear_arith)
            requires
                sgv == scaled(
                    input.batch_size as int,
                    abs_diff(input.target_nav as int, input.pre_nav as int),
                    1_000_000,
                ),
                sgv != 0,
                input.batch_size >= 0,
        ;
        assert(settlement_cost_of(input) >= 0) by (nonlinear_arith)
            requires
                settlement_cost_of(input) == scaled(
                    input.batch_size as int,
                    abs_diff(input.target_nav as int, input.mock_pool_price as int),
                    1_000_000,
                ),
                input.batch_size >= 0,
        ;
        assert(gcv <= sgv);
        assert((gcv * 10_000) / sgv <= 10_000) by (nonlinear_arith)
            requires
                gcv <= sgv,
                sgv > 0,
        ;
    }
    assert(protocol_revenue_of(input) <= input.winner_bid_amount) by (nonlinear_arith)
        requires
            protocol_revenue_of(input) == scaled(
                input.winner_bid_amount as int,
                input.protocol_fee_bps as int,
                10_000,
            ),
            0 <= input.protocol_fee_bps <= 10_000,
            input.winner_bid_amount >= 0,
    ;
}


/// `q` is `n / d` rounded down: `q * d <= n < (q + 1) * d`.
pub open spec fn rounds_down_to(q: int, n: int, d: int) -> bool {
    q * d <= n < (q + 1) * d
}

/// Integer division with a positive divisor rounds down.
pub proof fn lemma_division_rounds_down(n: int, d: int)
    requires
        d > 0,
    ensures
        rounds_down_to(n / d, n, d),
{
    vstd::arithmetic::div_mod::lemma_fundamental_div_mod(n, d);
    vstd::arithmetic::div_mod::lemma_mod_bound(n, d);
    assert((n / d + 1) * d == (n / d) * d + d) by (nonlinear_arith);
    assert(d * (n / d) == (n / d) * d) by (nonlinear_arith);
}

/// What every successful settlement's economics are, in terms of its inputs
/// (the formulas of the economics document, divisions rounding down):
/// - the starting gap is `batch_size * |target_nav - pre_nav| / 1e6`;
/// - the settlement cost is `batch_size * |target_nav - mock_pool_price| / 1e6`;
/// - the settlement output is `batch_size * mock_pool_price / 1e6`;
/// - the closed gap is the starting gap minus the settlement cost;
/// - the gross cost reduction is the market's baseline cost minus the
///   settlement cost, whatever the starting gap;
/// - the auction revenue is the winning bid, of which the protocol takes
///   `bid * fee_bps / 10_000` and the creator the rest;
/// - total recapture is cost reduction plus revenue, net protocol benefit is
///   cost reduction plus protocol revenue, net creator benefit is creator revenue;
/// - the improvement is `closed gap * 10_000 / starting gap` rounded down, and
///   0 when there is no starting gap.
/// A fee above 100% is always refused.
pub proof fn lemma_economics_formulas(input: EconomicsInput)
    ensures
        input.protocol_fee_bps > 10_000 ==> economics_spec(input) == Err::<
            EconomicsOutput,
            MathError,
        >(MathError::InvalidProtocolFeeBps),
        economics_spec(input) is Ok ==> ({
            let out = economics_spec(input)->Ok_0;
            let batch = input.batch_size as int;
            let target = input.target_nav as int;
            let pre = input.pre_nav as int;
            let pool = input.mock_pool_price as int;
            let gap = if target >= pre {
                target - pre
            } else {
                pre - target
            };
            let residual = if target >= pool {
                target - pool
            } else {
                pool - target
            };
            &&& input.protocol_fee_bps <= 10_000
            &&& rounds_down_to(out.starting_gap_value as int, batch * gap, 1_000_000)
            &&& rounds_down_to(out.settlement_cost as int, batch * residual, 1_000_000)
            &&& rounds_down_to(out.settlement_out as int, batch * pool, 1_000_000)
            &&& out.gap_closed_value == out.starting_gap_value - out.settlement_cost
            &&& out.gross_cost_reduction == input.expected_cost_without_auction
                - out.settlement_cost
            &&& out.auction_revenue == input.winner_bid_amount
            &&& rounds_down_to(
                out.protocol_revenue as int,
                input.winner_bid_amount * input.protocol_fee_bps,
                10_000,
            )
            &&& out.creator_revenue == input.winner_bid_amount - out.protocol_revenue
            &&& out.total_value_recaptured == out.gross_cost_reduction + input.winner_bid_amount
            &&& out.net_protocol_benefit == out.gross_cost_reduction + out.protocol_revenue
            &&& out.net_creator_benefit == out.creator_revenue
            &&& out.starting_gap_value == 0 ==> out.improvement_bps == 0
            &&& out.starting_gap_value > 0 ==> rounds_down_to(
                out.improvement_bps as int,
                out.gap_closed_value * 10_000,
                out.starting_gap_value as int,
            )
        }),
{
    let i = input;
    lemma_division_rounds_down(i.batch_size * abs_diff(
        i.target_nav as int,
        i.pre_nav as int,
    ), 1_000_000);
    lemma_division_rounds_down(
        i.batch_size * abs_diff(i.target_nav as int, i.mock_pool_price as int),
        1_000_000,
    );
    lemma_division_rounds_down(i.batch_size * i.mock_pool_price, 1_000_000);
    lemma_division_rounds_down(i.winner_bid_amount * i.protocol_fee_bps, 10_000);
    if starting_gap_value_of(i) > 0 {
        lemma_division_rounds_down(gap_closed_value_of(i) * 10_000, starting_gap_value_of(i));
    }
}

/// Success is owed: with a fee of at most 100%, a settlement succeeds whenever
/// every value of the economics document, computed over unbounded integers
/// (divisions rounding down), fits the width it is stored in.
pub proof fn lemma_economics_succeed_when_values_fit(input: EconomicsInput)
    requires
        input.protocol_fee_bps <= 10_000,
        ({
            let batch = input.batch_size as int;
            let target = input.target_nav as int;
            let pre = input.pre_nav as int;
            let pool = input.mock_pool_price as int;
            let bid = input.winner_bid_amount as int;
            let gap = if target >= pre {
                target - pre
            } else {
                pre - target
            };
            let residual = if target >= pool {
                target - pool
            } else {
                pool - target
            };
            let start = batch * gap / 1_000_000;
            let cost = batch * residual / 1_000_000;
            let out = batch * pool / 1_000_000;
            let closed = start - cost;
            let reduction = input.expected_cost_without_auction - cost;
            let protocol = bid * input.protocol_fee_bps / 10_000;
            let creator = bid - protocol;
            let improvement = if start == 0 {
                0
            } else {
                closed * 10_000 / start
            };
            &&& 0 <= start <= u64::MAX
            &&& 0 <= cost <= u64::MAX
            &&& 0 <= out <= u64::MAX
            &&& i64::MIN <= closed <= i64::MAX
            &&& i64::MIN <= reduction <= i64::MAX
            &&& i64::MIN <= reduction + bid <= i64::MAX
            &&& i64::MIN <= reduction + protocol <= i64::MAX
            &&& creator <= i64::MAX
            &&& i64::MIN <= improvement <= i64::MAX
        }),
    ensures
        economics_spec(input) is Ok,
{
    assert(protocol_revenue_of(input) <= input.winner_bid_amount) by (nonlinear_arith)
        requires
            protocol_revenue_of(input) == scaled(
                input.winner_bid_amount as int,
                input.protocol_fee_bps as int,
                10_000,
            ),
            0 <= input.protocol_fee_bps <= 10_000,
            input.winner_bid_amount >= 0,
    ;
    assert(protocol_revenue_of(input) >= 0) by (nonlinear_arith)
        requires
            protocol_revenue_of(input) == scaled(
                input.winner_bid_amount as int,
                input.protocol_fee_bps as int,
                10_000,
            ),
            0 <= input.protocol_fee_bps,
            input.winner_bid_amount >= 0,
    ;
}

/// The settlement constraints compare signed: a settlement meets them exactly
/// when its output reaches the minimum output and its improvement (which may be
/// negative) reaches the minimum improvement; in particular a negative
/// improvement never meets them. Lowering either minimum keeps them met.
pub proof fn lemma_constraints_compare_signed(
    output: EconomicsOutput,
    min_settlement_out: u64,
    min_improvement_bps: u16,
    lower_out: u64,
    lower_bps: u16,
)
    ensures
        constraints_met(output, min_settlement_out, min_improvement_bps) <==> (
        output.settlement_out as int >= min_settlement_out as int && output.improvement_bps as int
            >= min_improvement_bps as int),
        output.improvement_bps < 0 ==> !constraints_met(
            output,
            min_settlement_out,
            min_improvement_bps,
        ),
        constraints_met(output, min_settlement_out, min_improvement_bps) && lower_out
            <= min_settlement_out && lower_bps <= min_improvement_bps ==> constraints_met(
            output,
            lower_out,
            lower_bps,
        ),
{
}

} // verus!
