//! The pricing rule: what a swap pays out of a pool, and what that rule
//! guarantees about the pool afterwards.

use crate::types::{Balance, Error};
use vstd::arithmetic::div_mod::{
    lemma_div_basics_2, lemma_div_is_ordered_by_denominator, lemma_div_multiples_vanish_quotient,
    lemma_div_pos_is_pos, lemma_fundamental_div_mod, lemma_mod_bound,
};
use vstd::prelude::*;

verus! {

/// The part of each input that is priced: the fee denominator less the fee
/// numerator.
pub open spec fn effective_rate(fee_numerator: Balance, fee_denominator: Balance) -> int {
    fee_denominator - fee_numerator
}

/// The input scaled by the effective rate, times the output reserve.
pub open spec fn output_numerator(
    input_amount: Balance,
    output_reserve: Balance,
    fee_numerator: Balance,
    fee_denominator: Balance,
) -> int {
    effective_rate(fee_numerator, fee_denominator) * input_amount * output_reserve
}

/// The input reserve and the input, each scaled by the effective rate.
pub open spec fn output_denominator(
    input_amount: Balance,
    input_reserve: Balance,
    fee_numerator: Balance,
    fee_denominator: Balance,
) -> int {
    effective_rate(fee_numerator, fee_denominator) * input_reserve + effective_rate(
        fee_numerator,
        fee_denominator,
    ) * input_amount
}

/// Whether every step of the pricing formula stays within `Balance` and the
/// division has a divisor.
pub open spec fn output_defined(
    input_amount: Balance,
    input_reserve: Balance,
    output_reserve: Balance,
    fee_numerator: Balance,
    fee_denominator: Balance,
) -> bool {
    let rate = effective_rate(fee_numerator, fee_denominator);
    &&& 0 <= rate
    &&& rate * input_amount <= Balance::MAX
    &&& output_numerator(input_amount, output_reserve, fee_numerator, fee_denominator)
        <= Balance::MAX
    &&& rate * input_reserve <= Balance::MAX
    &&& 0 < output_denominator(input_amount, input_reserve, fee_numerator, fee_denominator)
        <= Balance::MAX
}

/// What a swap of `input_amount` pays out: the scaled input times the output
/// reserve, over the scaled input reserve plus the scaled input, rounded
/// down; `None` where the formula leaves `Balance` or divides by zero.
pub open spec fn swap_output(
    input_amount: Balance,
    input_reserve: Balance,
    output_reserve: Balance,
    fee_numerator: Balance,
    fee_denominator: Balance,
) -> Option<Balance> {
    if output_defined(input_amount, input_reserve, output_reserve, fee_numerator, fee_denominator) {
        Some(
            (output_numerator(input_amount, output_reserve, fee_numerator, fee_denominator)
                / output_denominator(input_amount, input_reserve, fee_numerator, fee_denominator)) as Balance,
        )
    } else {
        None
    }
}

/// Prices a swap of `input_amount` against the two reserves.
///
/// Every multiplication and addition is checked, and so is the division: the
/// call fails with `OperationOverflow` exactly where `swap_output` is `None`.
pub fn compute_output(
    input_amount: Balance,
    input_reserve: Balance,
    output_reserve: Balance,
    fee_numerator: Balance,
    fee_denominator: Balance,
) -> (result: Result<Balance, Error>)
    ensures
        result == match swap_output(
            input_amount,
            input_reserve,
            output_reserve,
            fee_numerator,
            fee_denominator,
        ) {
            Some(output_amount) => Ok::<Balance, Error>(output_amount),
            None => Err(Error::OperationOverflow),
        },
{
    let rate = match fee_denominator.checked_sub(fee_numerator) {
        Some(rate) => rate,
        None => return Err(Error::OperationOverflow),
    };
    let scaled_input = match rate.checked_mul(input_amount) {
        Some(scaled_input) => scaled_input,
        None => return Err(Error::OperationOverflow),
    };
    let numerator = match scaled_input.checked_mul(output_reserve) {
        Some(numerator) => numerator,
        None => return Err(Error::OperationOverflow),
    };
    let scaled_reserve = match rate.checked_mul(input_reserve) {
        Some(scaled_reserve) => scaled_reserve,
        None => return Err(Error::OperationOverflow),
    };
    let denominator = match scaled_reserve.checked_add(scaled_input) {
        Some(denominator) => denominator,
        None => return Err(Error::OperationOverflow),
    };
    match numerator.checked_div(denominator) {
        Some(output_amount) => Ok(output_amount),
        None => Err(Error::OperationOverflow),
    }
}

/// Dividing after scaling both sides by a positive rate is dividing without
/// it; and the rounded quotient times the divisor is at most the dividend,
/// with equality exactly where the division leaves no remainder.
proof fn lemma_scaled_quotient(rate: int, input: int, reserve: int, other: int)
    requires
        0 < rate,
        0 <= input,
        0 <= reserve,
        0 <= other,
        0 < reserve + input,
    ensures
        (rate * input * other) / (rate * reserve + rate * input) == (input * other) / (reserve
            + input),
        0 <= (input * other) / (reserve + input),
        ((input * other) / (reserve + input)) * (reserve + input) <= input * other,
        ((input * other) / (reserve + input)) * (reserve + input) == input * other <==> (input
            * other) % (reserve + input) == 0,
{
    let total = reserve + input;
    let product = input * other;
    assert(rate * reserve + rate * input == rate * total) by (nonlinear_arith)
        requires
            total == reserve + input,
    ;
    assert(rate * input * other == rate * product) by (nonlinear_arith)
        requires
            product == input * other,
    ;
    assert(0 <= product) by (nonlinear_arith)
        requires
            product == input * other,
            0 <= input,
            0 <= other,
    ;
    lemma_div_multiples_vanish_quotient(rate, product, total);
    lemma_fundamental_div_mod(product, total);
    lemma_mod_bound(product, total);
    lemma_div_pos_is_pos(product, total);
    assert((product / total) * total == total * (product / total)) by (nonlinear_arith);
}

/// What a swap pays out does not depend on the rate: the rate scales both
/// sides of the division.
pub proof fn lemma_rate_cancels(
    input_amount: Balance,
    input_reserve: Balance,
    output_reserve: Balance,
    fee_numerator: Balance,
    fee_denominator: Balance,
)
    ensures
        swap_output(input_amount, input_reserve, output_reserve, fee_numerator, fee_denominator)
            matches Some(output_amount) ==> {
            &&& 0 < effective_rate(fee_numerator, fee_denominator)
            &&& 0 < input_reserve + input_amount <= Balance::MAX
            &&& output_amount == (input_amount * output_reserve) / (input_reserve + input_amount)
        },
{
    if output_defined(input_amount, input_reserve, output_reserve, fee_numerator, fee_denominator) {
        let rate = effective_rate(fee_numerator, fee_denominator);
        let total = input_reserve + input_amount;
        let denominator = output_denominator(
            input_amount,
            input_reserve,
            fee_numerator,
            fee_denominator,
        );
        assert(0 < rate && 0 < total && total <= denominator) by (nonlinear_arith)
            requires
                0 <= rate,
                0 <= input_reserve,
                0 <= input_amount,
                total == input_reserve + input_amount,
                denominator == rate * input_reserve + rate * input_amount,
                0 < denominator,
        ;
        lemma_scaled_quotient(rate, input_amount as int, input_reserve as int, output_reserve as int);
        let numerator = output_numerator(input_amount, output_reserve, fee_numerator, fee_denominator);
        assert(numerator / denominator <= numerator) by {
            lemma_div_is_ordered_by_denominator(numerator, 1, denominator);
            lemma_div_basics_2(numerator);
        }
    }
}

/// A swap never pays out more than the output reserve holds, the input
/// always fits beside the input reserve, and the product of the two reserves
/// after the swap is at least the product before it: what rounding keeps
/// back stays in the pool. This holds at every fee, a fee of zero included.
pub proof fn lemma_swap_keeps_product(
    input_amount: Balance,
    input_reserve: Balance,
    output_reserve: Balance,
    fee_numerator: Balance,
    fee_denominator: Balance,
)
    ensures
        swap_output(input_amount, input_reserve, output_reserve, fee_numerator, fee_denominator)
            matches Some(output_amount) ==> {
            &&& output_amount <= output_reserve
            &&& input_reserve + input_amount <= Balance::MAX
            &&& (input_reserve + input_amount) * (output_reserve - output_amount) >= input_reserve
                * output_reserve
        },
{
    if let Some(output_amount) = swap_output(
        input_amount,
        input_reserve,
        output_reserve,
        fee_numerator,
        fee_denominator,
    ) {
        lemma_rate_cancels(
            input_amount,
            input_reserve,
            output_reserve,
            fee_numerator,
            fee_denominator,
        );
        lemma_scaled_quotient(
            effective_rate(fee_numerator, fee_denominator),
            input_amount as int,
            input_reserve as int,
            output_reserve as int,
        );
        let total = input_reserve + input_amount;
        assert(output_amount <= output_reserve && total * (output_reserve - output_amount)
            >= input_reserve * output_reserve) by (nonlinear_arith)
            requires
                output_amount * total <= input_amount * output_reserve,
                total == input_reserve + input_amount,
                0 < total,
                0 <= input_amount,
                0 <= input_reserve,
                0 <= output_reserve,
                0 <= output_amount,
        {
            if output_amount > output_reserve {
                assert(output_amount * total >= (output_reserve + 1) * total);
            }
        }
    }
}

/// Swapping `amount` of currency for the asset and at once swapping what was
/// bought back for currency returns at most `amount`. It returns all of
/// `amount` only where the first swap's division left no remainder, whatever
/// the fee: in every other case the round trip loses.
pub proof fn lemma_round_trip_never_gains(
    amount: Balance,
    currency_reserve: Balance,
    asset_reserve: Balance,
    fee_numerator: Balance,
    fee_denominator: Balance,
)
    ensures
        swap_output(amount, currency_reserve, asset_reserve, fee_numerator, fee_denominator)
            matches Some(bought) ==> (swap_output(
            bought,
            (asset_reserve - bought) as Balance,
            (currency_reserve + amount) as Balance,
            fee_numerator,
            fee_denominator,
        ) matches Some(returned) ==> {
            &&& returned <= amount
            &&& returned == amount <==> (amount * asset_reserve) % (currency_reserve + amount) == 0
        }),
{
    if let Some(bought) = swap_output(
        amount,
        currency_reserve,
        asset_reserve,
        fee_numerator,
        fee_denominator,
    ) {
        lemma_swap_keeps_product(
            amount,
            currency_reserve,
            asset_reserve,
            fee_numerator,
            fee_denominator,
        );
        lemma_rate_cancels(amount, currency_reserve, asset_reserve, fee_numerator, fee_denominator);
        let rate = effective_rate(fee_numerator, fee_denominator);
        lemma_scaled_quotient(rate, amount as int, currency_reserve as int, asset_reserve as int);
        let asset_left = (asset_reserve - bought) as Balance;
        let currency_held = (currency_reserve + amount) as Balance;
        if let Some(returned) = swap_output(
            bought,
            asset_left,
            currency_held,
            fee_numerator,
            fee_denominator,
        ) {
            lemma_rate_cancels(bought, asset_left, currency_held, fee_numerator, fee_denominator);
            lemma_scaled_quotient(rate, bought as int, asset_left as int, currency_held as int);
            assert(asset_left + bought == asset_reserve);
            let paid = amount * asset_reserve;
            let owed = bought * currency_held;
            assert(owed <= paid) by (nonlinear_arith)
                requires
                    owed == bought * currency_held,
                    paid == amount * asset_reserve,
                    bought * (currency_reserve + amount) <= amount * asset_reserve,
                    currency_held == currency_reserve + amount,
            ;
            assert(returned * asset_reserve <= owed);
            assert(returned <= amount && (returned == amount <==> owed == paid))
                by (nonlinear_arith)
                requires
                    returned * asset_reserve <= owed,
                    owed <= paid,
                    paid == amount * asset_reserve,
                    returned == owed / (asset_reserve as int),
                    0 < asset_reserve,
                    0 <= returned,
                    0 <= amount,
            {
                if returned > amount {
                    assert(returned * asset_reserve >= (amount + 1) * asset_reserve);
                }
                if owed == paid {
                    assert(owed / (asset_reserve as int) == amount);
                }
            }
            assert(owed == paid <==> paid % (currency_held as int) == 0);
        }
    }
}

} // verus!
