//! Miner reward per block: a static subsidy, a per-uncle subsidy, and
//! the sum of `gas used x gas price` over the block's transactions with
//! a resolvable receipt.

use vstd::prelude::*;

use vstd::arithmetic::mul::lemma_mul_inequality;

verus! {

/// Static block subsidy, in base units.
pub const STATIC_BLOCK_REWARD: u128 = 3000000000000000000;

/// Per-uncle subsidy: 7/8 of the static subsidy, precomputed as an exact
/// integer so no division rounds.
pub const UNCLE_BLOCK_REWARD: u128 = 2625000000000000000;

/// The total fee over `(gas used, gas price)` pairs.
pub open spec fn fee_total(fees: Seq<(u64, u128)>) -> int
    decreases fees.len(),
{
    if fees.len() == 0 {
        0
    } else {
        fee_total(fees.drop_last()) + fees.last().0 as int * fees.last().1 as int
    }
}

/// The mathematical miner reward of one block.
pub open spec fn reward_total(uncle_count: nat, fees: Seq<(u64, u128)>) -> int {
    STATIC_BLOCK_REWARD + uncle_count * UNCLE_BLOCK_REWARD + fee_total(fees)
}

/// Extending the fee list by one pair adds that pair's product.
pub proof fn lemma_fee_total_step(fees: Seq<(u64, u128)>, i: int)
    requires
        0 <= i < fees.len(),
    ensures
        fee_total(fees.take(i + 1)) == fee_total(fees.take(i)) + fees[i].0 as int
            * fees[i].1 as int,
{
    assert(fees.take(i + 1).drop_last() =~= fees.take(i));
    assert(fees.take(i + 1).last() == fees[i]);
}

/// Every fee term is non-negative, so a prefix never exceeds the total.
pub proof fn lemma_fee_total_prefix(fees: Seq<(u64, u128)>, j: int)
    requires
        0 <= j <= fees.len(),
    ensures
        fee_total(fees.take(j)) <= fee_total(fees),
    decreases fees.len() - j,
{
    if j == fees.len() {
        assert(fees.take(j) =~= fees);
    } else {
        lemma_fee_total_step(fees, j);
        lemma_fee_total_prefix(fees, j + 1);
    }
}

/// Computes the miner reward for a block with `uncle_count` uncles and
/// the given `(gas used, gas price)` pairs. Returns `None` exactly when
/// the mathematical reward does not fit the 128-bit result type.
pub fn block_reward(uncle_count: u32, fees: &Vec<(u64, u128)>) -> (r: Option<u128>)
    ensures
        match r {
            Option::Some(v) => v == reward_total(uncle_count as nat, fees@) && reward_total(
                uncle_count as nat,
                fees@,
            ) <= u128::MAX,
            Option::None => reward_total(uncle_count as nat, fees@) > u128::MAX,
        },
{
    proof {
        lemma_mul_inequality(uncle_count as int, u32::MAX as int, UNCLE_BLOCK_REWARD as int);
    }
    let uncle_part: u128 = UNCLE_BLOCK_REWARD * (uncle_count as u128);
    let mut acc: u128 = STATIC_BLOCK_REWARD + uncle_part;
    let mut i: usize = 0;
    proof {
        assert(fees@.take(0) =~= Seq::<(u64, u128)>::empty());
    }
    while i < fees.len()
        invariant
            i <= fees@.len(),
            acc == reward_total(uncle_count as nat, fees@.take(i as int)),
        decreases fees@.len() - i,
    {
        let pair = fees[i];
        proof {
            lemma_fee_total_step(fees@, i as int);
            lemma_fee_total_prefix(fees@, i as int + 1);
        }
        let prod: u128 = match (pair.0 as u128).checked_mul(pair.1) {
            Option::Some(p) => p,
            Option::None => {
                return Option::None;
            },
        };
        acc = match acc.checked_add(prod) {
            Option::Some(a) => a,
            Option::None => {
                return Option::None;
            },
        };
        i += 1;
    }
    proof {
        assert(fees@.take(fees@.len() as int) =~= fees@);
    }
    Option::Some(acc)
}

} // verus!
