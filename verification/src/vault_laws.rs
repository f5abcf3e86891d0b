//! What holds of every deposit and every withdrawal of a vault, whatever its state.
//!
//! The statements speak of the outcomes that `Vault::mint_with_fee`,
//! `Vault::calculate_burn_summary` and `Vault::burn_with_fee` are proved to return.
use vstd::prelude::*;
use crate::config::bps_fee;
use crate::math::{ceil_div, lemma_ceil_div};
use crate::vault::{Vault, BurnSummary, MintSummary, mint_outcome, burn_summary_outcome, burn_outcome, vrt_for_deposit, delegate_outcome, requested_for_withdrawal};

verus! {

/// The least multiple bound: `ceil_div(n, d)` is at most any `k` whose multiple covers `n`.
proof fn lemma_ceil_div_least(n: int, d: int, k: int)
    requires
        n >= 0,
        d > 0,
        k >= 0,
        k * d >= n,
    ensures
        ceil_div(n, d) <= k,
{
    assert((n + d - 1) / d <= (k * d + d - 1) / d) by (nonlinear_arith)
        requires
            n + d - 1 <= k * d + d - 1,
            d > 0,
    {
        vstd::arithmetic::div_mod::lemma_div_is_ordered(n + d - 1, k * d + d - 1, d);
    }
    assert((k * d + d - 1) / d == k) by (nonlinear_arith)
        requires
            d > 0,
            k >= 0,
    {
        vstd::arithmetic::div_mod::lemma_fundamental_div_mod_converse(k * d + d - 1, d, k, d - 1);
    }
}

/// `ceil_div(n, d)` times `d` covers `n`.
proof fn lemma_ceil_div_covers(n: int, d: int)
    requires
        n >= 0,
        d > 0,
    ensures
        ceil_div(n, d) * d >= n,
        ceil_div(n, d) >= 0,
{
    lemma_ceil_div(n, d);
    assert(n == d * (n / d) + n % d) by (nonlinear_arith)
        requires
            d > 0,
    ;
    assert(0 <= n % d < d) by (nonlinear_arith)
        requires
            d > 0,
    ;
    assert(n / d >= 0) by (nonlinear_arith)
        requires
            n >= 0,
            d > 0,
    ;
    if n % d == 0 {
        assert(ceil_div(n, d) * d == d * (n / d)) by (nonlinear_arith)
            requires
                ceil_div(n, d) == n / d,
        ;
    } else {
        assert(ceil_div(n, d) * d == d * (n / d) + d) by (nonlinear_arith)
            requires
                ceil_div(n, d) == n / d + 1,
        ;
    }
}

/// Charging a fee on two amounts apart costs at least as much as charging it on their
/// sum: splitting a deposit never lowers the fee.
pub proof fn lemma_fee_subadditive(x: u64, y: u64, bps: u16)
    ensures
        bps_fee(x as int, bps as int) + bps_fee(y as int, bps as int) >= bps_fee(x + y, bps as int),
{
    let a = x * bps;
    let b = y * bps;
    assert(a >= 0 && b >= 0) by (nonlinear_arith)
        requires
            a == x * bps,
            b == y * bps,
    ;
    assert((x + y) * bps == a + b) by (nonlinear_arith)
        requires
            a == x * bps,
            b == y * bps,
    ;
    lemma_ceil_div_covers(a, 10_000);
    lemma_ceil_div_covers(b, 10_000);
    let k = ceil_div(a, 10_000) + ceil_div(b, 10_000);
    assert(k * 10_000 == ceil_div(a, 10_000) * 10_000 + ceil_div(b, 10_000) * 10_000) by (nonlinear_arith)
        requires
            k == ceil_div(a, 10_000) + ceil_div(b, 10_000),
    ;
    lemma_ceil_div_least(a + b, 10_000, k);
}

/// A fee at a positive rate on a positive amount is never zero: fees are rounded up.
pub proof fn lemma_fee_non_zero(amount: u64, bps: u16)
    requires
        amount > 0,
        bps > 0,
    ensures
        bps_fee(amount as int, bps as int) > 0,
{
    assert(amount * bps >= 1) by (nonlinear_arith)
        requires
            amount > 0,
            bps > 0,
    ;
    assert((amount * bps + 9_999) / 10_000 >= 1) by (nonlinear_arith)
        requires
            amount * bps >= 1,
    ;
}

/// A deposit that succeeds takes in exactly the tokens handed in, stays within the
/// deposit capacity, and mints exactly the VRT split between the depositor and the fee
/// wallet: the depositor gets at least the minimum asked for, and the fee is the deposit
/// fee on what is minted.
pub proof fn lemma_mint_integrity(v: Vault, amount_in: u64, min_amount_out: u64, s: MintSummary)
    requires
        mint_outcome(v, amount_in as int, min_amount_out as int) == Ok::<MintSummary, crate::error::VaultError>(s),
    ensures
        amount_in > 0,
        v.tokens_deposited + amount_in <= v.deposit_capacity,
        v.tokens_deposited < v.deposit_capacity,
        s.vrt_to_depositor + s.vrt_to_fee_wallet == vrt_for_deposit(v.tokens_deposited as int, v.vrt_supply as int, amount_in as int),
        s.vrt_to_fee_wallet == bps_fee(s.vrt_to_depositor + s.vrt_to_fee_wallet, v.deposit_fee_bps as int),
        s.vrt_to_depositor >= min_amount_out,
        v.vrt_supply + s.vrt_to_depositor + s.vrt_to_fee_wallet <= u64::MAX,
{
}

/// No dilution on deposit: into a vault that holds tokens, a deposit mints no more VRT
/// than the deposit's pro-rata share of the VRT supply.
pub proof fn lemma_mint_no_dilution(v: Vault, amount_in: u64, min_amount_out: u64, s: MintSummary)
    requires
        mint_outcome(v, amount_in as int, min_amount_out as int) == Ok::<MintSummary, crate::error::VaultError>(s),
        v.tokens_deposited > 0,
    ensures
        (s.vrt_to_depositor + s.vrt_to_fee_wallet) * v.tokens_deposited <= amount_in * v.vrt_supply,
{
    let minted = amount_in * v.vrt_supply / (v.tokens_deposited as int);
    assert(minted * v.tokens_deposited <= amount_in * v.vrt_supply) by (nonlinear_arith)
        requires
            v.tokens_deposited > 0,
            minted == amount_in * v.vrt_supply / (v.tokens_deposited as int),
            amount_in * v.vrt_supply >= 0,
    {
        vstd::arithmetic::div_mod::lemma_fundamental_div_mod(amount_in * v.vrt_supply, v.tokens_deposited as int);
    }
}

/// With a positive deposit fee, a deposit that mints VRT always pays some to the fee wallet.
pub proof fn lemma_mint_assesses_fees(v: Vault, amount_in: u64, min_amount_out: u64, s: MintSummary)
    requires
        mint_outcome(v, amount_in as int, min_amount_out as int) == Ok::<MintSummary, crate::error::VaultError>(s),
        v.deposit_fee_bps > 0,
        s.vrt_to_depositor + s.vrt_to_fee_wallet > 0,
    ensures
        s.vrt_to_fee_wallet > 0,
{
    lemma_fee_non_zero((s.vrt_to_depositor + s.vrt_to_fee_wallet) as u64, v.deposit_fee_bps);
}

/// The split of a withdrawal accounts for every VRT handed in: the program fee, the vault
/// fee and the burned VRT add up to the amount; the program fee is the program's rate on
/// the amount, the vault fee at most the withdrawal rate on it; and the staker is paid the
/// pro-rata share of the deposited tokens for the burned VRT, rounded down.
pub proof fn lemma_burn_split(v: Vault, amount: u64, s: BurnSummary)
    requires
        burn_summary_outcome(v, amount as int) == Ok::<BurnSummary, crate::error::VaultError>(s),
    ensures
        s.program_fee_amount + s.vault_fee_amount + s.burn_amount == amount,
        s.program_fee_amount == bps_fee(amount as int, v.program_fee_bps as int),
        s.vault_fee_amount <= bps_fee(amount as int, v.withdrawal_fee_bps as int),
        v.vrt_supply > 0,
        s.out_amount == s.burn_amount * v.tokens_deposited / (v.vrt_supply as int),
{
}

/// No dilution on withdrawal: the tokens paid out are at most the burned VRT's pro-rata
/// share of the deposited tokens, so the VRT that stays is backed at least as well.
pub proof fn lemma_burn_no_dilution(v: Vault, amount: u64, s: BurnSummary)
    requires
        burn_summary_outcome(v, amount as int) == Ok::<BurnSummary, crate::error::VaultError>(s),
    ensures
        s.out_amount * v.vrt_supply <= s.burn_amount * v.tokens_deposited,
        s.burn_amount <= amount,
{
    let n = s.burn_amount * v.tokens_deposited;
    assert(n >= 0) by (nonlinear_arith)
        requires
            n == s.burn_amount * v.tokens_deposited,
    ;
    assert((n / (v.vrt_supply as int)) * v.vrt_supply <= n) by (nonlinear_arith)
        requires
            v.vrt_supply > 0,
            n >= 0,
    {
        vstd::arithmetic::div_mod::lemma_fundamental_div_mod(n, v.vrt_supply as int);
    }
}

/// A withdrawal that succeeds burns no more VRT than the supply, and what it pays out
/// leaves the delegated stake covered by the deposited tokens.
pub proof fn lemma_burn_keeps_stake_covered(v: Vault, amount: u64, s: BurnSummary)
    requires
        burn_outcome(v, amount as int) == Ok::<BurnSummary, crate::error::VaultError>(s),
    ensures
        s.burn_amount <= v.vrt_supply,
        s.out_amount <= v.tokens_deposited,
        v.delegation_state.total() <= v.tokens_deposited - s.out_amount,
        s.program_fee_amount + s.vault_fee_amount + s.burn_amount == amount,
{
}

/// A delegation that succeeds stays within the tokens that are neither delegated nor set
/// aside for the VRT in withdrawal tickets: the delegated stake stays covered, and the
/// withdrawals can still be paid.
pub proof fn lemma_delegate_keeps_reserve(v: Vault, amount: u64)
    requires
        delegate_outcome(v, amount as int) is Ok,
    ensures
        amount > 0,
        requested_for_withdrawal(v) is Ok,
        v.delegation_state.total() + amount + requested_for_withdrawal(v)->Ok_0 <= v.tokens_deposited,
{
}

/// No profit from a round trip: a deposit followed by a withdrawal of the VRT the depositor
/// received never pays out more tokens than were deposited, whatever the fees.
pub proof fn lemma_deposit_then_withdraw_never_profits(
    v: Vault,
    amount_in: u64,
    min_amount_out: u64,
    minted: MintSummary,
    after_deposit: Vault,
    withdrawn: BurnSummary,
)
    requires
        mint_outcome(v, amount_in as int, min_amount_out as int) == Ok::<MintSummary, crate::error::VaultError>(minted),
        after_deposit == (Vault {
            vrt_supply: (v.vrt_supply + minted.vrt_to_depositor + minted.vrt_to_fee_wallet) as u64,
            tokens_deposited: (v.tokens_deposited + amount_in) as u64,
            ..v
        }),
        burn_summary_outcome(after_deposit, minted.vrt_to_depositor as int) == Ok::<BurnSummary, crate::error::VaultError>(withdrawn),
    ensures
        withdrawn.out_amount <= amount_in,
{
    let t = v.tokens_deposited as int;
    let sup = v.vrt_supply as int;
    let x = amount_in as int;
    let m = (minted.vrt_to_depositor + minted.vrt_to_fee_wallet) as int;
    let b = withdrawn.burn_amount as int;
    // the VRT minted is worth at most the deposit: m * t <= x * sup, or m == x into an empty vault
    if t > 0 {
        lemma_mint_no_dilution(v, amount_in, min_amount_out, minted);
    } else {
        assert(m * t == 0);
        assert(x * sup >= 0) by (nonlinear_arith)
            requires
                x >= 0,
                sup >= 0,
        ;
    }
    // the VRT burned is at most the VRT minted
    assert(b <= m);
    // so its share of the tokens after the deposit is at most the deposit
    assert(b * (t + x) <= x * (sup + m)) by (nonlinear_arith)
        requires
            0 <= b <= m,
            m * t <= x * sup,
            t >= 0,
            x >= 0,
            sup >= 0,
    ;
    assert(sup + m > 0);
    assert((b * (t + x)) / (sup + m) <= x) by (nonlinear_arith)
        requires
            b * (t + x) <= x * (sup + m),
            sup + m > 0,
            b * (t + x) >= 0,
            x >= 0,
    {
        vstd::arithmetic::div_mod::lemma_div_is_ordered(b * (t + x), x * (sup + m), sup + m);
        vstd::arithmetic::div_mod::lemma_div_multiples_vanish(x, sup + m);
    }
}

/// A deposit keeps the delegated stake covered by the deposited tokens: it adds tokens and
/// delegates nothing.
pub proof fn lemma_deposit_keeps_stake_covered(v: Vault, amount_in: u64, min_amount_out: u64, minted: MintSummary, after: Vault)
    requires
        mint_outcome(v, amount_in as int, min_amount_out as int) == Ok::<MintSummary, crate::error::VaultError>(minted),
        after == (Vault {
            vrt_supply: (v.vrt_supply + minted.vrt_to_depositor + minted.vrt_to_fee_wallet) as u64,
            tokens_deposited: (v.tokens_deposited + amount_in) as u64,
            ..v
        }),
        v.delegation_state.total() <= v.tokens_deposited,
    ensures
        after.delegation_state.total() <= after.tokens_deposited,
        after.tokens_deposited == v.tokens_deposited + amount_in,
{
}

} // verus!
