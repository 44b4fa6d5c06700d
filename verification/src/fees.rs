use vstd::prelude::*;

use crate::errors::MarketError;

verus! {

/// Protocol fee, in basis points of the order value.
pub const PROTOCOL_FEES_BPS: u64 = 50;

/// One hundred percent, in basis points.
pub const BPS_DENOMINATOR: u64 = 10000;

/// `bps` basis points of `amount`, rounded down.
pub open spec fn bps_of(amount: int, bps: int) -> int {
    amount * bps / 10000
}

/// The fee of `bps` basis points on `value`, rounded down.
pub fn get_fee_amount_bps(value: u64, bps: u64) -> (fee: u64)
    requires
        value * bps <= u64::MAX,
    ensures
        fee == bps_of(value as int, bps as int),
{
    let product: u64 = value * bps;
    product / BPS_DENOMINATOR
}

/// The protocol fee on an order price.
pub fn get_fee_amount(order_price: u64) -> (fee: u64)
    requires
        order_price * PROTOCOL_FEES_BPS <= u64::MAX,
    ensures
        fee == bps_of(order_price as int, PROTOCOL_FEES_BPS as int),
{
    get_fee_amount_bps(order_price, PROTOCOL_FEES_BPS)
}

/// What `get_index_fee_bp` gives for `amount` and `bp`: the part left after the
/// cut and the cut itself, or the error.
pub open spec fn index_fee_split(amount: int, bp: int) -> Result<(int, int), MarketError> {
    if amount * bp > u128::MAX {
        Err(MarketError::AmountOverflow)
    } else {
        let q = amount * bp / 10000;
        let cut = if q <= u64::MAX { q } else { 0 };
        if cut > amount {
            Err(MarketError::AmountOverflow)
        } else {
            Ok((amount - cut, cut))
        }
    }
}

/// Splits `amount` into `[remaining, cut]`, where `cut` is `bp` basis points of
/// `amount` (0 when that does not fit a `u64`).
pub fn get_index_fee_bp(amount: u64, bp: u128) -> (r: Result<[u64; 2], MarketError>)
    ensures
        match index_fee_split(amount as int, bp as int) {
            Ok((rest, cut)) => r matches Ok(a) && a@[0] == rest && a@[1] == cut,
            Err(e) => r == Err::<[u64; 2], MarketError>(e),
        },
{
    let wide: u128 = amount as u128;
    let product: u128 = match wide.checked_mul(bp) {
        Some(p) => p,
        None => return Err(MarketError::AmountOverflow),
    };
    let q: u128 = product / 10000;
    let cut: u64 = if q <= u64::MAX as u128 { q as u64 } else { 0 };
    if cut > amount {
        return Err(MarketError::AmountOverflow);
    }
    Ok([amount - cut, cut])
}

/// What `get_amount_from_bp` gives: the cut of `get_index_fee_bp`.
pub open spec fn amount_from_bp(amount: int, bp: int) -> Result<int, MarketError> {
    match index_fee_split(amount, bp) {
        Ok((rest, cut)) => Ok(cut),
        Err(e) => Err(e),
    }
}

/// `bp` basis points of `amount` (0 when that does not fit a `u64`), refused
/// when it would exceed `amount`.
pub fn get_amount_from_bp(amount: u64, bp: u128) -> (r: Result<u64, MarketError>)
    ensures
        match amount_from_bp(amount as int, bp as int) {
            Ok(cut) => r == Ok::<u64, MarketError>(cut as u64),
            Err(e) => r == Err::<u64, MarketError>(e),
        },
        r matches Ok(cut) ==> cut <= amount,
{
    match get_index_fee_bp(amount, bp) {
        Ok(a) => Ok(a[1]),
        Err(e) => Err(e),
    }
}

/// A split that goes through divides `amount` without remainder: the part
/// left and the cut add up to `amount`, and neither is negative.
pub proof fn lemma_index_fee_split_sums(amount: int, bp: int)
    requires
        0 <= amount,
        0 <= bp,
    ensures
        index_fee_split(amount, bp) matches Ok((rest, cut)) ==> rest + cut == amount && 0 <= cut <= amount && 0 <= rest,
{
    assert(amount * bp >= 0) by (nonlinear_arith)
        requires
            0 <= amount,
            0 <= bp,
    ;
}

/// The protocol fee never exceeds the order price.
pub proof fn lemma_protocol_fee_within_price(order_price: int)
    requires
        0 <= order_price,
    ensures
        0 <= bps_of(order_price, PROTOCOL_FEES_BPS as int) <= order_price,
{
}

/// Moves `amount` lamports from the balance `src_lamports` to the balance
/// `dest_lamports`: the destination is credited first, refused when it
/// would overflow a `u64` (nothing changes); then the source is debited,
/// refused when it holds less than `amount` (the credit stays made).
pub fn lamport_transfer(src_lamports: &mut u64, dest_lamports: &mut u64, amount: u64) -> (r: Result<(), MarketError>)
    ensures
        *old(dest_lamports) + amount > u64::MAX ==> r == Err::<(), MarketError>(MarketError::AmountOverflow)
            && *final(dest_lamports) == *old(dest_lamports) && *final(src_lamports) == *old(src_lamports),
        *old(dest_lamports) + amount <= u64::MAX ==> *final(dest_lamports) == *old(dest_lamports) + amount,
        *old(dest_lamports) + amount <= u64::MAX && *old(src_lamports) < amount
            ==> r == Err::<(), MarketError>(MarketError::AmountUnderflow) && *final(src_lamports) == *old(src_lamports),
        *old(dest_lamports) + amount <= u64::MAX && *old(src_lamports) >= amount
            ==> r == Ok::<(), MarketError>(()) && *final(src_lamports) == *old(src_lamports) - amount,
        r is Ok ==> *final(src_lamports) + *final(dest_lamports) == *old(src_lamports) + *old(dest_lamports),
{
    *dest_lamports = match dest_lamports.checked_add(amount) {
        Some(d) => d,
        None => return Err(MarketError::AmountOverflow),
    };
    *src_lamports = match src_lamports.checked_sub(amount) {
        Some(s) => s,
        None => return Err(MarketError::AmountUnderflow),
    };
    Ok(())
}

/// The seed form of a PDA bump.
pub fn get_bump_in_seed_form(bump: &u8) -> (seed: [u8; 1])
    ensures
        seed@ == seq![*bump],
{
    [*bump]
}

} // verus!
