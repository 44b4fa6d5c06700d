use vstd::prelude::*;

use crate::errors::{MarketError, MarketplaceError};
use crate::fees::{amount_from_bp, get_amount_from_bp};
use crate::keys::{keys_equal, Pubkey};
use crate::metadata::{get_mint_metadata, pairs_view, spec_mint_additional_metadata};
use crate::royalties::{
    creator_amounts, creator_amounts_overflow, creators_are, creators_of, parse_creators,
    royalty_amounts, royalty_basis_points_u64, royalty_bp_field,
};
use crate::state::Order;
use crate::text::str_equal;

verus! {

/// Address of the SPL token program, as configured.
pub const TOKEN_PID: &'static str = "";

/// Address of the Token-2022 program, as configured.
pub const TOKEN_EXT_PID: &'static str = "";

/// Address of the Bubblegum program, as configured.
pub const BUBBLEGUM_PID: &'static str = "";

/// Address of the Metaplex token metadata program, as configured.
pub const METAPLEX_PID: &'static str = "";

/// Address of the WNS program, as configured.
pub const WNS_PID: &'static str = "";

/// How an NFT is moved, by the token program of its mint and the program
/// that manages it.
#[derive(Debug, Clone, Copy, PartialEq, Eq, Structural)]
pub enum NftRoute {
    /// the SPL token program (Metaplex or compressed NFTs)
    Token,
    /// Token-2022, managed by WNS
    Token22Wns,
    /// Token-2022, managed by anything else
    Token22,
    /// Bubblegum (compressed NFTs)
    Bubblegum,
    /// any other token program
    Unknown,
}

/// The route of an NFT whose token program and managing program have the
/// given addresses (in text).
pub open spec fn route_of(token_program: Seq<char>, nft_program: Seq<char>) -> NftRoute {
    if token_program == TOKEN_PID@ {
        NftRoute::Token
    } else if token_program == TOKEN_EXT_PID@ {
        if nft_program == WNS_PID@ {
            NftRoute::Token22Wns
        } else {
            NftRoute::Token22
        }
    } else if token_program == BUBBLEGUM_PID@ {
        NftRoute::Bubblegum
    } else {
        NftRoute::Unknown
    }
}

/// The route of an NFT whose token program and managing program have the
/// given addresses (in text).
pub fn nft_route(token_program: &str, nft_program: &str) -> (r: NftRoute)
    ensures
        r == route_of(token_program@, nft_program@),
{
    if str_equal(token_program, TOKEN_PID) {
        NftRoute::Token
    } else if str_equal(token_program, TOKEN_EXT_PID) {
        if str_equal(nft_program, WNS_PID) {
            NftRoute::Token22Wns
        } else {
            NftRoute::Token22
        }
    } else if str_equal(token_program, BUBBLEGUM_PID) {
        NftRoute::Bubblegum
    } else {
        NftRoute::Unknown
    }
}

/// A royalty payment of a fill: `amount` to `creator`, whose account is at
/// `account_index` among the remaining accounts (its token account after it).
#[derive(Debug, Clone, Copy)]
pub struct CreatorPayment {
    pub creator: Pubkey,
    pub account_index: usize,
    pub amount: u64,
}

/// What a fill moves, once its checks pass.
#[derive(Debug)]
pub struct FillPlan {
    /// whether the order filled is a buy order (the taker sells the NFT)
    pub is_buy: bool,
    /// price of the NFTs traded: amount times the order price
    pub buy_value: u64,
    /// fee to the market's fee recipient
    pub fee_amount: u64,
    /// royalties deducted from what the seller receives
    pub royalties_amount: u64,
    /// royalty payments to creators, in order
    pub creator_payments: Vec<CreatorPayment>,
    /// whether the WNS program must approve the transfer (it pays royalties)
    pub approve_wns: bool,
    /// what the seller receives
    pub seller_received_amount: u64,
    /// the remaining accounts from this position on go to the NFT transfer
    pub hook_accounts_start: usize,
    /// size of the order after the fill
    pub new_size: u64,
    /// whether the fill closes the order
    pub closes_order: bool,
}

/// The value of a `FillPlan`.
pub struct FillPlanSpec {
    pub is_buy: bool,
    pub buy_value: int,
    pub fee_amount: int,
    pub royalties_amount: int,
    pub creator_payments: Seq<(Seq<u8>, int, int)>,
    pub approve_wns: bool,
    pub seller_received_amount: int,
    pub hook_accounts_start: int,
    pub new_size: int,
    pub closes_order: bool,
}

/// Why a fill is refused.
pub enum FillRefusal {
    /// the marketplace refuses it
    Market(MarketError),
    /// the check that the WNS mint belongs to the market failed
    WnsCheck,
    /// the mint's metadata could not be read
    Metadata,
}

/// Whether `v` is the plan `s`.
pub open spec fn plan_is(v: FillPlan, s: FillPlanSpec) -> bool {
    &&& v.is_buy == s.is_buy
    &&& v.buy_value == s.buy_value
    &&& v.fee_amount == s.fee_amount
    &&& v.royalties_amount == s.royalties_amount
    &&& v.creator_payments@.len() == s.creator_payments.len()
    &&& forall|i: int| 0 <= i < s.creator_payments.len() ==> {
        &&& (#[trigger] v.creator_payments@[i]).creator@ == s.creator_payments[i].0
        &&& v.creator_payments@[i].account_index == s.creator_payments[i].1
        &&& v.creator_payments@[i].amount == s.creator_payments[i].2
    }
    &&& v.approve_wns == s.approve_wns
    &&& v.seller_received_amount == s.seller_received_amount
    &&& v.hook_accounts_start == s.hook_accounts_start
    &&& v.new_size == s.new_size
    &&& v.closes_order == s.closes_order
}

/// Whether a creator's account is not at its place (every other account from
/// the start) among the remaining accounts.
pub open spec fn creator_account_mismatch(keys: Seq<Pubkey>, cs: Seq<(Seq<u8>, int)>) -> bool {
    exists|i: int| 0 <= i < cs.len() && keys[2 * i]@ != (#[trigger] cs[i]).0
}

/// The royalty payments to the creators `cs` out of `royalties`.
pub open spec fn creator_payment_list(royalties: int, cs: Seq<(Seq<u8>, int)>) -> Seq<(Seq<u8>, int, int)> {
    Seq::new(cs.len(), |i: int| (cs[i].0, 2 * i, creator_amounts(royalties, cs)[i]))
}

/// A plan with the parts that do not depend on the route filled in.
pub open spec fn base_plan(
    size: int,
    side: u8,
    amount: int,
    buy_value: int,
    fee: int,
    royalties: int,
    payments: Seq<(Seq<u8>, int, int)>,
    approve_wns: bool,
    hook_start: int,
) -> FillPlanSpec {
    FillPlanSpec {
        is_buy: side == 0,
        buy_value,
        fee_amount: fee,
        royalties_amount: royalties,
        creator_payments: payments,
        approve_wns,
        seller_received_amount: buy_value - fee - royalties,
        hook_accounts_start: hook_start,
        new_size: size - amount,
        closes_order: size - amount == 0,
    }
}

/// What filling `amount` NFTs of an order of `price`, `size` and `side` gives,
/// with the market fee at `fee_bps`, the NFT on `route`, the remaining
/// accounts `keys`, the WNS mint check passing or not, and the mint's
/// metadata read or not. `None` where the program aborts (an overflow, or a
/// royalty rate that is not a number).
pub open spec fn fill_outcome(
    price: int,
    size: int,
    side: u8,
    amount: int,
    fee_bps: int,
    route: NftRoute,
    keys: Seq<Pubkey>,
    wns_ok: bool,
    md: Option<Seq<(Seq<char>, Seq<char>)>>,
) -> Option<Result<FillPlanSpec, FillRefusal>> {
    if size < amount {
        Some(Err(FillRefusal::Market(MarketError::InsufficientOrderSize)))
    } else if amount * price > u64::MAX {
        None
    } else if (amount * price) * fee_bps > u64::MAX {
        None
    } else if (amount * price) * fee_bps / 10000 > amount * price {
        None
    } else {
        let bv = amount * price;
        let fee = bv * fee_bps / 10000;
        match route {
            NftRoute::Token22Wns => if keys.len() < 6 {
                None
            } else if !wns_ok {
                Some(Err(FillRefusal::WnsCheck))
            } else {
                match md {
                    None => Some(Err(FillRefusal::Metadata)),
                    Some(p) => match royalty_bp_field(p, u64::MAX as int) {
                        None => None,
                        Some(bp) => match amount_from_bp(bv, bp) {
                            Err(e) => Some(Err(FillRefusal::Market(e))),
                            Ok(roy) => if roy > bv - fee {
                                None
                            } else {
                                Some(Ok(base_plan(size, side, amount, bv, fee, roy, Seq::empty(), true, 6)))
                            },
                        },
                    },
                }
            },
            NftRoute::Token22 => match md {
                None => Some(Err(FillRefusal::Metadata)),
                Some(p) => match royalty_bp_field(p, u64::MAX as int) {
                    None => None,
                    Some(bp) => match amount_from_bp(bv, bp) {
                        Err(e) => Some(Err(FillRefusal::Market(e))),
                        Ok(roy) => if roy == 0 {
                            Some(Ok(base_plan(size, side, amount, bv, fee, 0, Seq::empty(), false, 0)))
                        } else {
                            match creators_of(p) {
                                Err(e) => Some(Err(FillRefusal::Market(e))),
                                Ok(cs) => if keys.len() < 2 * cs.len() {
                                    Some(Err(FillRefusal::Market(MarketError::NotEnoughRemainingAccounts)))
                                } else if creator_amounts_overflow(roy, cs) {
                                    None
                                } else if roy > bv - fee {
                                    None
                                } else if creator_account_mismatch(keys, cs) {
                                    Some(Err(FillRefusal::Market(MarketError::InvalidRoyaltiesAccount)))
                                } else {
                                    Some(Ok(base_plan(size, side, amount, bv, fee, roy,
                                        creator_payment_list(roy, cs), false, (2 * cs.len()) as int)))
                                },
                            }
                        },
                    },
                },
            },
            _ => Some(Err(FillRefusal::Market(MarketError::UnsupportedNft))),
        }
    }
}

/// Whether an exec error is the refusal `f`, given the inputs that carried
/// the outside errors.
pub open spec fn refusal_is(
    e: MarketplaceError,
    f: FillRefusal,
    wns_mint_check: Result<(), solana_program::program_error::ProgramError>,
    mint_metadata: Result<Vec<(String, String)>, solana_program::program_error::ProgramError>,
) -> bool {
    match f {
        FillRefusal::Market(m) => e == MarketplaceError::Market(m),
        FillRefusal::WnsCheck => wns_mint_check matches Err(pe) && e == MarketplaceError::Program(pe),
        FillRefusal::Metadata => mint_metadata matches Err(pe) && e == MarketplaceError::Program(pe),
    }
}

/// The metadata pairs that a read gives, if it succeeded.
pub open spec fn read_pairs(
    mint_metadata: Result<Vec<(String, String)>, solana_program::program_error::ProgramError>,
) -> Option<Seq<(Seq<char>, Seq<char>)>> {
    match mint_metadata {
        Ok(v) => Some(pairs_view(v@)),
        Err(_) => None,
    }
}

/// Works out a fill of `amount` NFTs of `order` on a market taking `fee_bps`:
/// the value traded, the market fee, the royalties (through WNS, or paid to
/// the creators that the mint's metadata names, each at its place among the
/// remaining accounts), what the seller receives and the order's new size.
/// `wns_mint_check` is the outcome of checking that a WNS mint belongs to the
/// market, `mint_metadata` that of reading the mint's metadata. `None` where
/// the program aborts. Every creator account is checked before any payment
/// is listed: a fill refused for a creator account moves nothing (the
/// transfers that a request makes before such a refusal are undone with it).
pub fn settle_fill(
    order: &Order,
    amount: u64,
    fee_bps: u64,
    route: NftRoute,
    remaining: &Vec<Pubkey>,
    wns_mint_check: Result<(), solana_program::program_error::ProgramError>,
    mint_metadata: Result<Vec<(String, String)>, solana_program::program_error::ProgramError>,
) -> (r: Option<Result<FillPlan, MarketplaceError>>)
    ensures
        match fill_outcome(order.price as int, order.size as int, order.side, amount as int, fee_bps as int, route,
            remaining@, wns_mint_check is Ok, read_pairs(mint_metadata)) {
            None => r is None,
            Some(Ok(s)) => r matches Some(Ok(v)) && plan_is(v, s),
            Some(Err(f)) => r matches Some(Err(e)) && refusal_is(e, f, wns_mint_check, mint_metadata),
        },
{
    if order.size < amount {
        return Some(Err(MarketplaceError::Market(MarketError::InsufficientOrderSize)));
    }
    let buy_value: u64 = match amount.checked_mul(order.price) {
        Some(v) => v,
        None => return None,
    };
    let fee_amount: u64 = match buy_value.checked_mul(fee_bps) {
        Some(v) => v / 10000,
        None => return None,
    };
    if fee_amount > buy_value {
        return None;
    }
    let seller0: u64 = buy_value - fee_amount;
    let is_buy = order.side == 0;
    let new_size: u64 = order.size - amount;
    match route {
        NftRoute::Token22Wns => {
            if remaining.len() < 6 {
                return None;
            }
            match wns_mint_check {
                Ok(()) => {},
                Err(e) => return Some(Err(MarketplaceError::Program(e))),
            }
            let pairs = match mint_metadata {
                Ok(p) => p,
                Err(e) => return Some(Err(MarketplaceError::Program(e))),
            };
            let bp = match royalty_basis_points_u64(&pairs) {
                Some(b) => b,
                None => return None,
            };
            let royalties = match get_amount_from_bp(buy_value, bp as u128) {
                Ok(x) => x,
                Err(e) => return Some(Err(MarketplaceError::Market(e))),
            };
            if royalties > seller0 {
                return None;
            }
            Some(Ok(FillPlan {
                is_buy,
                buy_value,
                fee_amount,
                royalties_amount: royalties,
                creator_payments: Vec::new(),
                approve_wns: true,
                seller_received_amount: seller0 - royalties,
                hook_accounts_start: 6,
                new_size,
                closes_order: new_size == 0,
            }))
        },
        NftRoute::Token22 => {
            let pairs = match mint_metadata {
                Ok(p) => p,
                Err(e) => return Some(Err(MarketplaceError::Program(e))),
            };
            let bp = match royalty_basis_points_u64(&pairs) {
                Some(b) => b,
                None => return None,
            };
            let royalties = match get_amount_from_bp(buy_value, bp as u128) {
                Ok(x) => x,
                Err(e) => return Some(Err(MarketplaceError::Market(e))),
            };
            if royalties == 0 {
                return Some(Ok(FillPlan {
                    is_buy,
                    buy_value,
                    fee_amount,
                    royalties_amount: 0,
                    creator_payments: Vec::new(),
                    approve_wns: false,
                    seller_received_amount: seller0,
                    hook_accounts_start: 0,
                    new_size,
                    closes_order: new_size == 0,
                }));
            }
            let creators = match parse_creators(&pairs) {
                Ok(c) => c,
                Err(e) => return Some(Err(MarketplaceError::Market(e))),
            };
            assert(creators_of(pairs_view(pairs@)) is Ok);
            let ghost cs = creators_of(pairs_view(pairs@))->Ok_0;
            assert(creators_are(creators@, cs));
            proof {
                crate::royalties::lemma_creators_total_bounded(pairs_view(pairs@));
                assert(creators@.map_values(|c: (Pubkey, u64)| (c.0@, c.1 as int)) =~= cs);
            }
            if creators.len() > remaining.len() / 2 {
                return Some(Err(MarketplaceError::Market(MarketError::NotEnoughRemainingAccounts)));
            }
            let num_creator_accounts: usize = creators.len() * 2;
            let amounts = match royalty_amounts(royalties, &creators) {
                Some(a) => a,
                None => return None,
            };
            if royalties > seller0 {
                return None;
            }
            assert(creators.len() * 2 <= remaining.len());
            proof {
                let am = amounts@.map_values(|a: u64| a as int);
                assert(am == creator_amounts(royalties as int, cs));
                assert(am.len() == amounts@.len());
                assert forall|j: int| 0 <= j < cs.len() implies amounts@[j] == #[trigger] creator_amounts(royalties as int, cs)[j] by {
                    assert(am[j] == amounts@[j] as int);
                }
            }
            let mut payments: Vec<CreatorPayment> = Vec::new();
            let mut i: usize = 0;
            #[verifier::loop_isolation(false)]
            while i < creators.len()
                invariant
                    0 <= i <= creators.len(),
                    creators_are(creators@, cs),
                    creators.len() * 2 <= remaining.len(),
                    amounts@.len() == cs.len(),
                    forall|j: int| 0 <= j < cs.len() ==> amounts@[j] == #[trigger] creator_amounts(royalties as int, cs)[j],
                    payments@.len() == i,
                    forall|j: int| 0 <= j < i ==> remaining@[2 * j]@ == (#[trigger] cs[j]).0,
                    forall|j: int| 0 <= j < i ==> {
                        &&& (#[trigger] payments@[j]).creator@ == cs[j].0
                        &&& payments@[j].account_index == 2 * j
                        &&& payments@[j].amount == creator_amounts(royalties as int, cs)[j]
                    },
                decreases creators.len() - i,
            {
                let idx: usize = 2 * i;
                if !keys_equal(&remaining[idx], &creators[i].0) {
                    proof {
                        assert(remaining@[2 * i]@ != cs[i as int].0);
                    }
                    return Some(Err(MarketplaceError::Market(MarketError::InvalidRoyaltiesAccount)));
                }
                payments.push(CreatorPayment { creator: creators[i].0, account_index: idx, amount: amounts[i] });
                i = i + 1;
            }
            Some(Ok(FillPlan {
                is_buy,
                buy_value,
                fee_amount,
                royalties_amount: royalties,
                creator_payments: payments,
                approve_wns: false,
                seller_received_amount: seller0 - royalties,
                hook_accounts_start: num_creator_accounts,
                new_size,
                closes_order: new_size == 0,
            }))
        },
        _ => Some(Err(MarketplaceError::Market(MarketError::UnsupportedNft))),
    }
}


/// Works out a fill as `settle_fill` does, with the NFT's route read from the
/// addresses of its token program and managing program, and the metadata read
/// from the bytes of the mint account.
pub fn fill_order_plan(
    order: &Order,
    amount: u64,
    fee_bps: u64,
    token_program: &str,
    nft_program: &str,
    remaining: &Vec<Pubkey>,
    wns_mint_check: Result<(), solana_program::program_error::ProgramError>,
    mint_data: &[u8],
) -> (r: Option<Result<FillPlan, MarketplaceError>>)
    ensures
        match fill_outcome(order.price as int, order.size as int, order.side, amount as int, fee_bps as int,
            route_of(token_program@, nft_program@), remaining@, wns_mint_check is Ok,
            spec_mint_additional_metadata(mint_data@)) {
            None => r is None,
            Some(Ok(s)) => r matches Some(Ok(v)) && plan_is(v, s),
            Some(Err(FillRefusal::Market(m))) => r matches Some(Err(MarketplaceError::Market(x))) && x == m,
            Some(Err(FillRefusal::WnsCheck)) => wns_mint_check matches Err(pe)
                && r == Some(Err::<FillPlan, MarketplaceError>(MarketplaceError::Program(pe))),
            Some(Err(FillRefusal::Metadata)) => r matches Some(Err(MarketplaceError::Program(_))),
        },
{
    let route = nft_route(token_program, nft_program);
    let mint_metadata = get_mint_metadata(mint_data);
    settle_fill(order, amount, fee_bps, route, remaining, wns_mint_check, mint_metadata)
}

/// The sum of the amounts of a list of royalty payments.
pub open spec fn payments_total(p: Seq<(Seq<u8>, int, int)>) -> int
    decreases p.len(),
{
    if p.len() == 0 {
        0
    } else {
        payments_total(p.drop_last()) + p.last().2
    }
}

proof fn lemma_payments_total_is_sum(royalties: int, cs: Seq<(Seq<u8>, int)>)
    ensures
        payments_total(creator_payment_list(royalties, cs)) == crate::royalties::seq_sum(creator_amounts(royalties, cs)),
    decreases cs.len(),
{
    if cs.len() > 0 {
        let t = cs.drop_last();
        assert(creator_payment_list(royalties, cs).drop_last() =~= creator_payment_list(royalties, t));
        assert(creator_amounts(royalties, cs).drop_last() =~= creator_amounts(royalties, t));
        lemma_payments_total_is_sum(royalties, t);
    }
}

/// A fill that goes through, on any route, charges the market fee of
/// `fee_bps` basis points of the value traded, and splits that value without
/// remainder: the market fee, the royalties and what the seller receives add
/// up to the value traded, which is the amount filled times the price; the payments to
/// creators add up to at most the royalties; and the order shrinks by the
/// amount filled, closing exactly when nothing is left.
pub proof fn lemma_fill_conserves_value(
    price: int,
    size: int,
    side: u8,
    amount: int,
    fee_bps: int,
    route: NftRoute,
    keys: Seq<Pubkey>,
    wns_ok: bool,
    md: Option<Seq<(Seq<char>, Seq<char>)>>,
)
    requires
        0 <= price <= u64::MAX,
        0 <= size <= u64::MAX,
        0 <= amount <= u64::MAX,
        0 <= fee_bps <= u64::MAX,
    ensures
        fill_outcome(price, size, side, amount, fee_bps, route, keys, wns_ok, md) matches Some(Ok(s)) ==> {
            &&& s.buy_value == amount * price
            &&& s.fee_amount == s.buy_value * fee_bps / 10000
            &&& s.seller_received_amount == s.buy_value - s.fee_amount - s.royalties_amount
            &&& s.fee_amount + s.royalties_amount + s.seller_received_amount == s.buy_value
            &&& 0 <= s.fee_amount
            &&& 0 <= s.royalties_amount
            &&& 0 <= s.seller_received_amount
            &&& payments_total(s.creator_payments) <= s.royalties_amount
            &&& s.new_size + amount == size
            &&& 0 <= s.new_size
            &&& (s.closes_order <==> s.new_size == 0)
            &&& (s.is_buy <==> side == 0)
        },
{
    if let Some(Ok(s)) = fill_outcome(price, size, side, amount, fee_bps, route, keys, wns_ok, md) {
        let bv = amount * price;
        assert(bv >= 0) by (nonlinear_arith)
            requires
                amount >= 0,
                price >= 0,
                bv == amount * price,
        ;
        assert(bv * fee_bps >= 0) by (nonlinear_arith)
            requires
                bv >= 0,
                fee_bps >= 0,
        ;
        if route == NftRoute::Token22 || route == NftRoute::Token22Wns {
            let p = md->Some_0;
            let bp = royalty_bp_field(p, u64::MAX as int)->Some_0;
            if let Some(i) = crate::royalties::first_key_index(p, crate::royalties::ROYALTY_BASIS_POINTS_FIELD@) {
                crate::royalties::lemma_parse_unsigned_nonneg(p[i].1, u64::MAX as int);
            }
            assert(bp >= 0);
            assert(bv * bp >= 0) by (nonlinear_arith)
                requires
                    bv >= 0,
                    bp >= 0,
            ;
            let roy = amount_from_bp(bv, bp)->Ok_0;
            if route == NftRoute::Token22 && roy != 0 {
                let cs = creators_of(p)->Ok_0;
                crate::royalties::lemma_creators_total_bounded(p);
                crate::royalties::lemma_creator_amounts_within_royalties(roy, cs);
                lemma_payments_total_is_sum(roy, cs);
            }
        }
    }
}


/// The native SOL mint (`So11111111111111111111111111111111111111112`).
pub const WSOL_MINT: [u8; 32] = [
    6, 155, 136, 87, 254, 171, 129, 132, 251, 104, 127, 99, 70, 24, 192, 53, 218, 196, 57, 220, 26, 235, 59, 85,
    152, 160, 240, 0, 0, 0, 0, 1,
];

/// Who takes part in a fill, on either side of it.
#[derive(Debug, Clone, Copy, PartialEq, Eq, Structural)]
pub enum Party {
    /// whoever fills the order
    Taker,
    /// whoever placed the order
    Maker,
    /// the order account, which holds a bid's funds and signs for them
    Order,
}

/// Who gives and receives the NFT and the payment in a fill, and who funds
/// the token accounts.
#[derive(Debug, Clone, Copy, PartialEq, Eq, Structural)]
pub struct FillParties {
    /// owner of the token account the NFT leaves
    pub nft_sender: Party,
    /// owner of the token account the NFT enters
    pub nft_receiver: Party,
    /// owner of the token account the payment leaves
    pub payment_sender: Party,
    /// owner of the token account the payment enters
    pub payment_receiver: Party,
    /// who signs the NFT transfer
    pub nft_authority: Party,
    /// who signs the payment, the fee and the royalties
    pub payment_authority: Party,
}

/// The parties of a fill. On a bid (`is_buy`) the taker sells: the NFT goes
/// from the taker to the maker, and the order pays the taker. On a listing the
/// taker buys: the NFT goes from the maker to the taker, who pays the maker.
pub fn fill_parties(is_buy: bool) -> (p: FillParties)
    ensures
        p.nft_receiver == (if is_buy { Party::Maker } else { Party::Taker }),
        p.nft_sender == (if is_buy { Party::Taker } else { Party::Maker }),
        p.payment_sender == (if is_buy { Party::Order } else { Party::Taker }),
        p.payment_receiver == (if is_buy { Party::Taker } else { Party::Maker }),
        p.nft_authority == (if is_buy { Party::Taker } else { Party::Order }),
        p.payment_authority == (if is_buy { Party::Order } else { Party::Taker }),
        p.payment_receiver == p.nft_sender,
        p.nft_receiver != p.nft_sender,
{
    if is_buy {
        FillParties {
            nft_sender: Party::Taker,
            nft_receiver: Party::Maker,
            payment_sender: Party::Order,
            payment_receiver: Party::Taker,
            nft_authority: Party::Taker,
            payment_authority: Party::Order,
        }
    } else {
        FillParties {
            nft_sender: Party::Maker,
            nft_receiver: Party::Taker,
            payment_sender: Party::Taker,
            payment_receiver: Party::Maker,
            nft_authority: Party::Order,
            payment_authority: Party::Taker,
        }
    }
}

/// How a payment of a fill moves.
#[derive(Debug, Clone, Copy, PartialEq, Eq, Structural)]
pub enum PaymentRoute {
    /// lamports straight from the taker (a listing paid in SOL)
    SystemTransfer,
    /// a checked token transfer
    TokenTransfer,
}

/// How the payment, the fee and each royalty of a fill move: a listing paid
/// in wrapped SOL is paid in lamports by the taker; anything else moves as
/// tokens.
pub fn payment_route(payment_mint: &Pubkey, is_buy: bool) -> (r: PaymentRoute)
    ensures
        r == (if payment_mint@ == WSOL_MINT@ && !is_buy { PaymentRoute::SystemTransfer } else { PaymentRoute::TokenTransfer }),
{
    if keys_equal(payment_mint, &WSOL_MINT) && !is_buy {
        PaymentRoute::SystemTransfer
    } else {
        PaymentRoute::TokenTransfer
    }
}

/// Whether the seller's wrapped SOL is unwrapped after a fill: on a bid paid
/// in wrapped SOL.
pub fn unwrap_sol_if_needed(payment_mint: &Pubkey, is_buy: bool) -> (r: bool)
    ensures
        r == (payment_mint@ == WSOL_MINT@ && is_buy),
{
    keys_equal(payment_mint, &WSOL_MINT) && is_buy
}

/// The transfer hook program of a Token-2022 transfer: the last of the
/// accounts handed to it, if any.
pub fn transfer_hook_program(hook_accounts: &Vec<Pubkey>) -> (r: Option<usize>)
    ensures
        hook_accounts@.len() == 0 ==> r is None,
        hook_accounts@.len() > 0 ==> r == Some((hook_accounts@.len() - 1) as usize),
{
    if hook_accounts.len() > 0 {
        Some(hook_accounts.len() - 1)
    } else {
        None
    }
}

} // verus!
