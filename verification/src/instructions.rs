use vstd::prelude::*;

use crate::accounts::{
    pnft_slots, parse_remaining_accounts, parse_remaining_accounts_pnft, parse_remaining_accounts_pnft_spec,
    remaining_accounts_parse_defined, ParsedRemainingAccounts, PnftParams,
};
use crate::errors::{MarketError, MarketplaceError};
use crate::fees::{bps_of, get_fee_amount, PROTOCOL_FEES_BPS};
use crate::fill::{fill_order_plan, fill_outcome, nft_route, route_of, FillRefusal, FillPlan, NftRoute, METAPLEX_PID};
use crate::text::str_equal;
use crate::keys::{default_key, is_default_key, keys_equal, Pubkey};
use crate::metadata::{decode_metadata, get_is_pnft, is_pnft, spec_metadata_facts, spec_mint_additional_metadata, MetadataFactsView};
use crate::royalties::{pay_royalties, payments_are, royalties_due, royalty_payment_list, royalty_payments_defined, RoyaltyPayment};
use crate::state::{Market, Order, OrderSide, OrderState, Wallet};

verus! {

/// The terms of a new bid.
#[derive(Debug, Clone, Copy)]
pub struct BidData {
    pub nonce: Pubkey,
    pub price: u64,
    pub size: u64,
}

/// The new terms of an order.
#[derive(Debug, Clone, Copy)]
pub struct EditOrderData {
    pub new_price: u64,
    pub new_size: u64,
}

/// The new terms of a buy order.
#[derive(Debug, Clone, Copy)]
pub struct EditBuyOrderData {
    pub new_size: u64,
    pub new_price: u64,
}

/// The new price of a sell order.
#[derive(Debug, Clone, Copy)]
pub struct EditSellOrderData {
    pub new_price: u64,
}

/// The new fee terms of a market.
#[derive(Debug, Clone, Copy)]
pub struct ModifyMarketParams {
    pub fee_recipient: Pubkey,
    pub fee_bps: u64,
}

/// Whether an order that is active has something left to trade.
pub open spec fn order_wf(o: Order) -> bool {
    Order::spec_is_active(o.state) ==> o.size > 0
}

impl Order {
    /// An order account as it is created: all zero.
    pub fn empty() -> (o: Order)
        ensures
            o.size == 0,
            o.price == 0,
            o.state == 0,
            o.side == 0,
            o.payment_mint@ == crate::keys::default_key(),
    {
        Order {
            market: [0u8; 32],
            owner: [0u8; 32],
            nonce: [0u8; 32],
            nft_mint: [0u8; 32],
            payment_mint: crate::keys::default_pubkey(),
            last_edit_timestamp: 0,
            side: 0,
            size: 0,
            price: 0,
            state: 0,
            fees_on: false,
        }
    }
}

/// Sets a market's fee terms, for its initializer only.
pub fn modify_market(market: &mut Market, signer: &Pubkey, params: &ModifyMarketParams) -> (r: Result<(), MarketplaceError>)
    ensures
        old(market).initializer@ == signer@ ==> r is Ok && final(market).fee_recipient == params.fee_recipient
            && final(market).fee_bps == params.fee_bps && final(market).state == old(market).state
            && final(market).initializer == old(market).initializer
            && final(market).market_identifier == old(market).market_identifier
            && final(market).version == old(market).version
            && final(market).reserve == old(market).reserve,
        old(market).initializer@ != signer@ ==> (r matches Err(MarketplaceError::ConstraintViolated)) && *final(market) == *old(market),
{
    if !keys_equal(&market.initializer, signer) {
        return Err(MarketplaceError::ConstraintViolated);
    }
    market.modify_fee(params.fee_recipient, params.fee_bps);
    Ok(())
}

/// Whether `o` is a new order with the given terms.
pub open spec fn is_new_order(
    o: Order,
    market: Pubkey,
    owner: Pubkey,
    nonce: Pubkey,
    nft_mint: Pubkey,
    timestamp: i64,
    side: OrderSide,
    size: u64,
    price: u64,
) -> bool {
    &&& o.market == market
    &&& o.owner == owner
    &&& o.nonce == nonce
    &&& o.nft_mint == nft_mint
    &&& o.last_edit_timestamp == timestamp
    &&& o.side == side.spec_code()
    &&& o.size == size
    &&& o.price == price
    &&& o.state == OrderState::Ready.spec_code()
    &&& o.fees_on
    &&& o.payment_mint@ == crate::keys::default_key()
}

/// A buy order (a bid) is stored with the side byte 0, the byte that a fill
/// reads as a buy, and a sell order with another: filling a new buy order
/// makes the taker the seller, filling a new sell order makes the taker the
/// buyer.
pub proof fn lemma_new_orders_fill_on_their_side(
    o: Order,
    market: Pubkey,
    owner: Pubkey,
    nonce: Pubkey,
    nft_mint: Pubkey,
    timestamp: i64,
    side: OrderSide,
    size: u64,
    price: u64,
    amount: int,
    fee_bps: int,
    route: NftRoute,
    keys: Seq<Pubkey>,
    wns_ok: bool,
    md: Option<Seq<(Seq<char>, Seq<char>)>>,
)
    requires
        is_new_order(o, market, owner, nonce, nft_mint, timestamp, side, size, price),
        0 <= amount <= u64::MAX,
        0 <= fee_bps <= u64::MAX,
    ensures
        o.side == 0 <==> side == OrderSide::Buy,
        fill_outcome(o.price as int, o.size as int, o.side, amount, fee_bps, route, keys, wns_ok, md) matches Some(Ok(s))
            ==> (s.is_buy <==> side == OrderSide::Buy),
{
    crate::fill::lemma_fill_conserves_value(o.price as int, o.size as int, o.side, amount, fee_bps, route, keys, wns_ok, md);
}

/// Places a bid of `data.size` NFTs at `data.price` on the market at
/// `market_address`: refused when the market is closed, or the price or the
/// size is 0.
pub fn bid(
    market: &Market,
    market_address: Pubkey,
    initializer: Pubkey,
    nft_mint: Pubkey,
    data: &BidData,
    timestamp: i64,
) -> (r: Result<Order, MarketplaceError>)
    ensures
        Market::spec_is_active(market.state) && data.price > 0 && data.size > 0 <==> r is Ok,
        r matches Ok(o) ==> is_new_order(o, market_address, initializer, data.nonce, nft_mint, timestamp,
            OrderSide::Buy, data.size, data.price) && order_wf(o),
        r matches Err(e) ==> e matches MarketplaceError::ConstraintViolated,
{
    if !Market::is_active(market.state) {
        return Err(MarketplaceError::ConstraintViolated);
    }
    if !(data.price > 0 && data.size > 0) {
        return Err(MarketplaceError::ConstraintViolated);
    }
    let mut order = Order::empty();
    order.init(
        market_address,
        initializer,
        data.nonce,
        nft_mint,
        timestamp,
        OrderSide::Buy.code(),
        data.size,
        data.price,
        OrderState::Ready.code(),
        true,
    );
    Ok(order)
}

/// Whether the signer may edit or cancel an order on the market at
/// `market_address`: it owns the order, the order is on that market, and the
/// order is active.
pub open spec fn may_change_order(o: Order, market_address: Pubkey, signer: Pubkey) -> bool {
    &&& o.market@ == market_address@
    &&& o.owner@ == signer@
    &&& Order::spec_is_active(o.state)
}

/// Edits an order: a sell order takes the new price, a buy order the new
/// price and size. Refused unless the signer owns the active order on the
/// market at `market_address` and both new terms are above 0.
pub fn edit_order(
    order: &mut Order,
    market_address: &Pubkey,
    signer: &Pubkey,
    data: &EditOrderData,
    timestamp: i64,
) -> (r: Result<(), MarketplaceError>)
    ensures
        (may_change_order(*old(order), *market_address, *signer) && data.new_size > 0 && data.new_price > 0) <==> r is Ok,
        r is Err ==> (r matches Err(MarketplaceError::ConstraintViolated)) && *final(order) == *old(order),
        r is Ok && old(order).side == OrderSide::Sell.spec_code() ==> old(order).is_edit_of(*final(order), data.new_price, old(order).size, timestamp),
        r is Ok && old(order).side == OrderSide::Buy.spec_code() ==> old(order).is_edit_of(*final(order), data.new_price, data.new_size, timestamp),
        r is Ok && old(order).side > 1 ==> *final(order) == *old(order),
        order_wf(*old(order)) ==> order_wf(*final(order)),
{
    if !keys_equal(market_address, &order.market) {
        return Err(MarketplaceError::ConstraintViolated);
    }
    if !keys_equal(&order.owner, signer) || !(data.new_size > 0 && data.new_price > 0) || !Order::is_active(order.state) {
        return Err(MarketplaceError::ConstraintViolated);
    }
    if order.side == OrderSide::Sell.code() {
        order.edit_sell(data.new_price, timestamp);
    } else if order.side == OrderSide::Buy.code() {
        order.edit_buy(data.new_price, data.new_size, timestamp);
    }
    Ok(())
}

/// Edits the price and size of a buy order. Refused unless the signer owns
/// the active order on the market at `market_address`, both new terms are
/// above 0, and the wallet holds at least their product.
pub fn edit_buy_order(
    order: &mut Order,
    wallet: &Wallet,
    market_address: &Pubkey,
    signer: &Pubkey,
    data: &EditBuyOrderData,
    timestamp: i64,
) -> (r: Result<(), MarketplaceError>)
    requires
        may_change_order(*old(order), *market_address, *signer) && data.new_size > 0 && data.new_price > 0
            ==> data.new_price * data.new_size <= u64::MAX,
    ensures
        (may_change_order(*old(order), *market_address, *signer) && data.new_size > 0 && data.new_price > 0
            && wallet.balance >= data.new_price * data.new_size) <==> r is Ok,
        r is Err ==> (r matches Err(MarketplaceError::ConstraintViolated)) && *final(order) == *old(order),
        r is Ok ==> old(order).is_edit_of(*final(order), data.new_price, data.new_size, timestamp),
        order_wf(*final(order)) || !order_wf(*old(order)),
{
    if !keys_equal(market_address, &order.market) {
        return Err(MarketplaceError::ConstraintViolated);
    }
    if !keys_equal(&order.owner, signer) || !(data.new_size > 0 && data.new_price > 0) || !Order::is_active(order.state) {
        return Err(MarketplaceError::ConstraintViolated);
    }
    if wallet.balance < data.new_price * data.new_size {
        return Err(MarketplaceError::ConstraintViolated);
    }
    order.edit_buy(data.new_price, data.new_size, timestamp);
    Ok(())
}

/// Edits the price of a sell order. Refused unless the signer owns the active
/// order, the new price is above 0, and the order is on the market at
/// `market_address`, which is open.
pub fn edit_sell_order(
    order: &mut Order,
    market: &Market,
    market_address: &Pubkey,
    signer: &Pubkey,
    data: &EditSellOrderData,
    timestamp: i64,
) -> (r: Result<(), MarketplaceError>)
    ensures
        (may_change_order(*old(order), *market_address, *signer) && data.new_price > 0
            && Market::spec_is_active(market.state)) <==> r is Ok,
        r is Err ==> (r matches Err(MarketplaceError::ConstraintViolated)) && *final(order) == *old(order),
        r is Ok ==> old(order).is_edit_of(*final(order), data.new_price, old(order).size, timestamp),
        order_wf(*old(order)) ==> order_wf(*final(order)),
{
    if !keys_equal(&order.owner, signer) || !(data.new_price > 0) || !Order::is_active(order.state) {
        return Err(MarketplaceError::ConstraintViolated);
    }
    if !Market::is_active(market.state) || !keys_equal(market_address, &order.market) {
        return Err(MarketplaceError::ConstraintViolated);
    }
    order.edit_sell(data.new_price, timestamp);
    Ok(())
}

/// Cancels a bid: closes the order. Refused unless the signer owns the active
/// order on the market at `market_address`.
pub fn cancel_bid(order: &mut Order, market_address: &Pubkey, signer: &Pubkey) -> (r: Result<(), MarketplaceError>)
    ensures
        may_change_order(*old(order), *market_address, *signer) <==> r is Ok,
        r is Err ==> (r matches Err(MarketplaceError::ConstraintViolated)) && *final(order) == *old(order),
        r is Ok ==> *final(order) == (Order { state: OrderState::Closed.spec_code(), ..*old(order) }),
        order_wf(*final(order)) || !order_wf(*old(order)),
{
    if !keys_equal(&order.owner, signer) || !Order::is_active(order.state) {
        return Err(MarketplaceError::ConstraintViolated);
    }
    if !keys_equal(market_address, &order.market) {
        return Err(MarketplaceError::ConstraintViolated);
    }
    order.state = OrderState::Closed.code();
    Ok(())
}


/// Whether a fill may go ahead: the maker owns the order, the market is open,
/// the order is active and on the market at `market_address`, and the fee
/// recipient and payment mint are the market's and the order's.
pub open spec fn may_fill(
    o: Order,
    market: Market,
    market_address: Pubkey,
    maker: Pubkey,
    fee_recipient: Pubkey,
    payment_mint: Pubkey,
) -> bool {
    &&& maker@ == o.owner@
    &&& Market::spec_is_active(market.state)
    &&& Order::spec_is_active(o.state)
    &&& o.market@ == market_address@
    &&& fee_recipient@ == market.fee_recipient@
    &&& payment_mint@ == o.payment_mint@
}

/// Fills `amount` NFTs of an order (see `settle_fill`), after the checks of
/// `may_fill`; a fill that goes through leaves the order with its new size and
/// edit time, and closes it when nothing is left. `None` where the program
/// aborts.
pub fn fill_order(
    order: &mut Order,
    market: &Market,
    market_address: &Pubkey,
    maker: &Pubkey,
    fee_recipient: &Pubkey,
    payment_mint: &Pubkey,
    token_program: &str,
    nft_program: &str,
    amount: u64,
    remaining: &Vec<Pubkey>,
    wns_mint_check: Result<(), solana_program::program_error::ProgramError>,
    mint_data: &[u8],
    timestamp: i64,
) -> (r: Option<Result<FillPlan, MarketplaceError>>)
    ensures
        !may_fill(*old(order), *market, *market_address, *maker, *fee_recipient, *payment_mint)
            ==> (r matches Some(Err(MarketplaceError::ConstraintViolated))),
        may_fill(*old(order), *market, *market_address, *maker, *fee_recipient, *payment_mint) ==> match fill_outcome(
            old(order).price as int, old(order).size as int, old(order).side, amount as int, market.fee_bps as int,
            route_of(token_program@, nft_program@), remaining@, wns_mint_check is Ok,
            spec_mint_additional_metadata(mint_data@)) {
            None => r is None,
            Some(Ok(s)) => r matches Some(Ok(v)) && crate::fill::plan_is(v, s)
                && old(order).is_edit_of(
                    Order { state: old(order).state, ..*final(order) }, old(order).price, s.new_size as u64, timestamp)
                && final(order).state == (if s.closes_order { OrderState::Closed.spec_code() } else { old(order).state }),
            Some(Err(FillRefusal::Market(m))) => r matches Some(Err(MarketplaceError::Market(x))) && x == m,
            Some(Err(FillRefusal::WnsCheck)) => wns_mint_check matches Err(pe)
                && r == Some(Err::<FillPlan, MarketplaceError>(MarketplaceError::Program(pe))),
            Some(Err(FillRefusal::Metadata)) => r matches Some(Err(MarketplaceError::Program(_))),
        },
        !(r matches Some(Ok(_))) ==> *final(order) == *old(order),
        order_wf(*final(order)) || !order_wf(*old(order)),
{
    if !keys_equal(maker, &order.owner) || !Market::is_active(market.state) || !Order::is_active(order.state)
        || !keys_equal(&order.market, market_address) || !keys_equal(fee_recipient, &market.fee_recipient)
        || !keys_equal(payment_mint, &order.payment_mint) {
        return Some(Err(MarketplaceError::ConstraintViolated));
    }
    let plan = match fill_order_plan(&*order, amount, market.fee_bps, token_program, nft_program, remaining, wns_mint_check, mint_data) {
        Some(Ok(p)) => p,
        Some(Err(e)) => return Some(Err(e)),
        None => return None,
    };
    proof {
        crate::fill::lemma_fill_conserves_value(old(order).price as int, old(order).size as int, old(order).side,
            amount as int, market.fee_bps as int, route_of(token_program@, nft_program@), remaining@,
            wns_mint_check is Ok, spec_mint_additional_metadata(mint_data@));
    }
    let price = order.price;
    let pm = order.payment_mint;
    order.edit_order(price, pm, plan.new_size, timestamp);
    if plan.closes_order {
        order.state = OrderState::Closed.code();
    }
    Some(Ok(plan))
}

/// The accounts of a list from `start` on (none when `start` is past the end).
pub open spec fn suffix_of(keys: Seq<Pubkey>, start: int) -> Seq<Pubkey> {
    if start < keys.len() {
        keys.subrange(start, keys.len() as int)
    } else {
        Seq::empty()
    }
}

/// The accounts of a list from `start` on (none when `start` is past the end).
pub fn suffix(keys: &Vec<Pubkey>, start: usize) -> (r: Vec<Pubkey>)
    ensures
        r@ == suffix_of(keys@, start as int),
{
    let mut out: Vec<Pubkey> = Vec::new();
    let mut i: usize = start;
    if start >= keys.len() {
        return out;
    }
    while i < keys.len()
        invariant
            start <= i <= keys.len(),
            start < keys.len(),
            out@ == keys@.subrange(start as int, i as int),
        decreases keys.len() - i,
    {
        out.push(keys[i]);
        assert(keys@.subrange(start as int, i + 1) =~= keys@.subrange(start as int, i as int).push(keys@[i as int]));
        i = i + 1;
    }
    out
}

/// What paying royalties gives for a sale at `price`, by the metadata `m`,
/// out of the creator accounts: `None` where the program aborts.
pub open spec fn royalty_outcome(price: int, m: MetadataFactsView, accounts: Seq<Pubkey>) -> Option<Result<Seq<(int, int)>, MarketError>> {
    match royalties_due(price, m) {
        Err(e) => Some(Err(e)),
        Ok((rest, roy)) => if royalty_payments_defined(roy, m, accounts) {
            Some(Ok(royalty_payment_list(roy, m, accounts)))
        } else {
            None
        },
    }
}

/// Where the creator accounts of a fill's remaining accounts start.
pub open spec fn fill_creator_start(keys: Seq<Pubkey>) -> int {
    parse_remaining_accounts_pnft_spec(keys, false, Some(1usize)).3
}

/// What the program moves when a buy order is filled, once its checks pass.
pub struct FillBuyPlan {
    /// the pNFT accounts, by position among the remaining accounts
    pub pnft_params: PnftParams,
    /// the buyer's token record, by position, unless the default address
    pub buyer_token_record: Option<usize>,
    /// the creator accounts start at this position
    pub creator_accounts_start: usize,
    /// whether the NFT is programmable (and royalties are paid)
    pub is_pnft: bool,
    /// the royalty payments, by position among the creator accounts
    pub royalty_payments: Vec<RoyaltyPayment>,
    /// whether the fill closes the order
    pub closes_order: bool,
}

/// Whether a buy order may be filled: the buyer owns it, the market is open,
/// the order is active and on the market, and it is for this NFT or any.
pub open spec fn may_fill_buy(o: Order, market: Market, market_address: Pubkey, buyer: Pubkey, nft_mint: Pubkey) -> bool {
    &&& o.owner@ == buyer@
    &&& Market::spec_is_active(market.state)
    &&& Order::spec_is_active(o.state)
    &&& o.market@ == market_address@
    &&& (o.nft_mint@ == default_key() || o.nft_mint@ == nft_mint@)
}

/// Whether filling a buy order aborts before it reads the NFT's metadata: no
/// remaining accounts, a wallet short of the price, fewer than five remaining
/// accounts, or nothing left in the order.
pub open spec fn fill_buy_aborts(o: Order, balance: int, keys: Seq<Pubkey>) -> bool {
    keys.len() == 0 || balance < o.price || keys.len() < 5 || o.size == 0
}

/// Fills one NFT of a buy order, sold by the initializer: the wallet pays the
/// price, the order shrinks by one and closes at its last NFT, and for a
/// programmable NFT the creators are paid their royalties out of the creator
/// accounts among `remaining`. `metadata_data` is the NFT's metadata account.
/// `None` where the program aborts.
pub fn fill_buy_order(
    order: &mut Order,
    wallet: &mut Wallet,
    market: &Market,
    market_address: &Pubkey,
    buyer: &Pubkey,
    nft_mint: &Pubkey,
    remaining: &Vec<Pubkey>,
    metadata_data: &[u8],
    timestamp: i64,
) -> (r: Option<Result<FillBuyPlan, MarketplaceError>>)
    ensures
        !may_fill_buy(*old(order), *market, *market_address, *buyer, *nft_mint)
            ==> (r matches Some(Err(MarketplaceError::ConstraintViolated))),
        may_fill_buy(*old(order), *market, *market_address, *buyer, *nft_mint)
            && fill_buy_aborts(*old(order), old(wallet).balance as int, remaining@) ==> r is None,
        may_fill_buy(*old(order), *market, *market_address, *buyer, *nft_mint)
            && !fill_buy_aborts(*old(order), old(wallet).balance as int, remaining@) ==> match spec_metadata_facts(metadata_data@) {
            None => r matches Some(Err(MarketplaceError::AccountDataUnreadable)),
            Some(m) => {
                let creators = suffix_of(remaining@, fill_creator_start(remaining@));
                let outcome = if is_pnft(m) { royalty_outcome(old(order).price as int, m, creators) } else { Some(Ok(Seq::empty())) };
                match outcome {
                    None => r is None,
                    Some(Err(e)) => r matches Some(Err(MarketplaceError::Market(x))) && x == e,
                    Some(Ok(pays)) => r matches Some(Ok(plan)) && payments_are(plan.royalty_payments@, pays)
                        && plan.is_pnft == is_pnft(m)
                        && (plan.pnft_params.token_record, plan.pnft_params.authorization_rules,
                            plan.pnft_params.authorization_rules_program) == pnft_slots(remaining@)
                        && plan.pnft_params.authorization_data is None
                        && plan.creator_accounts_start == fill_creator_start(remaining@)
                        && plan.buyer_token_record == (if remaining@[4]@ == default_key() { None } else { Some(4usize) })
                        && plan.closes_order == (old(order).size == 1)
                        && final(wallet).balance == old(wallet).balance - old(order).price
                        && old(order).is_edit_of(Order { state: old(order).state, ..*final(order) },
                            old(order).price, (old(order).size - 1) as u64, timestamp)
                        && final(order).state == (if old(order).size == 1 { OrderState::Closed.spec_code() } else { old(order).state }),
                }
            },
        },
        !(r matches Some(Ok(_))) ==> *final(order) == *old(order) && *final(wallet) == *old(wallet),
        final(wallet).owner == old(wallet).owner,
        final(wallet).reserve == old(wallet).reserve,
        final(wallet).version == old(wallet).version,
        order_wf(*final(order)) || !order_wf(*old(order)),
{
    if !keys_equal(&order.owner, buyer) || !Market::is_active(market.state) || !Order::is_active(order.state)
        || !keys_equal(&order.market, market_address) {
        return Some(Err(MarketplaceError::ConstraintViolated));
    }
    if !(is_default_key(&order.nft_mint) || keys_equal(&order.nft_mint, nft_mint)) {
        return Some(Err(MarketplaceError::ConstraintViolated));
    }
    if remaining.len() == 0 {
        return None;
    }
    let parsed = parse_remaining_accounts_pnft(remaining, false, Some(1));
    if wallet.balance < order.price || remaining.len() < 5 || order.size == 0 {
        return None;
    }
    let buyer_token_record = if is_default_key(&remaining[4]) { None } else { Some(4usize) };
    let metadata = match decode_metadata(metadata_data) {
        Some(m) => m,
        None => return Some(Err(MarketplaceError::AccountDataUnreadable)),
    };
    let pnft = get_is_pnft(&metadata);
    let creator_accounts = suffix(remaining, parsed.creator_accounts_start);
    let payments = if pnft {
        match pay_royalties(order.price, metadata_data, &creator_accounts) {
            Some(Ok(v)) => v,
            Some(Err(e)) => return Some(Err(e)),
            None => return None,
        }
    } else {
        Vec::new()
    };
    let size = order.size;
    let price = order.price;
    wallet.edit_balance(false, price);
    order.edit_buy(price, size - 1, timestamp);
    if size == 1 {
        order.state = OrderState::Closed.code();
    }
    Some(Ok(FillBuyPlan {
        pnft_params: parsed.pnft_params,
        buyer_token_record,
        creator_accounts_start: parsed.creator_accounts_start,
        is_pnft: pnft,
        royalty_payments: payments,
        closes_order: size == 1,
    }))
}


/// What the program moves when a sell order is filled, once its checks pass.
pub struct FillSellPlan {
    /// the protocol fee, paid to the treasury
    pub fee_amount: u64,
    /// the price, paid to the seller
    pub price: u64,
    /// whether the NFT is programmable (royalties are paid; no thaw first)
    pub is_pnft: bool,
    /// the pNFT accounts, by position among the remaining accounts
    pub pnft_params: PnftParams,
    /// the destination token record, by position, unless the default address
    pub dest_token_record: Option<usize>,
    /// the creator accounts start at this position
    pub creator_accounts_start: usize,
    /// the royalty payments, by position among the creator accounts
    pub royalty_payments: Vec<RoyaltyPayment>,
}

/// Whether a sell order may be filled: the seller owns it, the market is
/// open, and the order is active and on the market.
pub open spec fn may_fill_sell(o: Order, market: Market, market_address: Pubkey, seller: Pubkey) -> bool {
    &&& o.owner@ == seller@
    &&& Market::spec_is_active(market.state)
    &&& Order::spec_is_active(o.state)
    &&& o.market@ == market_address@
}

/// Whether filling a sell order aborts before it reads the NFT's metadata:
/// fewer than five remaining accounts, or a fee that overflows a `u64`.
pub open spec fn fill_sell_aborts(o: Order, keys: Seq<Pubkey>) -> bool {
    keys.len() < 5 || o.price * PROTOCOL_FEES_BPS > u64::MAX
}

/// Fills a sell order, bought by the initializer: the buyer pays the protocol
/// fee and the price, a non-programmable NFT is thawed first, the creators of
/// a programmable NFT are paid their royalties out of the creator accounts,
/// and the order is closed. `None` where the program aborts.
pub fn fill_sell_order(
    order: &mut Order,
    market: &Market,
    market_address: &Pubkey,
    seller: &Pubkey,
    remaining: &Vec<Pubkey>,
    metadata_data: &[u8],
) -> (r: Option<Result<FillSellPlan, MarketplaceError>>)
    ensures
        !may_fill_sell(*old(order), *market, *market_address, *seller)
            ==> (r matches Some(Err(MarketplaceError::ConstraintViolated))),
        may_fill_sell(*old(order), *market, *market_address, *seller) && fill_sell_aborts(*old(order), remaining@) ==> r is None,
        may_fill_sell(*old(order), *market, *market_address, *seller) && !fill_sell_aborts(*old(order), remaining@)
            ==> match spec_metadata_facts(metadata_data@) {
            None => r matches Some(Err(MarketplaceError::AccountDataUnreadable)),
            Some(m) => {
                let creators = suffix_of(remaining@, fill_creator_start(remaining@));
                let outcome = if is_pnft(m) { royalty_outcome(old(order).price as int, m, creators) } else { Some(Ok(Seq::empty())) };
                match outcome {
                    None => r is None,
                    Some(Err(e)) => r matches Some(Err(MarketplaceError::Market(x))) && x == e,
                    Some(Ok(pays)) => r matches Some(Ok(plan)) && payments_are(plan.royalty_payments@, pays)
                        && plan.fee_amount == bps_of(old(order).price as int, PROTOCOL_FEES_BPS as int)
                        && plan.price == old(order).price
                        && plan.is_pnft == is_pnft(m)
                        && (plan.pnft_params.token_record, plan.pnft_params.authorization_rules,
                            plan.pnft_params.authorization_rules_program) == pnft_slots(remaining@)
                        && plan.pnft_params.authorization_data is None
                        && plan.creator_accounts_start == fill_creator_start(remaining@)
                        && plan.dest_token_record == (if remaining@[4]@ == default_key() { None } else { Some(4usize) })
                        && *final(order) == (Order { state: OrderState::Closed.spec_code(), ..*old(order) }),
                }
            },
        },
        !(r matches Some(Ok(_))) ==> *final(order) == *old(order),
        order_wf(*final(order)) || !order_wf(*old(order)),
{
    if !keys_equal(&order.owner, seller) || !Market::is_active(market.state) || !Order::is_active(order.state)
        || !keys_equal(&order.market, market_address) {
        return Some(Err(MarketplaceError::ConstraintViolated));
    }
    if remaining.len() < 5 {
        return None;
    }
    let parsed = parse_remaining_accounts_pnft(remaining, false, Some(1));
    let dest_token_record = if is_default_key(&remaining[4]) { None } else { Some(4usize) };
    if !keys_equal(&order.owner, seller) {
        return Some(Err(MarketplaceError::Market(MarketError::WrongAccount)));
    }
    if order.price > u64::MAX / PROTOCOL_FEES_BPS {
        return None;
    }
    let fee_amount = get_fee_amount(order.price);
    let metadata = match decode_metadata(metadata_data) {
        Some(m) => m,
        None => return Some(Err(MarketplaceError::AccountDataUnreadable)),
    };
    let pnft = get_is_pnft(&metadata);
    let creator_accounts = suffix(remaining, parsed.creator_accounts_start);
    let payments = if pnft {
        match pay_royalties(order.price, metadata_data, &creator_accounts) {
            Some(Ok(v)) => v,
            Some(Err(e)) => return Some(Err(e)),
            None => return None,
        }
    } else {
        Vec::new()
    };
    order.state = OrderState::Closed.code();
    Some(Ok(FillSellPlan {
        fee_amount,
        price: order.price,
        is_pnft: pnft,
        pnft_params: parsed.pnft_params,
        dest_token_record,
        creator_accounts_start: parsed.creator_accounts_start,
        royalty_payments: payments,
    }))
}


/// The terms of a new order.
#[derive(Debug, Clone, Copy)]
pub struct InitOrderData {
    pub nonce: Pubkey,
    pub price: u64,
    pub size: u64,
}

/// The terms of a new listing.
#[derive(Debug, Clone, Copy)]
pub struct ListData {
    pub nonce: Pubkey,
    pub price: u64,
}

/// Places a buy order of `data.size` NFTs at `data.price`, backed by the
/// bidding wallet: refused unless the wallet holds the price of all of them,
/// the market is open, and price and size are above 0. `None` where the
/// program aborts: the total overflows a `u64`, or there are no remaining
/// accounts.
pub fn init_buy_order(
    wallet: &Wallet,
    market: &Market,
    market_address: Pubkey,
    initializer: Pubkey,
    nft_mint: Pubkey,
    data: &InitOrderData,
    remaining: &Vec<Pubkey>,
    timestamp: i64,
) -> (r: Option<Result<Order, MarketplaceError>>)
    ensures
        data.price * data.size > u64::MAX ==> r is None,
        data.price * data.size <= u64::MAX ==> {
            if !(wallet.balance >= data.price * data.size && Market::spec_is_active(market.state) && data.price > 0
                && data.size > 0) {
                r matches Some(Err(MarketplaceError::ConstraintViolated))
            } else if remaining@.len() == 0 {
                r is None
            } else {
                r matches Some(Ok(o)) && is_new_order(o, market_address, initializer, data.nonce, nft_mint, timestamp,
                    OrderSide::Buy, data.size, data.price) && order_wf(o)
            }
        },
{
    let total: u64 = match data.price.checked_mul(data.size) {
        Some(t) => t,
        None => return None,
    };
    if !(wallet.balance >= total) || !Market::is_active(market.state) || !(data.price > 0 && data.size > 0) {
        return Some(Err(MarketplaceError::ConstraintViolated));
    }
    if remaining.len() == 0 {
        return None;
    }
    let parsed = parse_remaining_accounts(remaining, initializer, true, false, None);
    let mut order = Order::empty();
    order.init(
        market_address,
        initializer,
        data.nonce,
        nft_mint,
        timestamp,
        OrderSide::Buy.code(),
        data.size,
        data.price,
        OrderState::Ready.code(),
        parsed.fees_on,
    );
    Some(Ok(order))
}

/// What the program does with the seller's NFT when a sell order is placed.
pub struct InitSellPlan {
    /// the new order
    pub order: Order,
    /// whether the NFT is programmable (it is delegated, not frozen)
    pub is_pnft: bool,
    /// the remaining accounts, read
    pub parsed: ParsedRemainingAccounts,
}

/// Places a sell order of one NFT at `data.price`: refused unless the market
/// is open, price and size are above 0, the mint is verified for the market,
/// and the token account is the initializer's and holds this mint. The NFT is
/// delegated to the bidding wallet and, unless programmable, frozen.
/// `None` where the program aborts: the remaining accounts cannot be read
/// (see `remaining_accounts_parse_defined`).
pub fn init_sell_order(
    market: &Market,
    market_address: Pubkey,
    initializer: Pubkey,
    nft_mint: Pubkey,
    mint_verified: u8,
    token_account_owner: Pubkey,
    token_account_mint: Pubkey,
    data: &InitOrderData,
    remaining: &Vec<Pubkey>,
    metadata_data: &[u8],
    timestamp: i64,
) -> (r: Option<Result<InitSellPlan, MarketplaceError>>)
    ensures
        !(Market::spec_is_active(market.state) && data.price > 0 && data.size > 0 && mint_verified == 1
            && token_account_owner@ == initializer@ && token_account_mint@ == nft_mint@)
            ==> (r matches Some(Err(MarketplaceError::ConstraintViolated))),
        (Market::spec_is_active(market.state) && data.price > 0 && data.size > 0 && mint_verified == 1
            && token_account_owner@ == initializer@ && token_account_mint@ == nft_mint@) ==> {
            if !remaining_accounts_parse_defined(remaining@, true, None) {
                r is None
            } else {
                match spec_metadata_facts(metadata_data@) {
                    None => r matches Some(Err(MarketplaceError::AccountDataUnreadable)),
                    Some(m) => r matches Some(Ok(plan)) && is_new_order(plan.order, market_address, initializer,
                        data.nonce, nft_mint, timestamp, OrderSide::Sell, 1, data.price) && order_wf(plan.order)
                        && plan.is_pnft == is_pnft(m) && ({
                            let p = parse_remaining_accounts_pnft_spec(remaining@, true, None);
                            &&& (plan.parsed.pnft_params.token_record, plan.parsed.pnft_params.authorization_rules,
                                plan.parsed.pnft_params.authorization_rules_program) == pnft_slots(remaining@)
                            &&& plan.parsed.pnft_params.authorization_data is None
                            &&& plan.parsed.fees_on
                            &&& plan.parsed.delegate_record == p.1
                            &&& plan.parsed.existing_delegate_params == p.2
                            &&& plan.parsed.creator_accounts_start == p.3
                        }),
                }
            }
        },
{
    if !Market::is_active(market.state) || !(data.price > 0 && data.size > 0) || mint_verified != 1
        || !keys_equal(&token_account_owner, &initializer) || !keys_equal(&token_account_mint, &nft_mint) {
        return Some(Err(MarketplaceError::ConstraintViolated));
    }
    if remaining.len() == 0 {
        return None;
    }
    if remaining.len() > 4 && !is_default_key(&remaining[4]) && remaining.len() <= 5 {
        return None;
    }
    let parsed = parse_remaining_accounts_pnft(remaining, true, None);
    let mut order = Order::empty();
    order.init(
        market_address,
        initializer,
        data.nonce,
        nft_mint,
        timestamp,
        OrderSide::Sell.code(),
        1,
        data.price,
        OrderState::Ready.code(),
        true,
    );
    let metadata = match decode_metadata(metadata_data) {
        Some(m) => m,
        None => return Some(Err(MarketplaceError::AccountDataUnreadable)),
    };
    let pnft = get_is_pnft(&metadata);
    Some(Ok(InitSellPlan { order, is_pnft: pnft, parsed }))
}

/// How a listed NFT moves into the order's token account.
pub enum ListTransfer {
    /// a Metaplex transfer: the metadata and edition are the first two
    /// remaining accounts, the rest are read from position 2 on
    Metaplex { is_pnft: bool, parsed: ParsedRemainingAccounts },
    /// a Token-2022 transfer, after a WNS approval where `wns_approval`; the
    /// remaining accounts from `hook_accounts_start` on go to the transfer
    Token22 { wns_approval: bool, hook_accounts_start: usize },
}

/// Lists an NFT for sale at `data.price`: refused unless the market is open,
/// the price is above 0 and the mint is verified for the market; the NFT must
/// move through a supported program (Metaplex on the token program, or
/// Token-2022). `metadata_data` is the NFT's metadata account (the first
/// remaining account) where it is a Metaplex NFT. `None` where the program
/// aborts: too few remaining accounts.
pub fn list(
    market: &Market,
    market_address: Pubkey,
    initializer: Pubkey,
    nft_mint: Pubkey,
    mint_verified: u8,
    data: &ListData,
    token_program: &str,
    nft_program: &str,
    remaining: &Vec<Pubkey>,
    metadata_data: &[u8],
    timestamp: i64,
) -> (r: Option<Result<(Order, ListTransfer), MarketplaceError>>)
    ensures
        !(Market::spec_is_active(market.state) && data.price > 0 && mint_verified == 1)
            ==> (r matches Some(Err(MarketplaceError::ConstraintViolated))),
        r matches Some(Ok((o, t))) ==> is_new_order(o, market_address, initializer, data.nonce, nft_mint, timestamp,
            OrderSide::Sell, 1, data.price) && order_wf(o),
        (Market::spec_is_active(market.state) && data.price > 0 && mint_verified == 1) ==> match route_of(token_program@, nft_program@) {
            NftRoute::Token => if nft_program@ != METAPLEX_PID@ {
                r matches Some(Err(MarketplaceError::Market(MarketError::UnsupportedNft)))
            } else if remaining@.len() < 2 || !remaining_accounts_parse_defined(remaining@.subrange(2, remaining@.len() as int), true, None) {
                r is None
            } else {
                match spec_metadata_facts(metadata_data@) {
                    None => r matches Some(Err(MarketplaceError::AccountDataUnreadable)),
                    Some(m) => r matches Some(Ok((o, ListTransfer::Metaplex { is_pnft: p, parsed: x }))) && p == is_pnft(m) && ({
                        let q = parse_remaining_accounts_pnft_spec(remaining@.subrange(2, remaining@.len() as int), true, None);
                        &&& (x.pnft_params.token_record, x.pnft_params.authorization_rules,
                            x.pnft_params.authorization_rules_program) == q.0
                        &&& x.pnft_params.authorization_data is None
                        &&& x.fees_on
                        &&& x.delegate_record == q.1
                        &&& x.existing_delegate_params == q.2
                        &&& x.creator_accounts_start == q.3
                    }),
                }
            },
            NftRoute::Token22Wns => if remaining@.len() < 3 {
                r is None
            } else {
                r matches Some(Ok((o, ListTransfer::Token22 { wns_approval: true, hook_accounts_start: 3 })))
            },
            NftRoute::Token22 => r matches Some(Ok((o, ListTransfer::Token22 { wns_approval: false, hook_accounts_start: 0 }))),
            _ => r matches Some(Err(MarketplaceError::Market(MarketError::UnsupportedNft))),
        },
{
    if !Market::is_active(market.state) || !(data.price > 0) || mint_verified != 1 {
        return Some(Err(MarketplaceError::ConstraintViolated));
    }
    let mut order = Order::empty();
    order.init(
        market_address,
        initializer,
        data.nonce,
        nft_mint,
        timestamp,
        OrderSide::Sell.code(),
        1,
        data.price,
        OrderState::Ready.code(),
        true,
    );
    let route = nft_route(token_program, nft_program);
    match route {
        NftRoute::Token => {
            if !str_equal(nft_program, METAPLEX_PID) {
                return Some(Err(MarketplaceError::Market(MarketError::UnsupportedNft)));
            }
            if remaining.len() < 2 {
                return None;
            }
            let rest = suffix(remaining, 2);
            assert(rest@ == remaining@.subrange(2, remaining@.len() as int));
            if rest.len() == 0 {
                return None;
            }
            if rest.len() > 4 && !is_default_key(&rest[4]) && rest.len() <= 5 {
                return None;
            }
            let parsed = parse_remaining_accounts_pnft(&rest, true, None);
            let metadata = match decode_metadata(metadata_data) {
                Some(m) => m,
                None => return Some(Err(MarketplaceError::AccountDataUnreadable)),
            };
            let pnft = get_is_pnft(&metadata);
            Some(Ok((order, ListTransfer::Metaplex { is_pnft: pnft, parsed })))
        },
        NftRoute::Token22Wns => {
            if remaining.len() < 3 {
                return None;
            }
            Some(Ok((order, ListTransfer::Token22 { wns_approval: true, hook_accounts_start: 3 })))
        },
        NftRoute::Token22 => Some(Ok((order, ListTransfer::Token22 { wns_approval: false, hook_accounts_start: 0 }))),
        _ => Some(Err(MarketplaceError::Market(MarketError::UnsupportedNft))),
    }
}


/// Creates a market for the collection `market_identifier`, initialized by
/// `initializer`, and the event that reports it.
pub fn init_market(
    market: &mut Market,
    market_address: Pubkey,
    market_identifier: Pubkey,
    initializer: Pubkey,
) -> (e: crate::state::MarketEditEvent)
    ensures
        final(market).version == crate::state::MARKET_VERSION,
        final(market).market_identifier == market_identifier,
        final(market).initializer == initializer,
        final(market).state == crate::state::MarketState::Open.spec_code(),
        final(market).fee_recipient == old(market).fee_recipient,
        final(market).fee_bps == old(market).fee_bps,
        final(market).reserve == old(market).reserve,
        e.edit_type == 0,
        e.address@ == crate::keys::spec_pubkey_to_string(market_address@),
        e.market_identifier@ == crate::keys::spec_pubkey_to_string(market_identifier@),
        e.initializer@ == crate::keys::spec_pubkey_to_string(initializer@),
        e.state == crate::state::MarketState::Open.spec_code(),
        e.version == crate::state::MARKET_VERSION,
{
    market.init(market_identifier, initializer);
    market.get_edit_event(market_address, crate::state::MarketEditType::Init)
}

} // verus!
