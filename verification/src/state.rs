use vstd::prelude::*;

use crate::keys::{pubkey_to_string, spec_pubkey_to_string, Pubkey};

verus! {

/// Version written into a market account when it is created.
pub const MARKET_VERSION: u8 = 1;

/// Version written into a wallet account when it is created.
pub const WALLET_VERSION: u8 = 1;

/// Whether a market takes new orders.
#[derive(Debug, Clone, Copy, PartialEq, Eq, Structural)]
pub enum MarketState {
    /// market is open and can be used to create orders
    Open,
    /// market is closed and cannot be used to create orders
    Closed,
}

impl MarketState {
    /// The byte that stands for the state in a market account.
    pub open spec fn spec_code(self) -> u8 {
        match self {
            MarketState::Open => 0,
            MarketState::Closed => 1,
        }
    }

    /// The byte that stands for the state in a market account.
    pub fn code(self) -> (c: u8)
        ensures
            c == self.spec_code(),
    {
        match self {
            MarketState::Open => 0,
            MarketState::Closed => 1,
        }
    }
}

/// What happened to a market, as its events report it.
#[derive(Debug, Clone, Copy, PartialEq, Eq, Structural)]
pub enum MarketEditType {
    Init,
}

impl MarketEditType {
    /// The byte that stands for the edit in an event.
    pub fn code(self) -> (c: u8)
        ensures
            c == 0,
    {
        0
    }
}

/// A market: the collection its NFTs belong to, who created it, whether it is
/// open, and the fee it takes on fills.
#[derive(Debug, Clone, Copy)]
pub struct Market {
    /// market account version
    pub version: u8,
    /// mint of the index to which the NFTs belong to
    pub market_identifier: Pubkey,
    /// initializer of the market - can edit and close the market
    pub initializer: Pubkey,
    /// state representing the market - open/closed
    pub state: u8,
    /// who receives the fee taken on fills
    pub fee_recipient: Pubkey,
    /// fee taken on fills, in basis points
    pub fee_bps: u64,
    /// reserved space for future changes
    pub reserve: [u8; 512],
}

/// The event that reports a market's state.
#[derive(Debug)]
pub struct MarketEditEvent {
    pub edit_type: u8,
    pub address: String,
    pub version: u8,
    pub market_identifier: String,
    pub initializer: String,
    pub state: u8,
}

impl Market {
    /// initialize a new market
    pub fn init(&mut self, market_identifier: Pubkey, initializer: Pubkey)
        ensures
            final(self).version == MARKET_VERSION,
            final(self).market_identifier == market_identifier,
            final(self).initializer == initializer,
            final(self).state == MarketState::Open.spec_code(),
            final(self).fee_recipient == old(self).fee_recipient,
            final(self).fee_bps == old(self).fee_bps,
            final(self).reserve == old(self).reserve,
    {
        self.version = MARKET_VERSION;
        self.market_identifier = market_identifier;
        self.initializer = initializer;
        self.state = MarketState::Open.code();
    }

    /// set who receives the fee on fills, and the fee rate
    pub fn modify_fee(&mut self, fee_recipient: Pubkey, fee_bps: u64)
        ensures
            final(self).fee_recipient == fee_recipient,
            final(self).fee_bps == fee_bps,
            final(self).version == old(self).version,
            final(self).market_identifier == old(self).market_identifier,
            final(self).initializer == old(self).initializer,
            final(self).state == old(self).state,
            final(self).reserve == old(self).reserve,
    {
        self.fee_recipient = fee_recipient;
        self.fee_bps = fee_bps;
    }

    /// Whether a market in `state` is active: any state but closed.
    pub open spec fn spec_is_active(state: u8) -> bool {
        state != MarketState::Closed.spec_code()
    }

    /// return true if the market is active
    pub fn is_active(state: u8) -> (r: bool)
        ensures
            r == Self::spec_is_active(state),
    {
        state != MarketState::Closed.code()
    }

    /// The event that reports this market, which lives at `address`.
    pub fn get_edit_event(&self, address: Pubkey, edit_type: MarketEditType) -> (e: MarketEditEvent)
        ensures
            e.edit_type == 0,
            e.address@ == spec_pubkey_to_string(address@),
            e.version == self.version,
            e.market_identifier@ == spec_pubkey_to_string(self.market_identifier@),
            e.initializer@ == spec_pubkey_to_string(self.initializer@),
            e.state == self.state,
    {
        MarketEditEvent {
            edit_type: edit_type.code(),
            address: pubkey_to_string(&address),
            version: self.version,
            market_identifier: pubkey_to_string(&self.market_identifier),
            initializer: pubkey_to_string(&self.initializer),
            state: self.state,
        }
    }
}

/// What happened to a wallet, as its events report it.
#[derive(Debug, Clone, Copy, PartialEq, Eq, Structural)]
pub enum WalletEditType {
    Init,
    Edit,
}

impl WalletEditType {
    /// The byte that stands for the edit in an event.
    pub open spec fn spec_code(self) -> u8 {
        match self {
            WalletEditType::Init => 0,
            WalletEditType::Edit => 1,
        }
    }

    /// The byte that stands for the edit in an event.
    pub fn code(self) -> (c: u8)
        ensures
            c == self.spec_code(),
    {
        match self {
            WalletEditType::Init => 0,
            WalletEditType::Edit => 1,
        }
    }
}

/// wallet account - bidding authority and funds holder
#[derive(Debug, Clone, Copy)]
pub struct Wallet {
    /// order account version
    pub version: u8,
    /// Owner of the wallet
    pub owner: Pubkey,
    /// wallet balance
    pub balance: u64,
    /// reserved space for future changes
    pub reserve: [u8; 512],
}

/// The event that reports a wallet's state.
#[derive(Debug)]
pub struct WalletEditEvent {
    pub edit_type: u8,
    pub address: String,
    pub version: u8,
    pub owner: String,
    pub balance: u64,
}

/// The balance a wallet has after an edit of `amount`.
pub open spec fn edited_balance(balance: int, is_increase: bool, amount: int) -> int {
    if is_increase {
        balance + amount
    } else {
        balance - amount
    }
}

/// Whether an edit of `amount` keeps the balance within a `u64`.
pub open spec fn balance_edit_fits(balance: int, is_increase: bool, amount: int) -> bool {
    0 <= edited_balance(balance, is_increase, amount) <= u64::MAX
}

/// Adding an amount to a wallet and taking it away again leaves the balance
/// as it was, and so does taking it away and adding it back.
pub proof fn lemma_edit_balance_undo(balance: int, amount: int)
    ensures
        edited_balance(edited_balance(balance, true, amount), false, amount) == balance,
        edited_balance(edited_balance(balance, false, amount), true, amount) == balance,
{
}

impl Wallet {
    /// initialize a new order account
    pub fn init(&mut self, owner: Pubkey, amount: u64)
        ensures
            final(self).version == WALLET_VERSION,
            final(self).owner == owner,
            final(self).balance == amount,
            final(self).reserve == old(self).reserve,
    {
        self.version = WALLET_VERSION;
        self.owner = owner;
        self.balance = amount;
    }

    /// Adds `amount` to the balance, or takes it away.
    pub fn edit_balance(&mut self, is_increase: bool, amount: u64)
        requires
            balance_edit_fits(old(self).balance as int, is_increase, amount as int),
        ensures
            final(self).balance == edited_balance(old(self).balance as int, is_increase, amount as int),
            final(self).version == old(self).version,
            final(self).owner == old(self).owner,
            final(self).reserve == old(self).reserve,
    {
        if is_increase {
            self.balance = self.balance + amount;
        } else {
            self.balance = self.balance - amount;
        }
    }

    /// The event that reports this wallet, which lives at `address`.
    pub fn get_edit_event(&self, address: Pubkey, edit_type: WalletEditType) -> (e: WalletEditEvent)
        ensures
            e.edit_type == edit_type.spec_code(),
            e.address@ == spec_pubkey_to_string(address@),
            e.version == self.version,
            e.owner@ == spec_pubkey_to_string(self.owner@),
            e.balance == self.balance,
    {
        WalletEditEvent {
            edit_type: edit_type.code(),
            address: pubkey_to_string(&address),
            version: self.version,
            owner: pubkey_to_string(&self.owner),
            balance: self.balance,
        }
    }
}

/// Which side of the book an order is on.
#[derive(Debug, Clone, Copy, PartialEq, Eq, Structural)]
pub enum OrderSide {
    Buy,
    Sell,
}

impl OrderSide {
    /// The byte that stands for the side in an order account.
    pub open spec fn spec_code(self) -> u8 {
        match self {
            OrderSide::Buy => 0,
            OrderSide::Sell => 1,
        }
    }

    /// The byte that stands for the side in an order account.
    pub fn code(self) -> (c: u8)
        ensures
            c == self.spec_code(),
    {
        match self {
            OrderSide::Buy => 0,
            OrderSide::Sell => 1,
        }
    }
}

/// Whether an order can still be filled, edited or cancelled.
#[derive(Debug, Clone, Copy, PartialEq, Eq, Structural)]
pub enum OrderState {
    Ready,
    Closed,
}

impl OrderState {
    /// The byte that stands for the state in an order account.
    pub open spec fn spec_code(self) -> u8 {
        match self {
            OrderState::Ready => 0,
            OrderState::Closed => 1,
        }
    }

    /// The byte that stands for the state in an order account.
    pub fn code(self) -> (c: u8)
        ensures
            c == self.spec_code(),
    {
        match self {
            OrderState::Ready => 0,
            OrderState::Closed => 1,
        }
    }
}

/// An order: a bid for, or a listing of, NFTs of a market.
#[derive(Debug, Clone, Copy)]
pub struct Order {
    /// the market the order is on
    pub market: Pubkey,
    /// who placed the order
    pub owner: Pubkey,
    /// nonce that tells apart the orders of one owner on one market
    pub nonce: Pubkey,
    /// the NFT the order is for (default: any NFT of the market)
    pub nft_mint: Pubkey,
    /// the mint the order is paid in
    pub payment_mint: Pubkey,
    /// when the order was last edited
    pub last_edit_timestamp: i64,
    /// buy or sell
    pub side: u8,
    /// how many NFTs are left to trade
    pub size: u64,
    /// price of one NFT
    pub price: u64,
    /// ready or closed
    pub state: u8,
    /// whether fees apply to the order
    pub fees_on: bool,
}

impl Order {
    /// Whether an order in `state` is active: any state but closed.
    pub open spec fn spec_is_active(state: u8) -> bool {
        state != OrderState::Closed.spec_code()
    }

    /// Whether an order in `state` is active: any state but closed.
    pub fn is_active(state: u8) -> (r: bool)
        ensures
            r == Self::spec_is_active(state),
    {
        state != OrderState::Closed.code()
    }

    /// Whether `o` is `self` with the price, size and edit time set as given.
    pub open spec fn is_edit_of(self, o: Order, price: u64, size: u64, timestamp: i64) -> bool {
        &&& o.price == price
        &&& o.size == size
        &&& o.last_edit_timestamp == timestamp
        &&& o.market == self.market
        &&& o.owner == self.owner
        &&& o.nonce == self.nonce
        &&& o.nft_mint == self.nft_mint
        &&& o.payment_mint == self.payment_mint
        &&& o.side == self.side
        &&& o.state == self.state
        &&& o.fees_on == self.fees_on
    }

    /// initialize a new order
    pub fn init(
        &mut self,
        market: Pubkey,
        owner: Pubkey,
        nonce: Pubkey,
        nft_mint: Pubkey,
        timestamp: i64,
        side: u8,
        size: u64,
        price: u64,
        state: u8,
        fees_on: bool,
    )
        ensures
            final(self).market == market,
            final(self).owner == owner,
            final(self).nonce == nonce,
            final(self).nft_mint == nft_mint,
            final(self).last_edit_timestamp == timestamp,
            final(self).side == side,
            final(self).size == size,
            final(self).price == price,
            final(self).state == state,
            final(self).fees_on == fees_on,
            final(self).payment_mint == old(self).payment_mint,
    {
        self.market = market;
        self.owner = owner;
        self.nonce = nonce;
        self.nft_mint = nft_mint;
        self.last_edit_timestamp = timestamp;
        self.side = side;
        self.size = size;
        self.price = price;
        self.state = state;
        self.fees_on = fees_on;
    }

    /// edit the price and size of a buy order
    pub fn edit_buy(&mut self, price: u64, size: u64, timestamp: i64)
        ensures
            old(self).is_edit_of(*final(self), price, size, timestamp),
    {
        self.price = price;
        self.size = size;
        self.last_edit_timestamp = timestamp;
    }

    /// edit the price of a sell order
    pub fn edit_sell(&mut self, price: u64, timestamp: i64)
        ensures
            old(self).is_edit_of(*final(self), price, old(self).size, timestamp),
    {
        self.price = price;
        self.last_edit_timestamp = timestamp;
    }

    /// edit the price, payment mint and size of an order
    pub fn edit_order(&mut self, price: u64, payment_mint: Pubkey, size: u64, timestamp: i64)
        ensures
            final(self).payment_mint == payment_mint,
            old(self).is_edit_of(Order { payment_mint: old(self).payment_mint, ..*final(self) }, price, size, timestamp),
    {
        self.price = price;
        self.payment_mint = payment_mint;
        self.size = size;
        self.last_edit_timestamp = timestamp;
    }
}

} // verus!
