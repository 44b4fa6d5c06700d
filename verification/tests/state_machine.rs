use rarible_marketplace::errors::{MarketError, MarketplaceError};
use rarible_marketplace::instructions::{
    bid, cancel_bid, edit_buy_order, edit_order, edit_sell_order, init_buy_order, modify_market, BidData,
    EditBuyOrderData, EditOrderData, EditSellOrderData, InitOrderData, ModifyMarketParams,
};
use rarible_marketplace::state::{
    Market, MarketEditType, MarketState, Order, OrderSide, OrderState, Wallet, WalletEditType, MARKET_VERSION,
};
use rarible_marketplace::editions::{
    assert_is_transferring, check_source_transferring, creator_royalty_amounts, handle_transfer_hook,
    lamports_to_minimum_balance, transfer_ownership, EditionsControls, TransferError, TransferHookError,
};
use rarible_marketplace::metadata::CreatorWithShare;
use solana_program::pubkey::Pubkey as SolPubkey;
use spl_token_2022::extension::transfer_hook::TransferHookAccount;
use spl_token_2022::extension::{BaseStateWithExtensionsMut, ExtensionType, StateWithExtensionsMut};
use spl_token_2022::state::{Account, AccountState};

fn key(b: u8) -> [u8; 32] {
    [b; 32]
}

fn pubkey_to_string(k: &[u8; 32]) -> String {
    SolPubkey::new_from_array(*k).to_string()
}

fn open_market() -> Market {
    let mut m = Market {
        version: 0,
        market_identifier: [0; 32],
        initializer: [0; 32],
        state: 0,
        fee_recipient: key(9),
        fee_bps: 100,
        reserve: [0; 512],
    };
    m.init(key(1), key(2));
    m
}

#[test]
fn market_init_opens_it() {
    let m = open_market();
    assert_eq!(m.version, MARKET_VERSION);
    assert_eq!(m.market_identifier, key(1));
    assert_eq!(m.initializer, key(2));
    assert_eq!(m.state, MarketState::Open.code());
    assert!(Market::is_active(m.state));
    assert!(!Market::is_active(MarketState::Closed.code()));
    assert!(Market::is_active(7));
    assert_eq!(m.fee_bps, 100);
}

#[test]
fn market_event_reports_it() {
    let m = open_market();
    let e = m.get_edit_event(key(5), MarketEditType::Init);
    assert_eq!(e.edit_type, 0);
    assert_eq!(e.address, pubkey_to_string(&key(5)));
    assert_eq!(e.market_identifier, pubkey_to_string(&key(1)));
    assert_eq!(e.initializer, pubkey_to_string(&key(2)));
    assert_eq!(e.state, 0);
    assert_eq!(e.version, 1);
}

#[test]
fn only_the_initializer_modifies_fees() {
    let mut m = open_market();
    let p = ModifyMarketParams { fee_recipient: key(4), fee_bps: 250 };
    assert!(matches!(modify_market(&mut m, &key(3), &p), Err(MarketplaceError::ConstraintViolated)));
    assert_eq!(m.fee_bps, 100);
    assert!(modify_market(&mut m, &key(2), &p).is_ok());
    assert_eq!(m.fee_bps, 250);
    assert_eq!(m.fee_recipient, key(4));
}

#[test]
fn wallet_edits_undo_each_other() {
    let mut w = Wallet { version: 0, owner: [0; 32], balance: 0, reserve: [0; 512] };
    w.init(key(2), 1_000);
    assert_eq!(w.version, 1);
    assert_eq!(w.balance, 1_000);
    w.edit_balance(true, 250);
    assert_eq!(w.balance, 1_250);
    w.edit_balance(false, 250);
    assert_eq!(w.balance, 1_000);
    let e = w.get_edit_event(key(8), WalletEditType::Edit);
    assert_eq!(e.edit_type, 1);
    assert_eq!(e.balance, 1_000);
    assert_eq!(e.owner, pubkey_to_string(&key(2)));
}

#[test]
fn bid_opens_a_ready_buy_order() {
    let m = open_market();
    let data = BidData { nonce: key(6), price: 100, size: 3 };
    let o = bid(&m, key(10), key(2), key(7), &data, 55).unwrap();
    assert_eq!(o.market, key(10));
    assert_eq!(o.owner, key(2));
    assert_eq!(o.nonce, key(6));
    assert_eq!(o.nft_mint, key(7));
    assert_eq!(o.side, OrderSide::Buy.code());
    assert_eq!(o.size, 3);
    assert_eq!(o.price, 100);
    assert_eq!(o.state, OrderState::Ready.code());
    assert_eq!(o.last_edit_timestamp, 55);
    assert!(o.fees_on);
}

#[test]
fn bid_refused_on_closed_market_or_zero_terms() {
    let mut m = open_market();
    assert!(bid(&m, key(10), key(2), key(7), &BidData { nonce: key(6), price: 0, size: 3 }, 0).is_err());
    assert!(bid(&m, key(10), key(2), key(7), &BidData { nonce: key(6), price: 5, size: 0 }, 0).is_err());
    m.state = MarketState::Closed.code();
    assert!(matches!(
        bid(&m, key(10), key(2), key(7), &BidData { nonce: key(6), price: 5, size: 1 }, 0),
        Err(MarketplaceError::ConstraintViolated)
    ));
}

fn buy_order() -> Order {
    let m = open_market();
    bid(&m, key(10), key(2), key(7), &BidData { nonce: key(6), price: 100, size: 3 }, 1).unwrap()
}

#[test]
fn edit_order_by_side() {
    let mut o = buy_order();
    assert!(edit_order(&mut o, &key(10), &key(2), &EditOrderData { new_price: 120, new_size: 5 }, 9).is_ok());
    assert_eq!((o.price, o.size, o.last_edit_timestamp), (120, 5, 9));
    let mut s = o;
    s.side = OrderSide::Sell.code();
    assert!(edit_order(&mut s, &key(10), &key(2), &EditOrderData { new_price: 130, new_size: 8 }, 10).is_ok());
    assert_eq!((s.price, s.size), (130, 5));
}

#[test]
fn edit_refused_for_others_and_closed_orders() {
    let mut o = buy_order();
    let before = o;
    assert!(edit_order(&mut o, &key(10), &key(3), &EditOrderData { new_price: 120, new_size: 5 }, 9).is_err());
    assert!(edit_order(&mut o, &key(11), &key(2), &EditOrderData { new_price: 120, new_size: 5 }, 9).is_err());
    assert!(edit_order(&mut o, &key(10), &key(2), &EditOrderData { new_price: 0, new_size: 5 }, 9).is_err());
    assert_eq!(o.price, before.price);
    assert!(cancel_bid(&mut o, &key(10), &key(2)).is_ok());
    assert_eq!(o.state, OrderState::Closed.code());
    assert!(edit_order(&mut o, &key(10), &key(2), &EditOrderData { new_price: 1, new_size: 1 }, 9).is_err());
    assert!(cancel_bid(&mut o, &key(10), &key(2)).is_err());
}

#[test]
fn edit_buy_needs_the_wallet_to_cover_it() {
    let mut o = buy_order();
    let poor = Wallet { version: 1, owner: key(2), balance: 500, reserve: [0; 512] };
    let rich = Wallet { version: 1, owner: key(2), balance: 600, reserve: [0; 512] };
    let data = EditBuyOrderData { new_size: 3, new_price: 200 };
    assert!(edit_buy_order(&mut o, &poor, &key(10), &key(2), &data, 4).is_err());
    assert!(edit_buy_order(&mut o, &rich, &key(10), &key(2), &data, 4).is_ok());
    assert_eq!(o.price, 200);
}

#[test]
fn edit_sell_needs_an_open_market() {
    let mut o = buy_order();
    o.side = OrderSide::Sell.code();
    let mut m = open_market();
    assert!(edit_sell_order(&mut o, &m, &key(10), &key(2), &EditSellOrderData { new_price: 77 }, 3).is_ok());
    assert_eq!((o.price, o.size), (77, 3));
    m.state = MarketState::Closed.code();
    assert!(edit_sell_order(&mut o, &m, &key(10), &key(2), &EditSellOrderData { new_price: 78 }, 3).is_err());
    assert_eq!(o.price, 77);
}

#[test]
fn init_buy_order_checks_the_wallet() {
    let m = open_market();
    let w = Wallet { version: 1, owner: key(2), balance: 300, reserve: [0; 512] };
    let data = InitOrderData { nonce: key(6), price: 100, size: 3 };
    let o = init_buy_order(&w, &m, key(10), key(2), key(7), &data, &vec![[0u8; 32]], 5).unwrap().unwrap();
    assert_eq!(o.size, 3);
    assert!(o.fees_on);
    let big = InitOrderData { nonce: key(6), price: 100, size: 4 };
    assert!(matches!(
        init_buy_order(&w, &m, key(10), key(2), key(7), &big, &vec![[0u8; 32]], 5),
        Some(Err(MarketplaceError::ConstraintViolated))
    ));
    let huge = InitOrderData { nonce: key(6), price: u64::MAX, size: 2 };
    assert!(init_buy_order(&w, &m, key(10), key(2), key(7), &huge, &vec![[0u8; 32]], 5).is_none());
    assert!(init_buy_order(&w, &m, key(10), key(2), key(7), &data, &vec![], 5).is_none());
}

#[test]
fn market_error_messages() {
    assert_eq!(MarketError::InsufficientOrderSize.message(), "Order too small");
    assert_eq!(MarketError::NotEnoughRemainingAccounts.message(), "Not Enough Remaining Accounts");
}

#[test]
fn ownership_moves_only_from_the_creator() {
    let mut c = EditionsControls { creator: key(1) };
    assert!(transfer_ownership(&mut c, &key(2), &key(3)).is_err());
    assert_eq!(c.creator, key(1));
    assert!(transfer_ownership(&mut c, &key(1), &key(3)).is_ok());
    assert_eq!(c.creator, key(3));
}

#[test]
fn top_up_to_minimum_balance() {
    assert_eq!(lamports_to_minimum_balance(1_000, 400), 600);
    assert_eq!(lamports_to_minimum_balance(1_000, 4_000), 0);
}

#[test]
fn transfer_hook_must_be_transferring() {
    assert_eq!(assert_is_transferring(true), Ok(()));
    assert_eq!(assert_is_transferring(false), Err(TransferError::IsNotCurrentlyTransferring));
}

#[test]
fn creator_royalties_of_a_transfer() {
    let cs = vec![
        CreatorWithShare { address: key(1), share: 60 },
        CreatorWithShare { address: key(2), share: 40 },
    ];
    assert_eq!(creator_royalty_amounts(10_000, 500, &cs), vec![300, 200]);
}

fn token_account(transferring: bool) -> Vec<u8> {
    let len = ExtensionType::try_calculate_account_len::<Account>(&[ExtensionType::TransferHookAccount]).unwrap();
    let mut data = vec![0u8; len];
    let mut state = StateWithExtensionsMut::<Account>::unpack_uninitialized(&mut data).unwrap();
    state.base.state = AccountState::Initialized;
    state.pack_base();
    state.init_account_type().unwrap();
    let ext = state.init_extension::<TransferHookAccount>(true).unwrap();
    ext.transferring = transferring.into();
    data
}

#[test]
fn hook_checks_the_source_account() {
    assert!(check_source_transferring(&token_account(true)).is_ok());
    assert!(matches!(
        check_source_transferring(&token_account(false)),
        Err(TransferHookError::Transfer(TransferError::IsNotCurrentlyTransferring))
    ));
    assert!(matches!(check_source_transferring(&[0u8; 3]), Err(TransferHookError::Program(_))));
    let cs = vec![
        CreatorWithShare { address: key(1), share: 60 },
        CreatorWithShare { address: key(2), share: 40 },
    ];
    let v = handle_transfer_hook(10_000, &token_account(true), 500, &cs).unwrap().unwrap();
    assert_eq!(v, vec![300, 200]);
    assert!(matches!(handle_transfer_hook(10_000, &token_account(false), 500, &cs), Some(Err(TransferHookError::Transfer(_)))));
    assert!(handle_transfer_hook(u64::MAX, &token_account(true), 500, &cs).is_none());
}
