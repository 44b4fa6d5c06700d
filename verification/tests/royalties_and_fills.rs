use std::str::FromStr;
use borsh::BorshSerialize;
use mpl_token_metadata::accounts::Metadata;
use mpl_token_metadata::types::{Creator, Key, ProgrammableConfig, TokenStandard};
use solana_program::pubkey::Pubkey as SolPubkey;
use spl_token_2022::extension::{BaseStateWithExtensionsMut, StateWithExtensionsMut};
use spl_token_metadata_interface::state::TokenMetadata;

use rarible_marketplace::errors::{MarketError, MarketplaceError};
use rarible_marketplace::fill::{
    fill_order_plan, fill_parties, nft_route, payment_route, settle_fill, transfer_hook_program,
    unwrap_sol_if_needed, NftRoute, Party, PaymentRoute, WSOL_MINT,
};
use rarible_marketplace::instructions::{
    bid, fill_buy_order, fill_order, fill_sell_order, init_sell_order, list, BidData, InitOrderData, ListData,
    ListTransfer,
};
use rarible_marketplace::metadata::{
    get_is_metaplex_nft, get_is_pnft, get_mint_metadata, CreatorWithShare, MetadataFacts,
    TOKEN_STANDARD_PROGRAMMABLE_NON_FUNGIBLE,
};
use rarible_marketplace::nft_ops::{freeze_nft, transfer_nft, FreezeAction, TransferAction};
use rarible_marketplace::royalties::{
    find_key, parse_creators, pay_royalties, royalty_amounts, royalty_basis_points_u16, royalty_basis_points_u64,
    royalty_payments, transfer_hook_payouts,
};
use rarible_marketplace::editions::process_transfer_hook;
use rarible_marketplace::state::{Market, Order, OrderState, Wallet};

fn key(b: u8) -> [u8; 32] {
    [b; 32]
}

fn pubkey_to_string(k: &[u8; 32]) -> String {
    SolPubkey::new_from_array(*k).to_string()
}

fn metadata_bytes(
    sfbp: u16,
    creators: Option<Vec<([u8; 32], u8)>>,
    standard: Option<TokenStandard>,
    rule_set: Option<Option<[u8; 32]>>,
) -> Vec<u8> {
    let m = Metadata {
        key: Key::MetadataV1,
        update_authority: SolPubkey::new_from_array(key(1)),
        mint: SolPubkey::new_from_array(key(2)),
        name: "name".to_string(),
        symbol: "SYM".to_string(),
        uri: "uri".to_string(),
        seller_fee_basis_points: sfbp,
        creators: creators.map(|cs| {
            cs.into_iter()
                .map(|(a, s)| Creator { address: SolPubkey::new_from_array(a), verified: true, share: s })
                .collect()
        }),
        primary_sale_happened: false,
        is_mutable: true,
        edition_nonce: None,
        token_standard: standard,
        collection: None,
        uses: None,
        collection_details: None,
        programmable_config: rule_set.map(|r| ProgrammableConfig::V1 { rule_set: r.map(SolPubkey::new_from_array) }),
    };
    m.try_to_vec().unwrap()
}

fn pairs(p: &[(&str, &str)]) -> Vec<(String, String)> {
    p.iter().map(|(a, b)| (a.to_string(), b.to_string())).collect()
}

fn mint_with_metadata(p: &[(&str, &str)]) -> Vec<u8> {
    let md = TokenMetadata {
        update_authority: Default::default(),
        mint: SolPubkey::new_from_array(key(2)),
        name: "n".to_string(),
        symbol: "s".to_string(),
        uri: "u".to_string(),
        additional_metadata: pairs(p),
    };
    let mut data = vec![0u8; 165 + 1 + md.tlv_size_of().unwrap()];
    let mut state = StateWithExtensionsMut::<spl_token_2022::state::Mint>::unpack_uninitialized(&mut data).unwrap();
    state.base.is_initialized = true;
    state.pack_base();
    state.init_account_type().unwrap();
    state.init_variable_len_extension::<TokenMetadata>(&md, false).unwrap();
    data
}

#[test]
fn metadata_decodes_to_its_facts() {
    let bytes = metadata_bytes(500, Some(vec![(key(3), 70), (key(4), 30)]), Some(TokenStandard::ProgrammableNonFungible), Some(Some(key(5))));
    assert!(get_is_metaplex_nft(&bytes));
    assert_eq!(transfer_nft(&bytes), TransferAction::MetaplexTransfer);
    assert_eq!(freeze_nft(&bytes), FreezeAction::MetaplexLock);
    // 5% of 10 000 is 500, shared 70/30 between the creators
    let v = pay_royalties(10_000, &bytes, &vec![key(3), key(4)]).unwrap().unwrap();
    assert_eq!((v[0].account_index, v[0].amount), (0, 350));
    assert_eq!((v[1].account_index, v[1].amount), (1, 150));
}

#[test]
fn metadata_refuses_other_accounts() {
    assert!(!get_is_metaplex_nft(&[]));
    assert!(!get_is_metaplex_nft(&[3, 0, 0]));
    assert!(matches!(pay_royalties(1, &[3, 0, 0], &vec![]), Some(Err(MarketplaceError::AccountDataUnreadable))));
    let fungible = metadata_bytes(0, None, Some(TokenStandard::Fungible), None);
    assert!(!get_is_metaplex_nft(&fungible));
    assert_eq!(freeze_nft(&fungible), FreezeAction::TokenFreeze);
    let plain = metadata_bytes(0, None, None, None);
    assert!(!get_is_metaplex_nft(&plain));
    assert_eq!(transfer_nft(&plain), TransferAction::TokenTransfer);
    assert_eq!(freeze_nft(&plain), FreezeAction::TokenFreeze);
    let facts = |standard: Option<u8>| MetadataFacts {
        seller_fee_basis_points: 0,
        creators: None,
        token_standard: standard,
        programmable_config: None,
    };
    assert!(get_is_pnft(&facts(Some(TOKEN_STANDARD_PROGRAMMABLE_NON_FUNGIBLE))));
    assert!(!get_is_pnft(&facts(None)));
}

#[test]
fn mint_metadata_reads_the_extension() {
    let data = mint_with_metadata(&[("royalty_basis_points", "250"), ("a", "b")]);
    let p = get_mint_metadata(&data).unwrap();
    assert_eq!(p, pairs(&[("royalty_basis_points", "250"), ("a", "b")]));
    assert!(get_mint_metadata(&[0u8; 10]).is_err());
}

#[test]
fn royalty_field_lookup() {
    let p = pairs(&[("x", "1"), ("royalty_basis_points", "250"), ("royalty_basis_points", "9")]);
    assert_eq!(find_key(&p, "royalty_basis_points"), Some(1));
    assert_eq!(find_key(&p, "y"), None);
    assert_eq!(royalty_basis_points_u64(&p), Some(250));
    assert_eq!(royalty_basis_points_u64(&pairs(&[("x", "1")])), Some(0));
    assert_eq!(royalty_basis_points_u64(&pairs(&[("royalty_basis_points", "ten")])), None);
    assert_eq!(royalty_basis_points_u16(&pairs(&[("royalty_basis_points", "70000")])), None);
}

#[test]
fn creators_are_read_in_order() {
    let a = pubkey_to_string(&key(3));
    let b = pubkey_to_string(&key(4));
    let p = pairs(&[("royalty_basis_points", "500"), (&a, "60"), ("not a key", "x"), (&b, "40")]);
    assert_eq!(parse_creators(&p), Ok(vec![(key(3), 60), (key(4), 40)]));
}

#[test]
fn creators_refuse_bad_percentages() {
    let a = pubkey_to_string(&key(3));
    let b = pubkey_to_string(&key(4));
    assert_eq!(parse_creators(&pairs(&[(&a, "101")])), Err(MarketError::InvalidRoyaltyPercentage));
    assert_eq!(parse_creators(&pairs(&[(&a, "ten")])), Err(MarketError::InvalidRoyaltyPercentage));
    assert_eq!(parse_creators(&pairs(&[(&a, "60"), (&b, "41")])), Err(MarketError::TotalRoyaltyPercentageExceeded));
}

#[test]
fn creator_amounts_stay_within_royalties() {
    let cs = vec![(key(3), 33u64), (key(4), 33), (key(5), 34)];
    let a = royalty_amounts(100, &cs).unwrap();
    assert_eq!(a, vec![33, 33, 34]);
    let b = royalty_amounts(10, &cs).unwrap();
    assert_eq!(b, vec![3, 3, 3]);
    assert!(b.iter().sum::<u64>() <= 10);
    assert!(royalty_amounts(u64::MAX, &cs).is_none());
}

#[test]
fn transfer_hook_pays_each_named_share() {
    let a = pubkey_to_string(&key(3));
    let b = pubkey_to_string(&key(4));
    let p = pairs(&[("royalty_basis_points", "1000"), (&a, "50"), (&b, "25"), ("junk", "10")]);
    let v = transfer_hook_payouts(10_000, &p).unwrap();
    assert_eq!(v.len(), 2);
    assert_eq!((v[0].recipient, v[0].amount), (key(3), 500));
    assert_eq!((v[1].recipient, v[1].amount), (key(4), 250));
    assert!(transfer_hook_payouts(10_000, &pairs(&[(&a, "50")])).unwrap().is_empty());
    assert!(transfer_hook_payouts(10_000, &pairs(&[("royalty_basis_points", "x")])).is_none());
    assert!(transfer_hook_payouts(u64::MAX, &pairs(&[("royalty_basis_points", "2")])).is_none());
}

#[test]
fn transfer_hook_on_a_mint_account() {
    let a = pubkey_to_string(&key(3));
    let data = mint_with_metadata(&[("royalty_basis_points", "1000"), (&a, "100")]);
    let v = process_transfer_hook(2_000, &data).unwrap().unwrap();
    assert_eq!((v[0].recipient, v[0].amount), (key(3), 200));
    assert!(matches!(process_transfer_hook(2_000, &[1, 2, 3]), Some(Err(MarketplaceError::Program(_)))));
}

#[test]
fn royalty_payments_by_share() {
    let bytes = metadata_bytes(1_000, Some(vec![(key(3), 70), (key(4), 0), (key(5), 30)]), None, None);
    let m = MetadataFacts {
        seller_fee_basis_points: 1_000,
        creators: Some(vec![
            CreatorWithShare { address: key(3), share: 70 },
            CreatorWithShare { address: key(4), share: 0 },
            CreatorWithShare { address: key(5), share: 30 },
        ]),
        token_standard: None,
        programmable_config: None,
    };
    let accounts = vec![key(5), key(3), key(5)];
    let v = royalty_payments(10_000, &m, &accounts).unwrap();
    assert_eq!(v.len(), 2);
    assert_eq!((v[0].account_index, v[0].amount), (1, 700));
    assert_eq!((v[1].account_index, v[1].amount), (2, 300));
    let w = pay_royalties(10_000, &bytes, &accounts).unwrap().unwrap();
    assert_eq!(w.len(), 2);
    assert!(pay_royalties(10_000, &bytes, &vec![key(3)]).is_none());
    assert!(matches!(pay_royalties(10_000, &[], &accounts), Some(Err(MarketplaceError::AccountDataUnreadable))));
    let too_much = metadata_bytes(20_000, Some(vec![(key(3), 100)]), None, None);
    assert!(matches!(
        pay_royalties(10_000, &too_much, &accounts),
        Some(Err(MarketplaceError::Market(MarketError::AmountOverflow)))
    ));
}

fn market() -> Market {
    Market { version: 1, market_identifier: key(1), initializer: key(2), state: 0, fee_recipient: key(9), fee_bps: 200, reserve: [0; 512] }
}

fn order(side: u8, price: u64, size: u64) -> Order {
    let mut o = bid(&market(), key(10), key(2), key(0), &BidData { nonce: key(6), price, size }, 1).unwrap();
    o.side = side;
    o
}

#[test]
fn fill_splits_the_value() {
    let a = pubkey_to_string(&key(3));
    let b = pubkey_to_string(&key(4));
    let md = pairs(&[("royalty_basis_points", "500"), (&a, "60"), (&b, "40")]);
    let remaining = vec![key(3), key(30), key(4), key(40), key(50)];
    let plan = settle_fill(&order(0, 1_000, 3), 2, 200, NftRoute::Token22, &remaining, Ok(()), Ok(md)).unwrap().unwrap();
    assert!(plan.is_buy);
    assert_eq!(plan.buy_value, 2_000);
    assert_eq!(plan.fee_amount, 40);
    assert_eq!(plan.royalties_amount, 100);
    assert_eq!(plan.seller_received_amount, 1_860);
    assert_eq!(plan.fee_amount + plan.royalties_amount + plan.seller_received_amount, plan.buy_value);
    assert_eq!(plan.creator_payments.len(), 2);
    assert_eq!((plan.creator_payments[0].account_index, plan.creator_payments[0].amount), (0, 60));
    assert_eq!((plan.creator_payments[1].account_index, plan.creator_payments[1].amount), (2, 40));
    assert_eq!(plan.hook_accounts_start, 4);
    assert_eq!(plan.new_size, 1);
    assert!(!plan.closes_order);
}

#[test]
fn fill_refusals() {
    let a = pubkey_to_string(&key(3));
    let md = pairs(&[("royalty_basis_points", "500"), (&a, "100")]);
    let o = order(1, 1_000, 1);
    let r = settle_fill(&o, 2, 200, NftRoute::Token22, &vec![], Ok(()), Ok(md.clone())).unwrap();
    assert!(matches!(r, Err(MarketplaceError::Market(MarketError::InsufficientOrderSize))));
    let r = settle_fill(&o, 1, 200, NftRoute::Token, &vec![], Ok(()), Ok(md.clone())).unwrap();
    assert!(matches!(r, Err(MarketplaceError::Market(MarketError::UnsupportedNft))));
    let r = settle_fill(&o, 1, 200, NftRoute::Token22, &vec![key(3)], Ok(()), Ok(md.clone())).unwrap();
    assert!(matches!(r, Err(MarketplaceError::Market(MarketError::NotEnoughRemainingAccounts))));
    let r = settle_fill(&o, 1, 200, NftRoute::Token22, &vec![key(4), key(40)], Ok(()), Ok(md.clone())).unwrap();
    assert!(matches!(r, Err(MarketplaceError::Market(MarketError::InvalidRoyaltiesAccount))));
    let r = settle_fill(&o, 1, 200, NftRoute::Token22, &vec![], Ok(()),
        Err(solana_program::program_error::ProgramError::InvalidAccountData)).unwrap();
    assert!(matches!(r, Err(MarketplaceError::Program(_))));
    assert!(settle_fill(&o, 1, 20_000, NftRoute::Token22, &vec![], Ok(()), Ok(md.clone())).is_none());
}

#[test]
fn fill_through_wns_closes_the_order() {
    let md = pairs(&[("royalty_basis_points", "1000")]);
    let remaining = vec![key(1), key(2), key(3), key(4), key(5), key(6), key(7)];
    let plan = settle_fill(&order(1, 500, 1), 1, 0, NftRoute::Token22Wns, &remaining, Ok(()), Ok(md.clone()))
        .unwrap().unwrap();
    assert!(plan.approve_wns);
    assert!(!plan.is_buy);
    assert_eq!(plan.royalties_amount, 50);
    assert_eq!(plan.seller_received_amount, 450);
    assert_eq!(plan.hook_accounts_start, 6);
    assert!(plan.closes_order);
    assert!(settle_fill(&order(1, 500, 1), 1, 0, NftRoute::Token22Wns, &vec![key(1)], Ok(()), Ok(md.clone())).is_none());
    let r = settle_fill(&order(1, 500, 1), 1, 0, NftRoute::Token22Wns, &remaining,
        Err(solana_program::program_error::ProgramError::InvalidArgument), Ok(md)).unwrap();
    assert!(matches!(r, Err(MarketplaceError::Program(_))));
}

#[test]
fn fill_without_royalties_reads_no_creators() {
    let md = pairs(&[("junk", "1")]);
    let plan = settle_fill(&order(0, 100, 1), 1, 100, NftRoute::Token22, &vec![], Ok(()), Ok(md)).unwrap().unwrap();
    assert_eq!(plan.royalties_amount, 0);
    assert_eq!(plan.fee_amount, 1);
    assert_eq!(plan.seller_received_amount, 99);
    assert_eq!(plan.hook_accounts_start, 0);
}

#[test]
fn routes_and_parties() {
    assert_eq!(nft_route("", ""), NftRoute::Token);
    assert_eq!(nft_route(&pubkey_to_string(&key(1)), ""), NftRoute::Unknown);
    let p = fill_parties(true);
    assert_eq!(p.nft_receiver, Party::Maker);
    assert_eq!(p.payment_receiver, Party::Taker);
    let q = fill_parties(false);
    assert_eq!(q.nft_receiver, Party::Taker);
    assert_eq!(q.payment_sender, Party::Taker);
    let wsol = SolPubkey::from_str("So11111111111111111111111111111111111111112").unwrap().to_bytes();
    assert_eq!(wsol, WSOL_MINT);
    assert_eq!(payment_route(&WSOL_MINT, false), PaymentRoute::SystemTransfer);
    assert_eq!(payment_route(&WSOL_MINT, true), PaymentRoute::TokenTransfer);
    assert_eq!(payment_route(&key(4), false), PaymentRoute::TokenTransfer);
    assert!(unwrap_sol_if_needed(&WSOL_MINT, true));
    assert!(!unwrap_sol_if_needed(&key(4), true));
    assert_eq!(transfer_hook_program(&vec![key(1), key(2)]), Some(1));
    assert_eq!(transfer_hook_program(&vec![]), None);
}

#[test]
fn fill_order_applies_the_plan() {
    let mut o = order(1, 1_000, 1);
    let m = market();
    let before = o;
    let pm = o.payment_mint;
    let r = fill_order(&mut o, &m, &key(10), &key(3), &key(9), &pm, "", "", 1, &vec![], Ok(()), &[], 5);
    assert!(matches!(r, Some(Err(MarketplaceError::ConstraintViolated))));
    assert_eq!(o.size, before.size);
    let r = fill_order(&mut o, &m, &key(10), &key(2), &key(9), &pm, "", "", 1, &vec![], Ok(()), &[], 5);
    assert!(matches!(r, Some(Err(MarketplaceError::Market(MarketError::UnsupportedNft)))));
    assert_eq!(o.state, OrderState::Ready.code());
    let data = mint_with_metadata(&[]);
    let plan = fill_order_plan(&o, 1, 200, "", "", &vec![], Ok(()), &data).unwrap();
    assert!(matches!(plan, Err(MarketplaceError::Market(MarketError::UnsupportedNft))));
}

#[test]
fn fill_buy_order_moves_the_wallet() {
    let m = market();
    let mut o = order(0, 100, 2);
    let mut w = Wallet { version: 1, owner: key(2), balance: 250, reserve: [0; 512] };
    let bytes = metadata_bytes(1_000, Some(vec![(key(3), 100)]), Some(TokenStandard::ProgrammableNonFungible), None);
    let mut remaining = vec![[0u8; 32], key(1), key(1), key(1), key(44), key(1), key(1)];
    remaining.push(key(3));
    let plan = fill_buy_order(&mut o, &mut w, &m, &key(10), &key(2), &key(7), &remaining, &bytes, 9).unwrap().unwrap();
    assert_eq!(w.balance, 150);
    assert_eq!(o.size, 1);
    assert_eq!(o.state, OrderState::Ready.code());
    assert!(plan.is_pnft);
    assert_eq!(plan.buyer_token_record, Some(4));
    assert_eq!(plan.creator_accounts_start, 7);
    assert_eq!((plan.royalty_payments[0].account_index, plan.royalty_payments[0].amount), (0, 10));
    let plan = fill_buy_order(&mut o, &mut w, &m, &key(10), &key(2), &key(7), &remaining, &bytes, 10).unwrap().unwrap();
    assert!(plan.closes_order);
    assert_eq!(o.state, OrderState::Closed.code());
    assert_eq!(w.balance, 50);
    let mut o2 = order(0, 100, 2);
    let mut poor = Wallet { version: 1, owner: key(2), balance: 50, reserve: [0; 512] };
    assert!(fill_buy_order(&mut o2, &mut poor, &m, &key(10), &key(2), &key(7), &remaining, &bytes, 9).is_none());
}

#[test]
fn fill_sell_order_closes_it() {
    let m = market();
    let mut o = order(1, 10_000, 1);
    let bytes = metadata_bytes(0, None, None, None);
    let remaining = vec![[0u8; 32], key(1), key(1), key(1), [0u8; 32]];
    let plan = fill_sell_order(&mut o, &m, &key(10), &key(2), &remaining, &bytes).unwrap().unwrap();
    assert_eq!(plan.fee_amount, 50);
    assert_eq!(plan.price, 10_000);
    assert!(!plan.is_pnft);
    assert_eq!(plan.dest_token_record, None);
    assert_eq!(o.state, OrderState::Closed.code());
    let mut o2 = order(1, 10_000, 1);
    assert!(fill_sell_order(&mut o2, &m, &key(10), &key(2), &vec![key(1)], &bytes).is_none());
    assert!(matches!(
        fill_sell_order(&mut o2, &m, &key(10), &key(2), &remaining, &[]),
        Some(Err(MarketplaceError::AccountDataUnreadable))
    ));
    assert_eq!(o2.state, OrderState::Ready.code());
}

#[test]
fn listing_and_sell_orders() {
    let m = market();
    let bytes = metadata_bytes(0, None, Some(TokenStandard::ProgrammableNonFungible), None);
    let remaining = vec![key(1), key(2), [0u8; 32], key(4), key(4), key(8)];
    let r = list(&m, key(10), key(2), key(7), 1, &ListData { nonce: key(6), price: 5 }, "", "", &remaining, &bytes, 3)
        .unwrap().unwrap();
    assert_eq!(r.0.size, 1);
    match r.1 {
        ListTransfer::Metaplex { is_pnft, parsed } => {
            assert!(is_pnft);
            assert_eq!(parsed.pnft_params.token_record, None);
            assert_eq!(parsed.delegate_record, Some(3));
            assert_eq!(parsed.existing_delegate_params, None);
            assert_eq!(parsed.creator_accounts_start, 6);
        }
        _ => panic!("expected a Metaplex transfer"),
    }
    assert!(matches!(
        list(&m, key(10), key(2), key(7), 0, &ListData { nonce: key(6), price: 5 }, "", "", &remaining, &bytes, 3),
        Some(Err(MarketplaceError::ConstraintViolated))
    ));
    let data = InitOrderData { nonce: key(6), price: 5, size: 1 };
    let plan = init_sell_order(&m, key(10), key(2), key(7), 1, key(2), key(7), &data, &remaining, &bytes, 3)
        .unwrap().unwrap();
    assert!(plan.is_pnft);
    assert_eq!(plan.order.price, 5);
    assert!(matches!(
        init_sell_order(&m, key(10), key(2), key(7), 1, key(3), key(7), &data, &remaining, &bytes, 3),
        Some(Err(MarketplaceError::ConstraintViolated))
    ));
}
