use borsh::BorshSerialize;
use mpl_token_metadata::accounts::{Metadata, TokenRecord};
use mpl_token_metadata::types::{Key, TokenDelegateRole, TokenStandard, TokenState};
use solana_program::pubkey::Pubkey as SolPubkey;

use rarible_marketplace::accounts::{
    get_extra_freeze_params, get_extra_revoke_params, get_extra_transfer_params, get_metaplex_transfer_params,
    parse_remaining_accounts, parse_remaining_accounts_pnft, ExistingDelegateParams,
};
use rarible_marketplace::cpi_accounts::{
    metaplex_burn_accounts, metaplex_create_accounts, metaplex_lock_accounts, metaplex_mint_accounts,
    metaplex_revoke_accounts, metaplex_unverify_accounts, metaplex_update_accounts, BurnParams, DelegateNft,
    FreezeNft, LockAccounts, MetaplexBurn, MetaplexCreate, MetaplexMint, MetaplexUnverify, MetaplexUpdate,
    MintParams, RevokeAccounts, RevokeNft, UnverifyAccounts, UpdateAccounts,
};
use rarible_marketplace::instructions::init_market;
use rarible_marketplace::nft_ops::{
    delegate_and_freeze, delegate_nft, freeze_nft, revoke_nft, thaw_and_revoke, thaw_nft, transfer_nft,
    DelegateRole, DelegateStep, FreezeAction, LocalRevokeArgs, RevokeAction, ThawAction, TransferAction,
};
use rarible_marketplace::state::Market;
use rarible_marketplace::errors::{MarketError, MarketplaceError};
use rarible_marketplace::fees::lamport_transfer;

fn key(b: u8) -> [u8; 32] {
    [b; 32]
}

const Z: [u8; 32] = [0u8; 32];

fn token_record(role: Option<TokenDelegateRole>) -> Vec<u8> {
    TokenRecord {
        key: Key::TokenRecord,
        bump: 255,
        state: TokenState::Unlocked,
        rule_set_revision: None,
        delegate: role.as_ref().map(|_| SolPubkey::new_from_array(key(30))),
        delegate_role: role,
        locked_transfer: None,
    }
    .try_to_vec()
    .unwrap()
}

fn metadata(standard: Option<TokenStandard>) -> Vec<u8> {
    Metadata {
        key: Key::MetadataV1,
        update_authority: SolPubkey::new_from_array(key(1)),
        mint: SolPubkey::new_from_array(key(2)),
        name: String::new(),
        symbol: String::new(),
        uri: String::new(),
        seller_fee_basis_points: 0,
        creators: None,
        primary_sale_happened: false,
        is_mutable: true,
        edition_nonce: None,
        token_standard: standard,
        collection: None,
        uses: None,
        collection_details: None,
        programmable_config: None,
    }
    .try_to_vec()
    .unwrap()
}

#[test]
fn default_first_account_means_no_pnft() {
    let keys = vec![Z, key(1), key(2), key(3), key(4), key(5), key(6), key(7)];
    let p = parse_remaining_accounts_pnft(&keys, false, None);
    assert_eq!(p.pnft_params.token_record, None);
    assert_eq!(p.pnft_params.authorization_rules, None);
    assert_eq!(p.delegate_record, Some(3));
    assert_eq!(p.existing_delegate_params, None);
    assert_eq!(p.creator_accounts_start, 6);
    assert!(p.fees_on);
}

#[test]
fn pnft_accounts_and_existing_delegate() {
    let keys = vec![key(1), key(2), key(3), Z, key(5), key(6), key(7), key(8)];
    let p = parse_remaining_accounts_pnft(&keys, true, None);
    assert_eq!(p.pnft_params.token_record, Some(0));
    assert_eq!(p.pnft_params.authorization_rules, Some(1));
    assert_eq!(p.pnft_params.authorization_rules_program, Some(2));
    assert_eq!(p.delegate_record, None);
    assert_eq!(
        p.existing_delegate_params,
        Some(ExistingDelegateParams { existing_delegate: 4, existing_delegate_record: 5 })
    );
    assert_eq!(p.creator_accounts_start, 8);
}

#[test]
fn extra_pnft_accounts_shift_the_rest() {
    let keys = vec![key(1), key(2), key(3), key(4), key(5)];
    let p = parse_remaining_accounts_pnft(&keys, false, Some(1));
    assert_eq!(p.delegate_record, Some(4));
    assert_eq!(p.creator_accounts_start, 7);
    let short = vec![key(1)];
    let q = parse_remaining_accounts_pnft(&short, true, None);
    assert_eq!(q.pnft_params.token_record, Some(0));
    assert_eq!(q.pnft_params.authorization_rules, None);
    assert_eq!(q.delegate_record, None);
    assert_eq!(q.creator_accounts_start, 6);
    let f = parse_remaining_accounts(&keys, key(9), false, false, None);
    assert!(!f.fees_on);
}

#[test]
fn extra_params_by_position() {
    let keys = vec![key(1), key(2), key(3), key(4), key(5), key(6), key(7)];
    let t = get_extra_transfer_params(&keys, None, 0);
    assert_eq!((t.owner_token_record, t.authorization_rules_program), (Some(0), Some(3)));
    let t = get_extra_transfer_params(&keys, None, 4);
    assert_eq!(t.owner_token_record, None);
    let m = get_metaplex_transfer_params(&keys, None);
    assert_eq!((m.nft_metadata, m.authorization_rules_program), (Some(1), Some(6)));
    let m = get_metaplex_transfer_params(&keys[..3].to_vec(), None);
    assert_eq!((m.nft_edition, m.owner_token_record), (Some(2), None));
    let f = get_extra_freeze_params(&keys[..2].to_vec(), None);
    assert_eq!((f.token_record, f.authorization_rules, f.authorization_rules_program), (Some(0), Some(1), None));
    let r = get_extra_revoke_params(&keys, mpl_token_metadata::types::RevokeArgs::SaleV1);
    assert_eq!((r.delegate_record, r.authorization_rules), (Some(0), Some(4)));
    assert_eq!(r.revoke_args, mpl_token_metadata::types::RevokeArgs::SaleV1);
}

#[test]
fn burn_account_order() {
    let a = MetaplexBurn {
        authority: key(1), metadata: key(2), mint: key(3), token: key(4),
        system_program: key(5), sysvar_instructions: key(6), spl_token_program: key(7),
    };
    let none = BurnParams {
        collection_metadata: None, edition: None, master_edition: None, master_edition_mint: None,
        master_edition_token: None, edition_marker: None, token_record: None, amount: 1,
    };
    assert_eq!(metaplex_burn_accounts(&a, &none), vec![key(2), key(1), key(2), key(3), key(4), key(5), key(6), key(7)]);
    let some = BurnParams { edition: Some(key(20)), token_record: Some(key(21)), ..none };
    assert_eq!(
        metaplex_burn_accounts(&a, &some),
        vec![key(2), key(1), key(2), key(20), key(3), key(4), key(21), key(5), key(6), key(7)]
    );
}

#[test]
fn other_metaplex_account_orders() {
    let c = MetaplexCreate {
        metadata: key(1), mint: key(2), authority: key(3), payer: key(4), update_authority: key(5),
        system_program: key(6), sysvar_instructions: key(7), spl_token_program: key(8),
    };
    assert_eq!(metaplex_create_accounts(&c, Some(key(9)))[..3], [key(1), key(9), key(2)]);
    let m = MetaplexMint {
        token: key(1), token_owner: key(2), metadata: key(3), mint: key(4), authority: key(5), payer: key(6),
        system_program: key(7), sysvar_instructions: key(8), spl_token_program: key(9), spl_ata_program: key(10),
    };
    let mp = MintParams {
        master_edition: None, token_record: Some(key(11)), delegate_record: None,
        authorization_rules_program: None, authorization_rules: Some(key(12)),
    };
    let v = metaplex_mint_accounts(&m, &mp);
    assert_eq!(v.len(), 12);
    assert_eq!(v[3], key(11));
    assert_eq!(v[11], key(12));
    let r = RevokeNft {
        token: key(1), delegate: key(2), metadata: key(3), mint: key(4), authority: key(5), payer: key(6),
        token_program: key(7), system_program: key(8), sysvar_instructions: key(9),
    };
    let rp = RevokeAccounts {
        delegate_record: Some(key(10)), master_edition: None, token_record: None,
        authorization_rules_program: None, authorization_rules: None,
    };
    assert_eq!(metaplex_revoke_accounts(&r, &rp)[..4], [key(10), key(2), key(3), key(4)]);
    let u = MetaplexUnverify { authority: key(1), metadata: key(2), system_program: key(3), sysvar_instructions: key(4) };
    let up = UnverifyAccounts { delegate_record: None, collection_mint: Some(key(5)), collection_metadata: None };
    assert_eq!(metaplex_unverify_accounts(&u, &up), vec![key(1), key(2), key(5), key(3), key(4)]);
    let d = MetaplexUpdate {
        authority: key(1), mint: key(2), metadata: key(3), payer: key(4), system_program: key(5),
        sysvar_instructions: key(6),
    };
    let dp = UpdateAccounts {
        delegate_record: None, token: Some(key(7)), edition: Some(key(8)),
        authorization_rules_program: None, authorization_rules: None,
    };
    assert_eq!(metaplex_update_accounts(&d, &dp), vec![key(1), key(7), key(2), key(3), key(8), key(4), key(5), key(6)]);
}

fn freeze_accounts() -> FreezeNft {
    FreezeNft {
        authority: key(1), payer: key(2), token_owner: key(3), token: key(4), delegate: key(5), mint: key(6),
        metadata: key(7), edition: key(8), mpl_token_metadata: key(9), system_program: key(10),
        instructions: key(11), token_program: key(12), ata_program: key(13),
    }
}

#[test]
fn lock_adds_the_token_record_of_a_pnft() {
    let f = freeze_accounts();
    let pnft = metadata(Some(TokenStandard::ProgrammableNonFungible));
    let p = LockAccounts { token_record: Some(key(20)), authorization_rules: None, authorization_rules_program: None };
    let v = metaplex_lock_accounts(&f, &pnft, &p).unwrap().unwrap();
    assert_eq!(v.len(), 11);
    assert_eq!(v[0], key(5));
    assert_eq!(v[10], key(20));
    let plain = metadata(None);
    assert_eq!(metaplex_lock_accounts(&f, &plain, &p).unwrap().unwrap().len(), 10);
    let none = LockAccounts { token_record: None, authorization_rules: None, authorization_rules_program: None };
    assert!(metaplex_lock_accounts(&f, &pnft, &none).is_none());
    assert_eq!(metaplex_lock_accounts(&f, &plain, &none).unwrap().unwrap().len(), 10);
    assert!(matches!(metaplex_lock_accounts(&f, &[1, 2], &p), Some(Err(MarketplaceError::AccountDataUnreadable))));
    let d = DelegateNft::from_freeze(f);
    assert_eq!((d.token, d.delegate, d.sysvar_instructions), (key(4), key(5), key(11)));
}

#[test]
fn nft_actions_follow_the_metadata() {
    let pnft = metadata(Some(TokenStandard::ProgrammableNonFungible));
    let nft = metadata(Some(TokenStandard::NonFungible));
    let fungible = metadata(Some(TokenStandard::Fungible));
    assert_eq!(transfer_nft(&pnft), TransferAction::MetaplexTransfer);
    assert_eq!(transfer_nft(&nft), TransferAction::TokenTransfer);
    assert_eq!(transfer_nft(&[]), TransferAction::TokenTransfer);
    assert_eq!(freeze_nft(&pnft), FreezeAction::MetaplexLock);
    assert_eq!(freeze_nft(&nft), FreezeAction::TokenFreeze);
    assert_eq!(freeze_nft(&fungible), FreezeAction::TokenFreeze);
    assert_eq!(thaw_nft(&pnft), ThawAction::MetaplexUnlock);
    assert_eq!(thaw_nft(&nft), ThawAction::Nothing);
    assert_eq!(thaw_nft(&[]), ThawAction::Nothing);
    assert_eq!(revoke_nft(&pnft), RevokeAction::MetaplexRevoke);
    assert_eq!(revoke_nft(&nft), RevokeAction::TokenRevoke);
    assert_eq!(thaw_and_revoke(&nft, false), (ThawAction::Nothing, None));
    assert_eq!(thaw_and_revoke(&pnft, true), (ThawAction::MetaplexUnlock, Some(RevokeAction::MetaplexRevoke)));
}

#[test]
fn delegation_revokes_an_existing_delegate_first() {
    let pnft = metadata(Some(TokenStandard::ProgrammableNonFungible));
    let nft = metadata(None);
    let transfer_record = token_record(Some(TokenDelegateRole::Transfer));
    let empty_record = token_record(None);
    assert_eq!(delegate_nft(&[], Some(&transfer_record), true), vec![DelegateStep::Approve]);
    assert_eq!(
        delegate_nft(&pnft, Some(&transfer_record), true),
        vec![DelegateStep::MetaplexRevoke(LocalRevokeArgs::TransferV1), DelegateStep::MetaplexDelegate]
    );
    assert_eq!(delegate_nft(&pnft, Some(&transfer_record), false), vec![DelegateStep::MetaplexDelegate]);
    assert_eq!(delegate_nft(&pnft, Some(&empty_record), true), vec![DelegateStep::MetaplexDelegate]);
    assert_eq!(delegate_nft(&pnft, Some(&[1, 2, 3]), true), vec![DelegateStep::MetaplexDelegate]);
    assert_eq!(delegate_nft(&pnft, None, true), vec![DelegateStep::MetaplexDelegate]);
    assert_eq!(delegate_nft(&nft, Some(&transfer_record), true), vec![DelegateStep::Approve]);
    let (steps, freeze) = delegate_and_freeze(&nft, None, false);
    assert_eq!(steps, vec![DelegateStep::Approve]);
    assert_eq!(freeze, FreezeAction::TokenFreeze);
    let (steps, freeze) = delegate_and_freeze(&pnft, Some(&transfer_record), true);
    assert_eq!(steps.len(), 2);
    assert_eq!(freeze, FreezeAction::MetaplexLock);
}

#[test]
fn revoke_args_by_role() {
    assert_eq!(LocalRevokeArgs::from_role(DelegateRole::Sale), LocalRevokeArgs::SaleV1);
    assert_eq!(LocalRevokeArgs::from_role(DelegateRole::Migration), LocalRevokeArgs::MigrationV1);
    assert_eq!(LocalRevokeArgs::UtilityV1.revoke_args_index(), 4);
    assert_eq!(LocalRevokeArgs::MigrationV1.revoke_args_index(), 9);
}

#[test]
fn init_market_reports_the_market() {
    let mut m = Market { version: 0, market_identifier: Z, initializer: Z, state: 1, fee_recipient: Z, fee_bps: 0, reserve: [0; 512] };
    let e = init_market(&mut m, key(3), key(1), key(2));
    assert_eq!(m.state, 0);
    assert_eq!(e.state, 0);
    assert_eq!(e.market_identifier, SolPubkey::new_from_array(key(1)).to_string());
}

#[test]
fn lamport_transfers() {
    let (mut src, mut dest) = (100u64, 5u64);
    assert_eq!(lamport_transfer(&mut src, &mut dest, 40), Ok(()));
    assert_eq!((src, dest), (60, 45));
    // the destination is credited before the source is found short
    let (mut src, mut dest) = (10u64, 5u64);
    assert_eq!(lamport_transfer(&mut src, &mut dest, 40), Err(MarketError::AmountUnderflow));
    assert_eq!((src, dest), (10, 45));
    let (mut src, mut dest) = (100u64, u64::MAX);
    assert_eq!(lamport_transfer(&mut src, &mut dest, 1), Err(MarketError::AmountOverflow));
    assert_eq!((src, dest), (100, u64::MAX));
}

#[test]
fn positions_and_suffixes() {
    assert_eq!(rarible_marketplace::accounts::get_slot(3, 2), Some(2));
    assert_eq!(rarible_marketplace::accounts::get_slot(3, 3), None);
    let keys = vec![key(1), key(2), key(3), key(2)];
    assert_eq!(rarible_marketplace::instructions::suffix(&keys, 1), vec![key(2), key(3), key(2)]);
    assert_eq!(rarible_marketplace::instructions::suffix(&keys, 4), Vec::<[u8; 32]>::new());
    assert_eq!(rarible_marketplace::instructions::suffix(&keys, 9), Vec::<[u8; 32]>::new());
    assert_eq!(rarible_marketplace::royalties::find_last_key(&keys, &key(2)), Some(3));
    assert_eq!(rarible_marketplace::royalties::find_last_key(&keys, &key(1)), Some(0));
    assert_eq!(rarible_marketplace::royalties::find_last_key(&keys, &key(7)), None);
}

#[test]
fn fee_modification_keeps_the_rest() {
    let mut m = Market { version: 1, market_identifier: key(4), initializer: key(5), state: 0, fee_recipient: Z, fee_bps: 0, reserve: [0; 512] };
    m.modify_fee(key(6), 250);
    assert_eq!(m.fee_recipient, key(6));
    assert_eq!(m.fee_bps, 250);
    assert_eq!((m.version, m.market_identifier, m.initializer, m.state), (1, key(4), key(5), 0));
}
