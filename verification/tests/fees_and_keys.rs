use rarible_marketplace::errors::MarketError;
use rarible_marketplace::fees::{
    get_amount_from_bp, get_bump_in_seed_form, get_fee_amount, get_fee_amount_bps, get_index_fee_bp,
};
use rarible_marketplace::keys::{default_pubkey, is_default_key, keys_equal};
use rarible_marketplace::royalties::{
    find_key, parse_creators, royalty_basis_points_u16, royalty_basis_points_u64, transfer_hook_payouts,
};
use rarible_marketplace::state::{Market, MarketEditType};
use solana_program::pubkey::Pubkey as SolPubkey;

#[test]
fn protocol_fee_is_half_a_percent() {
    assert_eq!(get_fee_amount(10_000), 50);
    assert_eq!(get_fee_amount(1_000_000), 5_000);
    assert_eq!(get_fee_amount(199), 0);
    assert_eq!(get_fee_amount(0), 0);
}

#[test]
fn fee_for_any_rate() {
    assert_eq!(get_fee_amount_bps(200, 250), 5);
    assert_eq!(get_fee_amount_bps(1_000, 10_000), 1_000);
    assert_eq!(get_fee_amount_bps(999, 1), 0);
}

#[test]
fn index_fee_splits_without_remainder() {
    let r = get_index_fee_bp(1_000, 500).unwrap();
    assert_eq!(r, [950, 50]);
    assert_eq!(r[0] + r[1], 1_000);
    assert_eq!(get_index_fee_bp(12_345, 0).unwrap(), [12_345, 0]);
    assert_eq!(get_index_fee_bp(1_000, 10_000).unwrap(), [0, 1_000]);
}

#[test]
fn index_fee_refuses_a_cut_above_the_amount() {
    assert_eq!(get_index_fee_bp(1_000, 20_000), Err(MarketError::AmountOverflow));
    assert_eq!(get_amount_from_bp(1_000, 20_000), Err(MarketError::AmountOverflow));
}

#[test]
fn index_fee_refuses_an_overflowing_product() {
    assert_eq!(get_index_fee_bp(u64::MAX, u128::MAX), Err(MarketError::AmountOverflow));
}

#[test]
fn index_fee_cut_that_does_not_fit_is_zero() {
    assert_eq!(get_index_fee_bp(u64::MAX, 20_000).unwrap(), [u64::MAX, 0]);
}

#[test]
fn amount_from_bp_is_the_cut() {
    assert_eq!(get_amount_from_bp(10_000, 250), Ok(250));
}

#[test]
fn bump_seed() {
    assert_eq!(get_bump_in_seed_form(&254), [254]);
}

#[test]
fn default_key_is_all_zero() {
    let d = default_pubkey();
    assert_eq!(d, [0u8; 32]);
    assert!(is_default_key(&d));
    assert!(!is_default_key(&[1u8; 32]));
    assert!(keys_equal(&[3u8; 32], &[3u8; 32]));
    let mut k = [3u8; 32];
    k[31] = 4;
    assert!(!keys_equal(&[3u8; 32], &k));
}

fn b58(k: [u8; 32]) -> String {
    SolPubkey::new_from_array(k).to_string()
}

fn pairs(p: &[(&str, &str)]) -> Vec<(String, String)> {
    p.iter().map(|(a, b)| (a.to_string(), b.to_string())).collect()
}

fn bp(v: &str) -> Vec<(String, String)> {
    pairs(&[("royalty_basis_points", v)])
}

#[test]
fn pubkey_text_round_trip() {
    // metadata keys that are addresses in text name creators; others do not
    let p = pairs(&[
        (&b58([7u8; 32]), "10"),
        ("11111111111111111111111111111111", "5"),
        ("royalty_basis_points", "3"),
        ("111111111111111111111111111111111111111111111", "1"),
        ("not an address", "1"),
    ]);
    assert_eq!(parse_creators(&p), Ok(vec![([7u8; 32], 10), ([0u8; 32], 5)]));
    // events carry addresses in text
    let m = Market { version: 1, market_identifier: [1u8; 32], initializer: [2u8; 32], state: 0, fee_recipient: [0u8; 32], fee_bps: 0, reserve: [0; 512] };
    let e = m.get_edit_event([9u8; 32], MarketEditType::Init);
    assert_eq!(e.address, b58([9u8; 32]));
    assert_eq!(e.address, "cGfHiC6Kgg3FpFZvgwGcswsCRtp4aBP2fzuXRQPizuN");
    assert_eq!(e.market_identifier, b58([1u8; 32]));
    assert_eq!(e.initializer, b58([2u8; 32]));
}

#[test]
fn decimal_parsing() {
    assert_eq!(royalty_basis_points_u64(&bp("42")), Some(42));
    assert_eq!(royalty_basis_points_u64(&bp("+42")), Some(42));
    assert_eq!(royalty_basis_points_u64(&bp("007")), Some(7));
    assert_eq!(royalty_basis_points_u64(&bp("")), None);
    assert_eq!(royalty_basis_points_u64(&bp("+")), None);
    assert_eq!(royalty_basis_points_u64(&bp("-1")), None);
    assert_eq!(royalty_basis_points_u64(&bp(" 1")), None);
    assert_eq!(royalty_basis_points_u64(&bp("18446744073709551615")), Some(u64::MAX));
    assert_eq!(royalty_basis_points_u64(&bp("18446744073709551616")), None);
    assert_eq!(royalty_basis_points_u16(&bp("65535")), Some(65535));
    assert_eq!(royalty_basis_points_u16(&bp("65536")), None);
    // shares of the transfer hook are read as a u8
    let a = b58([3u8; 32]);
    let v = transfer_hook_payouts(100, &pairs(&[("royalty_basis_points", "10000"), (&a, "255")])).unwrap();
    assert_eq!((v[0].recipient, v[0].amount), ([3u8; 32], 255));
    assert!(transfer_hook_payouts(100, &pairs(&[("royalty_basis_points", "10000"), (&a, "256")])).unwrap().is_empty());
}

#[test]
fn string_helpers() {
    let p = pairs(&[("abc", "1"), ("royalty_x", "2")]);
    assert_eq!(find_key(&p, "abc"), Some(0));
    assert_eq!(find_key(&p, "abd"), None);
    assert_eq!(find_key(&p, "royalty"), None);
    assert_eq!(parse_creators(&p), Ok(vec![]));
}
