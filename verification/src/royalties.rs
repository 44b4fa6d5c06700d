use vstd::prelude::*;

use crate::errors::{MarketError, MarketplaceError};
use crate::fees::{get_index_fee_bp, index_fee_split};
use crate::keys::{keys_equal, parse_pubkey, spec_pubkey_from_str, Pubkey};
use crate::metadata::{decode_metadata, pairs_view, spec_metadata_facts, CreatorWithShare, MetadataFacts};
use crate::text::{has_prefix, parse_u16, parse_u64, parse_u8, parse_unsigned, str_equal, str_starts_with};

verus! {

/// The key under which a mint's metadata keeps its royalty rate.
pub const ROYALTY_BASIS_POINTS_FIELD: &'static str = "royalty_basis_points";

/// A transfer of `amount` to `recipient`.
#[derive(Debug, Clone, Copy)]
pub struct Payout {
    pub recipient: Pubkey,
    pub amount: u64,
}

/// Whether a list of payouts is, entry by entry, the list of recipients and
/// amounts `s`.
pub open spec fn payouts_are(v: Seq<Payout>, s: Seq<(Seq<u8>, int)>) -> bool {
    &&& v.len() == s.len()
    &&& forall|i: int| 0 <= i < v.len() ==> (#[trigger] v[i]).recipient@ == s[i].0 && v[i].amount == s[i].1
}

/// The position of the first pair whose key is `key`.
pub open spec fn first_key_index(p: Seq<(Seq<char>, Seq<char>)>, key: Seq<char>) -> Option<int>
    decreases p.len(),
{
    if p.len() == 0 {
        None
    } else {
        match first_key_index(p.drop_last(), key) {
            Some(i) => Some(i),
            None => if p.last().0 == key {
                Some(p.len() - 1)
            } else {
                None
            },
        }
    }
}

proof fn lemma_first_key_index_bounds(p: Seq<(Seq<char>, Seq<char>)>, key: Seq<char>)
    ensures
        first_key_index(p, key) matches Some(i) ==> 0 <= i < p.len() && p[i].0 == key,
        first_key_index(p, key) is None ==> forall|j: int| 0 <= j < p.len() ==> p[j].0 != key,
    decreases p.len(),
{
    if p.len() > 0 {
        lemma_first_key_index_bounds(p.drop_last(), key);
        if first_key_index(p.drop_last(), key) is None {
            assert forall|j: int| 0 <= j < p.len() - 1 implies p[j].0 != key by {
                assert(p.drop_last()[j] == p[j]);
            }
        }
    }
}

proof fn lemma_first_key_index_prefix(p: Seq<(Seq<char>, Seq<char>)>, key: Seq<char>, n: int)
    requires
        0 <= n <= p.len(),
        first_key_index(p.take(n), key) is Some,
    ensures
        first_key_index(p, key) == first_key_index(p.take(n), key),
    decreases p.len() - n,
{
    if n == p.len() {
        assert(p.take(n) =~= p);
    } else {
        assert(p.take(n + 1).drop_last() =~= p.take(n));
        lemma_first_key_index_prefix(p, key, n + 1);
    }
}

/// The position of the first pair whose key is `key`.
pub fn find_key(pairs: &Vec<(String, String)>, key: &str) -> (r: Option<usize>)
    ensures
        r matches Some(i) ==> first_key_index(pairs_view(pairs@), key@) == Some(i as int),
        r is None ==> first_key_index(pairs_view(pairs@), key@) is None,
{
    let ghost p = pairs_view(pairs@);
    let mut i: usize = 0;
    while i < pairs.len()
        invariant
            0 <= i <= pairs.len(),
            p == pairs_view(pairs@),
            first_key_index(p.take(i as int), key@) is None,
        decreases pairs.len() - i,
    {
        assert(p.take(i + 1).drop_last() =~= p.take(i as int));
        if str_equal(pairs[i].0.as_str(), key) {
            proof {
                assert(p.take(i + 1).last() == p[i as int]);
                lemma_first_key_index_prefix(p, key@, i + 1);
            }
            return Some(i);
        }
        i = i + 1;
    }
    assert(p.take(i as int) =~= p);
    None
}

/// The royalty rate that a metadata list gives, read as an unsigned number of
/// largest value `max`: 0 when the field is absent, `None` when its value does
/// not parse.
pub open spec fn royalty_bp_field(p: Seq<(Seq<char>, Seq<char>)>, max: int) -> Option<int> {
    match first_key_index(p, ROYALTY_BASIS_POINTS_FIELD@) {
        Some(i) => parse_unsigned(p[i].1, max),
        None => Some(0),
    }
}

/// The royalty rate of a mint's metadata as a `u64`: 0 when the field is
/// absent, `None` when its value is not a number.
pub fn royalty_basis_points_u64(pairs: &Vec<(String, String)>) -> (r: Option<u64>)
    ensures
        match royalty_bp_field(pairs_view(pairs@), u64::MAX as int) {
            Some(v) => r matches Some(x) && x == v,
            None => r is None,
        },
{
    proof {
        lemma_first_key_index_bounds(pairs_view(pairs@), ROYALTY_BASIS_POINTS_FIELD@);
    }
    let ghost p = pairs_view(pairs@);
    match find_key(pairs, ROYALTY_BASIS_POINTS_FIELD) {
        Some(i) => {
            let r = parse_u64(pairs[i].1.as_str());
            assert(p[i as int].1 == pairs@[i as int].1@);
            r
        },
        None => Some(0),
    }
}

/// The royalty rate of a mint's metadata as a `u16`: 0 when the field is
/// absent, `None` when its value is not a `u16`.
pub fn royalty_basis_points_u16(pairs: &Vec<(String, String)>) -> (r: Option<u16>)
    ensures
        match royalty_bp_field(pairs_view(pairs@), u16::MAX as int) {
            Some(v) => r matches Some(x) && x == v,
            None => r is None,
        },
{
    proof {
        lemma_first_key_index_bounds(pairs_view(pairs@), ROYALTY_BASIS_POINTS_FIELD@);
    }
    match find_key(pairs, ROYALTY_BASIS_POINTS_FIELD) {
        Some(i) => parse_u16(pairs[i].1.as_str()),
        None => Some(0),
    }
}

/// The recipient and share that a metadata pair names, when its key is an
/// address and its value a share that fits a `u8`.
pub open spec fn hook_share(e: (Seq<char>, Seq<char>)) -> Option<(Seq<u8>, int)> {
    match (spec_pubkey_from_str(e.0), parse_unsigned(e.1, u8::MAX as int)) {
        (Some(k), Some(s)) => Some((k, s)),
        _ => None,
    }
}

/// The payouts that the transfer hook makes out of `total`: for each pair that
/// names a recipient and a share, `total * share / 100`, in order.
pub open spec fn hook_payouts(total: int, p: Seq<(Seq<char>, Seq<char>)>) -> Seq<(Seq<u8>, int)>
    decreases p.len(),
{
    if p.len() == 0 {
        Seq::empty()
    } else {
        let rest = hook_payouts(total, p.drop_last());
        match hook_share(p.last()) {
            Some((k, s)) => rest.push((k, total * s / 100)),
            None => rest,
        }
    }
}

/// Whether the payout that a pair names overflows a `u64`.
pub open spec fn hook_overflow_at(total: int, e: (Seq<char>, Seq<char>)) -> bool {
    match hook_share(e) {
        Some((k, s)) => total * s > u64::MAX,
        None => false,
    }
}

/// Whether computing a payout out of `total` overflows a `u64`.
pub open spec fn hook_overflows(total: int, p: Seq<(Seq<char>, Seq<char>)>) -> bool {
    exists|i: int| 0 <= i < p.len() && #[trigger] hook_overflow_at(total, p[i])
}

/// The royalty that the transfer hook takes on `amount` at `bp` basis points.
pub open spec fn hook_total(amount: int, bp: int) -> int {
    amount * bp / 10000
}

/// What the transfer hook pays out on a transfer of `amount`, given the
/// mint's metadata: `None` where the program aborts (the rate does not parse,
/// or an amount overflows a `u64`), no payouts when the rate is 0.
pub open spec fn transfer_hook_outcome(amount: int, p: Seq<(Seq<char>, Seq<char>)>) -> Option<Seq<(Seq<u8>, int)>> {
    match royalty_bp_field(p, u16::MAX as int) {
        None => None,
        Some(bp) => if bp == 0 {
            Some(Seq::empty())
        } else if amount * bp > u64::MAX {
            None
        } else if hook_overflows(hook_total(amount, bp), p) {
            None
        } else {
            Some(hook_payouts(hook_total(amount, bp), p))
        },
    }
}

/// The payouts of the transfer hook on a transfer of `amount`: for each
/// metadata pair whose key is an address and whose value is a share (a `u8`),
/// that share, in percent, of the royalty `amount * bp / 10000`. `None` where
/// the program aborts.
pub fn transfer_hook_payouts(amount: u64, pairs: &Vec<(String, String)>) -> (r: Option<Vec<Payout>>)
    ensures
        match transfer_hook_outcome(amount as int, pairs_view(pairs@)) {
            Some(s) => r matches Some(v) && payouts_are(v@, s),
            None => r is None,
        },
{
    let ghost p = pairs_view(pairs@);
    let bp: u16 = match royalty_basis_points_u16(pairs) {
        Some(b) => b,
        None => return None,
    };
    if bp == 0 {
        return Some(Vec::new());
    }
    let total: u64 = match amount.checked_mul(bp as u64) {
        Some(x) => x / 10000,
        None => return None,
    };
    let mut out: Vec<Payout> = Vec::new();
    let mut i: usize = 0;
    while i < pairs.len()
        invariant
            0 <= i <= pairs.len(),
            p == pairs_view(pairs@),
            total == hook_total(amount as int, bp as int),
            royalty_bp_field(p, u16::MAX as int) == Some(bp as int),
            bp != 0,
            amount * bp <= u64::MAX,
            payouts_are(out@, hook_payouts(total as int, p.take(i as int))),
            !hook_overflows(total as int, p.take(i as int)),
        decreases pairs.len() - i,
    {
        assert(p.take(i + 1).drop_last() =~= p.take(i as int));
        assert(p.take(i + 1).last() == p[i as int]);
        assert(p[i as int] == (pairs@[i as int].0@, pairs@[i as int].1@));
        let key = parse_pubkey(pairs[i].0.as_str());
        let share = parse_u8(pairs[i].1.as_str());
        match (key, share) {
            (Some(k), Some(s)) => {
                let prod = match total.checked_mul(s as u64) {
                    Some(x) => x,
                    None => {
                        assert(hook_share(p[i as int]) == Some((k@, s as int)));
                        assert(hook_overflow_at(total as int, p[i as int]));
                        assert(hook_overflows(total as int, p));
                        return None;
                    },
                };
                out.push(Payout { recipient: k, amount: prod / 100 });
            },
            _ => {},
        }
        proof {
            let q = p.take(i + 1);
            assert forall|j: int| 0 <= j < q.len() implies !#[trigger] hook_overflow_at(total as int, q[j]) by {
                if j < i {
                    assert(q[j] == p.take(i as int)[j]);
                }
            }
        }
        i = i + 1;
    }
    assert(p.take(i as int) =~= p);
    Some(out)
}


proof fn lemma_first_key_index_prepend(e: (Seq<char>, Seq<char>), p: Seq<(Seq<char>, Seq<char>)>, key: Seq<char>)
    requires
        e.0 != key,
    ensures
        first_key_index(seq![e] + p, key) == (match first_key_index(p, key) {
            Some(i) => Some(i + 1),
            None => None::<int>,
        }),
    decreases p.len(),
{
    if p.len() == 0 {
        assert((seq![e] + p).drop_last() =~= Seq::<(Seq<char>, Seq<char>)>::empty());
    } else {
        assert((seq![e] + p).drop_last() =~= seq![e] + p.drop_last());
        lemma_first_key_index_prepend(e, p.drop_last(), key);
    }
}

proof fn lemma_hook_payouts_prepend(total: int, e: (Seq<char>, Seq<char>), p: Seq<(Seq<char>, Seq<char>)>)
    ensures
        hook_payouts(total, seq![e] + p) == (match hook_share(e) {
            Some((k, s)) => seq![(k, total * s / 100)],
            None => Seq::empty(),
        }) + hook_payouts(total, p),
    decreases p.len(),
{
    if p.len() == 0 {
        assert((seq![e] + p).drop_last() =~= Seq::<(Seq<char>, Seq<char>)>::empty());
        assert(hook_payouts(total, Seq::<(Seq<char>, Seq<char>)>::empty()) =~= Seq::empty());
        assert((seq![e] + p).last() == e);
        match hook_share(e) {
            Some((k, s)) => {
                assert(Seq::<(Seq<u8>, int)>::empty().push((k, total * s / 100)) =~= seq![(k, total * s / 100)] + Seq::empty());
            },
            None => {
                assert(Seq::<(Seq<u8>, int)>::empty() =~= Seq::empty() + Seq::<(Seq<u8>, int)>::empty());
            },
        }
    } else {
        assert((seq![e] + p).drop_last() =~= seq![e] + p.drop_last());
        assert((seq![e] + p).last() == p.last());
        lemma_hook_payouts_prepend(total, e, p.drop_last());
        let head: Seq<(Seq<u8>, int)> = match hook_share(e) {
            Some((k, s)) => seq![(k, total * s / 100)],
            None => Seq::empty(),
        };
        match hook_share(p.last()) {
            Some((k, s)) => {
                assert((head + hook_payouts(total, p.drop_last())).push((k, total * s / 100))
                    =~= head + hook_payouts(total, p.drop_last()).push((k, total * s / 100)));
            },
            None => {},
        }
    }
}

/// The transfer hook pays every pair that names a recipient and a share,
/// wherever it stands in the mint's metadata, before or after the royalty
/// field: a recipient pair put in front of the metadata adds its payout in
/// front, and one put at the end adds its payout at the end, of
/// `(amount * bp / 10000) * share / 100`, the rest staying as it was.
pub proof fn lemma_hook_pays_every_recipient(
    amount: int,
    p: Seq<(Seq<char>, Seq<char>)>,
    e: (Seq<char>, Seq<char>),
    bp: int,
    recipient: Seq<u8>,
    share: int,
)
    requires
        0 <= amount <= u64::MAX,
        e.0 != ROYALTY_BASIS_POINTS_FIELD@,
        hook_share(e) == Some((recipient, share)),
        royalty_bp_field(p, u16::MAX as int) == Some(bp),
        bp != 0,
        transfer_hook_outcome(amount, p) is Some,
        (amount * bp / 10000) * share <= u64::MAX,
    ensures
        transfer_hook_outcome(amount, seq![e] + p)
            == Some(seq![(recipient, (amount * bp / 10000) * share / 100)] + transfer_hook_outcome(amount, p)->Some_0),
        transfer_hook_outcome(amount, p.push(e))
            == Some(transfer_hook_outcome(amount, p)->Some_0.push((recipient, (amount * bp / 10000) * share / 100))),
{
    let total = hook_total(amount, bp);
    let f = ROYALTY_BASIS_POINTS_FIELD@;
    lemma_first_key_index_prepend(e, p, f);
    lemma_first_key_index_bounds(p, f);
    if let Some(i) = first_key_index(p, f) {
        assert((seq![e] + p)[i + 1] == p[i]);
    }
    assert(royalty_bp_field(seq![e] + p, u16::MAX as int) == Some(bp));
    assert(p.push(e).drop_last() =~= p);
    assert(first_key_index(p.push(e), f) == first_key_index(p, f));
    if let Some(i) = first_key_index(p, f) {
        assert(p.push(e)[i] == p[i]);
    }
    assert(royalty_bp_field(p.push(e), u16::MAX as int) == Some(bp));
    assert(!hook_overflows(total, p));
    assert(!hook_overflows(total, seq![e] + p)) by {
        if hook_overflows(total, seq![e] + p) {
            let j = choose|j: int| 0 <= j < (seq![e] + p).len() && #[trigger] hook_overflow_at(total, (seq![e] + p)[j]);
            if j == 0 {
                assert((seq![e] + p)[0] == e);
            } else {
                assert((seq![e] + p)[j] == p[j - 1]);
                assert(hook_overflow_at(total, p[j - 1]));
            }
        }
    }
    assert(!hook_overflows(total, p.push(e))) by {
        if hook_overflows(total, p.push(e)) {
            let j = choose|j: int| 0 <= j < p.push(e).len() && #[trigger] hook_overflow_at(total, p.push(e)[j]);
            if j < p.len() {
                assert(p.push(e)[j] == p[j]);
                assert(hook_overflow_at(total, p[j]));
            }
        }
    }
    lemma_hook_payouts_prepend(total, e, p);
    assert(p.push(e).last() == e);
}

/// The prefix of the metadata keys that are not creators.
pub const ROYALTY_KEY_PREFIX: &'static str = "royalty";

/// The sum of the percentages of a list of creators.
pub open spec fn percent_total(list: Seq<(Seq<u8>, int)>) -> int
    decreases list.len(),
{
    if list.len() == 0 {
        0
    } else {
        percent_total(list.drop_last()) + list.last().1
    }
}

/// One step of reading the creators of a mint's metadata: a pair whose key
/// starts with `royalty`, or is not an address, is passed over; otherwise its
/// value must be a percentage of at most 100 that keeps the total at most 100.
pub open spec fn creator_step(
    acc: Result<Seq<(Seq<u8>, int)>, MarketError>,
    e: (Seq<char>, Seq<char>),
) -> Result<Seq<(Seq<u8>, int)>, MarketError> {
    match acc {
        Err(x) => Err(x),
        Ok(list) => if has_prefix(e.0, ROYALTY_KEY_PREFIX@) {
            Ok(list)
        } else {
            match spec_pubkey_from_str(e.0) {
                None => Ok(list),
                Some(k) => match parse_unsigned(e.1, u64::MAX as int) {
                    None => Err(MarketError::InvalidRoyaltyPercentage),
                    Some(pct) => if pct > 100 {
                        Err(MarketError::InvalidRoyaltyPercentage)
                    } else if percent_total(list) + pct > 100 {
                        Err(MarketError::TotalRoyaltyPercentageExceeded)
                    } else {
                        Ok(list.push((k, pct)))
                    },
                },
            }
        },
    }
}

/// The creators and percentages that a mint's metadata names, in order, or
/// the first error met reading them.
pub open spec fn creators_of(p: Seq<(Seq<char>, Seq<char>)>) -> Result<Seq<(Seq<u8>, int)>, MarketError>
    decreases p.len(),
{
    if p.len() == 0 {
        Ok(Seq::empty())
    } else {
        creator_step(creators_of(p.drop_last()), p.last())
    }
}

/// Whether a list of creators is, entry by entry, the list `s`.
pub open spec fn creators_are(v: Seq<(Pubkey, u64)>, s: Seq<(Seq<u8>, int)>) -> bool {
    &&& v.len() == s.len()
    &&& forall|i: int| 0 <= i < v.len() ==> (#[trigger] v[i]).0@ == s[i].0 && v[i].1 == s[i].1
}

proof fn lemma_creators_err_prefix(p: Seq<(Seq<char>, Seq<char>)>, n: int)
    requires
        0 <= n <= p.len(),
        creators_of(p.take(n)) is Err,
    ensures
        creators_of(p) == creators_of(p.take(n)),
    decreases p.len() - n,
{
    if n == p.len() {
        assert(p.take(n) =~= p);
    } else {
        assert(p.take(n + 1).drop_last() =~= p.take(n));
        lemma_creators_err_prefix(p, n + 1);
    }
}

/// Every list of creators that reading metadata gives has a total of at most
/// 100 percent, each entry at most 100.
pub proof fn lemma_creators_total_bounded(p: Seq<(Seq<char>, Seq<char>)>)
    ensures
        creators_of(p) matches Ok(s) ==> percent_total(s) <= 100 && forall|i: int|
            0 <= i < s.len() ==> 0 <= #[trigger] s[i].1 <= 100,
    decreases p.len(),
{
    if p.len() > 0 {
        lemma_creators_total_bounded(p.drop_last());
        match creators_of(p.drop_last()) {
            Ok(list) => {
                if let Ok(s) = creators_of(p) {
                    if s.len() > list.len() {
                        assert(s.drop_last() =~= list);
                        lemma_parse_unsigned_nonneg(p.last().1, u64::MAX as int);
                    } else {
                        assert(s == list);
                    }
                }
            },
            Err(_) => {},
        }
    }
}

proof fn lemma_digits_value_nonneg(s: Seq<char>)
    requires
        crate::text::all_digits(s),
    ensures
        crate::text::digits_value(s) >= 0,
    decreases s.len(),
{
    if s.len() > 0 {
        assert(crate::text::is_digit(s[s.len() - 1]));
        assert(crate::text::all_digits(s.drop_last())) by {
            assert forall|i: int| 0 <= i < s.drop_last().len() implies crate::text::is_digit(#[trigger] s.drop_last()[i]) by {
                assert(s.drop_last()[i] == s[i]);
            }
        }
        lemma_digits_value_nonneg(s.drop_last());
    }
}

/// A parsed unsigned number is never negative.
pub proof fn lemma_parse_unsigned_nonneg(s: Seq<char>, max: int)
    ensures
        parse_unsigned(s, max) matches Some(v) ==> 0 <= v <= max,
{
    let digits = if s.len() > 0 && s[0] == '+' {
        s.drop_first()
    } else {
        s
    };
    if digits.len() > 0 && crate::text::all_digits(digits) {
        lemma_digits_value_nonneg(digits);
    }
}

/// Reads the creators of a mint's metadata and their royalty percentages:
/// every pair whose key does not start with `royalty` and is an address names
/// a creator, whose value must be a percentage of at most 100, and the
/// percentages must add up to at most 100.
pub fn parse_creators(pairs: &Vec<(String, String)>) -> (r: Result<Vec<(Pubkey, u64)>, MarketError>)
    ensures
        match creators_of(pairs_view(pairs@)) {
            Ok(s) => r matches Ok(v) && creators_are(v@, s),
            Err(e) => r == Err::<Vec<(Pubkey, u64)>, MarketError>(e),
        },
{
    let ghost p = pairs_view(pairs@);
    let mut out: Vec<(Pubkey, u64)> = Vec::new();
    let mut total: u64 = 0;
    let mut i: usize = 0;
    while i < pairs.len()
        invariant
            0 <= i <= pairs.len(),
            p == pairs_view(pairs@),
            creators_of(p.take(i as int)) matches Ok(s) && creators_are(out@, s) && total == percent_total(s),
            total <= 100,
        decreases pairs.len() - i,
    {
        proof {
            assert(p.take(i + 1).drop_last() =~= p.take(i as int));
            assert(p.take(i + 1).last() == p[i as int]);
            assert(p[i as int] == (pairs@[i as int].0@, pairs@[i as int].1@));
            lemma_creators_total_bounded(p.take(i as int));
        }
        let ghost prev = creators_of(p.take(i as int))->Ok_0;
        let key: &str = pairs[i].0.as_str();
        if !str_starts_with(key, ROYALTY_KEY_PREFIX) {
            match parse_pubkey(key) {
                Some(k) => match parse_u64(pairs[i].1.as_str()) {
                    Some(pct) => {
                        if pct > 100 {
                            proof { lemma_creators_err_prefix(p, i + 1); }
                            return Err(MarketError::InvalidRoyaltyPercentage);
                        }
                        if total + pct > 100 {
                            proof { lemma_creators_err_prefix(p, i + 1); }
                            return Err(MarketError::TotalRoyaltyPercentageExceeded);
                        }
                        total = total + pct;
                        out.push((k, pct));
                        proof {
                            let s = prev.push((k@, pct as int));
                            assert(s.drop_last() =~= prev);
                            assert(creators_are(out@, s));
                        }
                    },
                    None => {
                        proof { lemma_creators_err_prefix(p, i + 1); }
                        return Err(MarketError::InvalidRoyaltyPercentage);
                    },
                },
                None => {},
            }
        }
        i = i + 1;
    }
    assert(p.take(i as int) =~= p);
    Ok(out)
}

/// The sum of a sequence of integers.
pub open spec fn seq_sum(s: Seq<int>) -> int
    decreases s.len(),
{
    if s.len() == 0 {
        0
    } else {
        seq_sum(s.drop_last()) + s.last()
    }
}

/// Each creator's part of `royalties`: its percentage of it, rounded down.
pub open spec fn creator_amounts(royalties: int, s: Seq<(Seq<u8>, int)>) -> Seq<int> {
    Seq::new(s.len(), |i: int| royalties * s[i].1 / 100)
}

/// Whether some creator's part of `royalties` overflows a `u64` on the way.
pub open spec fn creator_amounts_overflow(royalties: int, s: Seq<(Seq<u8>, int)>) -> bool {
    exists|i: int| 0 <= i < s.len() && royalties * (#[trigger] s[i]).1 > u64::MAX
}

/// Each creator's part of `royalties`, in percent, rounded down; `None` where
/// a product overflows a `u64`.
pub fn royalty_amounts(royalties: u64, creators: &Vec<(Pubkey, u64)>) -> (r: Option<Vec<u64>>)
    ensures
        match r {
            Some(v) => !creator_amounts_overflow(royalties as int, creators@.map_values(|c: (Pubkey, u64)| (c.0@, c.1 as int)))
                && v@.map_values(|a: u64| a as int) == creator_amounts(royalties as int, creators@.map_values(|c: (Pubkey, u64)| (c.0@, c.1 as int))),
            None => creator_amounts_overflow(royalties as int, creators@.map_values(|c: (Pubkey, u64)| (c.0@, c.1 as int))),
        },
{
    let ghost s = creators@.map_values(|c: (Pubkey, u64)| (c.0@, c.1 as int));
    let mut out: Vec<u64> = Vec::new();
    let mut i: usize = 0;
    while i < creators.len()
        invariant
            0 <= i <= creators.len(),
            s == creators@.map_values(|c: (Pubkey, u64)| (c.0@, c.1 as int)),
            out@.len() == i,
            forall|j: int| 0 <= j < i ==> out@[j] == royalties * s[j].1 / 100,
            forall|j: int| 0 <= j < i ==> royalties * (#[trigger] s[j]).1 <= u64::MAX,
        decreases creators.len() - i,
    {
        let p: u64 = creators[i].1;
        match royalties.checked_mul(p) {
            Some(x) => {
                out.push(x / 100);
            },
            None => {
                assert(royalties * s[i as int].1 > u64::MAX);
                return None;
            },
        }
        i = i + 1;
    }
    assert(out@.map_values(|a: u64| a as int) =~= creator_amounts(royalties as int, s));
    Some(out)
}

/// The parts of `royalties` that creators receive add up to at most
/// `royalties`, when their percentages add up to at most 100.
pub proof fn lemma_creator_amounts_within_royalties(royalties: int, s: Seq<(Seq<u8>, int)>)
    requires
        royalties >= 0,
        percent_total(s) <= 100,
        forall|i: int| 0 <= i < s.len() ==> 0 <= #[trigger] s[i].1,
    ensures
        seq_sum(creator_amounts(royalties, s)) <= royalties,
{
    lemma_creator_amounts_scaled(royalties, s);
    assert(royalties * percent_total(s) <= royalties * 100) by (nonlinear_arith)
        requires
            royalties >= 0,
            percent_total(s) <= 100,
    ;
}

proof fn lemma_percent_total_nonneg(s: Seq<(Seq<u8>, int)>)
    requires
        forall|i: int| 0 <= i < s.len() ==> 0 <= #[trigger] s[i].1,
    ensures
        percent_total(s) >= 0,
    decreases s.len(),
{
    if s.len() > 0 {
        assert forall|i: int| 0 <= i < s.drop_last().len() implies 0 <= #[trigger] s.drop_last()[i].1 by {
            assert(s.drop_last()[i] == s[i]);
        }
        lemma_percent_total_nonneg(s.drop_last());
        assert(0 <= s[s.len() - 1].1);
    }
}

proof fn lemma_creator_amounts_scaled(royalties: int, s: Seq<(Seq<u8>, int)>)
    requires
        royalties >= 0,
        forall|i: int| 0 <= i < s.len() ==> 0 <= #[trigger] s[i].1,
    ensures
        100 * seq_sum(creator_amounts(royalties, s)) <= royalties * percent_total(s),
    decreases s.len(),
{
    if s.len() > 0 {
        let t = s.drop_last();
        assert forall|i: int| 0 <= i < t.len() implies 0 <= #[trigger] t[i].1 by {
            assert(t[i] == s[i]);
        }
        lemma_creator_amounts_scaled(royalties, t);
        assert(creator_amounts(royalties, s).drop_last() =~= creator_amounts(royalties, t));
        let p = s.last().1;
        assert(p >= 0);
        let a = royalties * p / 100;
        assert(100 * a <= royalties * p) by (nonlinear_arith)
            requires
                royalties >= 0,
                p >= 0,
                a == royalties * p / 100,
        ;
        assert(royalties * percent_total(s) == royalties * percent_total(t) + royalties * p) by (nonlinear_arith)
            requires
                percent_total(s) == percent_total(t) + p,
        ;
    }
}

/// A payment of royalties: `amount` to the creator at `account_index` in the
/// list of creator accounts.
#[derive(Debug, Clone, Copy)]
pub struct RoyaltyPayment {
    pub account_index: usize,
    pub amount: u64,
}

/// The position of the last account in `keys` with address `k`.
pub open spec fn last_index_of(keys: Seq<Pubkey>, k: Pubkey) -> Option<int>
    decreases keys.len(),
{
    if keys.len() == 0 {
        None
    } else if keys.last()@ == k@ {
        Some(keys.len() - 1)
    } else {
        last_index_of(keys.drop_last(), k)
    }
}

proof fn lemma_last_index_of_bounds(keys: Seq<Pubkey>, k: Pubkey)
    ensures
        last_index_of(keys, k) matches Some(i) ==> 0 <= i < keys.len() && keys[i]@ == k@,
    decreases keys.len(),
{
    if keys.len() > 0 && keys.last()@ != k@ {
        lemma_last_index_of_bounds(keys.drop_last(), k);
    }
}

/// The royalties due on a sale at `price`: `seller_fee_basis_points` of it.
pub open spec fn royalties_due(price: int, m: crate::metadata::MetadataFactsView) -> Result<(int, int), MarketError> {
    index_fee_split(price, m.seller_fee_basis_points as int)
}

/// The creators of a list with a share other than 0, in order.
pub open spec fn with_share(cs: Seq<CreatorWithShare>) -> Seq<CreatorWithShare>
    decreases cs.len(),
{
    if cs.len() == 0 {
        Seq::empty()
    } else if cs.last().share != 0 {
        with_share(cs.drop_last()).push(cs.last())
    } else {
        with_share(cs.drop_last())
    }
}

/// The creators that are paid: those with a share other than 0.
pub open spec fn paid_creators(m: crate::metadata::MetadataFactsView) -> Seq<CreatorWithShare> {
    match m.creators {
        Some(cs) => with_share(cs),
        None => Seq::empty(),
    }
}

/// Whether paying the creators their shares of `royalties` stays defined:
/// every paid creator has an account among `accounts`, and no product
/// overflows a `u64`.
pub open spec fn royalty_payments_defined(royalties: int, m: crate::metadata::MetadataFactsView, accounts: Seq<Pubkey>) -> bool {
    forall|i: int| 0 <= i < paid_creators(m).len() ==> {
        &&& last_index_of(accounts, #[trigger] paid_creators(m)[i].address) is Some
        &&& royalties * paid_creators(m)[i].share <= u64::MAX
    }
}

/// The payments to creators of their shares of `royalties`, in order.
pub open spec fn royalty_payment_list(royalties: int, m: crate::metadata::MetadataFactsView, accounts: Seq<Pubkey>) -> Seq<(int, int)> {
    Seq::new(paid_creators(m).len(), |i: int| (
        last_index_of(accounts, paid_creators(m)[i].address)->Some_0,
        royalties * paid_creators(m)[i].share / 100,
    ))
}

/// Whether the payments are, entry by entry, the list `s`.
pub open spec fn payments_are(v: Seq<RoyaltyPayment>, s: Seq<(int, int)>) -> bool {
    &&& v.len() == s.len()
    &&& forall|i: int| 0 <= i < v.len() ==> (#[trigger] v[i]).account_index == s[i].0 && v[i].amount == s[i].1
}


/// The position of the last account in `keys` with address `k`.
pub fn find_last_key(keys: &Vec<Pubkey>, k: &Pubkey) -> (r: Option<usize>)
    ensures
        r matches Some(i) ==> last_index_of(keys@, *k) == Some(i as int),
        r is None ==> last_index_of(keys@, *k) is None,
{
    let mut i: usize = keys.len();
    assert(keys@.take(i as int) =~= keys@);
    while i > 0
        invariant
            i <= keys.len(),
            last_index_of(keys@, *k) == last_index_of(keys@.take(i as int), *k),
        decreases i,
    {
        assert(keys@.take(i as int).drop_last() =~= keys@.take(i - 1));
        assert(keys@.take(i as int).last() == keys@[i - 1]);
        if keys_equal(&keys[i - 1], k) {
            return Some(i - 1);
        }
        i = i - 1;
    }
    None
}

/// The payments of `royalties` to the creators of `creators` that have a
/// share, or `None` where one is not defined (see `royalty_payments_defined`).
fn payments_for(royalties: u64, creators: &Vec<CreatorWithShare>, accounts: &Vec<Pubkey>) -> (r: Option<Vec<RoyaltyPayment>>)
    ensures
        ({
            let m = crate::metadata::MetadataFactsView {
                seller_fee_basis_points: 0,
                creators: Some(creators@),
                token_standard: None,
                programmable_config: None,
            };
            match r {
                Some(v) => royalty_payments_defined(royalties as int, m, accounts@)
                    && payments_are(v@, royalty_payment_list(royalties as int, m, accounts@)),
                None => !royalty_payments_defined(royalties as int, m, accounts@),
            }
        }),
{
    let ghost cs = creators@;
    let mut out: Vec<RoyaltyPayment> = Vec::new();
    let mut i: usize = 0;
    while i < creators.len()
        invariant
            0 <= i <= creators.len(),
            cs == creators@,
            out@.len() == with_share(cs.take(i as int)).len(),
            forall|j: int| 0 <= j < out@.len() ==> {
                &&& last_index_of(accounts@, #[trigger] with_share(cs.take(i as int))[j].address) == Some(out@[j].account_index as int)
                &&& out@[j].amount == royalties * with_share(cs.take(i as int))[j].share / 100
                &&& royalties * with_share(cs.take(i as int))[j].share <= u64::MAX
            },
        decreases creators.len() - i,
    {
        let c = creators[i];
        proof {
            assert(cs.take(i + 1).drop_last() =~= cs.take(i as int));
            assert(cs.take(i + 1).last() == c);
        }
        if c.share != 0 {
            let ghost w = with_share(cs.take(i + 1));
            assert(w.last() == c);
            let idx = match find_last_key(accounts, &c.address) {
                Some(x) => x,
                None => {
                    proof {
                        lemma_with_share_extends(cs, i as int + 1);
                        assert(w.len() == out@.len() + 1);
                        assert(with_share(cs)[out@.len() as int] == c);
                    }
                    return None;
                },
            };
            let amount = match royalties.checked_mul(c.share as u64) {
                Some(x) => x / 100,
                None => {
                    proof {
                        lemma_with_share_extends(cs, i as int + 1);
                        assert(w.len() == out@.len() + 1);
                        assert(with_share(cs)[out@.len() as int] == c);
                        assert(royalties * c.share > u64::MAX);
                    }
                    return None;
                },
            };
            out.push(RoyaltyPayment { account_index: idx, amount });
            assert forall|j: int| 0 <= j < out@.len() - 1 implies #[trigger] w[j] == with_share(cs.take(i as int))[j] by {}
        }
        i = i + 1;
    }
    assert(cs.take(i as int) =~= cs);
    Some(out)
}

proof fn lemma_with_share_extends(cs: Seq<CreatorWithShare>, n: int)
    requires
        0 <= n <= cs.len(),
    ensures
        with_share(cs.take(n)).len() <= with_share(cs).len(),
        forall|j: int| 0 <= j < with_share(cs.take(n)).len() ==> #[trigger] with_share(cs)[j] == with_share(cs.take(n))[j],
    decreases cs.len() - n,
{
    if n < cs.len() {
        assert(cs.take(n + 1).drop_last() =~= cs.take(n));
        lemma_with_share_extends(cs, n + 1);
    } else {
        assert(cs.take(n) =~= cs);
    }
}

/// Pays the creators of an NFT sold at `price` their shares of the royalties,
/// `seller_fee_basis_points` of the price: each creator whose share is not 0
/// gets its share of it, in percent, rounded down, into its account among
/// `accounts` (the last one with its address).
pub fn royalty_payments(price: u64, metadata: &MetadataFacts, accounts: &Vec<Pubkey>) -> (r: Result<Vec<RoyaltyPayment>, MarketError>)
    requires
        royalties_due(price as int, metadata@) matches Ok((rest, roy)) ==> royalty_payments_defined(roy, metadata@, accounts@),
    ensures
        match royalties_due(price as int, metadata@) {
            Ok((rest, roy)) => r matches Ok(v) && payments_are(v@, royalty_payment_list(roy, metadata@, accounts@)),
            Err(e) => r == Err::<Vec<RoyaltyPayment>, MarketError>(e),
        },
{
    let split = get_index_fee_bp(price, metadata.seller_fee_basis_points as u128);
    let royalties: u64 = match split {
        Ok(a) => a[1],
        Err(e) => return Err(e),
    };
    match &metadata.creators {
        Some(cs) => {
            match payments_for(royalties, cs, accounts) {
                Some(v) => Ok(v),
                None => {
                    assert(false);
                    Err(MarketError::AmountOverflow)
                },
            }
        },
        None => Ok(Vec::new()),
    }
}

/// Reads the metadata account `data` and works out the royalty payments for a
/// sale at `price` (see `royalty_payments`). Metadata that does not decode is
/// refused; `None` where the program aborts: a paid creator has no account
/// among `accounts`, or a share overflows a `u64`.
pub fn pay_royalties(price: u64, data: &[u8], accounts: &Vec<Pubkey>) -> (r: Option<Result<Vec<RoyaltyPayment>, MarketplaceError>>)
    ensures
        spec_metadata_facts(data@) is None ==> (r matches Some(Err(MarketplaceError::AccountDataUnreadable))),
        spec_metadata_facts(data@) matches Some(m) ==> match royalties_due(price as int, m) {
            Err(e) => r matches Some(Err(MarketplaceError::Market(x))) && x == e,
            Ok((rest, roy)) => if royalty_payments_defined(roy, m, accounts@) {
                r matches Some(Ok(v)) && payments_are(v@, royalty_payment_list(roy, m, accounts@))
            } else {
                r is None
            },
        },
{
    let metadata = match decode_metadata(data) {
        Some(m) => m,
        None => return Some(Err(MarketplaceError::AccountDataUnreadable)),
    };
    let split = get_index_fee_bp(price, metadata.seller_fee_basis_points as u128);
    let royalties: u64 = match split {
        Ok(a) => a[1],
        Err(e) => return Some(Err(MarketplaceError::Market(e))),
    };
    match &metadata.creators {
        Some(cs) => match payments_for(royalties, cs, accounts) {
            Some(v) => Some(Ok(v)),
            None => None,
        },
        None => Some(Ok(Vec::new())),
    }
}

} // verus!
