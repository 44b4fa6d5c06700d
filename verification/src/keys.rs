use vstd::prelude::*;
use vstd::string::StringSliceAdditionalSpecFns;

verus! {

/// An account address: the 32 bytes of an ed25519 public key.
pub type Pubkey = [u8; 32];

/// The default (all-zero) address, which callers pass in place of an
/// account that is not there.
pub open spec fn default_key() -> Seq<u8> {
    Seq::new(32, |i: int| 0u8)
}

/// The default (all-zero) address.
pub fn default_pubkey() -> (k: Pubkey)
    ensures
        k@ == default_key(),
{
    let k: Pubkey = [0u8; 32];
    assert(k@ =~= default_key());
    k
}

/// Whether two addresses are the same.
pub fn keys_equal(a: &Pubkey, b: &Pubkey) -> (r: bool)
    ensures
        r == (a@ == b@),
{
    let mut i: usize = 0;
    while i < 32
        invariant
            0 <= i <= 32,
            a@.len() == 32,
            b@.len() == 32,
            forall|j: int| 0 <= j < i ==> a@[j] == b@[j],
        decreases 32 - i,
    {
        if a[i] != b[i] {
            assert(a@[i as int] != b@[i as int]);
            return false;
        }
        i = i + 1;
    }
    assert(a@ =~= b@);
    true
}

/// Whether an address is the default (all-zero) one.
pub fn is_default_key(k: &Pubkey) -> (r: bool)
    ensures
        r == (k@ == default_key()),
{
    let d = default_pubkey();
    keys_equal(k, &d)
}

/// What `Pubkey::from_str` gives for a string: the 32 bytes it decodes to, or
/// `None` where it refuses the string.
pub uninterp spec fn spec_pubkey_from_str(s: Seq<char>) -> Option<Seq<u8>>;

/// What the `Display` of a `Pubkey` writes for the given bytes.
pub uninterp spec fn spec_pubkey_to_string(k: Seq<u8>) -> Seq<char>;

/// Calls `Pubkey::from_str` of `solana_program`. Trusted: the result is the
/// name `spec_pubkey_from_str` applied to the string, and a string of more than
/// 44 bytes is refused (the source checks that length first). Which strings
/// base58-decode to 32 bytes is not stated.
#[verifier::external_body]
pub(crate) fn parse_pubkey(s: &str) -> (r: Option<Pubkey>)
    ensures
        match spec_pubkey_from_str(s@) {
            Some(k) => r matches Some(p) && p@ == k,
            None => r is None,
        },
        s.spec_bytes().len() > 44 ==> r is None,
{
    match s.parse::<solana_program::pubkey::Pubkey>() {
        Ok(k) => Some(k.to_bytes()),
        Err(_) => None,
    }
}

/// Calls the `Display` of `solana_program`'s `Pubkey` (base58). Trusted: the
/// result is the name `spec_pubkey_to_string` applied to the bytes; what the
/// text is, is not stated.
#[verifier::external_body]
pub(crate) fn pubkey_to_string(k: &Pubkey) -> (r: String)
    ensures
        r@ == spec_pubkey_to_string(k@),
{
    solana_program::pubkey::Pubkey::new_from_array(*k).to_string()
}

} // verus!
