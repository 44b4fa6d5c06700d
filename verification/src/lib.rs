//! Settlement, fee and account-layout logic of an NFT marketplace on Solana,
//! with contracts proved by Verus.
use vstd::prelude::*;

pub mod accounts;
pub mod cpi_accounts;
pub mod editions;
pub mod errors;
pub mod fees;
pub mod fill;
pub mod instructions;
pub mod keys;
pub mod metadata;
pub mod metaplex_ix;
pub mod nft_ops;
pub mod royalties;
pub mod state;
pub mod text;

verus! {

} // verus!
