//! Addresses derived from a program and seeds: token metadata accounts and
//! associated token accounts.
//!
//! An address is 32 bytes. Deriving one hashes the seeds with the program's
//! address and searches for a bump seed that takes the hash off the curve;
//! that search is `solana_pubkey`'s, and this module fixes what goes into it.

use crate::tokens::{HYUSD, SHYUSD, XSOL};
use solana_pubkey::Pubkey;
use vstd::prelude::*;

verus! {

/// The token program: `TokenkegQfeZyiNwAJbNbGKPFXCWuBvf9Ss623VQ5DA`.
pub const TOKEN_PROGRAM_ID: [u8; 32] = [
    6, 221, 246, 225, 215, 101, 161, 147, 217, 203, 225, 70, 206, 235, 121, 172, 28, 180, 133, 237,
    95, 91, 55, 145, 58, 140, 245, 133, 126, 255, 0, 169,
];

/// The associated token account program:
/// `ATokenGPvbdGVxr1b2hvZbsiqW5xWH25efTNsLJA8knL`.
pub const ASSOCIATED_TOKEN_PROGRAM_ID: [u8; 32] = [
    140, 151, 37, 143, 78, 36, 137, 241, 187, 61, 16, 41, 20, 142, 13, 131, 11, 90, 19, 153, 218,
    255, 16, 132, 4, 142, 123, 216, 219, 233, 248, 89,
];

/// The token metadata program:
/// `metaqbxxUerdq28cj1RbAWkYQm3ybzjb6a8bt518x1s`.
pub const MPL_TOKEN_METADATA_ID: [u8; 32] = [
    11, 112, 101, 177, 227, 209, 124, 69, 56, 157, 82, 127, 107, 4, 195, 205, 88, 184, 108, 115,
    26, 160, 253, 181, 73, 182, 209, 188, 3, 248, 41, 70,
];

/// The first seed of a metadata account: the bytes of `metadata`.
pub const METADATA_SEED: [u8; 8] = [109, 101, 116, 97, 100, 97, 116, 97];

/// The address that `Pubkey::try_find_program_address` derives from three
/// seeds and a program, where it finds one. It depends on nothing but the
/// bytes handed to it.
pub uninterp spec fn program_address(
    seed_1: Seq<u8>,
    seed_2: Seq<u8>,
    seed_3: Seq<u8>,
    program_id: Seq<u8>,
) -> Option<Seq<u8>>;

/// The bytes of an address, where there is one.
pub open spec fn address_view(address: Option<[u8; 32]>) -> Option<Seq<u8>> {
    match address {
        Some(bytes) => Some(bytes@),
        None => None,
    }
}

/// Calls `Pubkey::try_find_program_address` of `solana_pubkey` with three
/// seeds and drops the bump seed. The call hashes the seeds, a bump seed
/// and the program's address, trying bump seeds from 255 down until the
/// hash is no point of the curve; it gives `None` where no bump seed is
/// left or a seed is too long, and never panics. The contract claims only
/// that the outcome is determined by the four byte strings.
#[verifier::external_body]
fn find_program_address<const A: usize, const B: usize, const C: usize>(
    seed_1: &[u8; A],
    seed_2: &[u8; B],
    seed_3: &[u8; C],
    program_id: &[u8; 32],
) -> (r: Option<[u8; 32]>)
    ensures
        address_view(r) == program_address(seed_1@, seed_2@, seed_3@, program_id@),
{
    let program = Pubkey::new_from_array(*program_id);
    match Pubkey::try_find_program_address(&[&seed_1[..], &seed_2[..], &seed_3[..]], &program) {
        Some((address, _)) => Some(address.to_bytes()),
        None => None,
    }
}

/// The account that holds `auth`'s balance of `mint`: derived under the
/// associated token account program from the holder, the token program and
/// the mint.
pub fn associated_token_address(auth: &[u8; 32], mint: &[u8; 32]) -> (r: Option<[u8; 32]>)
    ensures
        address_view(r) == program_address(
            auth@,
            TOKEN_PROGRAM_ID@,
            mint@,
            ASSOCIATED_TOKEN_PROGRAM_ID@,
        ),
{
    find_program_address(auth, &TOKEN_PROGRAM_ID, mint, &ASSOCIATED_TOKEN_PROGRAM_ID)
}

/// The metadata account of a mint: derived under the token metadata program
/// from the word `metadata`, that program and the mint.
pub fn metadata(mint: &[u8; 32]) -> (r: Option<[u8; 32]>)
    ensures
        address_view(r) == program_address(
            METADATA_SEED@,
            MPL_TOKEN_METADATA_ID@,
            mint@,
            MPL_TOKEN_METADATA_ID@,
        ),
{
    find_program_address(&METADATA_SEED, &MPL_TOKEN_METADATA_ID, mint, &MPL_TOKEN_METADATA_ID)
}

/// The account that holds `auth`'s stablecoin.
pub fn hyusd_ata(auth: &[u8; 32]) -> (r: Option<[u8; 32]>)
    ensures
        address_view(r) == program_address(
            auth@,
            TOKEN_PROGRAM_ID@,
            HYUSD@,
            ASSOCIATED_TOKEN_PROGRAM_ID@,
        ),
{
    associated_token_address(auth, &HYUSD)
}

/// The account that holds `auth`'s levercoin.
pub fn xsol_ata(auth: &[u8; 32]) -> (r: Option<[u8; 32]>)
    ensures
        address_view(r) == program_address(
            auth@,
            TOKEN_PROGRAM_ID@,
            XSOL@,
            ASSOCIATED_TOKEN_PROGRAM_ID@,
        ),
{
    associated_token_address(auth, &XSOL)
}

/// The account that holds `auth`'s stability pool shares.
pub fn shyusd_ata(auth: &[u8; 32]) -> (r: Option<[u8; 32]>)
    ensures
        address_view(r) == program_address(
            auth@,
            TOKEN_PROGRAM_ID@,
            SHYUSD@,
            ASSOCIATED_TOKEN_PROGRAM_ID@,
        ),
{
    associated_token_address(auth, &SHYUSD)
}

} // verus!
