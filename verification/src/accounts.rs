//! The records that a request reads, cut down to the fields that the core
//! looks at.

use crate::fixed_point::UFix64;
use crate::lst_sol_price::LstSolPrice;
use vstd::prelude::*;

verus! {

/// A token mint: the supply in the token's smallest unit.
#[derive(Clone, Copy, Debug, PartialEq, Eq)]
pub struct Mint {
    pub supply: u64,
}

impl Mint {
    pub fn new(supply: u64) -> (r: Self)
        ensures
            r.supply == supply,
    {
        Mint { supply }
    }
}

/// A token account: the balance in the token's smallest unit.
#[derive(Clone, Copy, Debug, PartialEq, Eq)]
pub struct TokenAccount {
    pub amount: u64,
}

impl TokenAccount {
    pub fn new(amount: u64) -> (r: Self)
        ensures
            r.amount == amount,
    {
        TokenAccount { amount }
    }
}

/// The configuration of the stability pool.
#[derive(Clone, Copy, Debug, PartialEq, Eq)]
pub struct PoolConfig {
    pub withdrawal_fee: UFix64<4>,
}

impl PoolConfig {
    pub fn new(withdrawal_fee: UFix64<4>) -> (r: Self)
        ensures
            r.withdrawal_fee == withdrawal_fee,
    {
        PoolConfig { withdrawal_fee }
    }
}

/// The registry entry of one collateral asset: the address of its mint and
/// its price in SOL.
#[derive(Clone, Copy, Debug, PartialEq, Eq)]
pub struct LstHeader {
    pub mint: [u8; 32],
    pub price_sol: LstSolPrice,
}

impl LstHeader {
    pub fn new(mint: [u8; 32], price_sol: LstSolPrice) -> (r: Self)
        ensures
            r.mint == mint,
            r.price_sol == price_sol,
    {
        LstHeader { mint, price_sol }
    }
}

} // verus!
