//! Pricing and risk-state core of a two-token collateralized exchange.
//!
//! A stable-value token and a leveraged token share one basket of staked
//! collateral. From the collateral held, an oracle price and the token
//! supplies, this crate derives the collateral ratio, the stability mode,
//! the fee regime and the ceilings on minting and swapping, and from those
//! the quote of every operation.
//!
//! Every quantity is an unsigned decimal fixed-point number and every
//! operation is checked: a result is exact or it is an error. Nothing here
//! reads an account, a clock or the network; callers hand in plain records
//! and get plain values back.

pub mod accounts;
pub mod conversion;
pub mod error;
pub mod exchange_context;
pub mod exchange_math;
pub mod fee_controller;
pub mod fixed_point;
pub mod jupiter;
pub mod lst_sol_price;
pub mod pda;
pub mod pyth;
pub mod quote;
pub mod solana_clock;
pub mod stability_mode;
pub mod stability_pool_math;
pub mod tokens;
pub mod total_sol_cache;
pub mod util;
