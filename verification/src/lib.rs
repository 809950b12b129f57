//! An on-chain credit marketplace: lenders post collateral-free lending
//! offers, borrowers accept them by reputation, loans accrue time-based
//! interest, and under-performing loans are liquidated or defaulted with an
//! insurance-pool backstop.
//!
//! The crate is organised around the components of the protocol:
//! - [`interest`]: the pure interest calculator;
//! - [`market`]: the loan ledger — offers, loans, repayment fee-splitting,
//!   liquidation and default decisions, insurance claims;
//! - [`reputation`]: the per-borrower credit history ledger and the graduated
//!   tier/limit derivation;
//! - [`router`]: the liquidity router that splits lender funds between a
//!   passive yield venue and active peer-to-peer loans under diversification
//!   caps;
//! - [`whitelist`]: the transfer-hook whitelist gating outbound transfers.
//!
//! Custody of funds (escrow vaults, token transfers) is an external
//! collaborator of the protocol: every operation here takes balances as plain
//! values and returns the amounts to be moved, and its contract pins those
//! amounts down. Identities are opaque account identifiers.

pub mod interest;
pub mod market;
pub mod reputation;
pub mod router;
pub mod whitelist;
