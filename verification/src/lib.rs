//! Settlement core of an uncollateralized single-transaction loan of the
//! market's stable asset: the issuance phase mints the requested amount to
//! the borrower, hands control to the borrower's callback, and schedules a
//! self-addressed settlement that burns the principal and forwards the fee
//! to a collector, all as one ordered, atomic batch executed by the host.

pub mod config;
pub mod decfmt;
pub mod fee;
pub mod msg;
pub mod ops;
pub mod protocol;

pub use protocol::flash_mint;
pub use protocol::private_flash_end;
