//! Fee-collecting transfer relay.
//!
//! A single configuration record holds the administrative authority, the fee
//! recipient, the fee rate in basis points, the bump of the record's derived
//! address and a blacklist of asset identifiers. Every operation first checks
//! that the record sits at its derived address, then checks the caller, and
//! only then decides: either the record changes, or a plan of value movements
//! is handed back for the host to perform as one unit.

pub mod address;
pub mod accounts;
pub mod error;
pub mod fee;
pub mod events;
pub mod config;
pub mod relay;
pub mod laws;

pub use accounts::{
    EmergencyWithdraw, EmergencyWithdrawSpl, Initialize, SetTokenBlacklist, TransferSolWithFee,
    TransferSplWithFee, UpdateFeeConfig,
};
pub use address::{Address, Caller};
pub use config::{initialize, set_token_blacklist, update_fee_config, FeeCollector};
pub use error::TransferFeeError;
pub use events::{FeeConfigUpdatedEvent, TokenBlacklistedEvent, TransferWithFeeEvent};
pub use fee::compute_split;
pub use relay::{
    emergency_withdraw, emergency_withdraw_spl, transfer_sol_with_fee, transfer_spl_with_fee,
    AccountRef, Instruction, Movement, SolTransfer, SolWithdrawal, TransferPlan, TransferRequest,
};
