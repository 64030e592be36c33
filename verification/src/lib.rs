//! Protection state machine for a newly launched token trading pool.
//!
//! One record, [`types::PoolState`], is guarded by a set of policies: a fee
//! schedule, a rate limiter, a circuit breaker, a decaying volume cap, a
//! price impact guard, a blacklist, a timelocked parameter update and a
//! timelocked emergency pause. Every operation takes the record and the time,
//! decides, and hands back what its caller has to publish or to move. An
//! operation that refuses leaves the record as it was.

pub mod address;
pub mod admin;
pub mod authority;
pub mod blacklist;
pub mod circuit_breaker;
pub mod constants;
pub mod emergency;
pub mod errors;
pub mod events;
pub mod fees;
pub mod guard;
pub mod invariants;
pub mod laws;
pub mod model;
pub mod pool;
pub mod price_impact;
pub mod rate_limit;
pub mod timelock;
pub mod token;
pub mod trade;
pub mod types;
pub mod utils;
pub mod validation;
pub mod volume;

pub use crate::address::Address;
pub use crate::admin::{
    add_liquidity, lock_fee_tiers, remove_liquidity, reset_circuit_breaker, toggle_pause,
    update_admin, withdraw_fees,
};
pub use crate::blacklist::{
    batch_blacklist_traders, batch_unblacklist_traders, blacklist_trader, remove_from_blacklist,
};
pub use crate::emergency::{
    apply_emergency_pause, apply_emergency_resume, schedule_emergency_pause,
    schedule_emergency_resume,
};
pub use crate::errors::ErrorCode;
pub use crate::guard::ReentrancyGuard;
pub use crate::pool::initialize;
pub use crate::timelock::{
    apply_parameter_update, cancel_parameter_update, reset_pending_update,
    schedule_parameter_update, unlock_fee_tiers,
};
pub use crate::trade::execute_trade;
pub use crate::types::{
    BlacklistOperation, CircuitBreakerSettings, FeeMode, FeeSettingsUpdate, FeeTier, MintInfo,
    ParameterUpdate, PoolSettings, PoolState, ProtectionSettings, ProtectionSettingsUpdate,
    RateLimitSettings, SignerSeeds, StateSettingsUpdate, TokenAccountInfo, TradeOutcome,
    TradeSettings, TradeSettingsUpdate, VolumeSettings,
};
pub use crate::utils::{create_cpi_context, process_blacklist_operations};
pub use crate::validation::{
    validate_admin_action, validate_fee_parameters, validate_trade_parameters,
};
