use vstd::prelude::*;

use crate::state::{Pubkey, Role};

verus! {

/// Announced when the configuration is set up.
#[derive(Clone, Copy, Debug, PartialEq, Eq)]
pub struct InitializeConfigEvent {
    pub config: Pubkey,
    pub admin_wallet: Pubkey,
    pub oracle_wallet: Pubkey,
}

/// Announced when a user registers or is approved.
#[derive(Clone, Copy, Debug, PartialEq, Eq)]
pub struct UserEvent {
    pub user_wallet: Pubkey,
    pub role: Role,
    pub profile_hash: [u8; 32],
    pub is_approved: bool,
}

/// Announced when a batch is created.
#[derive(Clone, Debug, PartialEq, Eq)]
pub struct BatchCreated {
    pub batch_id: String,
    pub producer: Pubkey,
    pub timestamp: i64,
}

/// Announced when custody of a batch changes hands.
#[derive(Clone, Debug, PartialEq, Eq)]
pub struct HandoverLogged {
    pub batch_id: String,
    pub from_wallet: Pubkey,
    pub to_wallet: Pubkey,
    pub timestamp: i64,
}

} // verus!
