use vstd::prelude::*;

use crate::errors::CustomError;
use crate::events::InitializeConfigEvent;
use crate::state::{Pubkey, SystemConfig};

verus! {

/// The first check that setting up the configuration fails, if any.
pub open spec fn initialize_config_error(
    config: SystemConfig,
    admin_wallet: Pubkey,
    oracle_wallet: Pubkey,
) -> Option<CustomError> {
    if admin_wallet.is_default_spec() || oracle_wallet.is_default_spec() {
        Some(CustomError::InvalidWallet)
    } else if admin_wallet == oracle_wallet {
        Some(CustomError::InvalidWallet)
    } else if config.is_initialized {
        Some(CustomError::AlreadyInitialized)
    } else {
        None
    }
}

/// The configuration once set up.
pub open spec fn initialized_config(admin_wallet: Pubkey, oracle_wallet: Pubkey) -> SystemConfig {
    SystemConfig { is_initialized: true, admin_wallet, oracle_wallet }
}

/// Sets up the process-wide configuration, once. `config_address` names
/// the record in the announcement.
pub fn intialize_config(
    config: &mut SystemConfig,
    config_address: Pubkey,
    admin_wallet: Pubkey,
    oracle_wallet: Pubkey,
) -> (r: Result<InitializeConfigEvent, CustomError>)
    ensures
        match r {
            Ok(ev) => {
                &&& initialize_config_error(*old(config), admin_wallet, oracle_wallet) is None
                &&& *final(config) == initialized_config(admin_wallet, oracle_wallet)
                &&& ev == (InitializeConfigEvent {
                    config: config_address,
                    admin_wallet,
                    oracle_wallet,
                })
            },
            Err(e) => {
                &&& initialize_config_error(*old(config), admin_wallet, oracle_wallet) == Some(e)
                &&& *final(config) == *old(config)
            },
        },
{
    if admin_wallet.is_default() || oracle_wallet.is_default() {
        return Err(CustomError::InvalidWallet);
    }
    if admin_wallet.equals(&oracle_wallet) {
        return Err(CustomError::InvalidWallet);
    }
    if config.is_initialized {
        return Err(CustomError::AlreadyInitialized);
    }
    config.is_initialized = true;
    config.admin_wallet = admin_wallet;
    config.oracle_wallet = oracle_wallet;
    Ok(InitializeConfigEvent { config: config_address, admin_wallet, oracle_wallet })
}

} // verus!
