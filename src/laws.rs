use vstd::prelude::*;

use crate::config::{initialize_config_error, initialized_config};
use crate::errors::{CustomError, ErrorKind, SupplyChainError};
use crate::event_log::has_room;
use crate::handover::{handover_error, legal_transition};
use crate::iot::update_iot_summary_error;
use crate::state::{
    bounded_text, is_zero_digest, Batch, BatchStatus, IoTSummaryStruct, Pubkey, SystemConfig,
    UserProfile, DETAILS_CID_LENGTH,
};
use crate::user::{register_user_error, registered_profile};

verus! {

/// When every other check of a handover passes, it succeeds exactly when
/// the parties' roles form a legal transition; any other pair of roles is
/// refused as a state conflict.
pub proof fn lemma_handover_role_gate(
    batch: Batch,
    from_profile: UserProfile,
    to_profile: UserProfile,
    from_user: Pubkey,
    to_user: Pubkey,
    to_wallet: Pubkey,
    details_hash: [u8; 32],
    details_cid: Seq<char>,
)
    requires
        batch.wf(),
        from_profile.is_approved,
        to_profile.is_approved,
        from_user == batch.current_owner,
        from_profile.user_wallet == from_user,
        to_profile.user_wallet == to_wallet,
        to_user == to_wallet,
        batch.status != BatchStatus::Flagged,
        batch.status != BatchStatus::Recalled,
        !is_zero_digest(details_hash),
        bounded_text(details_cid, DETAILS_CID_LENGTH as nat),
        has_room(batch, 1),
    ensures
        handover_error(
            batch,
            from_profile,
            to_profile,
            from_user,
            to_user,
            to_wallet,
            details_hash,
            details_cid,
        ) is None <==> legal_transition(from_profile.role, to_profile.role),
        !legal_transition(from_profile.role, to_profile.role) ==> {
            &&& handover_error(
                batch,
                from_profile,
                to_profile,
                from_user,
                to_user,
                to_wallet,
                details_hash,
                details_cid,
            ) == Some(SupplyChainError::InvalidRoleTransition)
            &&& SupplyChainError::InvalidRoleTransition.kind_spec() == ErrorKind::StateConflict
        },
{
}

/// Once the configuration has been set up, setting it up again fails,
/// whatever the identities offered; offered the same ones, it fails as a
/// state conflict.
pub proof fn lemma_config_initialized_once(
    config: SystemConfig,
    admin_wallet: Pubkey,
    oracle_wallet: Pubkey,
    admin_again: Pubkey,
    oracle_again: Pubkey,
)
    requires
        initialize_config_error(config, admin_wallet, oracle_wallet) is None,
    ensures
        initialize_config_error(
            initialized_config(admin_wallet, oracle_wallet),
            admin_again,
            oracle_again,
        ) is Some,
        initialize_config_error(
            initialized_config(admin_wallet, oracle_wallet),
            admin_wallet,
            oracle_wallet,
        ) == Some(CustomError::AlreadyInitialized),
        CustomError::AlreadyInitialized.kind_spec() == ErrorKind::StateConflict,
{
}

/// Once an identity has registered, registering it again fails as a state
/// conflict, whatever the profile digest.
pub proof fn lemma_user_registered_once(
    user: Pubkey,
    profile_hash: [u8; 32],
    now: i64,
    hash_again: [u8; 32],
)
    requires
        register_user_error(None, profile_hash) is None,
    ensures
        register_user_error(Some(registered_profile(user, profile_hash, now)), hash_again) == Some(
            CustomError::AlreadyRegistered,
        ),
        CustomError::AlreadyRegistered.kind_spec() == ErrorKind::StateConflict,
{
}

/// A telemetry summary from the oracle that is not strictly newer than the
/// stored one is refused as stale, whatever else it holds.
pub proof fn lemma_iot_timestamp_monotone(
    batch: Batch,
    oracle: Pubkey,
    config: SystemConfig,
    summary: IoTSummaryStruct,
    new_hash: [u8; 32],
    new_cid: Seq<char>,
)
    requires
        oracle == config.oracle_wallet,
        summary.timestamp <= batch.iot_summary.timestamp,
    ensures
        update_iot_summary_error(batch, oracle, config, summary, new_hash, new_cid) == Some(
            SupplyChainError::InvalidTimestamp,
        ),
        SupplyChainError::InvalidTimestamp.kind_spec() == ErrorKind::Staleness,
{
}

} // verus!
