use vstd::prelude::*;

use crate::errors::CustomError;
use crate::events::UserEvent;
use crate::state::{digest_is_zero, is_zero_digest, Pubkey, Role, SystemConfig, UserProfile};

verus! {

/// The first check that registration fails, if any. `slot` is the record
/// kept for the user's identity, if one was made before.
pub open spec fn register_user_error(slot: Option<UserProfile>, profile_hash: [u8; 32]) -> Option<
    CustomError,
> {
    if slot is Some {
        Some(CustomError::AlreadyRegistered)
    } else if is_zero_digest(profile_hash) {
        Some(CustomError::InvalidWallet)
    } else {
        None
    }
}

/// A freshly registered, unapproved profile.
pub open spec fn registered_profile(user: Pubkey, profile_hash: [u8; 32], now: i64) -> UserProfile {
    UserProfile {
        user_wallet: user,
        role: Role::Unassigned,
        profile_hash,
        is_approved: false,
        registered_at: now,
    }
}

/// What is announced about a profile.
pub open spec fn user_event_of(p: UserProfile) -> UserEvent {
    UserEvent {
        user_wallet: p.user_wallet,
        role: p.role,
        profile_hash: p.profile_hash,
        is_approved: p.is_approved,
    }
}

/// Registers `user` with no role, unapproved, into `slot`, which must still
/// be empty: each identity registers once.
pub fn register_user(
    slot: &mut Option<UserProfile>,
    user: Pubkey,
    profile_hash: [u8; 32],
    now: i64,
) -> (r: Result<UserEvent, CustomError>)
    ensures
        match r {
            Ok(ev) => {
                &&& register_user_error(*old(slot), profile_hash) is None
                &&& *final(slot) == Some(registered_profile(user, profile_hash, now))
                &&& ev == user_event_of(registered_profile(user, profile_hash, now))
            },
            Err(e) => {
                &&& register_user_error(*old(slot), profile_hash) == Some(e)
                &&& *final(slot) == *old(slot)
            },
        },
{
    if slot.is_some() {
        return Err(CustomError::AlreadyRegistered);
    }
    if digest_is_zero(&profile_hash) {
        return Err(CustomError::InvalidWallet);
    }
    let profile = UserProfile {
        user_wallet: user,
        role: Role::Unassigned,
        profile_hash,
        is_approved: false,
        registered_at: now,
    };
    *slot = Some(profile);
    Ok(UserEvent {
        user_wallet: profile.user_wallet,
        role: profile.role,
        profile_hash: profile.profile_hash,
        is_approved: profile.is_approved,
    })
}

/// The first check that approval fails, if any.
pub open spec fn approve_user_error(
    profile: UserProfile,
    admin: Pubkey,
    config: SystemConfig,
    role: Role,
) -> Option<CustomError> {
    if admin != config.admin_wallet {
        Some(CustomError::Unauthorized)
    } else if profile.is_approved {
        Some(CustomError::AlreadyApproved)
    } else if role == Role::Administrator {
        Some(CustomError::InvalidRole)
    } else {
        None
    }
}

/// The administrator grants `role` to a registered user, once. The
/// administrator role itself is never granted this way.
pub fn approve_user(
    user_profile: &mut UserProfile,
    admin: Pubkey,
    system_config: &SystemConfig,
    role: Role,
) -> (r: Result<UserEvent, CustomError>)
    ensures
        match r {
            Ok(ev) => {
                &&& approve_user_error(*old(user_profile), admin, *system_config, role) is None
                &&& *final(user_profile) == (UserProfile {
                    role,
                    is_approved: true,
                    ..*old(user_profile)
                })
                &&& ev == user_event_of(*final(user_profile))
            },
            Err(e) => {
                &&& approve_user_error(*old(user_profile), admin, *system_config, role) == Some(e)
                &&& *final(user_profile) == *old(user_profile)
            },
        },
{
    if !admin.equals(&system_config.admin_wallet) {
        return Err(CustomError::Unauthorized);
    }
    if user_profile.is_approved {
        return Err(CustomError::AlreadyApproved);
    }
    if role == Role::Administrator {
        return Err(CustomError::InvalidRole);
    }
    user_profile.role = role;
    user_profile.is_approved = true;
    Ok(UserEvent {
        user_wallet: user_profile.user_wallet,
        role: user_profile.role,
        profile_hash: user_profile.profile_hash,
        is_approved: user_profile.is_approved,
    })
}

} // verus!
