use vstd::prelude::*;

use crate::errors::SupplyChainError;
use crate::event_log::{append_event, has_room};
use crate::events::HandoverLogged;
use crate::state::{
    bounded_text, digest_is_zero, is_zero_digest, text_is_bounded, Batch, BatchStatus, Event,
    EventType, Pubkey, Role, UserProfile, DETAILS_CID_LENGTH,
};

verus! {

/// The custody transfers allowed between roles.
pub open spec fn legal_transition(from_role: Role, to_role: Role) -> bool {
    match from_role {
        Role::Producer => to_role == Role::Processor || to_role == Role::Distributor || to_role
            == Role::Retailer,
        Role::Processor => to_role == Role::Distributor || to_role == Role::Retailer,
        Role::Distributor => to_role == Role::Retailer,
        _ => false,
    }
}

/// The status a batch takes when handed to a holder of `role`.
pub open spec fn status_for_recipient(role: Role) -> BatchStatus {
    match role {
        Role::Processor => BatchStatus::InProcessing,
        Role::Distributor => BatchStatus::InTransit,
        Role::Retailer => BatchStatus::Sold,
        Role::Consumer => BatchStatus::Sold,
        _ => BatchStatus::InTransit,
    }
}

/// Accepts a custody transfer from a holder of `from_role` to a holder of
/// `to_role` exactly when the transition table allows it.
pub fn validate_role_transition(from_role: &Role, to_role: &Role) -> (r: Result<
    (),
    SupplyChainError,
>)
    ensures
        r is Ok <==> legal_transition(*from_role, *to_role),
        r is Err ==> r == Err::<(), SupplyChainError>(SupplyChainError::InvalidRoleTransition),
{
    let ok = match from_role {
        Role::Producer => match to_role {
            Role::Processor | Role::Distributor | Role::Retailer => true,
            _ => false,
        },
        Role::Processor => match to_role {
            Role::Distributor | Role::Retailer => true,
            _ => false,
        },
        Role::Distributor => match to_role {
            Role::Retailer => true,
            _ => false,
        },
        _ => false,
    };
    if ok {
        Ok(())
    } else {
        Err(SupplyChainError::InvalidRoleTransition)
    }
}

/// The status a batch takes when handed to a holder of `role`.
pub fn recipient_status(role: &Role) -> (r: BatchStatus)
    ensures
        r == status_for_recipient(*role),
{
    match role {
        Role::Processor => BatchStatus::InProcessing,
        Role::Distributor => BatchStatus::InTransit,
        Role::Retailer => BatchStatus::Sold,
        Role::Consumer => BatchStatus::Sold,
        _ => BatchStatus::InTransit,
    }
}

/// The first check that a handover fails, if any.
pub open spec fn handover_error(
    batch: Batch,
    from_profile: UserProfile,
    to_profile: UserProfile,
    from_user: Pubkey,
    to_user: Pubkey,
    to_wallet: Pubkey,
    details_hash: [u8; 32],
    details_cid: Seq<char>,
) -> Option<SupplyChainError> {
    if !from_profile.is_approved || !to_profile.is_approved {
        Some(SupplyChainError::UserNotApproved)
    } else if from_user != batch.current_owner {
        Some(SupplyChainError::NotCurrentOwner)
    } else if from_profile.user_wallet != from_user || to_profile.user_wallet != to_wallet
        || to_user != to_wallet {
        Some(SupplyChainError::WalletMismatch)
    } else if batch.status == BatchStatus::Flagged || batch.status == BatchStatus::Recalled {
        Some(SupplyChainError::BatchNotCompliant)
    } else if is_zero_digest(details_hash) {
        Some(SupplyChainError::InvalidDetailsHash)
    } else if !bounded_text(details_cid, DETAILS_CID_LENGTH as nat) {
        Some(SupplyChainError::InvalidDetailsCid)
    } else if !legal_transition(from_profile.role, to_profile.role) {
        Some(SupplyChainError::InvalidRoleTransition)
    } else if !has_room(batch, 1) {
        Some(SupplyChainError::TooManyEvents)
    } else {
        None
    }
}

/// Transfers custody of `batch` from its current owner `from_user` to
/// `to_wallet`, records the transfer in the event log, and sets the status
/// the recipient's role calls for.
pub fn log_handover(
    batch: &mut Batch,
    from_user_profile: &UserProfile,
    to_user_profile: &UserProfile,
    from_user: Pubkey,
    to_user: Pubkey,
    to_wallet: Pubkey,
    details_hash: [u8; 32],
    details_cid: String,
    now: i64,
) -> (r: Result<HandoverLogged, SupplyChainError>)
    requires
        old(batch).wf(),
    ensures
        final(batch).wf(),
        match r {
            Ok(ev) => {
                &&& handover_error(
                    *old(batch),
                    *from_user_profile,
                    *to_user_profile,
                    from_user,
                    to_user,
                    to_wallet,
                    details_hash,
                    details_cid@,
                ) is None
                &&& final(batch).events@ == old(batch).events@.push(
                    Event {
                        event_type: EventType::HandOver,
                        timestamp: now,
                        from_wallet: old(batch).current_owner,
                        to_wallet,
                        details_hash,
                        details_cid,
                    },
                )
                &&& *final(batch) == (Batch {
                    current_owner: to_wallet,
                    status: status_for_recipient(to_user_profile.role),
                    events: final(batch).events,
                    ..*old(batch)
                })
                &&& ev == (HandoverLogged {
                    batch_id: old(batch).id,
                    from_wallet: from_user,
                    to_wallet,
                    timestamp: now,
                })
            },
            Err(e) => {
                &&& handover_error(
                    *old(batch),
                    *from_user_profile,
                    *to_user_profile,
                    from_user,
                    to_user,
                    to_wallet,
                    details_hash,
                    details_cid@,
                ) == Some(e)
                &&& *final(batch) == *old(batch)
            },
        },
{
    if !from_user_profile.is_approved || !to_user_profile.is_approved {
        return Err(SupplyChainError::UserNotApproved);
    }
    if !from_user.equals(&batch.current_owner) {
        return Err(SupplyChainError::NotCurrentOwner);
    }
    if !from_user_profile.user_wallet.equals(&from_user) || !to_user_profile.user_wallet.equals(
        &to_wallet,
    ) || !to_user.equals(&to_wallet) {
        return Err(SupplyChainError::WalletMismatch);
    }
    if batch.status == BatchStatus::Flagged || batch.status == BatchStatus::Recalled {
        return Err(SupplyChainError::BatchNotCompliant);
    }
    if digest_is_zero(&details_hash) {
        return Err(SupplyChainError::InvalidDetailsHash);
    }
    if !text_is_bounded(details_cid.as_str(), DETAILS_CID_LENGTH) {
        return Err(SupplyChainError::InvalidDetailsCid);
    }
    validate_role_transition(&from_user_profile.role, &to_user_profile.role)?;
    let event = Event {
        event_type: EventType::HandOver,
        timestamp: now,
        from_wallet: batch.current_owner,
        to_wallet,
        details_hash,
        details_cid,
    };
    append_event(batch, event)?;
    batch.current_owner = to_wallet;
    batch.status = recipient_status(&to_user_profile.role);
    Ok(HandoverLogged { batch_id: batch.id.clone(), from_wallet: from_user, to_wallet, timestamp: now })
}

} // verus!
